//! The compose command on a configuration that it resolves in full itself, phase by phase.
//!
//! [`Compose::run_resolving`] asks for a Studio client, [`Authenticating::authenticated`] for a
//! fully resolved configuration, [`Resolving::resolved`] for a configuration file,
//! [`SavingConfig::saved`] for an installation, [`InstallingVersion::installed`] for a run of the
//! binary, and [`RunningBinary::composed`] gives the result.
use apollo_federation_types::config::SupergraphConfig;
use vstd::prelude::*;

use crate::compose::Compose;
use crate::exec::{ComposeError, CompositionOutput, RoverOutput};
use crate::options::{FileDescriptorType, LicenseAccepter, SupergraphComposeOpts};
use crate::outside::{join, parent, write_yaml};
use crate::output::gate_output;
use crate::path::check_portable;
use crate::text::concat2;
use crate::version::{FederationVersion, FederationVersionView};

verus! {

/// The name of the configuration file.
pub const SUPERGRAPH_FILE_NAME: &'static str = "supergraph.yaml";

/// What is given back for the directory that a configuration file lies in.
pub open spec fn is_root_outcome<E>(
    directory: Option<Seq<char>>,
    r: Result<Option<String>, ComposeError<E>>,
) -> bool {
    match directory {
        Some(d) => r matches Ok(Some(root)) && root@ == d,
        None => r matches Err(ComposeError::NoParent),
    }
}

/// Whether a command that is run in `current_dir` may find the file `file` at `joined`, in
/// `directory`. On portable paths no platform's own separator comes in.
pub open spec fn may_lie_in(
    current_dir: Seq<char>,
    file: Seq<char>,
    joined: Seq<char>,
    directory: Option<Seq<char>>,
) -> bool {
    &&& crate::path::may_be_join(current_dir, file, joined)
    &&& crate::path::is_portable(current_dir) && crate::path::is_portable(file) ==> joined
        == crate::path::join_on(crate::path::Rules::Unix, current_dir, file)
    &&& crate::path::may_be_parent(joined, directory)
}

/// Whether `r` may be the directory that paths in a configuration are relative to, where the
/// command is run in `current_dir`: the one that the configuration file lies in. A configuration
/// that is no file has none.
pub open spec fn may_be_root<E>(
    source: Option<FileDescriptorType>,
    current_dir: Seq<char>,
    r: Result<Option<String>, ComposeError<E>>,
) -> bool {
    match source {
        Some(FileDescriptorType::File(file)) => exists|
            joined: Seq<char>,
            directory: Option<Seq<char>>,
        | #[trigger]
            may_lie_in(current_dir, file@, joined, directory) && is_root_outcome(directory, r),
        _ => r == Ok::<Option<String>, ComposeError<E>>(None),
    }
}

/// The directory that paths in a configuration are relative to, where the command is run in
/// `current_dir`.
pub fn supergraph_root<E>(source: &Option<FileDescriptorType>, current_dir: &str) -> (r: Result<
    Option<String>,
    ComposeError<E>,
>)
    ensures
        may_be_root(*source, current_dir@, r),
{
    match source {
        Some(FileDescriptorType::File(file)) => {
            let n: usize = current_dir.unicode_len();
            // A directory that ends in a separator is joined without one of the platform's.
            let base = if n > 0 && current_dir.get_char(n - 1) != '/' && check_portable(
                current_dir,
            ) && check_portable(file.as_str()) {
                concat2(current_dir, "/")
            } else {
                current_dir.to_owned()
            };
            let path = join(base.as_str(), file.as_str());
            proof {
                reveal_strlit("/");
                assert("/"@ =~= seq!['/']);
                lemma_joined(current_dir@, base@, file@, path@);
            }
            match parent(path.as_str()) {
                Some(directory) => {
                    assert(may_lie_in(current_dir@, file@, path@, Some(directory@)));
                    Ok(Some(directory.to_owned()))
                },
                None => {
                    assert(may_lie_in(current_dir@, file@, path@, None));
                    Err(ComposeError::NoParent)
                },
            }
        },
        _ => Ok(None),
    }
}

/// A portable directory may be given a separator at its end before a portable path is joined to
/// it.
proof fn lemma_joined(
    current_dir: Seq<char>,
    base: Seq<char>,
    file: Seq<char>,
    joined: Seq<char>,
)
    requires
        base == if current_dir.len() > 0 && current_dir.last() != '/' && crate::path::is_portable(
            current_dir,
        ) && crate::path::is_portable(file) {
            current_dir + seq!['/']
        } else {
            current_dir
        },
        crate::path::may_be_join(base, file, joined),
    ensures
        crate::path::may_be_join(current_dir, file, joined),
        crate::path::is_portable(current_dir) && crate::path::is_portable(file) ==> joined
            == crate::path::join_on(crate::path::Rules::Unix, current_dir, file),
{
    if crate::path::is_portable(current_dir) && crate::path::is_portable(file) {
        if base != current_dir {
            crate::path::lemma_closed(current_dir, file);
        }
        crate::path::lemma_join_behind_separator(crate::path::Rules::Drives, base, file);
        crate::path::lemma_join_behind_separator(crate::path::Rules::Shares, base, file);
    }
}

/// What the command was asked to do.
#[derive(Debug, PartialEq, Eq)]
pub struct Job {
    pub opts: SupergraphComposeOpts,
    pub override_install_path: Option<String>,
    pub output_file: Option<String>,
}

/// A Studio client is to be had for the profile of the options.
pub struct Authenticating {
    pub job: Job,
}

/// The subgraphs of the options' sources are to be loaded and fully resolved, relative to the
/// root where there is one.
pub struct Resolving {
    pub job: Job,
    pub supergraph_root: Option<String>,
}

/// A fully resolved configuration.
pub struct ResolvedSupergraph {
    pub config: SupergraphConfig,
    /// The version that it asks for.
    pub federation_version: FederationVersion,
}

/// The configuration is to be written to a file.
pub struct SavingConfig {
    pub job: Job,
    /// What the file is to hold.
    pub yaml: String,
    /// The version that the configuration asks for.
    pub config_version: FederationVersion,
}

/// Where the binary puts its result.
#[derive(Debug, PartialEq, Eq)]
pub enum OutputTarget {
    File(String),
    Stdout,
}

/// The `supergraph` binary of a version is to be installed.
pub struct InstallingVersion {
    pub federation_version: FederationVersion,
    pub override_install_path: Option<String>,
    pub elv2_license_accepter: LicenseAccepter,
    pub skip_update: bool,
    /// What to warn the user of.
    pub warning: Option<String>,
    pub output_target: OutputTarget,
    pub config_path: String,
}

/// The `supergraph` binary is to be run.
pub struct RunningBinary {
    pub output_target: OutputTarget,
    pub config_path: String,
}

/// The path of the file that a result is put into, if it is put into one.
pub open spec fn target_file(target: OutputTarget) -> Option<Seq<char>> {
    match target {
        OutputTarget::File(path) => Some(path@),
        OutputTarget::Stdout => None,
    }
}

/// The version to compose with: the one that the user gave comes before the one that the
/// configuration asks for.
pub open spec fn chosen_version(
    given: Option<FederationVersion>,
    config_version: FederationVersionView,
) -> FederationVersionView {
    match given {
        Some(version) => version@,
        None => config_version,
    }
}

impl Compose {
    /// Starts the command.
    pub fn run_resolving(
        &self,
        override_install_path: Option<String>,
        output_file: Option<String>,
    ) -> (r: Authenticating)
        ensures
            r.job == (Job { opts: self.opts, override_install_path, output_file }),
    {
        Authenticating { job: Job { opts: self.opts.clone(), override_install_path, output_file } }
    }
}

impl Authenticating {
    /// Goes on when there is a Studio client, or is none.
    pub fn authenticated<E>(self, client: Result<(), E>, current_dir: &str) -> (r: Result<
        Resolving,
        ComposeError<E>,
    >)
        ensures
            match client {
                Ok(()) => match r {
                    Ok(resolving) => {
                        &&& resolving.job == self.job
                        &&& may_be_root(
                            self.job.opts.supergraph_config_source.supergraph_yaml,
                            current_dir@,
                            Ok::<_, ComposeError<E>>(resolving.supergraph_root),
                        )
                    },
                    Err(e) => may_be_root(
                        self.job.opts.supergraph_config_source.supergraph_yaml,
                        current_dir@,
                        Err(e),
                    ),
                },
                Err(e) => r == Err::<Resolving, ComposeError<E>>(ComposeError::Outside(e)),
            },
    {
        match client {
            Ok(()) => {},
            Err(e) => return Err(ComposeError::Outside(e)),
        }
        match supergraph_root(
            &self.job.opts.supergraph_config_source.supergraph_yaml,
            current_dir,
        ) {
            Ok(supergraph_root) => Ok(Resolving { job: self.job, supergraph_root }),
            Err(e) => Err(e),
        }
    }
}

impl Resolving {
    /// Goes on when the configuration is resolved, or could not be.
    pub fn resolved<E>(self, resolved: Result<ResolvedSupergraph, E>) -> (r: Result<
        SavingConfig,
        ComposeError<E>,
    >)
        ensures
            match resolved {
                Ok(supergraph) => {
                    let subgraphs = crate::outside::config_subgraphs(supergraph.config);
                    let yaml = crate::outside::config_yaml(
                        subgraphs,
                        crate::outside::config_version(supergraph.config),
                    );
                    match r {
                        Ok(saving) => {
                            &&& saving.job == self.job
                            &&& saving.config_version == supergraph.federation_version
                            &&& crate::outside::has_fixed_order(subgraphs) ==> yaml == Ok::<
                                Seq<char>,
                                serde_yaml::Error,
                            >(saving.yaml@)
                        },
                        Err(ComposeError::Yaml(e)) => crate::outside::has_fixed_order(subgraphs)
                            ==> yaml == Err::<Seq<char>, serde_yaml::Error>(e),
                        Err(_) => false,
                    }
                },
                Err(e) => r == Err::<SavingConfig, ComposeError<E>>(ComposeError::Outside(e)),
            },
    {
        match resolved {
            Ok(supergraph) => match write_yaml(&supergraph.config) {
                Ok(yaml) => Ok(
                    SavingConfig {
                        job: self.job,
                        yaml,
                        config_version: supergraph.federation_version,
                    },
                ),
                Err(e) => Err(ComposeError::Yaml(e)),
            },
            Err(e) => Err(ComposeError::Outside(e)),
        }
    }
}

impl SavingConfig {
    /// The version to compose with.
    pub open spec fn version(self) -> FederationVersionView {
        chosen_version(self.job.opts.federation_version, self.config_version@)
    }

    /// Whether `i` installs the version to compose with, for a run on the configuration at
    /// `config_path`.
    pub open spec fn leads_to(self, config_path: String, i: InstallingVersion) -> bool {
        let asked = crate::text::optional(self.job.output_file);
        &&& self.version().exact() matches Some(v) && {
            &&& target_file(i.output_target) == crate::output::written_file(v, asked)
            &&& crate::text::optional(i.warning) == crate::output::output_warning(
                self.version(),
                v,
                asked,
            )
        }
        &&& i.federation_version@ == self.version()
        &&& i.override_install_path == self.job.override_install_path
        &&& i.elv2_license_accepter == self.job.opts.plugin_opts.elv2_license_accepter
        &&& i.skip_update == self.job.opts.plugin_opts.skip_update
        &&& i.config_path == config_path
    }

    /// Goes on when the configuration is written to a file, or is not.
    pub fn saved<E>(self, config_path: Result<String, E>) -> (r: Result<
        InstallingVersion,
        ComposeError<E>,
    >)
        ensures
            match config_path {
                Ok(config_path) => match r {
                    Ok(installing) => self.leads_to(config_path, installing),
                    Err(e) => e is NoExactVersion && self.version().exact() is None,
                },
                Err(e) => r == Err::<InstallingVersion, ComposeError<E>>(ComposeError::Outside(e)),
            },
    {
        let config_path = match config_path {
            Ok(config_path) => config_path,
            Err(e) => return Err(ComposeError::Outside(e)),
        };
        let federation_version = match &self.job.opts.federation_version {
            Some(version) => version.clone(),
            None => self.config_version.clone(),
        };
        let (output_file, warning) = match federation_version.get_exact() {
            Some(exact_version) => gate_output(
                &federation_version,
                exact_version,
                self.job.output_file,
            ),
            None => return Err(ComposeError::NoExactVersion),
        };
        let output_target = match output_file {
            Some(path) => OutputTarget::File(path),
            None => OutputTarget::Stdout,
        };
        Ok(
            InstallingVersion {
                federation_version,
                override_install_path: self.job.override_install_path,
                elv2_license_accepter: self.job.opts.plugin_opts.elv2_license_accepter,
                skip_update: self.job.opts.plugin_opts.skip_update,
                warning,
                output_target,
                config_path,
            },
        )
    }
}

impl InstallingVersion {
    /// Goes on when the binary is installed, or is not.
    pub fn installed<E>(self, installed: Result<(), E>) -> (r: Result<
        RunningBinary,
        ComposeError<E>,
    >)
        ensures
            r == match installed {
                Ok(()) => Ok::<RunningBinary, ComposeError<E>>(
                    RunningBinary {
                        output_target: self.output_target,
                        config_path: self.config_path,
                    },
                ),
                Err(e) => Err(ComposeError::Outside(e)),
            },
    {
        match installed {
            Ok(()) => Ok(
                RunningBinary { output_target: self.output_target, config_path: self.config_path },
            ),
            Err(e) => Err(ComposeError::Outside(e)),
        }
    }
}

impl RunningBinary {
    /// Ends the command when the binary has composed, or has not.
    pub fn composed<E>(self, result: Result<CompositionOutput, E>) -> (r: Result<
        RoverOutput,
        ComposeError<E>,
    >)
        ensures
            r == match result {
                Ok(output) => Ok::<RoverOutput, ComposeError<E>>(
                    RoverOutput::CompositionResult(output),
                ),
                Err(e) => Err(ComposeError::Outside(e)),
            },
    {
        match result {
            Ok(output) => Ok(RoverOutput::CompositionResult(output)),
            Err(e) => Err(ComposeError::Outside(e)),
        }
    }
}

} // verus!
