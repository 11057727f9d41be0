//! Composition with the `supergraph` binary, phase by phase.
//!
//! Each phase says what is to be done outside, and the next one takes up what came of it:
//! [`Compose::exec`] asks for an installation, [`Installing::installed`] for a configuration file,
//! [`WritingConfig::written`] for a run of the binary, and [`Composing::finished`] gives the
//! result.
use apollo_federation_types::config::SupergraphConfig;
use apollo_federation_types::rover::{BuildErrors, BuildHint};
use vstd::prelude::*;

use crate::compose::{Compose, InstallRequest};
use crate::extract::{format_version, ExtractError};
use crate::outside::{
    get_config_version, get_definitions, read_build_result, set_config_version, utf8_text,
    write_yaml, BuildReading, BuildReadingView, ConfigFault,
};
use crate::output::gate_output;
use crate::text::{concat2, concat3};
use crate::version::{FederationVersion, FederationVersionView};

verus! {

/// How the name of the directory for the configuration file starts.
pub const CONFIG_DIR_PREFIX: &'static str = "supergraph";

/// The name of the configuration file.
pub const CONFIG_FILE_NAME: &'static str = "config.yml";

/// Why composition did not succeed. `E` is what goes wrong outside.
#[derive(Debug)]
pub enum ComposeError<E> {
    Outside(E),
    /// There is no configuration.
    MissingConfig,
    /// The configuration file lies in no directory.
    NoParent,
    /// The configuration has no subgraphs, or not all of them are resolved.
    Config(ConfigFault),
    /// The configuration could not be written as YAML.
    Yaml(serde_yaml::Error),
    /// The version of the binary is not known.
    Extract(ExtractError),
    /// The version to compose with is no exact one.
    NoExactVersion,
    /// What the binary printed is not text.
    OutputNotUtf8 { context: String, utf8_error: std::str::Utf8Error },
    /// What the binary gave is not the result of a composition.
    MalformedOutput { context: String, output: String, json_error: serde_json::Error },
    /// The subgraphs do not compose.
    BuildErrors { build_errors: BuildErrors, num_subgraphs: usize },
}

/// What a user can do about an error.
#[derive(Debug, Clone, Copy, PartialEq, Eq)]
pub enum Suggestion {
    SubmitIssue,
}

impl<E> ComposeError<E> {
    /// What to suggest to the user: to report output that is malformed.
    pub fn suggestion(&self) -> (r: Option<Suggestion>)
        ensures
            r == if self is MalformedOutput {
                Some(Suggestion::SubmitIssue)
            } else {
                None
            },
    {
        match self {
            ComposeError::MalformedOutput { .. } => Some(Suggestion::SubmitIssue),
            _ => None,
        }
    }

    /// What to tell the user, where the error does not carry one that says so itself.
    pub fn message(&self) -> (r: Option<String>)
        ensures
            crate::text::optional(r) == match self {
                ComposeError::MissingConfig => Some("error getting supergraph config"@),
                ComposeError::NoExactVersion => Some("failed to get exact Federation version"@),
                ComposeError::Extract(ExtractError::UnsupportedFederation) => Some(
                    "unsupported Federation version"@,
                ),
                _ => None,
            },
    {
        match self {
            ComposeError::MissingConfig => Some("error getting supergraph config".to_owned()),
            ComposeError::NoExactVersion => Some(
                "failed to get exact Federation version".to_owned(),
            ),
            ComposeError::Extract(e) => e.message(),
            _ => None,
        }
    }
}

/// A composed supergraph.
#[derive(Debug)]
pub struct CompositionOutput {
    pub hints: Vec<BuildHint>,
    pub supergraph_sdl: String,
    /// The version of Federation that it was composed with.
    pub federation_version: Option<String>,
}

/// What a command gives back.
#[derive(Debug)]
pub enum RoverOutput {
    CompositionResult(CompositionOutput),
}

/// The `supergraph` binary is to be installed.
pub struct Installing {
    pub request: InstallRequest,
    /// The version that the configuration asks for.
    pub federation_version: FederationVersion,
    pub output_file: Option<String>,
}

/// The configuration is to be written to a file.
pub struct WritingConfig {
    /// The path of the binary.
    pub exe: String,
    /// What the file is to hold.
    pub yaml: String,
    pub num_subgraphs: usize,
    pub output_file: Option<String>,
}

/// The `supergraph` binary is to be run.
pub struct Composing {
    /// The path of the binary.
    pub exe: String,
    pub args: Vec<String>,
    /// What to tell the user first.
    pub announcement: String,
    /// What to warn the user of.
    pub warning: Option<String>,
    /// The file that the binary writes; it prints its result where there is none.
    pub output_file: Option<String>,
    pub federation_version: FederationVersion,
    pub num_subgraphs: usize,
}

/// What a run of the `supergraph` binary gave.
pub enum ComposeReply {
    /// The content of the file that it wrote.
    File(String),
    /// What it printed.
    Stdout(Vec<u8>),
}

impl Compose {
    /// Starts a composition: the binary of the version that the configuration asks for is needed.
    pub fn exec(
        &self,
        override_install_path: Option<String>,
        supergraph_config: &SupergraphConfig,
        output_file: Option<String>,
    ) -> (r: Installing)
        requires
            crate::outside::config_version(*supergraph_config) is Some,
        ensures
            crate::outside::config_version(*supergraph_config) == Some(r.federation_version@),
            r.request.asks_for(
                r.federation_version@,
                self.opts.plugin_opts,
                override_install_path,
            ),
            r.output_file == output_file,
    {
        let federation_version = get_config_version(supergraph_config).unwrap();
        Installing {
            request: self.maybe_install_supergraph(
                override_install_path,
                federation_version.clone(),
            ),
            federation_version,
            output_file,
        }
    }

    /// Starts a composition as [`Compose::exec`] does, if the configuration asks for a version.
    pub fn exec_if_versioned(
        &self,
        override_install_path: Option<String>,
        supergraph_config: &SupergraphConfig,
        output_file: Option<String>,
    ) -> (r: Option<Installing>)
        ensures
            match r {
                Some(installing) => {
                    &&& crate::outside::config_version(*supergraph_config) == Some(
                        installing.federation_version@,
                    )
                    &&& installing.request.asks_for(
                        installing.federation_version@,
                        self.opts.plugin_opts,
                        override_install_path,
                    )
                    &&& installing.output_file == output_file
                },
                None => crate::outside::config_version(*supergraph_config) is None,
            },
    {
        match get_config_version(supergraph_config) {
            Some(_) => Some(self.exec(override_install_path, supergraph_config, output_file)),
            None => None,
        }
    }

    /// What the command gives back for what came of [`Compose::exec`] and its phases.
    pub fn compose<E>(&self, executed: Result<CompositionOutput, ComposeError<E>>) -> (r: Result<
        RoverOutput,
        ComposeError<E>,
    >)
        ensures
            match executed {
                Ok(output) => r == Ok::<RoverOutput, ComposeError<E>>(
                    RoverOutput::CompositionResult(output),
                ),
                Err(e) => r == Err::<RoverOutput, ComposeError<E>>(e),
            },
    {
        match executed {
            Ok(output) => Ok(RoverOutput::CompositionResult(output)),
            Err(e) => Err(e),
        }
    }
}

impl Installing {
    /// Whether `after` is the configuration `before` made ready for the binary: it asks for the
    /// latest version of the major line only, and its subgraphs are those that it had.
    pub open spec fn configures(self, before: SupergraphConfig, after: SupergraphConfig) -> bool {
        &&& crate::outside::config_version(after) == Some(self.federation_version@.latest())
        &&& crate::outside::config_subgraphs(after) == crate::outside::config_subgraphs(before)
    }

    /// Whether the phase that follows on an installation of the binary at `exe` comes to `r`, for
    /// a configuration with these subgraphs.
    pub open spec fn leads_to<E>(
        self,
        exe: String,
        subgraphs: Map<Seq<char>, crate::outside::SubgraphEntry>,
        r: Result<WritingConfig, ComposeError<E>>,
    ) -> bool {
        let yaml = crate::outside::config_yaml(subgraphs, Some(self.federation_version@.latest()));
        match r {
            Ok(writing) => {
                &&& crate::outside::is_resolved(subgraphs)
                &&& subgraphs.dom().finite()
                &&& writing.num_subgraphs == subgraphs.dom().len()
                &&& writing.num_subgraphs > 0
                &&& yaml == Ok::<Seq<char>, serde_yaml::Error>(writing.yaml@)
                &&& writing.exe == exe
                &&& writing.output_file == self.output_file
            },
            Err(ComposeError::Config(ConfigFault::SubgraphsNotResolved { subgraph_names })) => {
                &&& !crate::outside::is_resolved(subgraphs)
                &&& subgraph_names@ == crate::outside::unresolved_names(subgraphs)
            },
            Err(ComposeError::Config(ConfigFault::NoSubgraphsFound)) => subgraphs == Map::<
                Seq<char>,
                crate::outside::SubgraphEntry,
            >::empty(),
            Err(ComposeError::Yaml(e)) => {
                &&& crate::outside::is_resolved(subgraphs)
                &&& subgraphs.dom().finite()
                &&& subgraphs.dom().len() > 0
                &&& yaml == Err::<Seq<char>, serde_yaml::Error>(e)
            },
            Err(_) => false,
        }
    }

    /// Goes on when the binary is installed at a path, or is not. The configuration that the
    /// binary reads asks for the latest version of the major line only: the binary checks no more
    /// than the major version.
    pub fn installed<E>(
        self,
        exe: Result<String, E>,
        supergraph_config: &mut SupergraphConfig,
    ) -> (r: Result<WritingConfig, ComposeError<E>>)
        ensures
            match exe {
                Ok(exe) => {
                    &&& self.configures(*old(supergraph_config), *final(supergraph_config))
                    &&& self.leads_to(
                        exe,
                        crate::outside::config_subgraphs(*old(supergraph_config)),
                        r,
                    )
                },
                Err(e) => {
                    &&& *final(supergraph_config) == *old(supergraph_config)
                    &&& r == Err::<WritingConfig, ComposeError<E>>(ComposeError::Outside(e))
                },
            },
    {
        let exe = match exe {
            Ok(exe) => exe,
            Err(e) => return Err(ComposeError::Outside(e)),
        };
        let latest = match self.federation_version.get_major_version() {
            2 => FederationVersion::LatestFedTwo,
            _ => FederationVersion::LatestFedOne,
        };
        set_config_version(supergraph_config, latest);
        let num_subgraphs: usize = match get_definitions(supergraph_config) {
            Ok(definitions) => definitions.len(),
            Err(e) => return Err(ComposeError::Config(e)),
        };
        match write_yaml(supergraph_config) {
            Ok(yaml) => Ok(
                WritingConfig { exe, yaml, num_subgraphs, output_file: self.output_file },
            ),
            Err(e) => Err(ComposeError::Yaml(e)),
        }
    }
}

/// What the user is told before composition.
pub open spec fn announcement_text(version: FederationVersionView) -> Seq<char> {
    "composing supergraph with Federation "@ + version.tarball()
}

/// The arguments of the binary.
pub open spec fn compose_args(yaml_path: Seq<char>, file: Option<Seq<char>>) -> Seq<Seq<char>> {
    match file {
        Some(file) => seq!["compose"@, yaml_path, file],
        None => seq!["compose"@, yaml_path],
    }
}

impl WritingConfig {
    /// Whether `c` runs the binary of an exact version on the configuration at `yaml_path`.
    pub open spec fn runs(
        self,
        yaml_path: Seq<char>,
        version: FederationVersionView,
        c: Composing,
    ) -> bool {
        &&& version.exact() matches Some(v) && {
            let asked = crate::text::optional(self.output_file);
            &&& crate::text::optional(c.output_file) == crate::output::written_file(v, asked)
            &&& crate::text::optional(c.warning) == crate::output::output_warning(
                version,
                v,
                asked,
            )
        }
        &&& crate::text::texts(c.args@) == compose_args(
            yaml_path,
            crate::text::optional(c.output_file),
        )
        &&& c.announcement@ == announcement_text(version)
        &&& c.federation_version@ == version
        &&& c.exe == self.exe
        &&& c.num_subgraphs == self.num_subgraphs
    }

    /// Whether the phase that follows on a configuration file at `yaml_path` comes to `r`, where
    /// `name` is the file name of the binary.
    pub open spec fn leads_to<E>(
        self,
        yaml_path: Seq<char>,
        name: Option<Seq<char>>,
        r: Result<Composing, ComposeError<E>>,
    ) -> bool {
        match r {
            Ok(c) => exists|version: FederationVersion| #[trigger]
                crate::extract::is_extracted_from(name, Ok(version)) && self.runs(
                    yaml_path,
                    version@,
                    c,
                ),
            Err(ComposeError::Extract(e)) => crate::extract::is_extracted_from(name, Err(e)),
            Err(_) => false,
        }
    }

    /// Prepares the run of the binary, whose version is known.
    pub fn run_version<E>(
        self,
        yaml_path: String,
        federation_version: FederationVersion,
    ) -> (r: Result<Composing, ComposeError<E>>)
        ensures
            match r {
                Ok(c) => self.runs(yaml_path@, federation_version@, c),
                Err(e) => e is NoExactVersion && federation_version@.exact() is None,
            },
    {
        let (output_file, warning) = match federation_version.get_exact() {
            Some(exact_version) => gate_output(
                &federation_version,
                exact_version,
                self.output_file,
            ),
            None => return Err(ComposeError::NoExactVersion),
        };
        let announcement = concat2(
            "composing supergraph with Federation ",
            federation_version.get_tarball_version().as_str(),
        );
        let mut args: Vec<String> = Vec::new();
        args.push("compose".to_owned());
        args.push(yaml_path);
        match &output_file {
            Some(path) => args.push(path.clone()),
            None => {},
        }
        assert(crate::text::texts(args@) =~= compose_args(
            yaml_path@,
            crate::text::optional(output_file),
        ));
        Ok(
            Composing {
                exe: self.exe,
                args,
                announcement,
                warning,
                output_file,
                federation_version,
                num_subgraphs: self.num_subgraphs,
            },
        )
    }

    /// Goes on when the configuration is written to a file, or is not.
    pub fn written<E>(self, yaml_path: Result<String, E>) -> (r: Result<Composing, ComposeError<E>>)
        ensures
            match yaml_path {
                Ok(yaml_path) => exists|name: Option<Seq<char>>| #[trigger]
                    crate::path::may_be_file_name(self.exe@, name) && self.leads_to(
                        yaml_path@,
                        name,
                        r,
                    ),
                Err(e) => r == Err::<Composing, ComposeError<E>>(ComposeError::Outside(e)),
            },
    {
        let yaml_path = match yaml_path {
            Ok(yaml_path) => yaml_path,
            Err(e) => return Err(ComposeError::Outside(e)),
        };
        match Compose::extract_federation_version(self.exe.as_str()) {
            Ok(federation_version) => {
                self.run_version(yaml_path, federation_version)
            },
            Err(e) => Err(ComposeError::Extract(e)),
        }
    }
}

/// What the user is told when the output of the binary is no text.
pub open spec fn not_utf8_text(exe: Seq<char>) -> Seq<char> {
    "Could not parse output of `"@ + exe + " compose`"@
}

/// What the user is told when the output of the binary is malformed.
pub open spec fn malformed_text(exe: Seq<char>) -> Seq<char> {
    "Output from `"@ + exe + " compose` was malformed."@
}

/// How the user is shown output that is malformed.
pub open spec fn shown_output_text(exe: Seq<char>, content: Seq<char>) -> Seq<char> {
    exe + " compose output: "@ + content
}

impl Composing {
    /// Whether a run of the binary that gave `content`, read as `reading`, comes to `r`.
    pub open spec fn concludes<E>(
        self,
        content: Seq<char>,
        reading: BuildReadingView,
        r: Result<CompositionOutput, ComposeError<E>>,
    ) -> bool {
        match reading {
            BuildReadingView::Composed(output) => r matches Ok(o) && {
                &&& o.hints@ == output.hints
                &&& o.supergraph_sdl@ == output.supergraph_sdl
                &&& crate::text::optional(o.federation_version) == Some(
                    seq!['v'] + self.federation_version@.text().skip(1),
                )
            },
            BuildReadingView::Refused(errors) => r == Err::<CompositionOutput, ComposeError<E>>(
                ComposeError::BuildErrors { build_errors: errors, num_subgraphs: self.num_subgraphs },
            ),
            BuildReadingView::Malformed(e) => r matches Err(
                ComposeError::MalformedOutput { context, output, json_error },
            ) && {
                &&& context@ == malformed_text(self.exe@)
                &&& output@ == shown_output_text(self.exe@, content)
                &&& json_error == e
            },
        }
    }

    /// The result of composition, where what the binary gave is read.
    pub fn concluded<E>(self, content: &str, reading: BuildReading) -> (r: Result<
        CompositionOutput,
        ComposeError<E>,
    >)
        ensures
            self.concludes(content@, reading@, r),
    {
        match reading {
            BuildReading::Composed(output) => Ok(
                CompositionOutput {
                    hints: output.hints,
                    supergraph_sdl: output.supergraph_sdl,
                    federation_version: Some(format_version(self.federation_version.to_string())),
                },
            ),
            BuildReading::Refused(errors) => Err(
                ComposeError::BuildErrors { build_errors: errors, num_subgraphs: self.num_subgraphs },
            ),
            BuildReading::Malformed(e) => Err(
                ComposeError::MalformedOutput {
                    context: concat3(
                        "Output from `",
                        self.exe.as_str(),
                        " compose` was malformed.",
                    ),
                    output: concat3(self.exe.as_str(), " compose output: ", content),
                    json_error: e,
                },
            ),
        }
    }

    /// Whether a composition whose binary gave `reply` comes to `r`.
    pub open spec fn ends_with<E>(
        self,
        reply: Result<ComposeReply, E>,
        r: Result<CompositionOutput, ComposeError<E>>,
    ) -> bool {
        match reply {
            Ok(ComposeReply::File(content)) => self.concludes(
                content@,
                crate::outside::build_reading(content@),
                r,
            ),
            Ok(ComposeReply::Stdout(bytes)) => if vstd::utf8::valid_utf8(bytes@) {
                let content = vstd::utf8::decode_utf8(bytes@);
                self.concludes(content, crate::outside::build_reading(content), r)
            } else {
                r matches Err(ComposeError::OutputNotUtf8 { context, utf8_error }) && context@
                    == not_utf8_text(self.exe@) && utf8_error == crate::outside::utf8_error(bytes@)
            },
            Err(e) => r == Err::<CompositionOutput, ComposeError<E>>(ComposeError::Outside(e)),
        }
    }

    /// Ends a composition when the binary has run, or could not.
    pub fn finished<E>(self, reply: Result<ComposeReply, E>) -> (r: Result<
        CompositionOutput,
        ComposeError<E>,
    >)
        ensures
            self.ends_with(reply, r),
    {
        match reply {
            Ok(ComposeReply::File(content)) => {
                let reading = read_build_result(content.as_str());
                self.concluded(content.as_str(), reading)
            },
            Ok(ComposeReply::Stdout(bytes)) => match utf8_text(bytes.as_slice()) {
                Ok(content) => {
                    let reading = read_build_result(content);
                    self.concluded(content, reading)
                },
                Err(e) => Err(
                    ComposeError::OutputNotUtf8 {
                        context: concat3(
                            "Could not parse output of `",
                            self.exe.as_str(),
                            " compose`",
                        ),
                        utf8_error: e,
                    },
                ),
            },
            Err(e) => Err(ComposeError::Outside(e)),
        }
    }
}

} // verus!
