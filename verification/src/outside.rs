//! The calls into outside crates, each behind a contract that is believed and not proved.
use std::str::FromStr;

use apollo_federation_types::config::FederationVersion as OutsideVersion;
use apollo_federation_types::config::{ConfigError, SupergraphConfig};
use apollo_federation_types::javascript::SubgraphDefinition;
use apollo_federation_types::rover::{BuildErrors, BuildHint, BuildResult};
use vstd::prelude::*;

use crate::version::{FederationVersion, FederationVersionView, Version, VersionView};

verus! {

/// The error of `semver`, carried as it is.
#[verifier::external_type_specification]
#[verifier::external_body]
pub struct ExSemverError(semver::Error);

/// The configuration error of `apollo_federation_types`, carried as it is.
#[verifier::external_type_specification]
#[verifier::external_body]
pub struct ExConfigError(apollo_federation_types::config::ConfigError);

/// The supergraph configuration of `apollo_federation_types`: a collection of subgraphs by name,
/// with a Federation version.
#[verifier::external_type_specification]
#[verifier::external_body]
pub struct ExSupergraphConfig(apollo_federation_types::config::SupergraphConfig);

/// A resolved subgraph of `apollo_federation_types`, carried as it is.
#[verifier::external_type_specification]
#[verifier::external_body]
pub struct ExSubgraphDefinition(apollo_federation_types::javascript::SubgraphDefinition);

/// A composition hint of `apollo_federation_types`, carried as it is.
#[verifier::external_type_specification]
#[verifier::external_body]
pub struct ExBuildHint(apollo_federation_types::rover::BuildHint);

/// The composition errors of `apollo_federation_types`, carried as they are.
#[verifier::external_type_specification]
#[verifier::external_body]
pub struct ExBuildErrors(apollo_federation_types::rover::BuildErrors);

/// The error of `serde_yaml`, carried as it is.
#[verifier::external_type_specification]
#[verifier::external_body]
pub struct ExYamlError(serde_yaml::Error);

/// The error of `serde_json`, carried as it is.
#[verifier::external_type_specification]
#[verifier::external_body]
pub struct ExJsonError(serde_json::Error);

/// The error of `std::str::from_utf8`, carried as it is.
#[verifier::external_type_specification]
#[verifier::external_body]
pub struct ExUtf8Error(std::str::Utf8Error);

// ---- semver ----

/// The error with which `semver::Version::parse` refuses a text.
pub uninterp spec fn semver_error(text: Seq<char>) -> semver::Error;

/// Calls `semver::Version::parse`.
///
/// The call succeeds on the texts that are the SemVer notation of a version, and gives that
/// version. On any other text it gives an error that depends on the text alone; what the error
/// says is left unsaid.
#[verifier::external_body]
pub(crate) fn parse_version(text: &str) -> (r: Result<Version, semver::Error>)
    ensures
        match r {
            Ok(v) => crate::version::denotes(text@, v@),
            Err(e) => e == semver_error(text@) && forall|v: VersionView|
                !#[trigger] crate::version::denotes(text@, v),
        },
{
    semver::Version::parse(text).map(
        |v|
            Version {
                major: v.major,
                minor: v.minor,
                patch: v.patch,
                pre: v.pre.as_str().to_string(),
                build: v.build.as_str().to_string(),
            },
    )
}

// ---- apollo_federation_types: versions ----

/// The error with which `FederationVersion::from_str` of `apollo_federation_types` refuses a text.
pub uninterp spec fn federation_version_error(text: Seq<char>) -> ConfigError;

/// Calls `FederationVersion::from_str` of `apollo_federation_types` on a text that starts with
/// `=`.
///
/// The call succeeds if the rest of the text is the SemVer notation of a version that is offered,
/// and gives that version in the major line that it belongs to. Otherwise it gives an error that
/// depends on the text alone; what the error says is left unsaid.
#[verifier::external_body]
pub(crate) fn parse_federation_version(text: &str) -> (r: Result<FederationVersion, ConfigError>)
    requires
        text@.len() > 0,
        text@[0] == '=',
    ensures
        match r {
            Ok(federation_version) => exists|v: VersionView|
                {
                    &&& #[trigger] crate::version::denotes(text@.skip(1), v)
                    &&& crate::version::is_offered(v)
                    &&& crate::version::federation_of(v) == Some(federation_version@)
                },
            Err(e) => e == federation_version_error(text@) && forall|v: VersionView| #[trigger]
                crate::version::denotes(text@.skip(1), v) ==> !crate::version::is_offered(v),
        },
{
    let plain = |v: semver::Version| Version {
        major: v.major,
        minor: v.minor,
        patch: v.patch,
        pre: v.pre.as_str().to_string(),
        build: v.build.as_str().to_string(),
    };
    Ok(match OutsideVersion::from_str(text)? {
        OutsideVersion::LatestFedOne => FederationVersion::LatestFedOne,
        OutsideVersion::LatestFedTwo => FederationVersion::LatestFedTwo,
        OutsideVersion::ExactFedOne(v) => FederationVersion::ExactFedOne(plain(v)),
        OutsideVersion::ExactFedTwo(v) => FederationVersion::ExactFedTwo(plain(v)),
    })
}

// ---- apollo_federation_types: the supergraph configuration ----

/// Where a configuration has the schema of a subgraph from: a file, a running server, Apollo
/// Studio, or the configuration itself.
pub enum SchemaEntry {
    File { file: Seq<char> },
    SubgraphIntrospection {
        subgraph_url: Seq<char>,
        introspection_headers: Option<Map<Seq<char>, Seq<char>>>,
    },
    Subgraph { graphref: Seq<char>, subgraph: Seq<char> },
    Sdl { sdl: Seq<char> },
}

/// What a configuration says of one subgraph: where requests for it go, and where its schema
/// comes from.
pub struct SubgraphEntry {
    pub routing_url: Option<Seq<char>>,
    pub schema: SchemaEntry,
}

/// The subgraphs of a configuration, by name.
pub uninterp spec fn config_subgraphs(config: SupergraphConfig) -> Map<Seq<char>, SubgraphEntry>;

/// The Federation version that a configuration asks for.
pub uninterp spec fn config_version(config: SupergraphConfig) -> Option<FederationVersionView>;

/// Calls `SupergraphConfig::get_federation_version`: the version that the configuration holds.
#[verifier::external_body]
pub(crate) fn get_config_version(config: &SupergraphConfig) -> (r: Option<FederationVersion>)
    ensures
        match r {
            Some(v) => config_version(*config) == Some(v@),
            None => config_version(*config) is None,
        },
{
    let plain = |v: semver::Version| Version {
        major: v.major,
        minor: v.minor,
        patch: v.patch,
        pre: v.pre.as_str().to_string(),
        build: v.build.as_str().to_string(),
    };
    Some(match config.get_federation_version()? {
        OutsideVersion::LatestFedOne => FederationVersion::LatestFedOne,
        OutsideVersion::LatestFedTwo => FederationVersion::LatestFedTwo,
        OutsideVersion::ExactFedOne(v) => FederationVersion::ExactFedOne(plain(v)),
        OutsideVersion::ExactFedTwo(v) => FederationVersion::ExactFedTwo(plain(v)),
    })
}

/// Calls `SupergraphConfig::set_federation_version`: the version is replaced, and the subgraphs
/// stay.
#[verifier::external_body]
pub(crate) fn set_config_version(config: &mut SupergraphConfig, version: FederationVersion)
    requires
        version@.exact() matches Some(v) ==> v.is_semver(),
    ensures
        config_version(*final(config)) == Some(version@),
        config_subgraphs(*final(config)) == config_subgraphs(*old(config)),
{
    let outside = |v: Version| semver::Version {
        major: v.major,
        minor: v.minor,
        patch: v.patch,
        pre: semver::Prerelease::new(&v.pre).unwrap(),
        build: semver::BuildMetadata::new(&v.build).unwrap(),
    };
    config.set_federation_version(match version {
        FederationVersion::LatestFedOne => OutsideVersion::LatestFedOne,
        FederationVersion::LatestFedTwo => OutsideVersion::LatestFedTwo,
        FederationVersion::ExactFedOne(v) => OutsideVersion::ExactFedOne(outside(v)),
        FederationVersion::ExactFedTwo(v) => OutsideVersion::ExactFedTwo(outside(v)),
    })
}

/// Why a configuration was refused.
#[derive(Debug, PartialEq, Eq)]
pub enum ConfigFault {
    InvalidConfiguration { message: String },
    MissingFile { file_path: String, message: String },
    /// Some subgraph has no routing URL, or its schema is not in the configuration.
    SubgraphsNotResolved { subgraph_names: String },
    NoSubgraphsFound,
}

/// Whether every subgraph has its routing URL and its schema.
pub open spec fn is_resolved(subgraphs: Map<Seq<char>, SubgraphEntry>) -> bool {
    forall|name: Seq<char>| #[trigger]
        subgraphs.contains_key(name) ==> subgraphs[name].routing_url is Some
            && subgraphs[name].schema is Sdl
}

/// How `SupergraphConfig::get_subgraph_definitions` lists the subgraphs that are not resolved.
pub uninterp spec fn unresolved_names(subgraphs: Map<Seq<char>, SubgraphEntry>) -> Seq<char>;

/// Calls `SupergraphConfig::get_subgraph_definitions`.
///
/// It gives one definition for each subgraph, if every one is resolved and there is one; what the
/// definitions hold is left unsaid, as they are only counted. Otherwise it says which of the two
/// fails, the first one first. The text that lists the unresolved subgraphs depends on the
/// subgraphs alone.
#[verifier::external_body]
pub(crate) fn get_definitions(config: &SupergraphConfig) -> (r: Result<
    Vec<SubgraphDefinition>,
    ConfigFault,
>)
    ensures
        match r {
            Ok(definitions) => {
                &&& is_resolved(config_subgraphs(*config))
                &&& config_subgraphs(*config).dom().finite()
                &&& definitions@.len() == config_subgraphs(*config).dom().len()
                &&& definitions@.len() > 0
            },
            Err(ConfigFault::SubgraphsNotResolved { subgraph_names }) => {
                &&& !is_resolved(config_subgraphs(*config))
                &&& subgraph_names@ == unresolved_names(config_subgraphs(*config))
            },
            Err(ConfigFault::NoSubgraphsFound) => config_subgraphs(*config) == Map::<
                Seq<char>,
                SubgraphEntry,
            >::empty(),
            Err(_) => false,
        },
{
    config.get_subgraph_definitions().map_err(|e| match e {
        ConfigError::InvalidConfiguration { message } => {
            ConfigFault::InvalidConfiguration { message }
        },
        ConfigError::MissingFile { file_path, message } => {
            ConfigFault::MissingFile { file_path, message }
        },
        ConfigError::SubgraphsNotResolved { subgraph_names } => {
            ConfigFault::SubgraphsNotResolved { subgraph_names }
        },
        ConfigError::NoSubgraphsFound => ConfigFault::NoSubgraphsFound,
    })
}

// ---- serde_yaml ----

/// Whether no subgraph has several request headers, whose order is not fixed.
pub open spec fn has_fixed_order(subgraphs: Map<Seq<char>, SubgraphEntry>) -> bool {
    forall|name: Seq<char>| #[trigger]
        subgraphs.contains_key(name) ==> (subgraphs[name].schema matches
            SchemaEntry::SubgraphIntrospection { introspection_headers: Some(headers), .. }
            ==> headers.dom().finite() && headers.dom().len() <= 1)
}

/// What `serde_yaml::to_string` gives for a configuration with these subgraphs and this version.
pub uninterp spec fn config_yaml(
    subgraphs: Map<Seq<char>, SubgraphEntry>,
    version: Option<FederationVersionView>,
) -> Result<Seq<char>, serde_yaml::Error>;

/// Calls `serde_yaml::to_string` on a configuration.
///
/// Where no subgraph has several request headers, the outcome depends on the subgraphs and the
/// version alone. Of other configurations nothing is said: headers are kept in a hash map and
/// written in no fixed order.
#[verifier::external_body]
pub(crate) fn write_yaml(config: &SupergraphConfig) -> (r: Result<String, serde_yaml::Error>)
    ensures
        has_fixed_order(config_subgraphs(*config)) ==> match r {
            Ok(yaml) => config_yaml(config_subgraphs(*config), config_version(*config)) == Ok::<
                Seq<char>,
                serde_yaml::Error,
            >(yaml@),
            Err(e) => config_yaml(config_subgraphs(*config), config_version(*config)) == Err::<
                Seq<char>,
                serde_yaml::Error,
            >(e),
        },
{
    serde_yaml::to_string(config)
}

// ---- serde_json ----

/// A supergraph that was composed, with the hints that composition gave.
pub struct BuildOutput {
    pub supergraph_sdl: String,
    pub hints: Vec<BuildHint>,
}

/// What a [`BuildOutput`] holds.
pub struct BuildOutputView {
    pub supergraph_sdl: Seq<char>,
    pub hints: Seq<BuildHint>,
}

impl View for BuildOutput {
    type V = BuildOutputView;

    open spec fn view(&self) -> BuildOutputView {
        BuildOutputView { supergraph_sdl: self.supergraph_sdl@, hints: self.hints@ }
    }
}

/// What came of reading the output of a composition: a supergraph, composition errors, or an
/// error where the output is no such thing.
pub enum BuildReading {
    Composed(BuildOutput),
    Refused(BuildErrors),
    Malformed(serde_json::Error),
}

/// What a [`BuildReading`] holds.
pub enum BuildReadingView {
    Composed(BuildOutputView),
    Refused(BuildErrors),
    Malformed(serde_json::Error),
}

impl View for BuildReading {
    type V = BuildReadingView;

    open spec fn view(&self) -> BuildReadingView {
        match self {
            BuildReading::Composed(output) => BuildReadingView::Composed(output@),
            BuildReading::Refused(errors) => BuildReadingView::Refused(*errors),
            BuildReading::Malformed(e) => BuildReadingView::Malformed(*e),
        }
    }
}

/// What `serde_json::from_str` reads, as a `BuildResult`, from a text.
pub uninterp spec fn build_reading(content: Seq<char>) -> BuildReadingView;

/// Calls `serde_json::from_str` for a `BuildResult` of `apollo_federation_types`. What is read
/// depends on the text alone.
#[verifier::external_body]
pub(crate) fn read_build_result(content: &str) -> (r: BuildReading)
    ensures
        r@ == build_reading(content@),
{
    match serde_json::from_str::<BuildResult>(content) {
        Ok(Ok(output)) => BuildReading::Composed(
            BuildOutput { supergraph_sdl: output.supergraph_sdl, hints: output.hints },
        ),
        Ok(Err(errors)) => BuildReading::Refused(errors),
        Err(e) => BuildReading::Malformed(e),
    }
}

// ---- camino ----

/// Calls `camino::Utf8Path::file_name`.
///
/// The name is the last part of the path, but for separators and `.` parts at the end; a path that
/// ends in `..`, a root, a drive, a share or a device has none. Which characters are separators,
/// and whether a path can start with a drive, a share or a device, rests on the platform and is
/// left unsaid. A path that starts with `\\?\` is taken apart by the rules of Unix or at `\` alone.
/// What comes of one with `/` behind its drive or behind `UNC` is left unsaid.
#[verifier::external_body]
pub(crate) fn file_name(path: &str) -> (r: Option<&str>)
    ensures
        crate::path::may_be_file_name(
            path@,
            match r {
                Some(name) => Some(name@),
                None => None,
            },
        ),
{
    camino::Utf8Path::new(path).file_name()
}

/// Calls `camino::Utf8Path::parent`.
///
/// The directory is the path without its last part, with the separators and the `.` parts in front
/// of that part left out; there is none for a root, a drive, a share, a device and the empty path.
/// Which characters are separators, and whether a path can start with a drive, a share or a
/// device, rests on the platform and is left unsaid. A path that starts with `\\?\` is taken apart
/// by the rules of Unix or at `\` alone, where `.` is a part like others. What comes of one with `/`
/// behind its drive or behind `UNC` is left unsaid.
#[verifier::external_body]
pub(crate) fn parent(path: &str) -> (r: Option<&str>)
    ensures
        crate::path::may_be_parent(
            path@,
            match r {
                Some(directory) => Some(directory@),
                None => None,
            },
        ),
{
    camino::Utf8Path::new(path).parent().map(|directory| directory.as_str())
}

/// Calls `camino::Utf8Path::join`: `path` taken relative to `base`.
///
/// A path with a drive, a share or a device stands for itself, and one that starts at a root keeps
/// that of the base. Any other is put behind the base, with a separator in between where the base
/// ends in none. What a separator, a drive, a share and a device are rests on the platform and is
/// left unsaid, and so is whether an empty path adds a separator. Behind a base that starts with
/// `\\?\`, the `.` and `..` parts may be resolved: of the result it is said how it starts, and that
/// the file name of the path comes last. Of such a base with `/` behind its drive or behind `UNC`
/// nothing is said.
#[verifier::external_body]
pub(crate) fn join(base: &str, path: &str) -> (r: String)
    ensures
        crate::path::may_be_join(base@, path@, r@),
{
    camino::Utf8Path::new(base).join(path).into_string()
}

// ---- std ----

/// The error with which `std::str::from_utf8` refuses bytes.
pub uninterp spec fn utf8_error(bytes: Seq<u8>) -> std::str::Utf8Error;

/// Calls `std::str::from_utf8`: the text that the bytes encode, or an error where they are not
/// UTF-8.
#[verifier::external_body]
pub(crate) fn utf8_text(bytes: &[u8]) -> (r: Result<&str, std::str::Utf8Error>)
    ensures
        match r {
            Ok(text) => vstd::utf8::valid_utf8(bytes@) && text@ == vstd::utf8::decode_utf8(bytes@),
            Err(e) => !vstd::utf8::valid_utf8(bytes@) && e == utf8_error(bytes@),
        },
{
    std::str::from_utf8(bytes)
}

} // verus!
