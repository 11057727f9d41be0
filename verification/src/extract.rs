//! The Federation version in the name of a `supergraph` executable.
use vstd::prelude::*;

use crate::compose::Compose;
use crate::outside::{file_name, parse_version};
use crate::text::{concat2, trim_prefix, trim_suffix};
use crate::version::{FederationVersion, Version};

verus! {

/// Why no Federation version was found in the path of an executable.
#[derive(Debug)]
pub enum ExtractError {
    /// The path ends in no file name.
    NoFileName,
    /// The file name holds no version.
    Version(semver::Error),
    /// The version is of no major line of Federation that is supported.
    UnsupportedFederation,
}

impl ExtractError {
    /// What to tell the user of an unsupported version. An error of `semver` speaks for itself.
    pub fn message(&self) -> (r: Option<String>)
        ensures
            crate::text::optional(r) == match self {
                ExtractError::UnsupportedFederation => Some("unsupported Federation version"@),
                _ => None,
            },
    {
        match self {
            ExtractError::UnsupportedFederation => Some(
                "unsupported Federation version".to_owned(),
            ),
            _ => None,
        }
    }
}

/// The part of a file name that is read as a version: what is left without `.exe` at the end and
/// without `supergraph-v` in front.
pub open spec fn version_part(file_name: Seq<char>) -> Seq<char> {
    crate::text::without_prefix(
        crate::text::without_suffix(file_name, ".exe"@),
        "supergraph-v"@,
    )
}

/// Whether `r` is what comes of reading a version in `file_name`.
pub open spec fn is_read_from(
    file_name: Seq<char>,
    r: Result<FederationVersion, ExtractError>,
) -> bool {
    let part = version_part(file_name);
    match crate::version::version_denoted(part) {
        Some(v) => match crate::version::federation_of(v) {
            Some(version) => r matches Ok(read) && read@ == version,
            None => r matches Err(ExtractError::UnsupportedFederation),
        },
        None => r == Err::<FederationVersion, ExtractError>(
            ExtractError::Version(crate::outside::semver_error(part)),
        ),
    }
}

/// Whether `r` is what comes of reading a version in the file name of a path, if there is one.
pub open spec fn is_extracted_from(
    file_name: Option<Seq<char>>,
    r: Result<FederationVersion, ExtractError>,
) -> bool {
    match file_name {
        Some(name) => is_read_from(name, r),
        None => r matches Err(ExtractError::NoFileName),
    }
}

/// The Federation version that an exact version is, if its major line is supported.
pub fn federation_version_of(version: Version) -> (r: Result<FederationVersion, ExtractError>)
    ensures
        match r {
            Ok(federation_version) => crate::version::federation_of(version@) == Some(federation_version@),
            Err(e) => e is UnsupportedFederation && crate::version::federation_of(version@) is None,
        },
{
    match version.major {
        0 | 1 => Ok(FederationVersion::ExactFedOne(version)),
        2 => Ok(FederationVersion::ExactFedTwo(version)),
        _ => Err(ExtractError::UnsupportedFederation),
    }
}

/// Reads the version in the name of an executable.
pub fn federation_version_in(file_name: &str) -> (r: Result<FederationVersion, ExtractError>)
    ensures
        is_read_from(file_name@, r),
{
    let without_exe = trim_suffix(file_name, ".exe");
    match parse_version(trim_prefix(without_exe, "supergraph-v")) {
        Ok(version) => {
            proof {
                crate::laws::notation::law_denoted_version(version_part(file_name@), version@);
            }
            federation_version_of(version)
        },
        Err(e) => Err(ExtractError::Version(e)),
    }
}

impl Compose {
    /// Extracts the Federation version from the path of an executable.
    pub fn extract_federation_version(exe: &str) -> (r: Result<FederationVersion, ExtractError>)
        ensures
            exists|name: Option<Seq<char>>| #[trigger]
                crate::path::may_be_file_name(exe@, name) && is_extracted_from(name, r),
    {
        match file_name(exe) {
            Some(name) => {
                let r = federation_version_in(name);
                assert(crate::path::may_be_file_name(exe@, Some(name@)));
                r
            },
            None => {
                assert(crate::path::may_be_file_name(exe@, None));
                Err(ExtractError::NoFileName)
            },
        }
    }
}

/// Formats a version for reading: the `=` in front of an exact version becomes a `v`.
pub fn format_version(version: String) -> (r: String)
    requires
        version@.len() > 0,
        version@[0] <= '\x7f',
    ensures
        r@ == seq!['v'] + version@.skip(1),
{
    proof {
        reveal_strlit("v");
        assert("v"@ =~= seq!['v']);
    }
    let text = version.as_str();
    let unformatted = text.substring_char(1, text.unicode_len());
    concat2("v", unformatted)
}

} // verus!
