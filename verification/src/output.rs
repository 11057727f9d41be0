//! Whether composition writes its result to a file.
use vstd::prelude::*;

use crate::text::concat3;
use crate::version::{FederationVersion, FederationVersionView, Version, VersionView};

verus! {

/// Whether the `supergraph` binary of this version can write to a file: from 2.9.0 on.
pub open spec fn writes_files(v: VersionView) -> bool {
    v.major > 2 || v.major == 2 && v.minor >= 9
}

/// The file that composition writes to, where `asked` is the one that the user asked for.
pub open spec fn written_file(v: VersionView, asked: Option<Seq<char>>) -> Option<Seq<char>> {
    if writes_files(v) {
        asked
    } else {
        None
    }
}

/// What the user is told when a file is asked for that the binary of this version cannot write.
pub open spec fn ignored_output_text(version: FederationVersionView) -> Seq<char> {
    "ignoring `--output` because it is not supported in this version of the dependent binary, `supergraph`: "@
        + version.text()
        + ". Upgrade to Federation 2.9.0 or greater to install a version of the binary that supports it."@
}

/// The warning that goes with [`written_file`].
pub open spec fn output_warning(
    version: FederationVersionView,
    v: VersionView,
    asked: Option<Seq<char>>,
) -> Option<Seq<char>> {
    if asked is Some && !writes_files(v) {
        Some(ignored_output_text(version))
    } else {
        None
    }
}

/// Whether the `supergraph` binary of this version can write to a file.
pub fn supports_output(version: &Version) -> (r: bool)
    ensures
        r == writes_files(version@),
{
    !(version.major < 2 || (version.major == 2 && version.minor < 9))
}

/// Drops the file that the user asked for where the binary cannot write it, with a warning.
pub fn gate_output(
    federation_version: &FederationVersion,
    exact_version: &Version,
    output_file: Option<String>,
) -> (r: (Option<String>, Option<String>))
    ensures
        crate::text::optional(r.0) == written_file(
            exact_version@,
            crate::text::optional(output_file),
        ),
        crate::text::optional(r.1) == output_warning(
            federation_version@,
            exact_version@,
            crate::text::optional(output_file),
        ),
{
    if output_file.is_some() && !supports_output(exact_version) {
        let warning = concat3(
            "ignoring `--output` because it is not supported in this version of the dependent binary, `supergraph`: ",
            federation_version.to_string().as_str(),
            ". Upgrade to Federation 2.9.0 or greater to install a version of the binary that supports it.",
        );
        (None, Some(warning))
    } else {
        (output_file, None)
    }
}

} // verus!
