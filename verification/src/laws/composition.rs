//! What a composition does and reports.
use apollo_federation_types::config::SupergraphConfig;
use apollo_federation_types::rover::BuildErrors;
use vstd::prelude::*;

use crate::exec::{
    ComposeError, ComposeReply, Composing, CompositionOutput, Installing, WritingConfig,
};
use crate::outside::{
    BuildOutput, BuildOutputView, BuildReading, BuildReadingView, ConfigFault, SubgraphEntry,
};
use crate::resolving::{InstallingVersion, SavingConfig};
use crate::version::{FederationVersion, FederationVersionView, VersionView};

verus! {

/// Whatever was asked for, a composition reports the version in the name of the binary that
/// composed.
pub proof fn law_composition_reports_the_version_of_its_binary<E>(
    writing: WritingConfig,
    yaml_path: Seq<char>,
    name: Seq<char>,
    composing: Composing,
    content: Seq<char>,
    output: BuildOutputView,
    r: Result<CompositionOutput, ComposeError<E>>,
)
    requires
        writing.leads_to(yaml_path, Some(name), Ok::<Composing, ComposeError<E>>(composing)),
        composing.concludes(content, BuildReadingView::Composed(output), r),
    ensures
        r matches Ok(o) && crate::text::optional(o.federation_version) == Some(
            seq!['v'] + crate::extract::version_part(name),
        ),
{
    let version = choose|version: FederationVersion| #[trigger]
        crate::extract::is_extracted_from(Some(name), Ok(version)) && writing.runs(
            yaml_path,
            version@,
            composing,
        );
    crate::laws::notation::law_formatted_version_is_tarball_version(version@);
}

/// The binary is told to write a file if and only if the user asked for one and the binary can:
/// it is then the last argument. The user is warned if and only if a file was asked for in vain.
pub proof fn law_output_file_is_used_or_warned_of(
    writing: WritingConfig,
    yaml_path: Seq<char>,
    version: FederationVersionView,
    composing: Composing,
)
    requires
        writing.runs(yaml_path, version, composing),
    ensures
        ({
            let can = crate::output::writes_files(version.exact()->0);
            let args = crate::text::texts(composing.args@);
            &&& composing.output_file is Some <==> writing.output_file is Some && can
            &&& composing.warning is Some <==> writing.output_file is Some && !can
            &&& args.len() == 3 <==> composing.output_file is Some
            &&& composing.output_file matches Some(file) ==> args.last() == file@ && file@
                == writing.output_file->0@
        }),
{
}

/// Where the subgraphs do not compose, the user is told how many there are: as many as the
/// configuration holds.
pub proof fn law_build_errors_count_the_subgraphs<E>(
    installing: Installing,
    exe: String,
    subgraphs: Map<Seq<char>, SubgraphEntry>,
    writing: WritingConfig,
    yaml_path: Seq<char>,
    version: FederationVersionView,
    composing: Composing,
    content: Seq<char>,
    errors: BuildErrors,
    r: Result<CompositionOutput, ComposeError<E>>,
)
    requires
        installing.leads_to(exe, subgraphs, Ok::<WritingConfig, ComposeError<E>>(writing)),
        writing.runs(yaml_path, version, composing),
        composing.concludes(content, BuildReadingView::Refused(errors), r),
    ensures
        r matches Err(ComposeError::BuildErrors { build_errors, num_subgraphs }) && build_errors
            == errors && num_subgraphs == subgraphs.dom().len(),
{
}

/// Both forms of the command treat a file that the user asks for alike: for the same version and
/// the same file, the same file is written and the same warning given.
pub proof fn law_both_commands_treat_output_alike(
    writing: WritingConfig,
    yaml_path: Seq<char>,
    composing: Composing,
    saving: SavingConfig,
    config_path: String,
    installing: InstallingVersion,
)
    requires
        writing.runs(yaml_path, saving.version(), composing),
        saving.leads_to(config_path, installing),
        writing.output_file == saving.job.output_file,
    ensures
        crate::text::optional(composing.output_file) == crate::resolving::target_file(
            installing.output_target,
        ),
        crate::text::optional(composing.warning) == crate::text::optional(installing.warning),
{
}

/// Whether two errors say the same.
pub open spec fn same_error<E>(a: ComposeError<E>, b: ComposeError<E>) -> bool {
    match (a, b) {
        (
            ComposeError::Config(ConfigFault::SubgraphsNotResolved { subgraph_names: names }),
            ComposeError::Config(ConfigFault::SubgraphsNotResolved { subgraph_names: others }),
        ) => names@ == others@,
        (
            ComposeError::OutputNotUtf8 { context: c, utf8_error: e },
            ComposeError::OutputNotUtf8 { context: d, utf8_error: f },
        ) => c@ == d@ && e == f,
        (
            ComposeError::MalformedOutput { context: c, output: o, json_error: e },
            ComposeError::MalformedOutput { context: d, output: p, json_error: f },
        ) => c@ == d@ && o@ == p@ && e == f,
        _ => a == b,
    }
}

/// Whether two compositions have the same result, be it a supergraph or an error.
pub open spec fn same_result<E>(
    a: Result<CompositionOutput, ComposeError<E>>,
    b: Result<CompositionOutput, ComposeError<E>>,
) -> bool {
    match (a, b) {
        (Ok(o), Ok(p)) => {
            &&& o.hints@ == p.hints@
            &&& o.supergraph_sdl@ == p.supergraph_sdl@
            &&& crate::text::optional(o.federation_version) == crate::text::optional(
                p.federation_version,
            )
        },
        (Err(e), Err(f)) => same_error(e, f),
        _ => false,
    }
}

/// A composition as a whole: what each of its phases comes to, and the configuration that the
/// binary reads.
pub struct Course<E> {
    pub installing: Installing,
    pub config: SupergraphConfig,
    pub writing: Result<WritingConfig, ComposeError<E>>,
    pub composing: Result<Composing, ComposeError<E>>,
    pub result: Result<CompositionOutput, ComposeError<E>>,
}

impl<E> Course<E> {
    /// Whether each phase follows on the one before, and the first error ends the composition. The
    /// binary is installed at `exe`, where `name` is its file name, reads the configuration at
    /// `yaml_path` and replies with `reply`.
    pub open spec fn runs_through(
        self,
        before: SupergraphConfig,
        exe: String,
        yaml_path: Seq<char>,
        name: Option<Seq<char>>,
        reply: Result<ComposeReply, E>,
    ) -> bool {
        let subgraphs = crate::outside::config_subgraphs(before);
        &&& self.installing.configures(before, self.config)
        &&& self.installing.leads_to(exe, subgraphs, self.writing)
        &&& match self.writing {
            Ok(writing) => writing.leads_to(yaml_path, name, self.composing),
            Err(e) => self.composing == Err::<Composing, ComposeError<E>>(e),
        }
        &&& match self.composing {
            Ok(composing) => composing.ends_with(reply, self.result),
            Err(e) => self.result == Err::<CompositionOutput, ComposeError<E>>(e),
        }
    }
}

/// Where the binary cannot write files, asking for one changes nothing but the warning: the
/// binary is run with the same arguments, writes no file, and the result and the configuration
/// are the same as when no file is asked for.
pub proof fn law_file_asked_of_an_old_binary_changes_nothing<E>(
    asking: Course<E>,
    not_asking: Course<E>,
    before: SupergraphConfig,
    exe: String,
    yaml_path: Seq<char>,
    name: Option<Seq<char>>,
    reply: Result<ComposeReply, E>,
)
    requires
        asking.runs_through(before, exe, yaml_path, name, reply),
        not_asking.runs_through(before, exe, yaml_path, name, reply),
        asking.installing.federation_version@ == not_asking.installing.federation_version@,
        asking.installing.output_file is Some,
        not_asking.installing.output_file is None,
        forall|version: FederationVersion| #[trigger]
            crate::extract::is_extracted_from(name, Ok(version)) ==> !crate::output::writes_files(
                version@.exact()->0,
            ),
    ensures
        same_result(asking.result, not_asking.result),
        crate::outside::config_version(asking.config) == crate::outside::config_version(
            not_asking.config,
        ),
        crate::outside::config_subgraphs(asking.config) == crate::outside::config_subgraphs(
            not_asking.config,
        ),
        asking.composing is Ok == not_asking.composing is Ok,
        asking.composing matches Ok(composing) ==> {
            let other = not_asking.composing->Ok_0;
            &&& crate::text::texts(composing.args@) == crate::text::texts(other.args@)
            &&& composing.exe == other.exe
            &&& composing.announcement@ == other.announcement@
            &&& composing.output_file is None
            &&& other.output_file is None
            &&& composing.warning is Some
            &&& other.warning is None
        },
{
    assert(asking.writing is Ok == not_asking.writing is Ok);
    if asking.writing is Ok {
        let (a, b) = (asking.writing->Ok_0, not_asking.writing->Ok_0);
        assert(a.exe == b.exe && a.num_subgraphs == b.num_subgraphs);
        if asking.composing is Ok && not_asking.composing is Ok {
            let (c, d) = (asking.composing->Ok_0, not_asking.composing->Ok_0);
            assert(c.federation_version@ == d.federation_version@);
        }
    }
}

/// Whether `version` is the exact version `v`, of either line.
pub open spec fn is_exactly(version: FederationVersionView, v: VersionView) -> bool {
    version == FederationVersionView::ExactFedOne(v) || version
        == FederationVersionView::ExactFedTwo(v)
}

/// Whether `o` is the composed supergraph with all its hints in order, composed with the version
/// `v`.
pub open spec fn is_supergraph(
    o: CompositionOutput,
    sdl: Seq<char>,
    hints: Seq<apollo_federation_types::rover::BuildHint>,
    v: VersionView,
) -> bool {
    &&& o.supergraph_sdl@ == sdl
    &&& o.hints@.len() == hints.len()
    &&& forall|i: int| 0 <= i < hints.len() ==> #[trigger] o.hints@[i] == hints[i]
    &&& o.federation_version matches Some(shown) && shown@ == seq!['v'] + v.text()
}

/// A composition whose output reads as a supergraph succeeds with that schema and every one of
/// the hints, each at its place, and reports the version.
pub proof fn law_supergraph_is_handed_on_whole<E>(
    composing: Composing,
    v: VersionView,
    content: Seq<char>,
    output: BuildOutputView,
    r: Result<CompositionOutput, ComposeError<E>>,
)
    requires
        is_exactly(composing.federation_version@, v),
        composing.concludes(content, BuildReadingView::Composed(output), r),
    ensures
        r matches Ok(o) && is_supergraph(o, output.supergraph_sdl, output.hints, v),
{
    assert((seq!['='] + v.text()).skip(1) =~= v.text());
}

/// A composition whose output reads as build errors fails with those errors, and one whose output
/// cannot be read fails with the reason, the output and the name of the binary.
pub proof fn law_failures_are_handed_on_whole<E>(
    composing: Composing,
    content: Seq<char>,
    reading: BuildReadingView,
    r: Result<CompositionOutput, ComposeError<E>>,
)
    requires
        composing.concludes(content, reading, r),
    ensures
        r is Ok <==> reading is Composed,
        match reading {
            BuildReadingView::Refused(errors) => r matches Err(
                ComposeError::BuildErrors { build_errors, num_subgraphs },
            ) && build_errors == errors && num_subgraphs == composing.num_subgraphs,
            BuildReadingView::Malformed(e) => r matches Err(
                ComposeError::MalformedOutput { context, output, json_error },
            ) && {
                &&& json_error == e
                &&& context@ == "Output from `"@ + composing.exe@ + " compose` was malformed."@
                &&& output@ == composing.exe@ + " compose output: "@ + content
            },
            BuildReadingView::Composed(_) => true,
        },
{
}

/// What the binary prints counts as what it writes to a file does: the text is read, and the
/// reading decides. Output that is no text and a binary that did not run are told apart from that.
pub proof fn law_output_is_read_from_wherever_it_is<E>(
    composing: Composing,
    reply: Result<ComposeReply, E>,
    r: Result<CompositionOutput, ComposeError<E>>,
)
    requires
        composing.ends_with(reply, r),
    ensures
        match reply {
            Ok(ComposeReply::File(text)) => composing.concludes(
                text@,
                crate::outside::build_reading(text@),
                r,
            ),
            Ok(ComposeReply::Stdout(bytes)) => {
                let text = vstd::utf8::decode_utf8(bytes@);
                &&& vstd::utf8::valid_utf8(bytes@) ==> composing.concludes(
                    text,
                    crate::outside::build_reading(text),
                    r,
                )
                &&& !vstd::utf8::valid_utf8(bytes@) ==> (r matches Err(
                    ComposeError::OutputNotUtf8 { context, utf8_error },
                ) && utf8_error == crate::outside::utf8_error(bytes@) && context@
                    == "Could not parse output of `"@ + composing.exe@ + " compose`"@)
            },
            Err(e) => r matches Err(ComposeError::Outside(error)) && error == e,
        },
{
}

/// Whether the binary gave the text `content`, in a file or in print.
pub open spec fn gives<E>(reply: Result<ComposeReply, E>, content: Seq<char>) -> bool {
    match reply {
        Ok(ComposeReply::File(text)) => text@ == content,
        Ok(ComposeReply::Stdout(bytes)) => vstd::utf8::valid_utf8(bytes@)
            && vstd::utf8::decode_utf8(bytes@) == content,
        Err(_) => false,
    }
}

/// From what the binary gives to the result: a composition succeeds if and only if what the binary
/// gives reads as a supergraph, and then with all of it.
pub proof fn law_given_supergraph_is_the_result<E>(
    composing: Composing,
    v: VersionView,
    reply: Result<ComposeReply, E>,
    content: Seq<char>,
    r: Result<CompositionOutput, ComposeError<E>>,
)
    requires
        is_exactly(composing.federation_version@, v),
        gives(reply, content),
        composing.ends_with(reply, r),
    ensures
        match crate::outside::build_reading(content) {
            BuildReadingView::Composed(output) => r matches Ok(o) && is_supergraph(
                o,
                output.supergraph_sdl,
                output.hints,
                v,
            ),
            BuildReadingView::Refused(errors) => r matches Err(
                ComposeError::BuildErrors { build_errors, num_subgraphs },
            ) && build_errors == errors && num_subgraphs == composing.num_subgraphs,
            BuildReadingView::Malformed(_) => r matches Err(ComposeError::MalformedOutput { .. }),
        },
{
    assert((seq!['='] + v.text()).skip(1) =~= v.text());
}

/// Nothing of what was read is lost or changed in what is said of it.
pub proof fn law_readings_are_held_as_they_are(output: BuildOutput, reading: BuildReading)
    ensures
        output@.supergraph_sdl == output.supergraph_sdl@,
        output@.hints == output.hints@,
        match reading {
            BuildReading::Composed(o) => reading@ == BuildReadingView::Composed(o@),
            BuildReading::Refused(errors) => reading@ == BuildReadingView::Refused(errors),
            BuildReading::Malformed(e) => reading@ == BuildReadingView::Malformed(e),
        },
{
}

/// What the user is told when a file is asked for that the binary of the version `v` cannot write.
pub open spec fn is_upgrade_warning(warning: Seq<char>, v: VersionView) -> bool {
    warning
        == "ignoring `--output` because it is not supported in this version of the dependent binary, `supergraph`: "@
        + seq!['='] + v.text()
        + ". Upgrade to Federation 2.9.0 or greater to install a version of the binary that supports it."@
}

proof fn lemma_warning(version: FederationVersionView, v: VersionView)
    requires
        is_exactly(version, v),
    ensures
        is_upgrade_warning(crate::output::ignored_output_text(version), v),
{
    let front = "ignoring `--output` because it is not supported in this version of the dependent binary, `supergraph`: "@;
    assert(front + (seq!['='] + v.text()) =~= front + seq!['='] + v.text());
}

/// The file that a user asks for is kept from version 2.9 on, without a warning. Before that it is
/// dropped, with a warning. Where no file is asked for there is neither.
pub proof fn law_file_is_kept_from_2_9_on(
    version: FederationVersionView,
    v: VersionView,
    asked: Option<Seq<char>>,
)
    requires
        is_exactly(version, v),
    ensures
        v.major >= 3 || v.major == 2 && v.minor >= 9 ==> crate::output::written_file(v, asked)
            == asked && crate::output::output_warning(version, v, asked) is None,
        v.major <= 1 || v.major == 2 && v.minor <= 8 ==> crate::output::written_file(v, asked)
            is None && (asked is Some ==> (crate::output::output_warning(version, v, asked)
            matches Some(warning) && is_upgrade_warning(warning, v))),
        asked is None ==> crate::output::written_file(v, asked) is None
            && crate::output::output_warning(version, v, asked) is None,
{
    lemma_warning(version, v);
}

/// A binary that comes after one that can write files can write files too.
pub proof fn law_support_for_files_stays(earlier: VersionView, later: VersionView)
    requires
        crate::output::writes_files(earlier),
        later.major > earlier.major || later.major == earlier.major && later.minor
            >= earlier.minor,
    ensures
        crate::output::writes_files(later),
        earlier.major > 2 || earlier.major == 2 && earlier.minor > 8,
{
}

/// The binary is run on the configuration, and told to write the file that the user asked for from
/// version 2.9 on. The user is told the version, and warned where a file is asked for in vain.
pub proof fn law_binary_is_run_as_asked(
    writing: WritingConfig,
    yaml_path: Seq<char>,
    version: FederationVersionView,
    v: VersionView,
    composing: Composing,
)
    requires
        is_exactly(version, v),
        writing.runs(yaml_path, version, composing),
    ensures
        composing.exe@ == writing.exe@,
        composing.num_subgraphs == writing.num_subgraphs,
        composing.federation_version@ == version,
        composing.announcement@ == "composing supergraph with Federation "@ + (seq!['v']
            + v.text()),
        composing.args@.len() >= 2,
        composing.args@[0]@ == "compose"@,
        composing.args@[1]@ == yaml_path,
        match writing.output_file {
            Some(asked) if v.major > 2 || v.major == 2 && v.minor > 8 => {
                &&& composing.args@.len() == 3
                &&& composing.args@[2]@ == asked@
                &&& composing.output_file matches Some(file) && file@ == asked@
                &&& composing.warning is None
            },
            Some(_) => {
                &&& composing.args@.len() == 2
                &&& composing.output_file is None
                &&& composing.warning matches Some(warning) && is_upgrade_warning(warning@, v)
            },
            None => {
                &&& composing.args@.len() == 2
                &&& composing.output_file is None
                &&& composing.warning is None
            },
        },
{
    lemma_warning(version, v);
    let args = crate::text::texts(composing.args@);
    let file = crate::text::optional(composing.output_file);
    assert(args == crate::exec::compose_args(yaml_path, file));
    assert(args.len() == composing.args@.len());
    assert(args[0] == composing.args@[0]@);
    assert(args[1] == composing.args@[1]@);
    if args.len() == 3 {
        assert(args[2] == composing.args@[2]@);
    }
}

/// From the name of the binary to its run: the binary of a version of one of the supported lines is
/// run as that version, and one of another line is refused.
pub proof fn law_binary_is_run_as_its_name_says<E>(
    writing: WritingConfig,
    yaml_path: Seq<char>,
    v: VersionView,
    windows: bool,
    r: Result<Composing, ComposeError<E>>,
)
    requires
        v.is_semver(),
        crate::laws::executable::is_told_by_name(v, windows),
        writing.leads_to(
            yaml_path,
            Some(crate::laws::executable::executable_name(v, windows)),
            r,
        ),
    ensures
        v.major <= 1 ==> (r matches Ok(c) && c.federation_version@
            == FederationVersionView::ExactFedOne(v) && writing.runs(
            yaml_path,
            FederationVersionView::ExactFedOne(v),
            c,
        )),
        v.major == 2 ==> (r matches Ok(c) && c.federation_version@
            == FederationVersionView::ExactFedTwo(v) && writing.runs(
            yaml_path,
            FederationVersionView::ExactFedTwo(v),
            c,
        )),
        v.major > 2 ==> (r matches Err(
            ComposeError::Extract(crate::extract::ExtractError::UnsupportedFederation),
        )),
{
    let name = crate::laws::executable::executable_name(v, windows);
    match r {
        Ok(c) => {
            let version = choose|version: FederationVersion| #[trigger]
                crate::extract::is_extracted_from(Some(name), Ok(version)) && writing.runs(
                    yaml_path,
                    version@,
                    c,
                );
            crate::laws::executable::law_name_gives_version_back(v, windows, Ok(version));
        },
        Err(ComposeError::Extract(e)) => {
            crate::laws::executable::law_name_gives_version_back(v, windows, Err(e));
        },
        _ => {},
    }
}

/// A binary without a file name, or with one that holds no version, is not run.
pub proof fn law_binary_without_a_version_is_not_run<E>(
    writing: WritingConfig,
    yaml_path: Seq<char>,
    name: Option<Seq<char>>,
    r: Result<Composing, ComposeError<E>>,
)
    requires
        writing.leads_to(yaml_path, name, r),
    ensures
        name is None ==> (r matches Err(
            ComposeError::Extract(crate::extract::ExtractError::NoFileName),
        )),
        name is Some ==> !(r matches Err(
            ComposeError::Extract(crate::extract::ExtractError::NoFileName),
        )),
        r is Ok ==> name is Some,
        r matches Err(e) ==> e is Extract,
{
    if let Ok(c) = r {
        let version = choose|version: FederationVersion| #[trigger]
            crate::extract::is_extracted_from(name, Ok(version)) && writing.runs(
                yaml_path,
                version@,
                c,
            );
    }
}

} // verus!
