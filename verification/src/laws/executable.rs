//! Versions in the names of executables, and the paths that these lie at.
use vstd::prelude::*;

use crate::exec::ComposeError;
use crate::extract::ExtractError;
use crate::options::FileDescriptorType;
use crate::path::Rules;
use crate::version::{FederationVersion, FederationVersionView, Version, VersionView};

verus! {

/// The name of the `supergraph` binary of a version, with or without the extension that Windows
/// gives it.
pub open spec fn executable_name(v: VersionView, windows: bool) -> Seq<char> {
    if windows {
        "supergraph-v"@ + v.text() + ".exe"@
    } else {
        "supergraph-v"@ + v.text()
    }
}

/// Whether the version can be told from the name of its binary. Without the extension, a version
/// whose own notation ends in `.exe` cannot.
pub open spec fn is_told_by_name(v: VersionView, windows: bool) -> bool {
    windows || !".exe"@.is_suffix_of(v.text())
}

proof fn lemma_version_part(v: VersionView, windows: bool)
    requires
        is_told_by_name(v, windows),
    ensures
        crate::extract::version_part(executable_name(v, windows)) == v.text(),
{
    reveal_strlit(".exe");
    reveal_strlit("supergraph-v");
    let name = executable_name(v, windows);
    let bare = "supergraph-v"@ + v.text();
    if windows {
        assert(name.subrange(name.len() - 4, name.len() as int) =~= ".exe"@);
        assert(".exe"@.is_suffix_of(name));
        assert(name.take(name.len() - 4) =~= bare);
    } else if ".exe"@.is_suffix_of(name) {
        lemma_suffix_of_concat("supergraph-v"@, v.text(), ".exe"@);
    }
    assert("supergraph-v"@.is_prefix_of(bare));
    assert(bare.skip("supergraph-v"@.len() as int) =~= v.text());
}

/// A text that ends in `.exe` still does without `supergraph-v` in front of it: what is in front
/// holds no dot.
proof fn lemma_suffix_of_concat(front: Seq<char>, back: Seq<char>, suffix: Seq<char>)
    requires
        suffix.is_suffix_of(front + back),
        suffix.len() > 0,
        !front.contains(suffix[0]),
    ensures
        suffix.is_suffix_of(back),
{
    let whole = front + back;
    let start = whole.len() - suffix.len();
    assert(whole.subrange(start, whole.len() as int) == suffix);
    assert(whole[start] == whole.subrange(start, whole.len() as int)[0]);
    if start < front.len() {
        assert(front[start] == suffix[0]);
    }
    assert(back.subrange(back.len() - suffix.len(), back.len() as int) =~= suffix) by {
        assert forall|i: int| 0 <= i < suffix.len() implies back[back.len() - suffix.len() + i]
            == suffix[i] by {
            assert(suffix[i] == whole.subrange(start, whole.len() as int)[i]);
            assert(whole[start + i] == back[start + i - front.len()]);
        }
    }
}

/// Reading the name of a version's binary gives that version back, in the major line that it
/// belongs to. It fails only where the line is not supported.
pub proof fn law_name_gives_version_back(
    v: VersionView,
    windows: bool,
    r: Result<FederationVersion, ExtractError>,
)
    requires
        v.is_semver(),
        is_told_by_name(v, windows),
        crate::extract::is_read_from(executable_name(v, windows), r),
    ensures
        match crate::version::federation_of(v) {
            Some(version) => r matches Ok(read) && read@ == version,
            None => r matches Err(ExtractError::UnsupportedFederation),
        },
{
    lemma_version_part(v, windows);
    crate::laws::notation::law_denoted_version(v.text(), v);
}

/// Whether `name` is the name of a file on every platform.
pub open spec fn is_plain_name(name: Seq<char>) -> bool {
    &&& name.len() > 0
    &&& !name.contains('/')
    &&& !name.contains('\\')
    &&& !name.contains(':')
    &&& name != seq!['.']
    &&& name != seq!['.', '.']
}

/// What stands in front of the name of a file that is put into `directory`.
spec fn stem(rules: Rules, directory: Seq<char>) -> Seq<char> {
    if crate::path::joins_directly(rules, directory) {
        directory
    } else if rules is Unix {
        directory + seq!['/']
    } else {
        directory + seq!['\\']
    }
}

proof fn lemma_stem(rules: Rules, directory: Seq<char>, name: Seq<char>)
    requires
        is_plain_name(name),
    ensures
        crate::path::join_on(rules, directory, name) == stem(rules, directory) + name,
{
    assert(name[0] != '/');
    assert(name[0] != '\\');
    if name.len() > 1 {
        assert(name[1] != ':');
    }
}

proof fn lemma_part_end(rules: Rules, path: Seq<char>, from: int)
    requires
        0 <= from <= path.len(),
    ensures
        from <= crate::path::part_end(rules, path, from) <= path.len(),
        crate::path::part_end(rules, path, from) < path.len() ==> crate::path::is_separator(
            rules,
            path[crate::path::part_end(rules, path, from)],
        ),
    decreases path.len() - from,
{
    if from < path.len() && !crate::path::is_separator(rules, path[from]) {
        lemma_part_end(rules, path, from + 1);
    }
}

/// The share or the device in front of a path ends at a separator, if not with the path.
proof fn lemma_share_len(path: Seq<char>)
    requires
        crate::path::share_len(path) > 0,
    ensures
        4 <= crate::path::share_len(path) <= path.len(),
        crate::path::share_len(path) < path.len() ==> crate::path::is_separator(
            Rules::Shares,
            path[crate::path::share_len(path)],
        ),
{
    if crate::path::is_device(path) {
        lemma_part_end(Rules::Shares, path, 4);
    } else {
        lemma_part_end(Rules::Shares, path, 2);
        let server_end = crate::path::part_end(Rules::Shares, path, 2);
        if server_end < path.len() {
            lemma_part_end(Rules::Shares, path, server_end + 1);
        }
    }
}

/// What stands in front of the parts of a verbatim path ends at a separator, if not with the path.
proof fn lemma_verbatim_len(path: Seq<char>)
    requires
        crate::path::is_verbatim(path),
    ensures
        4 <= crate::path::verbatim_len(path) <= path.len(),
        crate::path::verbatim_len(path) < path.len() ==> crate::path::is_separator(
            Rules::Verbatim,
            path[crate::path::verbatim_len(path)],
        ),
{
    lemma_part_end(Rules::Verbatim, path, 4);
    let first_end = crate::path::part_end(Rules::Verbatim, path, 4);
    if first_end < path.len() {
        lemma_part_end(Rules::Verbatim, path, first_end + 1);
        let server_end = crate::path::part_end(Rules::Verbatim, path, first_end + 1);
        if server_end < path.len() {
            lemma_part_end(Rules::Verbatim, path, server_end + 1);
        }
    }
}

/// The drive or the share in front of a file ends before the name of the file, or takes it in.
proof fn lemma_prefix(rules: Rules, front: Seq<char>, name: Seq<char>)
    requires
        is_plain_name(name),
    ensures
        0 <= crate::path::prefix_len(rules, front + name) <= front.len() || crate::path::prefix_len(
            rules,
            front + name,
        ) == front.len() + name.len(),
        0 < crate::path::share_len(front + name) <= front.len() ==> crate::path::share_len(
            front + name,
        ) < front.len(),
{
    let path = front + name;
    assert forall|i: int| front.len() <= i < path.len() implies path[i] != '/' && path[i] != '\\'
        && path[i] != ':' by {
        assert(path[i] == name[i - front.len()]);
    }
    if crate::path::share_len(path) > 0 {
        lemma_share_len(path);
    }
    if crate::path::is_verbatim(path) {
        lemma_verbatim_len(path);
    }
}

proof fn lemma_last_part_start(rules: Rules, front: Seq<char>, name: Seq<char>)
    requires
        front.len() == 0 || crate::path::is_separator(rules, front.last()),
        !name.contains('/'),
        !name.contains('\\'),
    ensures
        crate::path::last_part_start(rules, front + name) == front.len(),
    decreases name.len(),
{
    if name.len() == 0 {
        assert(front + name =~= front);
    } else {
        assert((front + name).last() == name.last());
        assert(name[name.len() - 1] != '/');
        assert(name[name.len() - 1] != '\\');
        assert((front + name).drop_last() =~= front + name.drop_last());
        assert forall|i: int| 0 <= i < name.drop_last().len() implies name.drop_last()[i] != '/'
            && name.drop_last()[i] != '\\' by {
            assert(name[i] != '/' && name[i] != '\\');
        }
        lemma_last_part_start(rules, front, name.drop_last());
    }
}

/// What a path comes to that ends in the name of a file: the path is joined by the rules by which
/// it is taken apart, or with `/`.
proof fn lemma_file(joined_by: Rules, rules: Rules, directory: Seq<char>, name: Seq<char>)
    requires
        is_plain_name(name),
        joined_by == rules || joined_by is Unix && !(rules is Verbatim),
        crate::path::prefix_len(rules, stem(joined_by, directory) + name) < stem(
            joined_by,
            directory,
        ).len() + name.len(),
    ensures
        ({
            let path = stem(joined_by, directory) + name;
            let front = crate::path::body(rules, path).take(
                stem(joined_by, directory).len() - crate::path::prefix_len(rules, path),
            );
            &&& crate::path::prefix_len(rules, path) <= stem(joined_by, directory).len()
            &&& crate::path::body(rules, path) == front + name
            &&& crate::path::trimmed(rules, front + name) == front + name
            &&& crate::path::last_part_start(rules, front + name) == front.len()
            &&& !crate::path::is_bare(rules, front + name)
            &&& crate::path::file_name_on(rules, path) == Some(name)
        }),
{
    let base = stem(joined_by, directory);
    let path = base + name;
    let n = crate::path::prefix_len(rules, path);
    lemma_prefix(rules, base, name);
    let body = crate::path::body(rules, path);
    let front = body.take(base.len() - n);
    assert(body =~= front + name);
    assert(front.len() == 0 || crate::path::is_separator(rules, front.last())) by {
        if front.len() > 0 {
            assert(front.last() == base.last());
            if base == directory && base.len() == crate::path::drive_len(joined_by, directory) {
                assert(path[0] == directory[0] && path[1] == directory[1]);
            }
        }
    }
    lemma_last_part_start(rules, front, name);
    assert(body.skip(front.len() as int) =~= name);
    assert(body.last() == name.last());
    assert(name[name.len() - 1] != '/');
    assert(name[name.len() - 1] != '\\');
}

/// Whether `found` is the file name, by these rules, in the path of a file that is put into
/// `directory` as `file`. Left aside are paths in which the name of the file is that of a share or
/// a device.
pub open spec fn is_found_on(
    rules: Rules,
    directory: Seq<char>,
    file: Seq<char>,
    found: Option<Seq<char>>,
) -> bool {
    let path = crate::path::join_on(rules, directory, file);
    &&& crate::path::prefix_len(rules, path) < path.len()
    &&& found == crate::path::file_name_on(rules, path)
}

/// Whether `found` may be the file name in the path of a file that is put into `directory` as
/// `file`: the path is joined by the rules by which it is taken apart, or with `/`. Left aside are
/// verbatim paths that are joined with `/`, and those in which the name of the file is that of a
/// share or a device.
pub open spec fn is_found_in(
    directory: Seq<char>,
    file: Seq<char>,
    found: Option<Seq<char>>,
) -> bool {
    ||| exists|rules: Rules| #[trigger] is_found_on(rules, directory, file, found)
    ||| {
        let path = crate::path::join_on(Rules::Unix, directory, file);
        &&& !crate::path::is_verbatim(path)
        &&& crate::path::share_len(path) < path.len()
        &&& crate::path::may_be_file_name(path, found)
    }
}

/// A file that is put into a directory, whichever, is found there under its own name.
pub proof fn law_file_keeps_its_name(
    directory: Seq<char>,
    name: Seq<char>,
    found: Option<Seq<char>>,
)
    requires
        is_plain_name(name),
        is_found_in(directory, name, found),
    ensures
        found == Some(name),
{
    if exists|rules: Rules| #[trigger] is_found_on(rules, directory, name, found) {
        let rules = choose|rules: Rules| #[trigger] is_found_on(rules, directory, name, found);
        lemma_stem(rules, directory, name);
        lemma_file(rules, rules, directory, name);
    } else {
        lemma_stem(Rules::Unix, directory, name);
        lemma_drive_is_short(stem(Rules::Unix, directory), name);
        lemma_file(Rules::Unix, Rules::Unix, directory, name);
        lemma_file(Rules::Unix, Rules::Drives, directory, name);
        lemma_file(Rules::Unix, Rules::Shares, directory, name);
    }
}

/// No drive takes in the name of a file.
proof fn lemma_drive_is_short(front: Seq<char>, name: Seq<char>)
    requires
        is_plain_name(name),
    ensures
        crate::path::drive_len(Rules::Shares, front + name) < front.len() + name.len(),
{
    if front.len() < 2 && (front + name).len() >= 2 {
        assert((front + name)[1] == name[1 - front.len()]);
    }
}

/// Whether `directory` is the path of a directory, absolute or not, without separators or `.`
/// parts at its end, that is more than a drive or a share.
pub open spec fn is_plain_directory(rules: Rules, directory: Seq<char>) -> bool {
    let body = crate::path::body(rules, directory);
    &&& crate::path::trimmed(rules, body) == body
    &&& body.len() > 0 || directory.len() == 0
}

proof fn lemma_part_end_in_front(path: Seq<char>, n: int, from: int)
    requires
        0 <= from <= n <= path.len(),
    ensures
        ({
            let there = crate::path::part_end(Rules::Shares, path, from);
            let here = crate::path::part_end(Rules::Shares, path.take(n), from);
            &&& there <= n ==> here == there
            &&& here < n ==> there == here
        }),
    decreases n - from,
{
    if from < n {
        assert(path.take(n)[from] == path[from]);
        if !crate::path::is_separator(Rules::Shares, path[from]) {
            lemma_part_end_in_front(path, n, from + 1);
        }
    } else {
        lemma_part_end(Rules::Shares, path, from);
    }
}

/// The share in front of a path is the share in front of what the path starts with, if that is
/// more than the share.
proof fn lemma_share_in_front(path: Seq<char>, n: int)
    requires
        0 <= n <= path.len(),
    ensures
        ({
            let there = crate::path::share_len(path);
            let here = crate::path::share_len(path.take(n));
            &&& 0 < there <= n ==> here == there
            &&& 0 < here < n ==> there == here
        }),
{
    let front = path.take(n);
    let there = crate::path::share_len(path);
    let here = crate::path::share_len(front);
    if 0 < there <= n || 0 < here < n {
        if 0 < there <= n {
            lemma_share_len(path);
        } else {
            lemma_share_len(front);
        }
        assert(front[0] == path[0] && front[1] == path[1] && front[2] == path[2] && front[3]
            == path[3]);
        if crate::path::is_device(path) {
            lemma_part_end_in_front(path, n, 4);
        } else {
            lemma_part_end(Rules::Shares, path, 2);
            lemma_part_end(Rules::Shares, front, 2);
            lemma_part_end_in_front(path, n, 2);
            let server_end = crate::path::part_end(Rules::Shares, path, 2);
            let front_end = crate::path::part_end(Rules::Shares, front, 2);
            if server_end < n {
                lemma_part_end(Rules::Shares, path, server_end + 1);
                lemma_part_end(Rules::Shares, front, server_end + 1);
                lemma_part_end_in_front(path, n, server_end + 1);
            } else if server_end < path.len() {
                lemma_part_end(Rules::Shares, path, server_end + 1);
            }
            assert(front_end < n ==> front_end == server_end);
        }
    }
}

/// A file has the drive or the share of the directory that it is put into.
proof fn lemma_same_prefix(rules: Rules, directory: Seq<char>, name: Seq<char>)
    requires
        !(rules is Verbatim),
        is_plain_name(name),
        is_plain_directory(rules, directory),
        crate::path::prefix_len(rules, stem(Rules::Unix, directory) + name) < stem(
            Rules::Unix,
            directory,
        ).len() + name.len(),
    ensures
        crate::path::prefix_len(rules, stem(Rules::Unix, directory) + name)
            == crate::path::prefix_len(rules, directory),
        0 <= crate::path::prefix_len(rules, directory) <= directory.len(),
{
    let base = stem(Rules::Unix, directory);
    let path = base + name;
    let n = directory.len() as int;
    lemma_prefix(rules, base, name);
    assert(path.take(n) =~= directory);
    if n < 2 && path.len() >= 2 {
        assert(path[1] != ':') by {
            if base.len() < 2 {
                assert(path[1] == name[1 - base.len()]);
            }
        }
    }
    if n >= 2 {
        assert(directory[0] == path[0] && directory[1] == path[1]);
    }
    if rules is Shares {
        lemma_share_in_front(path, n);
        if crate::path::share_len(directory) > 0 {
            lemma_share_len(directory);
        }
    }
}

proof fn lemma_directory(rules: Rules, directory: Seq<char>, name: Seq<char>)
    requires
        !(rules is Verbatim),
        is_plain_name(name),
        is_plain_directory(rules, directory),
        crate::path::prefix_len(rules, stem(Rules::Unix, directory) + name) < stem(
            Rules::Unix,
            directory,
        ).len() + name.len(),
    ensures
        crate::path::parent_on(rules, stem(Rules::Unix, directory) + name) == Some(directory),
{
    let base = stem(Rules::Unix, directory);
    let path = base + name;
    let n = crate::path::prefix_len(rules, directory);
    lemma_file(Rules::Unix, rules, directory, name);
    lemma_same_prefix(rules, directory, name);
    let body = crate::path::body(rules, directory);
    let whole = crate::path::body(rules, path);
    let front = crate::path::front_part(rules, whole);
    assert(path.take(n) =~= directory.take(n));
    assert(directory.take(n) + body =~= directory);
    assert(whole.take(base.len() - n) =~= base.skip(n));
    if base == directory {
        if directory.len() > 0 {
            assert(body.last() == '/');
            assert(crate::path::last_part(rules, body) =~= Seq::<char>::empty());
            crate::path::lemma_trimmed_is_prefix(rules, body.drop_last());
            assert(body.len() == 1);
            assert(front =~= Seq::<char>::empty());
            assert(whole.take(1) =~= body);
        } else {
            assert(whole.take(0) =~= body);
        }
    } else {
        assert(front =~= body);
    }
}

/// A file that is put into a directory is found there under its own name, and the directory is
/// the one that it lies in.
pub proof fn law_file_in_directory(
    directory: Seq<char>,
    name: Seq<char>,
    found: Option<Seq<char>>,
    parent: Option<Seq<char>>,
)
    requires
        is_plain_name(name),
        ({
            let path = crate::path::join_on(Rules::Unix, directory, name);
            &&& !crate::path::is_verbatim(path)
            &&& crate::path::share_len(path) < path.len()
            &&& crate::path::may_be_file_name(path, found)
            &&& crate::path::may_be_parent(path, parent)
        }),
    ensures
        found == Some(name),
        is_plain_directory(Rules::Unix, directory) && is_plain_directory(Rules::Drives, directory)
            && is_plain_directory(Rules::Shares, directory) ==> parent == Some(directory),
{
    law_file_keeps_its_name(directory, name, found);
    lemma_stem(Rules::Unix, directory, name);
    lemma_drive_is_short(stem(Rules::Unix, directory), name);
    if is_plain_directory(Rules::Unix, directory) && is_plain_directory(Rules::Drives, directory)
        && is_plain_directory(Rules::Shares, directory) {
        lemma_directory(Rules::Unix, directory, name);
        lemma_directory(Rules::Drives, directory, name);
        lemma_directory(Rules::Shares, directory, name);
    }
}

proof fn lemma_text_chars(v: VersionView)
    requires
        v.is_semver(),
    ensures
        forall|i: int|
            0 <= i < v.text().len() ==> {
                let c = #[trigger] v.text()[i];
                crate::version::is_identifier_char(c) || c == '.' || c == '+'
            },
        v.text().len() > 0,
{
    crate::laws::notation::lemma_decimal_digits(v.major as nat);
    crate::laws::notation::lemma_decimal_digits(v.minor as nat);
    crate::laws::notation::lemma_decimal_digits(v.patch as nat);
    let allowed = |c: char| crate::version::is_identifier_char(c) || c == '.' || c == '+';
    let (major, minor, patch) = (
        crate::text::decimal(v.major as nat),
        crate::text::decimal(v.minor as nat),
        crate::text::decimal(v.patch as nat),
    );
    let numbers = major + seq!['.'] + minor + seq!['.'] + patch;
    assert forall|i: int| 0 <= i < numbers.len() implies allowed(#[trigger] numbers[i]) by {
        if i < major.len() {
            assert(numbers[i] == major[i]);
        } else if i == major.len() {
        } else if i < major.len() + 1 + minor.len() {
            assert(numbers[i] == minor[i - major.len() - 1]);
        } else if i == major.len() + 1 + minor.len() {
        } else {
            assert(numbers[i] == patch[i - major.len() - minor.len() - 2]);
        }
    }
    let with_pre = if v.pre.len() == 0 {
        numbers
    } else {
        numbers + seq!['-'] + v.pre
    };
    assert forall|i: int| 0 <= i < with_pre.len() implies allowed(#[trigger] with_pre[i]) by {
        if i < numbers.len() {
            assert(with_pre[i] == numbers[i]);
        } else if i > numbers.len() {
            assert(with_pre[i] == v.pre[i - numbers.len() - 1]);
        }
    }
    let text = v.text();
    assert forall|i: int| 0 <= i < text.len() implies allowed(#[trigger] text[i]) by {
        if i < with_pre.len() {
            assert(text[i] == with_pre[i]);
        } else if i > with_pre.len() {
            assert(text[i] == v.build[i - with_pre.len() - 1]);
        }
    }
}

proof fn lemma_executable_name_is_plain(v: VersionView, windows: bool)
    requires
        v.is_semver(),
    ensures
        is_plain_name(executable_name(v, windows)),
{
    lemma_text_chars(v);
    reveal_strlit("supergraph-v");
    reveal_strlit(".exe");
    let name = executable_name(v, windows);
    let front = "supergraph-v"@;
    assert forall|i: int| 0 <= i < name.len() implies name[i] != '/' && name[i] != '\\' && name[i]
        != ':' by {
        if i < front.len() {
            assert(name[i] == front[i]);
        } else if i < front.len() + v.text().len() {
            assert(name[i] == v.text()[i - front.len()]);
        } else {
            assert(name[i] == ".exe"@[i - front.len() - v.text().len()]);
        }
    }
    assert(name[0] == 's');
}

/// A name is portable.
proof fn lemma_portable_name(name: Seq<char>)
    requires
        is_plain_name(name),
    ensures
        crate::path::is_portable(name),
        crate::path::is_portable(seq!['.', '/'] + name),
{
    assert(name[0] != '/');
    assert(name[0] != '\\');
    let dotted = seq!['.', '/'] + name;
    assert forall|i: int| 0 <= i < dotted.len() implies dotted[i] != '\\' && dotted[i] != ':' by {
        if i >= 2 {
            assert(dotted[i] == name[i - 2]);
        }
    }
}

/// The directory of a portable file is told by the rules of Unix.
proof fn lemma_root<E>(
    current_dir: Seq<char>,
    file: String,
    r: Result<Option<String>, ComposeError<E>>,
)
    requires
        crate::path::is_portable(current_dir),
        crate::path::is_portable(file@),
        crate::resolving::may_be_root(Some(FileDescriptorType::File(file)), current_dir, r),
    ensures
        crate::resolving::is_root_outcome(
            crate::path::parent_on(
                Rules::Unix,
                crate::path::join_on(Rules::Unix, current_dir, file@),
            ),
            r,
        ),
{
    let (joined, directory) = choose|joined: Seq<char>, directory: Option<Seq<char>>| #[trigger]
        crate::resolving::may_lie_in(current_dir, file@, joined, directory)
            && crate::resolving::is_root_outcome(directory, r);
    crate::path::lemma_portable_join(current_dir, file@);
    crate::path::lemma_portable(Rules::Drives, joined);
    crate::path::lemma_portable(Rules::Shares, joined);
}

/// A configuration file that is named without a directory makes the current directory the root.
pub proof fn law_root_is_the_current_directory<E>(
    current_dir: Seq<char>,
    file: String,
    r: Result<Option<String>, ComposeError<E>>,
)
    requires
        crate::path::is_portable(current_dir),
        is_plain_directory(Rules::Unix, current_dir),
        is_plain_name(file@),
        crate::resolving::may_be_root(Some(FileDescriptorType::File(file)), current_dir, r),
    ensures
        r matches Ok(Some(root)) && root@ == current_dir,
{
    lemma_portable_name(file@);
    lemma_root(current_dir, file, r);
    lemma_stem(Rules::Unix, current_dir, file@);
    lemma_directory(Rules::Unix, current_dir, file@);
}

/// A configuration file that is named with `./` in front makes the current directory the root
/// too.
pub proof fn law_root_of_a_file_behind_a_dot<E>(
    current_dir: Seq<char>,
    file: String,
    name: Seq<char>,
    r: Result<Option<String>, ComposeError<E>>,
)
    requires
        crate::path::is_portable(current_dir),
        current_dir.len() > 0,
        is_plain_directory(Rules::Unix, current_dir),
        is_plain_name(name),
        file@ == seq!['.', '/'] + name,
        crate::resolving::may_be_root(Some(FileDescriptorType::File(file)), current_dir, r),
    ensures
        r matches Ok(Some(root)) && root@ == current_dir,
{
    lemma_portable_name(name);
    lemma_root(current_dir, file, r);
    let base = stem(Rules::Unix, current_dir);
    let directory = base + seq!['.'];
    let path = crate::path::join_on(Rules::Unix, current_dir, file@);
    assert(path =~= base + file@);
    assert(directory.last() == '.');
    assert(path =~= stem(Rules::Unix, directory) + name);
    lemma_file(Rules::Unix, Rules::Unix, directory, name);
    assert(path.skip(0) =~= path);
    assert(path.take(0) =~= Seq::<char>::empty());
    assert(path.take(directory.len() as int + 1) =~= directory + seq!['/']);
    assert(crate::path::front_part(Rules::Unix, path) =~= directory);
    assert(!seq!['.'].contains('/') && !seq!['.'].contains('\\'));
    lemma_last_part_start(Rules::Unix, base, seq!['.']);
    assert(crate::path::last_part(Rules::Unix, directory) =~= seq!['.']);
    assert(directory.drop_last() =~= base);
    assert(current_dir.skip(0) =~= current_dir);
    assert(crate::path::last_part(Rules::Unix, base) =~= Seq::<char>::empty());
    assert(crate::path::trimmed(Rules::Unix, directory) == crate::path::trimmed(Rules::Unix, base));
    if base != current_dir {
        assert(base.drop_last() =~= current_dir);
        assert(crate::path::trimmed(Rules::Unix, base) == current_dir);
    } else if base.len() >= 2 {
        crate::path::lemma_trimmed_is_prefix(Rules::Unix, base.drop_last());
    }
    assert(Seq::<char>::empty() + current_dir =~= current_dir);
}

/// Extracting the version from the path of a version's binary, in whatever directory, gives that
/// version back, in the major line that it belongs to, and it is shown as it stands in the name.
/// It fails only where the line is not supported.
pub proof fn law_executable_gives_version_back(
    directory: Seq<char>,
    v: VersionView,
    windows: bool,
    name: Option<Seq<char>>,
    r: Result<FederationVersion, ExtractError>,
)
    requires
        v.is_semver(),
        is_told_by_name(v, windows),
        is_found_in(directory, executable_name(v, windows), name),
        crate::extract::is_extracted_from(name, r),
    ensures
        match crate::version::federation_of(v) {
            Some(version) => r matches Ok(read) && {
                &&& read@ == version
                &&& read@.exact() == Some(v)
                &&& seq!['v'] + read@.text().skip(1) == seq!['v'] + v.text()
            },
            None => r matches Err(ExtractError::UnsupportedFederation),
        },
        v.major <= 2 ==> r is Ok,
{
    lemma_executable_name_is_plain(v, windows);
    law_file_keeps_its_name(directory, executable_name(v, windows), name);
    law_name_gives_version_back(v, windows, r);
    if r is Ok {
        crate::laws::notation::law_formatted_version_is_tarball_version(r->Ok_0@);
    }
}

/// Whether two extractions come to the same.
pub open spec fn same_extraction(
    a: Result<FederationVersion, ExtractError>,
    b: Result<FederationVersion, ExtractError>,
) -> bool {
    match (a, b) {
        (Ok(v), Ok(w)) => v@ == w@,
        (Err(e), Err(f)) => e == f,
        _ => false,
    }
}

/// Whether `r` may come of extracting the version from the path of the file `file` in
/// `directory`.
pub open spec fn is_extracted_in(
    directory: Seq<char>,
    file: Seq<char>,
    r: Result<FederationVersion, ExtractError>,
) -> bool {
    exists|name: Option<Seq<char>>| #[trigger]
        is_found_in(directory, file, name) && crate::extract::is_extracted_from(name, r)
}

proof fn lemma_extracted(
    directory: Seq<char>,
    file: Seq<char>,
    r: Result<FederationVersion, ExtractError>,
)
    requires
        is_plain_name(file),
        is_extracted_in(directory, file, r),
    ensures
        crate::extract::is_read_from(file, r),
{
    let name = choose|name: Option<Seq<char>>| #[trigger]
        is_found_in(directory, file, name) && crate::extract::is_extracted_from(name, r);
    law_file_keeps_its_name(directory, file, name);
}

/// Neither the directory nor one `.exe` at the end nor one `supergraph-v` in front has a say in
/// what is extracted from the path of an executable.
pub proof fn law_only_the_version_counts(
    one: Seq<char>,
    another: Seq<char>,
    name: Seq<char>,
    r: Result<FederationVersion, ExtractError>,
    elsewhere: Result<FederationVersion, ExtractError>,
    with_extension: Result<FederationVersion, ExtractError>,
    with_front: Result<FederationVersion, ExtractError>,
)
    requires
        is_plain_name(name),
        !".exe"@.is_suffix_of(name),
        !"supergraph-v"@.is_prefix_of(name),
        is_extracted_in(one, name, r),
        is_extracted_in(another, name, elsewhere),
        is_extracted_in(one, name + ".exe"@, with_extension),
        is_extracted_in(one, "supergraph-v"@ + name, with_front),
    ensures
        same_extraction(r, elsewhere),
        same_extraction(r, with_extension),
        same_extraction(r, with_front),
{
    reveal_strlit(".exe");
    reveal_strlit("supergraph-v");
    let extended = name + ".exe"@;
    let fronted = "supergraph-v"@ + name;
    assert forall|i: int| 0 <= i < extended.len() implies extended[i] != '/' && extended[i] != '\\'
        && extended[i] != ':' by {
        if i < name.len() {
            assert(extended[i] == name[i]);
        } else {
            assert(extended[i] == ".exe"@[i - name.len()]);
        }
    }
    assert forall|i: int| 0 <= i < fronted.len() implies fronted[i] != '/' && fronted[i] != '\\'
        && fronted[i] != ':' by {
        if i >= "supergraph-v"@.len() {
            assert(fronted[i] == name[i - "supergraph-v"@.len()]);
        } else {
            assert(fronted[i] == "supergraph-v"@[i]);
        }
    }
    assert(extended.len() > 4 && fronted[0] == 's');
    lemma_extracted(one, name, r);
    lemma_extracted(another, name, elsewhere);
    lemma_extracted(one, extended, with_extension);
    lemma_extracted(one, fronted, with_front);
    assert(extended.subrange(extended.len() - 4, extended.len() as int) =~= ".exe"@);
    assert(extended.take(extended.len() - 4) =~= name);
    if ".exe"@.is_suffix_of(fronted) {
        lemma_suffix_of_concat("supergraph-v"@, name, ".exe"@);
    }
    assert("supergraph-v"@.is_prefix_of(fronted));
    assert(fronted.skip("supergraph-v"@.len() as int) =~= name);
}

/// The notation of a version is a name for a file, and `supergraph-v` does not stand in front of
/// it.
pub proof fn law_notation_is_a_name(v: VersionView)
    requires
        v.is_semver(),
    ensures
        is_plain_name(v.text()),
        !"supergraph-v"@.is_prefix_of(v.text()),
{
    lemma_text_chars(v);
    reveal_strlit("supergraph-v");
    crate::laws::notation::lemma_decimal_digits(v.major as nat);
    let major = crate::text::decimal(v.major as nat);
    assert(v.text()[0] == major[0]);
    assert forall|i: int| 0 <= i < v.text().len() implies v.text()[i] != '/' && v.text()[i] != '\\'
        && v.text()[i] != ':' by {
        let c = v.text()[i];
        assert(crate::version::is_identifier_char(c) || c == '.' || c == '+');
    }
    if "supergraph-v"@.is_prefix_of(v.text()) {
        assert(v.text()[0] == "supergraph-v"@[0]);
    }
}

/// Whether `w` is the version `v`, part by part.
pub open spec fn is_version(w: Version, v: VersionView) -> bool {
    &&& w.major == v.major
    &&& w.minor == v.minor
    &&& w.patch == v.patch
    &&& w.pre@ == v.pre
    &&& w.build@ == v.build
}

/// The major number of the version in a name decides: up to 1 it is of Federation 1, with 2 it is
/// of Federation 2, and any other is not supported. The version is the one in the name, part by
/// part.
pub proof fn law_major_number_decides(
    v: VersionView,
    windows: bool,
    r: Result<FederationVersion, ExtractError>,
)
    requires
        v.is_semver(),
        is_told_by_name(v, windows),
        crate::extract::is_read_from(executable_name(v, windows), r),
    ensures
        v.major <= 1 ==> (r matches Ok(FederationVersion::ExactFedOne(w)) && is_version(w, v)),
        v.major == 2 ==> (r matches Ok(FederationVersion::ExactFedTwo(w)) && is_version(w, v)),
        v.major > 2 ==> (r matches Err(ExtractError::UnsupportedFederation)),
{
    law_name_gives_version_back(v, windows, r);
}

/// Whether `name` is the notation of `v`, with or without `supergraph-v` in front and `.exe` at the
/// end.
pub open spec fn is_named_for(name: Seq<char>, v: VersionView) -> bool {
    ||| name == v.text()
    ||| name == v.text() + ".exe"@
    ||| name == "supergraph-v"@ + v.text()
    ||| name == "supergraph-v"@ + v.text() + ".exe"@
}

/// A version that is read in a name stands in the name, and nothing else does but for
/// `supergraph-v` in front and `.exe` at the end. Where the name of a version's binary is read, it
/// is not refused as no version.
pub proof fn law_name_is_read_as_what_it_says(
    name: Seq<char>,
    r: Result<FederationVersion, ExtractError>,
)
    requires
        crate::extract::is_read_from(name, r),
    ensures
        match r {
            Ok(read) => exists|v: VersionView|
                {
                    &&& #[trigger] is_named_for(name, v)
                    &&& v.is_semver()
                    &&& v.major <= 2
                    &&& read@ == FederationVersionView::ExactFedOne(v) || read@
                        == FederationVersionView::ExactFedTwo(v)
                    &&& read@ is ExactFedTwo <==> v.major == 2
                },
            Err(ExtractError::UnsupportedFederation) => exists|v: VersionView| #[trigger]
                is_named_for(name, v) && v.is_semver() && v.major > 2,
            Err(ExtractError::Version(_)) => forall|v: VersionView, windows: bool|
                v.is_semver() && is_told_by_name(v, windows) ==> name != #[trigger] executable_name(
                    v,
                    windows,
                ),
            Err(ExtractError::NoFileName) => false,
        },
{
    reveal_strlit(".exe");
    reveal_strlit("supergraph-v");
    let without_exe = crate::text::without_suffix(name, ".exe"@);
    let part = crate::extract::version_part(name);
    if ".exe"@.is_suffix_of(name) {
        assert(name =~= without_exe + ".exe"@);
    }
    if "supergraph-v"@.is_prefix_of(without_exe) {
        assert(without_exe =~= "supergraph-v"@ + part);
    }
    if crate::version::version_denoted(part) is Some {
        let v = crate::version::version_denoted(part)->0;
        assert(crate::version::denotes(part, v));
        assert(is_named_for(name, v));
    } else {
        assert forall|v: VersionView, windows: bool|
            v.is_semver() && is_told_by_name(v, windows) implies name != #[trigger] executable_name(
            v,
            windows,
        ) by {
            if name == executable_name(v, windows) {
                law_name_gives_version_back(v, windows, r);
            }
        }
    }
}

/// A path without a file name is told apart from one whose file name holds no version.
pub proof fn law_missing_name_is_told(
    name: Option<Seq<char>>,
    r: Result<FederationVersion, ExtractError>,
)
    requires
        crate::extract::is_extracted_from(name, r),
    ensures
        name is None <==> (r matches Err(ExtractError::NoFileName)),
        name matches Some(n) ==> crate::extract::is_read_from(n, r),
{
}

/// A path is portable if no character in it is `\` or `:` and it does not start with `//`.
pub proof fn law_portable_paths(path: Seq<char>)
    ensures
        crate::path::is_portable(path) <==> (forall|i: int|
            0 <= i < path.len() ==> #[trigger] path[i] != '\\' && path[i] != ':') && !(path.len()
            >= 2 && path[0] == '/' && path[1] == '/'),
{
    if forall|i: int| 0 <= i < path.len() ==> #[trigger] path[i] != '\\' && path[i] != ':' {
    } else {
        let i = choose|i: int|
            0 <= i < path.len() && !(#[trigger] path[i] != '\\' && path[i] != ':');
        assert(path.contains(path[i]));
    }
}

/// Whether `filler` names no part of a path: it is made of separators and of single dots.
pub open spec fn is_filler(filler: Seq<char>) -> bool {
    &&& forall|i: int| 0 <= i < filler.len() ==> #[trigger] filler[i] == '/' || filler[i] == '.'
    &&& forall|i: int, j: int|
        0 <= i && j == i + 1 && j < filler.len() ==> #[trigger] filler[i] == '/'
            || #[trigger] filler[j] == '/'
}

/// Whether `root` ends in the name of a directory, if it is more than a root or one character.
pub open spec fn ends_in_a_name(root: Seq<char>) -> bool {
    root.len() >= 2 ==> root.last() != '/' && !(root.last() == '.' && root[root.len() - 2] == '/')
}

proof fn lemma_trimmed(path: Seq<char>)
    ensures
        ({
            let left = crate::path::trimmed(Rules::Unix, path);
            let filler = path.skip(left.len() as int);
            &&& left + filler == path
            &&& is_filler(filler)
            &&& filler.len() > 0 && filler[0] == '.' ==> left.len() > 0 && left.last() == '/'
            &&& ends_in_a_name(left)
            &&& path.len() > 0 ==> left.len() > 0
        }),
    decreases path.len(),
{
    let left = crate::path::trimmed(Rules::Unix, path);
    let filler = path.skip(left.len() as int);
    crate::path::lemma_trimmed_is_prefix(Rules::Unix, path);
    assert(left + filler =~= path);
    let last = crate::path::last_part(Rules::Unix, path);
    if path.len() >= 1 {
        lemma_last_part(path);
    }
    if path.len() >= 2 && (last == Seq::<char>::empty() || last == seq!['.']) {
        let shorter = path.drop_last();
        let before = shorter.skip(left.len() as int);
        lemma_trimmed(shorter);
        crate::path::lemma_trimmed_is_prefix(Rules::Unix, shorter);
        assert(filler =~= before.push(path.last()));
        if last == seq!['.'] {
            assert(path[path.len() - 2] == '/');
            assert(shorter.last() == '/');
        }
    } else {
        assert(filler =~= Seq::<char>::empty());
        if path.len() >= 2 {
            if path.last() == '.' && path[path.len() - 2] == '/' {
                assert(path.drop_last().last() == '/');
                assert(crate::path::last_part_start(Rules::Unix, path.drop_last()) == path.len()
                    - 1);
                assert(last =~= seq!['.']);
            }
        }
    }
}

/// The last part of a path is empty if and only if the path ends in a separator, and is `.` only
/// behind one.
proof fn lemma_last_part(path: Seq<char>)
    requires
        path.len() >= 1,
    ensures
        ({
            let last = crate::path::last_part(Rules::Unix, path);
            &&& last == Seq::<char>::empty() <==> path.last() == '/'
            &&& last == seq!['.'] ==> path.last() == '.' && (path.len() >= 2 ==> path[path.len()
                - 2] == '/')
        }),
{
    let start = crate::path::last_part_start(Rules::Unix, path);
    lemma_start_is_behind_a_separator(path);
    let last = crate::path::last_part(Rules::Unix, path);
    assert(last.len() == path.len() - start);
    if last == seq!['.'] {
        assert(last[0] == path[start]);
    }
    if path.last() == '/' {
        assert(last =~= Seq::<char>::empty());
    }
}

proof fn lemma_start_is_behind_a_separator(path: Seq<char>)
    ensures
        ({
            let start = crate::path::last_part_start(Rules::Unix, path);
            &&& 0 <= start <= path.len()
            &&& start > 0 ==> path[start - 1] == '/'
            &&& path.len() > 0 && path.last() != '/' ==> start < path.len()
        }),
    decreases path.len(),
{
    if path.len() > 0 && path.last() != '/' {
        lemma_start_is_behind_a_separator(path.drop_last());
    }
}

/// Whether `path` is `root`, then nothing that names a part of a path, then `name`.
pub open spec fn lies_in(path: Seq<char>, root: Seq<char>, filler: Seq<char>, name: Seq<char>) -> bool {
    is_filler(filler) && path == root + filler + name
}

proof fn lemma_parent(base: Seq<char>, name: Seq<char>)
    requires
        is_plain_name(name),
        base.len() == 0 || base.last() == '/',
    ensures
        crate::path::parent_on(Rules::Unix, base + name) matches Some(root) && {
            &&& ends_in_a_name(root)
            &&& exists|filler: Seq<char>| #[trigger] lies_in(base + name, root, filler, name)
        },
{
    let path = base + name;
    lemma_last_part_start(Rules::Unix, base, name);
    assert(path.skip(0) =~= path);
    assert(path.take(0) =~= Seq::<char>::empty());
    assert(path.skip(base.len() as int) =~= name);
    assert(path.last() == name.last());
    assert(name[name.len() - 1] != '/');
    assert(crate::path::trimmed(Rules::Unix, path) == path);
    assert(crate::path::body(Rules::Unix, path) == path);
    assert(crate::path::prefix(Rules::Unix, path) == Seq::<char>::empty());
    assert(!crate::path::is_bare(Rules::Unix, path)) by {
        assert(path[path.len() - 1] == name[name.len() - 1]);
    }
    if base.len() >= 2 {
        let front = path.take(base.len() - 1);
        assert(crate::path::front_part(Rules::Unix, path) == front);
        lemma_trimmed(front);
        let left = crate::path::trimmed(Rules::Unix, front);
        let filler = front.skip(left.len() as int).push('/');
        assert(Seq::<char>::empty() + left =~= left);
        assert(is_filler(filler)) by {
            let shorter = front.skip(left.len() as int);
            assert forall|i: int| 0 <= i < filler.len() implies #[trigger] filler[i] == '/'
                || filler[i] == '.' by {
                if i < shorter.len() {
                    assert(filler[i] == shorter[i]);
                }
            }
            assert forall|i: int, j: int|
                0 <= i && j == i + 1 && j < filler.len() implies #[trigger] filler[i] == '/'
                || #[trigger] filler[j] == '/' by {
                if j < shorter.len() {
                    assert(filler[i] == shorter[i] && filler[j] == shorter[j]);
                }
            }
        }
        assert(path =~= left + filler + name) by {
            assert(front + seq!['/'] =~= base);
            assert(left + filler =~= front + seq!['/']);
        }
        assert(crate::path::parent_on(Rules::Unix, path) == Some(left));
        assert(lies_in(path, left, filler, name));
    } else {
        let filler = Seq::<char>::empty();
        assert(crate::path::front_part(Rules::Unix, path) =~= Seq::<char>::empty());
        assert(path.take(base.len() as int) =~= base);
        assert(Seq::<char>::empty() + base =~= base);
        assert(path =~= base + filler + name);
        assert(crate::path::parent_on(Rules::Unix, path) == Some(base));
        assert(lies_in(path, base, filler, name));
    }
}

/// The path of a file, as a command that is run in `current_dir` finds it.
pub open spec fn path_from(current_dir: Seq<char>, file: Seq<char>) -> Seq<char> {
    if file.len() > 0 && file[0] == '/' {
        file
    } else if current_dir.len() == 0 || current_dir.last() == '/' {
        current_dir + file
    } else {
        current_dir + seq!['/'] + file
    }
}

/// The root is the directory that the configuration file lies in, wherever that is: the path of the
/// file is the root, then nothing that names a part of a path, then the name of the file.
pub proof fn law_root_is_where_the_file_lies<E>(
    current_dir: Seq<char>,
    file: String,
    front: Seq<char>,
    name: Seq<char>,
    r: Result<Option<String>, ComposeError<E>>,
)
    requires
        crate::path::is_portable(current_dir),
        crate::path::is_portable(file@),
        is_plain_name(name),
        file@ == front + name,
        front.len() == 0 || front.last() == '/',
        crate::resolving::may_be_root(Some(FileDescriptorType::File(file)), current_dir, r),
    ensures
        r matches Ok(Some(root)) && {
            &&& ends_in_a_name(root@)
            &&& exists|filler: Seq<char>| #[trigger]
                lies_in(path_from(current_dir, file@), root@, filler, name)
        },
{
    lemma_root(current_dir, file, r);
    assert(current_dir.take(0) + file@ =~= file@);
    let path = crate::path::join_on(Rules::Unix, current_dir, file@);
    assert(path == path_from(current_dir, file@));
    let base = path_from(current_dir, front);
    if front.len() > 0 {
        assert(file@[0] == front[0]);
        assert(base.last() == '/');
        assert(path =~= base + name);
        lemma_parent(base, name);
    } else {
        assert(file@ =~= name);
        assert(name[0] != '/');
        assert(path =~= base + name);
        lemma_parent(base, name);
    }
}

/// A configuration that is no file has no root, and a file that is a root lies nowhere.
pub proof fn law_root_of_what_is_no_file<E>(
    source: Option<FileDescriptorType>,
    current_dir: Seq<char>,
    r: Result<Option<String>, ComposeError<E>>,
)
    requires
        crate::resolving::may_be_root(source, current_dir, r),
    ensures
        source is None || source == Some(FileDescriptorType::Stdin) ==> (r matches Ok(None)),
        source matches Some(FileDescriptorType::File(_)) ==> !(r matches Ok(None)),
        r matches Err(e) ==> e is NoParent,
{
}

/// Whatever the paths are, the root is the directory that the platform gives for the file, and
/// there is none only where the platform gives none.
pub proof fn law_root_is_the_directory_of_the_joined_path<E>(
    current_dir: Seq<char>,
    file: String,
    r: Result<Option<String>, ComposeError<E>>,
)
    requires
        crate::resolving::may_be_root(Some(FileDescriptorType::File(file)), current_dir, r),
    ensures
        exists|joined: Seq<char>, directory: Option<Seq<char>>|
            {
                &&& #[trigger] crate::path::may_be_join(current_dir, file@, joined)
                &&& #[trigger] crate::path::may_be_parent(joined, directory)
                &&& match r {
                    Ok(Some(root)) => directory == Some(root@),
                    Err(ComposeError::NoParent) => directory is None,
                    _ => false,
                }
            },
{
    let (joined, directory) = choose|joined: Seq<char>, directory: Option<Seq<char>>| #[trigger]
        crate::resolving::may_lie_in(current_dir, file@, joined, directory)
            && crate::resolving::is_root_outcome(directory, r);
    assert(crate::path::may_be_join(current_dir, file@, joined));
    assert(crate::path::may_be_parent(joined, directory));
}

} // verus!
