//! What the parts of a path are.
//!
//! That rests on the platform: on Windows `\` is a separator too, and a path may start with a
//! drive, a share or a device, or be verbatim. The specifications here say what a path comes to by
//! each set of rules.
use vstd::prelude::*;

verus! {

/// The rules by which a path is taken apart.
pub enum Rules {
    /// `/` is the only separator.
    Unix,
    /// `\` is a separator too, and a path may start with a drive.
    Drives,
    /// As with drives, and a path may also start with a share, such as `\\server\share`, or with a
    /// device, such as `\\.\device`.
    Shares,
    /// The path starts with `\\?\`. `\` is the only separator, and a part `.` is a part like
    /// others.
    Verbatim,
}

pub open spec fn is_separator(rules: Rules, c: char) -> bool {
    match rules {
        Rules::Unix => c == '/',
        Rules::Verbatim => c == '\\',
        _ => c == '/' || c == '\\',
    }
}

/// Whether `path` starts with two characters that are separators on Windows.
pub open spec fn is_doubly_rooted(path: Seq<char>) -> bool {
    path.len() >= 2 && is_separator(Rules::Shares, path[0]) && is_separator(Rules::Shares, path[1])
}

pub open spec fn is_letter(c: char) -> bool {
    'a' <= c <= 'z' || 'A' <= c <= 'Z'
}

/// Whether `path` starts as the verbatim paths of Windows do, with `\\?\`.
pub open spec fn is_verbatim(path: Seq<char>) -> bool {
    path.len() >= 4 && path[0] == '\\' && path[1] == '\\' && path[2] == '?' && path[3] == '\\'
}

/// Whether `path` starts as a verbatim path does, but with `/` behind the drive or behind `UNC`.
pub open spec fn is_mixed(path: Seq<char>) -> bool {
    is_verbatim(path) && {
        ||| path.len() > 6 && is_letter(path[4]) && path[5] == ':' && path[6] == '/'
        ||| path.len() > 7 && path.subrange(4, 8) == seq!['U', 'N', 'C', '/']
    }
}

/// Where the part of `path` that starts at `from` ends.
pub open spec fn part_end(rules: Rules, path: Seq<char>, from: int) -> int
    decreases path.len() - from,
{
    if from < 0 || from >= path.len() || is_separator(rules, path[from]) {
        from
    } else {
        part_end(rules, path, from + 1)
    }
}

/// Whether `path` starts as the path of a device does, with `\\.\`.
pub open spec fn is_device(path: Seq<char>) -> bool {
    is_doubly_rooted(path) && path.len() >= 4 && path[2] == '.' && is_separator(
        Rules::Shares,
        path[3],
    )
}

/// How long the share or the device in front of `path` is. A share is two separators, a server, a
/// separator and a name. A device is `\\.\` and a name, which may be empty.
pub open spec fn share_len(path: Seq<char>) -> int {
    let server_end = part_end(Rules::Shares, path, 2);
    let name_end = part_end(Rules::Shares, path, server_end + 1);
    if is_device(path) {
        part_end(Rules::Shares, path, 4)
    } else if is_doubly_rooted(path) && 2 < server_end && server_end + 1 < name_end {
        name_end
    } else {
        0
    }
}

/// How long that is which stands in front of the parts of a verbatim path: `\\?\` and one part, or
/// `\\?\UNC\` and a share.
pub open spec fn verbatim_len(path: Seq<char>) -> int {
    let first_end = part_end(Rules::Verbatim, path, 4);
    let server_end = part_end(Rules::Verbatim, path, first_end + 1);
    let name_end = part_end(Rules::Verbatim, path, server_end + 1);
    if path.subrange(4, first_end) == seq!['U', 'N', 'C'] && first_end < path.len() {
        if server_end + 1 < name_end {
            name_end
        } else {
            server_end
        }
    } else {
        first_end
    }
}

/// How long the drive in front of `path` is.
pub open spec fn drive_len(rules: Rules, path: Seq<char>) -> int {
    if (rules is Drives || rules is Shares) && path.len() >= 2 && is_letter(path[0]) && path[1]
        == ':' {
        2
    } else {
        0
    }
}

/// How long that is which stands in front of the parts of `path`: a drive, a share or a device.
pub open spec fn prefix_len(rules: Rules, path: Seq<char>) -> int {
    if rules is Shares && share_len(path) > 0 {
        share_len(path)
    } else if rules is Verbatim && is_verbatim(path) {
        verbatim_len(path)
    } else {
        drive_len(rules, path)
    }
}

/// The drive, the share or the device in front of `path`, if there is one.
pub open spec fn prefix(rules: Rules, path: Seq<char>) -> Seq<char> {
    path.take(prefix_len(rules, path))
}

/// `path` without its drive, its share or its device.
pub open spec fn body(rules: Rules, path: Seq<char>) -> Seq<char> {
    path.skip(prefix_len(rules, path))
}

/// Where the last part of `path`, the one behind its last separator, starts.
pub open spec fn last_part_start(rules: Rules, path: Seq<char>) -> int
    decreases path.len(),
{
    if path.len() == 0 || is_separator(rules, path.last()) {
        path.len() as int
    } else {
        last_part_start(rules, path.drop_last())
    }
}

/// The last part of `path`. It is empty where the path ends in a separator.
pub open spec fn last_part(rules: Rules, path: Seq<char>) -> Seq<char> {
    path.skip(last_part_start(rules, path))
}

/// `path` without separators and `.` parts at its end; in a verbatim path `.` parts stay. A path
/// that is nothing but a root, or nothing but `.`, stays as it is.
pub open spec fn trimmed(rules: Rules, path: Seq<char>) -> Seq<char>
    decreases path.len(),
{
    if path.len() >= 2 && (last_part(rules, path) == Seq::<char>::empty() || !(rules is Verbatim)
        && last_part(rules, path) == seq!['.']) {
        trimmed(rules, path.drop_last())
    } else {
        path
    }
}

/// Whether `path` is empty or nothing but a root.
pub open spec fn is_bare(rules: Rules, path: Seq<char>) -> bool {
    path.len() == 0 || path.len() == 1 && is_separator(rules, path[0])
}

/// The file name in `path`: the last part, but for separators and `.` parts at the end. A path
/// that ends in a drive, a share, a device, a root or `..` has none, nor has a verbatim path that
/// ends in `.`.
pub open spec fn file_name_on(rules: Rules, path: Seq<char>) -> Option<Seq<char>> {
    let whole = trimmed(rules, body(rules, path));
    let last = last_part(rules, whole);
    if is_bare(rules, whole) || last == seq!['.'] || last == seq!['.', '.'] {
        None
    } else {
        Some(last)
    }
}

/// Whether `name` may be the file name in `path`.
pub open spec fn may_be_file_name(path: Seq<char>, name: Option<Seq<char>>) -> bool {
    ||| is_mixed(path)
    ||| name == file_name_on(Rules::Unix, path)
    ||| is_verbatim(path) && name == file_name_on(Rules::Verbatim, path)
    ||| !is_verbatim(path) && name == file_name_on(Rules::Drives, path)
    ||| !is_verbatim(path) && name == file_name_on(Rules::Shares, path)
}

/// What stands in front of the last part of `path` and of the separator before it.
pub open spec fn front_part(rules: Rules, path: Seq<char>) -> Seq<char> {
    if last_part_start(rules, path) == 0 {
        Seq::<char>::empty()
    } else {
        path.take(last_part_start(rules, path) - 1)
    }
}

/// The directory that `path` lies in: the path without its last part, and without separators and
/// `.` parts at its end. A drive, a share, a device, a root and an empty path lie in none.
pub open spec fn parent_on(rules: Rules, path: Seq<char>) -> Option<Seq<char>> {
    let whole = trimmed(rules, body(rules, path));
    let front = front_part(rules, whole);
    if is_bare(rules, whole) {
        None
    } else if front.len() > 0 {
        Some(prefix(rules, path) + trimmed(rules, front))
    } else {
        Some(prefix(rules, path) + whole.take(last_part_start(rules, whole)))
    }
}

/// Whether `parent` may be the directory that `path` lies in.
pub open spec fn may_be_parent(path: Seq<char>, parent: Option<Seq<char>>) -> bool {
    ||| is_mixed(path)
    ||| parent == parent_on(Rules::Unix, path)
    ||| is_verbatim(path) && parent == parent_on(Rules::Verbatim, path)
    ||| !is_verbatim(path) && parent == parent_on(Rules::Drives, path)
    ||| !is_verbatim(path) && parent == parent_on(Rules::Shares, path)
}

/// Whether a path is joined to the directory `base` without a separator: the directory ends in
/// one, is empty, or is nothing but a drive.
pub open spec fn joins_directly(rules: Rules, base: Seq<char>) -> bool {
    base.len() == 0 || is_separator(rules, base.last()) || base.len() == drive_len(rules, base)
}

/// `path` taken relative to the directory `base`: a path with a drive, a share or a device stands
/// for itself, and one that starts at a root keeps that of the base.
pub open spec fn join_on(rules: Rules, base: Seq<char>, path: Seq<char>) -> Seq<char> {
    if prefix_len(rules, path) > 0 {
        path
    } else if path.len() > 0 && is_separator(rules, path[0]) {
        prefix(rules, base) + path
    } else if joins_directly(rules, base) {
        base + path
    } else if rules is Unix {
        base + seq!['/'] + path
    } else {
        base + seq!['\\'] + path
    }
}

/// Whether `joined` may be `path` taken relative to the verbatim directory `base`, with `.` and
/// `..` parts resolved: what stands in front of the parts of the base stays, separators are `\`, and
/// the file name of the path, if it has one, comes last.
pub open spec fn is_resolved_join(base: Seq<char>, path: Seq<char>, joined: Seq<char>) -> bool {
    let front = prefix(Rules::Verbatim, base);
    let behind = joined.skip(front.len() as int);
    &&& path.len() > 0
    &&& front.is_prefix_of(joined)
    &&& behind.len() > 0 ==> behind[0] == '\\'
    &&& match file_name_on(Rules::Shares, path) {
        Some(name) => (seq!['\\'] + name).is_suffix_of(behind),
        None => true,
    }
}

/// Whether `joined` may be `path` taken relative to the directory `base`.
pub open spec fn may_be_join(base: Seq<char>, path: Seq<char>, joined: Seq<char>) -> bool {
    ||| is_mixed(base)
    ||| is_verbatim(base) && is_resolved_join(base, path, joined)
    ||| is_verbatim(path) && joined == path
    ||| path.len() == 0 && joined == base
    ||| joined == join_on(Rules::Unix, base, path)
    ||| joined == join_on(Rules::Drives, base, path)
    ||| joined == join_on(Rules::Shares, base, path)
}

/// Whether `path` comes to the same on every platform: `/` is the only separator in it, and it
/// starts with no drive and no share.
pub open spec fn is_portable(path: Seq<char>) -> bool {
    &&& !path.contains('\\')
    &&& !path.contains(':')
    &&& !is_doubly_rooted(path)
}

proof fn lemma_same_parts(rules: Rules, path: Seq<char>)
    requires
        !(rules is Verbatim),
        !path.contains('\\'),
    ensures
        last_part_start(rules, path) == last_part_start(Rules::Unix, path),
        0 <= last_part_start(Rules::Unix, path) <= path.len(),
        trimmed(rules, path) == trimmed(Rules::Unix, path),
        is_bare(rules, path) == is_bare(Rules::Unix, path),
    decreases path.len(),
{
    if path.len() > 0 {
        assert(path[path.len() - 1] != '\\');
        assert(path[0] != '\\');
        lemma_no_backslash(path, path.len() - 1);
        assert(path.drop_last() =~= path.take(path.len() - 1));
        lemma_same_parts(rules, path.drop_last());
    }
}

proof fn lemma_no_backslash(path: Seq<char>, n: int)
    requires
        !path.contains('\\'),
        0 <= n <= path.len(),
    ensures
        !path.take(n).contains('\\'),
{
    assert forall|i: int| 0 <= i < n implies path.take(n)[i] != '\\' by {
        assert(path.take(n)[i] == path[i]);
    }
}

proof fn lemma_no_prefix(rules: Rules, path: Seq<char>)
    requires
        is_portable(path),
    ensures
        prefix_len(rules, path) == 0,
        drive_len(rules, path) == 0,
        body(rules, path) == path,
        prefix(rules, path) == Seq::<char>::empty(),
{
    assert(path.len() >= 2 ==> path[1] != ':');
    assert(path.len() >= 1 ==> path[0] != '\\');
    assert(path.skip(0) =~= path);
    assert(path.take(0) =~= Seq::<char>::empty());
}

/// A portable path has the same file name and lies in the same directory on every platform.
pub proof fn lemma_portable(rules: Rules, path: Seq<char>)
    requires
        !(rules is Verbatim),
        is_portable(path),
    ensures
        file_name_on(rules, path) == file_name_on(Rules::Unix, path),
        parent_on(rules, path) == parent_on(Rules::Unix, path),
{
    lemma_no_prefix(rules, path);
    lemma_no_prefix(Rules::Unix, path);
    lemma_same_parts(rules, path);
    lemma_trimmed_is_prefix(Rules::Unix, path);
    let whole = trimmed(Rules::Unix, path);
    lemma_no_backslash(path, whole.len() as int);
    lemma_same_parts(rules, whole);
    let start = last_part_start(Rules::Unix, whole);
    if start > 0 {
        lemma_no_backslash(whole, start - 1);
        lemma_same_parts(rules, whole.take(start - 1));
    }
}

/// What is left of a path without separators and `.` parts at its end is the front of it.
pub proof fn lemma_trimmed_is_prefix(rules: Rules, path: Seq<char>)
    ensures
        trimmed(rules, path).len() <= path.len(),
        trimmed(rules, path) == path.take(trimmed(rules, path).len() as int),
    decreases path.len(),
{
    if trimmed(rules, path) != path {
        lemma_trimmed_is_prefix(rules, path.drop_last());
        let n = trimmed(rules, path).len() as int;
        assert(path.drop_last().take(n) =~= path.take(n));
    } else {
        assert(path.take(path.len() as int) =~= path);
    }
}

/// A portable path joined to a portable directory, with `/` in between, is portable.
pub proof fn lemma_portable_join(base: Seq<char>, path: Seq<char>)
    requires
        is_portable(base),
        is_portable(path),
    ensures
        is_portable(join_on(Rules::Unix, base, path)),
{
    let joined = join_on(Rules::Unix, base, path);
    assert(base.take(0) + path =~= path);
    assert forall|c: char| c != '/' && #[trigger] joined.contains(c) implies base.contains(c)
        || path.contains(c) by {
        let i = choose|i: int| 0 <= i < joined.len() && joined[i] == c;
        if path.len() > 0 && path[0] == '/' {
            assert(path[i] == c);
        } else if i < base.len() {
            assert(base[i] == c);
        } else if base.len() == 0 || base.last() == '/' {
            assert(path[i - base.len()] == c);
        } else {
            assert(path[i - base.len() - 1] == c);
        }
    }
    if path.len() > 0 {
        assert(path[0] != '\\');
    }
    if base.len() > 0 {
        assert(base[0] != '\\');
    }
    if base.len() > 1 {
        assert(base[1] != '\\');
    }
    if path.len() > 1 {
        assert(path[1] != '\\');
    }
    if is_doubly_rooted(joined) {
        assert(joined.contains(joined[0]));
        assert(joined.contains(joined[1]));
        assert(joined[0] == '/' && joined[1] == '/');
    }
}

/// A portable path is joined without a separator of the platform's to a portable directory that
/// ends in one.
pub proof fn lemma_join_behind_separator(rules: Rules, base: Seq<char>, path: Seq<char>)
    requires
        !(rules is Verbatim),
        is_portable(base),
        is_portable(path),
        base.len() == 0 || base.last() == '/',
    ensures
        join_on(rules, base, path) == join_on(Rules::Unix, base, path),
        path.len() == 0 ==> join_on(rules, base, path) == base,
{
    lemma_no_prefix(rules, base);
    lemma_no_prefix(rules, path);
    lemma_no_prefix(Rules::Unix, base);
    lemma_no_prefix(Rules::Unix, path);
    if path.len() > 0 {
        assert(path[0] != '\\');
    } else {
        assert(base + path =~= base);
    }
}

/// A portable directory stays portable with a `/` at its end, and a path is joined to it with `/`
/// as to the directory itself.
pub proof fn lemma_closed(base: Seq<char>, path: Seq<char>)
    requires
        is_portable(base),
        base.len() > 0,
        base.last() != '/',
    ensures
        is_portable(base + seq!['/']),
        join_on(Rules::Unix, base + seq!['/'], path) == join_on(Rules::Unix, base, path),
{
    let closed = base + seq!['/'];
    assert forall|i: int| 0 <= i < closed.len() implies closed[i] != '\\' && closed[i] != ':' by {
        if i < base.len() {
            assert(base[i] == closed[i]);
        }
    }
    assert(closed[0] == base[0]);
    assert(base[0] != '\\');
    if base.len() > 1 {
        assert(closed[1] == base[1]);
    }
    assert(base.take(0) =~= closed.take(0));
}

/// Whether `path` comes to the same on every platform.
pub fn check_portable(path: &str) -> (r: bool)
    ensures
        r == is_portable(path@),
{
    let n: usize = path.unicode_len();
    let mut i: usize = 0;
    while i < n
        invariant
            i <= n,
            n == path@.len(),
            forall|k: int| 0 <= k < i ==> path@[k] != '\\' && path@[k] != ':',
        decreases n - i,
    {
        let c = path.get_char(i);
        if c == '\\' || c == ':' {
            assert(path@[i as int] == c);
            return false;
        }
        i = i + 1;
    }
    !(n >= 2 && path.get_char(0) == '/' && path.get_char(1) == '/')
}

} // verus!
