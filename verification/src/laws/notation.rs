//! The notation of versions.
use vstd::prelude::*;

use crate::version::{FederationVersion, FederationVersionView, Version, VersionView};

verus! {

/// A text has one split into a part in which `p` holds throughout and a rest that does not start
/// with such a character.
proof fn lemma_split(
    a1: Seq<char>,
    b1: Seq<char>,
    a2: Seq<char>,
    b2: Seq<char>,
    p: spec_fn(char) -> bool,
)
    requires
        a1 + b1 == a2 + b2,
        forall|i: int| 0 <= i < a1.len() ==> p(#[trigger] a1[i]),
        forall|i: int| 0 <= i < a2.len() ==> p(#[trigger] a2[i]),
        b1.len() > 0 ==> !p(b1[0]),
        b2.len() > 0 ==> !p(b2[0]),
    ensures
        a1 == a2,
        b1 == b2,
{
    let whole = a1 + b1;
    assert(whole.len() == a1.len() + b1.len());
    assert(whole.len() == a2.len() + b2.len());
    if a1.len() < a2.len() {
        assert(whole[a1.len() as int] == b1[0]);
        assert(whole[a1.len() as int] == a2[a1.len() as int]);
    }
    if a2.len() < a1.len() {
        assert(whole[a2.len() as int] == b2[0]);
        assert(whole[a2.len() as int] == a1[a2.len() as int]);
    }
    assert(a1 =~= whole.take(a1.len() as int));
    assert(a2 =~= whole.take(a1.len() as int));
    assert(b1 =~= whole.skip(a1.len() as int));
    assert(b2 =~= whole.skip(a1.len() as int));
}

/// Decimal notation is made of digits, at least one.
pub proof fn lemma_decimal_digits(n: nat)
    ensures
        crate::text::decimal(n).len() > 0,
        forall|i: int|
            0 <= i < crate::text::decimal(n).len() ==> crate::version::is_digit(
                #[trigger] crate::text::decimal(n)[i],
            ),
    decreases n,
{
    if n >= 10 {
        lemma_decimal_digits(n / 10);
    }
}

/// Two numbers with the same decimal notation are the same.
proof fn lemma_decimal_injective(a: nat, b: nat)
    requires
        crate::text::decimal(a) == crate::text::decimal(b),
    ensures
        a == b,
    decreases a,
{
    let da = crate::text::decimal(a);
    let db = crate::text::decimal(b);
    if a >= 10 {
        lemma_decimal_digits(a / 10);
    }
    if b >= 10 {
        lemma_decimal_digits(b / 10);
    }
    assert(da.last() == crate::text::digit(a % 10));
    assert(db.last() == crate::text::digit(b % 10));
    assert(a % 10 == b % 10);
    if a >= 10 {
        assert(da.drop_last() =~= crate::text::decimal(a / 10));
        assert(db.drop_last() =~= crate::text::decimal(b / 10));
        lemma_decimal_injective(a / 10, b / 10);
    }
}

/// The part of a version's notation behind the numbers.
spec fn tail(v: VersionView) -> Seq<char> {
    let pre = if v.pre.len() == 0 {
        Seq::<char>::empty()
    } else {
        seq!['-'] + v.pre
    };
    if v.build.len() == 0 {
        pre
    } else {
        pre + (seq!['+'] + v.build)
    }
}

/// The notation of a version, taken apart from the left.
spec fn text_by_parts(v: VersionView) -> Seq<char> {
    let patch = crate::text::decimal(v.patch as nat) + tail(v);
    let minor = crate::text::decimal(v.minor as nat) + (seq!['.'] + patch);
    crate::text::decimal(v.major as nat) + (seq!['.'] + minor)
}

proof fn lemma_text_by_parts(v: VersionView)
    ensures
        v.text() == text_by_parts(v),
{
    assert(v.text() =~= text_by_parts(v));
}

/// A number in front of something that is no digit can be read in one way.
proof fn lemma_number_first(a: nat, rest_a: Seq<char>, b: nat, rest_b: Seq<char>)
    requires
        crate::text::decimal(a) + rest_a == crate::text::decimal(b) + rest_b,
        rest_a.len() > 0 ==> !crate::version::is_digit(rest_a[0]),
        rest_b.len() > 0 ==> !crate::version::is_digit(rest_b[0]),
    ensures
        a == b,
        rest_a == rest_b,
{
    lemma_decimal_digits(a);
    lemma_decimal_digits(b);
    lemma_split(
        crate::text::decimal(a),
        rest_a,
        crate::text::decimal(b),
        rest_b,
        |c: char| crate::version::is_digit(c),
    );
    lemma_decimal_injective(a, b);
}

proof fn lemma_behind_dot(a: Seq<char>, b: Seq<char>)
    requires
        seq!['.'] + a == seq!['.'] + b,
    ensures
        a == b,
{
    assert(a =~= (seq!['.'] + a).skip(1));
    assert(b =~= (seq!['.'] + b).skip(1));
}

/// Two versions with the same notation are the same: a text denotes one version at most.
pub proof fn law_notation_is_unique(a: VersionView, b: VersionView)
    requires
        a.is_semver(),
        b.is_semver(),
        a.text() == b.text(),
    ensures
        a == b,
{
    lemma_text_by_parts(a);
    lemma_text_by_parts(b);
    let patch_a = crate::text::decimal(a.patch as nat) + tail(a);
    let patch_b = crate::text::decimal(b.patch as nat) + tail(b);
    let minor_a = crate::text::decimal(a.minor as nat) + (seq!['.'] + patch_a);
    let minor_b = crate::text::decimal(b.minor as nat) + (seq!['.'] + patch_b);
    lemma_number_first(a.major as nat, seq!['.'] + minor_a, b.major as nat, seq!['.'] + minor_b);
    lemma_behind_dot(minor_a, minor_b);
    lemma_number_first(a.minor as nat, seq!['.'] + patch_a, b.minor as nat, seq!['.'] + patch_b);
    lemma_behind_dot(patch_a, patch_b);
    lemma_number_first(a.patch as nat, tail(a), b.patch as nat, tail(b));
    lemma_tail_injective(a, b);
}

/// Two versions with the same notation behind the numbers have the same pre-release identifiers
/// and the same build metadata.
proof fn lemma_tail_injective(a: VersionView, b: VersionView)
    requires
        a.is_semver(),
        b.is_semver(),
        tail(a) == tail(b),
    ensures
        a.pre == b.pre,
        a.build == b.build,
{
    let no_plus = |c: char| c != '+';
    let (ba, bb) = (
        if a.build.len() == 0 {
            Seq::<char>::empty()
        } else {
            seq!['+'] + a.build
        },
        if b.build.len() == 0 {
            Seq::<char>::empty()
        } else {
            seq!['+'] + b.build
        },
    );
    let (pa, pb) = (
        if a.pre.len() == 0 {
            Seq::<char>::empty()
        } else {
            seq!['-'] + a.pre
        },
        if b.pre.len() == 0 {
            Seq::<char>::empty()
        } else {
            seq!['-'] + b.pre
        },
    );
    assert(tail(a) =~= pa + ba);
    assert(tail(b) =~= pb + bb);
    assert forall|i: int| 0 <= i < pa.len() implies no_plus(#[trigger] pa[i]) by {
        if i > 0 {
            assert(pa[i] == a.pre[i - 1]);
        }
    }
    assert forall|i: int| 0 <= i < pb.len() implies no_plus(#[trigger] pb[i]) by {
        if i > 0 {
            assert(pb[i] == b.pre[i - 1]);
        }
    }
    lemma_split(pa, ba, pb, bb, no_plus);
    if a.pre.len() > 0 {
        assert(a.pre =~= pa.skip(1));
    }
    if b.pre.len() > 0 {
        assert(b.pre =~= pb.skip(1));
    }
    if a.build.len() > 0 {
        assert(a.build =~= ba.skip(1));
    }
    if b.build.len() > 0 {
        assert(b.build =~= bb.skip(1));
    }
    assert(a.pre =~= b.pre);
    assert(a.build =~= b.build);
}

/// Formatting an exact version for reading gives the notation that release archives use: a `v` in
/// front of the version.
pub proof fn law_formatted_version_is_tarball_version(version: FederationVersionView)
    requires
        version.exact() is Some,
    ensures
        seq!['v'] + version.text().skip(1) == version.tarball(),
        version.tarball() == seq!['v'] + version.exact()->0.text(),
{
    let text = version.exact()->0.text();
    assert((seq!['='] + text).skip(1) =~= text);
}

/// The version that the binary is told of is one of two, that of the same major line. Telling it
/// again changes nothing.
pub proof fn law_latest_keeps_the_major_line(version: FederationVersionView)
    ensures
        version.latest().is_fed_two() == version.is_fed_two(),
        version.latest().latest() == version.latest(),
        version.latest().exact() is None,
        version.latest().text() == if version.is_fed_two() {
            seq!['2']
        } else {
            seq!['0']
        },
{
}

/// The version that a text denotes is the version whose notation it is.
pub proof fn law_denoted_version(text: Seq<char>, v: VersionView)
    requires
        crate::version::denotes(text, v),
    ensures
        crate::version::version_denoted(text) == Some(v),
{
    let w = choose|w: VersionView| crate::version::denotes(text, w);
    law_notation_is_unique(v, w);
}

/// The number that decimal digits stand for.
pub open spec fn number(digits: Seq<char>) -> int
    decreases digits.len(),
{
    if digits.len() == 0 {
        0
    } else {
        10 * number(digits.drop_last()) + (digits.last() as int - '0' as int)
    }
}

/// Whether `digits` are the digits of `n`, with none to spare.
pub open spec fn is_numeral(digits: Seq<char>, n: int) -> bool {
    &&& digits.len() > 0
    &&& forall|i: int| 0 <= i < digits.len() ==> '0' <= #[trigger] digits[i] <= '9'
    &&& digits.len() > 1 ==> digits[0] != '0'
    &&& number(digits) == n
}

/// Decimal notation stands for the number that it is the notation of, without leading zeros.
pub proof fn law_decimal_stands_for_its_number(n: nat)
    ensures
        is_numeral(crate::text::decimal(n), n as int),
    decreases n,
{
    reveal_with_fuel(number, 3);
    let digits = crate::text::decimal(n);
    let last = digits.last();
    if n >= 10 {
        let front = crate::text::decimal(n / 10);
        law_decimal_stands_for_its_number(n / 10);
        assert(digits.drop_last() =~= front);
        assert(last as int - '0' as int == n % 10);
        if front.len() == 1 {
            assert(front.drop_last() =~= Seq::<char>::empty());
            assert(number(front) == front[0] as int - '0' as int);
        }
        assert(forall|i: int| 0 <= i < front.len() ==> digits[i] == front[i]);
    } else {
        assert(digits.drop_last() =~= Seq::<char>::empty());
        assert(last as int - '0' as int == n);
    }
}

/// Whether `text` shows the version `v`, whose numbers have the digits `major`, `minor` and
/// `patch`.
pub open spec fn shows(
    text: Seq<char>,
    major: Seq<char>,
    minor: Seq<char>,
    patch: Seq<char>,
    v: VersionView,
) -> bool {
    &&& is_numeral(major, v.major as int)
    &&& is_numeral(minor, v.minor as int)
    &&& is_numeral(patch, v.patch as int)
    &&& v.pre.len() == 0 && v.build.len() == 0 ==> text == major + seq!['.'] + minor + seq!['.']
        + patch
    &&& v.pre.len() > 0 && v.build.len() == 0 ==> text == major + seq!['.'] + minor + seq!['.']
        + patch + seq!['-'] + v.pre
    &&& v.pre.len() == 0 && v.build.len() > 0 ==> text == major + seq!['.'] + minor + seq!['.']
        + patch + seq!['+'] + v.build
    &&& v.pre.len() > 0 && v.build.len() > 0 ==> text == major + seq!['.'] + minor + seq!['.']
        + patch + seq!['-'] + v.pre + seq!['+'] + v.build
}

/// The notation of a version shows its three numbers, its pre-release and its build metadata.
pub proof fn law_notation_shows_the_version(v: VersionView)
    ensures
        exists|major: Seq<char>, minor: Seq<char>, patch: Seq<char>| #[trigger]
            shows(v.text(), major, minor, patch, v),
{
    law_decimal_stands_for_its_number(v.major as nat);
    law_decimal_stands_for_its_number(v.minor as nat);
    law_decimal_stands_for_its_number(v.patch as nat);
    assert(shows(
        v.text(),
        crate::text::decimal(v.major as nat),
        crate::text::decimal(v.minor as nat),
        crate::text::decimal(v.patch as nat),
        v,
    ));
}

/// A version whose pre-release and whose build metadata are one identifier each, or missing, is
/// such as SemVer allows.
pub proof fn law_simple_versions_are_semver(v: VersionView)
    requires
        forall|i: int|
            0 <= i < v.pre.len() ==> {
                let c = #[trigger] v.pre[i];
                '0' <= c <= '9' || 'A' <= c <= 'Z' || 'a' <= c <= 'z' || c == '-'
            },
        v.pre.len() <= 1 || v.pre[0] != '0' || exists|i: int|
            0 <= i < v.pre.len() && !('0' <= #[trigger] v.pre[i] <= '9'),
        forall|i: int|
            0 <= i < v.build.len() ==> {
                let c = #[trigger] v.build[i];
                '0' <= c <= '9' || 'A' <= c <= 'Z' || 'a' <= c <= 'z' || c == '-'
            },
    ensures
        v.is_semver(),
{
    assert forall|i: int, j: int| #[trigger]
        crate::version::is_identifier_at(v.pre, i, j) && i + 1 < j && (forall|k: int|
            i <= k < j ==> crate::version::is_digit(v.pre[k])) implies v.pre[i] != '0' by {
        if i > 0 {
            assert(v.pre[i - 1] == '.');
        }
        if j < v.pre.len() {
            assert(v.pre[j] == '.');
        }
        assert(i == 0 && j == v.pre.len());
    }
}

/// What a Federation version is: the latest of a major line, or an exact one, which belongs to one
/// of the two lines and is shown with its notation.
pub proof fn law_kinds_of_federation_versions(version: FederationVersionView)
    ensures
        version.exact() is None <==> version is LatestFedOne || version is LatestFedTwo,
        forall|v: VersionView|
            version == FederationVersionView::ExactFedOne(v) ==> {
                &&& version.exact() == Some(v)
                &&& !version.is_fed_two()
                &&& #[trigger] v.text() == version.text().skip(1)
                &&& version.text() == seq!['='] + v.text()
                &&& version.tarball() == seq!['v'] + v.text()
            },
        forall|v: VersionView|
            version == FederationVersionView::ExactFedTwo(v) ==> {
                &&& version.exact() == Some(v)
                &&& version.is_fed_two()
                &&& #[trigger] v.text() == version.text().skip(1)
                &&& version.text() == seq!['='] + v.text()
                &&& version.tarball() == seq!['v'] + v.text()
            },
        version is LatestFedOne ==> !version.is_fed_two() && version.text() == seq!['0']
            && version.tarball() == "latest-0"@,
        version is LatestFedTwo ==> version.is_fed_two() && version.text() == seq!['2']
            && version.tarball() == "latest-2"@,
        version.latest() is LatestFedOne || version.latest() is LatestFedTwo,
        version.latest() is LatestFedTwo <==> version is LatestFedTwo || version is ExactFedTwo,
{
    if version.exact() is Some {
        let text = version.exact()->0.text();
        assert((seq!['='] + text).skip(1) =~= text);
    }
}

/// Nothing of a version is lost or changed in what is said of it.
pub proof fn law_versions_are_held_as_they_are(v: Version, version: FederationVersion)
    ensures
        v@.major == v.major,
        v@.minor == v.minor,
        v@.patch == v.patch,
        v@.pre == v.pre@,
        v@.build == v.build@,
        match version {
            FederationVersion::LatestFedOne => version@ is LatestFedOne,
            FederationVersion::LatestFedTwo => version@ is LatestFedTwo,
            FederationVersion::ExactFedOne(w) => version@ == FederationVersionView::ExactFedOne(w@),
            FederationVersion::ExactFedTwo(w) => version@ == FederationVersionView::ExactFedTwo(w@),
        },
{
}

/// A text in front of another, or behind it, is cut off once, and a text that does not stand there
/// is not cut off.
pub proof fn law_text_is_cut_off_once(s: Seq<char>, cut: Seq<char>)
    ensures
        crate::text::without_prefix(cut + s, cut) == s,
        crate::text::without_suffix(s + cut, cut) == s,
        (forall|rest: Seq<char>| s != #[trigger] (cut + rest)) ==> crate::text::without_prefix(
            s,
            cut,
        ) == s,
        (forall|front: Seq<char>| s != #[trigger] (front + cut)) ==> crate::text::without_suffix(
            s,
            cut,
        ) == s,
{
    assert(cut.is_prefix_of(cut + s));
    assert((cut + s).skip(cut.len() as int) =~= s);
    assert((s + cut).subrange(s.len() as int, (s + cut).len() as int) =~= cut);
    assert((s + cut).take(s.len() as int) =~= s);
    if cut.is_prefix_of(s) {
        assert(s =~= cut + s.skip(cut.len() as int));
    }
    if cut.is_suffix_of(s) {
        assert(s =~= s.take(s.len() - cut.len()) + cut);
    }
}

proof fn lemma_first_identifier(a: Seq<char>, b: Seq<char>)
    requires
        !a.contains('.'),
        b.len() == 0 || b[0] == '.',
    ensures
        crate::version::first_identifier_len(a + b) == a.len(),
    decreases a.len(),
{
    if a.len() > 0 {
        assert(a[0] != '.');
        assert((a + b).drop_first() =~= a.drop_first() + b);
        assert forall|i: int| 0 <= i < a.drop_first().len() implies a.drop_first()[i] != '.' by {
            assert(a[i + 1] != '.');
        }
        lemma_first_identifier(a.drop_first(), b);
    } else {
        assert(a + b =~= b);
    }
}

/// Of Federation 1 the versions from 0.36 on are offered, of Federation 2 all of them, and of the
/// pre-releases of 2.0.0 the previews from the ninth on. No version of another major number is.
pub proof fn law_offered_versions(v: VersionView, n: nat)
    ensures
        v.major == 0 ==> (crate::version::is_offered(v) <==> v.minor >= 36),
        v.major == 1 || v.major > 2 ==> !crate::version::is_offered(v),
        v.major == 2 && (v.minor > 0 || v.patch > 0 || v.pre.len() == 0)
            ==> crate::version::is_offered(v),
        v.major == 2 && v.minor == 0 && v.patch == 0 && v.pre == "preview."@
            + crate::text::decimal(n) ==> (crate::version::is_offered(v) <==> n >= 9),
{
    if v.major == 2 && v.minor == 0 && v.patch == 0 && v.pre == "preview."@ + crate::text::decimal(
        n,
    ) {
        reveal_strlit("preview.");
        reveal_strlit("preview");
        let d = crate::text::decimal(n);
        lemma_decimal_digits(n);
        assert("preview."@ =~= "preview"@ + seq!['.']);
        assert(v.pre =~= "preview"@ + (seq!['.'] + d));
        assert forall|i: int| 0 <= i < "preview"@.len() implies "preview"@[i] != '.' by {}
        lemma_first_identifier("preview"@, seq!['.'] + d);
        assert(v.pre.take(7) =~= "preview"@);
        assert(v.pre.skip(8) =~= d);
        assert forall|i: int| 0 <= i < d.len() implies d[i] != '.' by {
            assert(crate::version::is_digit(d[i]));
        }
        lemma_first_identifier(d, Seq::<char>::empty());
        assert(d + Seq::<char>::empty() =~= d);
        assert(d.take(d.len() as int) =~= d);
        if n >= 10 {
            lemma_decimal_digits(n / 10);
            assert(d.len() > 1);
        } else {
            assert(d.len() == 1 && d[0] == crate::text::digit(n));
            assert(seq!['9'][0] == '9');
            if n == 9 {
                assert(d =~= seq!['9']);
            } else {
                assert(d[0] as int == '0' as int + n);
                assert(d[0] != '9');
            }
        }
    }
}

} // verus!
