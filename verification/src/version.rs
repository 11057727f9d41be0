//! Versions of Apollo Federation, as plain values.
use vstd::prelude::*;

use crate::text::push_decimal;

verus! {

/// A semantic version.
#[derive(Debug, PartialEq, Eq)]
pub struct Version {
    pub major: u64,
    pub minor: u64,
    pub patch: u64,
    /// The pre-release identifiers, empty where there are none.
    pub pre: String,
    /// The build metadata, empty where there is none.
    pub build: String,
}

/// What a [`Version`] holds.
pub struct VersionView {
    pub major: u64,
    pub minor: u64,
    pub patch: u64,
    pub pre: Seq<char>,
    pub build: Seq<char>,
}

impl View for Version {
    type V = VersionView;

    open spec fn view(&self) -> VersionView {
        VersionView {
            major: self.major,
            minor: self.minor,
            patch: self.patch,
            pre: self.pre@,
            build: self.build@,
        }
    }
}

impl Clone for Version {
    fn clone(&self) -> (r: Self)
        ensures
            r == *self,
    {
        Version {
            major: self.major,
            minor: self.minor,
            patch: self.patch,
            pre: self.pre.clone(),
            build: self.build.clone(),
        }
    }
}

pub open spec fn is_digit(c: char) -> bool {
    '0' <= c <= '9'
}

/// The characters of pre-release identifiers and build metadata, the dot left aside.
pub open spec fn is_identifier_char(c: char) -> bool {
    is_digit(c) || 'A' <= c <= 'Z' || 'a' <= c <= 'z' || c == '-'
}

/// Whether `s` is empty or a row of non-empty identifiers with single dots between them.
pub open spec fn is_dotted(s: Seq<char>) -> bool {
    &&& forall|i: int| 0 <= i < s.len() ==> is_identifier_char(#[trigger] s[i]) || s[i] == '.'
    &&& s.len() > 0 ==> s[0] != '.' && s.last() != '.'
    &&& forall|i: int, j: int| 0 <= i && j == i + 1 && j < s.len() && #[trigger] s[i] == '.' ==>
        #[trigger] s[j] != '.'
}

/// Whether `s[i..j]` is one whole identifier of `s`.
pub open spec fn is_identifier_at(s: Seq<char>, i: int, j: int) -> bool {
    &&& 0 <= i < j <= s.len()
    &&& i > 0 ==> s[i - 1] == '.'
    &&& j < s.len() ==> s[j] == '.'
    &&& forall|k: int| i <= k < j ==> s[k] != '.'
}

/// Whether no numeric identifier of `s` has a leading zero.
pub open spec fn has_no_leading_zero(s: Seq<char>) -> bool {
    forall|i: int, j: int| #[trigger] is_identifier_at(s, i, j) && i + 1 < j && (forall|k: int|
        i <= k < j ==> is_digit(s[k])) ==> s[i] != '0'
}

impl VersionView {
    /// Whether the pre-release identifiers and the build metadata are such as SemVer allows.
    pub open spec fn is_semver(self) -> bool {
        is_dotted(self.pre) && has_no_leading_zero(self.pre) && is_dotted(self.build)
    }

    /// The version in SemVer notation.
    pub open spec fn text(self) -> Seq<char> {
        let numbers = crate::text::decimal(self.major as nat) + seq!['.'] + crate::text::decimal(
            self.minor as nat,
        ) + seq!['.'] + crate::text::decimal(self.patch as nat);
        let with_pre = if self.pre.len() == 0 {
            numbers
        } else {
            numbers + seq!['-'] + self.pre
        };
        if self.build.len() == 0 {
            with_pre
        } else {
            with_pre + seq!['+'] + self.build
        }
    }
}

/// Whether `text` is the SemVer notation of the version `v`.
pub open spec fn denotes(text: Seq<char>, v: VersionView) -> bool {
    v.text() == text && v.is_semver()
}

/// The version that `text` is the SemVer notation of, if it is one.
pub open spec fn version_denoted(text: Seq<char>) -> Option<VersionView> {
    if exists|v: VersionView| denotes(text, v) {
        Some(choose|v: VersionView| denotes(text, v))
    } else {
        None
    }
}

/// The length of the first of some dotted identifiers.
pub open spec fn first_identifier_len(s: Seq<char>) -> nat
    decreases s.len(),
{
    if s.len() == 0 || s[0] == '.' {
        0
    } else {
        1 + first_identifier_len(s.drop_first())
    }
}

/// The first of some dotted identifiers.
pub open spec fn first_identifier(s: Seq<char>) -> Seq<char> {
    s.take(first_identifier_len(s) as int)
}

pub open spec fn is_numeric(s: Seq<char>) -> bool {
    forall|i: int| 0 <= i < s.len() ==> is_digit(#[trigger] s[i])
}

/// Whether `a` comes after `b` when they are sorted as text.
pub open spec fn sorts_after(a: Seq<char>, b: Seq<char>) -> bool
    decreases a.len(),
{
    if a.len() == 0 {
        false
    } else if b.len() == 0 {
        true
    } else if a[0] != b[0] {
        a[0] > b[0]
    } else {
        sorts_after(a.drop_first(), b.drop_first())
    }
}

/// Whether the pre-release `pre` is `preview.9` or comes after it in the order of SemVer.
pub open spec fn is_from_preview_nine(pre: Seq<char>) -> bool {
    let first = first_identifier(pre);
    if first == "preview"@ {
        let second = first_identifier(pre.skip(first.len() as int + 1));
        pre.len() > first.len() && (is_numeric(second) ==> second.len() > 1 || second == seq!['9'])
    } else {
        !is_numeric(first) && sorts_after(first, "preview"@)
    }
}

impl Version {
    /// The version in SemVer notation.
    pub fn to_string(&self) -> (r: String)
        ensures
            r@ == self@.text(),
    {
        proof {
            reveal_strlit(".");
            reveal_strlit("-");
            reveal_strlit("+");
            assert("."@ =~= seq!['.']);
            assert("-"@ =~= seq!['-']);
            assert("+"@ =~= seq!['+']);
        }
        let mut out = String::new();
        push_decimal(&mut out, self.major);
        out.append(".");
        push_decimal(&mut out, self.minor);
        out.append(".");
        push_decimal(&mut out, self.patch);
        assert(out@ =~= crate::text::decimal(self.major as nat) + seq!['.'] + crate::text::decimal(
            self.minor as nat,
        ) + seq!['.'] + crate::text::decimal(self.patch as nat));
        if !self.pre.as_str().is_empty() {
            out.append("-");
            out.append(self.pre.as_str());
        }
        if !self.build.as_str().is_empty() {
            out.append("+");
            out.append(self.build.as_str());
        }
        out
    }
}

/// The version of Federation that a supergraph is composed with: the latest of a major line, or
/// an exact one.
#[derive(Debug, PartialEq, Eq)]
pub enum FederationVersion {
    LatestFedOne,
    LatestFedTwo,
    ExactFedOne(Version),
    ExactFedTwo(Version),
}

/// What a [`FederationVersion`] holds.
pub enum FederationVersionView {
    LatestFedOne,
    LatestFedTwo,
    ExactFedOne(VersionView),
    ExactFedTwo(VersionView),
}

impl View for FederationVersion {
    type V = FederationVersionView;

    open spec fn view(&self) -> FederationVersionView {
        match self {
            FederationVersion::LatestFedOne => FederationVersionView::LatestFedOne,
            FederationVersion::LatestFedTwo => FederationVersionView::LatestFedTwo,
            FederationVersion::ExactFedOne(v) => FederationVersionView::ExactFedOne(v@),
            FederationVersion::ExactFedTwo(v) => FederationVersionView::ExactFedTwo(v@),
        }
    }
}

impl Clone for FederationVersion {
    fn clone(&self) -> (r: Self)
        ensures
            r == *self,
    {
        match self {
            FederationVersion::LatestFedOne => FederationVersion::LatestFedOne,
            FederationVersion::LatestFedTwo => FederationVersion::LatestFedTwo,
            FederationVersion::ExactFedOne(v) => FederationVersion::ExactFedOne(v.clone()),
            FederationVersion::ExactFedTwo(v) => FederationVersion::ExactFedTwo(v.clone()),
        }
    }
}

impl FederationVersionView {
    /// The exact version, if this is one.
    pub open spec fn exact(self) -> Option<VersionView> {
        match self {
            FederationVersionView::ExactFedOne(v) => Some(v),
            FederationVersionView::ExactFedTwo(v) => Some(v),
            _ => None,
        }
    }

    /// Whether this is a version of Federation 2.
    pub open spec fn is_fed_two(self) -> bool {
        self is LatestFedTwo || self is ExactFedTwo
    }

    /// The latest version of the same major line.
    pub open spec fn latest(self) -> FederationVersionView {
        if self.is_fed_two() {
            FederationVersionView::LatestFedTwo
        } else {
            FederationVersionView::LatestFedOne
        }
    }

    /// The version as a configuration file writes it.
    pub open spec fn text(self) -> Seq<char> {
        match self {
            FederationVersionView::LatestFedOne => seq!['0'],
            FederationVersionView::LatestFedTwo => seq!['2'],
            FederationVersionView::ExactFedOne(v) => seq!['='] + v.text(),
            FederationVersionView::ExactFedTwo(v) => seq!['='] + v.text(),
        }
    }

    /// The version as the name of a release archive writes it.
    pub open spec fn tarball(self) -> Seq<char> {
        match self {
            FederationVersionView::LatestFedOne => "latest-0"@,
            FederationVersionView::LatestFedTwo => "latest-2"@,
            FederationVersionView::ExactFedOne(v) => seq!['v'] + v.text(),
            FederationVersionView::ExactFedTwo(v) => seq!['v'] + v.text(),
        }
    }
}

/// The Federation version that an exact version is: up to 1 in the first line, 2 in the second.
pub open spec fn federation_of(v: VersionView) -> Option<FederationVersionView> {
    if v.major <= 1 {
        Some(FederationVersionView::ExactFedOne(v))
    } else if v.major == 2 {
        Some(FederationVersionView::ExactFedTwo(v))
    } else {
        None
    }
}

/// Whether a user can ask for exactly this version: from 0.36.0 on in the first line, from the
/// ninth preview of 2.0.0 on in the second.
pub open spec fn is_offered(v: VersionView) -> bool {
    ||| v.major == 0 && v.minor >= 36
    ||| v.major == 2 && (v.minor > 0 || v.patch > 0 || v.pre.len() == 0 || is_from_preview_nine(
        v.pre,
    ))
}

/// The Federation version that a user asks for by the SemVer notation of an exact version.
pub open spec fn requested_version(text: Seq<char>) -> Option<FederationVersionView> {
    match version_denoted(text) {
        Some(v) if is_offered(v) => federation_of(v),
        _ => None,
    }
}

impl FederationVersion {
    /// The exact version, if this is one.
    pub fn get_exact(&self) -> (r: Option<&Version>)
        ensures
            match r {
                Some(v) => self@.exact() == Some(v@),
                None => self@.exact() is None,
            },
    {
        match self {
            FederationVersion::ExactFedOne(v) => Some(v),
            FederationVersion::ExactFedTwo(v) => Some(v),
            _ => None,
        }
    }

    /// Whether this is a version of Federation 2.
    pub fn is_fed_two(&self) -> (r: bool)
        ensures
            r == self@.is_fed_two(),
    {
        match self {
            FederationVersion::LatestFedTwo => true,
            FederationVersion::ExactFedTwo(_) => true,
            _ => false,
        }
    }

    /// The major version that stands for the line: 0 for Federation 1, 2 for Federation 2.
    pub fn get_major_version(&self) -> (r: u64)
        ensures
            r == if self@.is_fed_two() {
                2u64
            } else {
                0u64
            },
    {
        match self {
            FederationVersion::LatestFedOne => 0,
            FederationVersion::ExactFedOne(_) => 0,
            FederationVersion::LatestFedTwo => 2,
            FederationVersion::ExactFedTwo(_) => 2,
        }
    }

    /// The version as the name of a release archive writes it.
    pub fn get_tarball_version(&self) -> (r: String)
        ensures
            r@ == self@.tarball(),
    {
        match self {
            FederationVersion::LatestFedOne => "latest-0".to_owned(),
            FederationVersion::LatestFedTwo => "latest-2".to_owned(),
            FederationVersion::ExactFedOne(v) => {
                proof {
                    reveal_strlit("v");
                    assert("v"@ =~= seq!['v']);
                }
                crate::text::concat2("v", v.to_string().as_str())
            },
            FederationVersion::ExactFedTwo(v) => {
                proof {
                    reveal_strlit("v");
                    assert("v"@ =~= seq!['v']);
                }
                crate::text::concat2("v", v.to_string().as_str())
            },
        }
    }

    /// The version as a configuration file writes it.
    pub fn to_string(&self) -> (r: String)
        ensures
            r@ == self@.text(),
    {
        proof {
            reveal_strlit("0");
            reveal_strlit("2");
            reveal_strlit("=");
            assert("0"@ =~= seq!['0']);
            assert("2"@ =~= seq!['2']);
            assert("="@ =~= seq!['=']);
        }
        match self {
            FederationVersion::LatestFedOne => "0".to_owned(),
            FederationVersion::LatestFedTwo => "2".to_owned(),
            FederationVersion::ExactFedOne(v) => crate::text::concat2("=", v.to_string().as_str()),
            FederationVersion::ExactFedTwo(v) => crate::text::concat2("=", v.to_string().as_str()),
        }
    }
}

} // verus!
