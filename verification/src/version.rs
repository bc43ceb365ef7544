//! Semantic versions and version requirements.

use crate::text;
use vstd::prelude::*;

verus! {

/// What a version consists of: major, minor and patch number, pre-release
/// identifiers and build metadata (both without their leading sign).
pub type VersionParts = (u64, u64, u64, Seq<char>, Seq<char>);

/// A semantic version.
#[derive(Debug)]
pub struct Version {
    pub major: u64,
    pub minor: u64,
    pub patch: u64,
    /// The pre-release identifiers, empty for a release.
    pub pre: String,
    /// The build metadata, empty when there is none.
    pub build: String,
}

impl View for Version {
    type V = VersionParts;

    open spec fn view(&self) -> VersionParts {
        (self.major, self.minor, self.patch, self.pre@, self.build@)
    }
}

/// A version requirement, held in its canonical notation.
#[derive(Debug)]
pub struct VersionReq {
    pub text: String,
}

impl View for VersionReq {
    type V = Seq<char>;

    open spec fn view(&self) -> Seq<char> {
        self.text@
    }
}

/// The three outcomes of comparing a version with another.
#[derive(Debug, PartialEq, Eq, Clone, Copy, Structural)]
pub enum Precedence {
    Lower,
    Same,
    Higher,
}

/// The outcome with the two versions exchanged.
pub open spec fn opposite(p: Precedence) -> Precedence {
    match p {
        Precedence::Lower => Precedence::Higher,
        Precedence::Same => Precedence::Same,
        Precedence::Higher => Precedence::Lower,
    }
}

/// Whether the numbers of a version, the major one before the minor one and that
/// before the patch, are lower than those of another, or are the same while only the
/// first is a pre-release.
pub open spec fn plainly_lower(a: VersionParts, b: VersionParts) -> bool {
    if a.0 != b.0 {
        a.0 < b.0
    } else if a.1 != b.1 {
        a.1 < b.1
    } else if a.2 != b.2 {
        a.2 < b.2
    } else {
        a.3.len() > 0 && b.3.len() == 0
    }
}

pub open spec fn is_digit(c: char) -> bool {
    '0' <= c && c <= '9'
}

pub open spec fn is_identifier_char(c: char) -> bool {
    is_digit(c) || ('A' <= c && c <= 'Z') || ('a' <= c && c <= 'z') || c == '-'
}

/// One dot-separated identifier. Numbers in a pre-release have no leading zeros.
pub open spec fn valid_identifier(s: Seq<char>, pre_release: bool) -> bool {
    &&& s.len() > 0
    &&& forall|i: int| 0 <= i < s.len() ==> is_identifier_char(#[trigger] s[i])
    &&& pre_release && s.len() > 1 && s[0] == '0' ==> exists|i: int|
        0 <= i < s.len() && !is_digit(#[trigger] s[i])
}

/// A series of dot-separated identifiers.
pub open spec fn valid_series(s: Seq<char>, pre_release: bool) -> bool
    decreases s.len(),
{
    match text::cut(s, '.') {
        None => valid_identifier(s, pre_release),
        Some((head, rest)) => valid_identifier(head, pre_release) && valid_series(
            rest,
            pre_release,
        ),
    }
}

/// Whether the pre-release and the build metadata keep to the grammar of
/// semantic versions.
pub open spec fn valid_version(v: VersionParts) -> bool {
    &&& v.3.len() == 0 || valid_series(v.3, true)
    &&& v.4.len() == 0 || valid_series(v.4, false)
}

/// `v` in the usual notation, such as `1.2.3-rc.1+build`.
pub open spec fn version_text(v: VersionParts) -> Seq<char> {
    text::decimal(v.0 as nat) + "."@ + text::decimal(v.1 as nat) + "."@ + text::decimal(v.2 as nat)
        + (if v.3.len() == 0 {
        Seq::empty()
    } else {
        "-"@ + v.3
    }) + (if v.4.len() == 0 {
        Seq::empty()
    } else {
        "+"@ + v.4
    })
}

/// `v` with its build metadata taken away.
pub open spec fn without_build(v: VersionParts) -> VersionParts {
    (v.0, v.1, v.2, v.3, Seq::empty())
}

/// What `semver::Version::parse` makes of a text: the version's parts, or the
/// error's message.
pub uninterp spec fn parsed_version(text: Seq<char>) -> Result<VersionParts, Seq<char>>;

/// What `semver::VersionReq::parse` makes of a text: the requirement in
/// canonical notation, or the error's message.
pub uninterp spec fn parsed_requirement(text: Seq<char>) -> Result<Seq<char>, Seq<char>>;

/// How `semver` orders one version against another.
pub uninterp spec fn precedence(a: VersionParts, b: VersionParts) -> Precedence;

/// Calls `semver::Version::parse`. Its result depends on the text alone; a
/// version that it returns keeps to the grammar, and the notation of a version
/// is read back as that version.
#[verifier::external_body]
pub(crate) fn parse_version(text: &str) -> (r: Result<Version, String>)
    ensures
        match r {
            Ok(v) => parsed_version(text@) == Ok::<VersionParts, Seq<char>>(v@) && valid_version(v@),
            Err(e) => parsed_version(text@) == Err::<VersionParts, Seq<char>>(e@),
        },
        forall|v: VersionParts|
            #![trigger version_text(v)]
            valid_version(v) && text@ == version_text(v) ==> r is Ok && r->Ok_0@ == v,
{
    match semver::Version::parse(text) {
        Ok(v) => Ok(
            Version {
                major: v.major,
                minor: v.minor,
                patch: v.patch,
                pre: v.pre.as_str().to_owned(),
                build: v.build.as_str().to_owned(),
            },
        ),
        Err(e) => Err(e.to_string()),
    }
}

/// Calls `semver::VersionReq::parse`, and writes the requirement in its
/// canonical notation. The result depends on the text alone. The text `=`
/// followed by the notation of a version is always a requirement.
#[verifier::external_body]
pub(crate) fn parse_requirement(text: &str) -> (r: Result<VersionReq, String>)
    ensures
        match r {
            Ok(q) => parsed_requirement(text@) == Ok::<Seq<char>, Seq<char>>(q@),
            Err(e) => parsed_requirement(text@) == Err::<Seq<char>, Seq<char>>(e@),
        },
        forall|v: VersionParts|
            #![trigger version_text(v)]
            valid_version(v) && text@ == "="@ + version_text(v) ==> r is Ok,
{
    match semver::VersionReq::parse(text) {
        Ok(q) => Ok(VersionReq { text: q.to_string() }),
        Err(e) => Err(e.to_string()),
    }
}

/// Calls `Ord::cmp` of `semver::Version`. The result depends on the two
/// versions alone, is `Same` for equal versions and for no others, and turns
/// round when the versions are exchanged. A version that is lower than another
/// is lower than all that the other is lower than. The numbers decide, from the
/// major one to the patch, and where they are the same, a pre-release is lower than
/// the release. How two pre-releases are ordered, or two versions that differ only in
/// their build metadata, is not spelled out.
#[verifier::external_body]
pub(crate) fn order_versions(a: &Version, b: &Version) -> (r: Precedence)
    requires
        valid_version(a@),
        valid_version(b@),
    ensures
        r == precedence(a@, b@),
        (r == Precedence::Same) == (a@ == b@),
        precedence(b@, a@) == opposite(r),
        plainly_lower(a@, b@) ==> r == Precedence::Lower,
        plainly_lower(b@, a@) ==> r == Precedence::Higher,
        r == Precedence::Lower ==> forall|c: VersionParts|
            valid_version(c) && #[trigger] precedence(b@, c) == Precedence::Lower ==> precedence(
                a@,
                c,
            ) == Precedence::Lower,
{
    let pre = |v: &Version| semver::Prerelease::new(v.pre.as_str()).unwrap();
    let build = |v: &Version| semver::BuildMetadata::new(v.build.as_str()).unwrap();
    let whole = |v: &Version| semver::Version {
        major: v.major,
        minor: v.minor,
        patch: v.patch,
        pre: pre(v),
        build: build(v),
    };
    match whole(a).cmp(&whole(b)) {
        std::cmp::Ordering::Less => Precedence::Lower,
        std::cmp::Ordering::Equal => Precedence::Same,
        std::cmp::Ordering::Greater => Precedence::Higher,
    }
}

impl Version {
    /// A copy of the version.
    pub fn copy(&self) -> (r: Version)
        ensures
            r@ == self@,
    {
        Version {
            major: self.major,
            minor: self.minor,
            patch: self.patch,
            pre: self.pre.clone(),
            build: self.build.clone(),
        }
    }

    /// The version in the usual notation.
    pub fn to_text(&self) -> (r: String)
        ensures
            r@ == version_text(self@),
    {
        let mut r = text::decimal_text(self.major);
        r.append(".");
        r.append(text::decimal_text(self.minor).as_str());
        r.append(".");
        r.append(text::decimal_text(self.patch).as_str());
        let ghost numbers = r@;
        if !self.pre.as_str().is_empty() {
            r.append("-");
            r.append(self.pre.as_str());
        }
        let ghost released = r@;
        if !self.build.as_str().is_empty() {
            r.append("+");
            r.append(self.build.as_str());
        }
        assert(released =~= numbers + (if self.pre@.len() == 0 {
            Seq::empty()
        } else {
            "-"@ + self.pre@
        }));
        assert(r@ =~= released + (if self.build@.len() == 0 {
            Seq::empty()
        } else {
            "+"@ + self.build@
        }));
        r
    }

    /// Whether two versions agree in every part.
    pub fn same(&self, other: &Version) -> (r: bool)
        ensures
            r == (self@ == other@),
    {
        self.major == other.major && self.minor == other.minor && self.patch == other.patch
            && self.pre == other.pre && self.build == other.build
    }
}

/// The version without its build metadata.
pub fn no_build_metadata(version: &Version) -> (r: Version)
    ensures
        r@ == without_build(version@),
        valid_version(version@) ==> valid_version(r@),
{
    Version {
        major: version.major,
        minor: version.minor,
        patch: version.patch,
        pre: version.pre.clone(),
        build: String::new(),
    }
}

impl VersionReq {
    /// The requirement that every version meets.
    pub fn star() -> (r: VersionReq)
        ensures
            r@ == "*"@,
    {
        VersionReq { text: "*".to_owned() }
    }
}

/// Reads a version, as in `1.2.3-rc.1`.
pub fn read_version(text: &str) -> (r: Result<Version, String>)
    ensures
        match r {
            Ok(v) => parsed_version(text@) == Ok::<VersionParts, Seq<char>>(v@) && valid_version(v@),
            Err(e) => parsed_version(text@) == Err::<VersionParts, Seq<char>>(e@),
        },
        forall|v: VersionParts|
            #![trigger version_text(v)]
            valid_version(v) && text@ == version_text(v) ==> r is Ok && r->Ok_0@ == v,
{
    parse_version(text)
}

/// Reads a version requirement, as in `^1.2`.
pub fn read_requirement(text: &str) -> (r: Result<VersionReq, String>)
    ensures
        match r {
            Ok(q) => parsed_requirement(text@) == Ok::<Seq<char>, Seq<char>>(q@),
            Err(e) => parsed_requirement(text@) == Err::<Seq<char>, Seq<char>>(e@),
        },
{
    parse_requirement(text)
}

/// Two versions are the same if and only if they agree in their numbers, in their
/// pre-release identifiers and in their build metadata.
pub proof fn versions_are_told_apart(a: Version, b: Version)
    ensures
        a@ == b@ <==> a.major == b.major && a.minor == b.minor && a.patch == b.patch && a.pre@
            == b.pre@ && a.build@ == b.build@,
{
}

/// The notation of a version starts with its three numbers, with dots between them. Behind
/// them come a minus sign and the pre-release identifiers, and then a plus sign and the
/// build metadata, where there are any.
pub proof fn notation_tells_every_part(v: Version)
    ensures
        ({
            let numbers = text::decimal(v.major as nat) + "."@ + text::decimal(v.minor as nat)
                + "."@ + text::decimal(v.patch as nat);
            &&& v.pre@.len() == 0 && v.build@.len() == 0 ==> version_text(v@) == numbers
            &&& v.pre@.len() > 0 && v.build@.len() == 0 ==> version_text(v@) == numbers + ("-"@
                + v.pre@)
            &&& v.pre@.len() == 0 && v.build@.len() > 0 ==> version_text(v@) == numbers + ("+"@
                + v.build@)
            &&& v.pre@.len() > 0 && v.build@.len() > 0 ==> version_text(v@) == numbers + ("-"@
                + v.pre@) + ("+"@ + v.build@)
        }),
{
}

/// Without its build metadata a version keeps its numbers and its pre-release identifiers,
/// and versions that differ in nothing else become the same.
pub proof fn only_the_build_is_taken_away(a: Version, b: Version)
    requires
        a.major == b.major,
        a.minor == b.minor,
        a.patch == b.patch,
        a.pre@ == b.pre@,
        b.build@.len() == 0,
    ensures
        without_build(a@) == b@,
{
    assert(b.build@ =~= Seq::<char>::empty());
}

} // verus!
