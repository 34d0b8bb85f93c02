use vstd::prelude::*;
use crate::error::UpdateError;

verus! {

/// A semantic version: three numbers and an optional pre-release tag. A
/// version without a pre-release tag holds the empty string there. Build
/// metadata plays no part in precedence and is not kept.
#[derive(Clone, Debug)]
pub struct Version {
    pub major: u64,
    pub minor: u64,
    pub patch: u64,
    pub pre: String,
}

/// The mathematical content of a [`Version`].
pub ghost struct VersionView {
    pub major: u64,
    pub minor: u64,
    pub patch: u64,
    pub pre: Seq<char>,
}

impl View for Version {
    type V = VersionView;

    open spec fn view(&self) -> VersionView {
        VersionView { major: self.major, minor: self.minor, patch: self.patch, pre: self.pre@ }
    }
}

/// How one pre-release tag ranks against another.
#[derive(Clone, Copy, Debug, PartialEq, Eq, Structural)]
pub enum Precedence {
    Lower,
    Same,
    Higher,
}

/// The error of `semver`'s parsers. It is carried through unread: nothing
/// is claimed of what it holds.
#[verifier::external_type_specification]
#[verifier::external_body]
pub struct ExSemverError(semver::Error);

/// What `semver::Version::parse` makes of `text`: the version's numbers and
/// pre-release tag, or nothing where `text` is not a semantic version.
pub uninterp spec fn semver_parse(text: Seq<char>) -> Option<VersionView>;

/// How `semver::Prerelease` orders the tag `a` against the tag `b`, or nothing
/// where one of them is not a pre-release tag.
pub uninterp spec fn prerelease_order(a: Seq<char>, b: Seq<char>) -> Option<Precedence>;

/// Calls `semver::Version::parse` and copies the numbers and the pre-release
/// tag out of what it returns. Trusted: the result is the named outcome of
/// the parse, and a failure is handed on as the parser's own error.
#[verifier::external_body]
fn parse_semver(text: &str) -> (r: Result<Version, semver::Error>)
    ensures
        match r {
            Ok(v) => semver_parse(text@) == Some(v@),
            Err(_) => semver_parse(text@) is None,
        },
{
    match semver::Version::parse(text) {
        Ok(v) => Ok(
            Version { major: v.major, minor: v.minor, patch: v.patch, pre: v.pre.as_str().to_owned() },
        ),
        Err(e) => Err(e),
    }
}

/// Builds two `semver::Prerelease` tags with `semver::Prerelease::new` and
/// compares them with that type's `cmp`. Trusted: the result is the named
/// order; of two well-formed tags, equal ones rank the same, and the empty
/// tag, which marks a real release, ranks above every other.
#[verifier::external_body]
fn compare_prerelease(a: &str, b: &str) -> (r: Option<Precedence>)
    ensures
        r == prerelease_order(a@, b@),
        r is Some && a@ == b@ ==> r == Some(Precedence::Same),
        r is Some && a@.len() == 0 && b@.len() > 0 ==> r == Some(Precedence::Higher),
        r is Some && a@.len() > 0 && b@.len() == 0 ==> r == Some(Precedence::Lower),
{
    match (semver::Prerelease::new(a), semver::Prerelease::new(b)) {
        (Ok(x), Ok(y)) => Some(
            match x.cmp(&y) {
                std::cmp::Ordering::Less => Precedence::Lower,
                std::cmp::Ordering::Equal => Precedence::Same,
                std::cmp::Ordering::Greater => Precedence::Higher,
            },
        ),
        _ => None,
    }
}

/// `a` and `b` agree in major, minor and patch number.
pub open spec fn same_numbers(a: VersionView, b: VersionView) -> bool {
    a.major == b.major && a.minor == b.minor && a.patch == b.patch
}

/// `a` is above `b` by its numbers alone: major first, then minor, then
/// patch.
pub open spec fn numbers_above(a: VersionView, b: VersionView) -> bool {
    a.major > b.major || (a.major == b.major && (a.minor > b.minor || (a.minor == b.minor
        && a.patch > b.patch)))
}

/// `a` has strictly higher precedence than `b`, where `tags` says how the
/// pre-release tag of `a` ranks against that of `b`. The numbers decide
/// first; the tags decide between versions with the same numbers.
pub open spec fn outranks(a: VersionView, b: VersionView, tags: Option<Precedence>) -> bool {
    numbers_above(a, b) || (same_numbers(a, b) && tags == Some(Precedence::Higher))
}

/// `a` is strictly newer than `b` under semantic-version precedence.
pub open spec fn newer(a: VersionView, b: VersionView) -> bool {
    outranks(a, b, prerelease_order(a.pre, b.pre))
}

/// A release is eligible when it is strictly newer than the running version
/// and is either a regular release or pre-releases are enabled.
pub open spec fn eligible(
    candidate: VersionView,
    running: VersionView,
    is_prerelease: bool,
    include_prerelease: bool,
) -> bool {
    newer(candidate, running) && (include_prerelease || !is_prerelease)
}

impl Version {
    /// Parses a semantic version, `major.minor.patch` with an optional
    /// pre-release tag.
    pub fn parse(text: &str) -> (r: Result<Version, UpdateError>)
        ensures
            match r {
                Ok(v) => semver_parse(text@) == Some(v@),
                Err(e) => e == UpdateError::VersionFormat && semver_parse(text@) is None,
            },
    {
        match parse_semver(text) {
            Ok(v) => Ok(v),
            Err(_) => Err(UpdateError::VersionFormat),
        }
    }

    /// Whether this version has strictly higher precedence than `other`,
    /// given how this version's pre-release tag ranks against the other's.
    pub fn outranks_given(&self, other: &Version, tags: Option<Precedence>) -> (r: bool)
        ensures
            r == outranks(self@, other@, tags),
    {
        if self.major != other.major {
            self.major > other.major
        } else if self.minor != other.minor {
            self.minor > other.minor
        } else if self.patch != other.patch {
            self.patch > other.patch
        } else {
            match tags {
                Some(Precedence::Higher) => true,
                _ => false,
            }
        }
    }

    /// Whether this version is strictly newer than `other`.
    ///
    /// Of two versions with the same numbers and well-formed tags, the one
    /// without a pre-release tag is the newer, and neither of two with the
    /// same tag is.
    pub fn is_newer_than(&self, other: &Version) -> (r: bool)
        ensures
            r == newer(self@, other@),
            numbers_above(self@, other@) ==> r,
            numbers_above(other@, self@) ==> !r,
            same_numbers(self@, other@) && self.pre@ == other.pre@ ==> !r,
            same_numbers(self@, other@) && prerelease_order(self.pre@, other.pre@) is Some
                && self.pre@.len() == 0 && other.pre@.len() > 0 ==> r,
            same_numbers(self@, other@) && self.pre@.len() > 0 && other.pre@.len() == 0 ==> !r,
    {
        let tags = compare_prerelease(self.pre.as_str(), other.pre.as_str());
        self.outranks_given(other, tags)
    }

    /// Whether a release with this version may be installed over `running`.
    pub fn is_eligible_over(
        &self,
        running: &Version,
        is_prerelease: bool,
        include_prerelease: bool,
    ) -> (r: bool)
        ensures
            r == eligible(self@, running@, is_prerelease, include_prerelease),
    {
        self.is_newer_than(running) && (include_prerelease || !is_prerelease)
    }
}

/// Eligibility follows the version order wherever the pre-release filter
/// lets the release through.
pub proof fn law_eligibility_follows_order(
    candidate: VersionView,
    running: VersionView,
    is_prerelease: bool,
    include_prerelease: bool,
)
    requires
        include_prerelease || !is_prerelease,
    ensures
        eligible(candidate, running, is_prerelease, include_prerelease) == newer(
            candidate,
            running,
        ),
{
}

/// A pre-release is never eligible while pre-releases are disabled, however
/// its version compares; once they are enabled it is eligible exactly when
/// it is newer.
pub proof fn law_prerelease_filter(candidate: VersionView, running: VersionView)
    ensures
        !eligible(candidate, running, true, false),
        eligible(candidate, running, true, true) == newer(candidate, running),
{
}

/// The numbers decide before the tags do, and the order they give is strict:
/// of two versions at most one outranks the other by its numbers.
pub proof fn law_numbers_decide(a: VersionView, b: VersionView)
    ensures
        numbers_above(a, b) ==> newer(a, b) && !newer(b, a),
        !(numbers_above(a, b) && numbers_above(b, a)),
        numbers_above(a, b) || numbers_above(b, a) || same_numbers(a, b),
{
}

} // verus!
