//! Semantic versions, parsed and compared by the `semver` crate. The items
//! here are trusted: the doc comments say what is claimed of `semver`.
use vstd::prelude::*;

verus! {

#[verifier::external_type_specification]
#[verifier::external_body]
pub struct ExVersion(semver::Version);

/// Whether `semver::Version::from_str` accepts the text.
pub uninterp spec fn semver_accepts(text: Seq<char>) -> bool;

/// Whether the version parsed from `left` is greater than the one parsed
/// from `right` (`semver::Version`'s `>`).
pub uninterp spec fn semver_newer(left: Seq<char>, right: Seq<char>) -> bool;

/// Whether the version parsed from `left` equals the one parsed from `right`
/// (`semver::Version`'s `==`).
pub uninterp spec fn semver_same(left: Seq<char>, right: Seq<char>) -> bool;

/// A version together with the text it was parsed from. Only
/// `parse_version` makes one, so `version` is always the parse of `text`.
pub struct ParsedVersion {
    text: String,
    version: semver::Version,
}

impl ParsedVersion {
    pub closed spec fn text(&self) -> Seq<char> {
        self.text@
    }
}

/// `semver::Version::from_str` (through `str::parse`): whether the text is a
/// version is named, not spelled out; a version is kept with its text.
#[verifier::external_body]
pub fn parse_version(text: &str) -> (r: Option<ParsedVersion>)
    ensures
        r is Some <==> semver_accepts(text@),
        r matches Some(p) ==> p.text() == text@,
{
    match text.parse::<semver::Version>() {
        Ok(version) => Some(ParsedVersion { text: text.to_string(), version }),
        Err(_) => None,
    }
}

/// `>` on `semver::Version` (a derived order): named, not spelled out; a
/// version parsed twice from one text is not greater than itself.
#[verifier::external_body]
pub fn version_newer(a: &ParsedVersion, b: &ParsedVersion) -> (r: bool)
    ensures
        r == semver_newer(a.text(), b.text()),
        a.text() == b.text() ==> !r,
{
    a.version > b.version
}

/// `==` on `semver::Version` (a derived equality): named, not spelled out; a
/// version parsed twice from one text equals itself.
#[verifier::external_body]
pub fn version_same(a: &ParsedVersion, b: &ParsedVersion) -> (r: bool)
    ensures
        r == semver_same(a.text(), b.text()),
        a.text() == b.text() ==> r,
{
    a.version == b.version
}

} // verus!
