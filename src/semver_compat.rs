//! Conversion of a [`Version`] into a `semver::Version`.

use vstd::prelude::*;
use crate::number::all_digits;
use crate::split::{fields, opt_view};
use crate::version::Version;
use semver::{BuildMetadata, Error as SemverError, Prerelease, Version as SemverVersion};

verus! {

#[verifier::external_type_specification]
pub struct ExSemverVersion(SemverVersion);

#[verifier::external_type_specification]
#[verifier::external_body]
pub struct ExPrerelease(Prerelease);

#[verifier::external_type_specification]
#[verifier::external_body]
pub struct ExBuildMetadata(BuildMetadata);

#[verifier::external_type_specification]
#[verifier::external_body]
pub struct ExSemverError(SemverError);

/// A character allowed in a semver identifier: an ASCII letter or digit, or `-`.
pub open spec fn is_identifier_char(c: char) -> bool {
    ('A' <= c && c <= 'Z') || ('a' <= c && c <= 'z') || ('0' <= c && c <= '9') || c == '-'
}

/// A non-empty run of identifier characters.
pub open spec fn is_identifier_segment(f: Seq<char>) -> bool {
    f.len() > 0 && forall|i: int| 0 <= i < f.len() ==> is_identifier_char(#[trigger] f[i])
}

/// An all-digit segment of more than one character that starts with `0`.
pub open spec fn has_leading_zero(f: Seq<char>) -> bool {
    f.len() > 1 && all_digits(f) && f[0] == '0'
}

/// A valid semver pre-release: empty, or `.`-separated identifier segments
/// none of which is a number with a leading zero.
pub open spec fn prerelease_accepts(s: Seq<char>) -> bool {
    s.len() == 0 || forall|i: int|
        0 <= i < fields(s, '.').len() ==> is_identifier_segment(#[trigger] fields(s, '.')[i])
            && !has_leading_zero(fields(s, '.')[i])
}

/// A valid semver build metadata: empty, or `.`-separated identifier segments.
pub open spec fn build_metadata_accepts(s: Seq<char>) -> bool {
    s.len() == 0 || forall|i: int|
        0 <= i < fields(s, '.').len() ==> is_identifier_segment(#[trigger] fields(s, '.')[i])
}

/// Relies on `semver::Prerelease::new`: it accepts exactly the empty text and
/// `.`-separated non-empty segments of ASCII letters, digits and `-`, where
/// an all-digit segment of more than one character does not start with `0`.
#[verifier::external_body]
fn parse_prerelease(text: &str) -> (r: Result<Prerelease, SemverError>)
    ensures
        r is Ok <==> prerelease_accepts(text@),
{
    Prerelease::new(text)
}

/// Relies on `semver::BuildMetadata::new`: it accepts exactly the empty text
/// and `.`-separated non-empty segments of ASCII letters, digits and `-`.
#[verifier::external_body]
fn parse_build_metadata(text: &str) -> (r: Result<BuildMetadata, SemverError>)
    ensures
        r is Ok <==> build_metadata_accepts(text@),
{
    BuildMetadata::new(text)
}

/// A `semver::Version` from its public fields.
fn assemble(
    major: u64,
    minor: u64,
    patch: u64,
    pre: Prerelease,
    build: BuildMetadata,
) -> (r: SemverVersion)
    ensures
        r.major == major,
        r.minor == minor,
        r.patch == patch,
        r.pre == pre,
        r.build == build,
{
    SemverVersion { major, minor, patch, pre, build }
}

/// The text of an optional field, empty when absent.
pub open spec fn or_empty(o: Option<Seq<char>>) -> Seq<char> {
    match o {
        Some(t) => t,
        None => Seq::empty(),
    }
}

impl<'a> Version<'a> {
    /// The same version as a `semver::Version`; fails where semver rejects
    /// the pre-release or the build metadata (an absent one counts as empty).
    pub fn to_semver(&self) -> (r: Result<SemverVersion, SemverError>)
        ensures
            r is Ok <==> prerelease_accepts(or_empty(opt_view(self.pre_release)))
                && build_metadata_accepts(or_empty(opt_view(self.build_metadata))),
            self.pre_release is None && self.build_metadata is None ==> r is Ok,
            r matches Ok(v) ==> v.major == self.major as u64 && v.minor == self.minor as u64
                && v.patch == self.patch as u64,
    {
        proof {
            reveal_strlit("");
        }
        let pre_text: &str = match self.pre_release {
            Some(t) => t,
            None => "",
        };
        let build_text: &str = match self.build_metadata {
            Some(t) => t,
            None => "",
        };
        assert(pre_text@ =~= or_empty(opt_view(self.pre_release)));
        assert(build_text@ =~= or_empty(opt_view(self.build_metadata)));
        let pre = match parse_prerelease(pre_text) {
            Ok(p) => p,
            Err(e) => return Err(e),
        };
        let build = match parse_build_metadata(build_text) {
            Ok(b) => b,
            Err(e) => return Err(e),
        };
        Ok(assemble(self.major as u64, self.minor as u64, self.patch as u64, pre, build))
    }
}

} // verus!
