//! The version record and the parser of `MAJOR.MINOR.PATCH[-PRE][+BUILD]`.

use vstd::prelude::*;
use crate::number::{decimal_value, is_u32_text, parse_u32};
use crate::split::{fields, opt_view, split_exact, split_once_optional, split_once_spec};

verus! {

/// A full package version (major, minor, patch, pre-release and build-metadata).
#[derive(Copy, Clone, PartialEq, Eq, Debug)]
pub struct Version<'a> {
    /// The major version of the package.
    pub major: u32,
    /// The minor version of the package.
    pub minor: u32,
    /// The patch version of the package.
    pub patch: u32,
    /// The pre-release version of the package.
    pub pre_release: Option<&'a str>,
    /// The build metadata of the package.
    pub build_metadata: Option<&'a str>,
}

/// One of the three numeric fields of a version core.
#[derive(Copy, Clone, PartialEq, Eq, Debug)]
pub enum Field {
    Major,
    Minor,
    Patch,
}

/// Why a version string was rejected.
#[derive(Copy, Clone, PartialEq, Eq, Debug)]
pub enum VersionError {
    /// The version core is not three fields separated by `.`.
    Format,
    /// The named field is not a decimal number that fits in 32 bits.
    Number(Field),
}

/// The text left once the build metadata (after the first `+`) is removed.
pub open spec fn without_build(s: Seq<char>) -> Seq<char> {
    split_once_spec(s, '+').0
}

/// The build metadata: what follows the first `+`.
pub open spec fn build_metadata_of(s: Seq<char>) -> Option<Seq<char>> {
    split_once_spec(s, '+').1
}

/// The pre-release: what follows the first `-` once the build metadata is removed.
pub open spec fn pre_release_of(s: Seq<char>) -> Option<Seq<char>> {
    split_once_spec(without_build(s), '-').1
}

/// The version core `MAJOR.MINOR.PATCH`.
pub open spec fn core_of(s: Seq<char>) -> Seq<char> {
    split_once_spec(without_build(s), '-').0
}

/// The `.`-separated fields of the version core.
pub open spec fn core_fields(s: Seq<char>) -> Seq<Seq<char>> {
    fields(core_of(s), '.')
}

/// The version core has exactly three fields.
pub open spec fn core_shape_ok(s: Seq<char>) -> bool {
    core_fields(s).len() == 3
}

/// The first failure met when parsing `s` as a version, if any.
pub open spec fn parse_error(s: Seq<char>) -> Option<VersionError> {
    let f = core_fields(s);
    if !core_shape_ok(s) {
        Some(VersionError::Format)
    } else if !is_u32_text(f[0]) {
        Some(VersionError::Number(Field::Major))
    } else if !is_u32_text(f[1]) {
        Some(VersionError::Number(Field::Minor))
    } else if !is_u32_text(f[2]) {
        Some(VersionError::Number(Field::Patch))
    } else {
        None
    }
}

pub open spec fn field_index(f: Field) -> int {
    match f {
        Field::Major => 0,
        Field::Minor => 1,
        Field::Patch => 2,
    }
}

/// The record parsed from the text `s`.
pub open spec fn is_parse_of<'a>(v: PkgVersion<'a>, s: Seq<char>) -> bool {
    let f = core_fields(s);
    &&& v.major as nat == decimal_value(f[0])
    &&& v.minor as nat == decimal_value(f[1])
    &&& v.patch as nat == decimal_value(f[2])
    &&& opt_view(v.pre_release) == pre_release_of(s)
    &&& opt_view(v.build_metadata) == build_metadata_of(s)
}

impl VersionError {
    /// A human-readable description of the failure.
    pub fn message(&self) -> (r: &'static str)
        ensures
            r@ == error_message(*self)@,
    {
        match self {
            VersionError::Format => "invalid version: expected MAJOR.MINOR.PATCH",
            VersionError::Number(Field::Major) => "invalid major version number",
            VersionError::Number(Field::Minor) => "invalid minor version number",
            VersionError::Number(Field::Patch) => "invalid patch version number",
        }
    }
}

pub open spec fn error_message(e: VersionError) -> &'static str {
    match e {
        VersionError::Format => "invalid version: expected MAJOR.MINOR.PATCH",
        VersionError::Number(Field::Major) => "invalid major version number",
        VersionError::Number(Field::Minor) => "invalid minor version number",
        VersionError::Number(Field::Patch) => "invalid patch version number",
    }
}

/// A version decomposed from a version string, borrowing from it.
#[derive(Copy, Clone, PartialEq, Eq, Debug)]
pub struct PkgVersion<'a> {
    pub major: u32,
    pub minor: u32,
    pub patch: u32,
    pub pre_release: Option<&'a str>,
    pub build_metadata: Option<&'a str>,
}

impl<'a> PkgVersion<'a> {
    /// Parses `MAJOR.MINOR.PATCH[-PRE][+BUILD]`. The build metadata is split
    /// off at the first `+` before the pre-release is split off at the first `-`.
    pub fn from_str(input: &'a str) -> (r: Result<PkgVersion<'a>, VersionError>)
        ensures
            r is Err <==> parse_error(input@) is Some,
            r matches Err(e) ==> parse_error(input@) == Some(e),
            r matches Ok(v) ==> is_parse_of(v, input@),
    {
        let (rest, build_metadata) = split_once_optional(input, '+');
        let (rest, pre_release) = split_once_optional(rest, '-');
        let fields = match split_exact(rest, '.', 3) {
            Some(f) => f,
            None => return Err(VersionError::Format),
        };
        let major = match parse_u32(fields[0]) {
            Some(x) => x,
            None => return Err(VersionError::Number(Field::Major)),
        };
        let minor = match parse_u32(fields[1]) {
            Some(x) => x,
            None => return Err(VersionError::Number(Field::Minor)),
        };
        let patch = match parse_u32(fields[2]) {
            Some(x) => x,
            None => return Err(VersionError::Number(Field::Patch)),
        };
        Ok(PkgVersion { major, minor, patch, pre_release, build_metadata })
    }

    /// One numeric field of a version string. The whole string is still split
    /// and its core must still have three fields; only the requested
    /// field is read as a number.
    pub fn parse_component(input: &str, field: Field) -> (r: Result<u32, VersionError>)
        ensures
            !core_shape_ok(input@) ==> r == Err::<u32, VersionError>(VersionError::Format),
            core_shape_ok(input@) && !is_u32_text(core_fields(input@)[field_index(field)]) ==> r
                == Err::<u32, VersionError>(VersionError::Number(field)),
            core_shape_ok(input@) && is_u32_text(core_fields(input@)[field_index(field)]) ==> (r
                matches Ok(n) && n as nat == decimal_value(core_fields(input@)[field_index(field)])),
    {
        let (rest, _) = split_once_optional(input, '+');
        let (rest, _) = split_once_optional(rest, '-');
        let fields = match split_exact(rest, '.', 3) {
            Some(f) => f,
            None => return Err(VersionError::Format),
        };
        let text = match field {
            Field::Major => fields[0],
            Field::Minor => fields[1],
            Field::Patch => fields[2],
        };
        match parse_u32(text) {
            Some(n) => Ok(n),
            None => Err(VersionError::Number(field)),
        }
    }

    /// Whether the version core of `input` has exactly three fields.
    pub fn has_three_fields(input: &str) -> (r: bool)
        ensures
            r == core_shape_ok(input@),
    {
        let (rest, _) = split_once_optional(input, '+');
        let (rest, _) = split_once_optional(rest, '-');
        split_exact(rest, '.', 3).is_some()
    }

    /// The same values as a [`Version`].
    pub fn version(&self) -> (r: Version<'a>)
        ensures
            r.major == self.major,
            r.minor == self.minor,
            r.patch == self.patch,
            r.pre_release == self.pre_release,
            r.build_metadata == self.build_metadata,
    {
        Version {
            major: self.major,
            minor: self.minor,
            patch: self.patch,
            pre_release: self.pre_release,
            build_metadata: self.build_metadata,
        }
    }
}

} // verus!
