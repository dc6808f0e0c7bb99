use const_pkg_version::emit::{
    option_str, string_literal, surround_braces, surround_parens, u32_suffixed, u32_unsuffixed,
    StructBuilder,
};
use const_pkg_version::number::{decimal_text, parse_u32};
use const_pkg_version::split::{split_exact, split_once_optional};
use const_pkg_version::version::{Field, PkgVersion, Version, VersionError};

fn parts(s: &str) -> (u32, u32, u32, Option<&str>, Option<&str>) {
    let v = PkgVersion::from_str(s).unwrap();
    (v.major, v.minor, v.patch, v.pre_release, v.build_metadata)
}

fn error_of(s: &str) -> VersionError {
    match PkgVersion::from_str(s) {
        Ok(_) => panic!("accepted {s:?}"),
        Err(e) => e,
    }
}

#[test]
fn plain_versions_round_trip() {
    for (a, b, c) in [(0u32, 0u32, 0u32), (1, 2, 3), (4294967295, 10, 99), (7, 4294967295, 0)] {
        let s = format!("{a}.{b}.{c}");
        assert_eq!(parts(&s), (a, b, c, None, None));
    }
}

#[test]
fn pre_release_and_build_metadata() {
    assert_eq!(parts("1.2.3-alpha.1+build.5"), (1, 2, 3, Some("alpha.1"), Some("build.5")));
}

#[test]
fn build_metadata_only() {
    assert_eq!(parts("1.2.3+onlybuild"), (1, 2, 3, None, Some("onlybuild")));
}

#[test]
fn build_metadata_is_split_off_first() {
    assert_eq!(parts("1.2.3+a-b"), (1, 2, 3, None, Some("a-b")));
    assert_eq!(parts("1.2.3-x-y+p+q"), (1, 2, 3, Some("x-y"), Some("p+q")));
}

#[test]
fn leading_zeros_are_allowed() {
    assert_eq!(parts("007.01.0010"), (7, 1, 10, None, None));
}

#[test]
fn wrong_field_count_is_format_error() {
    assert_eq!(error_of("1.2"), VersionError::Format);
    assert_eq!(error_of("1.2.3.4"), VersionError::Format);
    assert_eq!(error_of(""), VersionError::Format);
    assert_eq!(error_of("1..3"), VersionError::Number(Field::Minor));
    assert_eq!(error_of("1.2.3.-pre"), VersionError::Format);
}

#[test]
fn bad_number_names_field() {
    assert_eq!(error_of("1.2.abc"), VersionError::Number(Field::Patch));
    assert_eq!(error_of("x.2.3"), VersionError::Number(Field::Major));
    assert_eq!(error_of("1.4294967296.3"), VersionError::Number(Field::Minor));
    assert_eq!(error_of("1.2. 3"), VersionError::Number(Field::Patch));
}

#[test]
fn error_messages() {
    assert_eq!(VersionError::Format.message(), "invalid version: expected MAJOR.MINOR.PATCH");
    assert_eq!(VersionError::Number(Field::Major).message(), "invalid major version number");
    assert_eq!(VersionError::Number(Field::Minor).message(), "invalid minor version number");
    assert_eq!(VersionError::Number(Field::Patch).message(), "invalid patch version number");
}

#[test]
fn split_once_at_first_delimiter() {
    assert_eq!(split_once_optional("a+b+c", '+'), ("a", Some("b+c")));
    assert_eq!(split_once_optional("abc", '+'), ("abc", None));
    assert_eq!(split_once_optional("+", '+'), ("", Some("")));
    assert_eq!(split_once_optional("ä+ö", '+'), ("ä", Some("ö")));
}

#[test]
fn split_exact_counts_fields() {
    assert_eq!(split_exact("a.b.c", '.', 3), Some(vec!["a", "b", "c"]));
    assert_eq!(split_exact("a.b", '.', 3), None);
    assert_eq!(split_exact("a.b.c.d", '.', 3), None);
    assert_eq!(split_exact("", '.', 1), Some(vec![""]));
    assert_eq!(split_exact("a", '.', 0), None);
}

#[test]
fn decimal_numbers() {
    assert_eq!(parse_u32("0"), Some(0));
    assert_eq!(parse_u32("4294967295"), Some(u32::MAX));
    assert_eq!(parse_u32("4294967296"), None);
    assert_eq!(parse_u32(""), None);
    assert_eq!(parse_u32("+1"), None);
    assert_eq!(decimal_text(0), "0");
    assert_eq!(decimal_text(4294967295), "4294967295");
    assert_eq!(decimal_text(1020), "1020");
}

#[test]
fn literal_fragments() {
    assert_eq!(u32_unsuffixed(42), "42");
    assert_eq!(u32_suffixed(42), "42u32");
    assert_eq!(string_literal("a\"b\\c\td\re\0"), "\"a\\\"b\\\\c\\td\\re\\0\"");
    assert_eq!(string_literal("plain-text"), "\"plain-text\"");
    assert_eq!(option_str(None), "::core::option::Option::None::<&::core::primitive::str>");
    assert_eq!(option_str(Some("x y")), "::core::option::Option::Some(\"x y\")");
    assert_eq!(surround_braces(String::from("1")), "{1}");
    assert_eq!(surround_parens(String::from("1")), "(1)");
}

#[test]
fn struct_builder() {
    let mut b = StructBuilder::new_crate_local("krate", "Version");
    assert_eq!(b.name, "krate::Version");
    b.field("major", "1u32");
    b.field("minor", "2u32");
    assert_eq!(b.finish(), "krate::Version {major: 1u32, minor: 2u32, }");
    let empty = StructBuilder::new(String::from("S"));
    assert_eq!(empty.finish(), "S {}");
}

#[test]
fn semver_conversion() {
    let v = Version {
        major: 1,
        minor: 2,
        patch: 3,
        pre_release: Some("alpha.1"),
        build_metadata: Some("build.5"),
    };
    let s = v.to_semver().unwrap();
    assert_eq!((s.major, s.minor, s.patch), (1, 2, 3));
    assert_eq!(s.pre.as_str(), "alpha.1");
    assert_eq!(s.build.as_str(), "build.5");

    let bare = Version { major: 4, minor: 5, patch: 6, pre_release: None, build_metadata: None };
    let s = bare.to_semver().unwrap();
    assert!(s.pre.is_empty() && s.build.is_empty());
    assert_eq!(s.to_string(), "4.5.6");

    let leading_zero = Version { pre_release: Some("01"), ..bare };
    assert!(leading_zero.to_semver().is_err());
    let bad_build = Version { build_metadata: Some("a..b"), ..bare };
    assert!(bad_build.to_semver().is_err());
}

#[test]
fn single_field_still_checks_the_core() {
    assert_eq!(PkgVersion::parse_component("1.2.3-rc+b", Field::Major), Ok(1));
    assert_eq!(PkgVersion::parse_component("1.2.3", Field::Minor), Ok(2));
    assert_eq!(PkgVersion::parse_component("1.x.3", Field::Patch), Ok(3));
    assert_eq!(PkgVersion::parse_component("1.x.3", Field::Minor), Err(VersionError::Number(Field::Minor)));
    assert_eq!(PkgVersion::parse_component("1.2", Field::Major), Err(VersionError::Format));
    assert_eq!(PkgVersion::parse_component("1.2.3.4", Field::Major), Err(VersionError::Format));
}

#[test]
fn semver_identifier_rules() {
    let base = Version { major: 1, minor: 0, patch: 0, pre_release: None, build_metadata: None };
    for ok in ["0", "rc-1.x", "alpha.0a1", "A-Z.9"] {
        assert!(Version { pre_release: Some(ok), ..base }.to_semver().is_ok(), "{ok}");
    }
    for bad in ["alpha.01", "a..b", ".a", "a.", "ä", "a+b", "a b"] {
        assert!(Version { pre_release: Some(bad), ..base }.to_semver().is_err(), "{bad}");
    }
    for ok in ["001", "build.5", "x-y.01"] {
        assert!(Version { build_metadata: Some(ok), ..base }.to_semver().is_ok(), "{ok}");
    }
    for bad in ["a..b", "b!", "."] {
        assert!(Version { build_metadata: Some(bad), ..base }.to_semver().is_err(), "{bad}");
    }
}
