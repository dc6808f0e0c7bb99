use const_pkg_version::error::{Error, Span};
use const_pkg_version::input::{MacroInput, Token};
use const_pkg_version::macros::{
    build_metadata, full, get_env_str, get_env_u32, major, minor, patch, pre_release, EnvValue,
};
use const_pkg_version::version::{PkgVersion, Version};

fn crate_token() -> Vec<Token> {
    vec![Token::Ident(String::from("$crate"))]
}

fn text(s: &str) -> EnvValue {
    EnvValue::Text(String::from(s))
}

fn none_fragment() -> String {
    String::from("{::core::option::Option::None::<&::core::primitive::str>}")
}

#[test]
fn with_std_test() {
    let full_text = "42.129.316-pre-thingy+built-with-love";
    assert_eq!(major(&crate_token(), text("42"), text(full_text)), "{42}");
    assert_eq!(minor(&crate_token(), text("129"), text(full_text)), "{129}");
    assert_eq!(patch(&crate_token(), text("316"), text(full_text)), "{316}");
    assert_eq!(
        pre_release(&crate_token(), text(full_text)),
        "{::core::option::Option::Some(\"pre-thingy\")}"
    );
    assert_eq!(
        build_metadata(&crate_token(), text(full_text)),
        "{::core::option::Option::Some(\"built-with-love\")}"
    );
    let parsed = PkgVersion::from_str(full_text).unwrap();
    assert!(
        parsed.version()
            == Version {
                major: 42,
                minor: 129,
                patch: 316,
                pre_release: Some("pre-thingy"),
                build_metadata: Some("built-with-love"),
            }
    );
    assert_eq!(
        full(&crate_token(), text(full_text)),
        "{$crate::Version {major: 42u32, minor: 129u32, patch: 316u32, \
         pre_release: ::core::option::Option::Some(\"pre-thingy\"), \
         build_metadata: ::core::option::Option::Some(\"built-with-love\"), }}"
    );
}

#[test]
fn no_std_test() {
    let full_text = "1024.9.591";
    assert_eq!(major(&crate_token(), text("1024"), text(full_text)), "{1024}");
    assert_eq!(minor(&crate_token(), text("9"), text(full_text)), "{9}");
    assert_eq!(patch(&crate_token(), text("591"), text(full_text)), "{591}");
    assert_eq!(pre_release(&crate_token(), text(full_text)), none_fragment());
    assert_eq!(build_metadata(&crate_token(), text(full_text)), none_fragment());
    let parsed = PkgVersion::from_str(full_text).unwrap();
    assert!(
        parsed.version()
            == Version {
                major: 1024,
                minor: 9,
                patch: 591,
                pre_release: None,
                build_metadata: None,
            }
    );
    assert_eq!(
        full(&crate_token(), text(full_text)),
        "{$crate::Version {major: 1024u32, minor: 9u32, patch: 591u32, \
         pre_release: ::core::option::Option::None::<&::core::primitive::str>, \
         build_metadata: ::core::option::Option::None::<&::core::primitive::str>, }}"
    );
}

#[test]
fn trailing_comma_is_accepted() {
    let tokens = vec![Token::Ident(String::from("krate")), Token::Punct(',')];
    let parsed = MacroInput::parse(&tokens).ok().unwrap();
    assert_eq!(parsed.self_crate, "krate");
    assert_eq!(major(&tokens, text("3"), text("3.0.0")), "{3}");
}

fn input_error(tokens: Vec<Token>) -> (Span, String) {
    match MacroInput::parse(&tokens) {
        Ok(_) => panic!("accepted"),
        Err(e) => (e.span, e.message),
    }
}

#[test]
fn missing_argument_is_rejected() {
    assert_eq!(
        input_error(vec![]),
        (Span::CallSite, String::from("missing argument: `$crate`"))
    );
}

#[test]
fn non_identifier_first_token_is_rejected() {
    assert_eq!(
        input_error(vec![Token::Literal(String::from("1"))]),
        (Span::Token(0), String::from("expected `$crate`"))
    );
    assert_eq!(
        input_error(vec![Token::Punct(',')]),
        (Span::Token(0), String::from("expected `$crate`"))
    );
}

#[test]
fn extra_tokens_are_rejected() {
    let id = || Token::Ident(String::from("krate"));
    assert_eq!(
        input_error(vec![id(), id()]),
        (Span::Token(1), String::from("unexpected token"))
    );
    assert_eq!(
        input_error(vec![id(), Token::Punct(';')]),
        (Span::Token(1), String::from("unexpected token"))
    );
    assert_eq!(
        input_error(vec![id(), Token::Punct(','), Token::Punct(',')]),
        (Span::Token(2), String::from("unexpected punctuation"))
    );
    assert_eq!(
        input_error(vec![id(), Token::Punct(','), id()]),
        (Span::Token(2), String::from("unexpected argument"))
    );
    assert_eq!(
        input_error(vec![id(), Token::Punct(','), Token::Group(String::from("()"))]),
        (Span::Token(2), String::from("unexpected argument"))
    );
}

#[test]
fn bad_input_expands_to_compile_error() {
    assert_eq!(
        major(&vec![], text("1"), text("1.0.0")),
        "::core::compile_error!(\"missing argument: `$crate`\")"
    );
}

#[test]
fn environment_errors() {
    match get_env_str("SOME_VAR", EnvValue::NotPresent) {
        Ok(_) => panic!("accepted"),
        Err(e) => {
            assert_eq!(e.span, Span::CallSite);
            assert_eq!(e.message, "environment variable SOME_VAR not set");
        }
    }
    match get_env_str("SOME_VAR", EnvValue::NotUnicode) {
        Ok(_) => panic!("accepted"),
        Err(e) => assert_eq!(e.message, "environment variable SOME_VAR contains non UTF-8 data"),
    }
    assert_eq!(
        major(&crate_token(), EnvValue::NotPresent, text("1.0.0")),
        "::core::compile_error!(\"environment variable CARGO_PKG_VERSION_MAJOR not set\")"
    );
    assert_eq!(
        full(&crate_token(), EnvValue::NotUnicode),
        "::core::compile_error!(\"environment variable CARGO_PKG_VERSION contains non UTF-8 data\")"
    );
}

#[test]
fn env_u32_values() {
    assert_eq!(get_env_u32("V", text("0")).ok(), Some(0));
    assert_eq!(get_env_u32("V", text("007")).ok(), Some(7));
    assert_eq!(get_env_u32("V", text("4294967295")).ok(), Some(4294967295));
    for bad in ["", "+5", "-5", "4294967296", "99999999999", "1a", " 1"] {
        match get_env_u32("V", text(bad)) {
            Ok(_) => panic!("accepted {bad:?}"),
            Err(e) => assert_eq!(e.message, "environment variable V is not a valid u32"),
        }
    }
    assert_eq!(
        minor(&crate_token(), text("x"), text("1.0.0")),
        "::core::compile_error!(\"environment variable CARGO_PKG_VERSION_MINOR is not a valid u32\")"
    );
}

#[test]
fn parse_error_expands_to_compile_error() {
    assert_eq!(
        full(&crate_token(), text("1.2")),
        "::core::compile_error!(\"invalid version: expected MAJOR.MINOR.PATCH\")"
    );
    assert_eq!(
        full(&crate_token(), text("1.2.abc")),
        "::core::compile_error!(\"invalid patch version number\")"
    );
}

#[test]
fn single_components_without_segment_are_none() {
    assert_eq!(pre_release(&crate_token(), text("1.2.3")), none_fragment());
    assert_eq!(pre_release(&crate_token(), text("1.2.3+b-uild")), none_fragment());
    assert_eq!(build_metadata(&crate_token(), text("1.2.3-pre")), none_fragment());
    assert_eq!(
        pre_release(&crate_token(), text("1.2.3-rc.1+b")),
        "{::core::option::Option::Some(\"rc.1\")}"
    );
}

#[test]
fn empty_segments_are_none() {
    assert_eq!(pre_release(&crate_token(), text("1.2.3-")), none_fragment());
    assert_eq!(build_metadata(&crate_token(), text("1.2.3+")), none_fragment());
}

#[test]
fn compile_error_escapes_message() {
    let e = Error::call_site(String::from("a \"quoted\" \\ word\n"));
    assert_eq!(
        e.to_compile_error(),
        "::core::compile_error!(\"a \\\"quoted\\\" \\\\ word\\n\")"
    );
    let e = Error::new(Span::Token(1), String::from("plain"));
    assert_eq!(e.span, Span::Token(1));
    assert_eq!(e.to_compile_error(), "::core::compile_error!(\"plain\")");
}

#[test]
fn single_components_check_the_full_version() {
    let format_error = "::core::compile_error!(\"invalid version: expected MAJOR.MINOR.PATCH\")";
    assert_eq!(major(&crate_token(), text("1"), text("1.2")), format_error);
    assert_eq!(minor(&crate_token(), text("2"), text("1.2.3.4-rc")), format_error);
    assert_eq!(patch(&crate_token(), text("3"), text("1.2.x")), "{3}");
    assert_eq!(
        patch(&crate_token(), text("3"), EnvValue::NotPresent),
        "::core::compile_error!(\"environment variable CARGO_PKG_VERSION not set\")"
    );
}
