//! The expansions: from invocation arguments and the value of an environment
//! variable to the fragment that replaces the invocation.

use vstd::prelude::*;
use crate::emit::{
    braces, full_record, full_record_spec, option_str, option_str_spec, surround_braces,
    u32_unsuffixed,
};
use crate::error::{compile_error_spec, Error, Span};
use crate::input::{input_spec, MacroInput, Token};
use crate::number::{decimal_text_spec, decimal_value, is_u32_text, parse_u32};
use crate::split::{opt_view, split_once_optional};
use crate::version::{
    build_metadata_of, core_fields, core_shape_ok, error_message, parse_error, pre_release_of,
    PkgVersion, VersionError,
};

verus! {

/// The environment variable that holds the major version.
pub const MAJOR_VAR: &'static str = "CARGO_PKG_VERSION_MAJOR";

/// The environment variable that holds the minor version.
pub const MINOR_VAR: &'static str = "CARGO_PKG_VERSION_MINOR";

/// The environment variable that holds the patch version.
pub const PATCH_VAR: &'static str = "CARGO_PKG_VERSION_PATCH";

/// The environment variable that holds the full version string.
pub const VERSION_VAR: &'static str = "CARGO_PKG_VERSION";

/// What looking up an environment variable gave.
#[derive(Clone, PartialEq, Eq, Debug)]
pub enum EnvValue {
    /// The variable is set to this text.
    Text(String),
    /// The variable is not set.
    NotPresent,
    /// The variable is set, but not to valid UTF-8.
    NotUnicode,
}

/// The text of the variable `name`, or the message that says why there is none.
pub open spec fn env_str_spec(name: Seq<char>, v: EnvValue) -> Result<Seq<char>, Seq<char>> {
    match v {
        EnvValue::Text(s) => Ok(s@),
        EnvValue::NotPresent => Err("environment variable "@ + name + " not set"@),
        EnvValue::NotUnicode => Err("environment variable "@ + name + " contains non UTF-8 data"@),
    }
}

/// The variable `name` read as a 32-bit decimal number.
pub open spec fn env_u32_spec(name: Seq<char>, v: EnvValue) -> Result<nat, Seq<char>> {
    match env_str_spec(name, v) {
        Err(m) => Err(m),
        Ok(t) => if is_u32_text(t) {
            Ok(decimal_value(t))
        } else {
            Err("environment variable "@ + name + " is not a valid u32"@)
        },
    }
}

/// An empty string counts as absent.
pub open spec fn non_empty_spec(o: Option<Seq<char>>) -> Option<Seq<char>> {
    match o {
        Some(t) => if t.len() == 0 {
            None
        } else {
            Some(t)
        },
        None => None,
    }
}

/// The outcome of a numeric single-component request: `v` is the value of
/// the component's variable `name`, `full` that of the full-version variable,
/// whose core must still have three fields.
pub open spec fn u32_component_spec(
    ts: Seq<Token>,
    name: Seq<char>,
    v: EnvValue,
    full: EnvValue,
) -> Result<Seq<char>, (Span, Seq<char>)> {
    match input_spec(ts) {
        Err(e) => Err(e),
        Ok(_) => match env_str_spec(VERSION_VAR@, full) {
            Err(m) => Err((Span::CallSite, m)),
            Ok(t) => if !core_shape_ok(t) {
                Err((Span::CallSite, error_message(VersionError::Format)@))
            } else {
                match env_u32_spec(name, v) {
                    Err(m) => Err((Span::CallSite, m)),
                    Ok(n) => Ok(decimal_text_spec(n)),
                }
            },
        },
    }
}

/// The outcome of the pre-release request, which reads the full version string.
pub open spec fn pre_release_component_spec(ts: Seq<Token>, name: Seq<char>, v: EnvValue) -> Result<
    Seq<char>,
    (Span, Seq<char>),
> {
    match input_spec(ts) {
        Err(e) => Err(e),
        Ok(_) => match env_str_spec(name, v) {
            Err(m) => Err((Span::CallSite, m)),
            Ok(t) => Ok(option_str_spec(non_empty_spec(pre_release_of(t)))),
        },
    }
}

/// The outcome of the build-metadata request, which reads the full version string.
pub open spec fn build_metadata_component_spec(
    ts: Seq<Token>,
    name: Seq<char>,
    v: EnvValue,
) -> Result<Seq<char>, (Span, Seq<char>)> {
    match input_spec(ts) {
        Err(e) => Err(e),
        Ok(_) => match env_str_spec(name, v) {
            Err(m) => Err((Span::CallSite, m)),
            Ok(t) => Ok(option_str_spec(non_empty_spec(build_metadata_of(t)))),
        },
    }
}

/// The outcome of the full-record request.
pub open spec fn full_component_spec(ts: Seq<Token>, name: Seq<char>, v: EnvValue) -> Result<
    Seq<char>,
    (Span, Seq<char>),
> {
    match input_spec(ts) {
        Err(e) => Err(e),
        Ok(ctx) => match env_str_spec(name, v) {
            Err(m) => Err((Span::CallSite, m)),
            Ok(t) => match parse_error(t) {
                Some(e) => Err((Span::CallSite, error_message(e)@)),
                None => Ok(
                    full_record_spec(
                        ctx,
                        decimal_value(core_fields(t)[0]),
                        decimal_value(core_fields(t)[1]),
                        decimal_value(core_fields(t)[2]),
                        pre_release_of(t),
                        build_metadata_of(t),
                    ),
                ),
            },
        },
    }
}

/// The fragment that replaces an invocation: the value as one block
/// expression, or the compile error of the first diagnostic.
pub open spec fn expansion_spec(o: Result<Seq<char>, (Span, Seq<char>)>) -> Seq<char> {
    match o {
        Ok(t) => braces(t),
        Err((_, m)) => compile_error_spec(m),
    }
}

/// Whether a returned fragment or diagnostic is the outcome `o`.
pub open spec fn meets(r: Result<String, Error>, o: Result<Seq<char>, (Span, Seq<char>)>) -> bool {
    match (r, o) {
        (Ok(t), Ok(u)) => t@ == u,
        (Err(e), Err((span, m))) => e.span == span && e.message@ == m,
        _ => false,
    }
}

/// The text of the variable `name`, given what looking it up gave.
pub fn get_env_str(name: &str, value: EnvValue) -> (r: Result<String, Error>)
    ensures
        match (r, env_str_spec(name@, value)) {
            (Ok(s), Ok(t)) => s@ == t,
            (Err(e), Err(m)) => e.span == Span::CallSite && e.message@ == m,
            _ => false,
        },
{
    match value {
        EnvValue::Text(x) => Ok(x),
        EnvValue::NotPresent => {
            let mut m = String::from_str("environment variable ");
            m.append(name);
            m.append(" not set");
            Err(Error::call_site(m))
        },
        EnvValue::NotUnicode => {
            let mut m = String::from_str("environment variable ");
            m.append(name);
            m.append(" contains non UTF-8 data");
            Err(Error::call_site(m))
        },
    }
}

/// The variable `name` read as a 32-bit decimal number.
pub fn get_env_u32(name: &str, value: EnvValue) -> (r: Result<u32, Error>)
    ensures
        match (r, env_u32_spec(name@, value)) {
            (Ok(n), Ok(m)) => n as nat == m,
            (Err(e), Err(m)) => e.span == Span::CallSite && e.message@ == m,
            _ => false,
        },
{
    let text = get_env_str(name, value)?;
    match parse_u32(text.as_str()) {
        Some(n) => Ok(n),
        None => {
            let mut m = String::from_str("environment variable ");
            m.append(name);
            m.append(" is not a valid u32");
            Err(Error::call_site(m))
        },
    }
}

/// `None` for an absent or empty string.
fn non_empty<'a>(o: Option<&'a str>) -> (r: Option<&'a str>)
    ensures
        opt_view(r) == non_empty_spec(opt_view(o)),
{
    match o {
        Some(t) => if t.is_empty() {
            None
        } else {
            Some(t)
        },
        None => None,
    }
}

/// A numeric component, as an unsuffixed literal. `value` is what the
/// component's variable `name` holds, `full` what the full-version variable
/// holds; the core of the full version must have three fields.
pub fn impl_u32_component(input: &Vec<Token>, name: &str, value: EnvValue, full: EnvValue) -> (r:
    Result<String, Error>)
    ensures
        meets(r, u32_component_spec(input@, name@, value, full)),
{
    let _ = MacroInput::parse(input)?;
    let text = get_env_str(VERSION_VAR, full)?;
    if !PkgVersion::has_three_fields(text.as_str()) {
        return Err(Error::call_site(String::from_str(VersionError::Format.message())));
    }
    let n = get_env_u32(name, value)?;
    Ok(u32_unsuffixed(n))
}

/// The pre-release, split out of the full version string.
pub fn impl_string_component(input: &Vec<Token>, name: &str, value: EnvValue) -> (r: Result<
    String,
    Error,
>)
    ensures
        meets(r, pre_release_component_spec(input@, name@, value)),
{
    let _ = MacroInput::parse(input)?;
    let text = get_env_str(name, value)?;
    let (rest, _) = split_once_optional(text.as_str(), '+');
    let (_, pre_release) = split_once_optional(rest, '-');
    Ok(option_str(non_empty(pre_release)))
}

/// The build metadata, split out of the full version string.
pub fn impl_build_metadata(input: &Vec<Token>, name: &str, value: EnvValue) -> (r: Result<
    String,
    Error,
>)
    ensures
        meets(r, build_metadata_component_spec(input@, name@, value)),
{
    let _ = MacroInput::parse(input)?;
    let text = get_env_str(name, value)?;
    let (_, build_metadata) = split_once_optional(text.as_str(), '+');
    Ok(option_str(non_empty(build_metadata)))
}

/// The full record, as a struct literal qualified by the invocation's token.
pub fn impl_full(input: &Vec<Token>, name: &str, value: EnvValue) -> (r: Result<String, Error>)
    ensures
        meets(r, full_component_spec(input@, name@, value)),
{
    let input = MacroInput::parse(input)?;
    let text = get_env_str(name, value)?;
    match PkgVersion::from_str(text.as_str()) {
        Ok(version) => Ok(full_record(input.self_crate.as_str(), &version)),
        Err(e) => Err(Error::call_site(String::from_str(e.message()))),
    }
}

/// The fragment of an outcome: the value in braces, or its compile error.
fn finish(r: Result<String, Error>) -> (out: String)
    ensures
        match r {
            Ok(t) => out@ == braces(t@),
            Err(e) => out@ == compile_error_spec(e.message@),
        },
{
    match r {
        Ok(tokens) => surround_braces(tokens),
        Err(e) => e.to_compile_error(),
    }
}

/// The expansion of `major!`, given the values of the major-version
/// variable and of the full-version variable.
pub fn major(input: &Vec<Token>, value: EnvValue, full: EnvValue) -> (r: String)
    ensures
        r@ == expansion_spec(u32_component_spec(input@, MAJOR_VAR@, value, full)),
{
    finish(impl_u32_component(input, MAJOR_VAR, value, full))
}

/// The expansion of `minor!`, given the values of the minor-version
/// variable and of the full-version variable.
pub fn minor(input: &Vec<Token>, value: EnvValue, full: EnvValue) -> (r: String)
    ensures
        r@ == expansion_spec(u32_component_spec(input@, MINOR_VAR@, value, full)),
{
    finish(impl_u32_component(input, MINOR_VAR, value, full))
}

/// The expansion of `patch!`, given the values of the patch-version
/// variable and of the full-version variable.
pub fn patch(input: &Vec<Token>, value: EnvValue, full: EnvValue) -> (r: String)
    ensures
        r@ == expansion_spec(u32_component_spec(input@, PATCH_VAR@, value, full)),
{
    finish(impl_u32_component(input, PATCH_VAR, value, full))
}

/// The expansion of `pre_release!`, given the value of the full-version variable.
pub fn pre_release(input: &Vec<Token>, value: EnvValue) -> (r: String)
    ensures
        r@ == expansion_spec(pre_release_component_spec(input@, VERSION_VAR@, value)),
{
    finish(impl_string_component(input, VERSION_VAR, value))
}

/// The expansion of `build_metadata!`, given the value of the full-version variable.
pub fn build_metadata(input: &Vec<Token>, value: EnvValue) -> (r: String)
    ensures
        r@ == expansion_spec(build_metadata_component_spec(input@, VERSION_VAR@, value)),
{
    finish(impl_build_metadata(input, VERSION_VAR, value))
}

/// The expansion of `version!`, given the value of the full-version variable.
pub fn full(input: &Vec<Token>, value: EnvValue) -> (r: String)
    ensures
        r@ == expansion_spec(full_component_spec(input@, VERSION_VAR@, value)),
{
    finish(impl_full(input, VERSION_VAR, value))
}

} // verus!
