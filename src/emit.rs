//! Code fragments: source text that a compiler splices in place of a macro
//! invocation.

use vstd::prelude::*;
use crate::number::{decimal_text, decimal_text_spec};
use crate::split::opt_view;
use crate::version::PkgVersion;

verus! {

/// How one character is written inside a string literal.
pub open spec fn escape_char(c: char) -> Seq<char> {
    if c == '"' {
        seq!['\\', '"']
    } else if c == '\\' {
        seq!['\\', '\\']
    } else if c == '\n' {
        seq!['\\', 'n']
    } else if c == '\r' {
        seq!['\\', 'r']
    } else if c == '\t' {
        seq!['\\', 't']
    } else if c == '\0' {
        seq!['\\', '0']
    } else {
        seq![c]
    }
}

/// The body of a string literal holding `s`.
pub open spec fn escaped(s: Seq<char>) -> Seq<char>
    decreases s.len(),
{
    if s.len() == 0 {
        Seq::empty()
    } else {
        escaped(s.drop_last()) + escape_char(s.last())
    }
}

/// A string literal holding `s`.
pub open spec fn string_literal_spec(s: Seq<char>) -> Seq<char> {
    seq!['"'] + escaped(s) + seq!['"']
}

/// The fragment of an optional string slice.
pub open spec fn option_str_spec(o: Option<Seq<char>>) -> Seq<char> {
    match o {
        None => "::core::option::Option::None::<&::core::primitive::str>"@,
        Some(x) => "::core::option::Option::Some"@ + parens(string_literal_spec(x)),
    }
}

pub open spec fn braces(s: Seq<char>) -> Seq<char> {
    seq!['{'] + s + seq!['}']
}

pub open spec fn parens(s: Seq<char>) -> Seq<char> {
    seq!['('] + s + seq![')']
}

/// An integer literal with the `u32` suffix.
pub open spec fn u32_suffixed_spec(n: nat) -> Seq<char> {
    decimal_text_spec(n) + "u32"@
}

/// One field of a struct literal, with its trailing separator.
pub open spec fn field_spec(name: Seq<char>, data: Seq<char>) -> Seq<char> {
    name + ": "@ + data + ", "@
}

/// The struct literal of a full version record, its type name qualified by `ctx`.
pub open spec fn full_record_spec(
    ctx: Seq<char>,
    major: nat,
    minor: nat,
    patch: nat,
    pre_release: Option<Seq<char>>,
    build_metadata: Option<Seq<char>>,
) -> Seq<char> {
    ctx + "::"@ + "Version"@ + " "@ + braces(
        field_spec("major"@, u32_suffixed_spec(major))
        + field_spec("minor"@, u32_suffixed_spec(minor))
        + field_spec("patch"@, u32_suffixed_spec(patch))
        + field_spec("pre_release"@, option_str_spec(pre_release))
        + field_spec("build_metadata"@, option_str_spec(build_metadata)),
    )
}

/// A string literal holding `s`, escaping quotes, backslashes and the
/// characters that a literal cannot hold as they are.
pub fn string_literal(s: &str) -> (r: String)
    ensures
        r@ == string_literal_spec(s@),
{
    proof {
        reveal_strlit("\"");
    }
    let n = s.unicode_len();
    let mut out = String::from_str("\"");
    let mut i: usize = 0;
    while i < n
        invariant
            n == s@.len(),
            i <= n,
            out@ == seq!['"'] + escaped(s@.subrange(0, i as int)),
        decreases n - i,
    {
        proof {
            reveal_strlit("\"");
            reveal_strlit("\\\"");
            reveal_strlit("\\\\");
            reveal_strlit("\\n");
            reveal_strlit("\\r");
            reveal_strlit("\\t");
            reveal_strlit("\\0");
        }
        let c = s.get_char(i);
        let piece: &str = if c == '"' {
            assert("\\\""@ =~= escape_char(c));
            "\\\""
        } else if c == '\\' {
            assert("\\\\"@ =~= escape_char(c));
            "\\\\"
        } else if c == '\n' {
            assert("\\n"@ =~= escape_char(c));
            "\\n"
        } else if c == '\r' {
            assert("\\r"@ =~= escape_char(c));
            "\\r"
        } else if c == '\t' {
            assert("\\t"@ =~= escape_char(c));
            "\\t"
        } else if c == '\0' {
            assert("\\0"@ =~= escape_char(c));
            "\\0"
        } else {
            let p = s.substring_char(i, i + 1);
            assert(p@ =~= escape_char(c));
            p
        };
        assert(piece@ =~= escape_char(c));
        proof {
            let t = s@.subrange(0, i + 1);
            assert(t.drop_last() =~= s@.subrange(0, i as int));
            assert(t.last() == c);
        }
        out.append(piece);
        assert(out@ =~= seq!['"'] + escaped(s@.subrange(0, i + 1)));
        i = i + 1;
    }
    assert(s@.subrange(0, n as int) =~= s@);
    out.append("\"");
    assert(out@ =~= string_literal_spec(s@));
    out
}

/// `{tokens}`: the fragment as one block expression.
pub fn surround_braces(tokens: String) -> (r: String)
    ensures
        r@ == braces(tokens@),
{
    proof {
        reveal_strlit("{");
        reveal_strlit("}");
    }
    let mut r = String::from_str("{");
    r.append(tokens.as_str());
    r.append("}");
    assert(r@ =~= braces(tokens@));
    r
}

/// `(tokens)`: the fragment in parentheses.
pub fn surround_parens(tokens: String) -> (r: String)
    ensures
        r@ == parens(tokens@),
{
    proof {
        reveal_strlit("(");
        reveal_strlit(")");
    }
    let mut r = String::from_str("(");
    r.append(tokens.as_str());
    r.append(")");
    assert(r@ =~= parens(tokens@));
    r
}

/// An integer literal without suffix, so that the caller's type drives inference.
pub fn u32_unsuffixed(n: u32) -> (r: String)
    ensures
        r@ == decimal_text_spec(n as nat),
{
    decimal_text(n)
}

/// An integer literal typed `u32`.
pub fn u32_suffixed(n: u32) -> (r: String)
    ensures
        r@ == u32_suffixed_spec(n as nat),
{
    let mut r = decimal_text(n);
    r.append("u32");
    r
}

/// `None` typed over `&'static str`, or `Some` of a string literal.
pub fn option_str(input: Option<&str>) -> (r: String)
    ensures
        r@ == option_str_spec(opt_view(input)),
{
    match input {
        None => String::from_str("::core::option::Option::None::<&::core::primitive::str>"),
        Some(x) => {
            let mut r = String::from_str("::core::option::Option::Some");
            let inner = surround_parens(string_literal(x));
            r.append(inner.as_str());
            r
        },
    }
}

/// Builds a struct literal field by field.
pub struct StructBuilder {
    pub name: String,
    pub fields: String,
}

impl StructBuilder {
    /// A struct literal of the type `name`, with no field yet.
    pub fn new(name: String) -> (r: StructBuilder)
        ensures
            r.name@ == name@,
            r.fields@ == Seq::<char>::empty(),
    {
        StructBuilder { name, fields: String::new() }
    }

    /// A struct literal of the type `local_path` qualified by the crate token `crate_ident`.
    pub fn new_crate_local(crate_ident: &str, local_path: &str) -> (r: StructBuilder)
        ensures
            r.name@ == crate_ident@ + "::"@ + local_path@,
            r.fields@ == Seq::<char>::empty(),
    {
        let mut name = String::from_str(crate_ident);
        name.append("::");
        name.append(local_path);
        StructBuilder::new(name)
    }

    /// Adds the field `name` with the value fragment `data`.
    pub fn field(&mut self, name: &str, data: &str)
        ensures
            final(self).name@ == old(self).name@,
            final(self).fields@ == old(self).fields@ + field_spec(name@, data@),
    {
        self.fields.append(name);
        self.fields.append(": ");
        self.fields.append(data);
        self.fields.append(", ");
    }

    /// The struct literal: the type name, then the fields in braces.
    pub fn finish(self) -> (r: String)
        ensures
            r@ == self.name@ + " "@ + braces(self.fields@),
    {
        let mut output = self.name;
        output.append(" ");
        let body = surround_braces(self.fields);
        output.append(body.as_str());
        output
    }
}

/// The struct literal of the record `version`, its type qualified by `ctx`.
pub fn full_record(ctx: &str, version: &PkgVersion) -> (r: String)
    ensures
        r@ == full_record_spec(
            ctx@,
            version.major as nat,
            version.minor as nat,
            version.patch as nat,
            opt_view(version.pre_release),
            opt_view(version.build_metadata),
        ),
{
    let mut output = StructBuilder::new_crate_local(ctx, "Version");
    let major = u32_suffixed(version.major);
    output.field("major", major.as_str());
    let minor = u32_suffixed(version.minor);
    output.field("minor", minor.as_str());
    let patch = u32_suffixed(version.patch);
    output.field("patch", patch.as_str());
    let pre = option_str(version.pre_release);
    output.field("pre_release", pre.as_str());
    let build = option_str(version.build_metadata);
    output.field("build_metadata", build.as_str());
    let r = output.finish();
    r
}

} // verus!
