//! Diagnostics: a message anchored at a source location, emitted as a
//! fragment that makes compilation fail there.

use vstd::prelude::*;
use crate::emit::{parens, string_literal, string_literal_spec, surround_parens};

verus! {

/// Where a diagnostic points.
#[derive(Copy, Clone, PartialEq, Eq, Debug)]
pub enum Span {
    /// The macro invocation as a whole.
    CallSite,
    /// The invocation argument at this position.
    Token(usize),
}

/// A diagnostic: a location and a message.
pub struct Error {
    pub span: Span,
    pub message: String,
}

/// The fragment that fails compilation with the message `m`.
pub open spec fn compile_error_spec(m: Seq<char>) -> Seq<char> {
    "::core::compile_error!"@ + parens(string_literal_spec(m))
}

impl Error {
    /// A diagnostic with the message `message` at `span`.
    pub fn new(span: Span, message: String) -> (r: Error)
        ensures
            r.span == span,
            r.message@ == message@,
    {
        Error { span, message }
    }

    /// A diagnostic with the message `message` at the macro invocation.
    pub fn call_site(message: String) -> (r: Error)
        ensures
            r.span == Span::CallSite,
            r.message@ == message@,
    {
        Error::new(Span::CallSite, message)
    }

    /// The fragment that makes compilation fail with this message.
    pub fn to_compile_error(&self) -> (r: String)
        ensures
            r@ == compile_error_spec(self.message@),
    {
        let mut r = String::from_str("::core::compile_error!");
        let args = surround_parens(string_literal(self.message.as_str()));
        r.append(args.as_str());
        r
    }
}

} // verus!
