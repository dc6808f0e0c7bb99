//! The arguments of a macro invocation: one identifier naming the defining
//! crate, optionally followed by one `,`.

use vstd::prelude::*;
use crate::error::{Error, Span};

verus! {

/// One token of a macro invocation.
#[derive(Clone, PartialEq, Eq, Debug)]
pub enum Token {
    /// An identifier, with its text.
    Ident(String),
    /// A punctuation character.
    Punct(char),
    /// A literal, with its text.
    Literal(String),
    /// A delimited group, with its text.
    Group(String),
}

/// The checked arguments of an invocation.
pub struct MacroInput {
    /// The token that qualifies references to the defining crate.
    pub self_crate: String,
}

/// What checking the invocation arguments `ts` gives: the qualifying token's
/// text, or the location and message of the first problem.
pub open spec fn input_spec(ts: Seq<Token>) -> Result<Seq<char>, (Span, Seq<char>)> {
    if ts.len() == 0 {
        Err((Span::CallSite, "missing argument: `$crate`"@))
    } else {
        match ts[0] {
            Token::Ident(id) => {
                if ts.len() == 1 {
                    Ok(id@)
                } else if ts[1] == Token::Punct(',') {
                    if ts.len() == 2 {
                        Ok(id@)
                    } else if ts[2] is Punct {
                        Err((Span::Token(2), "unexpected punctuation"@))
                    } else {
                        Err((Span::Token(2), "unexpected argument"@))
                    }
                } else {
                    Err((Span::Token(1), "unexpected token"@))
                }
            },
            _ => Err((Span::Token(0), "expected `$crate`"@)),
        }
    }
}

impl MacroInput {
    /// Checks the invocation arguments.
    pub fn parse(input: &Vec<Token>) -> (r: Result<MacroInput, Error>)
        ensures
            match (r, input_spec(input@)) {
                (Ok(m), Ok(id)) => m.self_crate@ == id,
                (Err(e), Err((span, msg))) => e.span == span && e.message@ == msg,
                _ => false,
            },
    {
        if input.len() == 0 {
            return Err(Error::call_site(String::from_str("missing argument: `$crate`")));
        }
        let self_crate = match &input[0] {
            Token::Ident(x) => x.clone(),
            _ => return Err(Error::new(Span::Token(0), String::from_str("expected `$crate`"))),
        };
        if input.len() > 1 {
            match &input[1] {
                Token::Punct(c) if *c == ',' => {
                    if input.len() > 2 {
                        match &input[2] {
                            Token::Punct(_) => return Err(
                                Error::new(Span::Token(2), String::from_str("unexpected punctuation")),
                            ),
                            _ => return Err(
                                Error::new(Span::Token(2), String::from_str("unexpected argument")),
                            ),
                        }
                    }
                },
                _ => return Err(Error::new(Span::Token(1), String::from_str("unexpected token"))),
            }
        }
        Ok(MacroInput { self_crate })
    }
}

} // verus!
