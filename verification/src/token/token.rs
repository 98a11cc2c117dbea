//! Tokens: a kind paired with the source text it was scanned from.

use crate::token::types::TokenType;
use vstd::prelude::*;

verus! {

/// The smallest classified unit of source text.
#[derive(Debug, Clone, PartialEq, Eq)]
pub struct Token {
    pub token_type: TokenType,
    pub literal: String,
}

/// What a token is: its kind and the scalar values of its literal.
pub ghost struct TokenView {
    pub token_type: TokenType,
    pub literal: Seq<char>,
}

impl View for Token {
    type V = TokenView;

    open spec fn view(&self) -> TokenView {
        TokenView { token_type: self.token_type, literal: self.literal@ }
    }
}

/// `String::push` of std: the text afterwards is the text before with `ch`
/// appended as its last scalar value.
#[verifier::external_body]
pub(crate) fn push_char(text: &mut String, ch: char)
    ensures
        final(text)@ == old(text)@.push(ch),
{
    text.push(ch)
}

impl Token {
    /// A token of the given kind whose literal is the single character `ch`.
    pub fn from_char(token_type: TokenType, ch: char) -> (token: Token)
        ensures
            token@ == (TokenView { token_type, literal: seq![ch] }),
    {
        let mut literal = String::new();
        push_char(&mut literal, ch);
        Token { token_type, literal }
    }
}

} // verus!
