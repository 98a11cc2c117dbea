//! The mathematical model of scanning: a source text, a cursor into it, and
//! the token that a scan step yields from there.

use crate::token::token::TokenView;
use crate::token::types::{lookup_keyword, symbol_kind, TokenType};
use vstd::prelude::*;

verus! {

/// The value that stands for "no character": what the scanner holds as its
/// current character once the cursor has passed the last one. It is an
/// ordinary digit, so the end of input is always told by position.
pub const SENTINEL: char = '0';

/// The classes of characters of which the scanner consumes whole runs.
pub enum CharClass {
    Whitespace,
    Letter,
    Digit,
}

impl CharClass {
    /// Whether `c` belongs to the class.
    pub open spec fn contains(self, c: char) -> bool {
        match self {
            CharClass::Whitespace => c == ' ' || c == '\t' || c == '\n' || c == '\r',
            CharClass::Letter => 'a' <= c <= 'z' || 'A' <= c <= 'Z',
            CharClass::Digit => '0' <= c <= '9',
        }
    }
}

/// The character of `source` at `pos`, or the sentinel where there is none.
pub open spec fn char_at(source: Seq<char>, pos: int) -> char {
    if 0 <= pos < source.len() {
        source[pos]
    } else {
        SENTINEL
    }
}

/// The position just past the run of characters of `class` that starts at
/// `pos`: `pos` itself where the character there is not of the class, or
/// where there is none.
pub open spec fn run_end(source: Seq<char>, pos: int, class: CharClass) -> int
    decreases source.len() - pos,
{
    if 0 <= pos < source.len() && class.contains(source[pos]) {
        run_end(source, pos + 1, class)
    } else {
        pos
    }
}

/// Whether `end` closes the longest stretch of characters of `class` that
/// starts at `pos`: every character from `pos` up to `end` is of the class,
/// and the stretch cannot go on, for want of a character or because the
/// character at `end` is not of the class.
pub open spec fn is_maximal_run(source: Seq<char>, pos: int, end: int, class: CharClass) -> bool {
    &&& 0 <= pos <= end <= source.len()
    &&& forall|i: int| pos <= i < end ==> class.contains(#[trigger] source[i])
    &&& end < source.len() ==> !class.contains(source[end])
}

/// What a scanner is: the text it scans and how far it has come.
pub ghost struct LexerState {
    pub source: Seq<char>,
    pub position: int,
}

impl LexerState {
    /// The cursor lies within the source or just past its last character.
    pub open spec fn wf(self) -> bool {
        0 <= self.position <= self.source.len()
    }

    /// The state before anything was scanned.
    pub open spec fn initial(source: Seq<char>) -> LexerState {
        LexerState { source, position: 0 }
    }

    /// The cursor has passed the last character.
    pub open spec fn exhausted(self) -> bool {
        self.position >= self.source.len()
    }

    /// The character under the cursor.
    pub open spec fn current(self) -> char {
        char_at(self.source, self.position)
    }

    /// The character one position ahead of the cursor.
    pub open spec fn peek(self) -> char {
        char_at(self.source, self.position + 1)
    }

    /// The state after one character was consumed; an exhausted state stays
    /// as it is.
    pub open spec fn advance(self) -> LexerState {
        if self.exhausted() {
            self
        } else {
            LexerState { position: self.position + 1, ..self }
        }
    }

    /// The state after the whole run of `class` under the cursor was consumed.
    pub open spec fn skip(self, class: CharClass) -> LexerState {
        LexerState { position: run_end(self.source, self.position, class), ..self }
    }

    /// The text between the cursor of `self` and the cursor of `later`.
    pub open spec fn text_until(self, later: LexerState) -> Seq<char> {
        self.source.subrange(self.position, later.position)
    }

    /// Whether a two-character operator, `==` or `!=`, starts under the cursor.
    pub open spec fn at_two_char_operator(self) -> bool {
        (self.current() == '=' || self.current() == '!') && self.peek() == '='
    }

    /// The token that marks the end of input.
    pub open spec fn eof_token() -> TokenView {
        TokenView { token_type: TokenType::Eof, literal: Seq::empty() }
    }

    /// One scan step: the token that starts at the first character that is
    /// not whitespace, and the state after it was consumed.
    pub open spec fn next_token(self) -> (TokenView, LexerState) {
        let start = self.skip(CharClass::Whitespace);
        let c = start.current();
        if start.exhausted() {
            (Self::eof_token(), start)
        } else if CharClass::Letter.contains(c) {
            let end = start.skip(CharClass::Letter);
            let literal = start.text_until(end);
            (TokenView { token_type: lookup_keyword(literal), literal }, end)
        } else if CharClass::Digit.contains(c) {
            let end = start.skip(CharClass::Digit);
            (TokenView { token_type: TokenType::Int, literal: start.text_until(end) }, end)
        } else if start.at_two_char_operator() {
            let token_type = if c == '=' {
                TokenType::Eq
            } else {
                TokenType::Ne
            };
            (TokenView { token_type, literal: seq![c, '='] }, start.advance().advance())
        } else {
            (TokenView { token_type: symbol_kind(c), literal: seq![c] }, start.advance())
        }
    }

    /// The state after `n` scan steps.
    pub open spec fn after(self, n: nat) -> LexerState
        decreases n,
    {
        if n == 0 {
            self
        } else {
            self.next_token().1.after((n - 1) as nat)
        }
    }

    /// The token that the scan step after the first `n` yields.
    pub open spec fn token(self, n: nat) -> TokenView {
        self.after(n).next_token().0
    }
}

} // verus!
