//! The scanner: a forward-only cursor over a source text that yields one
//! token per request.

pub mod laws;
pub mod model;

use crate::lexer::laws::lemma_run_end_is_maximal;
use crate::lexer::model::{is_maximal_run, CharClass, LexerState, SENTINEL};
use crate::token::token::{push_char, Token};
use crate::token::types::{keyword_map, keyword_table, lookup_in, lookup_symbol, TokenType};
use vstd::hash_map::StringHashMap;
use vstd::prelude::*;

verus! {

/// A scanner over one source text.
pub struct Lexer {
    /// The source, as it was given.
    input: String,
    /// The scalar values of the source, closed by the sentinel.
    chars: Vec<char>,
    /// The cursor: the offset, in scalar values, of the current character.
    curr_pos: usize,
    /// The offset of the lookahead character.
    next_pos: usize,
    /// The character under the cursor, or the sentinel past the end.
    ch: char,
    /// The keyword table, built once when the scanner is made.
    keywords: StringHashMap<TokenType>,
}

impl View for Lexer {
    type V = LexerState;

    closed spec fn view(&self) -> LexerState {
        LexerState { source: self.input@, position: self.curr_pos as int }
    }
}

/// Makes a scanner positioned at the first character of `input`.
pub fn init_lexer(input: &String) -> (lexer: Lexer)
    ensures
        lexer.wf(),
        lexer@ == LexerState::initial(input@),
{
    let mut chars: Vec<char> = Vec::new();
    for c in it: input.as_str().chars()
        invariant
            it.seq() == input@,
            chars@ == it.seq().take(it.index() as int),
    {
        chars.push(c);
    }
    assert(chars@ == input@);
    chars.push(SENTINEL);
    let ch = chars[0];
    Lexer { input: input.clone(), chars, curr_pos: 0, next_pos: 1, ch, keywords: keyword_map() }
}

impl Lexer {
    /// How the fields stand for the state: the decoded characters are those
    /// of the input, the lookahead is one ahead of the cursor, and the current
    /// character is the one under the cursor.
    pub closed spec fn represents(&self) -> bool {
        &&& self.chars@ == self.input@.push(SENTINEL)
        &&& self.next_pos == self.curr_pos + 1
        &&& self.ch == self@.current()
        &&& self.keywords@ == keyword_table()
    }

    /// The scanner is in a state that `init_lexer` and the scan operations
    /// can have left it in.
    pub open spec fn wf(&self) -> bool {
        self@.wf() && self.represents()
    }

    /// The source text.
    pub fn input(&self) -> (input: &String)
        ensures
            input@ == self@.source,
    {
        &self.input
    }

    /// The offset of the current character.
    pub fn curr_pos(&self) -> (pos: usize)
        ensures
            pos == self@.position,
    {
        self.curr_pos
    }

    /// The offset of the lookahead character.
    pub fn next_pos(&self) -> (pos: usize)
        requires
            self.wf(),
        ensures
            pos == self@.position + 1,
    {
        self.next_pos
    }

    /// The current character, or the sentinel once the input is exhausted.
    pub fn ch(&self) -> (ch: char)
        requires
            self.wf(),
        ensures
            ch == self@.current(),
    {
        self.ch
    }

    /// Whether the cursor has passed the last character.
    pub fn exhausted(&self) -> (done: bool)
        requires
            self.wf(),
        ensures
            done == self@.exhausted(),
    {
        self.next_pos >= self.chars.len()
    }

    /// Consumes the current character and returns the new current one. An
    /// exhausted scanner stays where it is.
    pub fn advance_char(&mut self) -> (ch: char)
        requires
            old(self).wf(),
        ensures
            final(self).wf(),
            final(self)@ == old(self)@.advance(),
            ch == final(self)@.current(),
    {
        if !self.exhausted() {
            assert(self.next_pos < self.chars.len());
            self.ch = self.peek_char();
            self.advance_pointers();
        }
        self.ch
    }

    /// The character one position ahead of the cursor, or the sentinel where
    /// there is none.
    pub fn peek_char(&self) -> (ch: char)
        requires
            self.wf(),
        ensures
            ch == self@.peek(),
    {
        if self.next_pos >= self.chars.len() {
            return SENTINEL;
        }
        self.chars[self.next_pos]
    }

    /// Consumes the run of letters under the cursor and returns it.
    pub fn read_ident(&mut self) -> (literal: String)
        requires
            old(self).wf(),
        ensures
            final(self).wf(),
            final(self)@ == old(self)@.skip(CharClass::Letter),
            is_maximal_run(
                old(self)@.source,
                old(self)@.position,
                final(self)@.position,
                CharClass::Letter,
            ),
            literal@ == old(self)@.text_until(final(self)@),
    {
        proof {
            lemma_run_end_is_maximal(self@.source, self@.position, CharClass::Letter);
        }
        let mut literal = String::new();
        while is_letter(self.ch)
            invariant
                self.wf(),
                self@.source == old(self)@.source,
                old(self)@.position <= self@.position,
                self@.skip(CharClass::Letter) == old(self)@.skip(CharClass::Letter),
                literal@ == old(self)@.text_until(self@),
            decreases self@.source.len() - self@.position,
        {
            push_char(&mut literal, self.ch);
            self.advance_char();
        }
        literal
    }

    /// Consumes the run of digits under the cursor and returns it.
    pub fn read_number(&mut self) -> (literal: String)
        requires
            old(self).wf(),
        ensures
            final(self).wf(),
            final(self)@ == old(self)@.skip(CharClass::Digit),
            is_maximal_run(
                old(self)@.source,
                old(self)@.position,
                final(self)@.position,
                CharClass::Digit,
            ),
            literal@ == old(self)@.text_until(final(self)@),
    {
        proof {
            lemma_run_end_is_maximal(self@.source, self@.position, CharClass::Digit);
        }
        let mut literal = String::new();
        while !self.exhausted() && is_digit(self.ch)
            invariant
                self.wf(),
                self@.source == old(self)@.source,
                old(self)@.position <= self@.position,
                self@.skip(CharClass::Digit) == old(self)@.skip(CharClass::Digit),
                literal@ == old(self)@.text_until(self@),
            decreases self@.source.len() - self@.position,
        {
            push_char(&mut literal, self.ch);
            self.advance_char();
        }
        literal
    }

    /// Consumes the run of whitespace under the cursor.
    pub fn skip_white_space(&mut self)
        requires
            old(self).wf(),
        ensures
            final(self).wf(),
            final(self)@ == old(self)@.skip(CharClass::Whitespace),
            is_maximal_run(
                old(self)@.source,
                old(self)@.position,
                final(self)@.position,
                CharClass::Whitespace,
            ),
    {
        proof {
            lemma_run_end_is_maximal(self@.source, self@.position, CharClass::Whitespace);
        }
        while is_whitespace(self.ch)
            invariant
                self.wf(),
                self@.source == old(self)@.source,
                self@.skip(CharClass::Whitespace) == old(self)@.skip(CharClass::Whitespace),
            decreases self@.source.len() - self@.position,
        {
            self.advance_char();
        }
    }

    /// Scans the next token: skips whitespace, then consumes one token's worth
    /// of input and returns it. Once the input is exhausted, every call
    /// returns `Eof` with an empty literal and leaves the cursor where it is.
    pub fn next_token(&mut self) -> (token: Token)
        requires
            old(self).wf(),
        ensures
            final(self).wf(),
            (token@, final(self)@) == old(self)@.next_token(),
            old(self)@.exhausted() ==> {
                &&& token@ == LexerState::eof_token()
                &&& final(self)@ == old(self)@
            },
    {
        self.skip_white_space();
        if self.exhausted() {
            return Token { token_type: TokenType::Eof, literal: String::new() };
        }
        let ch = self.ch;
        if is_letter(ch) {
            let literal = self.read_ident();
            let token_type = lookup_in(&self.keywords, literal.as_str());
            Token { token_type, literal }
        } else if is_digit(ch) {
            let literal = self.read_number();
            Token { token_type: TokenType::Int, literal }
        } else if (ch == '=' || ch == '!') && self.peek_char() == '=' {
            let token_type = if ch == '=' {
                TokenType::Eq
            } else {
                TokenType::Ne
            };
            let mut literal = String::new();
            push_char(&mut literal, ch);
            push_char(&mut literal, '=');
            assert(literal@ == seq![ch, '=']);
            self.advance_char();
            self.advance_char();
            Token { token_type, literal }
        } else {
            let token = Token::from_char(lookup_symbol(ch), ch);
            self.advance_char();
            token
        }
    }

    /// Moves the cursor and the lookahead one position forward.
    fn advance_pointers(&mut self)
        requires
            old(self).next_pos < usize::MAX,
        ensures
            final(self).curr_pos == old(self).next_pos,
            final(self).next_pos == old(self).next_pos + 1,
            final(self).input == old(self).input,
            final(self).chars == old(self).chars,
            final(self).ch == old(self).ch,
            final(self).keywords == old(self).keywords,
    {
        self.curr_pos = self.next_pos;
        self.next_pos += 1;
    }
}

/// Whether `ch` is a space, a tab, a newline or a carriage return.
pub fn is_whitespace(ch: char) -> (yes: bool)
    ensures
        yes == CharClass::Whitespace.contains(ch),
{
    ch == ' ' || ch == '\t' || ch == '\n' || ch == '\r'
}

/// Whether `ch` is one of the letters `a` to `z` and `A` to `Z`.
pub fn is_letter(ch: char) -> (yes: bool)
    ensures
        yes == CharClass::Letter.contains(ch),
{
    'a' <= ch && ch <= 'z' || 'A' <= ch && ch <= 'Z'
}

/// Whether `ch` is one of the digits `0` to `9`.
pub fn is_digit(ch: char) -> (yes: bool)
    ensures
        yes == CharClass::Digit.contains(ch),
{
    '0' <= ch && ch <= '9'
}

} // verus!
