//! What holds of every scan, proved of the model that the scanner's
//! contracts are stated in.

use crate::lexer::model::{is_maximal_run, run_end, CharClass, LexerState};
use crate::token::types::TokenType;
use vstd::prelude::*;

verus! {

/// Maximal munch: the run under the cursor is the longest stretch of its
/// class that starts there.
pub proof fn lemma_run_end_is_maximal(source: Seq<char>, pos: int, class: CharClass)
    requires
        0 <= pos <= source.len(),
    ensures
        is_maximal_run(source, pos, run_end(source, pos, class), class),
    decreases source.len() - pos,
{
    if pos < source.len() && class.contains(source[pos]) {
        lemma_run_end_is_maximal(source, pos + 1, class);
    }
}

/// There is one longest stretch: a stretch of the class that starts at the
/// cursor and cannot go on ends exactly where the run ends.
pub proof fn lemma_maximal_run_is_unique(source: Seq<char>, pos: int, end: int, class: CharClass)
    requires
        is_maximal_run(source, pos, end, class),
    ensures
        run_end(source, pos, class) == end,
    decreases end - pos,
{
    if pos < end {
        assert(class.contains(source[pos]));
        lemma_maximal_run_is_unique(source, pos + 1, end, class);
    }
}

/// A stretch of the class that starts at the cursor is never longer than the
/// run: the scanner does not stop while the class goes on.
pub proof fn lemma_run_end_longest(source: Seq<char>, pos: int, end: int, class: CharClass)
    requires
        0 <= pos <= end <= source.len(),
        forall|i: int| pos <= i < end ==> class.contains(#[trigger] source[i]),
    ensures
        end <= run_end(source, pos, class),
    decreases end - pos,
{
    if pos < end {
        assert(class.contains(source[pos]));
        lemma_run_end_longest(source, pos + 1, end, class);
    } else {
        lemma_run_end_is_maximal(source, pos, class);
    }
}

/// A scan step keeps the source, never moves the cursor backwards or past
/// the end, and returns as literal exactly the text it consumed after the
/// whitespace. It yields `Eof` if and only if nothing but whitespace was
/// left, and only the literal of `Eof` is empty.
pub proof fn lemma_next_token_step(state: LexerState)
    requires
        state.wf(),
    ensures
        state.next_token().1.wf(),
        state.next_token().1.source == state.source,
        state.position <= state.next_token().1.position,
        state.next_token().0.literal == state.skip(CharClass::Whitespace).text_until(
            state.next_token().1,
        ),
        state.next_token().0.token_type == TokenType::Eof <==> state.next_token().0.literal.len()
            == 0,
        state.next_token().0.token_type == TokenType::Eof <==> state.skip(
            CharClass::Whitespace,
        ).exhausted(),
{
    let start = state.skip(CharClass::Whitespace);
    lemma_run_end_is_maximal(state.source, state.position, CharClass::Whitespace);
    lemma_run_end_is_maximal(state.source, start.position, CharClass::Letter);
    lemma_run_end_is_maximal(state.source, start.position, CharClass::Digit);
    let (token, next) = state.next_token();
    assert(token.literal =~= start.text_until(next));
}

/// The exhausted state is terminal: a scan step there yields `Eof` with an
/// empty literal and leaves the state as it is.
pub proof fn lemma_exhausted_is_terminal(state: LexerState)
    requires
        state.wf(),
        state.exhausted(),
    ensures
        state.next_token() == (LexerState::eof_token(), state),
{
}

/// Once a scan step has yielded `Eof`, every later step yields `Eof` with an
/// empty literal, and the cursor stays where the first `Eof` left it.
pub proof fn lemma_eof_is_forever(state: LexerState, first: nat, later: nat)
    requires
        state.wf(),
        first <= later,
        state.token(first).token_type == TokenType::Eof,
    ensures
        state.token(later) == LexerState::eof_token(),
        state.after((later + 1) as nat) == state.after((first + 1) as nat),
    decreases later,
{
    lemma_after_wf(state, first);
    lemma_after_step(state, first);
    let at_first = state.after(first);
    lemma_next_token_step(at_first);
    if later == first {
    } else {
        lemma_eof_is_forever(state, first, (later - 1) as nat);
        lemma_after_step(state, (later - 1) as nat);
        lemma_after_step(state, later);
        lemma_after_wf(state, later);
        lemma_exhausted_is_terminal(state.after(later));
    }
}

/// Any number of scan steps leaves a state whose cursor lies within the
/// same source, at or after the cursor it started from.
pub proof fn lemma_after_wf(state: LexerState, n: nat)
    requires
        state.wf(),
    ensures
        state.after(n).wf(),
        state.after(n).source == state.source,
        state.position <= state.after(n).position,
    decreases n,
{
    if n > 0 {
        lemma_next_token_step(state);
        lemma_after_wf(state.next_token().1, (n - 1) as nat);
    }
}

/// The state after `n + 1` scan steps is one scan step after the state
/// after `n`.
pub proof fn lemma_after_step(state: LexerState, n: nat)
    ensures
        state.after((n + 1) as nat) == state.after(n).next_token().1,
    decreases n,
{
    let next = state.next_token().1;
    assert(state.after((n + 1) as nat) == next.after(n));
    if n > 0 {
        lemma_after_step(next, (n - 1) as nat);
        assert(state.after(n) == next.after((n - 1) as nat));
    } else {
        assert(next.after(0) == next);
    }
}

/// Of a source that holds nothing but whitespace, the first token is `Eof`.
pub proof fn lemma_whitespace_only_source(source: Seq<char>)
    requires
        forall|i: int| 0 <= i < source.len() ==> CharClass::Whitespace.contains(source[i]),
    ensures
        LexerState::initial(source).next_token().0 == LexerState::eof_token(),
{
    lemma_maximal_run_is_unique(source, 0, source.len() as int, CharClass::Whitespace);
}

/// Two-character operators take priority over their one-character prefixes:
/// where `==` or `!=` starts the next token, the scan step yields one `Eq` or
/// `Ne` token with both characters as its literal, and consumes both.
pub proof fn lemma_two_char_operator_first(state: LexerState)
    requires
        state.wf(),
        state.position + 1 < state.source.len(),
        state.source[state.position] == '=' || state.source[state.position] == '!',
        state.source[state.position + 1] == '=',
    ensures
        state.next_token().0.token_type == if state.source[state.position] == '=' {
            TokenType::Eq
        } else {
            TokenType::Ne
        },
        state.next_token().0.literal == seq![state.source[state.position], '='],
        state.next_token().1.position == state.position + 2,
{
}

} // verus!
