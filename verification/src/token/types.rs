//! Token kinds and the table of reserved words.

use vstd::hash_map::StringHashMap;
use vstd::prelude::*;

verus! {

/// The closed set of token kinds.
#[derive(Debug, Clone, Copy, PartialEq, Eq, Hash, Structural)]
pub enum TokenType {
    Illegal,
    Eof,
    Ident,
    Int,
    Assign,
    Plus,
    Minus,
    Bang,
    Asterisk,
    Slash,
    Lt,
    Gt,
    Eq,
    Ne,
    Comma,
    Semicolon,
    LParen,
    RParen,
    LBrace,
    RBrace,
    Function,
    Let,
    True,
    False,
    Return,
    If,
    Else,
}

/// The reserved words of the language, each with its token kind.
pub open spec fn keyword_table() -> Map<Seq<char>, TokenType> {
    map![
        "fn"@ => TokenType::Function,
        "let"@ => TokenType::Let,
        "true"@ => TokenType::True,
        "false"@ => TokenType::False,
        "return"@ => TokenType::Return,
        "if"@ => TokenType::If,
        "else"@ => TokenType::Else,
    ]
}

/// The kind of an identifier-shaped text under a given table: the kind the
/// table gives it, or `Ident` where the table does not hold it.
pub open spec fn lookup_in_table(table: Map<Seq<char>, TokenType>, text: Seq<char>) -> TokenType {
    if table.contains_key(text) {
        table[text]
    } else {
        TokenType::Ident
    }
}

/// The kind of an identifier-shaped text: its reserved kind if it is a
/// reserved word, `Ident` otherwise.
pub open spec fn lookup_keyword(text: Seq<char>) -> TokenType {
    lookup_in_table(keyword_table(), text)
}

/// The kind of a punctuation character that is a token by itself, or
/// `Illegal` for a character that no rule matches.
pub open spec fn symbol_kind(c: char) -> TokenType {
    if c == '=' {
        TokenType::Assign
    } else if c == '+' {
        TokenType::Plus
    } else if c == '-' {
        TokenType::Minus
    } else if c == '!' {
        TokenType::Bang
    } else if c == '*' {
        TokenType::Asterisk
    } else if c == '/' {
        TokenType::Slash
    } else if c == '<' {
        TokenType::Lt
    } else if c == '>' {
        TokenType::Gt
    } else if c == ',' {
        TokenType::Comma
    } else if c == ';' {
        TokenType::Semicolon
    } else if c == '(' {
        TokenType::LParen
    } else if c == ')' {
        TokenType::RParen
    } else if c == '{' {
        TokenType::LBrace
    } else if c == '}' {
        TokenType::RBrace
    } else {
        TokenType::Illegal
    }
}

/// Builds the keyword table.
pub fn keyword_map() -> (map: StringHashMap<TokenType>)
    ensures
        map@ == keyword_table(),
{
    let mut map: StringHashMap<TokenType> = StringHashMap::new();
    map.insert("fn".to_owned(), TokenType::Function);
    map.insert("let".to_owned(), TokenType::Let);
    map.insert("true".to_owned(), TokenType::True);
    map.insert("false".to_owned(), TokenType::False);
    map.insert("return".to_owned(), TokenType::Return);
    map.insert("if".to_owned(), TokenType::If);
    map.insert("else".to_owned(), TokenType::Else);
    map
}

/// Looks `ident` up in a table built by [`keyword_map`] or any other.
pub fn lookup_in(keywords: &StringHashMap<TokenType>, ident: &str) -> (kind: TokenType)
    ensures
        kind == lookup_in_table(keywords@, ident@),
{
    match keywords.get(ident) {
        Some(kind) => *kind,
        None => TokenType::Ident,
    }
}

/// Classifies an identifier-shaped text: the reserved kind for a reserved
/// word, `Ident` for anything else.
pub fn lookup_ident(ident: &str) -> (kind: TokenType)
    ensures
        kind == lookup_keyword(ident@),
{
    let keywords = keyword_map();
    lookup_in(&keywords, ident)
}

/// Classifies a character that is a token by itself: the kind of the
/// punctuation character, `Illegal` for anything else.
pub fn lookup_symbol(ch: char) -> (kind: TokenType)
    ensures
        kind == symbol_kind(ch),
{
    match ch {
        '=' => TokenType::Assign,
        '+' => TokenType::Plus,
        '-' => TokenType::Minus,
        '!' => TokenType::Bang,
        '*' => TokenType::Asterisk,
        '/' => TokenType::Slash,
        '<' => TokenType::Lt,
        '>' => TokenType::Gt,
        ',' => TokenType::Comma,
        ';' => TokenType::Semicolon,
        '(' => TokenType::LParen,
        ')' => TokenType::RParen,
        '{' => TokenType::LBrace,
        '}' => TokenType::RBrace,
        _ => TokenType::Illegal,
    }
}

/// The keyword table is complete: it maps each of the seven reserved words
/// to its own kind, and nothing else is in it.
pub proof fn lemma_keyword_table_complete()
    ensures
        lookup_keyword("fn"@) == TokenType::Function,
        lookup_keyword("let"@) == TokenType::Let,
        lookup_keyword("true"@) == TokenType::True,
        lookup_keyword("false"@) == TokenType::False,
        lookup_keyword("return"@) == TokenType::Return,
        lookup_keyword("if"@) == TokenType::If,
        lookup_keyword("else"@) == TokenType::Else,
        forall|text: Seq<char>|
            text != "fn"@ && text != "let"@ && text != "true"@ && text != "false"@ && text
                != "return"@ && text != "if"@ && text != "else"@ ==> #[trigger] lookup_keyword(text)
                == TokenType::Ident,
{
    reveal_strlit("fn");
    reveal_strlit("let");
    reveal_strlit("true");
    reveal_strlit("false");
    reveal_strlit("return");
    reveal_strlit("if");
    reveal_strlit("else");
    assert("fn"@.len() == 2 && "if"@.len() == 2 && "let"@.len() == 3);
    assert("true"@.len() == 4 && "else"@.len() == 4);
    assert("false"@.len() == 5 && "return"@.len() == 6);
    assert("fn"@[0] == 'f' && "if"@[0] == 'i');
    assert("true"@[0] == 't' && "else"@[0] == 'e');
}

} // verus!
