use lexer::token::token::Token;
use lexer::token::types::{keyword_map, lookup_ident, lookup_in, lookup_symbol, TokenType};

#[test]
fn test_from_char() {
    let t = Token::from_char(lookup_ident("foo"), 'a');
    assert_eq!(t.token_type, TokenType::Ident);
    assert_eq!(t.literal, String::from("a"))
}

#[test]
fn test_lookup_ident() {
    assert_eq!(lookup_ident(&"foo"), TokenType::Ident);
}

#[test]
fn test_from_char_non_ascii() {
    let t = Token::from_char(TokenType::Illegal, 'λ');
    assert_eq!(t.token_type, TokenType::Illegal);
    assert_eq!(t.literal, "λ");
    assert_eq!(t, Token { token_type: TokenType::Illegal, literal: String::from("λ") });
}

#[test]
fn test_lookup_ident_keywords() {
    assert_eq!(lookup_ident("fn"), TokenType::Function);
    assert_eq!(lookup_ident("let"), TokenType::Let);
    assert_eq!(lookup_ident("true"), TokenType::True);
    assert_eq!(lookup_ident("false"), TokenType::False);
    assert_eq!(lookup_ident("return"), TokenType::Return);
    assert_eq!(lookup_ident("if"), TokenType::If);
    assert_eq!(lookup_ident("else"), TokenType::Else);
}

#[test]
fn test_lookup_ident_non_keywords() {
    for text in ["foobar", "", "Fn", "LET", "lett", "le", "iff", "elsee", "returns", "fn ", "True"] {
        assert_eq!(lookup_ident(text), TokenType::Ident, "{:?}", text);
    }
}

#[test]
fn test_keyword_map_holds_the_seven_keywords() {
    let map = keyword_map();
    assert_eq!(map.len(), 7);
    assert_eq!(map.get("fn"), Some(&TokenType::Function));
    assert_eq!(map.get("else"), Some(&TokenType::Else));
    assert_eq!(map.get("foo"), None);
    assert!(!map.contains_key("ident"));
}

#[test]
fn test_lookup_in_a_table() {
    let map = keyword_map();
    assert_eq!(lookup_in(&map, "return"), TokenType::Return);
    assert_eq!(lookup_in(&map, "returned"), TokenType::Ident);
}

#[test]
fn test_lookup_symbol() {
    let expected = [
        ('=', TokenType::Assign),
        ('+', TokenType::Plus),
        ('-', TokenType::Minus),
        ('!', TokenType::Bang),
        ('*', TokenType::Asterisk),
        ('/', TokenType::Slash),
        ('<', TokenType::Lt),
        ('>', TokenType::Gt),
        (',', TokenType::Comma),
        (';', TokenType::Semicolon),
        ('(', TokenType::LParen),
        (')', TokenType::RParen),
        ('{', TokenType::LBrace),
        ('}', TokenType::RBrace),
    ];
    for (ch, kind) in expected {
        assert_eq!(lookup_symbol(ch), kind, "{:?}", ch);
    }
    for ch in ['@', '#', '[', ']', '.', ':', '"', '_', 'a', '0', ' ', '\0', 'é'] {
        assert_eq!(lookup_symbol(ch), TokenType::Illegal, "{:?}", ch);
    }
}
