use lexer::lexer::{init_lexer, is_digit, is_letter, is_whitespace, Lexer};

fn fake_lexer(input: &str) -> Lexer {
    init_lexer(&String::from(input))
}

#[test]
fn test_init_lexer() {
    let input = String::from("let foo = 123;");
    let l = init_lexer(&input);
    assert_eq!(*l.input(), input);
    assert_eq!(l.curr_pos(), 0);
    assert_eq!(l.next_pos(), 1);
    assert_eq!(l.ch(), 'l');
}

#[test]
fn test_advance_char() {
    let l = &mut fake_lexer("let foo = 123;");
    assert_eq!(l.advance_char(), 'e');
    assert_eq!(l.curr_pos(), 1);
    assert_eq!(l.next_pos(), 2);
    assert_eq!(l.advance_char(), 't');
}

#[test]
fn test_peek_char() {
    let l = &mut fake_lexer("let foo = 123;");
    assert_eq!(l.peek_char(), 'e');
}

#[test]
fn test_peek_char_empty() {
    let l = &mut fake_lexer(&String::from(""));
    assert_eq!(l.peek_char(), '0');
}

#[test]
fn test_read_ident() {
    let l = &mut fake_lexer(&String::from("foobar 123"));
    assert_eq!(l.read_ident(), "foobar");
}

#[test]
fn test_read_number() {
    let l = &mut fake_lexer(&String::from("123 foobar"));
    assert_eq!(l.read_number(), "123");
}

#[test]
fn test_skip_white_space() {
    let l = &mut fake_lexer(&String::from("a  \n \t \r b"));
    l.advance_char();
    l.skip_white_space();
    assert_eq!(l.ch(), 'b');
}

#[test]
fn test_is_letter() {
    assert_eq!(is_letter('e'), true);
    assert_eq!(is_letter('4'), false);
}

#[test]
fn test_is_digit() {
    assert_eq!(is_digit('e'), false);
    assert_eq!(is_digit('4'), true);
}

#[test]
fn test_is_whitespace() {
    for ch in [' ', '\t', '\n', '\r'] {
        assert!(is_whitespace(ch));
    }
    for ch in ['a', '0', '_', '\u{a0}', '\u{b}'] {
        assert!(!is_whitespace(ch));
    }
}

#[test]
fn test_letter_and_digit_bounds() {
    for ch in ['a', 'z', 'A', 'Z', 'm', 'Q'] {
        assert!(is_letter(ch));
        assert!(!is_digit(ch));
    }
    for ch in ['0', '9', '5'] {
        assert!(is_digit(ch));
        assert!(!is_letter(ch));
    }
    for ch in ['`', '{', '@', '[', '/', ':', '_', 'é', ' '] {
        assert!(!is_letter(ch));
        assert!(!is_digit(ch));
    }
}

#[test]
fn test_init_lexer_empty() {
    let l = fake_lexer("");
    assert_eq!(l.input().as_str(), "");
    assert_eq!(l.curr_pos(), 0);
    assert_eq!(l.next_pos(), 1);
    assert_eq!(l.ch(), '0');
    assert!(l.exhausted());
}

#[test]
fn test_advance_char_stops_at_the_end() {
    let l = &mut fake_lexer("ab");
    assert!(!l.exhausted());
    assert_eq!(l.advance_char(), 'b');
    assert_eq!(l.peek_char(), '0');
    assert!(!l.exhausted());
    assert_eq!(l.advance_char(), '0');
    assert!(l.exhausted());
    assert_eq!(l.curr_pos(), 2);
    assert_eq!(l.next_pos(), 3);
    assert_eq!(l.advance_char(), '0');
    assert_eq!(l.curr_pos(), 2);
    assert_eq!(l.next_pos(), 3);
    assert_eq!(l.peek_char(), '0');
}

#[test]
fn test_peek_char_does_not_move() {
    let l = &mut fake_lexer("xy");
    assert_eq!(l.peek_char(), 'y');
    assert_eq!(l.peek_char(), 'y');
    assert_eq!(l.curr_pos(), 0);
    assert_eq!(l.ch(), 'x');
}

#[test]
fn test_positions_count_scalar_values() {
    let l = &mut fake_lexer("é→b");
    assert_eq!(l.ch(), 'é');
    assert_eq!(l.peek_char(), '→');
    assert_eq!(l.advance_char(), '→');
    assert_eq!(l.curr_pos(), 1);
    assert_eq!(l.advance_char(), 'b');
    assert_eq!(l.curr_pos(), 2);
    assert_eq!(l.peek_char(), '0');
}

#[test]
fn test_read_ident_stops_before_digits() {
    let l = &mut fake_lexer("foobar123");
    assert_eq!(l.read_ident(), "foobar");
    assert_eq!(l.curr_pos(), 6);
    assert_eq!(l.ch(), '1');
    assert_eq!(l.read_number(), "123");
    assert_eq!(l.curr_pos(), 9);
    assert!(l.exhausted());
}

#[test]
fn test_read_ident_on_a_non_letter_reads_nothing() {
    let l = &mut fake_lexer("1abc");
    assert_eq!(l.read_ident(), "");
    assert_eq!(l.curr_pos(), 0);
    assert_eq!(l.ch(), '1');
}

#[test]
fn test_read_ident_to_the_end() {
    let l = &mut fake_lexer("AzaZ");
    assert_eq!(l.read_ident(), "AzaZ");
    assert_eq!(l.curr_pos(), 4);
    assert!(l.exhausted());
    assert_eq!(l.read_ident(), "");
    assert_eq!(l.curr_pos(), 4);
}

#[test]
fn test_read_number_to_the_end() {
    let l = &mut fake_lexer("9000");
    assert_eq!(l.read_number(), "9000");
    assert_eq!(l.curr_pos(), 4);
    assert!(l.exhausted());
    assert_eq!(l.read_number(), "");
    assert_eq!(l.curr_pos(), 4);
}

#[test]
fn test_read_number_on_a_non_digit_reads_nothing() {
    let l = &mut fake_lexer("x1");
    assert_eq!(l.read_number(), "");
    assert_eq!(l.curr_pos(), 0);
}

#[test]
fn test_skip_white_space_to_the_end() {
    let l = &mut fake_lexer(" \t\r\n");
    l.skip_white_space();
    assert_eq!(l.curr_pos(), 4);
    assert!(l.exhausted());
    l.skip_white_space();
    assert_eq!(l.curr_pos(), 4);
}

#[test]
fn test_skip_white_space_without_whitespace() {
    let l = &mut fake_lexer("a b");
    l.skip_white_space();
    assert_eq!(l.curr_pos(), 0);
    assert_eq!(l.ch(), 'a');
}
