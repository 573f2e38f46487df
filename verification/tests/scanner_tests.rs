use lox_vm::{Scanner, Token, TokenType};

fn scanner(src: &str) -> Scanner {
    Scanner::new(src.as_bytes().to_vec())
}

fn scan_all(src: &str) -> Vec<Token> {
    let mut s = scanner(src);
    let mut tokens = Vec::new();
    loop {
        let t = s.scan_token();
        let done = t.token_type == TokenType::Eof;
        tokens.push(t);
        if done {
            return tokens;
        }
    }
}

fn kinds(src: &str) -> Vec<TokenType> {
    scan_all(src).iter().map(|t| t.token_type).collect()
}

fn lexeme<'a>(src: &'a str, t: &Token) -> &'a str {
    &src[t.start..t.start + t.length]
}

#[test]
fn single_byte_punctuation() {
    assert_eq!(
        kinds("(){};,.-+*/"),
        vec![
            TokenType::LeftParen,
            TokenType::RightParen,
            TokenType::LeftBrace,
            TokenType::RightBrace,
            TokenType::Semicolon,
            TokenType::Comma,
            TokenType::Dot,
            TokenType::Minus,
            TokenType::Plus,
            TokenType::Star,
            TokenType::Slash,
            TokenType::Eof,
        ]
    );
}

#[test]
fn one_and_two_byte_operators_prefer_the_longer_match() {
    assert_eq!(
        kinds("! != = == < <= > >="),
        vec![
            TokenType::Bang,
            TokenType::BangEqual,
            TokenType::Equal,
            TokenType::EqualEqual,
            TokenType::Less,
            TokenType::LessEqual,
            TokenType::Greater,
            TokenType::GreaterEqual,
            TokenType::Eof,
        ]
    );
}

#[test]
fn numbers_take_the_longest_lexeme() {
    let src = "123 1.25 7";
    let tokens = scan_all(src);
    assert_eq!(tokens[0].token_type, TokenType::Number);
    assert_eq!(lexeme(src, &tokens[0]), "123");
    assert_eq!(tokens[1].token_type, TokenType::Number);
    assert_eq!(lexeme(src, &tokens[1]), "1.25");
    assert_eq!(tokens[2].token_type, TokenType::Number);
    assert_eq!(lexeme(src, &tokens[2]), "7");
}

#[test]
fn a_dot_without_a_following_digit_stays_its_own_token() {
    assert_eq!(
        kinds("1. 2"),
        vec![TokenType::Number, TokenType::Dot, TokenType::Number, TokenType::Eof]
    );
}

#[test]
fn identifiers_and_every_keyword() {
    let src = "and class else false for fun if nil or print return super this true var while foo _bar x1";
    let expected = vec![
        TokenType::And,
        TokenType::Class,
        TokenType::Else,
        TokenType::False,
        TokenType::For,
        TokenType::Fun,
        TokenType::If,
        TokenType::Nil,
        TokenType::Or,
        TokenType::Print,
        TokenType::Return,
        TokenType::Super,
        TokenType::This,
        TokenType::True,
        TokenType::Var,
        TokenType::While,
        TokenType::Identifier,
        TokenType::Identifier,
        TokenType::Identifier,
        TokenType::Eof,
    ];
    assert_eq!(kinds(src), expected);
}

#[test]
fn near_keywords_are_identifiers() {
    assert_eq!(
        kinds("an andy classy iff supers"),
        vec![
            TokenType::Identifier,
            TokenType::Identifier,
            TokenType::Identifier,
            TokenType::Identifier,
            TokenType::Identifier,
            TokenType::Eof,
        ]
    );
}

#[test]
fn string_literals_cover_their_quotes() {
    let src = "\"hello\" 1";
    let tokens = scan_all(src);
    assert_eq!(tokens[0].token_type, TokenType::Str);
    assert_eq!(lexeme(src, &tokens[0]), "\"hello\"");
    assert_eq!(tokens[1].token_type, TokenType::Number);
}

#[test]
fn strings_may_span_lines_and_advance_the_line_counter() {
    let src = "\"a\nb\" x";
    let tokens = scan_all(src);
    assert_eq!(tokens[0].token_type, TokenType::Str);
    assert_eq!(tokens[0].line, 2);
    assert_eq!(tokens[1].token_type, TokenType::Identifier);
    assert_eq!(tokens[1].line, 2);
}

#[test]
fn an_unterminated_string_is_an_error_token() {
    let tokens = scan_all("\"never closed");
    assert_eq!(tokens[0].token_type, TokenType::Error);
    assert_eq!(tokens[1].token_type, TokenType::Eof);
}

#[test]
fn whitespace_and_comments_are_skipped() {
    assert_eq!(
        kinds("  // a comment\n\t 1 // trailing\r\n+ // to the very end"),
        vec![TokenType::Number, TokenType::Plus, TokenType::Eof]
    );
}

#[test]
fn a_lone_slash_is_a_token_not_a_comment() {
    assert_eq!(kinds("/ 1"), vec![TokenType::Slash, TokenType::Number, TokenType::Eof]);
}

#[test]
fn newlines_increment_the_line_counter() {
    let tokens = scan_all("1\n2\n\n3");
    assert_eq!(tokens[0].line, 1);
    assert_eq!(tokens[1].line, 2);
    assert_eq!(tokens[2].line, 4);
}

#[test]
fn an_unrecognized_byte_is_an_error_token_with_its_line() {
    let src = "\n\n@";
    let tokens = scan_all(src);
    assert_eq!(tokens[0].token_type, TokenType::Error);
    assert_eq!(tokens[0].line, 3);
    assert_eq!(lexeme(src, &tokens[0]), "@");
}

#[test]
fn scan_token_keeps_returning_eof_at_the_end_without_advancing() {
    let mut s = scanner("1 + 2");
    loop {
        if s.scan_token().token_type == TokenType::Eof {
            break;
        }
    }
    let end = s.current;
    for _ in 0..5 {
        let t = s.scan_token();
        assert_eq!(t.token_type, TokenType::Eof);
        assert_eq!(t.start, end);
        assert_eq!(t.length, 0);
        assert_eq!(s.current, end);
    }
}

#[test]
fn empty_source_scans_straight_to_eof() {
    let mut s = scanner("");
    let t = s.scan_token();
    assert_eq!(t.token_type, TokenType::Eof);
    assert_eq!(t.line, 1);
}
