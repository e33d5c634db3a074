use vcpu::assembler::Interpreter;
use vcpu::assembler::keyword::Keyword;
use vcpu::assembler::lexer::Lexer;
use vcpu::assembler::literal::{Literal, LiteralValue};
use vcpu::assembler::parser::{Expression, ParseError, Parser};
use vcpu::assembler::symbol::Symbol;
use vcpu::assembler::token::{Position, Token};
use vcpu::assembler::util::character_provider::CharacterProvider;
use vcpu::assembler::util::token_provider::{Next, TokenProvider};
use vcpu::instruction::OpCode;

fn lex(source: &str) -> Vec<Token> {
    Lexer::new().lex(source)
}

#[test]
fn lexer_ends_with_end_of_file() {
    let tokens = lex("");
    assert_eq!(tokens.len(), 1);
    assert!(matches!(tokens[0], Token::EndOfFile { .. }));
}

#[test]
fn lexer_reads_identifiers_and_keywords() {
    let tokens = lex("if counter_2 loop");
    assert_eq!(tokens.len(), 4);
    assert!(matches!(
        &tokens[0],
        Token::Keyword(kw) if kw.keyword == Keyword::If
    ));
    assert!(matches!(
        &tokens[1],
        Token::Literal(lit) if lit.literal == Literal::Identifier { lexeme: "counter_2".to_string() }
    ));
    assert!(matches!(
        &tokens[2],
        Token::Keyword(kw) if kw.keyword == Keyword::Loop
    ));
}

#[test]
fn lexer_reads_numbers() {
    let tokens = lex("42 007");
    assert!(matches!(
        &tokens[0],
        Token::Literal(lit) if lit.literal == Literal::Number { lexeme: 42 }
    ));
    assert!(matches!(
        &tokens[1],
        Token::Literal(lit) if lit.literal == Literal::Number { lexeme: 7 }
    ));
}

#[test]
fn lexer_rejects_overflowing_number() {
    let tokens = lex("99999999999999999999");
    assert!(matches!(tokens[0], Token::Invalid { .. }));
}

#[test]
fn lexer_reads_one_and_two_character_symbols() {
    let tokens = lex("+ += -> == <= && ||");
    let expected = [
        Symbol::Plus,
        Symbol::PlusEquals,
        Symbol::RightArrow,
        Symbol::DoubleEquals,
        Symbol::LeftAngledBracketEquals,
        Symbol::DoubleAmpersand,
        Symbol::DoublePipe,
    ];
    for (i, symbol) in expected.iter().enumerate() {
        assert!(matches!(&tokens[i], Token::Symbol(st) if st.symbol == *symbol));
    }
}

#[test]
fn lexer_skips_whitespace_and_comments() {
    let tokens = lex("  1 // a comment\n  2");
    assert!(matches!(
        &tokens[0],
        Token::Literal(lit) if lit.literal == Literal::Number { lexeme: 1 }
    ));
    assert!(matches!(
        &tokens[1],
        Token::Literal(lit) if lit.literal == Literal::Number { lexeme: 2 }
    ));
    assert_eq!(tokens.len(), 3);
}

#[test]
fn lexer_reads_string_literals() {
    let tokens = lex("\"hello there\"");
    assert!(matches!(
        &tokens[0],
        Token::Literal(lit) if lit.literal == Literal::Text { lexeme: "hello there".to_string() }
    ));
}

#[test]
fn lexer_flags_unterminated_string() {
    let tokens = lex("\"never closed");
    assert!(matches!(tokens[0], Token::Invalid { .. }));
}

#[test]
fn lexer_reads_unit_literal() {
    let tokens = lex("()");
    assert!(matches!(
        &tokens[0],
        Token::Literal(lit) if lit.literal == Literal::Void
    ));
}

#[test]
fn lexer_tracks_line_numbers() {
    let tokens = lex("1\n2");
    assert_eq!(tokens[0].position().line, 1);
    assert_eq!(tokens[1].position().line, 2);
}

#[test]
fn token_lexemes_round_trip() {
    assert_eq!(Keyword::While.lexeme(), "while");
    assert_eq!(Symbol::RightArrow.lexeme(), "->");
    assert_eq!(Literal::Number { lexeme: -45 }.lexeme(), "-45");
    assert_eq!(Literal::Number { lexeme: 1230 }.lexeme(), "1230");
    assert_eq!(Literal::OpCode { lexeme: OpCode::LDA }.lexeme(), "LDA");
    assert_eq!(Literal::Void.lexeme(), "()");
    let eof = Token::EndOfFile { position: Position::new(1, 0) };
    assert_eq!(eof.lexeme(), "[EOF]");
}

#[test]
fn literal_value_carries_the_payload() {
    assert_eq!(
        Literal::Number { lexeme: 9 }.value(),
        LiteralValue::Number(9)
    );
    assert_eq!(
        Literal::Identifier { lexeme: "x".to_string() }.value(),
        LiteralValue::Identifier("x".to_string())
    );
    assert_eq!(Literal::Void.value(), LiteralValue::Void);
}

#[test]
fn reserved_word_recognises_keywords_only() {
    let position = Position::new(1, 0);
    assert!(matches!(
        Token::reserved_word("return", position),
        Some(Token::Keyword(kw)) if kw.keyword == Keyword::Return
    ));
    assert!(Token::reserved_word("returns", position).is_none());
    assert!(Token::reserved_word("", position).is_none());
}

#[test]
fn character_provider_skips_and_positions() {
    let mut chars = CharacterProvider::new("a //x\nb");
    assert_eq!(chars.next(), Some('a'));
    assert_eq!(chars.next(), Some('b'));
    assert_eq!(chars.current_line(), 2);
    assert_eq!(chars.next(), None);
}

#[test]
fn character_provider_peek_is_raw() {
    let mut chars = CharacterProvider::new(" x");
    assert_eq!(chars.peek(), Some(&' '));
    assert_eq!(chars.next(), Some('x'));
}

#[test]
fn token_provider_walks_the_stream() {
    let tokens = lex("1 2");
    let mut provider = TokenProvider::new(tokens.as_slice());
    assert!(matches!(provider.peek(), Next::Token(_)));
    assert!(matches!(provider.next(), Next::Token(_)));
    assert!(matches!(provider.next(), Next::Token(_)));
    assert!(matches!(provider.next(), Next::EndOfFile { .. }));
    assert!(matches!(provider.next(), Next::EndOfStream { .. }));
    assert!(matches!(
        provider.previous_valid(),
        Token::Literal(lit) if lit.literal == Literal::Number { lexeme: 2 }
    ));
}

#[test]
fn next_cloned_keeps_the_variant() {
    let tokens = lex("1");
    let mut provider = TokenProvider::new(tokens.as_slice());
    let peeked = provider.peek();
    assert!(matches!(peeked.cloned(), Next::Token(Token::Literal(_))));
}

#[test]
fn parser_builds_binary_tree_with_precedence() {
    let tokens = lex("1 + 2 * 3");
    let mut parser = Parser::new();
    let tree = parser.parse(tokens.as_slice());
    assert!(parser.errors().is_empty());
    // The root must be the addition, with the multiplication nested right.
    match tree.root {
        Expression::Binary { operator, right_operand, .. } => {
            assert_eq!(operator.symbol, Symbol::Plus);
            assert!(matches!(
                *right_operand,
                Expression::Binary { operator: ref inner, .. } if inner.symbol == Symbol::Asterisk
            ));
        }
        other => panic!("expected a binary root, got {other:?}"),
    }
}

#[test]
fn parser_groups_parentheses() {
    let tokens = lex("(1 + 2) * 3");
    let mut parser = Parser::new();
    let tree = parser.parse(tokens.as_slice());
    assert!(parser.errors().is_empty());
    match tree.root {
        Expression::Binary { left_operand, operator, .. } => {
            assert_eq!(operator.symbol, Symbol::Asterisk);
            assert!(matches!(*left_operand, Expression::Grouping { .. }));
        }
        other => panic!("expected a binary root, got {other:?}"),
    }
}

#[test]
fn parser_parses_unary_chains() {
    let tokens = lex("--5");
    let mut parser = Parser::new();
    let tree = parser.parse(tokens.as_slice());
    assert!(parser.errors().is_empty());
    assert!(matches!(tree.root, Expression::Unary { .. }));
}

#[test]
fn parser_records_missing_expression() {
    let tokens = lex("1 +");
    let mut parser = Parser::new();
    let tree = parser.parse(tokens.as_slice());
    assert!(matches!(tree.eof, Token::EndOfFile { .. }));
    assert!(parser
        .errors()
        .iter()
        .any(|e| matches!(e, ParseError::ExpectedExpression { .. })));
}

#[test]
fn parser_records_unmatched_delimiter() {
    let tokens = lex("(1 + 2");
    let mut parser = Parser::new();
    let _ = parser.parse(tokens.as_slice());
    assert!(parser
        .errors()
        .iter()
        .any(|e| matches!(e, ParseError::UnmatchedDelimiter { .. })));
}

#[test]
fn interpreter_runs_the_front_end() {
    let mut interpreter = Interpreter::new();
    interpreter.show_tree();
    interpreter.show_next_tokens();
    let (tokens, tree) = interpreter.front_end("40 + 2");
    assert_eq!(tokens.len(), 4);
    assert!(matches!(tree.eof, Token::EndOfFile { .. }));
    assert!(matches!(tree.root, Expression::Binary { .. }));
}
