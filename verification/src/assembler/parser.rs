//! The parser: a recursive-descent expression grammar over the token
//! stream, with precedence climbing from `or` down to `primary` and
//! recovery around unmatched delimiters.
//!
//! Every parsing method preserves the token stream and only moves the
//! cursor forward; the recursion terminates because each cycle through the
//! grammar consumes at least one token.

use vstd::prelude::*;
use vstd::string::StringExecFns;

use crate::assembler::symbol::Symbol;
use crate::assembler::token::{LiteralToken, Position, SymbolToken, Token};
use crate::assembler::literal::Literal;
use crate::assembler::util::token_provider::{Next, TokenProvider};

verus! {

/// The bracket kinds the parser pairs up.
#[derive(Clone, Copy, PartialEq, Eq, Structural, Debug)]
pub enum DelimiterType {
    Paren,
    Curly,
    Angled,
    Square,
}

/// One open delimiter awaiting its match, and where it was opened.
#[derive(Clone, Copy, PartialEq, Eq, Structural, Debug)]
pub struct Delimiter {
    pub position: Position,
    pub delimiter: DelimiterType,
}

impl Delimiter {
    /// The source text that opens this delimiter kind.
    pub open spec fn spec_lexeme(self) -> Seq<char> {
        match self.delimiter {
            DelimiterType::Paren => "("@,
            DelimiterType::Curly => "{"@,
            DelimiterType::Angled => "<"@,
            DelimiterType::Square => "["@,
        }
    }

    /// The source text that opens this delimiter kind.
    pub fn lexeme(&self) -> (r: String)
        ensures
            r@ == self.spec_lexeme(),
    {
        match self.delimiter {
            DelimiterType::Paren => String::from_str("("),
            DelimiterType::Curly => String::from_str("{"),
            DelimiterType::Angled => String::from_str("<"),
            DelimiterType::Square => String::from_str("["),
        }
    }

    /// Where this delimiter was opened.
    pub fn position(&self) -> (r: Position)
        ensures
            r == self.position,
    {
        self.position
    }

    /// The delimiter kind a closing symbol token pairs with, if the token
    /// is a closing delimiter.
    pub fn of_closing_token(token: &Token) -> (r: Option<Delimiter>)
        ensures
            match r {
                Some(d) => (*token) matches Token::Symbol(SymbolToken { position, symbol })
                    && d.position == position && closing_kind(symbol) == Some(d.delimiter),
                None => !((*token) matches Token::Symbol(SymbolToken { symbol, .. })
                    && closing_kind(symbol) is Some),
            },
    {
        match token {
            Token::Symbol(SymbolToken { position, symbol }) => {
                let kind = match symbol {
                    Symbol::RightParenthesis => Some(DelimiterType::Paren),
                    Symbol::RightAngledBracket => Some(DelimiterType::Angled),
                    Symbol::RightCurlyBracket => Some(DelimiterType::Curly),
                    Symbol::RightSquareBracket => Some(DelimiterType::Square),
                    _ => None,
                };
                match kind {
                    Some(delimiter) => Some(Delimiter { position: *position, delimiter }),
                    None => None,
                }
            },
            _ => None,
        }
    }
}

/// The delimiter kind a closing symbol pairs with.
pub open spec fn closing_kind(symbol: Symbol) -> Option<DelimiterType> {
    match symbol {
        Symbol::RightParenthesis => Some(DelimiterType::Paren),
        Symbol::RightAngledBracket => Some(DelimiterType::Angled),
        Symbol::RightCurlyBracket => Some(DelimiterType::Curly),
        Symbol::RightSquareBracket => Some(DelimiterType::Square),
        _ => None,
    }
}

/// One node of the parsed expression tree.
#[derive(Debug)]
pub enum Expression {
    Literal { token: LiteralToken },
    Unary { operator: SymbolToken, operand: Box<Expression> },
    Binary { left_operand: Box<Expression>, operator: SymbolToken, right_operand: Box<Expression> },
    Grouping { operand: Box<Expression> },
}

/// A parsed source text: the expression and the end-of-file token that
/// closed it.
#[derive(Debug)]
pub struct SyntaxTree {
    pub root: Expression,
    pub eof: Token,
}

/// A problem the parser recovered from, and where it stood.
#[derive(Clone, Copy, PartialEq, Eq, Structural, Debug)]
pub enum ParseError {
    /// A token that cannot start an expression.
    ExpectedExpression { position: Position },
    /// A closing delimiter with no matching opener.
    UnmatchedDelimiter { position: Position },
}

/// Problems already recorded are never dropped: recording only appends.
pub open spec fn errors_extended(pre: Seq<ParseError>, post: Seq<ParseError>) -> bool {
    &&& pre.len() <= post.len()
    &&& forall|i: int| 0 <= i < pre.len() ==> post[i] == pre[i]
}

/// The recursive-descent parser: tracks open delimiters and the problems it
/// recovered from.
pub struct Parser {
    delimiter_stack: Vec<Delimiter>,
    errors: Vec<ParseError>,
}

impl Parser {
    /// The problems recorded so far.
    pub closed spec fn spec_errors(&self) -> Seq<ParseError> {
        self.errors@
    }

    /// Create a parser with no open delimiters and no recorded problems.
    pub fn new() -> (r: Parser)
        ensures
            r.spec_errors() == Seq::<ParseError>::empty(),
    {
        Parser { delimiter_stack: Vec::new(), errors: Vec::new() }
    }

    /// The problems the last parse recovered from, in order.
    pub fn errors(&self) -> (r: &Vec<ParseError>)
        ensures
            r@ == self.spec_errors(),
    {
        &self.errors
    }

    /// Parse a whole token stream into one expression tree. Problems are
    /// recorded rather than fatal: the tree is always produced, and the
    /// stream's end-of-file token closes it.
    pub fn parse(&mut self, tokens: &[Token]) -> (r: SyntaxTree)
        ensures
            r.eof is EndOfFile,
            errors_extended(old(self).spec_errors(), final(self).spec_errors()),
    {
        let mut provider = TokenProvider::new(tokens);
        let root = self.expression(&mut provider);

        match provider.peek() {
            Next::Token(t) => {
                let position = t.position();
                self.error(ParseError::ExpectedExpression { position });
                SyntaxTree {
                    root,
                    eof: Token::EndOfFile {
                        position: Position::new(
                            position.line,
                            if position.column < 0xFFFF_FFFF {
                                position.column + 1
                            } else {
                                position.column
                            },
                        ),
                    },
                }
            },
            Next::EndOfFile { position } => SyntaxTree {
                root,
                eof: Token::EndOfFile { position },
            },
            Next::EndOfStream { position } => SyntaxTree {
                root,
                eof: Token::EndOfFile { position },
            },
        }
    }

    /// Whether the cursor stands on a closing delimiter that does not match
    /// the innermost open one.
    fn is_rogue_delimiter(&self, next: &Next<&Token>) -> (r: bool) {
        let token = match next {
            Next::Token(token) => *token,
            _ => {
                return false;
            },
        };
        let delim = match Delimiter::of_closing_token(token) {
            Some(delim) => delim,
            None => {
                return false;
            },
        };
        let n = self.delimiter_stack.len();
        if n == 0 {
            return true;
        }
        self.delimiter_stack[n - 1].delimiter != delim.delimiter
    }

    /// Consume and return the next token when it is one of `symbols`,
    /// recording and skipping a rogue closing delimiter first.
    fn match_symbols(&mut self, tokens: &mut TokenProvider, symbols: &[Symbol]) -> (r: Option<
        SymbolToken,
    >)
        requires
            old(tokens).wf(),
        ensures
            final(tokens).wf(),
            final(tokens).spec_tokens() == old(tokens).spec_tokens(),
            old(tokens).spec_idx() <= final(tokens).spec_idx(),
            r is Some ==> old(tokens).spec_idx() < final(tokens).spec_idx(),
            errors_extended(old(self).spec_errors(), final(self).spec_errors()),
    {
        proof {
            old(tokens).wf_facts();
        }
        let mut peeked = tokens.peek();
        if self.is_rogue_delimiter(&peeked) {
            let position = match &peeked {
                Next::Token(t) => t.position(),
                _ => Position::new(0, 0),
            };
            self.error(ParseError::UnmatchedDelimiter { position });
            let _ = tokens.next();
            peeked = tokens.peek();
        }
        let symbol_token: SymbolToken = match peeked {
            Next::Token(Token::Symbol(SymbolToken { position, symbol })) => SymbolToken {
                position: *position,
                symbol: *symbol,
            },
            _ => {
                return None;
            },
        };
        if contains_symbol(symbols, symbol_token.symbol) {
            let _ = tokens.next();
            Some(symbol_token)
        } else {
            None
        }
    }

    /// Parse one expression: the whole grammar hangs off `or`.
    pub(crate) fn expression(&mut self, tokens: &mut TokenProvider) -> (r: Expression)
        requires
            old(tokens).wf(),
        ensures
            final(tokens).wf(),
            final(tokens).spec_tokens() == old(tokens).spec_tokens(),
            old(tokens).spec_idx() <= final(tokens).spec_idx(),
            errors_extended(old(self).spec_errors(), final(self).spec_errors()),
        decreases old(tokens).spec_tokens().len() - old(tokens).spec_idx(), 8int,
    {
        proof {
            old(tokens).wf_facts();
        }
        self.or(tokens)
    }

    /// Parse a chain of `||` operations.
    fn or(&mut self, tokens: &mut TokenProvider) -> (r: Expression)
        requires
            old(tokens).wf(),
        ensures
            final(tokens).wf(),
            final(tokens).spec_tokens() == old(tokens).spec_tokens(),
            old(tokens).spec_idx() <= final(tokens).spec_idx(),
            errors_extended(old(self).spec_errors(), final(self).spec_errors()),
        decreases old(tokens).spec_tokens().len() - old(tokens).spec_idx(), 7int,
    {
        proof {
            old(tokens).wf_facts();
        }
        let mut expression = self.and(tokens);
        loop
            invariant
                tokens.wf(),
                tokens.spec_tokens() == old(tokens).spec_tokens(),
                old(tokens).spec_idx() <= tokens.spec_idx() <= tokens.spec_tokens().len(),
                errors_extended(old(self).spec_errors(), self.spec_errors()),
            decreases tokens.spec_tokens().len() - tokens.spec_idx(),
        {
            let operator = match self.match_symbols(tokens, &[Symbol::DoublePipe]) {
                Some(op) => op,
                None => {
                    break ;
                },
            };
            let right_operand = Box::new(self.and(tokens));
            expression = Expression::Binary {
                left_operand: Box::new(expression),
                operator,
                right_operand,
            };
        }
        expression
    }

    /// Parse a chain of `&&` operations.
    fn and(&mut self, tokens: &mut TokenProvider) -> (r: Expression)
        requires
            old(tokens).wf(),
        ensures
            final(tokens).wf(),
            final(tokens).spec_tokens() == old(tokens).spec_tokens(),
            old(tokens).spec_idx() <= final(tokens).spec_idx(),
            errors_extended(old(self).spec_errors(), final(self).spec_errors()),
        decreases old(tokens).spec_tokens().len() - old(tokens).spec_idx(), 6int,
    {
        proof {
            old(tokens).wf_facts();
        }
        let mut expression = self.comparison(tokens);
        loop
            invariant
                tokens.wf(),
                tokens.spec_tokens() == old(tokens).spec_tokens(),
                old(tokens).spec_idx() <= tokens.spec_idx() <= tokens.spec_tokens().len(),
                errors_extended(old(self).spec_errors(), self.spec_errors()),
            decreases tokens.spec_tokens().len() - tokens.spec_idx(),
        {
            let operator = match self.match_symbols(tokens, &[Symbol::DoubleAmpersand]) {
                Some(op) => op,
                None => {
                    break ;
                },
            };
            let right_operand = Box::new(self.comparison(tokens));
            expression = Expression::Binary {
                left_operand: Box::new(expression),
                operator,
                right_operand,
            };
        }
        expression
    }

    /// Parse a chain of comparison operations.
    fn comparison(&mut self, tokens: &mut TokenProvider) -> (r: Expression)
        requires
            old(tokens).wf(),
        ensures
            final(tokens).wf(),
            final(tokens).spec_tokens() == old(tokens).spec_tokens(),
            old(tokens).spec_idx() <= final(tokens).spec_idx(),
            errors_extended(old(self).spec_errors(), final(self).spec_errors()),
        decreases old(tokens).spec_tokens().len() - old(tokens).spec_idx(), 5int,
    {
        proof {
            old(tokens).wf_facts();
        }
        let mut expression = self.term(tokens);
        loop
            invariant
                tokens.wf(),
                tokens.spec_tokens() == old(tokens).spec_tokens(),
                old(tokens).spec_idx() <= tokens.spec_idx() <= tokens.spec_tokens().len(),
                errors_extended(old(self).spec_errors(), self.spec_errors()),
            decreases tokens.spec_tokens().len() - tokens.spec_idx(),
        {
            let operator = match self.match_symbols(
                tokens,
                &[
                    Symbol::DoubleEquals,
                    Symbol::ExclamationPointEquals,
                    Symbol::LeftAngledBracket,
                    Symbol::RightAngledBracket,
                    Symbol::LeftAngledBracketEquals,
                    Symbol::RightAngledBracketEquals,
                ],
            ) {
                Some(op) => op,
                None => {
                    break ;
                },
            };
            let right_operand = Box::new(self.term(tokens));
            expression = Expression::Binary {
                left_operand: Box::new(expression),
                operator,
                right_operand,
            };
        }
        expression
    }

    /// Parse a chain of additive operations.
    fn term(&mut self, tokens: &mut TokenProvider) -> (r: Expression)
        requires
            old(tokens).wf(),
        ensures
            final(tokens).wf(),
            final(tokens).spec_tokens() == old(tokens).spec_tokens(),
            old(tokens).spec_idx() <= final(tokens).spec_idx(),
            errors_extended(old(self).spec_errors(), final(self).spec_errors()),
        decreases old(tokens).spec_tokens().len() - old(tokens).spec_idx(), 4int,
    {
        proof {
            old(tokens).wf_facts();
        }
        let mut expression = self.factor(tokens);
        loop
            invariant
                tokens.wf(),
                tokens.spec_tokens() == old(tokens).spec_tokens(),
                old(tokens).spec_idx() <= tokens.spec_idx() <= tokens.spec_tokens().len(),
                errors_extended(old(self).spec_errors(), self.spec_errors()),
            decreases tokens.spec_tokens().len() - tokens.spec_idx(),
        {
            let operator = match self.match_symbols(tokens, &[Symbol::Plus, Symbol::Minus]) {
                Some(op) => op,
                None => {
                    break ;
                },
            };
            let right_operand = Box::new(self.factor(tokens));
            expression = Expression::Binary {
                left_operand: Box::new(expression),
                operator,
                right_operand,
            };
        }
        expression
    }

    /// Parse a chain of multiplicative operations.
    fn factor(&mut self, tokens: &mut TokenProvider) -> (r: Expression)
        requires
            old(tokens).wf(),
        ensures
            final(tokens).wf(),
            final(tokens).spec_tokens() == old(tokens).spec_tokens(),
            old(tokens).spec_idx() <= final(tokens).spec_idx(),
            errors_extended(old(self).spec_errors(), final(self).spec_errors()),
        decreases old(tokens).spec_tokens().len() - old(tokens).spec_idx(), 3int,
    {
        proof {
            old(tokens).wf_facts();
        }
        let mut expression = self.unary(tokens);
        loop
            invariant
                tokens.wf(),
                tokens.spec_tokens() == old(tokens).spec_tokens(),
                old(tokens).spec_idx() <= tokens.spec_idx() <= tokens.spec_tokens().len(),
                errors_extended(old(self).spec_errors(), self.spec_errors()),
            decreases tokens.spec_tokens().len() - tokens.spec_idx(),
        {
            let operator = match self.match_symbols(
                tokens,
                &[Symbol::Asterisk, Symbol::ForwardSlash],
            ) {
                Some(op) => op,
                None => {
                    break ;
                },
            };
            let right_operand = Box::new(self.unary(tokens));
            expression = Expression::Binary {
                left_operand: Box::new(expression),
                operator,
                right_operand,
            };
        }
        expression
    }

    /// Parse a prefix operation, or fall through to a primary expression.
    fn unary(&mut self, tokens: &mut TokenProvider) -> (r: Expression)
        requires
            old(tokens).wf(),
        ensures
            final(tokens).wf(),
            final(tokens).spec_tokens() == old(tokens).spec_tokens(),
            old(tokens).spec_idx() <= final(tokens).spec_idx(),
            errors_extended(old(self).spec_errors(), final(self).spec_errors()),
        decreases old(tokens).spec_tokens().len() - old(tokens).spec_idx(), 2int,
    {
        proof {
            old(tokens).wf_facts();
        }
        if let Some(operator) = self.match_symbols(
            tokens,
            &[Symbol::ExclamationPoint, Symbol::Minus],
        ) {
            let operand = Box::new(self.unary(tokens));
            return Expression::Unary { operator, operand };
        }
        self.primary(tokens)
    }

    /// Parse a literal or a parenthesised or braced group. A token that can
    /// start no expression is recorded and yields a unit literal, so that
    /// parsing always produces a tree.
    fn primary(&mut self, tokens: &mut TokenProvider) -> (r: Expression)
        requires
            old(tokens).wf(),
        ensures
            final(tokens).wf(),
            final(tokens).spec_tokens() == old(tokens).spec_tokens(),
            old(tokens).spec_idx() <= final(tokens).spec_idx(),
            errors_extended(old(self).spec_errors(), final(self).spec_errors()),
        decreases old(tokens).spec_tokens().len() - old(tokens).spec_idx(), 1int,
    {
        proof {
            old(tokens).wf_facts();
        }
        let next_token = tokens.next();
        let token = match next_token {
            Next::Token(token) => token,
            Next::EndOfFile { position } => {
                self.error(ParseError::ExpectedExpression { position });
                return Expression::Literal {
                    token: LiteralToken { position, literal: Literal::Void },
                };
            },
            Next::EndOfStream { position } => {
                self.error(ParseError::ExpectedExpression { position });
                return Expression::Literal {
                    token: LiteralToken { position, literal: Literal::Void },
                };
            },
        };
        match token {
            Token::Literal(literal_token) => Expression::Literal { token: literal_token.clone() },
            Token::Symbol(SymbolToken { position, symbol: Symbol::LeftParenthesis }) => {
                self.delimiter_stack.push(
                    Delimiter { delimiter: DelimiterType::Paren, position: *position },
                );
                let operand = Box::new(self.expression(tokens));
                self.pair_delimiter(tokens, Symbol::RightParenthesis);
                Expression::Grouping { operand }
            },
            Token::Symbol(SymbolToken { position, symbol: Symbol::LeftCurlyBracket }) => {
                self.delimiter_stack.push(
                    Delimiter { delimiter: DelimiterType::Curly, position: *position },
                );
                let operand = Box::new(self.expression(tokens));
                self.pair_delimiter(tokens, Symbol::RightCurlyBracket);
                Expression::Grouping { operand }
            },
            other => {
                self.error(ParseError::ExpectedExpression { position: other.position() });
                Expression::Literal {
                    token: LiteralToken { position: other.position(), literal: Literal::Void },
                }
            },
        }
    }

    /// Close the innermost open delimiter: consume the expected closing
    /// symbol, or record the opener as unmatched.
    fn pair_delimiter(&mut self, tokens: &mut TokenProvider, delimiter: Symbol)
        requires
            old(tokens).wf(),
        ensures
            final(tokens).wf(),
            final(tokens).spec_tokens() == old(tokens).spec_tokens(),
            old(tokens).spec_idx() <= final(tokens).spec_idx(),
            errors_extended(old(self).spec_errors(), final(self).spec_errors()),
    {
        proof {
            old(tokens).wf_facts();
        }
        let unmatched = self.delimiter_stack.pop();
        let closes = self.check_delimiter(tokens, delimiter);
        if closes {
            let _ = tokens.next();
        } else {
            let position = match unmatched {
                Some(u) => u.position,
                None => Position::new(0, 0),
            };
            self.error(ParseError::UnmatchedDelimiter { position });
        }
    }

    /// Whether the next token is exactly the expected closing symbol.
    fn check_delimiter(&mut self, tokens: &mut TokenProvider, delimiter: Symbol) -> (r: bool)
        requires
            old(tokens).wf(),
        ensures
            final(tokens).wf(),
            final(tokens).spec_tokens() == old(tokens).spec_tokens(),
            final(tokens).spec_idx() == old(tokens).spec_idx(),
            final(self).spec_errors() == old(self).spec_errors(),
    {
        match tokens.peek() {
            Next::Token(Token::Symbol(symbol_token)) => symbol_token.symbol == delimiter,
            _ => false,
        }
    }

    /// Record one problem.
    fn error(&mut self, error: ParseError)
        ensures
            final(self).spec_errors() == old(self).spec_errors().push(error),
            final(self).delimiter_stack == old(self).delimiter_stack,
    {
        self.errors.push(error);
    }

    /// Skip tokens until a statement boundary: past a semicolon, or to a
    /// keyword that starts a declaration or statement. The error-recovery
    /// hook for future statement forms.
    #[allow(unused)]
    fn synchronize(&mut self, tokens: &mut TokenProvider)
        requires
            old(tokens).wf(),
        ensures
            final(tokens).wf(),
            final(tokens).spec_tokens() == old(tokens).spec_tokens(),
            old(tokens).spec_idx() <= final(tokens).spec_idx(),
            final(self).spec_errors() == old(self).spec_errors(),
    {
        proof {
            old(tokens).wf_facts();
        }
        loop
            invariant
                tokens.wf(),
                tokens.spec_tokens() == old(tokens).spec_tokens(),
                old(tokens).spec_idx() <= tokens.spec_idx() <= tokens.spec_tokens().len(),
                self.spec_errors() == old(self).spec_errors(),
            decreases tokens.spec_tokens().len() - tokens.spec_idx(),
        {
            let token = match tokens.next() {
                Next::Token(token) => token,
                _ => {
                    return ;
                },
            };
            match token {
                Token::Symbol(SymbolToken { symbol: Symbol::Semicolon, .. }) => {
                    return ;
                },
                Token::Keyword(kw) => {
                    match kw.keyword {
                        crate::assembler::keyword::Keyword::If
                        | crate::assembler::keyword::Keyword::For
                        | crate::assembler::keyword::Keyword::While
                        | crate::assembler::keyword::Keyword::Loop
                        | crate::assembler::keyword::Keyword::Return
                        | crate::assembler::keyword::Keyword::Type
                        | crate::assembler::keyword::Keyword::Impl => {
                            return ;
                        },
                        _ => {},
                    }
                },
                _ => {},
            }
        }
    }
}

/// Whether a slice of symbols holds one equal to `s`.
fn contains_symbol(symbols: &[Symbol], s: Symbol) -> (r: bool)
    ensures
        r == symbols@.contains(s),
{
    let n = symbols.len();
    let mut i: usize = 0;
    while i < n
        invariant
            i <= n,
            n == symbols@.len(),
            forall|j: int| 0 <= j < i ==> symbols@[j] != s,
        decreases n - i,
    {
        if symbols[i] == s {
            return true;
        }
        i = i + 1;
    }
    false
}

} // verus!
