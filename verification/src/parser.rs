//! Parsing by recursive descent: from tokens to the syntax tree.
//!
//! ```text
//! Program    := Function EOF
//! Function   := "int" Identifier "(" "void" ")" "{" Statement "}"
//! Statement  := "return" Exp ";"
//! Exp        := Constant
//! ```

use crate::lexer::{token_views, Token, TokenView};
use vstd::prelude::*;
use vstd::string::*;

verus! {

/// An expression.
#[derive(Debug)]
pub enum Exp {
    /// An integer constant, as it stands in the source text.
    Constant(String),
}

/// A statement.
#[derive(Debug)]
pub enum Statement {
    Return(Exp),
}

/// A function definition.
#[derive(Debug)]
pub struct Function {
    pub name: String,
    pub body: Statement,
}

/// A program: one function.
#[derive(Debug)]
pub struct Ast {
    pub func: Function,
}

/// The mathematical value of an [`Exp`].
pub enum ExpView {
    Constant(Seq<char>),
}

/// The mathematical value of a [`Statement`].
pub enum StatementView {
    Return(ExpView),
}

/// The mathematical value of a [`Function`].
pub struct FunctionView {
    pub name: Seq<char>,
    pub body: StatementView,
}

/// The mathematical value of an [`Ast`].
pub struct AstView {
    pub func: FunctionView,
}

impl ExpView {
    /// The expression as text.
    pub open spec fn render(self) -> Seq<char> {
        match self {
            ExpView::Constant(value) => "Constant("@ + value + ")"@,
        }
    }
}

impl StatementView {
    /// The statement as text.
    pub open spec fn render(self) -> Seq<char> {
        match self {
            StatementView::Return(exp) => "Return("@ + exp.render() + ")"@,
        }
    }
}

impl FunctionView {
    /// The function as text.
    pub open spec fn render(self) -> Seq<char> {
        "Function(\n  name=\""@ + self.name + "\",\n  body="@ + self.body.render() + "\n)"@
    }
}

impl AstView {
    /// The program as text.
    pub open spec fn render(self) -> Seq<char> {
        "Program(\n  "@ + self.func.render() + "\n)"@
    }
}

impl View for Exp {
    type V = ExpView;

    open spec fn view(&self) -> ExpView {
        match self {
            Exp::Constant(value) => ExpView::Constant(value@),
        }
    }
}

impl View for Statement {
    type V = StatementView;

    open spec fn view(&self) -> StatementView {
        match self {
            Statement::Return(exp) => StatementView::Return(exp@),
        }
    }
}

impl View for Function {
    type V = FunctionView;

    open spec fn view(&self) -> FunctionView {
        FunctionView { name: self.name@, body: self.body@ }
    }
}

impl View for Ast {
    type V = AstView;

    open spec fn view(&self) -> AstView {
        AstView { func: self.func@ }
    }
}

impl Exp {
    /// The expression as text.
    pub fn to_string(&self) -> (text: String)
        ensures
            text@ == self@.render(),
    {
        match self {
            Exp::Constant(value) => {
                let mut text = String::from_str("Constant(");
                text.append(value.as_str());
                text.append(")");
                text
            },
        }
    }
}

impl Statement {
    /// The statement as text.
    pub fn to_string(&self) -> (text: String)
        ensures
            text@ == self@.render(),
    {
        match self {
            Statement::Return(exp) => {
                let mut text = String::from_str("Return(");
                text.append(exp.to_string().as_str());
                text.append(")");
                text
            },
        }
    }
}

impl Function {
    /// The function as text.
    pub fn to_string(&self) -> (text: String)
        ensures
            text@ == self@.render(),
    {
        let mut text = String::from_str("Function(\n  name=\"");
        text.append(self.name.as_str());
        text.append("\",\n  body=");
        text.append(self.body.to_string().as_str());
        text.append("\n)");
        text
    }
}

impl Ast {
    /// The program as text.
    pub fn to_string(&self) -> (text: String)
        ensures
            text@ == self@.render(),
    {
        let mut text = String::from_str("Program(\n  ");
        text.append(self.func.to_string().as_str());
        text.append("\n)");
        text
    }
}

/// Why parsing failed.
#[derive(Debug)]
pub enum ParseError {
    /// The input ended where this token was expected.
    MissingToken(Token),
    /// Another token stood where `expected` was expected.
    TokenMismatch { expected: Token, actual: Token },
    /// The input ended where the name of the function was expected.
    MissingFunctionName,
    /// This token stood where the name of the function was expected.
    InvalidFunctionName(Token),
    /// The input ended where a constant was expected.
    MissingConstant,
    /// This token stood where a constant was expected.
    NotAConstant(Token),
    /// This token follows the end of the program.
    UnexpectedToken(Token),
}

/// The mathematical value of a [`ParseError`].
pub enum ParseErrorView {
    MissingToken(TokenView),
    TokenMismatch { expected: TokenView, actual: TokenView },
    MissingFunctionName,
    InvalidFunctionName(TokenView),
    MissingConstant,
    NotAConstant(TokenView),
    UnexpectedToken(TokenView),
}

impl View for ParseError {
    type V = ParseErrorView;

    open spec fn view(&self) -> ParseErrorView {
        match self {
            ParseError::MissingToken(expected) => ParseErrorView::MissingToken(expected@),
            ParseError::TokenMismatch { expected, actual } => ParseErrorView::TokenMismatch {
                expected: expected@,
                actual: actual@,
            },
            ParseError::MissingFunctionName => ParseErrorView::MissingFunctionName,
            ParseError::InvalidFunctionName(token) => ParseErrorView::InvalidFunctionName(token@),
            ParseError::MissingConstant => ParseErrorView::MissingConstant,
            ParseError::NotAConstant(token) => ParseErrorView::NotAConstant(token@),
            ParseError::UnexpectedToken(token) => ParseErrorView::UnexpectedToken(token@),
        }
    }
}

/// Where the cursor stands after a step of the parser, and what the step
/// gave.
pub struct Parsed<T> {
    pub cursor: nat,
    pub outcome: Result<T, ParseErrorView>,
}

impl<T> Parsed<T> {
    /// The same cursor and error, for a step that gives another type.
    pub open spec fn error<U>(self) -> Parsed<U> {
        Parsed { cursor: self.cursor, outcome: Err(self.outcome->Err_0) }
    }
}

/// Whether what a parser's method returned is the value of `outcome`.
pub open spec fn reports<T: View>(
    returned: Result<T, ParseError>,
    outcome: Result<T::V, ParseErrorView>,
) -> bool {
    match returned {
        Ok(value) => outcome == Ok::<T::V, ParseErrorView>(value@),
        Err(e) => outcome == Err::<T::V, ParseErrorView>(e@),
    }
}

/// The keyword or name `text`.
pub open spec fn word(text: Seq<char>) -> TokenView {
    TokenView::Identifier(text)
}

/// The punctuation `text`.
pub open spec fn mark(text: Seq<char>) -> TokenView {
    TokenView::Literal(text)
}

/// Expects `expected` at the cursor. At the end of the input the token is
/// missing and the cursor stays; else the token at the cursor is consumed,
/// whether it is the expected one or not.
pub open spec fn expect_at(tokens: Seq<TokenView>, at: nat, expected: TokenView) -> Parsed<()> {
    if at >= tokens.len() {
        Parsed { cursor: at, outcome: Err(ParseErrorView::MissingToken(expected)) }
    } else if tokens[at as int] != expected {
        Parsed {
            cursor: at + 1,
            outcome: Err(ParseErrorView::TokenMismatch { expected, actual: tokens[at as int] }),
        }
    } else {
        Parsed { cursor: at + 1, outcome: Ok(()) }
    }
}

/// `Exp := Constant`. The token at the cursor is consumed, whether it is
/// a constant or not.
pub open spec fn exp_at(tokens: Seq<TokenView>, at: nat) -> Parsed<ExpView> {
    if at >= tokens.len() {
        Parsed { cursor: at, outcome: Err(ParseErrorView::MissingConstant) }
    } else {
        match tokens[at as int] {
            TokenView::Constant(value) => Parsed {
                cursor: at + 1,
                outcome: Ok(ExpView::Constant(value)),
            },
            other => Parsed { cursor: at + 1, outcome: Err(ParseErrorView::NotAConstant(other)) },
        }
    }
}

/// The name of the function: any identifier. The token at the cursor is
/// consumed, whether it is an identifier or not.
pub open spec fn name_at(tokens: Seq<TokenView>, at: nat) -> Parsed<Seq<char>> {
    if at >= tokens.len() {
        Parsed { cursor: at, outcome: Err(ParseErrorView::MissingFunctionName) }
    } else {
        match tokens[at as int] {
            TokenView::Identifier(name) => Parsed { cursor: at + 1, outcome: Ok(name) },
            other => Parsed {
                cursor: at + 1,
                outcome: Err(ParseErrorView::InvalidFunctionName(other)),
            },
        }
    }
}

/// `Statement := "return" Exp ";"`. The first step that fails ends it.
pub open spec fn statement_at(tokens: Seq<TokenView>, at: nat) -> Parsed<StatementView> {
    let keyword = expect_at(tokens, at, word("return"@));
    let exp = exp_at(tokens, keyword.cursor);
    let semicolon = expect_at(tokens, exp.cursor, mark(";"@));
    if keyword.outcome is Err {
        keyword.error()
    } else if exp.outcome is Err {
        exp.error()
    } else if semicolon.outcome is Err {
        semicolon.error()
    } else {
        Parsed { cursor: semicolon.cursor, outcome: Ok(StatementView::Return(exp.outcome->Ok_0)) }
    }
}

/// `Function := "int" Identifier "(" "void" ")" "{" Statement "}"`. The
/// first step that fails ends it.
pub open spec fn function_at(tokens: Seq<TokenView>, at: nat) -> Parsed<FunctionView> {
    let ty = expect_at(tokens, at, word("int"@));
    let name = name_at(tokens, ty.cursor);
    let open = expect_at(tokens, name.cursor, mark("("@));
    let void = expect_at(tokens, open.cursor, word("void"@));
    let close = expect_at(tokens, void.cursor, mark(")"@));
    let begin = expect_at(tokens, close.cursor, mark("{"@));
    let body = statement_at(tokens, begin.cursor);
    let end = expect_at(tokens, body.cursor, mark("}"@));
    if ty.outcome is Err {
        ty.error()
    } else if name.outcome is Err {
        name.error()
    } else if open.outcome is Err {
        open.error()
    } else if void.outcome is Err {
        void.error()
    } else if close.outcome is Err {
        close.error()
    } else if begin.outcome is Err {
        begin.error()
    } else if body.outcome is Err {
        body.error()
    } else if end.outcome is Err {
        end.error()
    } else {
        Parsed {
            cursor: end.cursor,
            outcome: Ok(FunctionView { name: name.outcome->Ok_0, body: body.outcome->Ok_0 }),
        }
    }
}

/// `Program := Function EOF`. A token after the function is an error, and
/// is not consumed.
pub open spec fn program_at(tokens: Seq<TokenView>, at: nat) -> Parsed<AstView> {
    let function = function_at(tokens, at);
    if function.outcome is Err {
        function.error()
    } else if function.cursor < tokens.len() {
        Parsed {
            cursor: function.cursor,
            outcome: Err(ParseErrorView::UnexpectedToken(tokens[function.cursor as int])),
        }
    } else {
        Parsed { cursor: function.cursor, outcome: Ok(AstView { func: function.outcome->Ok_0 }) }
    }
}

/// The syntax tree of a whole token sequence, or the first error.
pub open spec fn parse_tokens(tokens: Seq<TokenView>) -> Result<AstView, ParseErrorView> {
    program_at(tokens, 0).outcome
}

/// The keyword or name `text` as a token.
pub fn word_token(text: &str) -> (token: Token)
    ensures
        token@ == word(text@),
{
    Token::Identifier(String::from_str(text))
}

/// The punctuation `text` as a token.
pub fn mark_token(text: &str) -> (token: Token)
    ensures
        token@ == mark(text@),
{
    Token::Literal(String::from_str(text))
}

/// A parser over a token sequence, with a cursor that only moves forward.
pub struct Parser<'a> {
    tokens: &'a Vec<Token>,
    current_token: usize,
}

impl<'a> Parser<'a> {
    #[verifier::type_invariant]
    spec fn cursor_within_input(self) -> bool {
        self.current_token <= self.tokens.len()
    }

    /// The tokens that the parser reads.
    pub closed spec fn input(&self) -> Seq<TokenView> {
        token_views(self.tokens@)
    }

    /// The number of tokens consumed so far.
    pub closed spec fn cursor(&self) -> nat {
        self.current_token as nat
    }

    /// A parser at the first of `tokens`.
    pub fn new(tokens: &'a Vec<Token>) -> (parser: Parser<'a>)
        ensures
            parser.input() == token_views(tokens@),
            parser.cursor() == 0,
    {
        Parser { tokens, current_token: 0 }
    }

    /// Parses a program: one function, and then the end of the input.
    pub fn parse(&mut self) -> (ast: Result<Ast, ParseError>)
        ensures
            final(self).input() == old(self).input(),
            final(self).cursor() == program_at(old(self).input(), old(self).cursor()).cursor,
            reports(ast, program_at(old(self).input(), old(self).cursor()).outcome),
    {
        let func = self.parse_function()?;
        proof {
            use_type_invariant(&*self);
        }
        if self.current_token != self.tokens.len() {
            return Err(ParseError::UnexpectedToken(self.tokens[self.current_token].clone()));
        }
        Ok(Ast { func })
    }

    /// Parses an expression: a constant.
    pub fn parse_exp(&mut self) -> (exp: Result<Exp, ParseError>)
        ensures
            final(self).input() == old(self).input(),
            final(self).cursor() == exp_at(old(self).input(), old(self).cursor()).cursor,
            reports(exp, exp_at(old(self).input(), old(self).cursor()).outcome),
    {
        proof {
            use_type_invariant(&*self);
        }
        if self.current_token == self.tokens.len() {
            return Err(ParseError::MissingConstant);
        }
        let token = &self.tokens[self.current_token];
        self.current_token = self.current_token + 1;
        match token {
            Token::Constant(value) => Ok(Exp::Constant(value.clone())),
            other => Err(ParseError::NotAConstant(other.clone())),
        }
    }

    /// Parses a statement: `return`, an expression and `;`.
    pub fn parse_statement(&mut self) -> (statement: Result<Statement, ParseError>)
        ensures
            final(self).input() == old(self).input(),
            final(self).cursor() == statement_at(old(self).input(), old(self).cursor()).cursor,
            reports(statement, statement_at(old(self).input(), old(self).cursor()).outcome),
    {
        self.expect(word_token("return"))?;
        let exp = self.parse_exp()?;
        self.expect(mark_token(";"))?;
        Ok(Statement::Return(exp))
    }

    /// Parses the name of the function: an identifier.
    pub fn parse_name(&mut self) -> (name: Result<String, ParseError>)
        ensures
            final(self).input() == old(self).input(),
            final(self).cursor() == name_at(old(self).input(), old(self).cursor()).cursor,
            reports(name, name_at(old(self).input(), old(self).cursor()).outcome),
    {
        proof {
            use_type_invariant(&*self);
        }
        if self.current_token == self.tokens.len() {
            return Err(ParseError::MissingFunctionName);
        }
        let token = &self.tokens[self.current_token];
        self.current_token = self.current_token + 1;
        match token {
            Token::Identifier(name) => Ok(name.clone()),
            other => Err(ParseError::InvalidFunctionName(other.clone())),
        }
    }

    /// Parses a function: `int`, a name, `(`, `void`, `)`, `{`, a
    /// statement and `}`.
    pub fn parse_function(&mut self) -> (function: Result<Function, ParseError>)
        ensures
            final(self).input() == old(self).input(),
            final(self).cursor() == function_at(old(self).input(), old(self).cursor()).cursor,
            reports(function, function_at(old(self).input(), old(self).cursor()).outcome),
    {
        self.expect(word_token("int"))?;
        let name = self.parse_name()?;
        self.expect(mark_token("("))?;
        self.expect(word_token("void"))?;
        self.expect(mark_token(")"))?;
        self.expect(mark_token("{"))?;
        let body = self.parse_statement()?;
        self.expect(mark_token("}"))?;
        Ok(Function { name, body })
    }

    /// Expects `expected` at the cursor.
    pub fn expect(&mut self, expected: Token) -> (met: Result<(), ParseError>)
        ensures
            final(self).input() == old(self).input(),
            final(self).cursor() == expect_at(
                old(self).input(),
                old(self).cursor(),
                expected@,
            ).cursor,
            reports(met, expect_at(old(self).input(), old(self).cursor(), expected@).outcome),
    {
        proof {
            use_type_invariant(&*self);
        }
        if self.current_token == self.tokens.len() {
            return Err(ParseError::MissingToken(expected));
        }
        let actual = &self.tokens[self.current_token];
        self.current_token = self.current_token + 1;
        if *actual != expected {
            return Err(ParseError::TokenMismatch { expected, actual: actual.clone() });
        }
        Ok(())
    }
}

/// The one shape of token sequence that the grammar admits, for a
/// function `name` that returns the constant `value`.
pub open spec fn program_tokens(name: Seq<char>, value: Seq<char>) -> Seq<TokenView> {
    seq![
        word("int"@),
        word(name),
        mark("("@),
        word("void"@),
        mark(")"@),
        mark("{"@),
        word("return"@),
        TokenView::Constant(value),
        mark(";"@),
        mark("}"@),
    ]
}

/// The syntax tree of a function `name` that returns the constant `value`.
pub open spec fn program_tree(name: Seq<char>, value: Seq<char>) -> AstView {
    AstView {
        func: FunctionView { name, body: StatementView::Return(ExpView::Constant(value)) },
    }
}

/// Every token sequence of the grammar's shape is parsed, to the tree of
/// its name and constant, and all of it is consumed.
pub proof fn lemma_parse_accepts_programs(name: Seq<char>, value: Seq<char>)
    ensures
        program_at(program_tokens(name, value), 0) == (Parsed {
            cursor: 10,
            outcome: Ok::<AstView, ParseErrorView>(program_tree(name, value)),
        }),
{
}

/// Only token sequences of the grammar's shape are parsed: a sequence
/// with a syntax tree is the sequence of the tree's name and constant.
pub proof fn lemma_parse_accepts_only_programs(tokens: Seq<TokenView>, ast: AstView)
    requires
        parse_tokens(tokens) == Ok::<AstView, ParseErrorView>(ast),
    ensures
        ast.func.body matches StatementView::Return(ExpView::Constant(value)) && tokens
            == program_tokens(ast.func.name, value),
{
    let value = ast.func.body->Return_0->Constant_0;
    assert(tokens.len() == 10);
    assert(tokens =~= program_tokens(ast.func.name, value));
}

/// Tokens after a complete function are an error: parsing fails at the
/// first of them.
pub proof fn lemma_trailing_tokens_are_rejected(
    name: Seq<char>,
    value: Seq<char>,
    extra: Seq<TokenView>,
)
    requires
        extra.len() > 0,
    ensures
        parse_tokens(program_tokens(name, value) + extra) == Err::<AstView, ParseErrorView>(
            ParseErrorView::UnexpectedToken(extra[0]),
        ),
{
    let tokens = program_tokens(name, value) + extra;
    assert(forall|i: int| 0 <= i < 10 ==> tokens[i] == program_tokens(name, value)[i]);
    assert(function_at(tokens, 0).cursor == 10);
    assert(tokens[10] == extra[0]);
}

/// A function whose name is not followed by `(` is not parsed. After
/// `int` and a name the error is the missing `(`, or the token that
/// stands in its place.
pub proof fn lemma_parameter_list_must_open(tokens: Seq<TokenView>, at: nat)
    requires
        at + 2 >= tokens.len() || tokens[at + 2 as int] != mark("("@),
    ensures
        function_at(tokens, at).outcome is Err,
        at + 1 < tokens.len() && tokens[at as int] == word("int"@) && tokens[at + 1 as int]
            is Identifier ==> function_at(tokens, at) == (if at + 2 >= tokens.len() {
            Parsed::<FunctionView> {
                cursor: at + 2,
                outcome: Err(ParseErrorView::MissingToken(mark("("@))),
            }
        } else {
            Parsed::<FunctionView> {
                cursor: at + 3,
                outcome: Err(
                    ParseErrorView::TokenMismatch {
                        expected: mark("("@),
                        actual: tokens[at + 2 as int],
                    },
                ),
            }
        }),
{
}

} // verus!
