//! Lexical analysis: from bytes to tokens.

use crate::pattern::{pattern_compiles, pattern_matches, regex_new};
use regex::Regex;
use vstd::prelude::*;
use vstd::string::*;

verus! {

/// The smallest lexical unit of the source text.
#[derive(Debug)]
pub enum Token {
    /// A run of decimal digits.
    Constant(String),
    /// A keyword or a name.
    Identifier(String),
    /// One punctuation character: `;`, `(`, `)`, `{` or `}`.
    Literal(String),
}

/// The mathematical value of a [`Token`].
pub enum TokenView {
    Constant(Seq<char>),
    Identifier(Seq<char>),
    Literal(Seq<char>),
}

impl View for Token {
    type V = TokenView;

    open spec fn view(&self) -> TokenView {
        match self {
            Token::Constant(text) => TokenView::Constant(text@),
            Token::Identifier(text) => TokenView::Identifier(text@),
            Token::Literal(text) => TokenView::Literal(text@),
        }
    }
}

impl PartialEq for Token {
    fn eq(&self, other: &Token) -> (equal: bool) {
        match self {
            Token::Constant(text) => match other {
                Token::Constant(other_text) => *text == *other_text,
                _ => false,
            },
            Token::Identifier(text) => match other {
                Token::Identifier(other_text) => *text == *other_text,
                _ => false,
            },
            Token::Literal(text) => match other {
                Token::Literal(other_text) => *text == *other_text,
                _ => false,
            },
        }
    }
}

impl vstd::std_specs::cmp::PartialEqSpecImpl for Token {
    open spec fn obeys_eq_spec() -> bool {
        true
    }

    open spec fn eq_spec(&self, other: &Token) -> bool {
        self@ == other@
    }
}

impl Clone for Token {
    fn clone(&self) -> (copy: Token)
        ensures
            copy == *self,
    {
        match self {
            Token::Constant(text) => Token::Constant(text.clone()),
            Token::Identifier(text) => Token::Identifier(text.clone()),
            Token::Literal(text) => Token::Literal(text.clone()),
        }
    }
}

/// The values of a sequence of tokens.
pub open spec fn token_views(tokens: Seq<Token>) -> Seq<TokenView> {
    tokens.map_values(|token: Token| token@)
}

/// Why lexing failed.
#[derive(Debug)]
pub enum LexError {
    /// The regex engine rejected this pattern, one of the lexer's own.
    Pattern(String),
    /// This lexeme is neither a constant nor an identifier.
    InvalidLexeme(String),
}

/// The mathematical value of a [`LexError`].
pub enum LexErrorView {
    Pattern(Seq<char>),
    InvalidLexeme(Seq<char>),
}

impl View for LexError {
    type V = LexErrorView;

    open spec fn view(&self) -> LexErrorView {
        match self {
            LexError::Pattern(pattern) => LexErrorView::Pattern(pattern@),
            LexError::InvalidLexeme(text) => LexErrorView::InvalidLexeme(text@),
        }
    }
}

/// The pattern of an identifier: a letter or `_`, then word characters.
pub const IDENTIFIER: &'static str = "^[a-zA-Z_]\\w*$";

/// The pattern of a constant: one or more decimal digits.
pub const CONSTANT: &'static str = "^[0-9]+$";

/// The pattern of a whitespace character.
pub const WHITESPACE: &'static str = "\\s";

/// The first of the lexer's patterns that the regex engine rejects, in the
/// order in which they are compiled.
pub open spec fn rejected_pattern() -> Option<Seq<char>> {
    if !pattern_compiles(IDENTIFIER@) {
        Some(IDENTIFIER@)
    } else if !pattern_compiles(CONSTANT@) {
        Some(CONSTANT@)
    } else if !pattern_compiles(WHITESPACE@) {
        Some(WHITESPACE@)
    } else {
        None
    }
}

/// Whether the text as a whole is a constant.
pub open spec fn is_constant(text: Seq<char>) -> bool {
    pattern_matches(CONSTANT@, text)
}

/// Whether the text as a whole is an identifier.
pub open spec fn is_identifier(text: Seq<char>) -> bool {
    pattern_matches(IDENTIFIER@, text)
}

/// Whether the character is whitespace.
pub open spec fn is_whitespace(ch: char) -> bool {
    pattern_matches(WHITESPACE@, seq![ch])
}

/// A pattern that has been compiled, or the error that names the pattern.
pub fn compiled_or_rejected(pattern: &str, compiled: Result<Regex, regex::Error>) -> (checked:
    Result<Regex, LexError>)
    ensures
        match compiled {
            Ok(re) => checked == Ok::<Regex, LexError>(re),
            Err(_) => checked matches Err(e) && e@ == LexErrorView::Pattern(pattern@),
        },
{
    match compiled {
        Ok(re) => Ok(re),
        Err(_) => Err(LexError::Pattern(String::from_str(pattern))),
    }
}

/// The lexer's three patterns, compiled once.
pub struct Patterns {
    whitespace: Regex,
    identifier: Regex,
    constant: Regex,
}

impl Patterns {
    #[verifier::type_invariant]
    spec fn compiled_from_the_patterns(self) -> bool {
        &&& regex_new(WHITESPACE@) == Ok::<Regex, regex::Error>(self.whitespace)
        &&& regex_new(IDENTIFIER@) == Ok::<Regex, regex::Error>(self.identifier)
        &&& regex_new(CONSTANT@) == Ok::<Regex, regex::Error>(self.constant)
    }

    /// Compiles the patterns. Fails with the first pattern that the
    /// regex engine rejects.
    pub fn new() -> (patterns: Result<Patterns, LexError>)
        ensures
            match patterns {
                Ok(_) => rejected_pattern() is None,
                Err(e) => rejected_pattern() matches Some(p) && e@ == LexErrorView::Pattern(p),
            },
    {
        let identifier = match compiled_or_rejected(IDENTIFIER, Regex::new(IDENTIFIER)) {
            Ok(re) => re,
            Err(e) => { return Err(e); },
        };
        let constant = match compiled_or_rejected(CONSTANT, Regex::new(CONSTANT)) {
            Ok(re) => re,
            Err(e) => { return Err(e); },
        };
        let whitespace = match compiled_or_rejected(WHITESPACE, Regex::new(WHITESPACE)) {
            Ok(re) => re,
            Err(e) => { return Err(e); },
        };
        Ok(Patterns { whitespace, identifier, constant })
    }

    /// Whether the character is whitespace.
    pub fn is_whitespace(&self, ch: char) -> (found: bool)
        ensures
            found == is_whitespace(ch),
    {
        proof {
            use_type_invariant(self);
        }
        let mut haystack = String::new();
        haystack.push(ch);
        self.whitespace.is_match(haystack.as_str())
    }

    /// Whether the text as a whole is a constant.
    pub fn is_constant(&self, text: &str) -> (found: bool)
        ensures
            found == is_constant(text@),
    {
        proof {
            use_type_invariant(self);
        }
        self.constant.is_match(text)
    }

    /// Whether the text as a whole is an identifier.
    pub fn is_identifier(&self, text: &str) -> (found: bool)
        ensures
            found == is_identifier(text@),
    {
        proof {
            use_type_invariant(self);
        }
        self.identifier.is_match(text)
    }
}

/// What the lexer has gathered so far: the characters of the lexeme that
/// is still open, and the tokens that are complete.
pub struct Scan {
    pub pending: Seq<char>,
    pub tokens: Seq<TokenView>,
}

impl Scan {
    /// Nothing read yet.
    pub open spec fn start() -> Scan {
        Scan { pending: Seq::empty(), tokens: Seq::empty() }
    }
}

/// The token for a lexeme, given what the patterns say of it.
pub open spec fn classification(text: Seq<char>, constant: bool, identifier: bool) -> Result<
    TokenView,
    LexErrorView,
> {
    if constant {
        Ok(TokenView::Constant(text))
    } else if identifier {
        Ok(TokenView::Identifier(text))
    } else {
        Err(LexErrorView::InvalidLexeme(text))
    }
}

/// The token for a lexeme.
pub open spec fn classify(text: Seq<char>) -> Result<TokenView, LexErrorView> {
    classification(text, is_constant(text), is_identifier(text))
}

/// Closes the open lexeme, if there is one: it becomes a token, or the
/// error of an invalid lexeme.
pub open spec fn flush(scan: Scan) -> Result<Scan, LexErrorView> {
    if scan.pending.len() == 0 {
        Ok(scan)
    } else {
        match classify(scan.pending) {
            Ok(token) => Ok(Scan { pending: Seq::empty(), tokens: scan.tokens.push(token) }),
            Err(e) => Err(e),
        }
    }
}

/// What a character means to the lexer.
#[derive(Debug, Clone, Copy, PartialEq, Eq, Structural)]
pub enum CharKind {
    /// `;`, `(` or `)`: closes the open lexeme and is a token itself.
    Delimiter,
    /// `{` or `}`: is a token itself, and leaves the open lexeme open.
    Brace,
    /// Closes the open lexeme.
    Blank,
    /// Belongs to a lexeme.
    Lexeme,
}

/// The kind of a character, given whether it is whitespace.
pub open spec fn kind_given(ch: char, whitespace: bool) -> CharKind {
    if ch == ';' || ch == '(' || ch == ')' {
        CharKind::Delimiter
    } else if ch == '{' || ch == '}' {
        CharKind::Brace
    } else if whitespace {
        CharKind::Blank
    } else {
        CharKind::Lexeme
    }
}

/// The kind of a character.
pub open spec fn kind_of(ch: char) -> CharKind {
    kind_given(ch, is_whitespace(ch))
}

/// The token of a punctuation character.
pub open spec fn punctuation(ch: char) -> TokenView {
    TokenView::Literal(seq![ch])
}

/// Reads one byte. The byte stands for the character with its number.
pub open spec fn step(scan: Scan, byte: u8) -> Result<Scan, LexErrorView> {
    let ch = byte as char;
    match kind_of(ch) {
        CharKind::Delimiter => match flush(scan) {
            Ok(closed) => Ok(Scan { tokens: closed.tokens.push(punctuation(ch)), ..closed }),
            Err(e) => Err(e),
        },
        CharKind::Brace => Ok(Scan { tokens: scan.tokens.push(punctuation(ch)), ..scan }),
        CharKind::Blank => flush(scan),
        CharKind::Lexeme => Ok(Scan { pending: scan.pending.push(ch), ..scan }),
    }
}

/// How far lexing came: the state after the last byte that was read
/// without an error, the number of bytes taken from the input, and the
/// error that stopped it, if one did.
pub struct Progress {
    pub scan: Scan,
    pub consumed: nat,
    pub failure: Option<LexErrorView>,
}

/// Reads the bytes in order and stops at the first error. The byte at
/// which it stops counts as consumed.
pub open spec fn run(scan: Scan, bytes: Seq<u8>) -> Progress
    decreases bytes.len(),
{
    if bytes.len() == 0 {
        Progress { scan, consumed: 0, failure: None }
    } else {
        let before = run(scan, bytes.drop_last());
        if before.failure is Some {
            before
        } else {
            match step(before.scan, bytes.last()) {
                Ok(next) => Progress { scan: next, consumed: bytes.len(), failure: None },
                Err(e) => Progress { consumed: bytes.len(), failure: Some(e), ..before },
            }
        }
    }
}

/// Closes the open lexeme at the end of the input, unless lexing has
/// failed before.
pub open spec fn finish(progress: Progress) -> Progress {
    if progress.failure is Some {
        progress
    } else {
        match flush(progress.scan) {
            Ok(closed) => Progress { scan: closed, ..progress },
            Err(e) => Progress { failure: Some(e), ..progress },
        }
    }
}

/// Lexing from a state: the bytes are read and the open lexeme is closed
/// at the end.
pub open spec fn lex(scan: Scan, bytes: Seq<u8>) -> Progress {
    finish(run(scan, bytes))
}

/// The tokens of a source text, or the error at which lexing stops.
pub open spec fn tokenize(bytes: Seq<u8>) -> Result<Seq<TokenView>, LexErrorView> {
    let progress = lex(Scan::start(), bytes);
    match progress.failure {
        Some(e) => Err(e),
        None => Ok(progress.scan.tokens),
    }
}

/// What lexing a source text gives: the error of a pattern that the regex
/// engine rejects, else the tokens of the text or its first invalid
/// lexeme.
pub open spec fn lexed(bytes: Seq<u8>) -> Result<Seq<TokenView>, LexErrorView> {
    match rejected_pattern() {
        Some(pattern) => Err(LexErrorView::Pattern(pattern)),
        None => tokenize(bytes),
    }
}

/// The kind of a character, given whether it is whitespace.
pub fn char_kind(ch: char, whitespace: bool) -> (kind: CharKind)
    ensures
        kind == kind_given(ch, whitespace),
{
    if ch == ';' || ch == '(' || ch == ')' {
        CharKind::Delimiter
    } else if ch == '{' || ch == '}' {
        CharKind::Brace
    } else if whitespace {
        CharKind::Blank
    } else {
        CharKind::Lexeme
    }
}

/// The token for a lexeme, given what the patterns say of it: a constant
/// where the constant pattern matches, else an identifier where the
/// identifier pattern matches, else an error.
pub fn classify_lexeme(text: String, constant: bool, identifier: bool) -> (token: Result<
    Token,
    LexError,
>)
    ensures
        match token {
            Ok(t) => classification(text@, constant, identifier) == Ok::<TokenView, LexErrorView>(
                t@,
            ),
            Err(e) => classification(text@, constant, identifier) == Err::<
                TokenView,
                LexErrorView,
            >(e@),
        },
{
    if constant {
        Ok(Token::Constant(text))
    } else if identifier {
        Ok(Token::Identifier(text))
    } else {
        Err(LexError::InvalidLexeme(text))
    }
}

/// The token of a punctuation character.
pub fn punctuation_token(ch: char) -> (token: Token)
    ensures
        token@ == punctuation(ch),
{
    let mut text = String::new();
    text.push(ch);
    Token::Literal(text)
}

/// A lexer over a source text held in memory.
pub struct Lexer {
    input: Vec<u8>,
    position: usize,
    char_buffer: String,
    tokens: Vec<Token>,
}

impl Lexer {
    /// The bytes that the lexer has not read yet.
    pub closed spec fn unread(&self) -> Seq<u8> {
        if self.position <= self.input.len() {
            self.input@.skip(self.position as int)
        } else {
            Seq::empty()
        }
    }

    /// The characters of the lexeme that is still open.
    pub closed spec fn pending(&self) -> Seq<char> {
        self.char_buffer@
    }

    /// The tokens that are complete.
    pub closed spec fn produced(&self) -> Seq<TokenView> {
        token_views(self.tokens@)
    }

    /// The lexer's state.
    pub open spec fn scan(&self) -> Scan {
        Scan { pending: self.pending(), tokens: self.produced() }
    }

    /// A lexer at the start of `input`.
    pub fn new(input: Vec<u8>) -> (lexer: Lexer)
        ensures
            lexer.unread() == input@,
            lexer.scan() == Scan::start(),
    {
        let lexer = Lexer { input, position: 0, char_buffer: String::new(), tokens: Vec::new() };
        assert(lexer.unread() =~= input@);
        assert(lexer.scan().tokens =~= Scan::start().tokens);
        lexer
    }

    /// Closes the open lexeme, if there is one. On an error the lexer
    /// stays as it is.
    pub fn flush_char_buffer(&mut self, patterns: &Patterns) -> (done: Result<(), LexError>)
        ensures
            final(self).unread() == old(self).unread(),
            match done {
                Ok(_) => flush(old(self).scan()) == Ok::<Scan, LexErrorView>(final(self).scan()),
                Err(e) => {
                    &&& flush(old(self).scan()) == Err::<Scan, LexErrorView>(e@)
                    &&& final(self).scan() == old(self).scan()
                },
            },
    {
        if self.char_buffer.as_str().is_empty() {
            return Ok(());
        }
        let constant = patterns.is_constant(self.char_buffer.as_str());
        let identifier = patterns.is_identifier(self.char_buffer.as_str());
        match classify_lexeme(self.char_buffer.clone(), constant, identifier) {
            Ok(token) => {
                self.tokens.push(token);
                self.char_buffer = String::new();
                assert(final(self).scan().tokens =~= old(self).scan().tokens.push(token@));
                Ok(())
            },
            Err(e) => Err(e),
        }
    }

    /// Reads one byte. On an error the lexer stays as it is.
    pub fn feed(&mut self, byte: u8, patterns: &Patterns) -> (done: Result<(), LexError>)
        ensures
            final(self).unread() == old(self).unread(),
            match done {
                Ok(_) => step(old(self).scan(), byte) == Ok::<Scan, LexErrorView>(
                    final(self).scan(),
                ),
                Err(e) => {
                    &&& step(old(self).scan(), byte) == Err::<Scan, LexErrorView>(e@)
                    &&& final(self).scan() == old(self).scan()
                },
            },
    {
        let ch = byte as char;
        match char_kind(ch, patterns.is_whitespace(ch)) {
            CharKind::Delimiter => {
                match self.flush_char_buffer(patterns) {
                    Ok(_) => {},
                    Err(e) => { return Err(e); },
                }
                let ghost closed = self.scan();
                self.tokens.push(punctuation_token(ch));
                assert(self.scan().tokens =~= closed.tokens.push(punctuation(ch)));
                Ok(())
            },
            CharKind::Brace => {
                self.tokens.push(punctuation_token(ch));
                assert(self.scan().tokens =~= old(self).scan().tokens.push(punctuation(ch)));
                Ok(())
            },
            CharKind::Blank => self.flush_char_buffer(patterns),
            CharKind::Lexeme => {
                self.char_buffer.push(ch);
                Ok(())
            },
        }
    }

    /// Reads the rest of the input and closes the open lexeme at its end.
    /// Returns the tokens gathered so far. At an invalid lexeme the lexer
    /// stops: the byte at which it failed is consumed, and the state is
    /// the one before that byte. Where the regex engine rejects one of the
    /// patterns, nothing is read.
    pub fn generate_tokens(&mut self) -> (tokens: Result<&Vec<Token>, LexError>)
        ensures
            match rejected_pattern() {
                Some(pattern) => {
                    &&& tokens matches Err(e) && e@ == LexErrorView::Pattern(pattern)
                    &&& final(self).scan() == old(self).scan()
                    &&& final(self).unread() == old(self).unread()
                },
                None => {
                    let progress = lex(old(self).scan(), old(self).unread());
                    &&& final(self).scan() == progress.scan
                    &&& final(self).unread() == old(self).unread().skip(progress.consumed as int)
                    &&& match tokens {
                        Ok(tokens) => {
                            &&& progress.failure is None
                            &&& token_views(tokens@) == progress.scan.tokens
                        },
                        Err(e) => progress.failure == Some(e@),
                    }
                },
            },
    {
        let ghost start = self.scan();
        let ghost bytes = self.unread();
        let patterns = match Patterns::new() {
            Ok(patterns) => patterns,
            Err(e) => { return Err(e); },
        };
        let ghost mut taken: int = 0;
        while self.position < self.input.len()
            invariant
                rejected_pattern() is None,
                start == old(self).scan(),
                bytes == old(self).unread(),
                0 <= taken <= bytes.len(),
                self.unread() == bytes.skip(taken),
                run(start, bytes.take(taken)) == (Progress {
                    scan: self.scan(),
                    consumed: taken as nat,
                    failure: None,
                }),
            decreases self.unread().len(),
        {
            let byte = self.input[self.position];
            proof {
                assert(self.unread().len() > 0);
                assert(taken < bytes.len());
                let read = bytes.take(taken + 1);
                assert(byte == bytes.skip(taken)[0]);
                assert(read.drop_last() =~= bytes.take(taken));
                assert(read.last() == byte);
            }
            let ghost unread = self.unread();
            self.position = self.position + 1;
            assert(self.unread() =~= unread.skip(1));
            assert(bytes.skip(taken).skip(1) =~= bytes.skip(taken + 1));
            match self.feed(byte, &patterns) {
                Ok(_) => {},
                Err(e) => {
                    proof {
                        lemma_failure_is_final(start, bytes, (taken + 1) as nat);
                    }
                    return Err(e);
                },
            }
            proof {
                taken = taken + 1;
            }
        }
        assert(bytes.take(taken) =~= bytes);
        match self.flush_char_buffer(&patterns) {
            Ok(_) => Ok(&self.tokens),
            Err(e) => Err(e),
        }
    }

    /// The tokens gathered so far.
    pub fn tokens(&self) -> (tokens: &Vec<Token>)
        ensures
            token_views(tokens@) == self.produced(),
    {
        &self.tokens
    }

    /// Gives up the lexer for the tokens gathered so far.
    pub fn into_tokens(self) -> (tokens: Vec<Token>)
        ensures
            token_views(tokens@) == self.produced(),
    {
        self.tokens
    }
}

/// Once lexing has failed within the first `k` bytes, the bytes after
/// them change nothing.
pub proof fn lemma_failure_is_final(scan: Scan, bytes: Seq<u8>, k: nat)
    requires
        k <= bytes.len(),
        run(scan, bytes.take(k as int)).failure is Some,
    ensures
        run(scan, bytes) == run(scan, bytes.take(k as int)),
    decreases bytes.len(),
{
    if k == bytes.len() {
        assert(bytes.take(k as int) =~= bytes);
    } else {
        assert(bytes.drop_last().take(k as int) =~= bytes.take(k as int));
        lemma_failure_is_final(scan, bytes.drop_last(), k);
    }
}

/// Whether the lexer takes the byte for whitespace: it closes the open
/// lexeme and leaves no token.
pub open spec fn is_blank(byte: u8) -> bool {
    kind_of(byte as char) == CharKind::Blank
}

/// Blank bytes leave a lexer without an open lexeme as it is.
pub proof fn lemma_blanks_are_absorbed(scan: Scan, bytes: Seq<u8>)
    requires
        scan.pending.len() == 0,
        forall|i: int| 0 <= i < bytes.len() ==> is_blank(bytes[i]),
    ensures
        run(scan, bytes) == (Progress { scan, consumed: bytes.len(), failure: None }),
    decreases bytes.len(),
{
    if bytes.len() > 0 {
        lemma_blanks_are_absorbed(scan, bytes.drop_last());
        assert(is_blank(bytes.last()));
    }
}

/// A source text that holds one `;` and besides it only whitespace has
/// exactly one token, the literal `;`.
pub proof fn lemma_whitespace_around_a_semicolon(bytes: Seq<u8>, at: int)
    requires
        0 <= at < bytes.len(),
        bytes[at] as char == ';',
        forall|i: int| 0 <= i < bytes.len() && i != at ==> is_blank(bytes[i]),
    ensures
        tokenize(bytes) == Ok::<Seq<TokenView>, LexErrorView>(seq![punctuation(';')]),
{
    let one = Scan { pending: Seq::empty(), tokens: seq![punctuation(';')] };
    let head = bytes.take(at);
    let upto = bytes.take(at + 1);
    let tail = bytes.skip(at + 1);
    lemma_blanks_are_absorbed(Scan::start(), head);
    assert(upto.drop_last() =~= head);
    assert(upto.last() == bytes[at]);
    assert(Scan::start().tokens.push(punctuation(';')) =~= one.tokens);
    assert(run(Scan::start(), upto) == (Progress {
        scan: one,
        consumed: upto.len(),
        failure: None,
    }));
    lemma_run_continues(Scan::start(), upto, tail);
    lemma_blanks_are_absorbed(one, tail);
    assert(upto + tail =~= bytes);
}

/// Reading a text in two parts: where the first part is read without an
/// error, the second goes on from the state that the first one left.
pub proof fn lemma_run_continues(scan: Scan, first: Seq<u8>, second: Seq<u8>)
    requires
        run(scan, first).failure is None,
    ensures
        run(scan, first + second).scan == run(run(scan, first).scan, second).scan,
        run(scan, first + second).failure == run(run(scan, first).scan, second).failure,
        run(scan, first + second).consumed == run(scan, first).consumed + run(
            run(scan, first).scan,
            second,
        ).consumed,
        run(scan, first).consumed == first.len(),
    decreases second.len(),
{
    lemma_consumed_without_failure(scan, first);
    if second.len() == 0 {
        assert(first + second =~= first);
    } else {
        assert((first + second).drop_last() =~= first + second.drop_last());
        assert((first + second).last() == second.last());
        lemma_run_continues(scan, first, second.drop_last());
    }
}

/// Lexing that does not fail consumes every byte.
pub proof fn lemma_consumed_without_failure(scan: Scan, bytes: Seq<u8>)
    requires
        run(scan, bytes).failure is None,
    ensures
        run(scan, bytes).consumed == bytes.len(),
{
}

} // verus!
