//! A tiny compiler for one shape of C program: a function without
//! parameters whose body returns an integer constant. The stages are
//! lexing, parsing, code generation and emission of assembly text.

pub mod codegen;
pub mod lexer;
pub mod parser;
pub mod pattern;
pub mod text;

use crate::codegen::assembly::{assembly_of, generate_assembly, Asm, AsmView};
use crate::codegen::emission::{
    assembly_path, emit_code, render_assembly, AsmFile, AsmFileView,
};
use crate::lexer::{lexed, token_views, LexError, LexErrorView, Lexer, Token, TokenView};
use crate::parser::{parse_tokens, Ast, AstView, ParseError, ParseErrorView, Parser};
use vstd::prelude::*;

verus! {

/// The stage after which the compiler stops.
#[derive(Debug, Clone, Copy, PartialEq, Eq, Structural)]
pub enum Stage {
    /// After lexing: the result is the tokens.
    Lex,
    /// After parsing: the result is the syntax tree.
    Parse,
    /// After code generation: the result is the assembly unit.
    Codegen,
    /// After emission: the result is the assembly file.
    Emit,
}

impl Stage {
    /// The stage with a number: 0 is lexing, 1 is parsing, 2 is code
    /// generation, and every other number is emission.
    pub open spec fn of_index(index: i32) -> Stage {
        if index == 0 {
            Stage::Lex
        } else if index == 1 {
            Stage::Parse
        } else if index == 2 {
            Stage::Codegen
        } else {
            Stage::Emit
        }
    }

    /// The stage with a number.
    pub fn from_index(index: i32) -> (stage: Stage)
        ensures
            stage == Stage::of_index(index),
    {
        if index == 0 {
            Stage::Lex
        } else if index == 1 {
            Stage::Parse
        } else if index == 2 {
            Stage::Codegen
        } else {
            Stage::Emit
        }
    }
}

/// What the compiler hands back when it stops.
#[derive(Debug)]
pub enum Output {
    Tokens(Vec<Token>),
    Tree(Ast),
    Assembly(Asm),
    File(AsmFile),
}

/// The mathematical value of an [`Output`].
pub enum OutputView {
    Tokens(Seq<TokenView>),
    Tree(AstView),
    Assembly(AsmView),
    File(AsmFileView),
}

impl View for Output {
    type V = OutputView;

    open spec fn view(&self) -> OutputView {
        match self {
            Output::Tokens(tokens) => OutputView::Tokens(token_views(tokens@)),
            Output::Tree(ast) => OutputView::Tree(ast@),
            Output::Assembly(assembly) => OutputView::Assembly(assembly@),
            Output::File(file) => OutputView::File(file@),
        }
    }
}

/// Why compilation failed.
#[derive(Debug)]
pub enum CompileError {
    Lex(LexError),
    Parse(ParseError),
}

/// The mathematical value of a [`CompileError`].
pub enum CompileErrorView {
    Lex(LexErrorView),
    Parse(ParseErrorView),
}

impl View for CompileError {
    type V = CompileErrorView;

    open spec fn view(&self) -> CompileErrorView {
        match self {
            CompileError::Lex(e) => CompileErrorView::Lex(e@),
            CompileError::Parse(e) => CompileErrorView::Parse(e@),
        }
    }
}

/// What compiling a source text gives: the stages run in order, the first
/// error ends the run, and the run stops after `stage` with what that
/// stage made.
pub open spec fn compiled(input: Seq<u8>, filename: Seq<char>, stage: Stage) -> Result<
    OutputView,
    CompileErrorView,
> {
    match lexed(input) {
        Err(e) => Err(CompileErrorView::Lex(e)),
        Ok(tokens) => if stage == Stage::Lex {
            Ok(OutputView::Tokens(tokens))
        } else {
            match parse_tokens(tokens) {
                Err(e) => Err(CompileErrorView::Parse(e)),
                Ok(ast) => if stage == Stage::Parse {
                    Ok(OutputView::Tree(ast))
                } else if stage == Stage::Codegen {
                    Ok(OutputView::Assembly(assembly_of(ast)))
                } else {
                    Ok(
                        OutputView::File(
                            AsmFileView {
                                path: assembly_path(filename),
                                text: render_assembly(assembly_of(ast)),
                            },
                        ),
                    )
                },
            }
        },
    }
}

/// Whether `returned` is the value of `outcome`.
pub open spec fn gives(
    returned: Result<Output, CompileError>,
    outcome: Result<OutputView, CompileErrorView>,
) -> bool {
    match returned {
        Ok(output) => outcome == Ok::<OutputView, CompileErrorView>(output@),
        Err(e) => outcome == Err::<OutputView, CompileErrorView>(e@),
    }
}

/// Compiles the source text `input`, read from the file `filename`, up to
/// and including `stage`.
pub fn compile(input: Vec<u8>, filename: String, stage: Stage) -> (output: Result<
    Output,
    CompileError,
>)
    ensures
        gives(output, compiled(input@, filename@, stage)),
{
    let mut lexer = Lexer::new(input);
    match lexer.generate_tokens() {
        Ok(_) => {},
        Err(e) => { return Err(CompileError::Lex(e)); },
    }
    let tokens = lexer.into_tokens();
    if stage == Stage::Lex {
        return Ok(Output::Tokens(tokens));
    }
    let mut parser = Parser::new(&tokens);
    let ast = match parser.parse() {
        Ok(ast) => ast,
        Err(e) => { return Err(CompileError::Parse(e)); },
    };
    if stage == Stage::Parse {
        return Ok(Output::Tree(ast));
    }
    let assembly = generate_assembly(ast);
    if stage == Stage::Codegen {
        return Ok(Output::Assembly(assembly));
    }
    Ok(Output::File(emit_code(assembly, filename)))
}

/// Compiling is repeatable: two runs on the same source text, file name
/// and stage give the same result, down to every character of the
/// assembly text.
pub proof fn lemma_compile_is_repeatable(
    input: Seq<u8>,
    filename: Seq<char>,
    stage: Stage,
    first: Result<Output, CompileError>,
    second: Result<Output, CompileError>,
)
    requires
        gives(first, compiled(input, filename, stage)),
        gives(second, compiled(input, filename, stage)),
    ensures
        first is Ok <==> second is Ok,
        first matches Ok(output) ==> second matches Ok(again) && output@ == again@,
        first matches Err(e) ==> second matches Err(again) && e@ == again@,
{
}

} // verus!
