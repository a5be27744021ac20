use ccx::lexer::{LexError, Token};
use ccx::parser::ParseError;
use ccx::{compile, CompileError, Output, Stage};

fn source(input: &str) -> Vec<u8> {
    input.as_bytes().to_vec()
}

#[test]
fn compile_simple_program() {
    let input = r#"
    int main(void) {
        return 101;
    }
    "#;
    let output = compile(source(input), "integration_test_output.c".to_string(), Stage::from_index(3));

    let expected_output = "\t.globl main\nmain:\n\tmovl $101, %eax\n\tret\n\t.section .note.GNU-stack,\"\",@progbits\n";
    match output {
        Ok(Output::File(file)) => {
            assert_eq!(file.path, "integration_test_output.s");
            assert_eq!(file.text, expected_output);
        },
        other => panic!("{:?}", other),
    }
}

#[test]
fn the_stages_of_a_program_that_returns_42() {
    let program = "int main(void) { return 42; }";
    match compile(source(program), "x.c".to_string(), Stage::Lex) {
        Ok(Output::Tokens(tokens)) => {
            assert_eq!(tokens.len(), 10);
            assert_eq!(tokens[1], Token::Identifier("main".to_string()));
            assert_eq!(tokens[7], Token::Constant("42".to_string()));
        },
        other => panic!("{:?}", other),
    }
    match compile(source(program), "x.c".to_string(), Stage::Parse) {
        Ok(Output::Tree(ast)) => assert_eq!(
            ast.to_string(),
            "Program(\n  Function(\n  name=\"main\",\n  body=Return(Constant(42))\n)\n)"
        ),
        other => panic!("{:?}", other),
    }
    match compile(source(program), "x.c".to_string(), Stage::Codegen) {
        Ok(Output::Assembly(assembly)) => {
            assert_eq!(assembly.func_def.name, "main");
            assert_eq!(assembly.func_def.instructions.len(), 2);
            assert_eq!(assembly.func_def.instructions[0].to_string(), "movl $42, %eax");
            assert_eq!(assembly.func_def.instructions[1].to_string(), "ret");
        },
        other => panic!("{:?}", other),
    }
    match compile(source(program), "x.c".to_string(), Stage::Emit) {
        Ok(Output::File(file)) => {
            assert_eq!(file.path, "x.s");
            assert_eq!(
                file.text,
                "\t.globl main\nmain:\n\tmovl $42, %eax\n\tret\n\t.section .note.GNU-stack,\"\",@progbits\n"
            );
        },
        other => panic!("{:?}", other),
    }
}

#[test]
fn stages_by_number() {
    assert_eq!(Stage::from_index(0), Stage::Lex);
    assert_eq!(Stage::from_index(1), Stage::Parse);
    assert_eq!(Stage::from_index(2), Stage::Codegen);
    assert_eq!(Stage::from_index(3), Stage::Emit);
    assert_eq!(Stage::from_index(-1), Stage::Emit);
    assert_eq!(Stage::from_index(i32::MAX), Stage::Emit);
}

#[test]
fn a_lexing_error_ends_every_stage() {
    for stage in [Stage::Lex, Stage::Parse, Stage::Codegen, Stage::Emit] {
        match compile(source("int 2foo;"), "x.c".to_string(), stage) {
            Err(CompileError::Lex(LexError::InvalidLexeme(text))) => assert_eq!(text, "2foo"),
            other => panic!("{:?}", other),
        }
    }
}

#[test]
fn a_parse_error_ends_the_stages_after_lexing() {
    let program = "int main(void) { return 42; } int";
    match compile(source(program), "x.c".to_string(), Stage::Lex) {
        Ok(Output::Tokens(tokens)) => assert_eq!(tokens.len(), 11),
        other => panic!("{:?}", other),
    }
    for stage in [Stage::Parse, Stage::Codegen, Stage::Emit] {
        match compile(source(program), "x.c".to_string(), stage) {
            Err(CompileError::Parse(ParseError::UnexpectedToken(token))) => {
                assert_eq!(token, Token::Identifier("int".to_string()))
            },
            other => panic!("{:?}", other),
        }
    }
}

#[test]
fn two_runs_give_the_same_file() {
    let program = "int main(void) {\n\treturn 7;\n}\n";
    let first = compile(source(program), "a.c".to_string(), Stage::Emit);
    let second = compile(source(program), "a.c".to_string(), Stage::Emit);
    match (first, second) {
        (Ok(Output::File(first)), Ok(Output::File(second))) => {
            assert_eq!(first.path, second.path);
            assert_eq!(first.text, second.text);
            assert_eq!(first.text.as_bytes(), second.text.as_bytes());
        },
        other => panic!("{:?}", other),
    }
}

#[test]
fn the_rendering_of_a_tree_is_no_program() {
    let program = "int main(void) { return 42; }";
    let rendering = match compile(source(program), "x.c".to_string(), Stage::Parse) {
        Ok(Output::Tree(ast)) => ast.to_string(),
        other => panic!("{:?}", other),
    };
    assert!(compile(rendering.into_bytes(), "x.c".to_string(), Stage::Parse).is_err());
}

#[test]
fn any_name_may_stand_for_main() {
    match compile(source("int f_1(void){return 0;}"), "p.c".to_string(), Stage::Emit) {
        Ok(Output::File(file)) => assert_eq!(
            file.text,
            "\t.globl f_1\nf_1:\n\tmovl $0, %eax\n\tret\n\t.section .note.GNU-stack,\"\",@progbits\n"
        ),
        other => panic!("{:?}", other),
    }
}
