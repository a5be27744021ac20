use ccx::codegen::assembly::{Asm, FunctionDef, Instruction, Operand};
use ccx::codegen::emission::{
    asm_filename, emit_code, format_func_def, format_instructions, TRAILER,
};

fn returning(name: &str, value: &str) -> FunctionDef {
    FunctionDef {
        name: name.to_string(),
        instructions: vec![
            Instruction::Mov(Operand::Imm(value.to_string()), Operand::Register),
            Instruction::Ret,
        ],
    }
}

#[test]
fn asm_filename_changes_extension() {
    assert_eq!(asm_filename("hello.c".to_string()), "hello.s".to_string());
}

#[test]
fn the_last_character_is_replaced_whatever_it_is() {
    assert_eq!(asm_filename("hello.x".to_string()), "hello.s");
    assert_eq!(asm_filename("hello".to_string()), "hells");
    assert_eq!(asm_filename("c".to_string()), "s");
    assert_eq!(asm_filename("dir/a.\u{e9}".to_string()), "dir/a.s");
}

#[test]
fn an_empty_name_becomes_s() {
    assert_eq!(asm_filename(String::new()), "s");
}

#[test]
fn instructions_stand_on_lines_after_a_tab() {
    assert_eq!(format_instructions(Vec::new()), "");
    assert_eq!(format_instructions(vec![Instruction::Ret]), "\tret\n");
    assert_eq!(
        format_instructions(returning("main", "42").instructions),
        "\tmovl $42, %eax\n\tret\n"
    );
    assert_eq!(
        format_instructions(vec![Instruction::Ret, Instruction::Ret, Instruction::Ret]),
        "\tret\n\tret\n\tret\n"
    );
}

#[test]
fn a_function_starts_with_its_header() {
    assert_eq!(
        format_func_def(returning("main", "42")),
        "\t.globl main\nmain:\n\tmovl $42, %eax\n\tret\n"
    );
    assert_eq!(
        format_func_def(FunctionDef { name: "f".to_string(), instructions: Vec::new() }),
        "\t.globl f\nf:\n"
    );
}

#[test]
fn the_file_ends_with_the_trailer() {
    let file = emit_code(Asm { func_def: returning("main", "42") }, "x.c".to_string());
    assert_eq!(file.path, "x.s");
    assert_eq!(
        file.text,
        "\t.globl main\nmain:\n\tmovl $42, %eax\n\tret\n\t.section .note.GNU-stack,\"\",@progbits\n"
    );
    assert_eq!(TRAILER, "\t.section .note.GNU-stack,\"\",@progbits\n");
}
