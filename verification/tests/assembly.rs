use ccx::codegen::assembly::{
    generate_assembly, parse_func_def, parse_instructions, parse_operand, Instruction, Operand,
};
use ccx::parser::{Ast, Exp, Function, Statement};

#[test]
fn generating_a_simple_program() {
    let ast = Ast {
        func: Function {
            name: "main".to_string(),
            body: Statement::Return(Exp::Constant("789".to_string())),
        },
    };
    let assembly = generate_assembly(ast);
    assert_eq!(assembly.func_def.name, "main");
    assert_eq!(assembly.func_def.instructions.len(), 2);
    assert_eq!(assembly.func_def.instructions[0].to_string(), "movl $789, %eax");
    assert_eq!(assembly.func_def.instructions[1].to_string(), "ret");
}

#[test]
fn parsing_function_def_without_arguments() {
    let fn_def = parse_func_def(Function {
        name: "main".to_string(),
        body: Statement::Return(Exp::Constant("789".to_string())),
    });
    assert_eq!(fn_def.name, "main");
    assert_eq!(fn_def.instructions.len(), 2);
    assert_eq!(fn_def.instructions[0].to_string(), "movl $789, %eax");
    assert_eq!(fn_def.instructions[1].to_string(), "ret");
}

#[test]
fn return_statements_produce_multiple_instructions() {
    let stmt = Statement::Return(Exp::Constant("789".to_string()));
    let instrs = parse_instructions(stmt);
    assert_eq!(instrs.len(), 2);
    assert_eq!(instrs[0].to_string(), "movl $789, %eax");
    assert_eq!(instrs[1].to_string(), "ret");
}

#[test]
fn constants_generate_immediate_values() {
    let imm = parse_operand(Exp::Constant("42".to_string()));
    assert_eq!(imm, Operand::Imm("42".to_string()));
}

#[test]
fn a_return_moves_its_value_to_the_register() {
    let instrs = parse_instructions(Statement::Return(Exp::Constant("7".to_string())));
    assert_eq!(
        instrs,
        vec![
            Instruction::Mov(Operand::Imm("7".to_string()), Operand::Register),
            Instruction::Ret,
        ]
    );
}

#[test]
fn operands_as_text() {
    assert_eq!(Operand::Imm("42".to_string()).to_string(), "$42");
    assert_eq!(Operand::Imm(String::new()).to_string(), "$");
    assert_eq!(Operand::Register.to_string(), "%eax");
}

#[test]
fn instructions_as_text() {
    assert_eq!(Instruction::Ret.to_string(), "ret");
    assert_eq!(
        Instruction::Mov(Operand::Register, Operand::Imm("1".to_string())).to_string(),
        "movl %eax, $1"
    );
}

#[test]
fn operands_and_instructions_compare_by_value() {
    assert_eq!(Operand::Register, Operand::Register);
    assert_ne!(Operand::Register, Operand::Imm("0".to_string()));
    assert_ne!(Operand::Imm("1".to_string()), Operand::Imm("01".to_string()));
    assert_ne!(Instruction::Ret, Instruction::Mov(Operand::Register, Operand::Register));
    assert_ne!(
        Instruction::Mov(Operand::Imm("1".to_string()), Operand::Register),
        Instruction::Mov(Operand::Register, Operand::Imm("1".to_string()))
    );
}

#[test]
fn the_constant_is_not_checked_for_its_range() {
    let big = "99999999999999999999999999999999";
    let imm = parse_operand(Exp::Constant(big.to_string()));
    assert_eq!(imm.to_string(), format!("${}", big));
}
