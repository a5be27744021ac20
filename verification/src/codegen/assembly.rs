//! The instruction model, and how the syntax tree is mapped to it.

use crate::parser::{Ast, AstView, Exp, ExpView, Function, FunctionView, Statement, StatementView};
use vstd::prelude::*;
use vstd::string::*;

verus! {

/// What an instruction works on.
#[derive(Debug)]
pub enum Operand {
    /// A constant that stands in the instruction itself.
    Imm(String),
    /// The register that holds a function's return value.
    Register,
}

/// An instruction.
#[derive(Debug)]
pub enum Instruction {
    /// Copies the first operand to the second.
    Mov(Operand, Operand),
    /// Returns to the caller.
    Ret,
}

/// A function: its name and its instructions in order.
#[derive(Debug)]
pub struct FunctionDef {
    pub name: String,
    pub instructions: Vec<Instruction>,
}

/// An assembly unit: one function.
#[derive(Debug)]
pub struct Asm {
    pub func_def: FunctionDef,
}

/// The mathematical value of an [`Operand`].
pub enum OperandView {
    Imm(Seq<char>),
    Register,
}

/// The mathematical value of an [`Instruction`].
pub enum InstructionView {
    Mov(OperandView, OperandView),
    Ret,
}

/// The mathematical value of a [`FunctionDef`].
pub struct FunctionDefView {
    pub name: Seq<char>,
    pub instructions: Seq<InstructionView>,
}

/// The mathematical value of an [`Asm`].
pub struct AsmView {
    pub func_def: FunctionDefView,
}

impl OperandView {
    /// The operand as assembly text.
    pub open spec fn render(self) -> Seq<char> {
        match self {
            OperandView::Imm(value) => "$"@ + value,
            OperandView::Register => "%eax"@,
        }
    }
}

impl InstructionView {
    /// The instruction as assembly text.
    pub open spec fn render(self) -> Seq<char> {
        match self {
            InstructionView::Mov(source, destination) => "movl "@ + source.render() + ", "@
                + destination.render(),
            InstructionView::Ret => "ret"@,
        }
    }
}

impl View for Operand {
    type V = OperandView;

    open spec fn view(&self) -> OperandView {
        match self {
            Operand::Imm(value) => OperandView::Imm(value@),
            Operand::Register => OperandView::Register,
        }
    }
}

impl View for Instruction {
    type V = InstructionView;

    open spec fn view(&self) -> InstructionView {
        match self {
            Instruction::Mov(source, destination) => InstructionView::Mov(source@, destination@),
            Instruction::Ret => InstructionView::Ret,
        }
    }
}

/// The values of a sequence of instructions.
pub open spec fn instruction_views(instructions: Seq<Instruction>) -> Seq<InstructionView> {
    instructions.map_values(|instruction: Instruction| instruction@)
}

impl View for FunctionDef {
    type V = FunctionDefView;

    open spec fn view(&self) -> FunctionDefView {
        FunctionDefView {
            name: self.name@,
            instructions: instruction_views(self.instructions@),
        }
    }
}

impl View for Asm {
    type V = AsmView;

    open spec fn view(&self) -> AsmView {
        AsmView { func_def: self.func_def@ }
    }
}

impl PartialEq for Operand {
    fn eq(&self, other: &Operand) -> (equal: bool) {
        match self {
            Operand::Imm(value) => match other {
                Operand::Imm(other_value) => *value == *other_value,
                _ => false,
            },
            Operand::Register => match other {
                Operand::Register => true,
                _ => false,
            },
        }
    }
}

impl vstd::std_specs::cmp::PartialEqSpecImpl for Operand {
    open spec fn obeys_eq_spec() -> bool {
        true
    }

    open spec fn eq_spec(&self, other: &Operand) -> bool {
        self@ == other@
    }
}

impl PartialEq for Instruction {
    fn eq(&self, other: &Instruction) -> (equal: bool) {
        match self {
            Instruction::Mov(source, destination) => match other {
                Instruction::Mov(other_source, other_destination) => *source == *other_source
                    && *destination == *other_destination,
                _ => false,
            },
            Instruction::Ret => match other {
                Instruction::Ret => true,
                _ => false,
            },
        }
    }
}

impl vstd::std_specs::cmp::PartialEqSpecImpl for Instruction {
    open spec fn obeys_eq_spec() -> bool {
        true
    }

    open spec fn eq_spec(&self, other: &Instruction) -> bool {
        self@ == other@
    }
}

impl Operand {
    /// The operand as assembly text.
    pub fn to_string(&self) -> (text: String)
        ensures
            text@ == self@.render(),
    {
        match self {
            Operand::Imm(value) => {
                let mut text = String::from_str("$");
                text.append(value.as_str());
                text
            },
            Operand::Register => String::from_str("%eax"),
        }
    }
}

impl Instruction {
    /// The instruction as assembly text.
    pub fn to_string(&self) -> (text: String)
        ensures
            text@ == self@.render(),
    {
        match self {
            Instruction::Mov(source, destination) => {
                let mut text = String::from_str("movl ");
                text.append(source.to_string().as_str());
                text.append(", ");
                text.append(destination.to_string().as_str());
                text
            },
            Instruction::Ret => String::from_str("ret"),
        }
    }
}

/// The operand for an expression: a constant becomes an immediate with
/// the same text.
pub open spec fn operand_of(exp: ExpView) -> OperandView {
    match exp {
        ExpView::Constant(value) => OperandView::Imm(value),
    }
}

/// The instructions for a statement: a `return` moves its value to the
/// register and returns.
pub open spec fn instructions_of(statement: StatementView) -> Seq<InstructionView> {
    match statement {
        StatementView::Return(exp) => seq![
            InstructionView::Mov(operand_of(exp), OperandView::Register),
            InstructionView::Ret,
        ],
    }
}

/// The definition for a function: its name, and the instructions for its
/// body.
pub open spec fn function_def_of(function: FunctionView) -> FunctionDefView {
    FunctionDefView { name: function.name, instructions: instructions_of(function.body) }
}

/// The assembly unit for a program.
pub open spec fn assembly_of(ast: AstView) -> AsmView {
    AsmView { func_def: function_def_of(ast.func) }
}

/// The assembly unit for a program.
pub fn generate_assembly(ast: Ast) -> (assembly: Asm)
    ensures
        assembly@ == assembly_of(ast@),
{
    Asm { func_def: parse_func_def(ast.func) }
}

/// The definition for a function.
pub fn parse_func_def(func: Function) -> (def: FunctionDef)
    ensures
        def@ == function_def_of(func@),
{
    FunctionDef { name: func.name, instructions: parse_instructions(func.body) }
}

/// The instructions for a statement.
pub fn parse_instructions(stmt: Statement) -> (instrs: Vec<Instruction>)
    ensures
        instruction_views(instrs@) == instructions_of(stmt@),
{
    let mut instrs = Vec::new();
    match stmt {
        Statement::Return(exp) => {
            instrs.push(Instruction::Mov(parse_operand(exp), Operand::Register));
            instrs.push(Instruction::Ret);
        },
    }
    assert(instruction_views(instrs@) =~= instructions_of(stmt@));
    instrs
}

/// The operand for an expression.
pub fn parse_operand(exp: Exp) -> (operand: Operand)
    ensures
        operand@ == operand_of(exp@),
{
    match exp {
        Exp::Constant(value) => Operand::Imm(value),
    }
}

} // verus!
