//! Emission: the assembly text of a unit, and the path of the file that
//! is to hold it. Writing the file is left to the caller.

use crate::codegen::assembly::{
    assembly_of, instruction_views, Asm, AsmView, FunctionDef, FunctionDefView, Instruction,
    InstructionView, OperandView,
};
use crate::parser::program_tree;
use vstd::prelude::*;
use vstd::string::*;

verus! {

/// The line that ends every assembly file: it marks the stack as not
/// executable.
pub const TRAILER: &'static str = "\t.section .note.GNU-stack,\"\",@progbits\n";

/// The instructions as text: each on a line of its own, after a tab.
pub open spec fn render_instructions(instructions: Seq<InstructionView>) -> Seq<char>
    decreases instructions.len(),
{
    if instructions.len() == 0 {
        Seq::empty()
    } else {
        render_instructions(instructions.drop_last()) + "\t"@ + instructions.last().render()
            + "\n"@
    }
}

/// The function as text: the header that exports and labels it, then its
/// instructions.
pub open spec fn render_function(def: FunctionDefView) -> Seq<char> {
    "\t.globl "@ + def.name + "\n"@ + def.name + ":\n"@ + render_instructions(def.instructions)
}

/// The whole text of an assembly file.
pub open spec fn render_assembly(assembly: AsmView) -> Seq<char> {
    render_function(assembly.func_def) + TRAILER@
}

/// The path of the assembly file for a source file: the last character
/// of the source file's name gives way to `s`.
pub open spec fn assembly_path(filename: Seq<char>) -> Seq<char> {
    if filename.len() == 0 {
        seq!['s']
    } else {
        filename.drop_last().push('s')
    }
}

/// An assembly file that is yet to be written.
#[derive(Debug)]
pub struct AsmFile {
    pub path: String,
    pub text: String,
}

/// The mathematical value of an [`AsmFile`].
pub struct AsmFileView {
    pub path: Seq<char>,
    pub text: Seq<char>,
}

impl View for AsmFile {
    type V = AsmFileView;

    open spec fn view(&self) -> AsmFileView {
        AsmFileView { path: self.path@, text: self.text@ }
    }
}

/// The assembly file for a unit that was compiled from the source file
/// `filename`.
pub fn emit_code(assembly: Asm, filename: String) -> (file: AsmFile)
    ensures
        file@.path == assembly_path(filename@),
        file@.text == render_assembly(assembly@),
{
    let mut text = format_func_def(assembly.func_def);
    text.append(TRAILER);
    AsmFile { path: asm_filename(filename), text }
}

/// The function as text.
pub fn format_func_def(fn_def: FunctionDef) -> (text: String)
    ensures
        text@ == render_function(fn_def@),
{
    let mut text = String::from_str("\t.globl ");
    text.append(fn_def.name.as_str());
    text.append("\n");
    text.append(fn_def.name.as_str());
    text.append(":\n");
    text.append(format_instructions(fn_def.instructions).as_str());
    text
}

/// The instructions as text.
pub fn format_instructions(instrs: Vec<Instruction>) -> (text: String)
    ensures
        text@ == render_instructions(instruction_views(instrs@)),
{
    let ghost all = instruction_views(instrs@);
    let mut formatted_instrs = String::new();
    let mut i: usize = 0;
    while i < instrs.len()
        invariant
            i <= instrs.len(),
            all == instruction_views(instrs@),
            formatted_instrs@ == render_instructions(all.take(i as int)),
        decreases instrs.len() - i,
    {
        proof {
            let next = all.take(i + 1);
            assert(next.drop_last() =~= all.take(i as int));
            assert(next.last() == instrs@[i as int]@);
        }
        formatted_instrs.append("\t");
        formatted_instrs.append(instrs[i].to_string().as_str());
        formatted_instrs.append("\n");
        i = i + 1;
    }
    assert(all.take(i as int) =~= all);
    formatted_instrs
}

/// The path of the assembly file for a source file.
pub fn asm_filename(filename: String) -> (path: String)
    ensures
        path@ == assembly_path(filename@),
{
    let mut path = filename;
    path.pop();
    path.push('s');
    assert(path@ =~= assembly_path(filename@));
    path
}

/// The assembly text of a function `name` that returns the constant
/// `value`: the header, the move of the constant to the register, the
/// return, and the trailer.
pub proof fn lemma_text_of_a_program(name: Seq<char>, value: Seq<char>)
    ensures
        render_assembly(assembly_of(program_tree(name, value))) == "\t.globl "@ + name + "\n"@
            + name + ":\n"@ + "\tmovl $"@ + value + ", %eax\n"@ + "\tret\n"@ + TRAILER@,
{
    let instructions = seq![
        InstructionView::Mov(OperandView::Imm(value), OperandView::Register),
        InstructionView::Ret,
    ];
    assert(assembly_of(program_tree(name, value)).func_def.instructions == instructions);
    assert(instructions.drop_last() =~= seq![instructions[0]]);
    assert(instructions.drop_last().drop_last() =~= Seq::<InstructionView>::empty());
    reveal_with_fuel(render_instructions, 3);
    reveal_strlit("\t");
    reveal_strlit("\n");
    reveal_strlit("ret");
    reveal_strlit("\tret\n");
    reveal_strlit("movl ");
    reveal_strlit("$");
    reveal_strlit(", ");
    reveal_strlit("%eax");
    reveal_strlit("\tmovl $");
    reveal_strlit(", %eax\n");
    assert(render_instructions(instructions) =~= "\tmovl $"@ + value + ", %eax\n"@ + "\tret\n"@);
    assert(render_assembly(assembly_of(program_tree(name, value))) =~= "\t.globl "@ + name + "\n"@
        + name + ":\n"@ + "\tmovl $"@ + value + ", %eax\n"@ + "\tret\n"@ + TRAILER@);
}

} // verus!
