//! Synthesis of the control-flow-termination ("return") instruction.
//!
//! For a machine with `count` output registers and a program counter named
//! `pc`, the return instruction lists the output registers as parameters and
//! carries one next-cycle assignment resetting the program counter:
//! `_output_0, ..., _output_<count-1> { pc' = 0 }`. The synthesizer produces
//! both that exact instruction text and the structured instruction value a
//! grammar-aware consumer would obtain from it.

use vstd::prelude::*;
use vstd::string::StringExecFns;
use crate::common::output_at;
use crate::common::output_name;
use crate::common::output_registers;

verus! {

/// The comma-joined output-register names `_output_0, ..., _output_<count-1>`;
/// empty for `count == 0`.
pub open spec fn joined_outputs(count: nat) -> Seq<char>
    decreases count,
{
    if count == 0 {
        Seq::<char>::empty()
    } else if count == 1 {
        output_name(0)
    } else {
        joined_outputs((count - 1) as nat) + ", "@ + output_name((count - 1) as nat)
    }
}

/// The characters of the return-instruction text for `count` output registers
/// and a program counter named `pc`: the joined output names followed by the
/// body that resets the program counter on the next cycle.
pub open spec fn return_text(count: nat, pc: Seq<char>) -> Seq<char> {
    joined_outputs(count) + " { "@ + pc + "' = 0 }"@
}

/// The return-instruction text for a machine with `output_count` output
/// registers and a program counter named `pc_name`.
pub fn return_instruction_text(output_count: usize, pc_name: &str) -> (r: String)
    ensures
        r@ == return_text(output_count as nat, pc_name@),
{
    let mut s = String::new();
    let mut i: usize = 0;
    while i < output_count
        invariant
            i <= output_count,
            s@ == joined_outputs(i as nat),
        decreases output_count - i,
    {
        if i > 0 {
            s.append(", ");
        }
        let name = output_at(i);
        s.append(name.as_str());
        proof {
            assert(s@ =~= joined_outputs((i + 1) as nat));
        }
        i = i + 1;
    }
    s.append(" { ");
    s.append(pc_name);
    s.append("' = 0 }");
    proof {
        assert(s@ =~= return_text(output_count as nat, pc_name@));
    }
    s
}

/// A next-cycle assignment `target' = value`: the register named `target`
/// holds the constant `value` in the execution step after the one in which
/// the instruction is active.
#[derive(Debug, PartialEq, Eq)]
pub struct NextAssignment {
    /// The name of the assigned register.
    pub target: String,
    /// The constant assigned to the register's next-cycle value.
    pub value: u64,
}

/// A structured instruction: an ordered register parameter list and a body of
/// next-cycle assignments.
#[derive(Debug, PartialEq, Eq)]
pub struct Instruction {
    /// The register parameters, in order.
    pub params: Vec<String>,
    /// The statements of the instruction body.
    pub body: Vec<NextAssignment>,
}

/// The characters of each register parameter of `ins`, in order.
pub open spec fn params_model(ins: Instruction) -> Seq<Seq<char>> {
    Seq::new(ins.params@.len(), |k: int| ins.params@[k]@)
}

/// The body statements of `ins` as (target characters, assigned constant)
/// pairs, in order.
pub open spec fn body_model(ins: Instruction) -> Seq<(Seq<char>, u64)> {
    Seq::new(ins.body@.len(), |k: int| (ins.body@[k].target@, ins.body@[k].value))
}

/// `ins` is the return instruction of a machine with `count` output registers
/// and a program counter named `pc`: its parameters are the output-register
/// names in ascending index order, and its body is the single next-cycle
/// assignment that resets the program counter to 0.
pub open spec fn is_return_instruction(ins: Instruction, count: nat, pc: Seq<char>) -> bool {
    &&& ins.params@.len() == count
    &&& (forall|k: int| 0 <= k < count ==> ins.params@[k]@ == output_name(k as nat))
    &&& ins.body@.len() == 1
    &&& ins.body@[0].target@ == pc
    &&& ins.body@[0].value == 0
}

/// The return instruction for a machine with `output_count` output registers
/// and a program counter named `pc_name`, as a structured value.
pub fn return_instruction(output_count: usize, pc_name: &str) -> (r: Instruction)
    ensures
        is_return_instruction(r, output_count as nat, pc_name@),
{
    let params = output_registers(output_count);
    let mut target = String::new();
    target.append(pc_name);
    proof {
        assert(target@ =~= pc_name@);
    }
    let mut body: Vec<NextAssignment> = Vec::new();
    body.push(NextAssignment { target, value: 0 });
    Instruction { params, body }
}

/// Synthesis is deterministic: the contract of [`return_instruction`] pins
/// every observable part of its result, so two instructions it admits for the
/// same arguments agree in their register parameters and in their single
/// next-cycle assignment.
pub proof fn lemma_return_instruction_deterministic(
    a: Instruction,
    b: Instruction,
    count: nat,
    pc: Seq<char>,
)
    requires
        is_return_instruction(a, count, pc),
        is_return_instruction(b, count, pc),
    ensures
        params_model(a) == params_model(b),
        body_model(a) == body_model(b),
{
    assert(params_model(a) =~= params_model(b));
    assert(body_model(a) =~= body_model(b));
}

} // verus!
