//! Canonical register and instruction-flag names.
//!
//! Each of the three namespaces (instruction flags, input registers, output
//! registers) uses its own fixed prefix, so generated names never collide
//! across namespaces, and within a register class the embedded decimal index
//! keeps them distinct.

use vstd::prelude::*;
use vstd::string::StringExecFns;
use crate::decimal::dec_seq;
use crate::decimal::decimal_string;
use crate::decimal::lemma_dec_seq_injective;

verus! {

/// The keyword naming the control-flow-termination instruction.
pub const RETURN_NAME: &'static str = "return";

/// The name of the instruction that resets the machine's registers.
pub const RESET_NAME: &'static str = "_reset";

/// The characters of the flag name for the instruction called `name`: the
/// fixed flag prefix followed by `name`.
pub open spec fn flag_name(name: Seq<char>) -> Seq<char> {
    "instr_"@ + name
}

/// The characters of the name of the input register at index `i`: the fixed
/// input prefix followed by the decimal rendering of `i`.
pub open spec fn input_name(i: nat) -> Seq<char> {
    "_input_"@ + dec_seq(i)
}

/// The characters of the name of the output register at index `i`: the fixed
/// output prefix followed by the decimal rendering of `i`.
pub open spec fn output_name(i: nat) -> Seq<char> {
    "_output_"@ + dec_seq(i)
}

/// The instruction flag name for the instruction called `name`.
pub fn instruction_flag(name: &str) -> (r: String)
    ensures
        r@ == flag_name(name@),
{
    let mut s = String::new();
    s.append("instr_");
    s.append(name);
    proof {
        assert(s@ =~= flag_name(name@));
    }
    s
}

/// The name of the input (read-only) register at index `i`.
pub fn input_at(i: usize) -> (r: String)
    ensures
        r@ == input_name(i as nat),
{
    let mut s = String::new();
    s.append("_input_");
    let digits = decimal_string(i);
    s.append(digits.as_str());
    proof {
        assert(s@ =~= input_name(i as nat));
    }
    s
}

/// The name of the output assignment register at index `i`.
pub fn output_at(i: usize) -> (r: String)
    ensures
        r@ == output_name(i as nat),
{
    let mut s = String::new();
    s.append("_output_");
    let digits = decimal_string(i);
    s.append(digits.as_str());
    proof {
        assert(s@ =~= output_name(i as nat));
    }
    s
}

/// The names of the output assignment registers of a machine with `count`
/// outputs, in ascending index order; empty for `count == 0`.
pub fn output_registers(count: usize) -> (r: Vec<String>)
    ensures
        r@.len() == count,
        forall|k: int| 0 <= k < count ==> r@[k]@ == output_name(k as nat),
{
    let mut v: Vec<String> = Vec::new();
    let mut i: usize = 0;
    while i < count
        invariant
            i <= count,
            v@.len() == i,
            forall|k: int| 0 <= k < i ==> v@[k]@ == output_name(k as nat),
        decreases count - i,
    {
        v.push(output_at(i));
        i = i + 1;
    }
    v
}

/// Within a register class, names are injective: distinct indices always
/// yield distinct input-register names, and distinct output-register names.
pub proof fn lemma_input_names_injective(i: nat, j: nat)
    requires
        i != j,
    ensures
        input_name(i) != input_name(j),
{
    lemma_dec_seq_injective(i, j);
    "_input_"@.lemma_concat_injective(dec_seq(i), dec_seq(j));
}

/// See [`lemma_input_names_injective`]; the same holds of output registers.
pub proof fn lemma_output_names_injective(i: nat, j: nat)
    requires
        i != j,
    ensures
        output_name(i) != output_name(j),
{
    lemma_dec_seq_injective(i, j);
    "_output_"@.lemma_concat_injective(dec_seq(i), dec_seq(j));
}

/// Name generation is deterministic: the contract of [`output_registers`]
/// pins every element of its result, so any two register lists it admits for
/// the same count hold the same names in the same order. The single-name
/// functions state this even more directly, by equating the result's
/// characters with a spec function of the argument alone.
pub proof fn lemma_output_registers_deterministic(a: Seq<Seq<char>>, b: Seq<Seq<char>>, count: nat)
    requires
        a.len() == count,
        forall|k: int| 0 <= k < count ==> a[k] == output_name(k as nat),
        b.len() == count,
        forall|k: int| 0 <= k < count ==> b[k] == output_name(k as nat),
    ensures
        a == b,
{
    assert(a =~= b);
}

/// The three namespaces are pairwise disjoint: no input-register name is an
/// output-register name, and no instruction-flag name is either, whatever the
/// indices and whatever the instruction name, because the fixed prefixes
/// already differ.
pub proof fn lemma_namespaces_disjoint(i: nat, j: nat, name: Seq<char>)
    ensures
        input_name(i) != output_name(j),
        input_name(i) != flag_name(name),
        output_name(j) != flag_name(name),
{
    reveal_strlit("_input_");
    reveal_strlit("_output_");
    reveal_strlit("instr_");
    assert(input_name(i)[1] == 'i');
    assert(output_name(j)[1] == 'o');
    assert(input_name(i)[0] == '_');
    assert(output_name(j)[0] == '_');
    assert(flag_name(name)[0] == 'i');
}

} // verus!
