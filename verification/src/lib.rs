//! Naming and canonical-instruction-synthesis layer of an
//! assembly-to-constraint-system lowering pipeline.
//!
//! The crate provides deterministic name generation for three register-file
//! namespaces (input registers, output registers, instruction flags) and the
//! synthesis of the control-flow-termination ("return") instruction, both as
//! the exact instruction text and as a structured instruction value.

mod common;
mod decimal;
mod instruction;

pub use common::RESET_NAME;
pub use common::RETURN_NAME;
pub use common::flag_name;
pub use common::input_at;
pub use common::input_name;
pub use common::instruction_flag;
pub use common::lemma_input_names_injective;
pub use common::lemma_namespaces_disjoint;
pub use common::lemma_output_names_injective;
pub use common::lemma_output_registers_deterministic;
pub use common::output_at;
pub use common::output_name;
pub use common::output_registers;
pub use decimal::dec_digit;
pub use decimal::dec_seq;
pub use decimal::decimal_string;
pub use decimal::lemma_dec_seq_injective;
pub use instruction::Instruction;
pub use instruction::NextAssignment;
pub use instruction::body_model;
pub use instruction::is_return_instruction;
pub use instruction::joined_outputs;
pub use instruction::lemma_return_instruction_deterministic;
pub use instruction::params_model;
pub use instruction::return_instruction;
pub use instruction::return_instruction_text;
pub use instruction::return_text;
