use asm_to_pil::instruction_flag;
use asm_to_pil::input_at;
use asm_to_pil::output_at;
use asm_to_pil::output_registers;
use asm_to_pil::return_instruction;
use asm_to_pil::Instruction;
use asm_to_pil::NextAssignment;

#[test]
fn test_instruction_flag() {
    assert_eq!(instruction_flag("test"), "instr_test");
}

#[test]
fn test_output_registers() {
    let expected = vec!["_output_0".to_string(), "_output_1".to_string()];
    assert_eq!(output_registers(2), expected);
}

#[test]
fn test_input_at() {
    assert_eq!(input_at(0), "_input_0");
    assert_eq!(input_at(1), "_input_1");
}

#[test]
fn test_output_at() {
    assert_eq!(output_at(0), "_output_0");
    assert_eq!(output_at(1), "_output_1");
}

#[test]
fn test_return_instruction() {
    let result = return_instruction(2, "pc");
    let expected = Instruction {
        params: vec!["_output_0".to_string(), "_output_1".to_string()],
        body: vec![NextAssignment {
            target: "pc".to_string(),
            value: 0,
        }],
    };
    assert_eq!(result, expected);
}
