use asm_to_pil::decimal_string;
use asm_to_pil::input_at;
use asm_to_pil::instruction_flag;
use asm_to_pil::output_at;
use asm_to_pil::output_registers;
use asm_to_pil::return_instruction;
use asm_to_pil::return_instruction_text;

#[test]
fn flag_fixture() {
    assert_eq!(instruction_flag("foo"), "instr_foo");
}

#[test]
fn flag_of_empty_name_is_bare_prefix() {
    assert_eq!(instruction_flag(""), "instr_");
}

#[test]
fn decimal_rendering() {
    assert_eq!(decimal_string(0), "0");
    assert_eq!(decimal_string(9), "9");
    assert_eq!(decimal_string(10), "10");
    assert_eq!(decimal_string(90210), "90210");
}

#[test]
fn multi_digit_indices() {
    assert_eq!(input_at(10), "_input_10");
    assert_eq!(output_at(123), "_output_123");
    assert_eq!(input_at(usize::MAX), format!("_input_{}", usize::MAX));
}

#[test]
fn names_distinct_within_class() {
    assert_ne!(input_at(3), input_at(7));
    assert_ne!(output_at(3), output_at(7));
    assert_ne!(input_at(1), input_at(10));
}

#[test]
fn namespaces_disjoint() {
    assert_ne!(input_at(5), output_at(5));
    assert_ne!(instruction_flag("_input_5"), input_at(5));
    assert_ne!(instruction_flag("_output_5"), output_at(5));
}

#[test]
fn output_registers_empty() {
    assert_eq!(output_registers(0), Vec::<String>::new());
}

#[test]
fn output_registers_in_index_order() {
    let names = output_registers(4);
    assert_eq!(names.len(), 4);
    for (i, name) in names.iter().enumerate() {
        assert_eq!(*name, output_at(i));
    }
}

#[test]
fn return_text_two_outputs() {
    assert_eq!(
        return_instruction_text(2, "pc"),
        "_output_0, _output_1 { pc' = 0 }"
    );
}

#[test]
fn return_text_no_outputs() {
    assert_eq!(return_instruction_text(0, "pc"), " { pc' = 0 }");
}

#[test]
fn return_instruction_structure() {
    let ins = return_instruction(3, "program_counter");
    assert_eq!(ins.params, output_registers(3));
    assert_eq!(ins.body.len(), 1);
    assert_eq!(ins.body[0].target, "program_counter");
    assert_eq!(ins.body[0].value, 0);
}

#[test]
fn return_instruction_no_outputs() {
    let ins = return_instruction(0, "pc");
    assert!(ins.params.is_empty());
    assert_eq!(ins.body.len(), 1);
    assert_eq!(ins.body[0].target, "pc");
    assert_eq!(ins.body[0].value, 0);
}

#[test]
fn repeated_calls_agree() {
    assert_eq!(instruction_flag("jump"), instruction_flag("jump"));
    assert_eq!(input_at(11), input_at(11));
    assert_eq!(output_at(11), output_at(11));
    assert_eq!(output_registers(5), output_registers(5));
    assert_eq!(return_instruction_text(3, "pc"), return_instruction_text(3, "pc"));
    assert_eq!(return_instruction(3, "pc"), return_instruction(3, "pc"));
}
