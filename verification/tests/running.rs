//! Tests of the interpreter: the opcode table, arithmetic, branches,
//! frames, and whole runs through the class registry.

use watertower::exec::cache::Cache;
use watertower::exec::error::Error;
use watertower::exec::instructions::Instruction;
use watertower::exec::interpreter::{decode, idiv, irem, ldiv, lrem, run_code, Interpreter};
use watertower::exec::value::{StackFrame, Value};
use watertower::parse::attribute::Code;
use watertower::parse::classfile::load_class;
use watertower::parse::constant::ConstantIndex;

fn code(bytes: &[u8], max_stack: u16, max_locals: u16) -> Code {
    Code {
        attribute_name: ConstantIndex(0),
        max_stack,
        max_locals,
        code: bytes.to_vec(),
        exception_table: vec![],
        attributes: vec![],
    }
}

fn run(bytes: &[u8], max_stack: u16, max_locals: u16) -> Result<Option<Value>, Error> {
    run_code(&code(bytes, max_stack, max_locals), Vec::new())
}

/// A minimal class file with one method named `main` whose body is
/// `body` (the same layout `tests/parsing.rs` builds).
fn class_with_main(body: &[u8], max_stack: u16, max_locals: u16) -> Vec<u8> {
    let mut out: Vec<u8> = Vec::new();
    out.extend_from_slice(&0xCAFE_BABEu32.to_be_bytes());
    out.extend_from_slice(&[0x00, 0x00, 0x00, 0x34]);
    out.extend_from_slice(&[0x00, 0x03]);
    out.extend_from_slice(&[0x01, 0x00, 0x04]);
    out.extend_from_slice(b"main");
    out.extend_from_slice(&[0x01, 0x00, 0x04]);
    out.extend_from_slice(b"Code");
    out.extend_from_slice(&[0x00, 0x21]);
    out.extend_from_slice(&[0x00, 0x00, 0x00, 0x00]);
    out.extend_from_slice(&[0x00, 0x00]);
    out.extend_from_slice(&[0x00, 0x00]);
    out.extend_from_slice(&[0x00, 0x01]);
    out.extend_from_slice(&[0x00, 0x09]);
    out.extend_from_slice(&[0x00, 0x01, 0x00, 0x01]);
    out.extend_from_slice(&[0x00, 0x01]);
    out.extend_from_slice(&[0x00, 0x02]);
    let declared = (12 + body.len()) as u32;
    out.extend_from_slice(&declared.to_be_bytes());
    out.extend_from_slice(&max_stack.to_be_bytes());
    out.extend_from_slice(&max_locals.to_be_bytes());
    out.extend_from_slice(&(body.len() as u32).to_be_bytes());
    out.extend_from_slice(body);
    out.extend_from_slice(&[0x00, 0x00]);
    out.extend_from_slice(&[0x00, 0x00]);
    out.extend_from_slice(&[0x00, 0x00]);
    out
}

#[test]
fn opcode_round_trip_on_every_byte() {
    for b in 0..=255u8 {
        if let Some(inst) = Instruction::lookup(b) {
            assert_eq!(inst.opcode(), b);
        }
    }
    // The gaps and the three reserved opcodes.
    assert!(Instruction::lookup(0xCB).is_none());
    assert!(Instruction::lookup(0xFD).is_none());
    assert!(matches!(Instruction::lookup(0xCA), Some(Instruction::BREAKPOINT)));
}

#[test]
fn table_records_arity_and_shape() {
    assert_eq!(Instruction::lookup(0x10).unwrap().arity(), 1); // BIPUSH
    assert_eq!(Instruction::lookup(0x11).unwrap().arity(), 2); // SIPUSH
    assert_eq!(Instruction::lookup(0x19).unwrap().arity(), 1); // ALOAD
    assert_eq!(Instruction::lookup(0x2A).unwrap().arity(), 0); // ALOAD_0
    assert_eq!(Instruction::lookup(0xC8).unwrap().arity(), 4); // GOTO_W
    assert!(Instruction::lookup(0xAA).unwrap().is_varargs());
    assert!(Instruction::lookup(0xAB).unwrap().is_varargs());
    assert!(!Instruction::lookup(0x00).unwrap().is_varargs());
    assert!(Instruction::lookup(0xC4).unwrap().is_wide());
    assert!(!Instruction::lookup(0x60).unwrap().is_wide());
}

#[test]
fn locals_then_add() {
    // ICONST_0, ISTORE_1, ICONST_1, ISTORE_2, ILOAD_1, ILOAD_2, IADD,
    // IRETURN.
    let r = run(&[0x03, 0x3C, 0x04, 0x3D, 0x1B, 0x1C, 0x60, 0xAC], 2, 4);
    assert_eq!(r.unwrap(), Some(Value::Int(1)));
}

#[test]
fn bipush_and_multiply() {
    let r = run(&[0x10, 0x2A, 0x10, 0x03, 0x68, 0xAC], 2, 4);
    assert_eq!(r.unwrap(), Some(Value::Int(126)));
}

#[test]
fn subtraction_is_signed() {
    let r = run(&[0x10, 0xFF, 0x10, 0x01, 0x64, 0xAC], 2, 4);
    assert_eq!(r.unwrap(), Some(Value::Int(-2)));
}

#[test]
fn iinc_loop_sums_zero_through_nine() {
    // sum = 0; i = 0; while i < 10 { sum += i; i += 1 }; return sum.
    let body = [
        0x03, 0x3C, // ICONST_0, ISTORE_1
        0x03, 0x3D, // ICONST_0, ISTORE_2
        0x1C, // ILOAD_2            (offset 4)
        0x10, 0x0A, // BIPUSH 10
        0xA2, 0x00, 0x0D, // IF_ICMPGE +13 -> 20
        0x1B, 0x1C, 0x60, 0x3C, // sum += i
        0x84, 0x02, 0x01, // IINC 2, 1
        0xA7, 0xFF, 0xF3, // GOTO -13 -> 4
        0x1B, 0xAC, // ILOAD_1, IRETURN   (offset 20)
    ];
    assert_eq!(run(&body, 2, 3).unwrap(), Some(Value::Int(45)));
}

#[test]
fn division_by_zero_faults() {
    let r = run(&[0x04, 0x03, 0x6C, 0xAC], 2, 1);
    assert!(matches!(r, Err(Error::ArithmeticFault)));
    let r = run(&[0x04, 0x03, 0x70, 0xAC], 2, 1);
    assert!(matches!(r, Err(Error::ArithmeticFault)));
    // LCONST_1, LCONST_0, LDIV.
    let r = run(&[0x0A, 0x09, 0x6D, 0xAD], 4, 1);
    assert!(matches!(r, Err(Error::ArithmeticFault)));
}

#[test]
fn division_truncates_toward_zero() {
    assert_eq!(idiv(7, 2), 3);
    assert_eq!(idiv(-7, 2), -3);
    assert_eq!(idiv(7, -2), -3);
    assert_eq!(idiv(-7, -2), 3);
    assert_eq!(irem(-7, 2), -1);
    assert_eq!(irem(7, -2), 1);
    assert_eq!(ldiv(-9, 4), -2);
    assert_eq!(lrem(-9, 4), -1);
}

#[test]
fn minimum_over_minus_one_stays_minimum() {
    assert_eq!(idiv(i32::MIN, -1), i32::MIN);
    assert_eq!(irem(i32::MIN, -1), 0);
    assert_eq!(ldiv(i64::MIN, -1), i64::MIN);
    assert_eq!(lrem(i64::MIN, -1), 0);
}

#[test]
fn shift_counts_are_masked() {
    // 1 << 33 == 2: the count is masked to the low five bits.
    let r = run(&[0x04, 0x10, 0x21, 0x78, 0xAC], 2, 1);
    assert_eq!(r.unwrap(), Some(Value::Int(2)));
    // 1 << -1 shifts by 31.
    let r = run(&[0x04, 0x10, 0xFF, 0x78, 0xAC], 2, 1);
    assert_eq!(r.unwrap(), Some(Value::Int(i32::MIN)));
    // -2 >> 1 keeps the sign; -2 >>> 1 does not.
    let r = run(&[0x10, 0xFE, 0x04, 0x7A, 0xAC], 2, 1);
    assert_eq!(r.unwrap(), Some(Value::Int(-1)));
    let r = run(&[0x10, 0xFE, 0x04, 0x7C, 0xAC], 2, 1);
    assert_eq!(r.unwrap(), Some(Value::Int(0x7FFF_FFFF)));
}

#[test]
fn loading_an_uninitialized_local_fails() {
    let r = run(&[0x1B, 0xAC], 1, 2);
    assert!(matches!(r, Err(Error::VariableType("integer", 1))));
}

#[test]
fn storing_past_the_locals_fails() {
    let r = run(&[0x03, 0x3E, 0xAC], 1, 2);
    assert!(matches!(r, Err(Error::VariableOutOfScope)));
}

#[test]
fn long_stores_claim_two_slots() {
    // LCONST_0, LSTORE_0 leaves slot 1 unusable.
    let r = run(&[0x09, 0x3F, 0x1B, 0xAC], 2, 2);
    assert!(matches!(r, Err(Error::VariableType("integer", 1))));
}

#[test]
fn popping_an_empty_stack_fails() {
    assert!(matches!(run(&[0x60, 0xAC], 2, 1), Err(Error::EmptyStack)));
}

#[test]
fn adding_a_reference_is_a_type_error() {
    let r = run(&[0x01, 0x03, 0x60, 0xAC], 2, 1);
    assert!(matches!(r, Err(Error::StackType("integer"))));
}

#[test]
fn pushing_past_max_stack_fails() {
    let r = run(&[0x03, 0x03, 0xAC], 1, 1);
    assert!(matches!(r, Err(Error::GenericError(_))));
}

#[test]
fn reserved_opcodes_are_fatal() {
    assert!(matches!(run(&[0xCA], 1, 1), Err(Error::UnexpectedOpcode(0xCA))));
    assert!(matches!(run(&[0xFE], 1, 1), Err(Error::UnexpectedOpcode(0xFE))));
    assert!(matches!(run(&[0xCB], 1, 1), Err(Error::UnexpectedOpcode(0xCB))));
}

#[test]
fn object_model_opcodes_abort() {
    // ATHROW needs the object model, which the core does not carry.
    assert!(matches!(run(&[0xBF], 1, 1), Err(Error::GenericError(_))));
}

#[test]
fn running_off_the_end_fails() {
    assert!(matches!(run(&[0x03], 1, 1), Err(Error::GenericError(_))));
}

#[test]
fn wide_iinc_uses_sixteen_bit_operands() {
    // ICONST_0, ISTORE_1, WIDE IINC 1 += 256, ILOAD_1, IRETURN.
    let body = [0x03, 0x3C, 0xC4, 0x84, 0x00, 0x01, 0x01, 0x00, 0x1B, 0xAC];
    assert_eq!(run(&body, 1, 2).unwrap(), Some(Value::Int(256)));
}

#[test]
fn long_arithmetic_wraps_and_compares() {
    let r = run(&[0x09, 0x0A, 0x61, 0xAD], 4, 1);
    assert_eq!(r.unwrap(), Some(Value::Long(1)));
    let r = run(&[0x0A, 0x09, 0x94, 0xAC], 4, 1);
    assert_eq!(r.unwrap(), Some(Value::Int(1)));
    let r = run(&[0x09, 0x0A, 0x94, 0xAC], 4, 1);
    assert_eq!(r.unwrap(), Some(Value::Int(-1)));
    let r = run(&[0x09, 0x09, 0x94, 0xAC], 4, 1);
    assert_eq!(r.unwrap(), Some(Value::Int(0)));
}

#[test]
fn stack_manipulation() {
    // DUP doubles the top; 1 + 1 == 2.
    let r = run(&[0x04, 0x59, 0x60, 0xAC], 2, 1);
    assert_eq!(r.unwrap(), Some(Value::Int(2)));
    // SWAP: 3 - 7 after swapping 7 - 3's operands.
    let r = run(&[0x10, 0x07, 0x10, 0x03, 0x5F, 0x64, 0xAC], 2, 1);
    assert_eq!(r.unwrap(), Some(Value::Int(-4)));
    // POP discards the 2 pushed over the 1.
    let r = run(&[0x04, 0x05, 0x57, 0xAC], 2, 1);
    assert_eq!(r.unwrap(), Some(Value::Int(1)));
    // POP2 takes one long.
    let r = run(&[0x04, 0x09, 0x58, 0xAC], 3, 1);
    assert_eq!(r.unwrap(), Some(Value::Int(1)));
    // POP of a long is a category error.
    let r = run(&[0x09, 0x57, 0xAC], 2, 1);
    assert!(matches!(r, Err(Error::StackType(_))));
}

#[test]
fn narrowing_conversions() {
    // 384 as a byte is -128.
    let r = run(&[0x11, 0x01, 0x80, 0x91, 0xAC], 1, 1);
    assert_eq!(r.unwrap(), Some(Value::Int(-128)));
    // -1 as a char is 65535.
    let r = run(&[0x11, 0xFF, 0xFF, 0x92, 0xAC], 1, 1);
    assert_eq!(r.unwrap(), Some(Value::Int(65535)));
    // 65537 as a short is 1.
    let r = run(&[0x04, 0x10, 0x10, 0x78, 0x04, 0x60, 0x93, 0xAC], 2, 1);
    assert_eq!(r.unwrap(), Some(Value::Int(1)));
    // Int to long and back.
    let r = run(&[0x10, 0xFF, 0x85, 0x88, 0xAC], 2, 1);
    assert_eq!(r.unwrap(), Some(Value::Int(-1)));
}

#[test]
fn branches_on_null_and_references() {
    // IFNULL takes the branch for a null reference.
    let body = [0x01, 0xC6, 0x00, 0x05, 0x03, 0xAC, 0x04, 0xAC];
    assert_eq!(run(&body, 1, 1).unwrap(), Some(Value::Int(1)));
    // IF_ACMPEQ: two nulls are the same reference.
    let body = [0x01, 0x01, 0xA5, 0x00, 0x05, 0x03, 0xAC, 0x04, 0xAC];
    assert_eq!(run(&body, 2, 1).unwrap(), Some(Value::Int(1)));
}

#[test]
fn goto_w_sign_extends_from_32_bits() {
    // A forward GOTO to a backward GOTO_W whose target returns 0.
    let body = [0xA7, 0x00, 0x05, 0x03, 0xAC, 0xC8, 0xFF, 0xFF, 0xFF, 0xFE];
    assert_eq!(run(&body, 1, 1).unwrap(), Some(Value::Int(0)));
}

#[test]
fn branch_out_of_range_is_reported() {
    let body = [0xA7, 0xFF, 0x00];
    assert!(matches!(run(&body, 1, 1), Err(Error::GenericError(_))));
}

#[test]
fn monitor_opcodes_are_decoded_no_ops() {
    let body = [0xC2, 0xC3, 0x03, 0xAC];
    assert_eq!(run(&body, 1, 1).unwrap(), Some(Value::Int(0)));
}

#[test]
fn float_and_double_values_move_as_bits() {
    // FCONST_2, FSTORE_1, FLOAD_1, FRETURN.
    let r = run(&[0x0D, 0x44, 0x23, 0xAE], 1, 2);
    assert_eq!(r.unwrap(), Some(Value::Float(0x4000_0000)));
    // DCONST_1, DSTORE_1, DLOAD_1, DRETURN.
    let r = run(&[0x0F, 0x48, 0x27, 0xAF], 2, 3);
    assert_eq!(r.unwrap(), Some(Value::Double(0x3FF0_0000_0000_0000)));
}

#[test]
fn void_return_yields_no_value() {
    assert_eq!(run(&[0xB1], 1, 1).unwrap(), None);
}

#[test]
fn tableswitch_decodes_with_alignment_padding() {
    // At offset zero: three padding bytes, default, low = high = 0,
    // one jump offset; twenty bytes in all.
    let mut body = vec![0xAA, 0x00, 0x00, 0x00];
    body.extend_from_slice(&[0x00, 0x00, 0x00, 0x14]); // default
    body.extend_from_slice(&[0x00, 0x00, 0x00, 0x00]); // low
    body.extend_from_slice(&[0x00, 0x00, 0x00, 0x00]); // high
    body.extend_from_slice(&[0x00, 0x00, 0x00, 0x14]); // one offset
    let (inst, next) = decode(&body, 0).unwrap();
    assert!(matches!(inst, Instruction::TABLESWITCH));
    assert_eq!(next, 20);
}

#[test]
fn arguments_land_in_the_first_locals() {
    // ILOAD_0, ILOAD_1, IADD, IRETURN over two arguments.
    let c = code(&[0x1A, 0x1B, 0x60, 0xAC], 2, 2);
    let r = run_code(&c, vec![Value::Int(40), Value::Int(2)]);
    assert_eq!(r.unwrap(), Some(Value::Int(42)));
}

#[test]
fn frame_reports_its_locals() {
    let frame = StackFrame::create(3, 2);
    assert_eq!(frame.local_variables.len(), 3);
    assert!(matches!(frame.get_variable(2), Some(Value::Unset)));
    assert!(frame.get_variable(3).is_none());
    assert_eq!(frame.max_stack, 2);
}

#[test]
fn registry_runs_the_main_method() {
    let bytes = class_with_main(&[0x03, 0x3C, 0x04, 0x3D, 0x1B, 0x1C, 0x60, 0xAC], 2, 4);
    let class = load_class(&bytes).unwrap();
    let mut interp = Interpreter::new();
    interp.register_class(class, String::from("hello"));
    assert_eq!(interp.run("hello").unwrap(), Some(Value::Int(1)));
}

#[test]
fn missing_class_and_entry_point_are_distinct() {
    let interp = Interpreter::new();
    assert!(matches!(interp.run("hello"), Err(Error::MissingMainClass)));
    // A class whose one method is not named `main`.
    let mut bytes = class_with_main(&[0xB1], 1, 1);
    // Rename the first UTF-8 constant from "main" to "mien".
    let pos = bytes.windows(4).position(|w| w == b"main").unwrap();
    bytes[pos + 1] = b'i';
    bytes[pos + 2] = b'e';
    let class = load_class(&bytes).unwrap();
    let mut interp = Interpreter::new();
    interp.register_class(class, String::from("hello"));
    assert!(matches!(interp.run("hello"), Err(Error::MissingEntryPoint)));
}

#[test]
fn loading_registers_or_wraps_the_parse_error() {
    let bytes = class_with_main(&[0x03, 0xAC], 1, 1);
    let mut interp = Interpreter::new();
    interp
        .load_class_from_bytes(&bytes, String::from("hello"))
        .unwrap();
    assert_eq!(interp.run("hello").unwrap(), Some(Value::Int(0)));
    let bad = [0x00u8, 0x01, 0x02, 0x03];
    match interp.load_class_from_bytes(&bad, String::from("broken")) {
        Err(Error::Parse(watertower::parse::error::Error::Expected { expected, .. })) => {
            assert_eq!(expected, "0xCAFEBABE");
        },
        other => panic!("expected a wrapped parse error, got {:?}", other),
    }
    assert!(matches!(interp.run("broken"), Err(Error::MissingMainClass)));
}

#[test]
fn code_cache_memoizes_method_bodies() {
    let bytes = class_with_main(&[0x03, 0xAC], 1, 1);
    let class = load_class(&bytes).unwrap();
    let mut cache = Cache::new(&class);
    let first = cache.get(&class, 0).expect("the method has a body");
    assert_eq!(first.code, vec![0x03, 0xAC]);
    let again = cache.get(&class, 0).expect("the memo answers again");
    assert_eq!(again.code, vec![0x03, 0xAC]);
    assert!(cache.get(&class, 1).is_none());
}
