//! Tests of the class-file decoder: the byte reader, the constant
//! pool, attributes, and whole class files.

use watertower::parse::attribute::{Attribute, StackMapFrame, VerificationType};
use watertower::parse::classfile::{hex_u32, load_class, ClassFile};
use watertower::parse::constant::{read_constant_pool, Constant, ConstantIndex};
use watertower::parse::error::Error;
use watertower::parse::method::MethodHandle;
use watertower::parse::reader::Reader;

fn pool_bytes(entries: &[&[u8]]) -> Vec<u8> {
    let mut out: Vec<u8> = Vec::new();
    let count = (entries.len() + 1) as u16;
    out.extend_from_slice(&count.to_be_bytes());
    for e in entries {
        out.extend_from_slice(e);
    }
    out
}

/// A minimal class file: two UTF-8 constants (`main`, `Code`) and one
/// static method named `main` whose body is `code`.
fn class_with_main(code: &[u8], max_stack: u16, max_locals: u16) -> Vec<u8> {
    let mut out: Vec<u8> = Vec::new();
    out.extend_from_slice(&0xCAFE_BABEu32.to_be_bytes());
    out.extend_from_slice(&[0x00, 0x00, 0x00, 0x34]); // versions
    out.extend_from_slice(&[0x00, 0x03]); // constant pool count
    out.extend_from_slice(&[0x01, 0x00, 0x04]);
    out.extend_from_slice(b"main");
    out.extend_from_slice(&[0x01, 0x00, 0x04]);
    out.extend_from_slice(b"Code");
    out.extend_from_slice(&[0x00, 0x21]); // class flags
    out.extend_from_slice(&[0x00, 0x00, 0x00, 0x00]); // this, super
    out.extend_from_slice(&[0x00, 0x00]); // interfaces
    out.extend_from_slice(&[0x00, 0x00]); // fields
    out.extend_from_slice(&[0x00, 0x01]); // one method
    out.extend_from_slice(&[0x00, 0x09]); // method flags
    out.extend_from_slice(&[0x00, 0x01, 0x00, 0x01]); // name, descriptor
    out.extend_from_slice(&[0x00, 0x01]); // one attribute
    out.extend_from_slice(&[0x00, 0x02]); // attribute name: "Code"
    let declared = (12 + code.len()) as u32;
    out.extend_from_slice(&declared.to_be_bytes());
    out.extend_from_slice(&max_stack.to_be_bytes());
    out.extend_from_slice(&max_locals.to_be_bytes());
    out.extend_from_slice(&(code.len() as u32).to_be_bytes());
    out.extend_from_slice(code);
    out.extend_from_slice(&[0x00, 0x00]); // exception table
    out.extend_from_slice(&[0x00, 0x00]); // nested attributes
    out.extend_from_slice(&[0x00, 0x00]); // class attributes
    out
}

#[test]
fn reader_reads_big_endian() {
    let data = [0x01u8, 0x02, 0x03, 0x04, 0x05, 0x06, 0x07, 0x08, 0xFF];
    let mut r = Reader::new(&data, 0);
    assert_eq!(r.read_u16("a").unwrap(), 0x0102);
    assert_eq!(r.pos(), 2);
    assert_eq!(r.read_u32("b").unwrap(), 0x03040506);
    assert_eq!(r.pos(), 6);
    assert_eq!(r.read_u8("c").unwrap(), 0x07);
    let mut r2 = Reader::new(&data, 0);
    assert_eq!(r2.read_u64("d").unwrap(), 0x0102030405060708);
    let buf = r2.read_exact(1, "e").unwrap();
    assert_eq!(buf, vec![0xFF]);
}

#[test]
fn reader_reports_the_field_on_eof() {
    let data = [0x01u8];
    let mut r = Reader::new(&data, 0);
    match r.read_u32("magic") {
        Err(Error::Io { msg }) => assert_eq!(msg, "magic"),
        other => panic!("expected an input error, got {:?}", other),
    }
}

#[test]
fn magic_mismatch_is_reported_in_hex() {
    let bytes = [0xDEu8, 0xAD, 0xBE, 0xEF, 0x00, 0x00];
    match load_class(&bytes) {
        Err(Error::Expected { got, expected }) => {
            assert_eq!(got, "0xDEADBEEF");
            assert_eq!(expected, "0xCAFEBABE");
        },
        other => panic!("expected a magic mismatch, got {:?}", other),
    }
}

#[test]
fn hex_rendering() {
    assert_eq!(hex_u32(0), "0x0");
    assert_eq!(hex_u32(0xCAFE_BABE), "0xCAFEBABE");
    assert_eq!(hex_u32(0x1A), "0x1A");
    assert_eq!(hex_u32(0x0010_0000), "0x100000");
}

#[test]
fn long_constant_gets_a_padding_slot() {
    // Three logical entries: an int, a long, an int.
    let bytes = pool_bytes(&[
        &[0x03, 0x00, 0x00, 0x00, 0x07],
        &[0x05, 0x00, 0x00, 0x00, 0x00, 0x00, 0x00, 0x00, 0x09],
        &[0x03, 0x00, 0x00, 0x00, 0x08],
    ]);
    let mut r = Reader::new(&bytes, 0);
    let pool = read_constant_pool(&mut r).unwrap();
    assert_eq!(pool.len(), 4);
    assert!(matches!(pool[0], Constant::Integer(7)));
    assert!(matches!(pool[1], Constant::Long(9)));
    assert!(matches!(pool[2], Constant::Padding));
    assert!(matches!(pool[3], Constant::Integer(8)));
}

#[test]
fn lookup_is_one_based_and_rejects_padding() {
    let bytes = pool_bytes(&[
        &[0x05, 0x00, 0x00, 0x00, 0x00, 0x00, 0x00, 0x00, 0x09],
        &[0x03, 0x00, 0x00, 0x00, 0x08],
    ]);
    let mut r = Reader::new(&bytes, 0);
    let pool = read_constant_pool(&mut r).unwrap();
    assert!(matches!(
        ConstantIndex(1).lookup(&pool),
        Ok(Constant::Long(9))
    ));
    assert!(matches!(
        ConstantIndex(2).lookup(&pool),
        Err(Error::IndexInsideDoubleWidthConstant { index: 2 })
    ));
    assert!(matches!(
        ConstantIndex(3).lookup(&pool),
        Ok(Constant::Integer(8))
    ));
    assert!(matches!(ConstantIndex(0).lookup(&pool), Err(Error::ZeroIndex)));
    assert!(matches!(
        ConstantIndex(9).lookup(&pool),
        Err(Error::OutOfRange { index: 9 })
    ));
}

#[test]
fn utf8_and_refs_parse() {
    let bytes = pool_bytes(&[
        &[0x01, 0x00, 0x02, 0x68, 0x69],             // Utf8 "hi"
        &[0x07, 0x00, 0x01],                         // ClassRef -> 1
        &[0x0A, 0x00, 0x02, 0x00, 0x04],             // MethodRef
        &[0x0C, 0x00, 0x01, 0x00, 0x01],             // NameAndType
        &[0x0F, 0x05, 0x00, 0x03],                   // MethodHandle: invokevirtual
    ]);
    let mut r = Reader::new(&bytes, 0);
    let pool = read_constant_pool(&mut r).unwrap();
    match &pool[0] {
        Constant::Utf8(s) => assert_eq!(s, "hi"),
        other => panic!("expected a string constant, got {:?}", other),
    }
    assert!(matches!(pool[1], Constant::ClassRef(ConstantIndex(1))));
    match &pool[2] {
        Constant::MethodRef(m) => {
            assert_eq!(m.class, ConstantIndex(2));
            assert_eq!(m.name_and_type, ConstantIndex(4));
        },
        other => panic!("expected a method ref, got {:?}", other),
    }
    match &pool[4] {
        Constant::MethodHandleRef(MethodHandle::InvokeVirtual(i)) => {
            assert_eq!(*i, ConstantIndex(3));
        },
        other => panic!("expected a method handle, got {:?}", other),
    }
}

#[test]
fn bad_utf8_is_invalid_string() {
    let bytes = pool_bytes(&[&[0x01, 0x00, 0x01, 0xFF]]);
    let mut r = Reader::new(&bytes, 0);
    assert!(matches!(
        read_constant_pool(&mut r),
        Err(Error::InvalidString)
    ));
}

#[test]
fn unknown_tag_is_rejected() {
    let bytes = pool_bytes(&[&[0x02]]);
    let mut r = Reader::new(&bytes, 0);
    assert!(matches!(
        read_constant_pool(&mut r),
        Err(Error::UnknownTag { tag: 2 })
    ));
}

#[test]
fn bad_method_handle_kind_is_rejected() {
    let bytes = pool_bytes(&[&[0x0F, 0x0A, 0x00, 0x01]]);
    let mut r = Reader::new(&bytes, 0);
    assert!(matches!(
        read_constant_pool(&mut r),
        Err(Error::InvalidMethodHandleKind { kind: 10 })
    ));
}

#[test]
fn get_tag_inverts_the_tag_table() {
    assert_eq!(Constant::Integer(1).get_tag(), Some(3));
    assert_eq!(Constant::Utf8(String::from("x")).get_tag(), Some(1));
    assert_eq!(Constant::Long(1).get_tag(), Some(5));
    assert_eq!(Constant::ClassRef(ConstantIndex(1)).get_tag(), Some(7));
    assert_eq!(Constant::Padding.get_tag(), None);
}

#[test]
fn attribute_length_mismatch_is_reported() {
    // A "Code" attribute whose body consumes twelve bytes but declares
    // eight.
    let pool = vec![Constant::Utf8(String::from("Code"))];
    let attr = [
        0x00, 0x01, // name index
        0x00, 0x00, 0x00, 0x08, // declared length: 8
        0x00, 0x02, // max_stack
        0x00, 0x04, // max_locals
        0x00, 0x00, 0x00, 0x00, // empty code
        0x00, 0x00, // empty exception table
        0x00, 0x00, // no nested attributes
    ];
    let mut r = Reader::new(&attr, 0);
    match Attribute::read(&mut r, &pool) {
        Err(Error::LengthMismatch { length, actual, ty }) => {
            assert_eq!(length, 8);
            assert_eq!(actual, 12);
            assert_eq!(ty, "Code");
        },
        other => panic!("expected a length mismatch, got {:?}", other),
    }
}

#[test]
fn unknown_attribute_names_are_rejected() {
    let pool = vec![Constant::Utf8(String::from("Mystery"))];
    let attr = [0x00, 0x01, 0x00, 0x00, 0x00, 0x00];
    let mut r = Reader::new(&attr, 0);
    match Attribute::read(&mut r, &pool) {
        Err(Error::UnknownAttributeType { attr }) => assert_eq!(attr, "Mystery"),
        other => panic!("expected an unknown attribute, got {:?}", other),
    }
}

#[test]
fn attribute_name_must_be_utf8() {
    let pool = vec![Constant::Integer(5)];
    let attr = [0x00, 0x01, 0x00, 0x00, 0x00, 0x00];
    let mut r = Reader::new(&attr, 0);
    assert!(matches!(
        Attribute::read(&mut r, &pool),
        Err(Error::InvalidAttributeType { attr: Constant::Integer(5) })
    ));
}

#[test]
fn source_file_and_line_numbers_parse() {
    let pool = vec![
        Constant::Utf8(String::from("SourceFile")),
        Constant::Utf8(String::from("LineNumberTable")),
    ];
    let attr = [0x00, 0x01, 0x00, 0x00, 0x00, 0x02, 0x00, 0x07];
    let mut r = Reader::new(&attr, 0);
    match Attribute::read(&mut r, &pool) {
        Ok(Attribute::SourceFile(sf)) => assert_eq!(sf.source_file, ConstantIndex(7)),
        other => panic!("expected a source file attribute, got {:?}", other),
    }
    let attr2 = [
        0x00, 0x02, 0x00, 0x00, 0x00, 0x0A, 0x00, 0x02, 0x00, 0x00, 0x00, 0x05, 0x00, 0x08,
        0x00, 0x06,
    ];
    let mut r2 = Reader::new(&attr2, 0);
    match Attribute::read(&mut r2, &pool) {
        Ok(Attribute::LineNumberTable(t)) => {
            assert_eq!(t.table, vec![(0, 5), (8, 6)]);
        },
        other => panic!("expected a line number table, got {:?}", other),
    }
}

#[test]
fn stack_map_frames_parse_by_discriminator() {
    let pool = vec![Constant::Utf8(String::from("StackMapTable"))];
    let attr = [
        0x00, 0x01, // name
        0x00, 0x00, 0x00, 0x08, // length 8
        0x00, 0x03, // three frames
        0x05, // SameFrame, offset 5
        0x41, 0x01, // SameLocalsOneStackItemFrame, offset 1, Integer
        0xFB, 0x00, 0x09, // SameFrameExtended, offset 9
    ];
    let mut r = Reader::new(&attr, 0);
    match Attribute::read(&mut r, &pool) {
        Ok(Attribute::StackMapTable(t)) => {
            assert_eq!(t.entries.len(), 3);
            match &t.entries[0] {
                StackMapFrame::SameFrame(f) => assert_eq!(f.offset, 5),
                other => panic!("expected a same frame, got {:?}", other),
            }
            match &t.entries[1] {
                StackMapFrame::SameLocalsOneStackItemFrame(f) => {
                    assert_eq!(f.offset, 1);
                    assert_eq!(f.stack_item, VerificationType::Integer);
                },
                other => panic!("expected a one-stack-item frame, got {:?}", other),
            }
            match &t.entries[2] {
                StackMapFrame::SameFrameExtended(f) => assert_eq!(f.offset, 9),
                other => panic!("expected an extended frame, got {:?}", other),
            }
        },
        other => panic!("expected a stack map table, got {:?}", other),
    }
}

#[test]
fn reserved_stack_frame_discriminator_is_rejected() {
    let pool = vec![Constant::Utf8(String::from("StackMapTable"))];
    let attr = [0x00, 0x01, 0x00, 0x00, 0x00, 0x03, 0x00, 0x01, 0x80];
    let mut r = Reader::new(&attr, 0);
    assert!(matches!(
        Attribute::read(&mut r, &pool),
        Err(Error::InvalidStackFrameType { ty: 0x80 })
    ));
}

#[test]
fn bad_verification_type_is_rejected() {
    let pool = vec![Constant::Utf8(String::from("StackMapTable"))];
    let attr = [0x00, 0x01, 0x00, 0x00, 0x00, 0x04, 0x00, 0x01, 0x41, 0x09];
    let mut r = Reader::new(&attr, 0);
    assert!(matches!(
        Attribute::read(&mut r, &pool),
        Err(Error::InvalidVerificationType { ty: 9 })
    ));
}

#[test]
fn whole_class_file_parses() {
    let bytes = class_with_main(&[0x03, 0xAC], 1, 1);
    let class = load_class(&bytes).unwrap();
    assert_eq!(class.major_version, 0x34);
    assert_eq!(class.minor_version, 0);
    assert_eq!(class.constant_pool.len(), 2);
    assert_eq!(class.flags.bits, 0x21);
    assert!(class.flags.contains(watertower::parse::classfile::CLASS_PUBLIC));
    assert!(class.flags.contains(watertower::parse::classfile::CLASS_SUPER));
    assert_eq!(class.methods.len(), 1);
    let method = &class.methods[0];
    assert_eq!(method.name, ConstantIndex(1));
    let code = method.get_code().expect("the method has a body");
    assert_eq!(code.max_stack, 1);
    assert_eq!(code.max_locals, 1);
    assert_eq!(code.code, vec![0x03, 0xAC]);
    assert!(code.exception_table.is_empty());
}

#[test]
fn parsing_is_deterministic() {
    let bytes = class_with_main(&[0x03, 0xAC], 1, 1);
    let a: ClassFile = load_class(&bytes).unwrap();
    let b: ClassFile = load_class(&bytes).unwrap();
    assert_eq!(format!("{:?}", a), format!("{:?}", b));
}

#[test]
fn truncated_class_file_fails_with_the_field_name() {
    let bytes = class_with_main(&[0x03, 0xAC], 1, 1);
    for cut in [2, 6, 9, 20] {
        assert!(load_class(&bytes[..cut]).is_err());
    }
    match load_class(&bytes[..6]) {
        Err(Error::Io { msg }) => assert_eq!(msg, "major_version"),
        other => panic!("expected an input error, got {:?}", other),
    }
}
