//! The instruction table: one variant per opcode byte.
//!
//! For every opcode the table records its mnemonic (the variant name),
//! its immediate-operand arity in bytes, whether it is variable-length
//! (the switches), and whether it is the `WIDE` prefix.  The reserved
//! opcodes (`BREAKPOINT`, `IMPDEP1`, `IMPDEP2`) are in the table so that
//! they decode, but executing them is a fatal runtime error.

use vstd::prelude::*;

verus! {

/// One instruction of the machine, named by its mnemonic.
#[derive(Debug, Copy, Clone, PartialEq, Eq, Structural)]
#[allow(non_camel_case_types)]
pub enum Instruction {
    NOP,
    ACONST_NULL,
    ICONST_M1,
    ICONST_0,
    ICONST_1,
    ICONST_2,
    ICONST_3,
    ICONST_4,
    ICONST_5,
    LCONST_0,
    LCONST_1,
    FCONST_0,
    FCONST_1,
    FCONST_2,
    DCONST_0,
    DCONST_1,
    BIPUSH,
    SIPUSH,
    LDC,
    LDC_W,
    LDC2_W,
    ILOAD,
    LLOAD,
    FLOAD,
    DLOAD,
    ALOAD,
    ILOAD_0,
    ILOAD_1,
    ILOAD_2,
    ILOAD_3,
    LLOAD_0,
    LLOAD_1,
    LLOAD_2,
    LLOAD_3,
    FLOAD_0,
    FLOAD_1,
    FLOAD_2,
    FLOAD_3,
    DLOAD_0,
    DLOAD_1,
    DLOAD_2,
    DLOAD_3,
    ALOAD_0,
    ALOAD_1,
    ALOAD_2,
    ALOAD_3,
    IALOAD,
    LALOAD,
    FALOAD,
    DALOAD,
    AALOAD,
    BALOAD,
    CALOAD,
    SALOAD,
    ISTORE,
    LSTORE,
    FSTORE,
    DSTORE,
    ASTORE,
    ISTORE_0,
    ISTORE_1,
    ISTORE_2,
    ISTORE_3,
    LSTORE_0,
    LSTORE_1,
    LSTORE_2,
    LSTORE_3,
    FSTORE_0,
    FSTORE_1,
    FSTORE_2,
    FSTORE_3,
    DSTORE_0,
    DSTORE_1,
    DSTORE_2,
    DSTORE_3,
    ASTORE_0,
    ASTORE_1,
    ASTORE_2,
    ASTORE_3,
    IASTORE,
    LASTORE,
    FASTORE,
    DASTORE,
    AASTORE,
    BASTORE,
    CASTORE,
    SASTORE,
    POP,
    POP2,
    DUP,
    DUP_X1,
    DUP_X2,
    DUP2,
    DUP2_X1,
    DUP2_X2,
    SWAP,
    IADD,
    LADD,
    FADD,
    DADD,
    ISUB,
    LSUB,
    FSUB,
    DSUB,
    IMUL,
    LMUL,
    FMUL,
    DMUL,
    IDIV,
    LDIV,
    FDIV,
    DDIV,
    IREM,
    LREM,
    FREM,
    DREM,
    INEG,
    LNEG,
    FNEG,
    DNEG,
    ISHL,
    LSHL,
    ISHR,
    LSHR,
    IUSHR,
    LUSHR,
    IAND,
    LAND,
    IOR,
    LOR,
    IXOR,
    LXOR,
    IINC,
    I2L,
    I2F,
    I2D,
    L2I,
    L2F,
    L2D,
    F2I,
    F2L,
    F2D,
    D2I,
    D2L,
    D2F,
    I2B,
    I2C,
    I2S,
    LCMP,
    FCMPL,
    FCMPG,
    DCMPL,
    DCMPG,
    IFEQ,
    IFNE,
    IFLT,
    IFGE,
    IFGT,
    IFLE,
    IF_ICMPEQ,
    IF_ICMPNE,
    IF_ICMPLT,
    IF_ICMPGE,
    IF_ICMPGT,
    IF_ICMPLE,
    IF_ACMPEQ,
    IF_ACMPNE,
    GOTO,
    JSR,
    RET,
    TABLESWITCH,
    LOOKUPSWITCH,
    IRETURN,
    LRETURN,
    FRETURN,
    DRETURN,
    ARETURN,
    RETURN,
    GETSTATIC,
    PUTSTATIC,
    GETFIELD,
    PUTFIELD,
    INVOKEVIRTUAL,
    INVOKESPECIAL,
    INVOKESTATIC,
    INVOKEINTERFACE,
    INVOKEDYNAMIC,
    NEW,
    NEWARRAY,
    ANEWARRAY,
    ARRAYLENGTH,
    ATHROW,
    CHECKCAST,
    INSTANCEOF,
    MONITORENTER,
    MONITOREXIT,
    WIDE,
    MULTIANEWARRAY,
    IFNULL,
    IFNONNULL,
    GOTO_W,
    JSR_W,
    BREAKPOINT,
    IMPDEP1,
    IMPDEP2,
}

/// The instruction a byte decodes to, if the byte is a known opcode.
pub open spec fn spec_lookup(opcode: u8) -> Option<Instruction> {
    match opcode {
        0x00u8 => Some(Instruction::NOP),
        0x01u8 => Some(Instruction::ACONST_NULL),
        0x02u8 => Some(Instruction::ICONST_M1),
        0x03u8 => Some(Instruction::ICONST_0),
        0x04u8 => Some(Instruction::ICONST_1),
        0x05u8 => Some(Instruction::ICONST_2),
        0x06u8 => Some(Instruction::ICONST_3),
        0x07u8 => Some(Instruction::ICONST_4),
        0x08u8 => Some(Instruction::ICONST_5),
        0x09u8 => Some(Instruction::LCONST_0),
        0x0Au8 => Some(Instruction::LCONST_1),
        0x0Bu8 => Some(Instruction::FCONST_0),
        0x0Cu8 => Some(Instruction::FCONST_1),
        0x0Du8 => Some(Instruction::FCONST_2),
        0x0Eu8 => Some(Instruction::DCONST_0),
        0x0Fu8 => Some(Instruction::DCONST_1),
        0x10u8 => Some(Instruction::BIPUSH),
        0x11u8 => Some(Instruction::SIPUSH),
        0x12u8 => Some(Instruction::LDC),
        0x13u8 => Some(Instruction::LDC_W),
        0x14u8 => Some(Instruction::LDC2_W),
        0x15u8 => Some(Instruction::ILOAD),
        0x16u8 => Some(Instruction::LLOAD),
        0x17u8 => Some(Instruction::FLOAD),
        0x18u8 => Some(Instruction::DLOAD),
        0x19u8 => Some(Instruction::ALOAD),
        0x1Au8 => Some(Instruction::ILOAD_0),
        0x1Bu8 => Some(Instruction::ILOAD_1),
        0x1Cu8 => Some(Instruction::ILOAD_2),
        0x1Du8 => Some(Instruction::ILOAD_3),
        0x1Eu8 => Some(Instruction::LLOAD_0),
        0x1Fu8 => Some(Instruction::LLOAD_1),
        0x20u8 => Some(Instruction::LLOAD_2),
        0x21u8 => Some(Instruction::LLOAD_3),
        0x22u8 => Some(Instruction::FLOAD_0),
        0x23u8 => Some(Instruction::FLOAD_1),
        0x24u8 => Some(Instruction::FLOAD_2),
        0x25u8 => Some(Instruction::FLOAD_3),
        0x26u8 => Some(Instruction::DLOAD_0),
        0x27u8 => Some(Instruction::DLOAD_1),
        0x28u8 => Some(Instruction::DLOAD_2),
        0x29u8 => Some(Instruction::DLOAD_3),
        0x2Au8 => Some(Instruction::ALOAD_0),
        0x2Bu8 => Some(Instruction::ALOAD_1),
        0x2Cu8 => Some(Instruction::ALOAD_2),
        0x2Du8 => Some(Instruction::ALOAD_3),
        0x2Eu8 => Some(Instruction::IALOAD),
        0x2Fu8 => Some(Instruction::LALOAD),
        0x30u8 => Some(Instruction::FALOAD),
        0x31u8 => Some(Instruction::DALOAD),
        0x32u8 => Some(Instruction::AALOAD),
        0x33u8 => Some(Instruction::BALOAD),
        0x34u8 => Some(Instruction::CALOAD),
        0x35u8 => Some(Instruction::SALOAD),
        0x36u8 => Some(Instruction::ISTORE),
        0x37u8 => Some(Instruction::LSTORE),
        0x38u8 => Some(Instruction::FSTORE),
        0x39u8 => Some(Instruction::DSTORE),
        0x3Au8 => Some(Instruction::ASTORE),
        0x3Bu8 => Some(Instruction::ISTORE_0),
        0x3Cu8 => Some(Instruction::ISTORE_1),
        0x3Du8 => Some(Instruction::ISTORE_2),
        0x3Eu8 => Some(Instruction::ISTORE_3),
        0x3Fu8 => Some(Instruction::LSTORE_0),
        0x40u8 => Some(Instruction::LSTORE_1),
        0x41u8 => Some(Instruction::LSTORE_2),
        0x42u8 => Some(Instruction::LSTORE_3),
        0x43u8 => Some(Instruction::FSTORE_0),
        0x44u8 => Some(Instruction::FSTORE_1),
        0x45u8 => Some(Instruction::FSTORE_2),
        0x46u8 => Some(Instruction::FSTORE_3),
        0x47u8 => Some(Instruction::DSTORE_0),
        0x48u8 => Some(Instruction::DSTORE_1),
        0x49u8 => Some(Instruction::DSTORE_2),
        0x4Au8 => Some(Instruction::DSTORE_3),
        0x4Bu8 => Some(Instruction::ASTORE_0),
        0x4Cu8 => Some(Instruction::ASTORE_1),
        0x4Du8 => Some(Instruction::ASTORE_2),
        0x4Eu8 => Some(Instruction::ASTORE_3),
        0x4Fu8 => Some(Instruction::IASTORE),
        0x50u8 => Some(Instruction::LASTORE),
        0x51u8 => Some(Instruction::FASTORE),
        0x52u8 => Some(Instruction::DASTORE),
        0x53u8 => Some(Instruction::AASTORE),
        0x54u8 => Some(Instruction::BASTORE),
        0x55u8 => Some(Instruction::CASTORE),
        0x56u8 => Some(Instruction::SASTORE),
        0x57u8 => Some(Instruction::POP),
        0x58u8 => Some(Instruction::POP2),
        0x59u8 => Some(Instruction::DUP),
        0x5Au8 => Some(Instruction::DUP_X1),
        0x5Bu8 => Some(Instruction::DUP_X2),
        0x5Cu8 => Some(Instruction::DUP2),
        0x5Du8 => Some(Instruction::DUP2_X1),
        0x5Eu8 => Some(Instruction::DUP2_X2),
        0x5Fu8 => Some(Instruction::SWAP),
        0x60u8 => Some(Instruction::IADD),
        0x61u8 => Some(Instruction::LADD),
        0x62u8 => Some(Instruction::FADD),
        0x63u8 => Some(Instruction::DADD),
        0x64u8 => Some(Instruction::ISUB),
        0x65u8 => Some(Instruction::LSUB),
        0x66u8 => Some(Instruction::FSUB),
        0x67u8 => Some(Instruction::DSUB),
        0x68u8 => Some(Instruction::IMUL),
        0x69u8 => Some(Instruction::LMUL),
        0x6Au8 => Some(Instruction::FMUL),
        0x6Bu8 => Some(Instruction::DMUL),
        0x6Cu8 => Some(Instruction::IDIV),
        0x6Du8 => Some(Instruction::LDIV),
        0x6Eu8 => Some(Instruction::FDIV),
        0x6Fu8 => Some(Instruction::DDIV),
        0x70u8 => Some(Instruction::IREM),
        0x71u8 => Some(Instruction::LREM),
        0x72u8 => Some(Instruction::FREM),
        0x73u8 => Some(Instruction::DREM),
        0x74u8 => Some(Instruction::INEG),
        0x75u8 => Some(Instruction::LNEG),
        0x76u8 => Some(Instruction::FNEG),
        0x77u8 => Some(Instruction::DNEG),
        0x78u8 => Some(Instruction::ISHL),
        0x79u8 => Some(Instruction::LSHL),
        0x7Au8 => Some(Instruction::ISHR),
        0x7Bu8 => Some(Instruction::LSHR),
        0x7Cu8 => Some(Instruction::IUSHR),
        0x7Du8 => Some(Instruction::LUSHR),
        0x7Eu8 => Some(Instruction::IAND),
        0x7Fu8 => Some(Instruction::LAND),
        0x80u8 => Some(Instruction::IOR),
        0x81u8 => Some(Instruction::LOR),
        0x82u8 => Some(Instruction::IXOR),
        0x83u8 => Some(Instruction::LXOR),
        0x84u8 => Some(Instruction::IINC),
        0x85u8 => Some(Instruction::I2L),
        0x86u8 => Some(Instruction::I2F),
        0x87u8 => Some(Instruction::I2D),
        0x88u8 => Some(Instruction::L2I),
        0x89u8 => Some(Instruction::L2F),
        0x8Au8 => Some(Instruction::L2D),
        0x8Bu8 => Some(Instruction::F2I),
        0x8Cu8 => Some(Instruction::F2L),
        0x8Du8 => Some(Instruction::F2D),
        0x8Eu8 => Some(Instruction::D2I),
        0x8Fu8 => Some(Instruction::D2L),
        0x90u8 => Some(Instruction::D2F),
        0x91u8 => Some(Instruction::I2B),
        0x92u8 => Some(Instruction::I2C),
        0x93u8 => Some(Instruction::I2S),
        0x94u8 => Some(Instruction::LCMP),
        0x95u8 => Some(Instruction::FCMPL),
        0x96u8 => Some(Instruction::FCMPG),
        0x97u8 => Some(Instruction::DCMPL),
        0x98u8 => Some(Instruction::DCMPG),
        0x99u8 => Some(Instruction::IFEQ),
        0x9Au8 => Some(Instruction::IFNE),
        0x9Bu8 => Some(Instruction::IFLT),
        0x9Cu8 => Some(Instruction::IFGE),
        0x9Du8 => Some(Instruction::IFGT),
        0x9Eu8 => Some(Instruction::IFLE),
        0x9Fu8 => Some(Instruction::IF_ICMPEQ),
        0xA0u8 => Some(Instruction::IF_ICMPNE),
        0xA1u8 => Some(Instruction::IF_ICMPLT),
        0xA2u8 => Some(Instruction::IF_ICMPGE),
        0xA3u8 => Some(Instruction::IF_ICMPGT),
        0xA4u8 => Some(Instruction::IF_ICMPLE),
        0xA5u8 => Some(Instruction::IF_ACMPEQ),
        0xA6u8 => Some(Instruction::IF_ACMPNE),
        0xA7u8 => Some(Instruction::GOTO),
        0xA8u8 => Some(Instruction::JSR),
        0xA9u8 => Some(Instruction::RET),
        0xAAu8 => Some(Instruction::TABLESWITCH),
        0xABu8 => Some(Instruction::LOOKUPSWITCH),
        0xACu8 => Some(Instruction::IRETURN),
        0xADu8 => Some(Instruction::LRETURN),
        0xAEu8 => Some(Instruction::FRETURN),
        0xAFu8 => Some(Instruction::DRETURN),
        0xB0u8 => Some(Instruction::ARETURN),
        0xB1u8 => Some(Instruction::RETURN),
        0xB2u8 => Some(Instruction::GETSTATIC),
        0xB3u8 => Some(Instruction::PUTSTATIC),
        0xB4u8 => Some(Instruction::GETFIELD),
        0xB5u8 => Some(Instruction::PUTFIELD),
        0xB6u8 => Some(Instruction::INVOKEVIRTUAL),
        0xB7u8 => Some(Instruction::INVOKESPECIAL),
        0xB8u8 => Some(Instruction::INVOKESTATIC),
        0xB9u8 => Some(Instruction::INVOKEINTERFACE),
        0xBAu8 => Some(Instruction::INVOKEDYNAMIC),
        0xBBu8 => Some(Instruction::NEW),
        0xBCu8 => Some(Instruction::NEWARRAY),
        0xBDu8 => Some(Instruction::ANEWARRAY),
        0xBEu8 => Some(Instruction::ARRAYLENGTH),
        0xBFu8 => Some(Instruction::ATHROW),
        0xC0u8 => Some(Instruction::CHECKCAST),
        0xC1u8 => Some(Instruction::INSTANCEOF),
        0xC2u8 => Some(Instruction::MONITORENTER),
        0xC3u8 => Some(Instruction::MONITOREXIT),
        0xC4u8 => Some(Instruction::WIDE),
        0xC5u8 => Some(Instruction::MULTIANEWARRAY),
        0xC6u8 => Some(Instruction::IFNULL),
        0xC7u8 => Some(Instruction::IFNONNULL),
        0xC8u8 => Some(Instruction::GOTO_W),
        0xC9u8 => Some(Instruction::JSR_W),
        0xCAu8 => Some(Instruction::BREAKPOINT),
        0xFEu8 => Some(Instruction::IMPDEP1),
        0xFFu8 => Some(Instruction::IMPDEP2),
        _ => None,
    }
}

/// The opcode byte of an instruction.
pub open spec fn spec_opcode(inst: Instruction) -> u8 {
    match inst {
        Instruction::NOP => 0x00,
        Instruction::ACONST_NULL => 0x01,
        Instruction::ICONST_M1 => 0x02,
        Instruction::ICONST_0 => 0x03,
        Instruction::ICONST_1 => 0x04,
        Instruction::ICONST_2 => 0x05,
        Instruction::ICONST_3 => 0x06,
        Instruction::ICONST_4 => 0x07,
        Instruction::ICONST_5 => 0x08,
        Instruction::LCONST_0 => 0x09,
        Instruction::LCONST_1 => 0x0A,
        Instruction::FCONST_0 => 0x0B,
        Instruction::FCONST_1 => 0x0C,
        Instruction::FCONST_2 => 0x0D,
        Instruction::DCONST_0 => 0x0E,
        Instruction::DCONST_1 => 0x0F,
        Instruction::BIPUSH => 0x10,
        Instruction::SIPUSH => 0x11,
        Instruction::LDC => 0x12,
        Instruction::LDC_W => 0x13,
        Instruction::LDC2_W => 0x14,
        Instruction::ILOAD => 0x15,
        Instruction::LLOAD => 0x16,
        Instruction::FLOAD => 0x17,
        Instruction::DLOAD => 0x18,
        Instruction::ALOAD => 0x19,
        Instruction::ILOAD_0 => 0x1A,
        Instruction::ILOAD_1 => 0x1B,
        Instruction::ILOAD_2 => 0x1C,
        Instruction::ILOAD_3 => 0x1D,
        Instruction::LLOAD_0 => 0x1E,
        Instruction::LLOAD_1 => 0x1F,
        Instruction::LLOAD_2 => 0x20,
        Instruction::LLOAD_3 => 0x21,
        Instruction::FLOAD_0 => 0x22,
        Instruction::FLOAD_1 => 0x23,
        Instruction::FLOAD_2 => 0x24,
        Instruction::FLOAD_3 => 0x25,
        Instruction::DLOAD_0 => 0x26,
        Instruction::DLOAD_1 => 0x27,
        Instruction::DLOAD_2 => 0x28,
        Instruction::DLOAD_3 => 0x29,
        Instruction::ALOAD_0 => 0x2A,
        Instruction::ALOAD_1 => 0x2B,
        Instruction::ALOAD_2 => 0x2C,
        Instruction::ALOAD_3 => 0x2D,
        Instruction::IALOAD => 0x2E,
        Instruction::LALOAD => 0x2F,
        Instruction::FALOAD => 0x30,
        Instruction::DALOAD => 0x31,
        Instruction::AALOAD => 0x32,
        Instruction::BALOAD => 0x33,
        Instruction::CALOAD => 0x34,
        Instruction::SALOAD => 0x35,
        Instruction::ISTORE => 0x36,
        Instruction::LSTORE => 0x37,
        Instruction::FSTORE => 0x38,
        Instruction::DSTORE => 0x39,
        Instruction::ASTORE => 0x3A,
        Instruction::ISTORE_0 => 0x3B,
        Instruction::ISTORE_1 => 0x3C,
        Instruction::ISTORE_2 => 0x3D,
        Instruction::ISTORE_3 => 0x3E,
        Instruction::LSTORE_0 => 0x3F,
        Instruction::LSTORE_1 => 0x40,
        Instruction::LSTORE_2 => 0x41,
        Instruction::LSTORE_3 => 0x42,
        Instruction::FSTORE_0 => 0x43,
        Instruction::FSTORE_1 => 0x44,
        Instruction::FSTORE_2 => 0x45,
        Instruction::FSTORE_3 => 0x46,
        Instruction::DSTORE_0 => 0x47,
        Instruction::DSTORE_1 => 0x48,
        Instruction::DSTORE_2 => 0x49,
        Instruction::DSTORE_3 => 0x4A,
        Instruction::ASTORE_0 => 0x4B,
        Instruction::ASTORE_1 => 0x4C,
        Instruction::ASTORE_2 => 0x4D,
        Instruction::ASTORE_3 => 0x4E,
        Instruction::IASTORE => 0x4F,
        Instruction::LASTORE => 0x50,
        Instruction::FASTORE => 0x51,
        Instruction::DASTORE => 0x52,
        Instruction::AASTORE => 0x53,
        Instruction::BASTORE => 0x54,
        Instruction::CASTORE => 0x55,
        Instruction::SASTORE => 0x56,
        Instruction::POP => 0x57,
        Instruction::POP2 => 0x58,
        Instruction::DUP => 0x59,
        Instruction::DUP_X1 => 0x5A,
        Instruction::DUP_X2 => 0x5B,
        Instruction::DUP2 => 0x5C,
        Instruction::DUP2_X1 => 0x5D,
        Instruction::DUP2_X2 => 0x5E,
        Instruction::SWAP => 0x5F,
        Instruction::IADD => 0x60,
        Instruction::LADD => 0x61,
        Instruction::FADD => 0x62,
        Instruction::DADD => 0x63,
        Instruction::ISUB => 0x64,
        Instruction::LSUB => 0x65,
        Instruction::FSUB => 0x66,
        Instruction::DSUB => 0x67,
        Instruction::IMUL => 0x68,
        Instruction::LMUL => 0x69,
        Instruction::FMUL => 0x6A,
        Instruction::DMUL => 0x6B,
        Instruction::IDIV => 0x6C,
        Instruction::LDIV => 0x6D,
        Instruction::FDIV => 0x6E,
        Instruction::DDIV => 0x6F,
        Instruction::IREM => 0x70,
        Instruction::LREM => 0x71,
        Instruction::FREM => 0x72,
        Instruction::DREM => 0x73,
        Instruction::INEG => 0x74,
        Instruction::LNEG => 0x75,
        Instruction::FNEG => 0x76,
        Instruction::DNEG => 0x77,
        Instruction::ISHL => 0x78,
        Instruction::LSHL => 0x79,
        Instruction::ISHR => 0x7A,
        Instruction::LSHR => 0x7B,
        Instruction::IUSHR => 0x7C,
        Instruction::LUSHR => 0x7D,
        Instruction::IAND => 0x7E,
        Instruction::LAND => 0x7F,
        Instruction::IOR => 0x80,
        Instruction::LOR => 0x81,
        Instruction::IXOR => 0x82,
        Instruction::LXOR => 0x83,
        Instruction::IINC => 0x84,
        Instruction::I2L => 0x85,
        Instruction::I2F => 0x86,
        Instruction::I2D => 0x87,
        Instruction::L2I => 0x88,
        Instruction::L2F => 0x89,
        Instruction::L2D => 0x8A,
        Instruction::F2I => 0x8B,
        Instruction::F2L => 0x8C,
        Instruction::F2D => 0x8D,
        Instruction::D2I => 0x8E,
        Instruction::D2L => 0x8F,
        Instruction::D2F => 0x90,
        Instruction::I2B => 0x91,
        Instruction::I2C => 0x92,
        Instruction::I2S => 0x93,
        Instruction::LCMP => 0x94,
        Instruction::FCMPL => 0x95,
        Instruction::FCMPG => 0x96,
        Instruction::DCMPL => 0x97,
        Instruction::DCMPG => 0x98,
        Instruction::IFEQ => 0x99,
        Instruction::IFNE => 0x9A,
        Instruction::IFLT => 0x9B,
        Instruction::IFGE => 0x9C,
        Instruction::IFGT => 0x9D,
        Instruction::IFLE => 0x9E,
        Instruction::IF_ICMPEQ => 0x9F,
        Instruction::IF_ICMPNE => 0xA0,
        Instruction::IF_ICMPLT => 0xA1,
        Instruction::IF_ICMPGE => 0xA2,
        Instruction::IF_ICMPGT => 0xA3,
        Instruction::IF_ICMPLE => 0xA4,
        Instruction::IF_ACMPEQ => 0xA5,
        Instruction::IF_ACMPNE => 0xA6,
        Instruction::GOTO => 0xA7,
        Instruction::JSR => 0xA8,
        Instruction::RET => 0xA9,
        Instruction::TABLESWITCH => 0xAA,
        Instruction::LOOKUPSWITCH => 0xAB,
        Instruction::IRETURN => 0xAC,
        Instruction::LRETURN => 0xAD,
        Instruction::FRETURN => 0xAE,
        Instruction::DRETURN => 0xAF,
        Instruction::ARETURN => 0xB0,
        Instruction::RETURN => 0xB1,
        Instruction::GETSTATIC => 0xB2,
        Instruction::PUTSTATIC => 0xB3,
        Instruction::GETFIELD => 0xB4,
        Instruction::PUTFIELD => 0xB5,
        Instruction::INVOKEVIRTUAL => 0xB6,
        Instruction::INVOKESPECIAL => 0xB7,
        Instruction::INVOKESTATIC => 0xB8,
        Instruction::INVOKEINTERFACE => 0xB9,
        Instruction::INVOKEDYNAMIC => 0xBA,
        Instruction::NEW => 0xBB,
        Instruction::NEWARRAY => 0xBC,
        Instruction::ANEWARRAY => 0xBD,
        Instruction::ARRAYLENGTH => 0xBE,
        Instruction::ATHROW => 0xBF,
        Instruction::CHECKCAST => 0xC0,
        Instruction::INSTANCEOF => 0xC1,
        Instruction::MONITORENTER => 0xC2,
        Instruction::MONITOREXIT => 0xC3,
        Instruction::WIDE => 0xC4,
        Instruction::MULTIANEWARRAY => 0xC5,
        Instruction::IFNULL => 0xC6,
        Instruction::IFNONNULL => 0xC7,
        Instruction::GOTO_W => 0xC8,
        Instruction::JSR_W => 0xC9,
        Instruction::BREAKPOINT => 0xCA,
        Instruction::IMPDEP1 => 0xFE,
        Instruction::IMPDEP2 => 0xFF,
    }
}

/// The immediate-operand arity of an instruction, in bytes.  For the
/// variable-length switches the value is the least operand size, and
/// for `WIDE` it is the largest form; their true extent comes from the
/// operand bytes themselves.
pub open spec fn spec_arity(inst: Instruction) -> u8 {
    match inst {
        Instruction::NOP => 0,
        Instruction::ACONST_NULL => 0,
        Instruction::ICONST_M1 => 0,
        Instruction::ICONST_0 => 0,
        Instruction::ICONST_1 => 0,
        Instruction::ICONST_2 => 0,
        Instruction::ICONST_3 => 0,
        Instruction::ICONST_4 => 0,
        Instruction::ICONST_5 => 0,
        Instruction::LCONST_0 => 0,
        Instruction::LCONST_1 => 0,
        Instruction::FCONST_0 => 0,
        Instruction::FCONST_1 => 0,
        Instruction::FCONST_2 => 0,
        Instruction::DCONST_0 => 0,
        Instruction::DCONST_1 => 0,
        Instruction::BIPUSH => 1,
        Instruction::SIPUSH => 2,
        Instruction::LDC => 1,
        Instruction::LDC_W => 2,
        Instruction::LDC2_W => 2,
        Instruction::ILOAD => 1,
        Instruction::LLOAD => 1,
        Instruction::FLOAD => 1,
        Instruction::DLOAD => 1,
        Instruction::ALOAD => 1,
        Instruction::ILOAD_0 => 0,
        Instruction::ILOAD_1 => 0,
        Instruction::ILOAD_2 => 0,
        Instruction::ILOAD_3 => 0,
        Instruction::LLOAD_0 => 0,
        Instruction::LLOAD_1 => 0,
        Instruction::LLOAD_2 => 0,
        Instruction::LLOAD_3 => 0,
        Instruction::FLOAD_0 => 0,
        Instruction::FLOAD_1 => 0,
        Instruction::FLOAD_2 => 0,
        Instruction::FLOAD_3 => 0,
        Instruction::DLOAD_0 => 0,
        Instruction::DLOAD_1 => 0,
        Instruction::DLOAD_2 => 0,
        Instruction::DLOAD_3 => 0,
        Instruction::ALOAD_0 => 0,
        Instruction::ALOAD_1 => 0,
        Instruction::ALOAD_2 => 0,
        Instruction::ALOAD_3 => 0,
        Instruction::IALOAD => 0,
        Instruction::LALOAD => 0,
        Instruction::FALOAD => 0,
        Instruction::DALOAD => 0,
        Instruction::AALOAD => 0,
        Instruction::BALOAD => 0,
        Instruction::CALOAD => 0,
        Instruction::SALOAD => 0,
        Instruction::ISTORE => 1,
        Instruction::LSTORE => 1,
        Instruction::FSTORE => 1,
        Instruction::DSTORE => 1,
        Instruction::ASTORE => 1,
        Instruction::ISTORE_0 => 0,
        Instruction::ISTORE_1 => 0,
        Instruction::ISTORE_2 => 0,
        Instruction::ISTORE_3 => 0,
        Instruction::LSTORE_0 => 0,
        Instruction::LSTORE_1 => 0,
        Instruction::LSTORE_2 => 0,
        Instruction::LSTORE_3 => 0,
        Instruction::FSTORE_0 => 0,
        Instruction::FSTORE_1 => 0,
        Instruction::FSTORE_2 => 0,
        Instruction::FSTORE_3 => 0,
        Instruction::DSTORE_0 => 0,
        Instruction::DSTORE_1 => 0,
        Instruction::DSTORE_2 => 0,
        Instruction::DSTORE_3 => 0,
        Instruction::ASTORE_0 => 0,
        Instruction::ASTORE_1 => 0,
        Instruction::ASTORE_2 => 0,
        Instruction::ASTORE_3 => 0,
        Instruction::IASTORE => 0,
        Instruction::LASTORE => 0,
        Instruction::FASTORE => 0,
        Instruction::DASTORE => 0,
        Instruction::AASTORE => 0,
        Instruction::BASTORE => 0,
        Instruction::CASTORE => 0,
        Instruction::SASTORE => 0,
        Instruction::POP => 0,
        Instruction::POP2 => 0,
        Instruction::DUP => 0,
        Instruction::DUP_X1 => 0,
        Instruction::DUP_X2 => 0,
        Instruction::DUP2 => 0,
        Instruction::DUP2_X1 => 0,
        Instruction::DUP2_X2 => 0,
        Instruction::SWAP => 0,
        Instruction::IADD => 0,
        Instruction::LADD => 0,
        Instruction::FADD => 0,
        Instruction::DADD => 0,
        Instruction::ISUB => 0,
        Instruction::LSUB => 0,
        Instruction::FSUB => 0,
        Instruction::DSUB => 0,
        Instruction::IMUL => 0,
        Instruction::LMUL => 0,
        Instruction::FMUL => 0,
        Instruction::DMUL => 0,
        Instruction::IDIV => 0,
        Instruction::LDIV => 0,
        Instruction::FDIV => 0,
        Instruction::DDIV => 0,
        Instruction::IREM => 0,
        Instruction::LREM => 0,
        Instruction::FREM => 0,
        Instruction::DREM => 0,
        Instruction::INEG => 0,
        Instruction::LNEG => 0,
        Instruction::FNEG => 0,
        Instruction::DNEG => 0,
        Instruction::ISHL => 0,
        Instruction::LSHL => 0,
        Instruction::ISHR => 0,
        Instruction::LSHR => 0,
        Instruction::IUSHR => 0,
        Instruction::LUSHR => 0,
        Instruction::IAND => 0,
        Instruction::LAND => 0,
        Instruction::IOR => 0,
        Instruction::LOR => 0,
        Instruction::IXOR => 0,
        Instruction::LXOR => 0,
        Instruction::IINC => 2,
        Instruction::I2L => 0,
        Instruction::I2F => 0,
        Instruction::I2D => 0,
        Instruction::L2I => 0,
        Instruction::L2F => 0,
        Instruction::L2D => 0,
        Instruction::F2I => 0,
        Instruction::F2L => 0,
        Instruction::F2D => 0,
        Instruction::D2I => 0,
        Instruction::D2L => 0,
        Instruction::D2F => 0,
        Instruction::I2B => 0,
        Instruction::I2C => 0,
        Instruction::I2S => 0,
        Instruction::LCMP => 0,
        Instruction::FCMPL => 0,
        Instruction::FCMPG => 0,
        Instruction::DCMPL => 0,
        Instruction::DCMPG => 0,
        Instruction::IFEQ => 2,
        Instruction::IFNE => 2,
        Instruction::IFLT => 2,
        Instruction::IFGE => 2,
        Instruction::IFGT => 2,
        Instruction::IFLE => 2,
        Instruction::IF_ICMPEQ => 2,
        Instruction::IF_ICMPNE => 2,
        Instruction::IF_ICMPLT => 2,
        Instruction::IF_ICMPGE => 2,
        Instruction::IF_ICMPGT => 2,
        Instruction::IF_ICMPLE => 2,
        Instruction::IF_ACMPEQ => 2,
        Instruction::IF_ACMPNE => 2,
        Instruction::GOTO => 2,
        Instruction::JSR => 2,
        Instruction::RET => 1,
        Instruction::TABLESWITCH => 16,
        Instruction::LOOKUPSWITCH => 8,
        Instruction::IRETURN => 0,
        Instruction::LRETURN => 0,
        Instruction::FRETURN => 0,
        Instruction::DRETURN => 0,
        Instruction::ARETURN => 0,
        Instruction::RETURN => 0,
        Instruction::GETSTATIC => 2,
        Instruction::PUTSTATIC => 2,
        Instruction::GETFIELD => 2,
        Instruction::PUTFIELD => 2,
        Instruction::INVOKEVIRTUAL => 2,
        Instruction::INVOKESPECIAL => 2,
        Instruction::INVOKESTATIC => 2,
        Instruction::INVOKEINTERFACE => 4,
        Instruction::INVOKEDYNAMIC => 4,
        Instruction::NEW => 2,
        Instruction::NEWARRAY => 1,
        Instruction::ANEWARRAY => 2,
        Instruction::ARRAYLENGTH => 0,
        Instruction::ATHROW => 0,
        Instruction::CHECKCAST => 2,
        Instruction::INSTANCEOF => 2,
        Instruction::MONITORENTER => 0,
        Instruction::MONITOREXIT => 0,
        Instruction::WIDE => 5,
        Instruction::MULTIANEWARRAY => 3,
        Instruction::IFNULL => 2,
        Instruction::IFNONNULL => 2,
        Instruction::GOTO_W => 4,
        Instruction::JSR_W => 4,
        Instruction::BREAKPOINT => 0,
        Instruction::IMPDEP1 => 0,
        Instruction::IMPDEP2 => 0,
    }
}

/// Every opcode byte the table recognizes decodes to the instruction
/// that carries exactly that opcode: decoding then re-encoding is the
/// identity on recognized bytes.
#[verifier::rlimit(100)]
pub proof fn lemma_opcode_round_trip(b: u8)
    ensures
        spec_lookup(b) matches Some(i) ==> spec_opcode(i) == b,
{
}

impl Instruction {
    /// Looks up the instruction for an opcode byte.
    pub fn lookup(opcode: u8) -> (r: Option<Instruction>)
        ensures
            r == spec_lookup(opcode),
    {
        match opcode {
            0x00u8 => Some(Instruction::NOP),
            0x01u8 => Some(Instruction::ACONST_NULL),
            0x02u8 => Some(Instruction::ICONST_M1),
            0x03u8 => Some(Instruction::ICONST_0),
            0x04u8 => Some(Instruction::ICONST_1),
            0x05u8 => Some(Instruction::ICONST_2),
            0x06u8 => Some(Instruction::ICONST_3),
            0x07u8 => Some(Instruction::ICONST_4),
            0x08u8 => Some(Instruction::ICONST_5),
            0x09u8 => Some(Instruction::LCONST_0),
            0x0Au8 => Some(Instruction::LCONST_1),
            0x0Bu8 => Some(Instruction::FCONST_0),
            0x0Cu8 => Some(Instruction::FCONST_1),
            0x0Du8 => Some(Instruction::FCONST_2),
            0x0Eu8 => Some(Instruction::DCONST_0),
            0x0Fu8 => Some(Instruction::DCONST_1),
            0x10u8 => Some(Instruction::BIPUSH),
            0x11u8 => Some(Instruction::SIPUSH),
            0x12u8 => Some(Instruction::LDC),
            0x13u8 => Some(Instruction::LDC_W),
            0x14u8 => Some(Instruction::LDC2_W),
            0x15u8 => Some(Instruction::ILOAD),
            0x16u8 => Some(Instruction::LLOAD),
            0x17u8 => Some(Instruction::FLOAD),
            0x18u8 => Some(Instruction::DLOAD),
            0x19u8 => Some(Instruction::ALOAD),
            0x1Au8 => Some(Instruction::ILOAD_0),
            0x1Bu8 => Some(Instruction::ILOAD_1),
            0x1Cu8 => Some(Instruction::ILOAD_2),
            0x1Du8 => Some(Instruction::ILOAD_3),
            0x1Eu8 => Some(Instruction::LLOAD_0),
            0x1Fu8 => Some(Instruction::LLOAD_1),
            0x20u8 => Some(Instruction::LLOAD_2),
            0x21u8 => Some(Instruction::LLOAD_3),
            0x22u8 => Some(Instruction::FLOAD_0),
            0x23u8 => Some(Instruction::FLOAD_1),
            0x24u8 => Some(Instruction::FLOAD_2),
            0x25u8 => Some(Instruction::FLOAD_3),
            0x26u8 => Some(Instruction::DLOAD_0),
            0x27u8 => Some(Instruction::DLOAD_1),
            0x28u8 => Some(Instruction::DLOAD_2),
            0x29u8 => Some(Instruction::DLOAD_3),
            0x2Au8 => Some(Instruction::ALOAD_0),
            0x2Bu8 => Some(Instruction::ALOAD_1),
            0x2Cu8 => Some(Instruction::ALOAD_2),
            0x2Du8 => Some(Instruction::ALOAD_3),
            0x2Eu8 => Some(Instruction::IALOAD),
            0x2Fu8 => Some(Instruction::LALOAD),
            0x30u8 => Some(Instruction::FALOAD),
            0x31u8 => Some(Instruction::DALOAD),
            0x32u8 => Some(Instruction::AALOAD),
            0x33u8 => Some(Instruction::BALOAD),
            0x34u8 => Some(Instruction::CALOAD),
            0x35u8 => Some(Instruction::SALOAD),
            0x36u8 => Some(Instruction::ISTORE),
            0x37u8 => Some(Instruction::LSTORE),
            0x38u8 => Some(Instruction::FSTORE),
            0x39u8 => Some(Instruction::DSTORE),
            0x3Au8 => Some(Instruction::ASTORE),
            0x3Bu8 => Some(Instruction::ISTORE_0),
            0x3Cu8 => Some(Instruction::ISTORE_1),
            0x3Du8 => Some(Instruction::ISTORE_2),
            0x3Eu8 => Some(Instruction::ISTORE_3),
            0x3Fu8 => Some(Instruction::LSTORE_0),
            0x40u8 => Some(Instruction::LSTORE_1),
            0x41u8 => Some(Instruction::LSTORE_2),
            0x42u8 => Some(Instruction::LSTORE_3),
            0x43u8 => Some(Instruction::FSTORE_0),
            0x44u8 => Some(Instruction::FSTORE_1),
            0x45u8 => Some(Instruction::FSTORE_2),
            0x46u8 => Some(Instruction::FSTORE_3),
            0x47u8 => Some(Instruction::DSTORE_0),
            0x48u8 => Some(Instruction::DSTORE_1),
            0x49u8 => Some(Instruction::DSTORE_2),
            0x4Au8 => Some(Instruction::DSTORE_3),
            0x4Bu8 => Some(Instruction::ASTORE_0),
            0x4Cu8 => Some(Instruction::ASTORE_1),
            0x4Du8 => Some(Instruction::ASTORE_2),
            0x4Eu8 => Some(Instruction::ASTORE_3),
            0x4Fu8 => Some(Instruction::IASTORE),
            0x50u8 => Some(Instruction::LASTORE),
            0x51u8 => Some(Instruction::FASTORE),
            0x52u8 => Some(Instruction::DASTORE),
            0x53u8 => Some(Instruction::AASTORE),
            0x54u8 => Some(Instruction::BASTORE),
            0x55u8 => Some(Instruction::CASTORE),
            0x56u8 => Some(Instruction::SASTORE),
            0x57u8 => Some(Instruction::POP),
            0x58u8 => Some(Instruction::POP2),
            0x59u8 => Some(Instruction::DUP),
            0x5Au8 => Some(Instruction::DUP_X1),
            0x5Bu8 => Some(Instruction::DUP_X2),
            0x5Cu8 => Some(Instruction::DUP2),
            0x5Du8 => Some(Instruction::DUP2_X1),
            0x5Eu8 => Some(Instruction::DUP2_X2),
            0x5Fu8 => Some(Instruction::SWAP),
            0x60u8 => Some(Instruction::IADD),
            0x61u8 => Some(Instruction::LADD),
            0x62u8 => Some(Instruction::FADD),
            0x63u8 => Some(Instruction::DADD),
            0x64u8 => Some(Instruction::ISUB),
            0x65u8 => Some(Instruction::LSUB),
            0x66u8 => Some(Instruction::FSUB),
            0x67u8 => Some(Instruction::DSUB),
            0x68u8 => Some(Instruction::IMUL),
            0x69u8 => Some(Instruction::LMUL),
            0x6Au8 => Some(Instruction::FMUL),
            0x6Bu8 => Some(Instruction::DMUL),
            0x6Cu8 => Some(Instruction::IDIV),
            0x6Du8 => Some(Instruction::LDIV),
            0x6Eu8 => Some(Instruction::FDIV),
            0x6Fu8 => Some(Instruction::DDIV),
            0x70u8 => Some(Instruction::IREM),
            0x71u8 => Some(Instruction::LREM),
            0x72u8 => Some(Instruction::FREM),
            0x73u8 => Some(Instruction::DREM),
            0x74u8 => Some(Instruction::INEG),
            0x75u8 => Some(Instruction::LNEG),
            0x76u8 => Some(Instruction::FNEG),
            0x77u8 => Some(Instruction::DNEG),
            0x78u8 => Some(Instruction::ISHL),
            0x79u8 => Some(Instruction::LSHL),
            0x7Au8 => Some(Instruction::ISHR),
            0x7Bu8 => Some(Instruction::LSHR),
            0x7Cu8 => Some(Instruction::IUSHR),
            0x7Du8 => Some(Instruction::LUSHR),
            0x7Eu8 => Some(Instruction::IAND),
            0x7Fu8 => Some(Instruction::LAND),
            0x80u8 => Some(Instruction::IOR),
            0x81u8 => Some(Instruction::LOR),
            0x82u8 => Some(Instruction::IXOR),
            0x83u8 => Some(Instruction::LXOR),
            0x84u8 => Some(Instruction::IINC),
            0x85u8 => Some(Instruction::I2L),
            0x86u8 => Some(Instruction::I2F),
            0x87u8 => Some(Instruction::I2D),
            0x88u8 => Some(Instruction::L2I),
            0x89u8 => Some(Instruction::L2F),
            0x8Au8 => Some(Instruction::L2D),
            0x8Bu8 => Some(Instruction::F2I),
            0x8Cu8 => Some(Instruction::F2L),
            0x8Du8 => Some(Instruction::F2D),
            0x8Eu8 => Some(Instruction::D2I),
            0x8Fu8 => Some(Instruction::D2L),
            0x90u8 => Some(Instruction::D2F),
            0x91u8 => Some(Instruction::I2B),
            0x92u8 => Some(Instruction::I2C),
            0x93u8 => Some(Instruction::I2S),
            0x94u8 => Some(Instruction::LCMP),
            0x95u8 => Some(Instruction::FCMPL),
            0x96u8 => Some(Instruction::FCMPG),
            0x97u8 => Some(Instruction::DCMPL),
            0x98u8 => Some(Instruction::DCMPG),
            0x99u8 => Some(Instruction::IFEQ),
            0x9Au8 => Some(Instruction::IFNE),
            0x9Bu8 => Some(Instruction::IFLT),
            0x9Cu8 => Some(Instruction::IFGE),
            0x9Du8 => Some(Instruction::IFGT),
            0x9Eu8 => Some(Instruction::IFLE),
            0x9Fu8 => Some(Instruction::IF_ICMPEQ),
            0xA0u8 => Some(Instruction::IF_ICMPNE),
            0xA1u8 => Some(Instruction::IF_ICMPLT),
            0xA2u8 => Some(Instruction::IF_ICMPGE),
            0xA3u8 => Some(Instruction::IF_ICMPGT),
            0xA4u8 => Some(Instruction::IF_ICMPLE),
            0xA5u8 => Some(Instruction::IF_ACMPEQ),
            0xA6u8 => Some(Instruction::IF_ACMPNE),
            0xA7u8 => Some(Instruction::GOTO),
            0xA8u8 => Some(Instruction::JSR),
            0xA9u8 => Some(Instruction::RET),
            0xAAu8 => Some(Instruction::TABLESWITCH),
            0xABu8 => Some(Instruction::LOOKUPSWITCH),
            0xACu8 => Some(Instruction::IRETURN),
            0xADu8 => Some(Instruction::LRETURN),
            0xAEu8 => Some(Instruction::FRETURN),
            0xAFu8 => Some(Instruction::DRETURN),
            0xB0u8 => Some(Instruction::ARETURN),
            0xB1u8 => Some(Instruction::RETURN),
            0xB2u8 => Some(Instruction::GETSTATIC),
            0xB3u8 => Some(Instruction::PUTSTATIC),
            0xB4u8 => Some(Instruction::GETFIELD),
            0xB5u8 => Some(Instruction::PUTFIELD),
            0xB6u8 => Some(Instruction::INVOKEVIRTUAL),
            0xB7u8 => Some(Instruction::INVOKESPECIAL),
            0xB8u8 => Some(Instruction::INVOKESTATIC),
            0xB9u8 => Some(Instruction::INVOKEINTERFACE),
            0xBAu8 => Some(Instruction::INVOKEDYNAMIC),
            0xBBu8 => Some(Instruction::NEW),
            0xBCu8 => Some(Instruction::NEWARRAY),
            0xBDu8 => Some(Instruction::ANEWARRAY),
            0xBEu8 => Some(Instruction::ARRAYLENGTH),
            0xBFu8 => Some(Instruction::ATHROW),
            0xC0u8 => Some(Instruction::CHECKCAST),
            0xC1u8 => Some(Instruction::INSTANCEOF),
            0xC2u8 => Some(Instruction::MONITORENTER),
            0xC3u8 => Some(Instruction::MONITOREXIT),
            0xC4u8 => Some(Instruction::WIDE),
            0xC5u8 => Some(Instruction::MULTIANEWARRAY),
            0xC6u8 => Some(Instruction::IFNULL),
            0xC7u8 => Some(Instruction::IFNONNULL),
            0xC8u8 => Some(Instruction::GOTO_W),
            0xC9u8 => Some(Instruction::JSR_W),
            0xCAu8 => Some(Instruction::BREAKPOINT),
            0xFEu8 => Some(Instruction::IMPDEP1),
            0xFFu8 => Some(Instruction::IMPDEP2),
            _ => None,
        }
    }

    /// The opcode byte of this instruction.
    pub fn opcode(&self) -> (r: u8)
        ensures
            r == spec_opcode(*self),
    {
        match *self {
            Instruction::NOP => 0x00,
            Instruction::ACONST_NULL => 0x01,
            Instruction::ICONST_M1 => 0x02,
            Instruction::ICONST_0 => 0x03,
            Instruction::ICONST_1 => 0x04,
            Instruction::ICONST_2 => 0x05,
            Instruction::ICONST_3 => 0x06,
            Instruction::ICONST_4 => 0x07,
            Instruction::ICONST_5 => 0x08,
            Instruction::LCONST_0 => 0x09,
            Instruction::LCONST_1 => 0x0A,
            Instruction::FCONST_0 => 0x0B,
            Instruction::FCONST_1 => 0x0C,
            Instruction::FCONST_2 => 0x0D,
            Instruction::DCONST_0 => 0x0E,
            Instruction::DCONST_1 => 0x0F,
            Instruction::BIPUSH => 0x10,
            Instruction::SIPUSH => 0x11,
            Instruction::LDC => 0x12,
            Instruction::LDC_W => 0x13,
            Instruction::LDC2_W => 0x14,
            Instruction::ILOAD => 0x15,
            Instruction::LLOAD => 0x16,
            Instruction::FLOAD => 0x17,
            Instruction::DLOAD => 0x18,
            Instruction::ALOAD => 0x19,
            Instruction::ILOAD_0 => 0x1A,
            Instruction::ILOAD_1 => 0x1B,
            Instruction::ILOAD_2 => 0x1C,
            Instruction::ILOAD_3 => 0x1D,
            Instruction::LLOAD_0 => 0x1E,
            Instruction::LLOAD_1 => 0x1F,
            Instruction::LLOAD_2 => 0x20,
            Instruction::LLOAD_3 => 0x21,
            Instruction::FLOAD_0 => 0x22,
            Instruction::FLOAD_1 => 0x23,
            Instruction::FLOAD_2 => 0x24,
            Instruction::FLOAD_3 => 0x25,
            Instruction::DLOAD_0 => 0x26,
            Instruction::DLOAD_1 => 0x27,
            Instruction::DLOAD_2 => 0x28,
            Instruction::DLOAD_3 => 0x29,
            Instruction::ALOAD_0 => 0x2A,
            Instruction::ALOAD_1 => 0x2B,
            Instruction::ALOAD_2 => 0x2C,
            Instruction::ALOAD_3 => 0x2D,
            Instruction::IALOAD => 0x2E,
            Instruction::LALOAD => 0x2F,
            Instruction::FALOAD => 0x30,
            Instruction::DALOAD => 0x31,
            Instruction::AALOAD => 0x32,
            Instruction::BALOAD => 0x33,
            Instruction::CALOAD => 0x34,
            Instruction::SALOAD => 0x35,
            Instruction::ISTORE => 0x36,
            Instruction::LSTORE => 0x37,
            Instruction::FSTORE => 0x38,
            Instruction::DSTORE => 0x39,
            Instruction::ASTORE => 0x3A,
            Instruction::ISTORE_0 => 0x3B,
            Instruction::ISTORE_1 => 0x3C,
            Instruction::ISTORE_2 => 0x3D,
            Instruction::ISTORE_3 => 0x3E,
            Instruction::LSTORE_0 => 0x3F,
            Instruction::LSTORE_1 => 0x40,
            Instruction::LSTORE_2 => 0x41,
            Instruction::LSTORE_3 => 0x42,
            Instruction::FSTORE_0 => 0x43,
            Instruction::FSTORE_1 => 0x44,
            Instruction::FSTORE_2 => 0x45,
            Instruction::FSTORE_3 => 0x46,
            Instruction::DSTORE_0 => 0x47,
            Instruction::DSTORE_1 => 0x48,
            Instruction::DSTORE_2 => 0x49,
            Instruction::DSTORE_3 => 0x4A,
            Instruction::ASTORE_0 => 0x4B,
            Instruction::ASTORE_1 => 0x4C,
            Instruction::ASTORE_2 => 0x4D,
            Instruction::ASTORE_3 => 0x4E,
            Instruction::IASTORE => 0x4F,
            Instruction::LASTORE => 0x50,
            Instruction::FASTORE => 0x51,
            Instruction::DASTORE => 0x52,
            Instruction::AASTORE => 0x53,
            Instruction::BASTORE => 0x54,
            Instruction::CASTORE => 0x55,
            Instruction::SASTORE => 0x56,
            Instruction::POP => 0x57,
            Instruction::POP2 => 0x58,
            Instruction::DUP => 0x59,
            Instruction::DUP_X1 => 0x5A,
            Instruction::DUP_X2 => 0x5B,
            Instruction::DUP2 => 0x5C,
            Instruction::DUP2_X1 => 0x5D,
            Instruction::DUP2_X2 => 0x5E,
            Instruction::SWAP => 0x5F,
            Instruction::IADD => 0x60,
            Instruction::LADD => 0x61,
            Instruction::FADD => 0x62,
            Instruction::DADD => 0x63,
            Instruction::ISUB => 0x64,
            Instruction::LSUB => 0x65,
            Instruction::FSUB => 0x66,
            Instruction::DSUB => 0x67,
            Instruction::IMUL => 0x68,
            Instruction::LMUL => 0x69,
            Instruction::FMUL => 0x6A,
            Instruction::DMUL => 0x6B,
            Instruction::IDIV => 0x6C,
            Instruction::LDIV => 0x6D,
            Instruction::FDIV => 0x6E,
            Instruction::DDIV => 0x6F,
            Instruction::IREM => 0x70,
            Instruction::LREM => 0x71,
            Instruction::FREM => 0x72,
            Instruction::DREM => 0x73,
            Instruction::INEG => 0x74,
            Instruction::LNEG => 0x75,
            Instruction::FNEG => 0x76,
            Instruction::DNEG => 0x77,
            Instruction::ISHL => 0x78,
            Instruction::LSHL => 0x79,
            Instruction::ISHR => 0x7A,
            Instruction::LSHR => 0x7B,
            Instruction::IUSHR => 0x7C,
            Instruction::LUSHR => 0x7D,
            Instruction::IAND => 0x7E,
            Instruction::LAND => 0x7F,
            Instruction::IOR => 0x80,
            Instruction::LOR => 0x81,
            Instruction::IXOR => 0x82,
            Instruction::LXOR => 0x83,
            Instruction::IINC => 0x84,
            Instruction::I2L => 0x85,
            Instruction::I2F => 0x86,
            Instruction::I2D => 0x87,
            Instruction::L2I => 0x88,
            Instruction::L2F => 0x89,
            Instruction::L2D => 0x8A,
            Instruction::F2I => 0x8B,
            Instruction::F2L => 0x8C,
            Instruction::F2D => 0x8D,
            Instruction::D2I => 0x8E,
            Instruction::D2L => 0x8F,
            Instruction::D2F => 0x90,
            Instruction::I2B => 0x91,
            Instruction::I2C => 0x92,
            Instruction::I2S => 0x93,
            Instruction::LCMP => 0x94,
            Instruction::FCMPL => 0x95,
            Instruction::FCMPG => 0x96,
            Instruction::DCMPL => 0x97,
            Instruction::DCMPG => 0x98,
            Instruction::IFEQ => 0x99,
            Instruction::IFNE => 0x9A,
            Instruction::IFLT => 0x9B,
            Instruction::IFGE => 0x9C,
            Instruction::IFGT => 0x9D,
            Instruction::IFLE => 0x9E,
            Instruction::IF_ICMPEQ => 0x9F,
            Instruction::IF_ICMPNE => 0xA0,
            Instruction::IF_ICMPLT => 0xA1,
            Instruction::IF_ICMPGE => 0xA2,
            Instruction::IF_ICMPGT => 0xA3,
            Instruction::IF_ICMPLE => 0xA4,
            Instruction::IF_ACMPEQ => 0xA5,
            Instruction::IF_ACMPNE => 0xA6,
            Instruction::GOTO => 0xA7,
            Instruction::JSR => 0xA8,
            Instruction::RET => 0xA9,
            Instruction::TABLESWITCH => 0xAA,
            Instruction::LOOKUPSWITCH => 0xAB,
            Instruction::IRETURN => 0xAC,
            Instruction::LRETURN => 0xAD,
            Instruction::FRETURN => 0xAE,
            Instruction::DRETURN => 0xAF,
            Instruction::ARETURN => 0xB0,
            Instruction::RETURN => 0xB1,
            Instruction::GETSTATIC => 0xB2,
            Instruction::PUTSTATIC => 0xB3,
            Instruction::GETFIELD => 0xB4,
            Instruction::PUTFIELD => 0xB5,
            Instruction::INVOKEVIRTUAL => 0xB6,
            Instruction::INVOKESPECIAL => 0xB7,
            Instruction::INVOKESTATIC => 0xB8,
            Instruction::INVOKEINTERFACE => 0xB9,
            Instruction::INVOKEDYNAMIC => 0xBA,
            Instruction::NEW => 0xBB,
            Instruction::NEWARRAY => 0xBC,
            Instruction::ANEWARRAY => 0xBD,
            Instruction::ARRAYLENGTH => 0xBE,
            Instruction::ATHROW => 0xBF,
            Instruction::CHECKCAST => 0xC0,
            Instruction::INSTANCEOF => 0xC1,
            Instruction::MONITORENTER => 0xC2,
            Instruction::MONITOREXIT => 0xC3,
            Instruction::WIDE => 0xC4,
            Instruction::MULTIANEWARRAY => 0xC5,
            Instruction::IFNULL => 0xC6,
            Instruction::IFNONNULL => 0xC7,
            Instruction::GOTO_W => 0xC8,
            Instruction::JSR_W => 0xC9,
            Instruction::BREAKPOINT => 0xCA,
            Instruction::IMPDEP1 => 0xFE,
            Instruction::IMPDEP2 => 0xFF,
        }
    }

    /// The immediate-operand arity of this instruction, in bytes.
    pub fn arity(&self) -> (r: u8)
        ensures
            r == spec_arity(*self),
    {
        match *self {
            Instruction::NOP => 0,
            Instruction::ACONST_NULL => 0,
            Instruction::ICONST_M1 => 0,
            Instruction::ICONST_0 => 0,
            Instruction::ICONST_1 => 0,
            Instruction::ICONST_2 => 0,
            Instruction::ICONST_3 => 0,
            Instruction::ICONST_4 => 0,
            Instruction::ICONST_5 => 0,
            Instruction::LCONST_0 => 0,
            Instruction::LCONST_1 => 0,
            Instruction::FCONST_0 => 0,
            Instruction::FCONST_1 => 0,
            Instruction::FCONST_2 => 0,
            Instruction::DCONST_0 => 0,
            Instruction::DCONST_1 => 0,
            Instruction::BIPUSH => 1,
            Instruction::SIPUSH => 2,
            Instruction::LDC => 1,
            Instruction::LDC_W => 2,
            Instruction::LDC2_W => 2,
            Instruction::ILOAD => 1,
            Instruction::LLOAD => 1,
            Instruction::FLOAD => 1,
            Instruction::DLOAD => 1,
            Instruction::ALOAD => 1,
            Instruction::ILOAD_0 => 0,
            Instruction::ILOAD_1 => 0,
            Instruction::ILOAD_2 => 0,
            Instruction::ILOAD_3 => 0,
            Instruction::LLOAD_0 => 0,
            Instruction::LLOAD_1 => 0,
            Instruction::LLOAD_2 => 0,
            Instruction::LLOAD_3 => 0,
            Instruction::FLOAD_0 => 0,
            Instruction::FLOAD_1 => 0,
            Instruction::FLOAD_2 => 0,
            Instruction::FLOAD_3 => 0,
            Instruction::DLOAD_0 => 0,
            Instruction::DLOAD_1 => 0,
            Instruction::DLOAD_2 => 0,
            Instruction::DLOAD_3 => 0,
            Instruction::ALOAD_0 => 0,
            Instruction::ALOAD_1 => 0,
            Instruction::ALOAD_2 => 0,
            Instruction::ALOAD_3 => 0,
            Instruction::IALOAD => 0,
            Instruction::LALOAD => 0,
            Instruction::FALOAD => 0,
            Instruction::DALOAD => 0,
            Instruction::AALOAD => 0,
            Instruction::BALOAD => 0,
            Instruction::CALOAD => 0,
            Instruction::SALOAD => 0,
            Instruction::ISTORE => 1,
            Instruction::LSTORE => 1,
            Instruction::FSTORE => 1,
            Instruction::DSTORE => 1,
            Instruction::ASTORE => 1,
            Instruction::ISTORE_0 => 0,
            Instruction::ISTORE_1 => 0,
            Instruction::ISTORE_2 => 0,
            Instruction::ISTORE_3 => 0,
            Instruction::LSTORE_0 => 0,
            Instruction::LSTORE_1 => 0,
            Instruction::LSTORE_2 => 0,
            Instruction::LSTORE_3 => 0,
            Instruction::FSTORE_0 => 0,
            Instruction::FSTORE_1 => 0,
            Instruction::FSTORE_2 => 0,
            Instruction::FSTORE_3 => 0,
            Instruction::DSTORE_0 => 0,
            Instruction::DSTORE_1 => 0,
            Instruction::DSTORE_2 => 0,
            Instruction::DSTORE_3 => 0,
            Instruction::ASTORE_0 => 0,
            Instruction::ASTORE_1 => 0,
            Instruction::ASTORE_2 => 0,
            Instruction::ASTORE_3 => 0,
            Instruction::IASTORE => 0,
            Instruction::LASTORE => 0,
            Instruction::FASTORE => 0,
            Instruction::DASTORE => 0,
            Instruction::AASTORE => 0,
            Instruction::BASTORE => 0,
            Instruction::CASTORE => 0,
            Instruction::SASTORE => 0,
            Instruction::POP => 0,
            Instruction::POP2 => 0,
            Instruction::DUP => 0,
            Instruction::DUP_X1 => 0,
            Instruction::DUP_X2 => 0,
            Instruction::DUP2 => 0,
            Instruction::DUP2_X1 => 0,
            Instruction::DUP2_X2 => 0,
            Instruction::SWAP => 0,
            Instruction::IADD => 0,
            Instruction::LADD => 0,
            Instruction::FADD => 0,
            Instruction::DADD => 0,
            Instruction::ISUB => 0,
            Instruction::LSUB => 0,
            Instruction::FSUB => 0,
            Instruction::DSUB => 0,
            Instruction::IMUL => 0,
            Instruction::LMUL => 0,
            Instruction::FMUL => 0,
            Instruction::DMUL => 0,
            Instruction::IDIV => 0,
            Instruction::LDIV => 0,
            Instruction::FDIV => 0,
            Instruction::DDIV => 0,
            Instruction::IREM => 0,
            Instruction::LREM => 0,
            Instruction::FREM => 0,
            Instruction::DREM => 0,
            Instruction::INEG => 0,
            Instruction::LNEG => 0,
            Instruction::FNEG => 0,
            Instruction::DNEG => 0,
            Instruction::ISHL => 0,
            Instruction::LSHL => 0,
            Instruction::ISHR => 0,
            Instruction::LSHR => 0,
            Instruction::IUSHR => 0,
            Instruction::LUSHR => 0,
            Instruction::IAND => 0,
            Instruction::LAND => 0,
            Instruction::IOR => 0,
            Instruction::LOR => 0,
            Instruction::IXOR => 0,
            Instruction::LXOR => 0,
            Instruction::IINC => 2,
            Instruction::I2L => 0,
            Instruction::I2F => 0,
            Instruction::I2D => 0,
            Instruction::L2I => 0,
            Instruction::L2F => 0,
            Instruction::L2D => 0,
            Instruction::F2I => 0,
            Instruction::F2L => 0,
            Instruction::F2D => 0,
            Instruction::D2I => 0,
            Instruction::D2L => 0,
            Instruction::D2F => 0,
            Instruction::I2B => 0,
            Instruction::I2C => 0,
            Instruction::I2S => 0,
            Instruction::LCMP => 0,
            Instruction::FCMPL => 0,
            Instruction::FCMPG => 0,
            Instruction::DCMPL => 0,
            Instruction::DCMPG => 0,
            Instruction::IFEQ => 2,
            Instruction::IFNE => 2,
            Instruction::IFLT => 2,
            Instruction::IFGE => 2,
            Instruction::IFGT => 2,
            Instruction::IFLE => 2,
            Instruction::IF_ICMPEQ => 2,
            Instruction::IF_ICMPNE => 2,
            Instruction::IF_ICMPLT => 2,
            Instruction::IF_ICMPGE => 2,
            Instruction::IF_ICMPGT => 2,
            Instruction::IF_ICMPLE => 2,
            Instruction::IF_ACMPEQ => 2,
            Instruction::IF_ACMPNE => 2,
            Instruction::GOTO => 2,
            Instruction::JSR => 2,
            Instruction::RET => 1,
            Instruction::TABLESWITCH => 16,
            Instruction::LOOKUPSWITCH => 8,
            Instruction::IRETURN => 0,
            Instruction::LRETURN => 0,
            Instruction::FRETURN => 0,
            Instruction::DRETURN => 0,
            Instruction::ARETURN => 0,
            Instruction::RETURN => 0,
            Instruction::GETSTATIC => 2,
            Instruction::PUTSTATIC => 2,
            Instruction::GETFIELD => 2,
            Instruction::PUTFIELD => 2,
            Instruction::INVOKEVIRTUAL => 2,
            Instruction::INVOKESPECIAL => 2,
            Instruction::INVOKESTATIC => 2,
            Instruction::INVOKEINTERFACE => 4,
            Instruction::INVOKEDYNAMIC => 4,
            Instruction::NEW => 2,
            Instruction::NEWARRAY => 1,
            Instruction::ANEWARRAY => 2,
            Instruction::ARRAYLENGTH => 0,
            Instruction::ATHROW => 0,
            Instruction::CHECKCAST => 2,
            Instruction::INSTANCEOF => 2,
            Instruction::MONITORENTER => 0,
            Instruction::MONITOREXIT => 0,
            Instruction::WIDE => 5,
            Instruction::MULTIANEWARRAY => 3,
            Instruction::IFNULL => 2,
            Instruction::IFNONNULL => 2,
            Instruction::GOTO_W => 4,
            Instruction::JSR_W => 4,
            Instruction::BREAKPOINT => 0,
            Instruction::IMPDEP1 => 0,
            Instruction::IMPDEP2 => 0,
        }
    }

    /// Whether this instruction is variable-length.
    pub fn is_varargs(&self) -> (r: bool)
        ensures
            r == (*self is TABLESWITCH || *self is LOOKUPSWITCH),
    {
        match *self {
            Instruction::TABLESWITCH => true,
            Instruction::LOOKUPSWITCH => true,
            _ => false,
        }
    }

    /// Whether this instruction is the `WIDE` prefix.
    pub fn is_wide(&self) -> (r: bool)
        ensures
            r == (*self is WIDE),
    {
        match *self {
            Instruction::WIDE => true,
            _ => false,
        }
    }
}

} // verus!
