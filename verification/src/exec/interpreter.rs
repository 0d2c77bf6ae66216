//! The dispatch core: decoding instructions at a program counter,
//! executing them against a frame, and the run loop.
//!
//! Every piece is proved against a specification-level twin: the
//! decoder against [`spec_decode`], one instruction against [`step`],
//! and the loop against [`spec_run`].

use vstd::prelude::*;
use vstd::string::StringExecFns;

use crate::exec::error::{Error, ErrorV};
use crate::exec::instructions::{spec_arity, spec_lookup, Instruction};
use crate::exec::value::{
    locals_init, stack_words, width, value_width, StackFrame, State, Value,
};
use crate::parse::attribute::Code;
use crate::parse::classfile::ClassFile;
use crate::parse::constant::{pool_lookup, pool_view, Constant, ConstantV};
use crate::parse::method::{first_code, methods_view, Method, MethodV};
use crate::parse::reader::Parsed;

verus! {

broadcast use {
    crate::exec::value::lemma_stack_words_push,
    crate::exec::value::lemma_stack_words_drop,
    crate::exec::value::lemma_stack_words_nonneg,
};

/// The signed value of one byte.
pub open spec fn se8(b: u8) -> int {
    if b < 0x80 {
        b as int
    } else {
        b - 0x100
    }
}

/// The signed value of two big-endian bytes.
pub open spec fn se16(hi: u8, lo: u8) -> int {
    let v = hi * 0x100 + lo;
    if v < 0x8000 {
        v
    } else {
        v - 0x1_0000
    }
}

/// The signed value of four big-endian bytes.
pub open spec fn se32(b0: u8, b1: u8, b2: u8, b3: u8) -> int {
    let v = b0 * 0x100_0000 + b1 * 0x1_0000 + b2 * 0x100 + b3;
    if v < 0x8000_0000 {
        v
    } else {
        v - 0x1_0000_0000
    }
}

/// Sign-extends one byte to a 32-bit integer.
pub fn sign_extend8(b: u8) -> (r: i32)
    ensures
        r == se8(b),
{
    if b < 0x80 {
        b as i32
    } else {
        (b as i32) - 0x100
    }
}

/// Sign-extends two big-endian bytes to a 32-bit integer.
pub fn sign_extend16(hi: u8, lo: u8) -> (r: i32)
    ensures
        r == se16(hi, lo),
{
    let v: i32 = (hi as i32) * 0x100 + (lo as i32);
    if v < 0x8000 {
        v
    } else {
        v - 0x1_0000
    }
}

/// Sign-extends four big-endian bytes to a 32-bit integer.
pub fn sign_extend32(b0: u8, b1: u8, b2: u8, b3: u8) -> (r: i32)
    ensures
        r == se32(b0, b1, b2, b3),
{
    let v: i64 = (b0 as i64) * 0x100_0000 + (b1 as i64) * 0x1_0000 + (b2 as i64) * 0x100 + (
    b3 as i64);
    if v < 0x8000_0000 {
        v as i32
    } else {
        (v - 0x1_0000_0000) as i32
    }
}

/// The unsigned reinterpretation of a 32-bit integer.
pub open spec fn bits32(v: i32) -> u32 {
    if v >= 0 {
        v as u32
    } else {
        (v + 0x1_0000_0000) as u32
    }
}

/// The signed reinterpretation of 32 bits.
pub open spec fn signed32(u: u32) -> i32 {
    if u < 0x8000_0000 {
        u as i32
    } else {
        (u - 0x1_0000_0000) as i32
    }
}

/// The unsigned reinterpretation of a 64-bit integer.
pub open spec fn bits64(v: i64) -> u64 {
    if v >= 0 {
        v as u64
    } else {
        (v + 0x1_0000_0000_0000_0000) as u64
    }
}

/// The signed reinterpretation of 64 bits.
pub open spec fn signed64(u: u64) -> i64 {
    if u < 0x8000_0000_0000_0000 {
        u as i64
    } else {
        (u - 0x1_0000_0000_0000_0000) as i64
    }
}

/// The bits of a 32-bit integer.
pub fn to_bits32(v: i32) -> (r: u32)
    ensures
        r == bits32(v),
{
    if v >= 0 {
        v as u32
    } else {
        ((v as i64) + 0x1_0000_0000) as u32
    }
}

/// The 32-bit integer with the given bits.
pub fn from_bits32(u: u32) -> (r: i32)
    ensures
        r == signed32(u),
{
    if u < 0x8000_0000 {
        u as i32
    } else {
        ((u as i64) - 0x1_0000_0000) as i32
    }
}

/// The bits of a 64-bit integer.
pub fn to_bits64(v: i64) -> (r: u64)
    ensures
        r == bits64(v),
{
    if v >= 0 {
        v as u64
    } else {
        (((v as i128) + 0x1_0000_0000_0000_0000) as u64)
    }
}

/// The 64-bit integer with the given bits.
pub fn from_bits64(u: u64) -> (r: i64)
    ensures
        r == signed64(u),
{
    if u < 0x8000_0000_0000_0000 {
        u as i64
    } else {
        (((u as i128) - 0x1_0000_0000_0000_0000) as i64)
    }
}

/// Division truncated toward zero, as the machine's integer division
/// behaves.
pub open spec fn tdiv(a: int, b: int) -> int {
    let m = abs_int(a) / abs_int(b);
    if (a < 0) != (b < 0) {
        -m
    } else {
        m
    }
}

/// The remainder of truncated division; its sign follows the dividend.
pub open spec fn trem(a: int, b: int) -> int {
    a - b * tdiv(a, b)
}

/// The absolute value of an integer.
pub open spec fn abs_int(a: int) -> int {
    if a < 0 {
        -a
    } else {
        a
    }
}

/// Division of 32-bit integers: truncated toward zero, with the one
/// two's-complement exception that `i32::MIN / -1` yields `i32::MIN`.
pub open spec fn jvm_idiv(a: i32, b: i32) -> i32 {
    if a == i32::MIN && b == -1 {
        i32::MIN
    } else {
        tdiv(a as int, b as int) as i32
    }
}

/// The remainder of 32-bit division; `i32::MIN % -1` yields zero.
pub open spec fn jvm_irem(a: i32, b: i32) -> i32 {
    if a == i32::MIN && b == -1 {
        0
    } else {
        trem(a as int, b as int) as i32
    }
}

/// Division of 64-bit integers, truncated, with `i64::MIN / -1`
/// yielding `i64::MIN`.
pub open spec fn jvm_ldiv(a: i64, b: i64) -> i64 {
    if a == i64::MIN && b == -1 {
        i64::MIN
    } else {
        tdiv(a as int, b as int) as i64
    }
}

/// The remainder of 64-bit division; `i64::MIN % -1` yields zero.
pub open spec fn jvm_lrem(a: i64, b: i64) -> i64 {
    if a == i64::MIN && b == -1 {
        0
    } else {
        trem(a as int, b as int) as i64
    }
}

/// The magnitude of a 32-bit integer, as an unsigned value.
fn magnitude32(a: i32) -> (r: u32)
    ensures
        r == abs_int(a as int),
{
    if a >= 0 {
        a as u32
    } else {
        (-(a as i64)) as u32
    }
}

/// The magnitude of a 64-bit integer, as an unsigned value.
fn magnitude64(a: i64) -> (r: u64)
    ensures
        r == abs_int(a as int),
{
    if a >= 0 {
        a as u64
    } else {
        (-(a as i128)) as u64
    }
}

/// Divides two 32-bit integers, truncating toward zero.
pub fn idiv(a: i32, b: i32) -> (r: i32)
    requires
        b != 0,
    ensures
        r == jvm_idiv(a, b),
{
    if a == i32::MIN && b == -1 {
        i32::MIN
    } else {
        let q = magnitude32(a) / magnitude32(b);
        if (a < 0) != (b < 0) {
            proof {
                assert(q <= 0x8000_0000u32) by (nonlinear_arith)
                    requires
                        q == abs_int(a as int) / abs_int(b as int),
                        abs_int(a as int) <= 0x8000_0000,
                        abs_int(b as int) >= 1,
                ;
            }
            (-(q as i64)) as i32
        } else {
            proof {
                assert(q < 0x8000_0000u32) by (nonlinear_arith)
                    requires
                        q == abs_int(a as int) / abs_int(b as int),
                        abs_int(a as int) <= 0x8000_0000,
                        abs_int(b as int) >= 1,
                        !(abs_int(a as int) == 0x8000_0000 && abs_int(b as int) == 1),
                ;
            }
            q as i32
        }
    }
}

/// The remainder of 32-bit truncating division.
pub fn irem(a: i32, b: i32) -> (r: i32)
    requires
        b != 0,
    ensures
        r == jvm_irem(a, b),
{
    if a == i32::MIN && b == -1 {
        0
    } else {
        let m = magnitude32(a) % magnitude32(b);
        proof {
            lemma_trem_bounds(a as int, b as int);
        }
        if a < 0 {
            (-(m as i64)) as i32
        } else {
            m as i32
        }
    }
}

/// The remainder of truncated division is smaller in magnitude than
/// the divisor and carries the dividend's sign.
pub proof fn lemma_trem_bounds(a: int, b: int)
    requires
        b != 0,
    ensures
        abs_int(trem(a, b)) < abs_int(b),
        a >= 0 ==> trem(a, b) >= 0,
        a < 0 ==> trem(a, b) <= 0,
        b * tdiv(a, b) + trem(a, b) == a,
        abs_int(b * tdiv(a, b)) <= abs_int(a),
        trem(a, b) == if a >= 0 {
            abs_int(a) % abs_int(b)
        } else {
            -(abs_int(a) % abs_int(b))
        },
{
    let ma = abs_int(a);
    let mb = abs_int(b);
    let q = ma / mb;
    let r = ma % mb;
    assert(mb * q + r == ma && 0 <= r < mb && 0 <= mb * q <= ma) by (nonlinear_arith)
        requires
            ma >= 0,
            mb >= 1,
            q == ma / mb,
            r == ma % mb,
    ;
    assert(b * tdiv(a, b) == if a >= 0 {
        mb * q
    } else {
        -(mb * q)
    }) by (nonlinear_arith)
        requires
            mb == abs_int(b),
            ma == abs_int(a),
            q == ma / mb,
            b != 0,
            tdiv(a, b) == (if (a < 0) != (b < 0) {
                -q
            } else {
                q
            }),
    ;
}

/// Divides two 64-bit integers, truncating toward zero.
pub fn ldiv(a: i64, b: i64) -> (r: i64)
    requires
        b != 0,
    ensures
        r == jvm_ldiv(a, b),
{
    if a == i64::MIN && b == -1 {
        i64::MIN
    } else {
        let q = magnitude64(a) / magnitude64(b);
        if (a < 0) != (b < 0) {
            proof {
                assert(q <= 0x8000_0000_0000_0000u64) by (nonlinear_arith)
                    requires
                        q == abs_int(a as int) / abs_int(b as int),
                        abs_int(a as int) <= 0x8000_0000_0000_0000,
                        abs_int(b as int) >= 1,
                ;
            }
            (-(q as i128)) as i64
        } else {
            proof {
                assert(q < 0x8000_0000_0000_0000u64) by (nonlinear_arith)
                    requires
                        q == abs_int(a as int) / abs_int(b as int),
                        abs_int(a as int) <= 0x8000_0000_0000_0000,
                        abs_int(b as int) >= 1,
                        !(abs_int(a as int) == 0x8000_0000_0000_0000 && abs_int(b as int) == 1),
                ;
            }
            q as i64
        }
    }
}

/// The remainder of 64-bit truncating division.
pub fn lrem(a: i64, b: i64) -> (r: i64)
    requires
        b != 0,
    ensures
        r == jvm_lrem(a, b),
{
    if a == i64::MIN && b == -1 {
        0
    } else {
        let m = magnitude64(a) % magnitude64(b);
        proof {
            lemma_trem_bounds(a as int, b as int);
        }
        if a < 0 {
            (-(m as i128)) as i64
        } else {
            m as i64
        }
    }
}

/// The outcome of decoding the instruction at a program counter.
pub enum Decoded {
    /// The instruction, and the position just past it and its operands.
    Next { inst: Instruction, next: int },
    /// Decoding failed with this error.
    Stuck { err: ErrorV },
}

/// Whether a byte is a load, store, or `RET` opcode that the `WIDE`
/// prefix may re-interpret with a 16-bit index.
pub open spec fn wide_target(b: u8) -> bool {
    b == 0x15 || b == 0x16 || b == 0x17 || b == 0x18 || b == 0x19 || b == 0x36 || b == 0x37 || b
        == 0x38 || b == 0x39 || b == 0x3A || b == 0xA9
}

/// The specification-level decode of the instruction at `pc`: the
/// opcode byte selects the instruction; fixed-arity instructions end
/// after their operand bytes; the switches skip alignment padding and
/// read their own extents; `WIDE` covers its re-interpreted target.
#[verifier::opaque]
pub open spec fn spec_decode(code: Seq<u8>, pc: int) -> Decoded {
    if !(0 <= pc < code.len()) {
        Decoded::Stuck { err: ErrorV::GenericError("program counter out of range"@) }
    } else {
        match spec_lookup(code[pc]) {
            None => Decoded::Stuck { err: ErrorV::UnexpectedOpcode(code[pc]) },
            Some(inst) => {
                if inst is TABLESWITCH {
                    let q = pc + 1 + (3 - (pc % 4));
                    if q + 12 > code.len() {
                        Decoded::Stuck { err: ErrorV::GenericError("truncated instruction"@) }
                    } else {
                        let low = se32(code[q + 4], code[q + 5], code[q + 6], code[q + 7]);
                        let high = se32(code[q + 8], code[q + 9], code[q + 10], code[q + 11]);
                        if low > high {
                            Decoded::Stuck {
                                err: ErrorV::GenericError("switch bounds out of order"@),
                            }
                        } else if q + 12 + 4 * (high - low + 1) > code.len() {
                            Decoded::Stuck {
                                err: ErrorV::GenericError("truncated instruction"@),
                            }
                        } else {
                            Decoded::Next { inst, next: q + 12 + 4 * (high - low + 1) }
                        }
                    }
                } else if inst is LOOKUPSWITCH {
                    let q = pc + 1 + (3 - (pc % 4));
                    if q + 8 > code.len() {
                        Decoded::Stuck { err: ErrorV::GenericError("truncated instruction"@) }
                    } else {
                        let npairs = se32(code[q + 4], code[q + 5], code[q + 6], code[q + 7]);
                        if npairs < 0 {
                            Decoded::Stuck {
                                err: ErrorV::GenericError("switch bounds out of order"@),
                            }
                        } else if q + 8 + 8 * npairs > code.len() {
                            Decoded::Stuck {
                                err: ErrorV::GenericError("truncated instruction"@),
                            }
                        } else {
                            Decoded::Next { inst, next: q + 8 + 8 * npairs }
                        }
                    }
                } else if inst is WIDE {
                    if pc + 2 > code.len() {
                        Decoded::Stuck { err: ErrorV::GenericError("truncated instruction"@) }
                    } else if code[pc + 1] == 0x84 {
                        if pc + 6 > code.len() {
                            Decoded::Stuck {
                                err: ErrorV::GenericError("truncated instruction"@),
                            }
                        } else {
                            Decoded::Next { inst, next: pc + 6 }
                        }
                    } else if wide_target(code[pc + 1]) {
                        if pc + 4 > code.len() {
                            Decoded::Stuck {
                                err: ErrorV::GenericError("truncated instruction"@),
                            }
                        } else {
                            Decoded::Next { inst, next: pc + 4 }
                        }
                    } else {
                        Decoded::Stuck { err: ErrorV::UnexpectedOpcode(code[pc + 1]) }
                    }
                } else if pc + 1 + spec_arity(inst) > code.len() {
                    Decoded::Stuck { err: ErrorV::GenericError("truncated instruction"@) }
                } else {
                    Decoded::Next { inst, next: pc + 1 + spec_arity(inst) }
                }
            },
        }
    }
}

/// Decodes the instruction at `pc` and the position just past it.
pub fn decode(code: &Vec<u8>, pc: usize) -> (r: Result<(Instruction, usize), Error>)
    ensures
        match r {
            Ok((inst, next)) => spec_decode(code@, pc as int) == (Decoded::Next {
                inst,
                next: next as int,
            }) && pc < next <= code@.len(),
            Err(e) => spec_decode(code@, pc as int) == (Decoded::Stuck { err: e@ }),
        },
{
    proof {
        reveal(spec_decode);
    }
    if !(pc < code.len()) {
        return Err(Error::GenericError(String::from_str("program counter out of range")));
    }
    let inst = match Instruction::lookup(code[pc]) {
        Some(inst) => inst,
        None => {
            return Err(Error::UnexpectedOpcode(code[pc]));
        },
    };
    if inst.is_varargs() {
        let pad = 3 - (pc % 4);
        let rem = code.len() - pc - 1;
        match inst {
            Instruction::TABLESWITCH => {
                if rem < pad + 12 {
                    return Err(Error::GenericError(String::from_str("truncated instruction")));
                }
                let q = pc + 1 + pad;
                let low = sign_extend32(code[q + 4], code[q + 5], code[q + 6], code[q + 7]);
                let high = sign_extend32(code[q + 8], code[q + 9], code[q + 10], code[q + 11]);
                if low > high {
                    return Err(
                        Error::GenericError(String::from_str("switch bounds out of order")),
                    );
                }
                let count: u64 = (high as i64 - low as i64 + 1) as u64;
                let next: u128 = q as u128 + 12 + 4 * count as u128;
                if next > code.len() as u128 {
                    return Err(Error::GenericError(String::from_str("truncated instruction")));
                }
                Ok((inst, next as usize))
            },
            Instruction::LOOKUPSWITCH => {
                if rem < pad + 8 {
                    return Err(Error::GenericError(String::from_str("truncated instruction")));
                }
                let q = pc + 1 + pad;
                let npairs = sign_extend32(code[q + 4], code[q + 5], code[q + 6], code[q + 7]);
                if npairs < 0 {
                    return Err(
                        Error::GenericError(String::from_str("switch bounds out of order")),
                    );
                }
                let next: u128 = q as u128 + 8 + 8 * npairs as u128;
                if next > code.len() as u128 {
                    return Err(Error::GenericError(String::from_str("truncated instruction")));
                }
                Ok((inst, next as usize))
            },
            _ => vstd::pervasive::unreached(),
        }
    } else if inst.is_wide() {
        if code.len() - pc < 2 {
            return Err(Error::GenericError(String::from_str("truncated instruction")));
        }
        let sub = code[pc + 1];
        if sub == 0x84 {
            if code.len() - pc < 6 {
                return Err(Error::GenericError(String::from_str("truncated instruction")));
            }
            Ok((inst, pc + 6))
        } else if sub == 0x15 || sub == 0x16 || sub == 0x17 || sub == 0x18 || sub == 0x19 || sub
            == 0x36 || sub == 0x37 || sub == 0x38 || sub == 0x39 || sub == 0x3A || sub == 0xA9 {
            if code.len() - pc < 4 {
                return Err(Error::GenericError(String::from_str("truncated instruction")));
            }
            Ok((inst, pc + 4))
        } else {
            Err(Error::UnexpectedOpcode(sub))
        }
    } else {
        let arity = inst.arity() as usize;
        if code.len() - pc - 1 < arity {
            return Err(Error::GenericError(String::from_str("truncated instruction")));
        }
        Ok((inst, pc + 1 + arity))
    }
}

/// The type category a load, store, or return instruction works with.
#[derive(Debug, Copy, Clone, PartialEq, Eq, Structural)]
pub enum Kind {
    Int,
    Long,
    Float,
    Double,
    Reference,
}

/// Whether a value belongs to the category.
pub open spec fn kind_matches(k: Kind, v: Value) -> bool {
    match k {
        Kind::Int => v is Int,
        Kind::Long => v is Long,
        Kind::Float => v is Float,
        Kind::Double => v is Double,
        Kind::Reference => v is Null || v is Reference,
    }
}

/// The name of a category, as it appears in type errors.
pub open spec fn kind_name(k: Kind) -> Seq<char> {
    match k {
        Kind::Int => "integer"@,
        Kind::Long => "long"@,
        Kind::Float => "float"@,
        Kind::Double => "double"@,
        Kind::Reference => "reference"@,
    }
}

/// A comparison selector for the conditional branches.
#[derive(Debug, Copy, Clone, PartialEq, Eq, Structural)]
pub enum CmpOp {
    Eq,
    Ne,
    Lt,
    Ge,
    Gt,
    Le,
}

/// Whether `a` compares to `b` as the selector demands.
pub open spec fn cmp_holds(c: CmpOp, a: int, b: int) -> bool {
    match c {
        CmpOp::Eq => a == b,
        CmpOp::Ne => a != b,
        CmpOp::Lt => a < b,
        CmpOp::Ge => a >= b,
        CmpOp::Gt => a > b,
        CmpOp::Le => a <= b,
    }
}

/// A binary operation on 32-bit integers.
#[derive(Debug, Copy, Clone, PartialEq, Eq, Structural)]
pub enum IntOp {
    Add,
    Sub,
    Mul,
    Div,
    Rem,
    And,
    Or,
    Xor,
    Shl,
    Shr,
    Ushr,
}

/// A binary operation on 64-bit integers whose operands are both long.
#[derive(Debug, Copy, Clone, PartialEq, Eq, Structural)]
pub enum LongOp {
    Add,
    Sub,
    Mul,
    Div,
    Rem,
    And,
    Or,
    Xor,
}

/// The direction of a 64-bit shift, whose count is an int.
#[derive(Debug, Copy, Clone, PartialEq, Eq, Structural)]
pub enum ShiftDir {
    Shl,
    Shr,
    Ushr,
}

/// A unary operation on a 32-bit integer.
#[derive(Debug, Copy, Clone, PartialEq, Eq, Structural)]
pub enum IConv {
    Neg,
    ToByte,
    ToChar,
    ToShort,
}

/// The result of a 32-bit binary operation: two's-complement
/// wraparound for the arithmetic, shift counts masked to the low five
/// bits, and a fault for division or remainder by zero.
pub open spec fn int_op_result(op: IntOp, a: i32, b: i32) -> Result<i32, ErrorV> {
    match op {
        IntOp::Add => Ok(vstd::wrapping::i32_specs::wrapping_add(a, b)),
        IntOp::Sub => Ok(vstd::wrapping::i32_specs::wrapping_sub(a, b)),
        IntOp::Mul => Ok(vstd::wrapping::i32_specs::wrapping_mul(a, b)),
        IntOp::Div => if b == 0 {
            Err(ErrorV::ArithmeticFault)
        } else {
            Ok(jvm_idiv(a, b))
        },
        IntOp::Rem => if b == 0 {
            Err(ErrorV::ArithmeticFault)
        } else {
            Ok(jvm_irem(a, b))
        },
        IntOp::And => Ok(a & b),
        IntOp::Or => Ok(a | b),
        IntOp::Xor => Ok(a ^ b),
        IntOp::Shl => Ok(vstd::wrapping::i32_specs::wrapping_shl(a, bits32(b))),
        IntOp::Shr => Ok(vstd::wrapping::i32_specs::wrapping_shr(a, bits32(b))),
        IntOp::Ushr => Ok(
            signed32(vstd::wrapping::u32_specs::wrapping_shr(bits32(a), bits32(b))),
        ),
    }
}

/// The result of a 64-bit binary operation on two longs.
pub open spec fn long_op_result(op: LongOp, a: i64, b: i64) -> Result<i64, ErrorV> {
    match op {
        LongOp::Add => Ok(vstd::wrapping::i64_specs::wrapping_add(a, b)),
        LongOp::Sub => Ok(vstd::wrapping::i64_specs::wrapping_sub(a, b)),
        LongOp::Mul => Ok(vstd::wrapping::i64_specs::wrapping_mul(a, b)),
        LongOp::Div => if b == 0 {
            Err(ErrorV::ArithmeticFault)
        } else {
            Ok(jvm_ldiv(a, b))
        },
        LongOp::Rem => if b == 0 {
            Err(ErrorV::ArithmeticFault)
        } else {
            Ok(jvm_lrem(a, b))
        },
        LongOp::And => Ok(a & b),
        LongOp::Or => Ok(a | b),
        LongOp::Xor => Ok(a ^ b),
    }
}

/// The result of shifting a long by an int count; the count is masked
/// to the low six bits.
pub open spec fn long_shift_result(dir: ShiftDir, a: i64, s: i32) -> i64 {
    match dir {
        ShiftDir::Shl => vstd::wrapping::i64_specs::wrapping_shl(a, bits32(s)),
        ShiftDir::Shr => vstd::wrapping::i64_specs::wrapping_shr(a, bits32(s)),
        ShiftDir::Ushr => signed64(
            vstd::wrapping::u64_specs::wrapping_shr(bits64(a), bits32(s)),
        ),
    }
}

/// The result of a unary 32-bit operation: wrapping negation, or
/// truncation to byte, char, or short re-extended to an int.
pub open spec fn int_unary_result(c: IConv, v: i32) -> i32 {
    match c {
        IConv::Neg => vstd::wrapping::i32_specs::wrapping_sub(0, v),
        IConv::ToByte => se8((bits32(v) % 0x100) as u8) as i32,
        IConv::ToChar => (bits32(v) % 0x1_0000) as i32,
        IConv::ToShort => {
            let w = bits32(v) % 0x1_0000;
            if w < 0x8000 {
                w as i32
            } else {
                (w - 0x1_0000) as i32
            }
        },
    }
}

/// What one instruction does to a frame: new locals, a new stack, and
/// a control state; or the error that aborts the run.
pub enum StepOut {
    Step { locals: Seq<Value>, stack: Seq<Value>, state: State },
    Abort { err: ErrorV },
}

/// Pushes `v`, unless that would take the stack past `ms` words.
pub open spec fn push1(
    locals: Seq<Value>,
    stack: Seq<Value>,
    ms: int,
    v: Value,
    st: State,
) -> StepOut {
    if stack_words(stack) + width(v) <= ms {
        StepOut::Step { locals, stack: stack.push(v), state: st }
    } else {
        StepOut::Abort { err: ErrorV::GenericError("operand stack overflow"@) }
    }
}

/// Loads the local at `index` onto the stack; the slot must hold an
/// initialized value of the category `k`.
pub open spec fn spec_load(
    locals: Seq<Value>,
    stack: Seq<Value>,
    ms: int,
    index: usize,
    k: Kind,
) -> StepOut {
    if index >= locals.len() {
        StepOut::Abort { err: ErrorV::VariableOutOfScope }
    } else if !kind_matches(k, locals[index as int]) {
        StepOut::Abort { err: ErrorV::VariableType(kind_name(k), index) }
    } else {
        push1(locals, stack, ms, locals[index as int], State::Continue)
    }
}

/// Pops a value of the category `k` and stores it in the local at
/// `index`.  A long or double also claims the following slot, whose
/// old content becomes unusable.
pub open spec fn spec_store(
    locals: Seq<Value>,
    stack: Seq<Value>,
    ms: int,
    index: usize,
    k: Kind,
) -> StepOut {
    if stack.len() == 0 {
        StepOut::Abort { err: ErrorV::EmptyStack }
    } else {
        let v = stack.last();
        let rest = stack.drop_last();
        if !kind_matches(k, v) {
            StepOut::Abort { err: ErrorV::StackType(kind_name(k)) }
        } else if k is Long || k is Double {
            if index + 1 >= locals.len() {
                StepOut::Abort { err: ErrorV::VariableOutOfScope }
            } else {
                StepOut::Step {
                    locals: locals.update(index as int, v).update(
                        index + 1,
                        Value::Unset,
                    ),
                    stack: rest,
                    state: State::Continue,
                }
            }
        } else {
            if index >= locals.len() {
                StepOut::Abort { err: ErrorV::VariableOutOfScope }
            } else {
                StepOut::Step {
                    locals: locals.update(index as int, v),
                    stack: rest,
                    state: State::Continue,
                }
            }
        }
    }
}

/// Pops two ints and pushes the result of the binary operation.
pub open spec fn spec_ibin(
    op: IntOp,
    locals: Seq<Value>,
    stack: Seq<Value>,
    ms: int,
) -> StepOut {
    if stack.len() < 2 {
        StepOut::Abort { err: ErrorV::EmptyStack }
    } else {
        let v2 = stack.last();
        let v1 = stack.drop_last().last();
        let rest = stack.drop_last().drop_last();
        match (v1, v2) {
            (Value::Int(a), Value::Int(b)) => match int_op_result(op, a, b) {
                Ok(v) => push1(locals, rest, ms, Value::Int(v), State::Continue),
                Err(err) => StepOut::Abort { err },
            },
            _ => StepOut::Abort { err: ErrorV::StackType("integer"@) },
        }
    }
}

/// Pops two longs and pushes the result of the binary operation.
pub open spec fn spec_lbin(
    op: LongOp,
    locals: Seq<Value>,
    stack: Seq<Value>,
    ms: int,
) -> StepOut {
    if stack.len() < 2 {
        StepOut::Abort { err: ErrorV::EmptyStack }
    } else {
        let v2 = stack.last();
        let v1 = stack.drop_last().last();
        let rest = stack.drop_last().drop_last();
        match (v1, v2) {
            (Value::Long(a), Value::Long(b)) => match long_op_result(op, a, b) {
                Ok(v) => push1(locals, rest, ms, Value::Long(v), State::Continue),
                Err(err) => StepOut::Abort { err },
            },
            _ => StepOut::Abort { err: ErrorV::StackType("long"@) },
        }
    }
}

/// Pops an int shift count, then a long, and pushes the shifted long.
pub open spec fn spec_lshift(
    dir: ShiftDir,
    locals: Seq<Value>,
    stack: Seq<Value>,
    ms: int,
) -> StepOut {
    if stack.len() < 2 {
        StepOut::Abort { err: ErrorV::EmptyStack }
    } else {
        let v2 = stack.last();
        let v1 = stack.drop_last().last();
        let rest = stack.drop_last().drop_last();
        match (v1, v2) {
            (Value::Long(a), Value::Int(c)) => push1(
                locals,
                rest,
                ms,
                Value::Long(long_shift_result(dir, a, c)),
                State::Continue,
            ),
            (Value::Long(a), _) => StepOut::Abort { err: ErrorV::StackType("integer"@) },
            _ => StepOut::Abort { err: ErrorV::StackType("long"@) },
        }
    }
}

/// Pops an int and pushes the result of the unary operation.
pub open spec fn spec_iunary(
    c: IConv,
    locals: Seq<Value>,
    stack: Seq<Value>,
    ms: int,
) -> StepOut {
    if stack.len() == 0 {
        StepOut::Abort { err: ErrorV::EmptyStack }
    } else {
        match stack.last() {
            Value::Int(v) => push1(
                locals,
                stack.drop_last(),
                ms,
                Value::Int(int_unary_result(c, v)),
                State::Continue,
            ),
            _ => StepOut::Abort { err: ErrorV::StackType("integer"@) },
        }
    }
}

/// Adds a constant to the int in the local at `index`, wrapping.
pub open spec fn spec_iinc(
    locals: Seq<Value>,
    stack: Seq<Value>,
    index: usize,
    delta: i32,
) -> StepOut {
    if index >= locals.len() {
        StepOut::Abort { err: ErrorV::VariableOutOfScope }
    } else {
        match locals[index as int] {
            Value::Int(v) => StepOut::Step {
                locals: locals.update(
                    index as int,
                    Value::Int(vstd::wrapping::i32_specs::wrapping_add(v, delta)),
                ),
                stack,
                state: State::Continue,
            },
            _ => StepOut::Abort { err: ErrorV::VariableType("integer"@, index) },
        }
    }
}

/// The state after a conditional branch: a relative jump when the
/// condition held, otherwise fall-through.
pub open spec fn branch_state(code: Seq<u8>, pc: int, taken: bool) -> State {
    if taken {
        State::GotoRelative(se16(code[pc + 1], code[pc + 2]) as i32)
    } else {
        State::Continue
    }
}

/// Pops an int and branches on how it compares to zero.
pub open spec fn spec_if(
    code: Seq<u8>,
    pc: int,
    locals: Seq<Value>,
    stack: Seq<Value>,
    c: CmpOp,
) -> StepOut {
    if stack.len() == 0 {
        StepOut::Abort { err: ErrorV::EmptyStack }
    } else {
        match stack.last() {
            Value::Int(v) => StepOut::Step {
                locals,
                stack: stack.drop_last(),
                state: branch_state(code, pc, cmp_holds(c, v as int, 0)),
            },
            _ => StepOut::Abort { err: ErrorV::StackType("integer"@) },
        }
    }
}

/// Pops two ints and branches on how the first compares to the second.
pub open spec fn spec_if_icmp(
    code: Seq<u8>,
    pc: int,
    locals: Seq<Value>,
    stack: Seq<Value>,
    c: CmpOp,
) -> StepOut {
    if stack.len() < 2 {
        StepOut::Abort { err: ErrorV::EmptyStack }
    } else {
        let v2 = stack.last();
        let v1 = stack.drop_last().last();
        let rest = stack.drop_last().drop_last();
        match (v1, v2) {
            (Value::Int(a), Value::Int(b)) => StepOut::Step {
                locals,
                stack: rest,
                state: branch_state(code, pc, cmp_holds(c, a as int, b as int)),
            },
            _ => StepOut::Abort { err: ErrorV::StackType("integer"@) },
        }
    }
}

/// Pops two references and branches on whether they are the same.
pub open spec fn spec_if_acmp(
    code: Seq<u8>,
    pc: int,
    locals: Seq<Value>,
    stack: Seq<Value>,
    want_eq: bool,
) -> StepOut {
    if stack.len() < 2 {
        StepOut::Abort { err: ErrorV::EmptyStack }
    } else {
        let v2 = stack.last();
        let v1 = stack.drop_last().last();
        let rest = stack.drop_last().drop_last();
        if !kind_matches(Kind::Reference, v1) || !kind_matches(Kind::Reference, v2) {
            StepOut::Abort { err: ErrorV::StackType("reference"@) }
        } else {
            StepOut::Step {
                locals,
                stack: rest,
                state: branch_state(code, pc, (v1 == v2) == want_eq),
            }
        }
    }
}

/// Pops a reference and branches on whether it is null.
pub open spec fn spec_ifnull(
    code: Seq<u8>,
    pc: int,
    locals: Seq<Value>,
    stack: Seq<Value>,
    want_null: bool,
) -> StepOut {
    if stack.len() == 0 {
        StepOut::Abort { err: ErrorV::EmptyStack }
    } else {
        let v = stack.last();
        if !kind_matches(Kind::Reference, v) {
            StepOut::Abort { err: ErrorV::StackType("reference"@) }
        } else {
            StepOut::Step {
                locals,
                stack: stack.drop_last(),
                state: branch_state(code, pc, (v is Null) == want_null),
            }
        }
    }
}

/// Pops a value of the category `k` and terminates the frame with it.
pub open spec fn spec_return(
    locals: Seq<Value>,
    stack: Seq<Value>,
    k: Kind,
) -> StepOut {
    if stack.len() == 0 {
        StepOut::Abort { err: ErrorV::EmptyStack }
    } else {
        let v = stack.last();
        if !kind_matches(k, v) {
            StepOut::Abort { err: ErrorV::StackType(kind_name(k)) }
        } else {
            StepOut::Step {
                locals,
                stack: stack.drop_last(),
                state: State::Return(Some(v)),
            }
        }
    }
}

/// Pops two longs and pushes their three-way comparison.
pub open spec fn spec_lcmp(locals: Seq<Value>, stack: Seq<Value>, ms: int) -> StepOut {
    if stack.len() < 2 {
        StepOut::Abort { err: ErrorV::EmptyStack }
    } else {
        let v2 = stack.last();
        let v1 = stack.drop_last().last();
        let rest = stack.drop_last().drop_last();
        match (v1, v2) {
            (Value::Long(a), Value::Long(b)) => {
                let c: i32 = if a > b {
                    1i32
                } else if a == b {
                    0i32
                } else {
                    (-1) as i32
                };
                push1(locals, rest, ms, Value::Int(c), State::Continue)
            },
            _ => StepOut::Abort { err: ErrorV::StackType("long"@) },
        }
    }
}

/// Discards the top single-word value.
pub open spec fn spec_pop(locals: Seq<Value>, stack: Seq<Value>) -> StepOut {
    if stack.len() == 0 {
        StepOut::Abort { err: ErrorV::EmptyStack }
    } else if width(stack.last()) == 2 {
        StepOut::Abort { err: ErrorV::StackType("single-word value"@) }
    } else {
        StepOut::Step { locals, stack: stack.drop_last(), state: State::Continue }
    }
}

/// Discards two words: one two-word value or two single-word values.
pub open spec fn spec_pop2(locals: Seq<Value>, stack: Seq<Value>) -> StepOut {
    if stack.len() == 0 {
        StepOut::Abort { err: ErrorV::EmptyStack }
    } else if width(stack.last()) == 2 {
        StepOut::Step { locals, stack: stack.drop_last(), state: State::Continue }
    } else {
        let s1 = stack.drop_last();
        if s1.len() == 0 {
            StepOut::Abort { err: ErrorV::EmptyStack }
        } else if width(s1.last()) == 2 {
            StepOut::Abort { err: ErrorV::StackType("single-word value"@) }
        } else {
            StepOut::Step { locals, stack: s1.drop_last(), state: State::Continue }
        }
    }
}

/// Duplicates the top single-word value.
pub open spec fn spec_dup(locals: Seq<Value>, stack: Seq<Value>, ms: int) -> StepOut {
    if stack.len() == 0 {
        StepOut::Abort { err: ErrorV::EmptyStack }
    } else if width(stack.last()) == 2 {
        StepOut::Abort { err: ErrorV::StackType("single-word value"@) }
    } else {
        push1(locals, stack, ms, stack.last(), State::Continue)
    }
}

/// Duplicates the top single-word value beneath the second.
pub open spec fn spec_dup_x1(locals: Seq<Value>, stack: Seq<Value>, ms: int) -> StepOut {
    if stack.len() < 2 {
        StepOut::Abort { err: ErrorV::EmptyStack }
    } else {
        let v1 = stack.last();
        let v2 = stack.drop_last().last();
        let rest = stack.drop_last().drop_last();
        if width(v1) == 2 || width(v2) == 2 {
            StepOut::Abort { err: ErrorV::StackType("single-word value"@) }
        } else if stack_words(stack) + 1 <= ms {
            StepOut::Step {
                locals,
                stack: rest.push(v1).push(v2).push(v1),
                state: State::Continue,
            }
        } else {
            StepOut::Abort { err: ErrorV::GenericError("operand stack overflow"@) }
        }
    }
}

/// Duplicates the top single-word value two or three values down,
/// depending on whether the second value is two words wide.
pub open spec fn spec_dup_x2(locals: Seq<Value>, stack: Seq<Value>, ms: int) -> StepOut {
    if stack.len() < 2 {
        StepOut::Abort { err: ErrorV::EmptyStack }
    } else {
        let v1 = stack.last();
        let v2 = stack.drop_last().last();
        let s2 = stack.drop_last().drop_last();
        if width(v1) == 2 {
            StepOut::Abort { err: ErrorV::StackType("single-word value"@) }
        } else if width(v2) == 2 {
            if stack_words(stack) + 1 <= ms {
                StepOut::Step {
                    locals,
                    stack: s2.push(v1).push(v2).push(v1),
                    state: State::Continue,
                }
            } else {
                StepOut::Abort { err: ErrorV::GenericError("operand stack overflow"@) }
            }
        } else if s2.len() == 0 {
            StepOut::Abort { err: ErrorV::EmptyStack }
        } else {
            let v3 = s2.last();
            let s3 = s2.drop_last();
            if width(v3) == 2 {
                StepOut::Abort { err: ErrorV::StackType("single-word value"@) }
            } else if stack_words(stack) + 1 <= ms {
                StepOut::Step {
                    locals,
                    stack: s3.push(v1).push(v3).push(v2).push(v1),
                    state: State::Continue,
                }
            } else {
                StepOut::Abort { err: ErrorV::GenericError("operand stack overflow"@) }
            }
        }
    }
}

/// Duplicates the top two words: one two-word value or two single-word
/// values.
pub open spec fn spec_dup2(locals: Seq<Value>, stack: Seq<Value>, ms: int) -> StepOut {
    if stack.len() == 0 {
        StepOut::Abort { err: ErrorV::EmptyStack }
    } else if width(stack.last()) == 2 {
        push1(locals, stack, ms, stack.last(), State::Continue)
    } else {
        let v1 = stack.last();
        let s1 = stack.drop_last();
        if s1.len() == 0 {
            StepOut::Abort { err: ErrorV::EmptyStack }
        } else if width(s1.last()) == 2 {
            StepOut::Abort { err: ErrorV::StackType("single-word value"@) }
        } else if stack_words(stack) + 2 <= ms {
            StepOut::Step {
                locals,
                stack: stack.push(s1.last()).push(v1),
                state: State::Continue,
            }
        } else {
            StepOut::Abort { err: ErrorV::GenericError("operand stack overflow"@) }
        }
    }
}

/// Duplicates the top two words beneath the value below them.
pub open spec fn spec_dup2_x1(locals: Seq<Value>, stack: Seq<Value>, ms: int) -> StepOut {
    if stack.len() < 2 {
        StepOut::Abort { err: ErrorV::EmptyStack }
    } else {
        let v1 = stack.last();
        let v2 = stack.drop_last().last();
        let s2 = stack.drop_last().drop_last();
        if width(v2) == 2 {
            StepOut::Abort { err: ErrorV::StackType("single-word value"@) }
        } else if width(v1) == 2 {
            if stack_words(stack) + 2 <= ms {
                StepOut::Step {
                    locals,
                    stack: s2.push(v1).push(v2).push(v1),
                    state: State::Continue,
                }
            } else {
                StepOut::Abort { err: ErrorV::GenericError("operand stack overflow"@) }
            }
        } else if s2.len() == 0 {
            StepOut::Abort { err: ErrorV::EmptyStack }
        } else {
            let v3 = s2.last();
            let s3 = s2.drop_last();
            if width(v3) == 2 {
                StepOut::Abort { err: ErrorV::StackType("single-word value"@) }
            } else if stack_words(stack) + 2 <= ms {
                StepOut::Step {
                    locals,
                    stack: s3.push(v2).push(v1).push(v3).push(v2).push(v1),
                    state: State::Continue,
                }
            } else {
                StepOut::Abort { err: ErrorV::GenericError("operand stack overflow"@) }
            }
        }
    }
}

/// Duplicates the top two words beneath the two words below them.
pub open spec fn spec_dup2_x2(locals: Seq<Value>, stack: Seq<Value>, ms: int) -> StepOut {
    if stack.len() < 2 {
        StepOut::Abort { err: ErrorV::EmptyStack }
    } else {
        let v1 = stack.last();
        let v2 = stack.drop_last().last();
        let s2 = stack.drop_last().drop_last();
        if width(v1) == 2 {
            if width(v2) == 2 {
                if stack_words(stack) + 2 <= ms {
                    StepOut::Step {
                        locals,
                        stack: s2.push(v1).push(v2).push(v1),
                        state: State::Continue,
                    }
                } else {
                    StepOut::Abort {
                        err: ErrorV::GenericError("operand stack overflow"@),
                    }
                }
            } else if s2.len() == 0 {
                StepOut::Abort { err: ErrorV::EmptyStack }
            } else {
                let v3 = s2.last();
                let s3 = s2.drop_last();
                if width(v3) == 2 {
                    StepOut::Abort { err: ErrorV::StackType("single-word value"@) }
                } else if stack_words(stack) + 2 <= ms {
                    StepOut::Step {
                        locals,
                        stack: s3.push(v1).push(v3).push(v2).push(v1),
                        state: State::Continue,
                    }
                } else {
                    StepOut::Abort {
                        err: ErrorV::GenericError("operand stack overflow"@),
                    }
                }
            }
        } else if width(v2) == 2 {
            StepOut::Abort { err: ErrorV::StackType("single-word value"@) }
        } else if s2.len() == 0 {
            StepOut::Abort { err: ErrorV::EmptyStack }
        } else {
            let v3 = s2.last();
            let s3 = s2.drop_last();
            if width(v3) == 2 {
                if stack_words(stack) + 2 <= ms {
                    StepOut::Step {
                        locals,
                        stack: s3.push(v2).push(v1).push(v3).push(v2).push(v1),
                        state: State::Continue,
                    }
                } else {
                    StepOut::Abort {
                        err: ErrorV::GenericError("operand stack overflow"@),
                    }
                }
            } else if s3.len() == 0 {
                StepOut::Abort { err: ErrorV::EmptyStack }
            } else {
                let v4 = s3.last();
                let s4 = s3.drop_last();
                if width(v4) == 2 {
                    StepOut::Abort { err: ErrorV::StackType("single-word value"@) }
                } else if stack_words(stack) + 2 <= ms {
                    StepOut::Step {
                        locals,
                        stack: s4.push(v2).push(v1).push(v4).push(v3).push(v2).push(v1),
                        state: State::Continue,
                    }
                } else {
                    StepOut::Abort {
                        err: ErrorV::GenericError("operand stack overflow"@),
                    }
                }
            }
        }
    }
}

/// Swaps the top two single-word values.
pub open spec fn spec_swap(locals: Seq<Value>, stack: Seq<Value>) -> StepOut {
    if stack.len() < 2 {
        StepOut::Abort { err: ErrorV::EmptyStack }
    } else {
        let v1 = stack.last();
        let v2 = stack.drop_last().last();
        let rest = stack.drop_last().drop_last();
        if width(v1) == 2 || width(v2) == 2 {
            StepOut::Abort { err: ErrorV::StackType("single-word value"@) }
        } else {
            StepOut::Step {
                locals,
                stack: rest.push(v1).push(v2),
                state: State::Continue,
            }
        }
    }
}

/// Pops an int and pushes it widened to a long.
pub open spec fn spec_i2l(locals: Seq<Value>, stack: Seq<Value>, ms: int) -> StepOut {
    if stack.len() == 0 {
        StepOut::Abort { err: ErrorV::EmptyStack }
    } else {
        match stack.last() {
            Value::Int(v) => push1(
                locals,
                stack.drop_last(),
                ms,
                Value::Long(v as i64),
                State::Continue,
            ),
            _ => StepOut::Abort { err: ErrorV::StackType("integer"@) },
        }
    }
}

/// Pops a long and pushes its low 32 bits as an int.
pub open spec fn spec_l2i(locals: Seq<Value>, stack: Seq<Value>, ms: int) -> StepOut {
    if stack.len() == 0 {
        StepOut::Abort { err: ErrorV::EmptyStack }
    } else {
        match stack.last() {
            Value::Long(v) => push1(
                locals,
                stack.drop_last(),
                ms,
                Value::Int(signed32((bits64(v) % 0x1_0000_0000) as u32)),
                State::Continue,
            ),
            _ => StepOut::Abort { err: ErrorV::StackType("long"@) },
        }
    }
}

/// Pops a long and pushes its wrapping negation.
pub open spec fn spec_lneg(locals: Seq<Value>, stack: Seq<Value>, ms: int) -> StepOut {
    if stack.len() == 0 {
        StepOut::Abort { err: ErrorV::EmptyStack }
    } else {
        match stack.last() {
            Value::Long(v) => push1(
                locals,
                stack.drop_last(),
                ms,
                Value::Long(vstd::wrapping::i64_specs::wrapping_sub(0, v)),
                State::Continue,
            ),
            _ => StepOut::Abort { err: ErrorV::StackType("long"@) },
        }
    }
}

/// What one instruction at `pc` does to the frame.  Instructions whose
/// semantics need the object model, floating-point arithmetic, or the
/// constant pool abort the run; the reserved opcodes are fatal.
#[verifier::opaque]
pub open spec fn step(
    inst: Instruction,
    code: Seq<u8>,
    pc: int,
    locals: Seq<Value>,
    stack: Seq<Value>,
    ms: int,
) -> StepOut {
    match inst {
        Instruction::NOP => StepOut::Step { locals, stack, state: State::Continue },
        Instruction::ACONST_NULL => push1(locals, stack, ms, Value::Null, State::Continue),
        Instruction::ICONST_M1 => push1(
            locals,
            stack,
            ms,
            Value::Int((-1) as i32),
            State::Continue,
        ),
        Instruction::ICONST_0 => push1(locals, stack, ms, Value::Int(0), State::Continue),
        Instruction::ICONST_1 => push1(locals, stack, ms, Value::Int(1), State::Continue),
        Instruction::ICONST_2 => push1(locals, stack, ms, Value::Int(2), State::Continue),
        Instruction::ICONST_3 => push1(locals, stack, ms, Value::Int(3), State::Continue),
        Instruction::ICONST_4 => push1(locals, stack, ms, Value::Int(4), State::Continue),
        Instruction::ICONST_5 => push1(locals, stack, ms, Value::Int(5), State::Continue),
        Instruction::LCONST_0 => push1(locals, stack, ms, Value::Long(0), State::Continue),
        Instruction::LCONST_1 => push1(locals, stack, ms, Value::Long(1), State::Continue),
        Instruction::FCONST_0 => push1(
            locals,
            stack,
            ms,
            Value::Float(0x0000_0000),
            State::Continue,
        ),
        Instruction::FCONST_1 => push1(
            locals,
            stack,
            ms,
            Value::Float(0x3F80_0000),
            State::Continue,
        ),
        Instruction::FCONST_2 => push1(
            locals,
            stack,
            ms,
            Value::Float(0x4000_0000),
            State::Continue,
        ),
        Instruction::DCONST_0 => push1(
            locals,
            stack,
            ms,
            Value::Double(0x0000_0000_0000_0000),
            State::Continue,
        ),
        Instruction::DCONST_1 => push1(
            locals,
            stack,
            ms,
            Value::Double(0x3FF0_0000_0000_0000),
            State::Continue,
        ),
        Instruction::BIPUSH => push1(
            locals,
            stack,
            ms,
            Value::Int(se8(code[pc + 1]) as i32),
            State::Continue,
        ),
        Instruction::SIPUSH => push1(
            locals,
            stack,
            ms,
            Value::Int(se16(code[pc + 1], code[pc + 2]) as i32),
            State::Continue,
        ),
        Instruction::ILOAD => spec_load(locals, stack, ms, code[pc + 1] as usize, Kind::Int),
        Instruction::LLOAD => spec_load(locals, stack, ms, code[pc + 1] as usize, Kind::Long),
        Instruction::FLOAD => spec_load(locals, stack, ms, code[pc + 1] as usize, Kind::Float),
        Instruction::DLOAD => spec_load(locals, stack, ms, code[pc + 1] as usize, Kind::Double),
        Instruction::ALOAD => spec_load(
            locals,
            stack,
            ms,
            code[pc + 1] as usize,
            Kind::Reference,
        ),
        Instruction::ILOAD_0 => spec_load(locals, stack, ms, 0, Kind::Int),
        Instruction::ILOAD_1 => spec_load(locals, stack, ms, 1, Kind::Int),
        Instruction::ILOAD_2 => spec_load(locals, stack, ms, 2, Kind::Int),
        Instruction::ILOAD_3 => spec_load(locals, stack, ms, 3, Kind::Int),
        Instruction::LLOAD_0 => spec_load(locals, stack, ms, 0, Kind::Long),
        Instruction::LLOAD_1 => spec_load(locals, stack, ms, 1, Kind::Long),
        Instruction::LLOAD_2 => spec_load(locals, stack, ms, 2, Kind::Long),
        Instruction::LLOAD_3 => spec_load(locals, stack, ms, 3, Kind::Long),
        Instruction::FLOAD_0 => spec_load(locals, stack, ms, 0, Kind::Float),
        Instruction::FLOAD_1 => spec_load(locals, stack, ms, 1, Kind::Float),
        Instruction::FLOAD_2 => spec_load(locals, stack, ms, 2, Kind::Float),
        Instruction::FLOAD_3 => spec_load(locals, stack, ms, 3, Kind::Float),
        Instruction::DLOAD_0 => spec_load(locals, stack, ms, 0, Kind::Double),
        Instruction::DLOAD_1 => spec_load(locals, stack, ms, 1, Kind::Double),
        Instruction::DLOAD_2 => spec_load(locals, stack, ms, 2, Kind::Double),
        Instruction::DLOAD_3 => spec_load(locals, stack, ms, 3, Kind::Double),
        Instruction::ALOAD_0 => spec_load(locals, stack, ms, 0, Kind::Reference),
        Instruction::ALOAD_1 => spec_load(locals, stack, ms, 1, Kind::Reference),
        Instruction::ALOAD_2 => spec_load(locals, stack, ms, 2, Kind::Reference),
        Instruction::ALOAD_3 => spec_load(locals, stack, ms, 3, Kind::Reference),
        Instruction::ISTORE => spec_store(locals, stack, ms, code[pc + 1] as usize, Kind::Int),
        Instruction::LSTORE => spec_store(locals, stack, ms, code[pc + 1] as usize, Kind::Long),
        Instruction::FSTORE => spec_store(
            locals,
            stack,
            ms,
            code[pc + 1] as usize,
            Kind::Float,
        ),
        Instruction::DSTORE => spec_store(
            locals,
            stack,
            ms,
            code[pc + 1] as usize,
            Kind::Double,
        ),
        Instruction::ASTORE => spec_store(
            locals,
            stack,
            ms,
            code[pc + 1] as usize,
            Kind::Reference,
        ),
        Instruction::ISTORE_0 => spec_store(locals, stack, ms, 0, Kind::Int),
        Instruction::ISTORE_1 => spec_store(locals, stack, ms, 1, Kind::Int),
        Instruction::ISTORE_2 => spec_store(locals, stack, ms, 2, Kind::Int),
        Instruction::ISTORE_3 => spec_store(locals, stack, ms, 3, Kind::Int),
        Instruction::LSTORE_0 => spec_store(locals, stack, ms, 0, Kind::Long),
        Instruction::LSTORE_1 => spec_store(locals, stack, ms, 1, Kind::Long),
        Instruction::LSTORE_2 => spec_store(locals, stack, ms, 2, Kind::Long),
        Instruction::LSTORE_3 => spec_store(locals, stack, ms, 3, Kind::Long),
        Instruction::FSTORE_0 => spec_store(locals, stack, ms, 0, Kind::Float),
        Instruction::FSTORE_1 => spec_store(locals, stack, ms, 1, Kind::Float),
        Instruction::FSTORE_2 => spec_store(locals, stack, ms, 2, Kind::Float),
        Instruction::FSTORE_3 => spec_store(locals, stack, ms, 3, Kind::Float),
        Instruction::DSTORE_0 => spec_store(locals, stack, ms, 0, Kind::Double),
        Instruction::DSTORE_1 => spec_store(locals, stack, ms, 1, Kind::Double),
        Instruction::DSTORE_2 => spec_store(locals, stack, ms, 2, Kind::Double),
        Instruction::DSTORE_3 => spec_store(locals, stack, ms, 3, Kind::Double),
        Instruction::ASTORE_0 => spec_store(locals, stack, ms, 0, Kind::Reference),
        Instruction::ASTORE_1 => spec_store(locals, stack, ms, 1, Kind::Reference),
        Instruction::ASTORE_2 => spec_store(locals, stack, ms, 2, Kind::Reference),
        Instruction::ASTORE_3 => spec_store(locals, stack, ms, 3, Kind::Reference),
        Instruction::POP => spec_pop(locals, stack),
        Instruction::POP2 => spec_pop2(locals, stack),
        Instruction::DUP => spec_dup(locals, stack, ms),
        Instruction::DUP_X1 => spec_dup_x1(locals, stack, ms),
        Instruction::DUP_X2 => spec_dup_x2(locals, stack, ms),
        Instruction::DUP2 => spec_dup2(locals, stack, ms),
        Instruction::DUP2_X1 => spec_dup2_x1(locals, stack, ms),
        Instruction::DUP2_X2 => spec_dup2_x2(locals, stack, ms),
        Instruction::SWAP => spec_swap(locals, stack),
        Instruction::IADD => spec_ibin(IntOp::Add, locals, stack, ms),
        Instruction::ISUB => spec_ibin(IntOp::Sub, locals, stack, ms),
        Instruction::IMUL => spec_ibin(IntOp::Mul, locals, stack, ms),
        Instruction::IDIV => spec_ibin(IntOp::Div, locals, stack, ms),
        Instruction::IREM => spec_ibin(IntOp::Rem, locals, stack, ms),
        Instruction::IAND => spec_ibin(IntOp::And, locals, stack, ms),
        Instruction::IOR => spec_ibin(IntOp::Or, locals, stack, ms),
        Instruction::IXOR => spec_ibin(IntOp::Xor, locals, stack, ms),
        Instruction::ISHL => spec_ibin(IntOp::Shl, locals, stack, ms),
        Instruction::ISHR => spec_ibin(IntOp::Shr, locals, stack, ms),
        Instruction::IUSHR => spec_ibin(IntOp::Ushr, locals, stack, ms),
        Instruction::INEG => spec_iunary(IConv::Neg, locals, stack, ms),
        Instruction::I2B => spec_iunary(IConv::ToByte, locals, stack, ms),
        Instruction::I2C => spec_iunary(IConv::ToChar, locals, stack, ms),
        Instruction::I2S => spec_iunary(IConv::ToShort, locals, stack, ms),
        Instruction::I2L => spec_i2l(locals, stack, ms),
        Instruction::L2I => spec_l2i(locals, stack, ms),
        Instruction::LADD => spec_lbin(LongOp::Add, locals, stack, ms),
        Instruction::LSUB => spec_lbin(LongOp::Sub, locals, stack, ms),
        Instruction::LMUL => spec_lbin(LongOp::Mul, locals, stack, ms),
        Instruction::LDIV => spec_lbin(LongOp::Div, locals, stack, ms),
        Instruction::LREM => spec_lbin(LongOp::Rem, locals, stack, ms),
        Instruction::LAND => spec_lbin(LongOp::And, locals, stack, ms),
        Instruction::LOR => spec_lbin(LongOp::Or, locals, stack, ms),
        Instruction::LXOR => spec_lbin(LongOp::Xor, locals, stack, ms),
        Instruction::LSHL => spec_lshift(ShiftDir::Shl, locals, stack, ms),
        Instruction::LSHR => spec_lshift(ShiftDir::Shr, locals, stack, ms),
        Instruction::LUSHR => spec_lshift(ShiftDir::Ushr, locals, stack, ms),
        Instruction::LNEG => spec_lneg(locals, stack, ms),
        Instruction::LCMP => spec_lcmp(locals, stack, ms),
        Instruction::IINC => spec_iinc(
            locals,
            stack,
            code[pc + 1] as usize,
            se8(code[pc + 2]) as i32,
        ),
        Instruction::IFEQ => spec_if(code, pc, locals, stack, CmpOp::Eq),
        Instruction::IFNE => spec_if(code, pc, locals, stack, CmpOp::Ne),
        Instruction::IFLT => spec_if(code, pc, locals, stack, CmpOp::Lt),
        Instruction::IFGE => spec_if(code, pc, locals, stack, CmpOp::Ge),
        Instruction::IFGT => spec_if(code, pc, locals, stack, CmpOp::Gt),
        Instruction::IFLE => spec_if(code, pc, locals, stack, CmpOp::Le),
        Instruction::IF_ICMPEQ => spec_if_icmp(code, pc, locals, stack, CmpOp::Eq),
        Instruction::IF_ICMPNE => spec_if_icmp(code, pc, locals, stack, CmpOp::Ne),
        Instruction::IF_ICMPLT => spec_if_icmp(code, pc, locals, stack, CmpOp::Lt),
        Instruction::IF_ICMPGE => spec_if_icmp(code, pc, locals, stack, CmpOp::Ge),
        Instruction::IF_ICMPGT => spec_if_icmp(code, pc, locals, stack, CmpOp::Gt),
        Instruction::IF_ICMPLE => spec_if_icmp(code, pc, locals, stack, CmpOp::Le),
        Instruction::IF_ACMPEQ => spec_if_acmp(code, pc, locals, stack, true),
        Instruction::IF_ACMPNE => spec_if_acmp(code, pc, locals, stack, false),
        Instruction::IFNULL => spec_ifnull(code, pc, locals, stack, true),
        Instruction::IFNONNULL => spec_ifnull(code, pc, locals, stack, false),
        Instruction::GOTO => StepOut::Step {
            locals,
            stack,
            state: State::GotoRelative(se16(code[pc + 1], code[pc + 2]) as i32),
        },
        Instruction::GOTO_W => StepOut::Step {
            locals,
            stack,
            state: State::GotoRelative(
                se32(code[pc + 1], code[pc + 2], code[pc + 3], code[pc + 4]) as i32,
            ),
        },
        Instruction::IRETURN => spec_return(locals, stack, Kind::Int),
        Instruction::LRETURN => spec_return(locals, stack, Kind::Long),
        Instruction::FRETURN => spec_return(locals, stack, Kind::Float),
        Instruction::DRETURN => spec_return(locals, stack, Kind::Double),
        Instruction::ARETURN => spec_return(locals, stack, Kind::Reference),
        Instruction::RETURN => StepOut::Step {
            locals,
            stack,
            state: State::Return(None),
        },
        Instruction::MONITORENTER => StepOut::Step { locals, stack, state: State::Continue },
        Instruction::MONITOREXIT => StepOut::Step { locals, stack, state: State::Continue },
        Instruction::WIDE => {
            let sub = code[pc + 1];
            let index = (code[pc + 2] * 0x100 + code[pc + 3]) as usize;
            if sub == 0x15 {
                spec_load(locals, stack, ms, index, Kind::Int)
            } else if sub == 0x16 {
                spec_load(locals, stack, ms, index, Kind::Long)
            } else if sub == 0x17 {
                spec_load(locals, stack, ms, index, Kind::Float)
            } else if sub == 0x18 {
                spec_load(locals, stack, ms, index, Kind::Double)
            } else if sub == 0x19 {
                spec_load(locals, stack, ms, index, Kind::Reference)
            } else if sub == 0x36 {
                spec_store(locals, stack, ms, index, Kind::Int)
            } else if sub == 0x37 {
                spec_store(locals, stack, ms, index, Kind::Long)
            } else if sub == 0x38 {
                spec_store(locals, stack, ms, index, Kind::Float)
            } else if sub == 0x39 {
                spec_store(locals, stack, ms, index, Kind::Double)
            } else if sub == 0x3A {
                spec_store(locals, stack, ms, index, Kind::Reference)
            } else if sub == 0x84 {
                spec_iinc(locals, stack, index, se16(code[pc + 4], code[pc + 5]) as i32)
            } else {
                StepOut::Abort { err: ErrorV::GenericError("unsupported instruction"@) }
            }
        },
        Instruction::BREAKPOINT => StepOut::Abort { err: ErrorV::UnexpectedOpcode(0xCA) },
        Instruction::IMPDEP1 => StepOut::Abort { err: ErrorV::UnexpectedOpcode(0xFE) },
        Instruction::IMPDEP2 => StepOut::Abort { err: ErrorV::UnexpectedOpcode(0xFF) },
        _ => StepOut::Abort { err: ErrorV::GenericError("unsupported instruction"@) },
    }
}

/// Whether a value belongs to the category.
fn kind_check(k: Kind, v: &Value) -> (r: bool)
    ensures
        r == kind_matches(k, *v),
{
    match k {
        Kind::Int => matches!(v, Value::Int(..)),
        Kind::Long => matches!(v, Value::Long(..)),
        Kind::Float => matches!(v, Value::Float(..)),
        Kind::Double => matches!(v, Value::Double(..)),
        Kind::Reference => matches!(v, Value::Null | Value::Reference(..)),
    }
}

/// The label of a category for type errors.
fn kind_label(k: Kind) -> (r: &'static str)
    ensures
        r@ == kind_name(k),
{
    match k {
        Kind::Int => "integer",
        Kind::Long => "long",
        Kind::Float => "float",
        Kind::Double => "double",
        Kind::Reference => "reference",
    }
}

/// Whether `a` compares to `b` as the selector demands.
fn cmp_eval(c: CmpOp, a: i32, b: i32) -> (r: bool)
    ensures
        r == cmp_holds(c, a as int, b as int),
{
    match c {
        CmpOp::Eq => a == b,
        CmpOp::Ne => a != b,
        CmpOp::Lt => a < b,
        CmpOp::Ge => a >= b,
        CmpOp::Gt => a > b,
        CmpOp::Le => a <= b,
    }
}

/// Computes a 32-bit binary operation.
fn int_op_eval(op: IntOp, a: i32, b: i32) -> (r: Result<i32, Error>)
    ensures
        match r {
            Ok(v) => int_op_result(op, a, b) == Ok::<i32, ErrorV>(v),
            Err(e) => int_op_result(op, a, b) == Err::<i32, ErrorV>(e@),
        },
{
    match op {
        IntOp::Add => Ok(a.wrapping_add(b)),
        IntOp::Sub => Ok(a.wrapping_sub(b)),
        IntOp::Mul => Ok(a.wrapping_mul(b)),
        IntOp::Div => if b == 0 {
            Err(Error::ArithmeticFault)
        } else {
            Ok(idiv(a, b))
        },
        IntOp::Rem => if b == 0 {
            Err(Error::ArithmeticFault)
        } else {
            Ok(irem(a, b))
        },
        IntOp::And => Ok(a & b),
        IntOp::Or => Ok(a | b),
        IntOp::Xor => Ok(a ^ b),
        IntOp::Shl => Ok(a.wrapping_shl(to_bits32(b))),
        IntOp::Shr => Ok(a.wrapping_shr(to_bits32(b))),
        IntOp::Ushr => Ok(from_bits32(to_bits32(a).wrapping_shr(to_bits32(b)))),
    }
}

/// Computes a 64-bit binary operation.
fn long_op_eval(op: LongOp, a: i64, b: i64) -> (r: Result<i64, Error>)
    ensures
        match r {
            Ok(v) => long_op_result(op, a, b) == Ok::<i64, ErrorV>(v),
            Err(e) => long_op_result(op, a, b) == Err::<i64, ErrorV>(e@),
        },
{
    match op {
        LongOp::Add => Ok(a.wrapping_add(b)),
        LongOp::Sub => Ok(a.wrapping_sub(b)),
        LongOp::Mul => Ok(a.wrapping_mul(b)),
        LongOp::Div => if b == 0 {
            Err(Error::ArithmeticFault)
        } else {
            Ok(ldiv(a, b))
        },
        LongOp::Rem => if b == 0 {
            Err(Error::ArithmeticFault)
        } else {
            Ok(lrem(a, b))
        },
        LongOp::And => Ok(a & b),
        LongOp::Or => Ok(a | b),
        LongOp::Xor => Ok(a ^ b),
    }
}

/// Shifts a long by an int count.
fn long_shift_eval(dir: ShiftDir, a: i64, s: i32) -> (r: i64)
    ensures
        r == long_shift_result(dir, a, s),
{
    match dir {
        ShiftDir::Shl => a.wrapping_shl(to_bits32(s)),
        ShiftDir::Shr => a.wrapping_shr(to_bits32(s)),
        ShiftDir::Ushr => from_bits64(to_bits64(a).wrapping_shr(to_bits32(s))),
    }
}

/// Computes a unary 32-bit operation.
fn int_unary_eval(c: IConv, v: i32) -> (r: i32)
    ensures
        r == int_unary_result(c, v),
{
    match c {
        IConv::Neg => (0i32).wrapping_sub(v),
        IConv::ToByte => sign_extend8((to_bits32(v) % 0x100) as u8),
        IConv::ToChar => (to_bits32(v) % 0x1_0000) as i32,
        IConv::ToShort => {
            let w = to_bits32(v) % 0x1_0000;
            if w < 0x8000 {
                w as i32
            } else {
                ((w as i64) - 0x1_0000) as i32
            }
        },
    }
}

/// Pushes a value that provably fits under the stack bound.
fn push_ok(frame: &mut StackFrame, v: Value)
    requires
        old(frame).wf(),
        stack_words(old(frame).stack@) + width(v) <= old(frame).max_stack,
    ensures
        final(frame).wf(),
        final(frame).local_variables@ == old(frame).local_variables@,
        final(frame).max_stack == old(frame).max_stack,
        final(frame).stack@ =~= old(frame).stack@.push(v),
{
    match frame.push(v) {
        Ok(()) => (),
        Err(_) => vstd::pervasive::unreached(),
    }
}

/// Pushes a value and continues, or reports stack overflow.
fn exec_push(frame: &mut StackFrame, v: Value, st: State) -> (r: Result<State, Error>)
    requires
        old(frame).wf(),
    ensures
        final(frame).wf(),
        final(frame).local_variables@.len() == old(frame).local_variables@.len(),
        final(frame).max_stack == old(frame).max_stack,
        match r {
            Ok(out) => push1(
                old(frame).local_variables@,
                old(frame).stack@,
                old(frame).max_stack as int,
                v,
                st,
            ) == (StepOut::Step {
                locals: final(frame).local_variables@,
                stack: final(frame).stack@,
                state: out,
            }),
            Err(e) => push1(
                old(frame).local_variables@,
                old(frame).stack@,
                old(frame).max_stack as int,
                v,
                st,
            ) == (StepOut::Abort { err: e@ }),
        },
{
    match frame.push(v) {
        Ok(()) => Ok(st),
        Err(e) => Err(e),
    }
}

/// Executes a load instruction.
fn exec_load(frame: &mut StackFrame, index: usize, k: Kind) -> (r: Result<State, Error>)
    requires
        old(frame).wf(),
    ensures
        final(frame).wf(),
        final(frame).local_variables@.len() == old(frame).local_variables@.len(),
        final(frame).max_stack == old(frame).max_stack,
        match r {
            Ok(out) => spec_load(
                old(frame).local_variables@,
                old(frame).stack@,
                old(frame).max_stack as int,
                index,
                k,
            ) == (StepOut::Step {
                locals: final(frame).local_variables@,
                stack: final(frame).stack@,
                state: out,
            }),
            Err(e) => spec_load(
                old(frame).local_variables@,
                old(frame).stack@,
                old(frame).max_stack as int,
                index,
                k,
            ) == (StepOut::Abort { err: e@ }),
        },
{
    let v = match frame.get_variable(index) {
        Some(v) => *v,
        None => {
            return Err(Error::VariableOutOfScope);
        },
    };
    if !kind_check(k, &v) {
        return Err(Error::VariableType(kind_label(k), index));
    }
    exec_push(frame, v, State::Continue)
}

/// Executes a store instruction.
fn exec_store(frame: &mut StackFrame, index: usize, k: Kind) -> (r: Result<State, Error>)
    requires
        old(frame).wf(),
    ensures
        final(frame).wf(),
        final(frame).local_variables@.len() == old(frame).local_variables@.len(),
        final(frame).max_stack == old(frame).max_stack,
        match r {
            Ok(out) => spec_store(
                old(frame).local_variables@,
                old(frame).stack@,
                old(frame).max_stack as int,
                index,
                k,
            ) == (StepOut::Step {
                locals: final(frame).local_variables@,
                stack: final(frame).stack@,
                state: out,
            }),
            Err(e) => spec_store(
                old(frame).local_variables@,
                old(frame).stack@,
                old(frame).max_stack as int,
                index,
                k,
            ) == (StepOut::Abort { err: e@ }),
        },
{
    let v = match frame.pop() {
        Some(v) => v,
        None => {
            return Err(Error::EmptyStack);
        },
    };
    if !kind_check(k, &v) {
        return Err(Error::StackType(kind_label(k)));
    }
    let wide = match k {
        Kind::Long => true,
        Kind::Double => true,
        _ => false,
    };
    if wide {
        if index >= frame.local_variables.len() || frame.local_variables.len() - index < 2 {
            return Err(Error::VariableOutOfScope);
        }
        match frame.set_variable(index, v) {
            Ok(()) => (),
            Err(_) => vstd::pervasive::unreached(),
        }
        match frame.set_variable(index + 1, Value::Unset) {
            Ok(()) => (),
            Err(_) => vstd::pervasive::unreached(),
        }
        Ok(State::Continue)
    } else {
        match frame.set_variable(index, v) {
            Ok(()) => Ok(State::Continue),
            Err(e) => Err(e),
        }
    }
}

/// Executes a binary int instruction.
fn exec_ibin(frame: &mut StackFrame, op: IntOp) -> (r: Result<State, Error>)
    requires
        old(frame).wf(),
    ensures
        final(frame).wf(),
        final(frame).local_variables@.len() == old(frame).local_variables@.len(),
        final(frame).max_stack == old(frame).max_stack,
        match r {
            Ok(out) => spec_ibin(
                op,
                old(frame).local_variables@,
                old(frame).stack@,
                old(frame).max_stack as int,
            ) == (StepOut::Step {
                locals: final(frame).local_variables@,
                stack: final(frame).stack@,
                state: out,
            }),
            Err(e) => spec_ibin(
                op,
                old(frame).local_variables@,
                old(frame).stack@,
                old(frame).max_stack as int,
            ) == (StepOut::Abort { err: e@ }),
        },
{
    let v2 = match frame.pop() {
        Some(v) => v,
        None => {
            return Err(Error::EmptyStack);
        },
    };
    let v1 = match frame.pop() {
        Some(v) => v,
        None => {
            return Err(Error::EmptyStack);
        },
    };
    match (v1, v2) {
        (Value::Int(a), Value::Int(b)) => match int_op_eval(op, a, b) {
            Ok(v) => exec_push(frame, Value::Int(v), State::Continue),
            Err(e) => Err(e),
        },
        _ => Err(Error::StackType("integer")),
    }
}

/// Executes a binary long instruction.
fn exec_lbin(frame: &mut StackFrame, op: LongOp) -> (r: Result<State, Error>)
    requires
        old(frame).wf(),
    ensures
        final(frame).wf(),
        final(frame).local_variables@.len() == old(frame).local_variables@.len(),
        final(frame).max_stack == old(frame).max_stack,
        match r {
            Ok(out) => spec_lbin(
                op,
                old(frame).local_variables@,
                old(frame).stack@,
                old(frame).max_stack as int,
            ) == (StepOut::Step {
                locals: final(frame).local_variables@,
                stack: final(frame).stack@,
                state: out,
            }),
            Err(e) => spec_lbin(
                op,
                old(frame).local_variables@,
                old(frame).stack@,
                old(frame).max_stack as int,
            ) == (StepOut::Abort { err: e@ }),
        },
{
    let v2 = match frame.pop() {
        Some(v) => v,
        None => {
            return Err(Error::EmptyStack);
        },
    };
    let v1 = match frame.pop() {
        Some(v) => v,
        None => {
            return Err(Error::EmptyStack);
        },
    };
    match (v1, v2) {
        (Value::Long(a), Value::Long(b)) => match long_op_eval(op, a, b) {
            Ok(v) => exec_push(frame, Value::Long(v), State::Continue),
            Err(e) => Err(e),
        },
        _ => Err(Error::StackType("long")),
    }
}

/// Executes a long shift instruction.
fn exec_lshift(frame: &mut StackFrame, dir: ShiftDir) -> (r: Result<State, Error>)
    requires
        old(frame).wf(),
    ensures
        final(frame).wf(),
        final(frame).local_variables@.len() == old(frame).local_variables@.len(),
        final(frame).max_stack == old(frame).max_stack,
        match r {
            Ok(out) => spec_lshift(
                dir,
                old(frame).local_variables@,
                old(frame).stack@,
                old(frame).max_stack as int,
            ) == (StepOut::Step {
                locals: final(frame).local_variables@,
                stack: final(frame).stack@,
                state: out,
            }),
            Err(e) => spec_lshift(
                dir,
                old(frame).local_variables@,
                old(frame).stack@,
                old(frame).max_stack as int,
            ) == (StepOut::Abort { err: e@ }),
        },
{
    let v2 = match frame.pop() {
        Some(v) => v,
        None => {
            return Err(Error::EmptyStack);
        },
    };
    let v1 = match frame.pop() {
        Some(v) => v,
        None => {
            return Err(Error::EmptyStack);
        },
    };
    match (v1, v2) {
        (Value::Long(a), Value::Int(c)) => exec_push(
            frame,
            Value::Long(long_shift_eval(dir, a, c)),
            State::Continue,
        ),
        (Value::Long(..), _) => Err(Error::StackType("integer")),
        _ => Err(Error::StackType("long")),
    }
}

/// Executes a unary int instruction.
fn exec_iunary(frame: &mut StackFrame, c: IConv) -> (r: Result<State, Error>)
    requires
        old(frame).wf(),
    ensures
        final(frame).wf(),
        final(frame).local_variables@.len() == old(frame).local_variables@.len(),
        final(frame).max_stack == old(frame).max_stack,
        match r {
            Ok(out) => spec_iunary(
                c,
                old(frame).local_variables@,
                old(frame).stack@,
                old(frame).max_stack as int,
            ) == (StepOut::Step {
                locals: final(frame).local_variables@,
                stack: final(frame).stack@,
                state: out,
            }),
            Err(e) => spec_iunary(
                c,
                old(frame).local_variables@,
                old(frame).stack@,
                old(frame).max_stack as int,
            ) == (StepOut::Abort { err: e@ }),
        },
{
    let v = match frame.pop() {
        Some(v) => v,
        None => {
            return Err(Error::EmptyStack);
        },
    };
    match v {
        Value::Int(a) => exec_push(frame, Value::Int(int_unary_eval(c, a)), State::Continue),
        _ => Err(Error::StackType("integer")),
    }
}

/// Executes an increment of an int local.
fn exec_iinc(frame: &mut StackFrame, index: usize, delta: i32) -> (r: Result<State, Error>)
    requires
        old(frame).wf(),
    ensures
        final(frame).wf(),
        final(frame).local_variables@.len() == old(frame).local_variables@.len(),
        final(frame).max_stack == old(frame).max_stack,
        match r {
            Ok(out) => spec_iinc(
                old(frame).local_variables@,
                old(frame).stack@,
                index,
                delta,
            ) == (StepOut::Step {
                locals: final(frame).local_variables@,
                stack: final(frame).stack@,
                state: out,
            }),
            Err(e) => spec_iinc(old(frame).local_variables@, old(frame).stack@, index, delta)
                == (StepOut::Abort { err: e@ }),
        },
{
    let v = match frame.get_variable(index) {
        Some(v) => match v {
            Value::Int(a) => *a,
            _ => {
                return Err(Error::VariableType("integer", index));
            },
        },
        None => {
            return Err(Error::VariableOutOfScope);
        },
    };
    match frame.set_variable(index, Value::Int(v.wrapping_add(delta))) {
        Ok(()) => Ok(State::Continue),
        Err(_) => vstd::pervasive::unreached(),
    }
}

/// Executes a branch on an int compared with zero.
fn exec_if(frame: &mut StackFrame, code: &Vec<u8>, pc: usize, c: CmpOp) -> (r: Result<
    State,
    Error,
>)
    requires
        old(frame).wf(),
        pc + 3 <= code@.len(),
    ensures
        final(frame).wf(),
        final(frame).local_variables@.len() == old(frame).local_variables@.len(),
        final(frame).max_stack == old(frame).max_stack,
        match r {
            Ok(out) => spec_if(
                code@,
                pc as int,
                old(frame).local_variables@,
                old(frame).stack@,
                c,
            ) == (StepOut::Step {
                locals: final(frame).local_variables@,
                stack: final(frame).stack@,
                state: out,
            }),
            Err(e) => spec_if(code@, pc as int, old(frame).local_variables@, old(frame).stack@, c)
                == (StepOut::Abort { err: e@ }),
        },
{
    proof {
        assert(code@.len() == vstd::std_specs::vec::spec_vec_len(code));
    }
    let v = match frame.pop() {
        Some(v) => v,
        None => {
            return Err(Error::EmptyStack);
        },
    };
    match v {
        Value::Int(a) => {
            if cmp_eval(c, a, 0) {
                Ok(State::GotoRelative(sign_extend16(code[pc + 1], code[pc + 2])))
            } else {
                Ok(State::Continue)
            }
        },
        _ => Err(Error::StackType("integer")),
    }
}

/// Executes a branch on the comparison of two ints.
fn exec_if_icmp(frame: &mut StackFrame, code: &Vec<u8>, pc: usize, c: CmpOp) -> (r: Result<
    State,
    Error,
>)
    requires
        old(frame).wf(),
        pc + 3 <= code@.len(),
    ensures
        final(frame).wf(),
        final(frame).local_variables@.len() == old(frame).local_variables@.len(),
        final(frame).max_stack == old(frame).max_stack,
        match r {
            Ok(out) => spec_if_icmp(
                code@,
                pc as int,
                old(frame).local_variables@,
                old(frame).stack@,
                c,
            ) == (StepOut::Step {
                locals: final(frame).local_variables@,
                stack: final(frame).stack@,
                state: out,
            }),
            Err(e) => spec_if_icmp(
                code@,
                pc as int,
                old(frame).local_variables@,
                old(frame).stack@,
                c,
            ) == (StepOut::Abort { err: e@ }),
        },
{
    proof {
        assert(code@.len() == vstd::std_specs::vec::spec_vec_len(code));
    }
    let v2 = match frame.pop() {
        Some(v) => v,
        None => {
            return Err(Error::EmptyStack);
        },
    };
    let v1 = match frame.pop() {
        Some(v) => v,
        None => {
            return Err(Error::EmptyStack);
        },
    };
    match (v1, v2) {
        (Value::Int(a), Value::Int(b)) => {
            if cmp_eval(c, a, b) {
                Ok(State::GotoRelative(sign_extend16(code[pc + 1], code[pc + 2])))
            } else {
                Ok(State::Continue)
            }
        },
        _ => Err(Error::StackType("integer")),
    }
}

/// Executes a branch on whether two references are the same.
fn exec_if_acmp(frame: &mut StackFrame, code: &Vec<u8>, pc: usize, want_eq: bool) -> (r: Result<
    State,
    Error,
>)
    requires
        old(frame).wf(),
        pc + 3 <= code@.len(),
    ensures
        final(frame).wf(),
        final(frame).local_variables@.len() == old(frame).local_variables@.len(),
        final(frame).max_stack == old(frame).max_stack,
        match r {
            Ok(out) => spec_if_acmp(
                code@,
                pc as int,
                old(frame).local_variables@,
                old(frame).stack@,
                want_eq,
            ) == (StepOut::Step {
                locals: final(frame).local_variables@,
                stack: final(frame).stack@,
                state: out,
            }),
            Err(e) => spec_if_acmp(
                code@,
                pc as int,
                old(frame).local_variables@,
                old(frame).stack@,
                want_eq,
            ) == (StepOut::Abort { err: e@ }),
        },
{
    proof {
        assert(code@.len() == vstd::std_specs::vec::spec_vec_len(code));
    }
    let v2 = match frame.pop() {
        Some(v) => v,
        None => {
            return Err(Error::EmptyStack);
        },
    };
    let v1 = match frame.pop() {
        Some(v) => v,
        None => {
            return Err(Error::EmptyStack);
        },
    };
    if !kind_check(Kind::Reference, &v1) || !kind_check(Kind::Reference, &v2) {
        return Err(Error::StackType("reference"));
    }
    if (v1 == v2) == want_eq {
        Ok(State::GotoRelative(sign_extend16(code[pc + 1], code[pc + 2])))
    } else {
        Ok(State::Continue)
    }
}

/// Executes a branch on whether a reference is null.
fn exec_ifnull(frame: &mut StackFrame, code: &Vec<u8>, pc: usize, want_null: bool) -> (r: Result<
    State,
    Error,
>)
    requires
        old(frame).wf(),
        pc + 3 <= code@.len(),
    ensures
        final(frame).wf(),
        final(frame).local_variables@.len() == old(frame).local_variables@.len(),
        final(frame).max_stack == old(frame).max_stack,
        match r {
            Ok(out) => spec_ifnull(
                code@,
                pc as int,
                old(frame).local_variables@,
                old(frame).stack@,
                want_null,
            ) == (StepOut::Step {
                locals: final(frame).local_variables@,
                stack: final(frame).stack@,
                state: out,
            }),
            Err(e) => spec_ifnull(
                code@,
                pc as int,
                old(frame).local_variables@,
                old(frame).stack@,
                want_null,
            ) == (StepOut::Abort { err: e@ }),
        },
{
    proof {
        assert(code@.len() == vstd::std_specs::vec::spec_vec_len(code));
    }
    let v = match frame.pop() {
        Some(v) => v,
        None => {
            return Err(Error::EmptyStack);
        },
    };
    if !kind_check(Kind::Reference, &v) {
        return Err(Error::StackType("reference"));
    }
    let is_null = matches!(v, Value::Null);
    if is_null == want_null {
        Ok(State::GotoRelative(sign_extend16(code[pc + 1], code[pc + 2])))
    } else {
        Ok(State::Continue)
    }
}

/// Executes a typed return.
fn exec_return(frame: &mut StackFrame, k: Kind) -> (r: Result<State, Error>)
    requires
        old(frame).wf(),
    ensures
        final(frame).wf(),
        final(frame).local_variables@.len() == old(frame).local_variables@.len(),
        final(frame).max_stack == old(frame).max_stack,
        match r {
            Ok(out) => spec_return(old(frame).local_variables@, old(frame).stack@, k)
                == (StepOut::Step {
                locals: final(frame).local_variables@,
                stack: final(frame).stack@,
                state: out,
            }),
            Err(e) => spec_return(old(frame).local_variables@, old(frame).stack@, k)
                == (StepOut::Abort { err: e@ }),
        },
{
    let v = match frame.pop() {
        Some(v) => v,
        None => {
            return Err(Error::EmptyStack);
        },
    };
    if !kind_check(k, &v) {
        return Err(Error::StackType(kind_label(k)));
    }
    Ok(State::Return(Some(v)))
}

/// Executes the three-way comparison of two longs.
fn exec_lcmp(frame: &mut StackFrame) -> (r: Result<State, Error>)
    requires
        old(frame).wf(),
    ensures
        final(frame).wf(),
        final(frame).local_variables@.len() == old(frame).local_variables@.len(),
        final(frame).max_stack == old(frame).max_stack,
        match r {
            Ok(out) => spec_lcmp(
                old(frame).local_variables@,
                old(frame).stack@,
                old(frame).max_stack as int,
            ) == (StepOut::Step {
                locals: final(frame).local_variables@,
                stack: final(frame).stack@,
                state: out,
            }),
            Err(e) => spec_lcmp(
                old(frame).local_variables@,
                old(frame).stack@,
                old(frame).max_stack as int,
            ) == (StepOut::Abort { err: e@ }),
        },
{
    let v2 = match frame.pop() {
        Some(v) => v,
        None => {
            return Err(Error::EmptyStack);
        },
    };
    let v1 = match frame.pop() {
        Some(v) => v,
        None => {
            return Err(Error::EmptyStack);
        },
    };
    match (v1, v2) {
        (Value::Long(a), Value::Long(b)) => {
            let c: i32 = if a > b {
                1
            } else if a == b {
                0
            } else {
                -1
            };
            exec_push(frame, Value::Int(c), State::Continue)
        },
        _ => Err(Error::StackType("long")),
    }
}

/// Executes the widening of an int to a long.
fn exec_i2l(frame: &mut StackFrame) -> (r: Result<State, Error>)
    requires
        old(frame).wf(),
    ensures
        final(frame).wf(),
        final(frame).local_variables@.len() == old(frame).local_variables@.len(),
        final(frame).max_stack == old(frame).max_stack,
        match r {
            Ok(out) => spec_i2l(
                old(frame).local_variables@,
                old(frame).stack@,
                old(frame).max_stack as int,
            ) == (StepOut::Step {
                locals: final(frame).local_variables@,
                stack: final(frame).stack@,
                state: out,
            }),
            Err(e) => spec_i2l(
                old(frame).local_variables@,
                old(frame).stack@,
                old(frame).max_stack as int,
            ) == (StepOut::Abort { err: e@ }),
        },
{
    let v = match frame.pop() {
        Some(v) => v,
        None => {
            return Err(Error::EmptyStack);
        },
    };
    match v {
        Value::Int(a) => exec_push(frame, Value::Long(a as i64), State::Continue),
        _ => Err(Error::StackType("integer")),
    }
}

/// Executes the truncation of a long to an int.
fn exec_l2i(frame: &mut StackFrame) -> (r: Result<State, Error>)
    requires
        old(frame).wf(),
    ensures
        final(frame).wf(),
        final(frame).local_variables@.len() == old(frame).local_variables@.len(),
        final(frame).max_stack == old(frame).max_stack,
        match r {
            Ok(out) => spec_l2i(
                old(frame).local_variables@,
                old(frame).stack@,
                old(frame).max_stack as int,
            ) == (StepOut::Step {
                locals: final(frame).local_variables@,
                stack: final(frame).stack@,
                state: out,
            }),
            Err(e) => spec_l2i(
                old(frame).local_variables@,
                old(frame).stack@,
                old(frame).max_stack as int,
            ) == (StepOut::Abort { err: e@ }),
        },
{
    let v = match frame.pop() {
        Some(v) => v,
        None => {
            return Err(Error::EmptyStack);
        },
    };
    match v {
        Value::Long(a) => {
            let low = (to_bits64(a) % 0x1_0000_0000) as u32;
            exec_push(frame, Value::Int(from_bits32(low)), State::Continue)
        },
        _ => Err(Error::StackType("long")),
    }
}

/// Executes the wrapping negation of a long.
fn exec_lneg(frame: &mut StackFrame) -> (r: Result<State, Error>)
    requires
        old(frame).wf(),
    ensures
        final(frame).wf(),
        final(frame).local_variables@.len() == old(frame).local_variables@.len(),
        final(frame).max_stack == old(frame).max_stack,
        match r {
            Ok(out) => spec_lneg(
                old(frame).local_variables@,
                old(frame).stack@,
                old(frame).max_stack as int,
            ) == (StepOut::Step {
                locals: final(frame).local_variables@,
                stack: final(frame).stack@,
                state: out,
            }),
            Err(e) => spec_lneg(
                old(frame).local_variables@,
                old(frame).stack@,
                old(frame).max_stack as int,
            ) == (StepOut::Abort { err: e@ }),
        },
{
    let v = match frame.pop() {
        Some(v) => v,
        None => {
            return Err(Error::EmptyStack);
        },
    };
    match v {
        Value::Long(a) => exec_push(
            frame,
            Value::Long((0i64).wrapping_sub(a)),
            State::Continue,
        ),
        _ => Err(Error::StackType("long")),
    }
}

/// Discards the top single-word value.
fn exec_pop(frame: &mut StackFrame) -> (r: Result<State, Error>)
    requires
        old(frame).wf(),
    ensures
        final(frame).wf(),
        final(frame).local_variables@.len() == old(frame).local_variables@.len(),
        final(frame).max_stack == old(frame).max_stack,
        match r {
            Ok(out) => spec_pop(old(frame).local_variables@, old(frame).stack@)
                == (StepOut::Step {
                locals: final(frame).local_variables@,
                stack: final(frame).stack@,
                state: out,
            }),
            Err(e) => spec_pop(old(frame).local_variables@, old(frame).stack@)
                == (StepOut::Abort { err: e@ }),
        },
{
    let v = match frame.pop() {
        Some(v) => v,
        None => {
            return Err(Error::EmptyStack);
        },
    };
    if value_width(&v) == 2 {
        return Err(Error::StackType("single-word value"));
    }
    Ok(State::Continue)
}

/// Discards two words from the stack.
fn exec_pop2(frame: &mut StackFrame) -> (r: Result<State, Error>)
    requires
        old(frame).wf(),
    ensures
        final(frame).wf(),
        final(frame).local_variables@.len() == old(frame).local_variables@.len(),
        final(frame).max_stack == old(frame).max_stack,
        match r {
            Ok(out) => spec_pop2(old(frame).local_variables@, old(frame).stack@)
                == (StepOut::Step {
                locals: final(frame).local_variables@,
                stack: final(frame).stack@,
                state: out,
            }),
            Err(e) => spec_pop2(old(frame).local_variables@, old(frame).stack@)
                == (StepOut::Abort { err: e@ }),
        },
{
    let v = match frame.pop() {
        Some(v) => v,
        None => {
            return Err(Error::EmptyStack);
        },
    };
    if value_width(&v) == 2 {
        return Ok(State::Continue);
    }
    let v2 = match frame.pop() {
        Some(v) => v,
        None => {
            return Err(Error::EmptyStack);
        },
    };
    if value_width(&v2) == 2 {
        return Err(Error::StackType("single-word value"));
    }
    Ok(State::Continue)
}

/// Duplicates the top single-word value.
fn exec_dup(frame: &mut StackFrame) -> (r: Result<State, Error>)
    requires
        old(frame).wf(),
    ensures
        final(frame).wf(),
        final(frame).local_variables@.len() == old(frame).local_variables@.len(),
        final(frame).max_stack == old(frame).max_stack,
        match r {
            Ok(out) => spec_dup(
                old(frame).local_variables@,
                old(frame).stack@,
                old(frame).max_stack as int,
            ) == (StepOut::Step {
                locals: final(frame).local_variables@,
                stack: final(frame).stack@,
                state: out,
            }),
            Err(e) => spec_dup(
                old(frame).local_variables@,
                old(frame).stack@,
                old(frame).max_stack as int,
            ) == (StepOut::Abort { err: e@ }),
        },
{
    let v = match frame.pop() {
        Some(v) => v,
        None => {
            return Err(Error::EmptyStack);
        },
    };
    if value_width(&v) == 2 {
        return Err(Error::StackType("single-word value"));
    }
    push_ok(frame, v);
    proof {
        assert(frame.stack@ =~= old(frame).stack@);
    }
    exec_push(frame, v, State::Continue)
}

/// Duplicates the top value beneath the second.
fn exec_dup_x1(frame: &mut StackFrame) -> (r: Result<State, Error>)
    requires
        old(frame).wf(),
    ensures
        final(frame).wf(),
        final(frame).local_variables@.len() == old(frame).local_variables@.len(),
        final(frame).max_stack == old(frame).max_stack,
        match r {
            Ok(out) => spec_dup_x1(
                old(frame).local_variables@,
                old(frame).stack@,
                old(frame).max_stack as int,
            ) == (StepOut::Step {
                locals: final(frame).local_variables@,
                stack: final(frame).stack@,
                state: out,
            }),
            Err(e) => spec_dup_x1(
                old(frame).local_variables@,
                old(frame).stack@,
                old(frame).max_stack as int,
            ) == (StepOut::Abort { err: e@ }),
        },
{
    let v1 = match frame.pop() {
        Some(v) => v,
        None => {
            return Err(Error::EmptyStack);
        },
    };
    let v2 = match frame.pop() {
        Some(v) => v,
        None => {
            return Err(Error::EmptyStack);
        },
    };
    if value_width(&v1) == 2 || value_width(&v2) == 2 {
        return Err(Error::StackType("single-word value"));
    }
    push_ok(frame, v1);
    push_ok(frame, v2);
    exec_push(frame, v1, State::Continue)
}

/// Duplicates the top value two or three values down.
fn exec_dup_x2(frame: &mut StackFrame) -> (r: Result<State, Error>)
    requires
        old(frame).wf(),
    ensures
        final(frame).wf(),
        final(frame).local_variables@.len() == old(frame).local_variables@.len(),
        final(frame).max_stack == old(frame).max_stack,
        match r {
            Ok(out) => spec_dup_x2(
                old(frame).local_variables@,
                old(frame).stack@,
                old(frame).max_stack as int,
            ) == (StepOut::Step {
                locals: final(frame).local_variables@,
                stack: final(frame).stack@,
                state: out,
            }),
            Err(e) => spec_dup_x2(
                old(frame).local_variables@,
                old(frame).stack@,
                old(frame).max_stack as int,
            ) == (StepOut::Abort { err: e@ }),
        },
{
    let v1 = match frame.pop() {
        Some(v) => v,
        None => {
            return Err(Error::EmptyStack);
        },
    };
    let v2 = match frame.pop() {
        Some(v) => v,
        None => {
            return Err(Error::EmptyStack);
        },
    };
    if value_width(&v1) == 2 {
        return Err(Error::StackType("single-word value"));
    }
    if value_width(&v2) == 2 {
        push_ok(frame, v1);
        push_ok(frame, v2);
        return exec_push(frame, v1, State::Continue);
    }
    let v3 = match frame.pop() {
        Some(v) => v,
        None => {
            return Err(Error::EmptyStack);
        },
    };
    if value_width(&v3) == 2 {
        return Err(Error::StackType("single-word value"));
    }
    push_ok(frame, v1);
    push_ok(frame, v3);
    push_ok(frame, v2);
    exec_push(frame, v1, State::Continue)
}

/// Duplicates the top two words.
fn exec_dup2(frame: &mut StackFrame) -> (r: Result<State, Error>)
    requires
        old(frame).wf(),
    ensures
        final(frame).wf(),
        final(frame).local_variables@.len() == old(frame).local_variables@.len(),
        final(frame).max_stack == old(frame).max_stack,
        match r {
            Ok(out) => spec_dup2(
                old(frame).local_variables@,
                old(frame).stack@,
                old(frame).max_stack as int,
            ) == (StepOut::Step {
                locals: final(frame).local_variables@,
                stack: final(frame).stack@,
                state: out,
            }),
            Err(e) => spec_dup2(
                old(frame).local_variables@,
                old(frame).stack@,
                old(frame).max_stack as int,
            ) == (StepOut::Abort { err: e@ }),
        },
{
    let v1 = match frame.pop() {
        Some(v) => v,
        None => {
            return Err(Error::EmptyStack);
        },
    };
    if value_width(&v1) == 2 {
        push_ok(frame, v1);
        proof {
            assert(frame.stack@ =~= old(frame).stack@);
        }
        return exec_push(frame, v1, State::Continue);
    }
    let v2 = match frame.pop() {
        Some(v) => v,
        None => {
            return Err(Error::EmptyStack);
        },
    };
    if value_width(&v2) == 2 {
        return Err(Error::StackType("single-word value"));
    }
    push_ok(frame, v2);
    push_ok(frame, v1);
    proof {
        assert(frame.stack@ =~= old(frame).stack@);
    }
    match frame.push(v2) {
        Ok(()) => (),
        Err(e) => {
            return Err(e);
        },
    }
    exec_push(frame, v1, State::Continue)
}

/// Duplicates the top two words beneath the value below them.
fn exec_dup2_x1(frame: &mut StackFrame) -> (r: Result<State, Error>)
    requires
        old(frame).wf(),
    ensures
        final(frame).wf(),
        final(frame).local_variables@.len() == old(frame).local_variables@.len(),
        final(frame).max_stack == old(frame).max_stack,
        match r {
            Ok(out) => spec_dup2_x1(
                old(frame).local_variables@,
                old(frame).stack@,
                old(frame).max_stack as int,
            ) == (StepOut::Step {
                locals: final(frame).local_variables@,
                stack: final(frame).stack@,
                state: out,
            }),
            Err(e) => spec_dup2_x1(
                old(frame).local_variables@,
                old(frame).stack@,
                old(frame).max_stack as int,
            ) == (StepOut::Abort { err: e@ }),
        },
{
    let v1 = match frame.pop() {
        Some(v) => v,
        None => {
            return Err(Error::EmptyStack);
        },
    };
    let v2 = match frame.pop() {
        Some(v) => v,
        None => {
            return Err(Error::EmptyStack);
        },
    };
    if value_width(&v2) == 2 {
        return Err(Error::StackType("single-word value"));
    }
    if value_width(&v1) == 2 {
        push_ok(frame, v1);
        push_ok(frame, v2);
        return exec_push(frame, v1, State::Continue);
    }
    let v3 = match frame.pop() {
        Some(v) => v,
        None => {
            return Err(Error::EmptyStack);
        },
    };
    if value_width(&v3) == 2 {
        return Err(Error::StackType("single-word value"));
    }
    push_ok(frame, v2);
    push_ok(frame, v1);
    push_ok(frame, v3);
    match frame.push(v2) {
        Ok(()) => (),
        Err(e) => {
            return Err(e);
        },
    }
    exec_push(frame, v1, State::Continue)
}

/// Duplicates the top two words beneath the two words below them.
fn exec_dup2_x2(frame: &mut StackFrame) -> (r: Result<State, Error>)
    requires
        old(frame).wf(),
    ensures
        final(frame).wf(),
        final(frame).local_variables@.len() == old(frame).local_variables@.len(),
        final(frame).max_stack == old(frame).max_stack,
        match r {
            Ok(out) => spec_dup2_x2(
                old(frame).local_variables@,
                old(frame).stack@,
                old(frame).max_stack as int,
            ) == (StepOut::Step {
                locals: final(frame).local_variables@,
                stack: final(frame).stack@,
                state: out,
            }),
            Err(e) => spec_dup2_x2(
                old(frame).local_variables@,
                old(frame).stack@,
                old(frame).max_stack as int,
            ) == (StepOut::Abort { err: e@ }),
        },
{
    let v1 = match frame.pop() {
        Some(v) => v,
        None => {
            return Err(Error::EmptyStack);
        },
    };
    let v2 = match frame.pop() {
        Some(v) => v,
        None => {
            return Err(Error::EmptyStack);
        },
    };
    if value_width(&v1) == 2 {
        if value_width(&v2) == 2 {
            push_ok(frame, v1);
            push_ok(frame, v2);
            return exec_push(frame, v1, State::Continue);
        }
        let v3 = match frame.pop() {
            Some(v) => v,
            None => {
                return Err(Error::EmptyStack);
            },
        };
        if value_width(&v3) == 2 {
            return Err(Error::StackType("single-word value"));
        }
        push_ok(frame, v1);
        push_ok(frame, v3);
        push_ok(frame, v2);
        return exec_push(frame, v1, State::Continue);
    }
    if value_width(&v2) == 2 {
        return Err(Error::StackType("single-word value"));
    }
    let v3 = match frame.pop() {
        Some(v) => v,
        None => {
            return Err(Error::EmptyStack);
        },
    };
    if value_width(&v3) == 2 {
        push_ok(frame, v2);
        push_ok(frame, v1);
        push_ok(frame, v3);
        match frame.push(v2) {
            Ok(()) => (),
            Err(e) => {
                return Err(e);
            },
        }
        return exec_push(frame, v1, State::Continue);
    }
    let v4 = match frame.pop() {
        Some(v) => v,
        None => {
            return Err(Error::EmptyStack);
        },
    };
    if value_width(&v4) == 2 {
        return Err(Error::StackType("single-word value"));
    }
    push_ok(frame, v2);
    push_ok(frame, v1);
    push_ok(frame, v4);
    push_ok(frame, v3);
    match frame.push(v2) {
        Ok(()) => (),
        Err(e) => {
            return Err(e);
        },
    }
    exec_push(frame, v1, State::Continue)
}

/// Swaps the top two single-word values.
fn exec_swap(frame: &mut StackFrame) -> (r: Result<State, Error>)
    requires
        old(frame).wf(),
    ensures
        final(frame).wf(),
        final(frame).local_variables@.len() == old(frame).local_variables@.len(),
        final(frame).max_stack == old(frame).max_stack,
        match r {
            Ok(out) => spec_swap(old(frame).local_variables@, old(frame).stack@)
                == (StepOut::Step {
                locals: final(frame).local_variables@,
                stack: final(frame).stack@,
                state: out,
            }),
            Err(e) => spec_swap(old(frame).local_variables@, old(frame).stack@)
                == (StepOut::Abort { err: e@ }),
        },
{
    let v1 = match frame.pop() {
        Some(v) => v,
        None => {
            return Err(Error::EmptyStack);
        },
    };
    let v2 = match frame.pop() {
        Some(v) => v,
        None => {
            return Err(Error::EmptyStack);
        },
    };
    if value_width(&v1) == 2 || value_width(&v2) == 2 {
        return Err(Error::StackType("single-word value"));
    }
    push_ok(frame, v1);
    push_ok(frame, v2);
    Ok(State::Continue)
}

/// Which instructions `execute_a` handles: constants, immediate pushes, and loads.
pub open spec fn group_a(inst: Instruction) -> bool {
    ||| inst is NOP
    ||| inst is ACONST_NULL
    ||| inst is ICONST_M1
    ||| inst is ICONST_0
    ||| inst is ICONST_1
    ||| inst is ICONST_2
    ||| inst is ICONST_3
    ||| inst is ICONST_4
    ||| inst is ICONST_5
    ||| inst is LCONST_0
    ||| inst is LCONST_1
    ||| inst is FCONST_0
    ||| inst is FCONST_1
    ||| inst is FCONST_2
    ||| inst is DCONST_0
    ||| inst is DCONST_1
    ||| inst is BIPUSH
    ||| inst is SIPUSH
    ||| inst is ILOAD
    ||| inst is ILOAD_0
    ||| inst is ILOAD_1
    ||| inst is ILOAD_2
    ||| inst is ILOAD_3
    ||| inst is LLOAD
    ||| inst is LLOAD_0
    ||| inst is LLOAD_1
    ||| inst is LLOAD_2
    ||| inst is LLOAD_3
    ||| inst is FLOAD
    ||| inst is FLOAD_0
    ||| inst is FLOAD_1
    ||| inst is FLOAD_2
    ||| inst is FLOAD_3
    ||| inst is DLOAD
    ||| inst is DLOAD_0
    ||| inst is DLOAD_1
    ||| inst is DLOAD_2
    ||| inst is DLOAD_3
    ||| inst is ALOAD
    ||| inst is ALOAD_0
    ||| inst is ALOAD_1
    ||| inst is ALOAD_2
    ||| inst is ALOAD_3
}

/// Executes one instruction of its group, as [`step`] specifies.
#[verifier::rlimit(100)]
fn execute_a(inst: Instruction, code: &Vec<u8>, pc: usize, frame: &mut StackFrame) -> (r:
    Result<State, Error>)
    requires
        old(frame).wf(),
        spec_decode(code@, pc as int) matches Decoded::Next { inst: di, .. } && di == inst,
        group_a(inst),
    ensures
        final(frame).wf(),
        final(frame).local_variables@.len() == old(frame).local_variables@.len(),
        final(frame).max_stack == old(frame).max_stack,
        match r {
            Ok(st) => step(
                inst,
                code@,
                pc as int,
                old(frame).local_variables@,
                old(frame).stack@,
                old(frame).max_stack as int,
            ) == (StepOut::Step {
                locals: final(frame).local_variables@,
                stack: final(frame).stack@,
                state: st,
            }),
            Err(e) => step(
                inst,
                code@,
                pc as int,
                old(frame).local_variables@,
                old(frame).stack@,
                old(frame).max_stack as int,
            ) == (StepOut::Abort { err: e@ }),
        },
{
    proof {
        reveal(spec_decode);
        reveal(step);
        assert(code@.len() == vstd::std_specs::vec::spec_vec_len(code));
    }
    match inst {
        Instruction::NOP => Ok(State::Continue),
        Instruction::ACONST_NULL => exec_push(frame, Value::Null, State::Continue),
        Instruction::ICONST_M1 => exec_push(frame, Value::Int(-1), State::Continue),
        Instruction::ICONST_0 => exec_push(frame, Value::Int(0), State::Continue),
        Instruction::ICONST_1 => exec_push(frame, Value::Int(1), State::Continue),
        Instruction::ICONST_2 => exec_push(frame, Value::Int(2), State::Continue),
        Instruction::ICONST_3 => exec_push(frame, Value::Int(3), State::Continue),
        Instruction::ICONST_4 => exec_push(frame, Value::Int(4), State::Continue),
        Instruction::ICONST_5 => exec_push(frame, Value::Int(5), State::Continue),
        Instruction::LCONST_0 => exec_push(frame, Value::Long(0), State::Continue),
        Instruction::LCONST_1 => exec_push(frame, Value::Long(1), State::Continue),
        Instruction::FCONST_0 => exec_push(frame, Value::Float(0x0000_0000), State::Continue),
        Instruction::FCONST_1 => exec_push(frame, Value::Float(0x3F80_0000), State::Continue),
        Instruction::FCONST_2 => exec_push(frame, Value::Float(0x4000_0000), State::Continue),
        Instruction::DCONST_0 => exec_push(frame, Value::Double(0x0000_0000_0000_0000), State::Continue),
        Instruction::DCONST_1 => exec_push(frame, Value::Double(0x3FF0_0000_0000_0000), State::Continue),
        Instruction::BIPUSH => exec_push(frame, Value::Int(sign_extend8(code[pc + 1])), State::Continue),
        Instruction::SIPUSH => exec_push(
            frame,
            Value::Int(sign_extend16(code[pc + 1], code[pc + 2])),
            State::Continue,
        ),
        Instruction::ILOAD => exec_load(frame, code[pc + 1] as usize, Kind::Int),
        Instruction::ILOAD_0 => exec_load(frame, 0, Kind::Int),
        Instruction::ILOAD_1 => exec_load(frame, 1, Kind::Int),
        Instruction::ILOAD_2 => exec_load(frame, 2, Kind::Int),
        Instruction::ILOAD_3 => exec_load(frame, 3, Kind::Int),
        Instruction::LLOAD => exec_load(frame, code[pc + 1] as usize, Kind::Long),
        Instruction::LLOAD_0 => exec_load(frame, 0, Kind::Long),
        Instruction::LLOAD_1 => exec_load(frame, 1, Kind::Long),
        Instruction::LLOAD_2 => exec_load(frame, 2, Kind::Long),
        Instruction::LLOAD_3 => exec_load(frame, 3, Kind::Long),
        Instruction::FLOAD => exec_load(frame, code[pc + 1] as usize, Kind::Float),
        Instruction::FLOAD_0 => exec_load(frame, 0, Kind::Float),
        Instruction::FLOAD_1 => exec_load(frame, 1, Kind::Float),
        Instruction::FLOAD_2 => exec_load(frame, 2, Kind::Float),
        Instruction::FLOAD_3 => exec_load(frame, 3, Kind::Float),
        Instruction::DLOAD => exec_load(frame, code[pc + 1] as usize, Kind::Double),
        Instruction::DLOAD_0 => exec_load(frame, 0, Kind::Double),
        Instruction::DLOAD_1 => exec_load(frame, 1, Kind::Double),
        Instruction::DLOAD_2 => exec_load(frame, 2, Kind::Double),
        Instruction::DLOAD_3 => exec_load(frame, 3, Kind::Double),
        Instruction::ALOAD => exec_load(frame, code[pc + 1] as usize, Kind::Reference),
        Instruction::ALOAD_0 => exec_load(frame, 0, Kind::Reference),
        Instruction::ALOAD_1 => exec_load(frame, 1, Kind::Reference),
        Instruction::ALOAD_2 => exec_load(frame, 2, Kind::Reference),
        Instruction::ALOAD_3 => exec_load(frame, 3, Kind::Reference),
        _ => vstd::pervasive::unreached(),
    }
}

/// Which instructions `execute_b` handles: stores and stack manipulation.
pub open spec fn group_b(inst: Instruction) -> bool {
    ||| inst is ISTORE
    ||| inst is ISTORE_0
    ||| inst is ISTORE_1
    ||| inst is ISTORE_2
    ||| inst is ISTORE_3
    ||| inst is LSTORE
    ||| inst is LSTORE_0
    ||| inst is LSTORE_1
    ||| inst is LSTORE_2
    ||| inst is LSTORE_3
    ||| inst is FSTORE
    ||| inst is FSTORE_0
    ||| inst is FSTORE_1
    ||| inst is FSTORE_2
    ||| inst is FSTORE_3
    ||| inst is DSTORE
    ||| inst is DSTORE_0
    ||| inst is DSTORE_1
    ||| inst is DSTORE_2
    ||| inst is DSTORE_3
    ||| inst is ASTORE
    ||| inst is ASTORE_0
    ||| inst is ASTORE_1
    ||| inst is ASTORE_2
    ||| inst is ASTORE_3
    ||| inst is POP
    ||| inst is POP2
    ||| inst is DUP
    ||| inst is DUP_X1
    ||| inst is DUP_X2
    ||| inst is DUP2
    ||| inst is DUP2_X1
    ||| inst is DUP2_X2
    ||| inst is SWAP
}

/// Executes one instruction of its group, as [`step`] specifies.
#[verifier::rlimit(100)]
fn execute_b(inst: Instruction, code: &Vec<u8>, pc: usize, frame: &mut StackFrame) -> (r:
    Result<State, Error>)
    requires
        old(frame).wf(),
        spec_decode(code@, pc as int) matches Decoded::Next { inst: di, .. } && di == inst,
        group_b(inst),
    ensures
        final(frame).wf(),
        final(frame).local_variables@.len() == old(frame).local_variables@.len(),
        final(frame).max_stack == old(frame).max_stack,
        match r {
            Ok(st) => step(
                inst,
                code@,
                pc as int,
                old(frame).local_variables@,
                old(frame).stack@,
                old(frame).max_stack as int,
            ) == (StepOut::Step {
                locals: final(frame).local_variables@,
                stack: final(frame).stack@,
                state: st,
            }),
            Err(e) => step(
                inst,
                code@,
                pc as int,
                old(frame).local_variables@,
                old(frame).stack@,
                old(frame).max_stack as int,
            ) == (StepOut::Abort { err: e@ }),
        },
{
    proof {
        reveal(spec_decode);
        reveal(step);
        assert(code@.len() == vstd::std_specs::vec::spec_vec_len(code));
    }
    match inst {
        Instruction::ISTORE => exec_store(frame, code[pc + 1] as usize, Kind::Int),
        Instruction::ISTORE_0 => exec_store(frame, 0, Kind::Int),
        Instruction::ISTORE_1 => exec_store(frame, 1, Kind::Int),
        Instruction::ISTORE_2 => exec_store(frame, 2, Kind::Int),
        Instruction::ISTORE_3 => exec_store(frame, 3, Kind::Int),
        Instruction::LSTORE => exec_store(frame, code[pc + 1] as usize, Kind::Long),
        Instruction::LSTORE_0 => exec_store(frame, 0, Kind::Long),
        Instruction::LSTORE_1 => exec_store(frame, 1, Kind::Long),
        Instruction::LSTORE_2 => exec_store(frame, 2, Kind::Long),
        Instruction::LSTORE_3 => exec_store(frame, 3, Kind::Long),
        Instruction::FSTORE => exec_store(frame, code[pc + 1] as usize, Kind::Float),
        Instruction::FSTORE_0 => exec_store(frame, 0, Kind::Float),
        Instruction::FSTORE_1 => exec_store(frame, 1, Kind::Float),
        Instruction::FSTORE_2 => exec_store(frame, 2, Kind::Float),
        Instruction::FSTORE_3 => exec_store(frame, 3, Kind::Float),
        Instruction::DSTORE => exec_store(frame, code[pc + 1] as usize, Kind::Double),
        Instruction::DSTORE_0 => exec_store(frame, 0, Kind::Double),
        Instruction::DSTORE_1 => exec_store(frame, 1, Kind::Double),
        Instruction::DSTORE_2 => exec_store(frame, 2, Kind::Double),
        Instruction::DSTORE_3 => exec_store(frame, 3, Kind::Double),
        Instruction::ASTORE => exec_store(frame, code[pc + 1] as usize, Kind::Reference),
        Instruction::ASTORE_0 => exec_store(frame, 0, Kind::Reference),
        Instruction::ASTORE_1 => exec_store(frame, 1, Kind::Reference),
        Instruction::ASTORE_2 => exec_store(frame, 2, Kind::Reference),
        Instruction::ASTORE_3 => exec_store(frame, 3, Kind::Reference),
        Instruction::POP => exec_pop(frame),
        Instruction::POP2 => exec_pop2(frame),
        Instruction::DUP => exec_dup(frame),
        Instruction::DUP_X1 => exec_dup_x1(frame),
        Instruction::DUP_X2 => exec_dup_x2(frame),
        Instruction::DUP2 => exec_dup2(frame),
        Instruction::DUP2_X1 => exec_dup2_x1(frame),
        Instruction::DUP2_X2 => exec_dup2_x2(frame),
        Instruction::SWAP => exec_swap(frame),
        _ => vstd::pervasive::unreached(),
    }
}

/// Which instructions `execute_c` handles: integer and long arithmetic.
pub open spec fn group_c(inst: Instruction) -> bool {
    ||| inst is IADD
    ||| inst is ISUB
    ||| inst is IMUL
    ||| inst is IDIV
    ||| inst is IREM
    ||| inst is IAND
    ||| inst is IOR
    ||| inst is IXOR
    ||| inst is ISHL
    ||| inst is ISHR
    ||| inst is IUSHR
    ||| inst is LADD
    ||| inst is LSUB
    ||| inst is LMUL
    ||| inst is LDIV
    ||| inst is LREM
    ||| inst is LAND
    ||| inst is LOR
    ||| inst is LXOR
    ||| inst is LSHL
    ||| inst is LSHR
    ||| inst is LUSHR
    ||| inst is INEG
    ||| inst is I2B
    ||| inst is I2C
    ||| inst is I2S
    ||| inst is I2L
    ||| inst is L2I
    ||| inst is LNEG
    ||| inst is LCMP
    ||| inst is IINC
}

/// Executes one instruction of its group, as [`step`] specifies.
#[verifier::rlimit(100)]
fn execute_c(inst: Instruction, code: &Vec<u8>, pc: usize, frame: &mut StackFrame) -> (r:
    Result<State, Error>)
    requires
        old(frame).wf(),
        spec_decode(code@, pc as int) matches Decoded::Next { inst: di, .. } && di == inst,
        group_c(inst),
    ensures
        final(frame).wf(),
        final(frame).local_variables@.len() == old(frame).local_variables@.len(),
        final(frame).max_stack == old(frame).max_stack,
        match r {
            Ok(st) => step(
                inst,
                code@,
                pc as int,
                old(frame).local_variables@,
                old(frame).stack@,
                old(frame).max_stack as int,
            ) == (StepOut::Step {
                locals: final(frame).local_variables@,
                stack: final(frame).stack@,
                state: st,
            }),
            Err(e) => step(
                inst,
                code@,
                pc as int,
                old(frame).local_variables@,
                old(frame).stack@,
                old(frame).max_stack as int,
            ) == (StepOut::Abort { err: e@ }),
        },
{
    proof {
        reveal(spec_decode);
        reveal(step);
        assert(code@.len() == vstd::std_specs::vec::spec_vec_len(code));
    }
    match inst {
        Instruction::IADD => exec_ibin(frame, IntOp::Add),
        Instruction::ISUB => exec_ibin(frame, IntOp::Sub),
        Instruction::IMUL => exec_ibin(frame, IntOp::Mul),
        Instruction::IDIV => exec_ibin(frame, IntOp::Div),
        Instruction::IREM => exec_ibin(frame, IntOp::Rem),
        Instruction::IAND => exec_ibin(frame, IntOp::And),
        Instruction::IOR => exec_ibin(frame, IntOp::Or),
        Instruction::IXOR => exec_ibin(frame, IntOp::Xor),
        Instruction::ISHL => exec_ibin(frame, IntOp::Shl),
        Instruction::ISHR => exec_ibin(frame, IntOp::Shr),
        Instruction::IUSHR => exec_ibin(frame, IntOp::Ushr),
        Instruction::LADD => exec_lbin(frame, LongOp::Add),
        Instruction::LSUB => exec_lbin(frame, LongOp::Sub),
        Instruction::LMUL => exec_lbin(frame, LongOp::Mul),
        Instruction::LDIV => exec_lbin(frame, LongOp::Div),
        Instruction::LREM => exec_lbin(frame, LongOp::Rem),
        Instruction::LAND => exec_lbin(frame, LongOp::And),
        Instruction::LOR => exec_lbin(frame, LongOp::Or),
        Instruction::LXOR => exec_lbin(frame, LongOp::Xor),
        Instruction::LSHL => exec_lshift(frame, ShiftDir::Shl),
        Instruction::LSHR => exec_lshift(frame, ShiftDir::Shr),
        Instruction::LUSHR => exec_lshift(frame, ShiftDir::Ushr),
        Instruction::INEG => exec_iunary(frame, IConv::Neg),
        Instruction::I2B => exec_iunary(frame, IConv::ToByte),
        Instruction::I2C => exec_iunary(frame, IConv::ToChar),
        Instruction::I2S => exec_iunary(frame, IConv::ToShort),
        Instruction::I2L => exec_i2l(frame),
        Instruction::L2I => exec_l2i(frame),
        Instruction::LNEG => exec_lneg(frame),
        Instruction::LCMP => exec_lcmp(frame),
        Instruction::IINC => exec_iinc(frame, code[pc + 1] as usize, sign_extend8(code[pc + 2])),
        _ => vstd::pervasive::unreached(),
    }
}

/// Which instructions `execute_d` handles: branches, returns, and the rest.
pub open spec fn group_d(inst: Instruction) -> bool {
    ||| inst is IFEQ
    ||| inst is IFNE
    ||| inst is IFLT
    ||| inst is IFGE
    ||| inst is IFGT
    ||| inst is IFLE
    ||| inst is IF_ICMPEQ
    ||| inst is IF_ICMPNE
    ||| inst is IF_ICMPLT
    ||| inst is IF_ICMPGE
    ||| inst is IF_ICMPGT
    ||| inst is IF_ICMPLE
    ||| inst is IF_ACMPEQ
    ||| inst is IF_ACMPNE
    ||| inst is IFNULL
    ||| inst is IFNONNULL
    ||| inst is GOTO
    ||| inst is GOTO_W
    ||| inst is IRETURN
    ||| inst is LRETURN
    ||| inst is FRETURN
    ||| inst is DRETURN
    ||| inst is ARETURN
    ||| inst is RETURN
    ||| inst is MONITORENTER
    ||| inst is MONITOREXIT
    ||| inst is WIDE
    ||| inst is BREAKPOINT
    ||| inst is IMPDEP1
    ||| inst is IMPDEP2
}

/// Executes one instruction of its group, as [`step`] specifies.
#[verifier::rlimit(100)]
fn execute_d(inst: Instruction, code: &Vec<u8>, pc: usize, frame: &mut StackFrame) -> (r:
    Result<State, Error>)
    requires
        old(frame).wf(),
        spec_decode(code@, pc as int) matches Decoded::Next { inst: di, .. } && di == inst,
        group_d(inst),
    ensures
        final(frame).wf(),
        final(frame).local_variables@.len() == old(frame).local_variables@.len(),
        final(frame).max_stack == old(frame).max_stack,
        match r {
            Ok(st) => step(
                inst,
                code@,
                pc as int,
                old(frame).local_variables@,
                old(frame).stack@,
                old(frame).max_stack as int,
            ) == (StepOut::Step {
                locals: final(frame).local_variables@,
                stack: final(frame).stack@,
                state: st,
            }),
            Err(e) => step(
                inst,
                code@,
                pc as int,
                old(frame).local_variables@,
                old(frame).stack@,
                old(frame).max_stack as int,
            ) == (StepOut::Abort { err: e@ }),
        },
{
    proof {
        reveal(spec_decode);
        reveal(step);
        assert(code@.len() == vstd::std_specs::vec::spec_vec_len(code));
    }
    match inst {
        Instruction::IFEQ => exec_if(frame, code, pc, CmpOp::Eq),
        Instruction::IFNE => exec_if(frame, code, pc, CmpOp::Ne),
        Instruction::IFLT => exec_if(frame, code, pc, CmpOp::Lt),
        Instruction::IFGE => exec_if(frame, code, pc, CmpOp::Ge),
        Instruction::IFGT => exec_if(frame, code, pc, CmpOp::Gt),
        Instruction::IFLE => exec_if(frame, code, pc, CmpOp::Le),
        Instruction::IF_ICMPEQ => exec_if_icmp(frame, code, pc, CmpOp::Eq),
        Instruction::IF_ICMPNE => exec_if_icmp(frame, code, pc, CmpOp::Ne),
        Instruction::IF_ICMPLT => exec_if_icmp(frame, code, pc, CmpOp::Lt),
        Instruction::IF_ICMPGE => exec_if_icmp(frame, code, pc, CmpOp::Ge),
        Instruction::IF_ICMPGT => exec_if_icmp(frame, code, pc, CmpOp::Gt),
        Instruction::IF_ICMPLE => exec_if_icmp(frame, code, pc, CmpOp::Le),
        Instruction::IF_ACMPEQ => exec_if_acmp(frame, code, pc, true),
        Instruction::IF_ACMPNE => exec_if_acmp(frame, code, pc, false),
        Instruction::IFNULL => exec_ifnull(frame, code, pc, true),
        Instruction::IFNONNULL => exec_ifnull(frame, code, pc, false),
        Instruction::GOTO => Ok(State::GotoRelative(sign_extend16(code[pc + 1], code[pc + 2]))),
        Instruction::GOTO_W => Ok(
            State::GotoRelative(
                sign_extend32(code[pc + 1], code[pc + 2], code[pc + 3], code[pc + 4]),
            ),
        ),
        Instruction::IRETURN => exec_return(frame, Kind::Int),
        Instruction::LRETURN => exec_return(frame, Kind::Long),
        Instruction::FRETURN => exec_return(frame, Kind::Float),
        Instruction::DRETURN => exec_return(frame, Kind::Double),
        Instruction::ARETURN => exec_return(frame, Kind::Reference),
        Instruction::RETURN => Ok(State::Return(None)),
        Instruction::MONITORENTER => Ok(State::Continue),
        Instruction::MONITOREXIT => Ok(State::Continue),
        Instruction::WIDE => {
            let sub = code[pc + 1];
            let index = (code[pc + 2] as usize) * 0x100 + (code[pc + 3] as usize);
            if sub == 0x15 {
                exec_load(frame, index, Kind::Int)
            } else if sub == 0x16 {
                exec_load(frame, index, Kind::Long)
            } else if sub == 0x17 {
                exec_load(frame, index, Kind::Float)
            } else if sub == 0x18 {
                exec_load(frame, index, Kind::Double)
            } else if sub == 0x19 {
                exec_load(frame, index, Kind::Reference)
            } else if sub == 0x36 {
                exec_store(frame, index, Kind::Int)
            } else if sub == 0x37 {
                exec_store(frame, index, Kind::Long)
            } else if sub == 0x38 {
                exec_store(frame, index, Kind::Float)
            } else if sub == 0x39 {
                exec_store(frame, index, Kind::Double)
            } else if sub == 0x3A {
                exec_store(frame, index, Kind::Reference)
            } else if sub == 0x84 {
                exec_iinc(frame, index, sign_extend16(code[pc + 4], code[pc + 5]))
            } else {
                Err(Error::GenericError(String::from_str("unsupported instruction")))
            }
        },
        Instruction::BREAKPOINT => Err(Error::UnexpectedOpcode(0xCA)),
        Instruction::IMPDEP1 => Err(Error::UnexpectedOpcode(0xFE)),
        Instruction::IMPDEP2 => Err(Error::UnexpectedOpcode(0xFF)),
        _ => vstd::pervasive::unreached(),
    }
}

/// Executes the instruction that was decoded at `pc` against `frame`,
/// yielding the control state to apply, exactly as [`step`] specifies.
#[verifier::rlimit(50)]
pub fn execute(inst: Instruction, code: &Vec<u8>, pc: usize, frame: &mut StackFrame) -> (r:
    Result<State, Error>)
    requires
        old(frame).wf(),
        spec_decode(code@, pc as int) matches Decoded::Next { inst: di, .. } && di == inst,
    ensures
        final(frame).wf(),
        final(frame).local_variables@.len() == old(frame).local_variables@.len(),
        final(frame).max_stack == old(frame).max_stack,
        match r {
            Ok(st) => step(
                inst,
                code@,
                pc as int,
                old(frame).local_variables@,
                old(frame).stack@,
                old(frame).max_stack as int,
            ) == (StepOut::Step {
                locals: final(frame).local_variables@,
                stack: final(frame).stack@,
                state: st,
            }),
            Err(e) => step(
                inst,
                code@,
                pc as int,
                old(frame).local_variables@,
                old(frame).stack@,
                old(frame).max_stack as int,
            ) == (StepOut::Abort { err: e@ }),
        },
{
    match inst {
        Instruction::NOP
        | Instruction::ACONST_NULL
        | Instruction::ICONST_M1
        | Instruction::ICONST_0
        | Instruction::ICONST_1
        | Instruction::ICONST_2
        | Instruction::ICONST_3
        | Instruction::ICONST_4
        | Instruction::ICONST_5
        | Instruction::LCONST_0
        | Instruction::LCONST_1
        | Instruction::FCONST_0
        | Instruction::FCONST_1
        | Instruction::FCONST_2
        | Instruction::DCONST_0
        | Instruction::DCONST_1
        | Instruction::BIPUSH
        | Instruction::SIPUSH
        | Instruction::ILOAD
        | Instruction::ILOAD_0
        | Instruction::ILOAD_1
        | Instruction::ILOAD_2
        | Instruction::ILOAD_3
        | Instruction::LLOAD
        | Instruction::LLOAD_0
        | Instruction::LLOAD_1
        | Instruction::LLOAD_2
        | Instruction::LLOAD_3
        | Instruction::FLOAD
        | Instruction::FLOAD_0
        | Instruction::FLOAD_1
        | Instruction::FLOAD_2
        | Instruction::FLOAD_3
        | Instruction::DLOAD
        | Instruction::DLOAD_0
        | Instruction::DLOAD_1
        | Instruction::DLOAD_2
        | Instruction::DLOAD_3
        | Instruction::ALOAD
        | Instruction::ALOAD_0
        | Instruction::ALOAD_1
        | Instruction::ALOAD_2
        | Instruction::ALOAD_3 => execute_a(inst, code, pc, frame),
        Instruction::ISTORE
        | Instruction::ISTORE_0
        | Instruction::ISTORE_1
        | Instruction::ISTORE_2
        | Instruction::ISTORE_3
        | Instruction::LSTORE
        | Instruction::LSTORE_0
        | Instruction::LSTORE_1
        | Instruction::LSTORE_2
        | Instruction::LSTORE_3
        | Instruction::FSTORE
        | Instruction::FSTORE_0
        | Instruction::FSTORE_1
        | Instruction::FSTORE_2
        | Instruction::FSTORE_3
        | Instruction::DSTORE
        | Instruction::DSTORE_0
        | Instruction::DSTORE_1
        | Instruction::DSTORE_2
        | Instruction::DSTORE_3
        | Instruction::ASTORE
        | Instruction::ASTORE_0
        | Instruction::ASTORE_1
        | Instruction::ASTORE_2
        | Instruction::ASTORE_3
        | Instruction::POP
        | Instruction::POP2
        | Instruction::DUP
        | Instruction::DUP_X1
        | Instruction::DUP_X2
        | Instruction::DUP2
        | Instruction::DUP2_X1
        | Instruction::DUP2_X2
        | Instruction::SWAP => execute_b(inst, code, pc, frame),
        Instruction::IADD
        | Instruction::ISUB
        | Instruction::IMUL
        | Instruction::IDIV
        | Instruction::IREM
        | Instruction::IAND
        | Instruction::IOR
        | Instruction::IXOR
        | Instruction::ISHL
        | Instruction::ISHR
        | Instruction::IUSHR
        | Instruction::LADD
        | Instruction::LSUB
        | Instruction::LMUL
        | Instruction::LDIV
        | Instruction::LREM
        | Instruction::LAND
        | Instruction::LOR
        | Instruction::LXOR
        | Instruction::LSHL
        | Instruction::LSHR
        | Instruction::LUSHR
        | Instruction::INEG
        | Instruction::I2B
        | Instruction::I2C
        | Instruction::I2S
        | Instruction::I2L
        | Instruction::L2I
        | Instruction::LNEG
        | Instruction::LCMP
        | Instruction::IINC => execute_c(inst, code, pc, frame),
        Instruction::IFEQ
        | Instruction::IFNE
        | Instruction::IFLT
        | Instruction::IFGE
        | Instruction::IFGT
        | Instruction::IFLE
        | Instruction::IF_ICMPEQ
        | Instruction::IF_ICMPNE
        | Instruction::IF_ICMPLT
        | Instruction::IF_ICMPGE
        | Instruction::IF_ICMPGT
        | Instruction::IF_ICMPLE
        | Instruction::IF_ACMPEQ
        | Instruction::IF_ACMPNE
        | Instruction::IFNULL
        | Instruction::IFNONNULL
        | Instruction::GOTO
        | Instruction::GOTO_W
        | Instruction::IRETURN
        | Instruction::LRETURN
        | Instruction::FRETURN
        | Instruction::DRETURN
        | Instruction::ARETURN
        | Instruction::RETURN
        | Instruction::MONITORENTER
        | Instruction::MONITOREXIT
        | Instruction::WIDE
        | Instruction::BREAKPOINT
        | Instruction::IMPDEP1
        | Instruction::IMPDEP2 => execute_d(inst, code, pc, frame),
        _ => {
            proof {
                reveal(step);
            }
            Err(Error::GenericError(String::from_str("unsupported instruction")))
        },
    }
}

/// The whole run of a method body from `pc`: decode, execute, and
/// apply the control state, until a return or an error.  The fuel
/// bounds the number of steps; the runner supplies a bound that no
/// terminating execution exhausts.
pub open spec fn spec_run(
    code: Seq<u8>,
    locals: Seq<Value>,
    stack: Seq<Value>,
    ms: int,
    pc: int,
    fuel: nat,
) -> Result<Option<Value>, ErrorV>
    decreases fuel,
{
    if fuel == 0 {
        Err(ErrorV::GenericError("step budget exhausted"@))
    } else {
        match spec_decode(code, pc) {
            Decoded::Stuck { err } => Err(err),
            Decoded::Next { inst, next } => match step(inst, code, pc, locals, stack, ms) {
                StepOut::Abort { err } => Err(err),
                StepOut::Step { locals: l2, stack: s2, state } => match state {
                    State::Continue => spec_run(code, l2, s2, ms, next, (fuel - 1) as nat),
                    State::GotoRelative(d) => spec_run(
                        code,
                        l2,
                        s2,
                        ms,
                        pc + d,
                        (fuel - 1) as nat,
                    ),
                    State::GotoAbsolute(a) => spec_run(
                        code,
                        l2,
                        s2,
                        ms,
                        a as int,
                        (fuel - 1) as nat,
                    ),
                    State::Return(v) => Ok(v),
                },
            },
        }
    }
}

/// Runs the body of a `Code` attribute on a fresh frame holding
/// `args`, dispatching instructions until one returns or faults.
#[verifier::rlimit(100)]
pub fn run_code(code: &Code, args: Vec<Value>) -> (r: Result<Option<Value>, Error>)
    requires
        args@.len() <= code.max_locals,
    ensures
        ({
            let out = spec_run(
                code.code@,
                locals_init(args@, code.max_locals as int),
                Seq::empty(),
                code.max_stack as int,
                0,
                u64::MAX as nat,
            );
            match r {
                Ok(v) => out == Ok::<Option<Value>, ErrorV>(v),
                Err(e) => out == Err::<Option<Value>, ErrorV>(e@),
            }
        }),
{
    let ghost l0 = locals_init(args@, code.max_locals as int);
    let ghost out0 = spec_run(
        code.code@,
        l0,
        Seq::empty(),
        code.max_stack as int,
        0,
        u64::MAX as nat,
    );
    let mut frame = StackFrame::for_code(code, args);
    let mut pc: usize = 0;
    let mut fuel: u64 = u64::MAX;
    loop
        invariant
            frame.wf(),
            frame.max_stack == code.max_stack,
            out0 == spec_run(
                code.code@,
                frame.local_variables@,
                frame.stack@,
                code.max_stack as int,
                pc as int,
                fuel as nat,
            ),
        decreases fuel,
    {
        proof {
            reveal_with_fuel(spec_run, 2);
            reveal(spec_decode);
        }
        if fuel == 0 {
            return Err(Error::GenericError(String::from_str("step budget exhausted")));
        }
        let (inst, next) = match decode(&code.code, pc) {
            Ok(x) => x,
            Err(e) => {
                return Err(e);
            },
        };
        let st = match execute(inst, &code.code, pc, &mut frame) {
            Ok(st) => st,
            Err(e) => {
                return Err(e);
            },
        };
        fuel = fuel - 1;
        match st {
            State::Continue => {
                pc = next;
            },
            State::GotoRelative(d) => {
                let t: i128 = pc as i128 + d as i128;
                if t < 0 || t >= code.code.len() as i128 {
                    if fuel == 0 {
                        return Err(
                            Error::GenericError(String::from_str("step budget exhausted")),
                        );
                    }
                    return Err(
                        Error::GenericError(String::from_str("program counter out of range")),
                    );
                }
                pc = t as usize;
            },
            State::GotoAbsolute(a) => {
                pc = a;
            },
            State::Return(v) => {
                return Ok(v);
            },
        }
    }
}

/// Runs a method on a fresh frame holding `args`.  A method without a
/// `Code` attribute has no runnable body.
pub fn run_method(method: &Method, args: Vec<Value>) -> (r: Result<Option<Value>, Error>)
    requires
        first_code(method@.attributes) matches Some(c) ==> args@.len() <= c.max_locals,
    ensures
        first_code(method@.attributes) is None ==> (r matches Err(e) && e@
            == ErrorV::MissingEntryPoint),
        first_code(method@.attributes) matches Some(c) ==> ({
            let out = spec_run(
                c.code,
                locals_init(args@, c.max_locals as int),
                Seq::empty(),
                c.max_stack as int,
                0,
                u64::MAX as nat,
            );
            match r {
                Ok(v) => out == Ok::<Option<Value>, ErrorV>(v),
                Err(e) => out == Err::<Option<Value>, ErrorV>(e@),
            }
        }),
{
    match method.get_code() {
        Some(code) => run_code(code, args),
        None => Err(Error::MissingEntryPoint),
    }
}

/// The first registered class carrying `name`.
pub open spec fn find_class(classes: Seq<(String, ClassFile)>, name: Seq<char>) -> Option<
    ClassFile,
>
    decreases classes.len(),
{
    if classes.len() == 0 {
        None
    } else if classes[0].0@ == name {
        Some(classes[0].1)
    } else {
        find_class(classes.drop_first(), name)
    }
}

/// Whether a method's name resolves through the pool to the UTF-8
/// string `main`.
pub open spec fn is_main_method(m: MethodV, pool: Seq<ConstantV>) -> bool {
    pool_lookup(pool, m.name.0) == Ok::<ConstantV, crate::parse::error::ErrorV>(
        ConstantV::Utf8("main"@),
    )
}

/// The first method of the list named `main`.
pub open spec fn find_main(methods: Seq<MethodV>, pool: Seq<ConstantV>) -> Option<MethodV>
    decreases methods.len(),
{
    if methods.len() == 0 {
        None
    } else if is_main_method(methods[0], pool) {
        Some(methods[0])
    } else {
        find_main(methods.drop_first(), pool)
    }
}

/// The interpreter: a name-keyed registry of loaded classes and the
/// entry point that runs one of them.
#[derive(Debug)]
pub struct Interpreter {
    pub classes: Vec<(String, ClassFile)>,
}

impl Default for Interpreter {
    /// An interpreter with no classes registered.
    fn default() -> (r: Interpreter)
        ensures
            r.classes@ =~= Seq::<(String, ClassFile)>::empty(),
    {
        Interpreter::new()
    }
}

impl Interpreter {
    /// An interpreter with no classes registered.
    pub fn new() -> (r: Interpreter)
        ensures
            r.classes@ =~= Seq::<(String, ClassFile)>::empty(),
    {
        Interpreter { classes: Vec::new() }
    }

    /// Adds a class to the registry under `name`.
    pub fn register_class(&mut self, class: ClassFile, name: String)
        ensures
            final(self).classes@ =~= old(self).classes@.push((name, class)),
    {
        self.classes.push((name, class));
    }

    /// Parses a class from its bytes and registers it under `name`.
    /// A parse failure registers nothing.
    pub fn load_class_from_bytes(&mut self, bytes: &[u8], name: String) -> (r: Result<(), Error>)
        ensures
            match r {
                Ok(()) => {
                    &&& final(self).classes@.len() == old(self).classes@.len() + 1
                    &&& final(self).classes@ =~= old(self).classes@.push(
                        final(self).classes@.last(),
                    )
                    &&& final(self).classes@.last().0 == name
                    &&& (crate::parse::classfile::parse_class_file(bytes@, 0)
                        matches Parsed::Val { v, .. } && v == final(self).classes@.last().1@)
                },
                Err(e) => {
                    &&& final(self).classes@ == old(self).classes@
                    &&& (e@ matches ErrorV::Parse(pe)
                        && crate::parse::classfile::parse_class_file(bytes@, 0)
                        == (Parsed::Fail::<crate::parse::classfile::ClassFileV> { err: pe }))
                },
            },
    {
        match crate::parse::classfile::load_class(bytes) {
            Ok(class) => {
                self.register_class(class, name);
                Ok(())
            },
            Err(e) => Err(Error::Parse(e)),
        }
    }

    /// Runs the method named `main` of the class registered as
    /// `main_class`, from an empty operand stack and uninitialized
    /// locals.
    pub fn run(&self, main_class: &str) -> (r: Result<Option<Value>, Error>)
        ensures
            find_class(self.classes@, main_class@) is None ==> (r matches Err(e) && e@
                == ErrorV::MissingMainClass),
            find_class(self.classes@, main_class@) matches Some(class) ==> ({
                let pool = pool_view(class.constant_pool@);
                match find_main(methods_view(class.methods@), pool) {
                    None => r matches Err(e) && e@ == ErrorV::MissingEntryPoint,
                    Some(m) => match first_code(m.attributes) {
                        None => r matches Err(e) && e@ == ErrorV::MissingEntryPoint,
                        Some(c) => {
                            let out = spec_run(
                                c.code,
                                locals_init(Seq::empty(), c.max_locals as int),
                                Seq::empty(),
                                c.max_stack as int,
                                0,
                                u64::MAX as nat,
                            );
                            match r {
                                Ok(v) => out == Ok::<Option<Value>, ErrorV>(v),
                                Err(e) => out == Err::<Option<Value>, ErrorV>(e@),
                            }
                        },
                    },
                }
            }),
    {
        let class = match lookup_class(&self.classes, main_class) {
            Some(c) => c,
            None => {
                return Err(Error::MissingMainClass);
            },
        };
        let method = match lookup_main(class) {
            Some(m) => m,
            None => {
                return Err(Error::MissingEntryPoint);
            },
        };
        run_method(method, Vec::new())
    }
}

/// Finds the first registered class carrying `name`.
fn lookup_class<'a>(classes: &'a Vec<(String, ClassFile)>, name: &str) -> (r: Option<
    &'a ClassFile,
>)
    ensures
        match r {
            Some(c) => find_class(classes@, name@) == Some(*c),
            None => find_class(classes@, name@) is None,
        },
{
    let target = String::from_str(name);
    let ghost regs = classes@;
    let n = classes.len();
    let mut i: usize = 0;
    proof {
        assert(regs.skip(0) =~= regs);
    }
    while i < n
        invariant
            n == classes@.len(),
            i <= n,
            regs == classes@,
            target@ == name@,
            find_class(regs, name@) == find_class(regs.skip(i as int), name@),
        decreases n - i,
    {
        let ghost before = regs.skip(i as int);
        proof {
            assert(before[0] == regs[i as int]);
        }
        if classes[i].0 == target {
            return Some(&classes[i].1);
        }
        i = i + 1;
        proof {
            assert(before.drop_first() =~= regs.skip(i as int));
        }
    }
    proof {
        assert(regs.skip(n as int) =~= Seq::<(String, ClassFile)>::empty());
    }
    None
}

/// Finds the first method of the class named `main`.
fn lookup_main<'a>(class: &'a ClassFile) -> (r: Option<&'a Method>)
    ensures
        match r {
            Some(m) => find_main(
                methods_view(class.methods@),
                pool_view(class.constant_pool@),
            ) == Some(m@),
            None => find_main(
                methods_view(class.methods@),
                pool_view(class.constant_pool@),
            ) is None,
        },
{
    let ghost pool = pool_view(class.constant_pool@);
    let ghost methods = methods_view(class.methods@);
    let main_str = String::from_str("main");
    let nm = class.methods.len();
    let mut j: usize = 0;
    proof {
        assert(methods.skip(0) =~= methods);
    }
    while j < nm
        invariant
            nm == class.methods@.len(),
            j <= nm,
            methods == methods_view(class.methods@),
            pool == pool_view(class.constant_pool@),
            main_str@ == "main"@,
            find_main(methods, pool) == find_main(methods.skip(j as int), pool),
        decreases nm - j,
    {
        let ghost before = methods.skip(j as int);
        proof {
            assert(before[0] == methods[j as int]);
            assert(methods[j as int] == class.methods@[j as int]@);
        }
        let m = &class.methods[j];
        let named_main = match m.name.lookup(class.constant_pool.as_slice()) {
            Ok(c) => match c {
                Constant::Utf8(s) => *s == main_str,
                _ => false,
            },
            Err(_) => false,
        };
        if named_main {
            return Some(m);
        }
        j = j + 1;
        proof {
            assert(before.drop_first() =~= methods.skip(j as int));
        }
    }
    proof {
        assert(methods.skip(nm as int) =~= Seq::<MethodV>::empty());
    }
    None
}

#[verifier::rlimit(100)]
proof fn lemma_step_frame_a(
    inst: Instruction,
    code: Seq<u8>,
    pc: int,
    locals: Seq<Value>,
    stack: Seq<Value>,
    ms: int,
)
    requires
        0 <= stack_words(stack) <= ms,
        group_a(inst),
    ensures
        step(inst, code, pc, locals, stack, ms) matches StepOut::Step {
            locals: l2,
            stack: s2,
            ..
        } ==> l2.len() == locals.len() && 0 <= stack_words(s2) <= ms,
{
    broadcast use {
        crate::exec::value::lemma_stack_words_push,
        crate::exec::value::lemma_stack_words_drop,
        crate::exec::value::lemma_stack_words_nonneg,
    };

    reveal(step);
}

#[verifier::rlimit(100)]
proof fn lemma_step_frame_b(
    inst: Instruction,
    code: Seq<u8>,
    pc: int,
    locals: Seq<Value>,
    stack: Seq<Value>,
    ms: int,
)
    requires
        0 <= stack_words(stack) <= ms,
        group_b(inst),
    ensures
        step(inst, code, pc, locals, stack, ms) matches StepOut::Step {
            locals: l2,
            stack: s2,
            ..
        } ==> l2.len() == locals.len() && 0 <= stack_words(s2) <= ms,
{
    broadcast use {
        crate::exec::value::lemma_stack_words_push,
        crate::exec::value::lemma_stack_words_drop,
        crate::exec::value::lemma_stack_words_nonneg,
    };

    reveal(step);
}

#[verifier::rlimit(100)]
proof fn lemma_step_frame_c(
    inst: Instruction,
    code: Seq<u8>,
    pc: int,
    locals: Seq<Value>,
    stack: Seq<Value>,
    ms: int,
)
    requires
        0 <= stack_words(stack) <= ms,
        group_c(inst),
    ensures
        step(inst, code, pc, locals, stack, ms) matches StepOut::Step {
            locals: l2,
            stack: s2,
            ..
        } ==> l2.len() == locals.len() && 0 <= stack_words(s2) <= ms,
{
    broadcast use {
        crate::exec::value::lemma_stack_words_push,
        crate::exec::value::lemma_stack_words_drop,
        crate::exec::value::lemma_stack_words_nonneg,
    };

    reveal(step);
}

#[verifier::rlimit(100)]
proof fn lemma_step_frame_d(
    inst: Instruction,
    code: Seq<u8>,
    pc: int,
    locals: Seq<Value>,
    stack: Seq<Value>,
    ms: int,
)
    requires
        0 <= stack_words(stack) <= ms,
        group_d(inst),
    ensures
        step(inst, code, pc, locals, stack, ms) matches StepOut::Step {
            locals: l2,
            stack: s2,
            ..
        } ==> l2.len() == locals.len() && 0 <= stack_words(s2) <= ms,
{
    broadcast use {
        crate::exec::value::lemma_stack_words_push,
        crate::exec::value::lemma_stack_words_drop,
        crate::exec::value::lemma_stack_words_nonneg,
    };

    reveal(step);
}

/// Every executed instruction keeps the frame well formed: the locals
/// array keeps its length, and the operand-stack depth stays between
/// zero and the frame's `max_stack`, counted in words.
#[verifier::rlimit(100)]
pub proof fn lemma_step_preserves_frame(
    inst: Instruction,
    code: Seq<u8>,
    pc: int,
    locals: Seq<Value>,
    stack: Seq<Value>,
    ms: int,
)
    requires
        0 <= stack_words(stack) <= ms,
    ensures
        step(inst, code, pc, locals, stack, ms) matches StepOut::Step {
            locals: l2,
            stack: s2,
            ..
        } ==> l2.len() == locals.len() && 0 <= stack_words(s2) <= ms,
{
    if group_a(inst) {
        lemma_step_frame_a(inst, code, pc, locals, stack, ms);
    } else if group_b(inst) {
        lemma_step_frame_b(inst, code, pc, locals, stack, ms);
    } else if group_c(inst) {
        lemma_step_frame_c(inst, code, pc, locals, stack, ms);
    } else if group_d(inst) {
        lemma_step_frame_d(inst, code, pc, locals, stack, ms);
    } else {
        reveal(step);
        assert(step(inst, code, pc, locals, stack, ms) is Abort);
    }
}

/// Integer division by zero faults: a step of the divide or remainder
/// instruction with a zero divisor on top of the stack aborts with
/// `ArithmeticFault`.
pub proof fn lemma_division_by_zero_faults(
    code: Seq<u8>,
    pc: int,
    locals: Seq<Value>,
    stack: Seq<Value>,
    ms: int,
)
    requires
        stack.len() >= 2,
        stack.last() == Value::Int(0i32),
        stack.drop_last().last() is Int,
    ensures
        step(Instruction::IDIV, code, pc, locals, stack, ms) == (StepOut::Abort {
            err: ErrorV::ArithmeticFault,
        }),
        step(Instruction::IREM, code, pc, locals, stack, ms) == (StepOut::Abort {
            err: ErrorV::ArithmeticFault,
        }),
{
    reveal(step);
}

/// Int shift counts are masked to the low five bits: two counts that
/// agree modulo 32 shift identically.
pub proof fn lemma_int_shift_count_masked(op: IntOp, a: i32, c1: i32, c2: i32)
    requires
        op is Shl || op is Shr || op is Ushr,
        bits32(c1) % 32 == bits32(c2) % 32,
    ensures
        int_op_result(op, a, c1) == int_op_result(op, a, c2),
{
}

/// Long shift counts are masked to the low six bits: two counts that
/// agree modulo 64 shift identically.
pub proof fn lemma_long_shift_count_masked(dir: ShiftDir, a: i64, c1: i32, c2: i32)
    requires
        bits32(c1) % 64 == bits32(c2) % 64,
    ensures
        long_shift_result(dir, a, c1) == long_shift_result(dir, a, c2),
{
}

/// Branch offsets are signed: sixteen offset bits sign-extend into
/// the range of a 16-bit integer and keep their value modulo 2^16;
/// thirty-two bits likewise modulo 2^32.
pub proof fn lemma_branch_offsets_signed(hi: u8, lo: u8, b0: u8, b1: u8, b2: u8, b3: u8)
    ensures
        -0x8000 <= se16(hi, lo) <= 0x7FFF,
        se16(hi, lo) % 0x1_0000 == (hi * 0x100 + lo) % 0x1_0000,
        -0x8000_0000 <= se32(b0, b1, b2, b3) <= 0x7FFF_FFFF,
        se32(b0, b1, b2, b3) % 0x1_0000_0000 == (b0 * 0x100_0000 + b1 * 0x1_0000 + b2 * 0x100
            + b3) % 0x1_0000_0000,
{
}

/// Loading from an uninitialized local fails with `VariableType`.
pub proof fn lemma_load_uninitialized_fails(
    locals: Seq<Value>,
    stack: Seq<Value>,
    ms: int,
    index: usize,
    k: Kind,
)
    requires
        index < locals.len(),
        locals[index as int] is Unset,
    ensures
        spec_load(locals, stack, ms, index, k) == (StepOut::Abort {
            err: ErrorV::VariableType(kind_name(k), index),
        }),
{
}

} // verus!
