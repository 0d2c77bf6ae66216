//! The constant pool: a 1-indexed table of tagged constants.
//!
//! Long and double constants occupy two slots; the slot after one is a
//! reserved [`Constant::Padding`] entry that no index may resolve to.
//! Float and double constants keep the raw bit pattern of their value;
//! interpreting the bits is the concern of a host that works with
//! floating point.

use vstd::prelude::*;
use vstd::string::StringExecFns;
use vstd::utf8::{decode_utf8, valid_utf8};

use crate::parse::error::{Error, ErrorV};
use crate::parse::method::{parse_method_handle, parse_method_index, MethodHandle, MethodIndex};
use crate::parse::reader::{be16, be32, be64, Parsed, Reader};

verus! {

broadcast use crate::parse::reader::lemma_reader_bounds;

/// A 1-based index into the constant pool.  Index zero is never valid.
#[derive(Debug, Copy, Clone, PartialEq, Eq, Structural)]
pub struct ConstantIndex(pub u16);

/// The specification-level parse of a constant-pool index: two
/// big-endian bytes.
pub open spec fn parse_constant_index(d: Seq<u8>, p: int) -> Parsed<ConstantIndex> {
    if p + 2 <= d.len() {
        Parsed::Val { v: ConstantIndex(be16(d, p)), end: p + 2 }
    } else {
        Parsed::Fail { err: ErrorV::Io { msg: "constant index"@ } }
    }
}

impl ConstantIndex {
    /// Reads a constant-pool index.
    pub fn read(reader: &mut Reader) -> (r: Result<ConstantIndex, Error>)
        requires
            old(reader).wf(),
        ensures
            final(reader).wf(),
            final(reader).data() == old(reader).data(),
            final(reader).position() >= old(reader).position(),
            match r {
                Ok(v) => parse_constant_index(old(reader).data(), old(reader).position())
                    == (Parsed::Val { v, end: final(reader).position() }),
                Err(e) => {
                    &&& parse_constant_index(old(reader).data(), old(reader).position())
                        == (Parsed::Fail::<ConstantIndex> { err: e@ })
                    &&& final(reader).position() == old(reader).position()
                },
            },
    {
        match reader.read_u16("constant index") {
            Ok(n) => Ok(ConstantIndex(n)),
            Err(e) => Err(e),
        }
    }
}

/// A reference to a method: the class and the name-and-type of the method.
#[derive(Debug, Copy, Clone, PartialEq, Eq, Structural)]
pub struct MethodRef {
    pub class: ConstantIndex,
    pub name_and_type: ConstantIndex,
}

/// A reference to a field: the class and the name-and-type of the field.
#[derive(Debug, Copy, Clone, PartialEq, Eq, Structural)]
pub struct FieldRef {
    pub class: ConstantIndex,
    pub name_and_type: ConstantIndex,
}

/// A reference to an interface method.
#[derive(Debug, Copy, Clone, PartialEq, Eq, Structural)]
pub struct InterfaceMethodRef {
    pub class: ConstantIndex,
    pub name_and_type: ConstantIndex,
}

/// A pairing of a name with a descriptor.
#[derive(Debug, Copy, Clone, PartialEq, Eq, Structural)]
pub struct NameAndTypeRef {
    pub name: ConstantIndex,
    pub descriptor: ConstantIndex,
}

/// A dynamic-invocation site: a bootstrap method and a name-and-type.
#[derive(Debug, Copy, Clone, PartialEq, Eq, Structural)]
pub struct InvokeDynamicRef {
    pub bootstrap: MethodIndex,
    pub name_and_type: ConstantIndex,
}

/// The specification-level parse of two consecutive constant-pool
/// indices, as every two-index constant stores them.
pub open spec fn parse_index_pair(d: Seq<u8>, p: int) -> Parsed<(ConstantIndex, ConstantIndex)> {
    match parse_constant_index(d, p) {
        Parsed::Fail { err } => Parsed::Fail { err },
        Parsed::Val { v: a, end: p1 } => match parse_constant_index(d, p1) {
            Parsed::Fail { err } => Parsed::Fail { err },
            Parsed::Val { v: b, end: p2 } => Parsed::Val { v: (a, b), end: p2 },
        },
    }
}

/// Reads two consecutive constant-pool indices.
fn read_index_pair(reader: &mut Reader) -> (r: Result<(ConstantIndex, ConstantIndex), Error>)
    requires
        old(reader).wf(),
    ensures
        final(reader).wf(),
        final(reader).data() == old(reader).data(),
        final(reader).position() >= old(reader).position(),
        match r {
            Ok(v) => parse_index_pair(old(reader).data(), old(reader).position())
                == (Parsed::Val { v, end: final(reader).position() }),
            Err(e) => parse_index_pair(old(reader).data(), old(reader).position())
                == (Parsed::Fail::<(ConstantIndex, ConstantIndex)> { err: e@ }),
        },
{
    let a = match ConstantIndex::read(reader) {
        Ok(a) => a,
        Err(e) => {
            return Err(e);
        },
    };
    let b = match ConstantIndex::read(reader) {
        Ok(b) => b,
        Err(e) => {
            return Err(e);
        },
    };
    Ok((a, b))
}

/// A constant-pool entry.
#[derive(Debug, Clone)]
pub enum Constant {
    Integer(u32),
    /// The bit pattern of a 32-bit IEEE-754 value.
    Float(u32),
    Long(u64),
    /// The bit pattern of a 64-bit IEEE-754 value.
    Double(u64),
    Utf8(String),
    ClassRef(ConstantIndex),
    StringRef(ConstantIndex),
    MethodRef(MethodRef),
    FieldRef(FieldRef),
    InterfaceMethodRef(InterfaceMethodRef),
    NameAndTypeRef(NameAndTypeRef),
    InvokeDynamicRef(InvokeDynamicRef),
    MethodHandleRef(MethodHandle),
    MethodType(ConstantIndex),
    /// The reserved slot after a long or double constant.
    Padding,
}

/// The ghost mirror of [`Constant`].
pub enum ConstantV {
    Integer(u32),
    Float(u32),
    Long(u64),
    Double(u64),
    Utf8(Seq<char>),
    ClassRef(ConstantIndex),
    StringRef(ConstantIndex),
    MethodRef(MethodRef),
    FieldRef(FieldRef),
    InterfaceMethodRef(InterfaceMethodRef),
    NameAndTypeRef(NameAndTypeRef),
    InvokeDynamicRef(InvokeDynamicRef),
    MethodHandleRef(MethodHandle),
    MethodType(ConstantIndex),
    Padding,
}

impl View for Constant {
    type V = ConstantV;

    open spec fn view(&self) -> ConstantV {
        match self {
            Constant::Integer(v) => ConstantV::Integer(*v),
            Constant::Float(v) => ConstantV::Float(*v),
            Constant::Long(v) => ConstantV::Long(*v),
            Constant::Double(v) => ConstantV::Double(*v),
            Constant::Utf8(s) => ConstantV::Utf8(s@),
            Constant::ClassRef(i) => ConstantV::ClassRef(*i),
            Constant::StringRef(i) => ConstantV::StringRef(*i),
            Constant::MethodRef(v) => ConstantV::MethodRef(*v),
            Constant::FieldRef(v) => ConstantV::FieldRef(*v),
            Constant::InterfaceMethodRef(v) => ConstantV::InterfaceMethodRef(*v),
            Constant::NameAndTypeRef(v) => ConstantV::NameAndTypeRef(*v),
            Constant::InvokeDynamicRef(v) => ConstantV::InvokeDynamicRef(*v),
            Constant::MethodHandleRef(v) => ConstantV::MethodHandleRef(*v),
            Constant::MethodType(i) => ConstantV::MethodType(*i),
            Constant::Padding => ConstantV::Padding,
        }
    }
}

/// The views of the entries of a constant pool.
pub open spec fn pool_view(s: Seq<Constant>) -> Seq<ConstantV> {
    s.map_values(|c: Constant| c@)
}

/// What looking up `index` in `pool` yields: the entry at `index - 1`,
/// unless the index is zero, past the end, or lands on a padding slot.
pub open spec fn pool_lookup(pool: Seq<ConstantV>, index: u16) -> Result<ConstantV, ErrorV> {
    if index == 0 {
        Err(ErrorV::ZeroIndex)
    } else if pool.len() < index {
        Err(ErrorV::OutOfRange { index })
    } else if pool[index - 1] is Padding {
        Err(ErrorV::IndexInsideDoubleWidthConstant { index })
    } else {
        Ok(pool[index - 1])
    }
}

/// A valid lookup never yields the padding slot after a long or double
/// constant: the only entry a successful lookup cannot return is
/// `Padding`.
pub proof fn lemma_lookup_never_padding(pool: Seq<ConstantV>, index: u16)
    ensures
        pool_lookup(pool, index) matches Ok(c) ==> !(c is Padding),
{
}

impl ConstantIndex {
    /// Resolves this index in `pool`, 1-based.
    pub fn lookup<'a>(self, pool: &'a [Constant]) -> (r: Result<&'a Constant, Error>)
        ensures
            match r {
                Ok(c) => pool_lookup(pool_view(pool@), self.0) == Ok::<ConstantV, ErrorV>(c@),
                Err(e) => pool_lookup(pool_view(pool@), self.0) == Err::<ConstantV, ErrorV>(e@),
            },
    {
        if self.0 == 0 {
            return Err(Error::ZeroIndex);
        }
        if pool.len() < self.0 as usize {
            return Err(Error::OutOfRange { index: self.0 });
        }
        let constant = &pool[(self.0 - 1) as usize];
        match constant {
            Constant::Padding => Err(Error::IndexInsideDoubleWidthConstant { index: self.0 }),
            _ => Ok(constant),
        }
    }
}

/// The tag byte that introduced a constant, if the entry is not padding.
pub open spec fn constant_tag(c: ConstantV) -> Option<u8> {
    match c {
        ConstantV::Utf8(..) => Some(1u8),
        ConstantV::Integer(..) => Some(3u8),
        ConstantV::Float(..) => Some(4u8),
        ConstantV::Long(..) => Some(5u8),
        ConstantV::Double(..) => Some(6u8),
        ConstantV::ClassRef(..) => Some(7u8),
        ConstantV::StringRef(..) => Some(8u8),
        ConstantV::FieldRef(..) => Some(9u8),
        ConstantV::MethodRef(..) => Some(10u8),
        ConstantV::InterfaceMethodRef(..) => Some(11u8),
        ConstantV::NameAndTypeRef(..) => Some(12u8),
        ConstantV::MethodHandleRef(..) => Some(15u8),
        ConstantV::MethodType(..) => Some(16u8),
        ConstantV::InvokeDynamicRef(..) => Some(18u8),
        ConstantV::Padding => None,
    }
}

impl Constant {
    /// A copy of this constant that is provably equal, entry for entry,
    /// to the original.
    pub fn duplicate(&self) -> (r: Constant)
        ensures
            r@ == self@,
    {
        match self {
            Constant::Integer(v) => Constant::Integer(*v),
            Constant::Float(v) => Constant::Float(*v),
            Constant::Long(v) => Constant::Long(*v),
            Constant::Double(v) => Constant::Double(*v),
            Constant::Utf8(s) => Constant::Utf8(s.clone()),
            Constant::ClassRef(i) => Constant::ClassRef(*i),
            Constant::StringRef(i) => Constant::StringRef(*i),
            Constant::MethodRef(v) => Constant::MethodRef(*v),
            Constant::FieldRef(v) => Constant::FieldRef(*v),
            Constant::InterfaceMethodRef(v) => Constant::InterfaceMethodRef(*v),
            Constant::NameAndTypeRef(v) => Constant::NameAndTypeRef(*v),
            Constant::InvokeDynamicRef(v) => Constant::InvokeDynamicRef(*v),
            Constant::MethodHandleRef(v) => Constant::MethodHandleRef(*v),
            Constant::MethodType(i) => Constant::MethodType(*i),
            Constant::Padding => Constant::Padding,
        }
    }

    /// The tag byte that introduces this constant in the binary format,
    /// or `None` for the padding pseudo-entry.
    pub fn get_tag(self) -> (r: Option<u8>)
        ensures
            r == constant_tag(self@),
    {
        match self {
            Constant::Utf8(..) => Some(1),
            Constant::Integer(..) => Some(3),
            Constant::Float(..) => Some(4),
            Constant::Long(..) => Some(5),
            Constant::Double(..) => Some(6),
            Constant::ClassRef(..) => Some(7),
            Constant::StringRef(..) => Some(8),
            Constant::FieldRef(..) => Some(9),
            Constant::MethodRef(..) => Some(10),
            Constant::InterfaceMethodRef(..) => Some(11),
            Constant::NameAndTypeRef(..) => Some(12),
            Constant::MethodHandleRef(..) => Some(15),
            Constant::MethodType(..) => Some(16),
            Constant::InvokeDynamicRef(..) => Some(18),
            Constant::Padding => None,
        }
    }
}

/// Relies on std's `str::from_utf8`: it succeeds exactly on well-formed
/// UTF-8 input, and then yields the characters that the input encodes.
#[verifier::external_body]
fn utf8_to_string(bytes: &Vec<u8>) -> (r: Option<String>)
    ensures
        match r {
            Some(s) => valid_utf8(bytes@) && s@ == decode_utf8(bytes@),
            None => !valid_utf8(bytes@),
        },
{
    match std::str::from_utf8(bytes.as_slice()) {
        Ok(s) => Some(s.to_owned()),
        Err(_) => None,
    }
}

/// The specification-level parse of a length-prefixed UTF-8 string:
/// a two-byte length, then that many bytes of well-formed UTF-8.
pub open spec fn parse_utf8(d: Seq<u8>, p: int) -> Parsed<Seq<char>> {
    if p + 2 > d.len() {
        Parsed::Fail { err: ErrorV::Io { msg: "utf-8 length"@ } }
    } else {
        let n = be16(d, p) as int;
        if p + 2 + n > d.len() {
            Parsed::Fail { err: ErrorV::Io { msg: "utf-8 string"@ } }
        } else {
            let bytes = d.subrange(p + 2, p + 2 + n);
            if valid_utf8(bytes) {
                Parsed::Val { v: decode_utf8(bytes), end: p + 2 + n }
            } else {
                Parsed::Fail { err: ErrorV::InvalidString }
            }
        }
    }
}

/// Reads a length-prefixed UTF-8 string.
pub fn read_utf8(reader: &mut Reader) -> (r: Result<String, Error>)
    requires
        old(reader).wf(),
    ensures
        final(reader).wf(),
        final(reader).data() == old(reader).data(),
        final(reader).position() >= old(reader).position(),
        match r {
            Ok(s) => parse_utf8(old(reader).data(), old(reader).position())
                == (Parsed::Val { v: s@, end: final(reader).position() }),
            Err(e) => parse_utf8(old(reader).data(), old(reader).position())
                == (Parsed::Fail::<Seq<char>> { err: e@ }),
        },
{
    let len = match reader.read_u16("utf-8 length") {
        Ok(n) => n,
        Err(e) => {
            return Err(e);
        },
    };
    let buf = match reader.read_exact(len as usize, "utf-8 string") {
        Ok(b) => b,
        Err(e) => {
            return Err(e);
        },
    };
    match utf8_to_string(&buf) {
        Some(s) => Ok(s),
        None => Err(Error::InvalidString),
    }
}

/// The specification-level parse of one constant-pool entry: a tag byte
/// followed by the payload the tag calls for.
pub open spec fn parse_constant(d: Seq<u8>, p: int) -> Parsed<ConstantV> {
    if p + 1 > d.len() {
        Parsed::Fail { err: ErrorV::Io { msg: "tag"@ } }
    } else {
        let q = p + 1;
        match d[p] {
            1u8 => match parse_utf8(d, q) {
                Parsed::Fail { err } => Parsed::Fail { err },
                Parsed::Val { v, end } => Parsed::Val { v: ConstantV::Utf8(v), end },
            },
            3u8 => if q + 4 <= d.len() {
                Parsed::Val { v: ConstantV::Integer(be32(d, q)), end: q + 4 }
            } else {
                Parsed::Fail { err: ErrorV::Io { msg: "integer"@ } }
            },
            4u8 => if q + 4 <= d.len() {
                Parsed::Val { v: ConstantV::Float(be32(d, q)), end: q + 4 }
            } else {
                Parsed::Fail { err: ErrorV::Io { msg: "float"@ } }
            },
            5u8 => if q + 8 <= d.len() {
                Parsed::Val { v: ConstantV::Long(be64(d, q)), end: q + 8 }
            } else {
                Parsed::Fail { err: ErrorV::Io { msg: "long"@ } }
            },
            6u8 => if q + 8 <= d.len() {
                Parsed::Val { v: ConstantV::Double(be64(d, q)), end: q + 8 }
            } else {
                Parsed::Fail { err: ErrorV::Io { msg: "double"@ } }
            },
            7u8 => match parse_constant_index(d, q) {
                Parsed::Fail { err } => Parsed::Fail { err },
                Parsed::Val { v, end } => Parsed::Val { v: ConstantV::ClassRef(v), end },
            },
            8u8 => match parse_constant_index(d, q) {
                Parsed::Fail { err } => Parsed::Fail { err },
                Parsed::Val { v, end } => Parsed::Val { v: ConstantV::StringRef(v), end },
            },
            9u8 => match parse_index_pair(d, q) {
                Parsed::Fail { err } => Parsed::Fail { err },
                Parsed::Val { v, end } => Parsed::Val {
                    v: ConstantV::FieldRef(FieldRef { class: v.0, name_and_type: v.1 }),
                    end,
                },
            },
            10u8 => match parse_index_pair(d, q) {
                Parsed::Fail { err } => Parsed::Fail { err },
                Parsed::Val { v, end } => Parsed::Val {
                    v: ConstantV::MethodRef(MethodRef { class: v.0, name_and_type: v.1 }),
                    end,
                },
            },
            11u8 => match parse_index_pair(d, q) {
                Parsed::Fail { err } => Parsed::Fail { err },
                Parsed::Val { v, end } => Parsed::Val {
                    v: ConstantV::InterfaceMethodRef(
                        InterfaceMethodRef { class: v.0, name_and_type: v.1 },
                    ),
                    end,
                },
            },
            12u8 => match parse_index_pair(d, q) {
                Parsed::Fail { err } => Parsed::Fail { err },
                Parsed::Val { v, end } => Parsed::Val {
                    v: ConstantV::NameAndTypeRef(NameAndTypeRef { name: v.0, descriptor: v.1 }),
                    end,
                },
            },
            15u8 => match parse_method_handle(d, q) {
                Parsed::Fail { err } => Parsed::Fail { err },
                Parsed::Val { v, end } => Parsed::Val { v: ConstantV::MethodHandleRef(v), end },
            },
            16u8 => match parse_constant_index(d, q) {
                Parsed::Fail { err } => Parsed::Fail { err },
                Parsed::Val { v, end } => Parsed::Val { v: ConstantV::MethodType(v), end },
            },
            18u8 => match parse_method_index(d, q) {
                Parsed::Fail { err } => Parsed::Fail { err },
                Parsed::Val { v: b, end: q1 } => match parse_constant_index(d, q1) {
                    Parsed::Fail { err } => Parsed::Fail { err },
                    Parsed::Val { v: nt, end } => Parsed::Val {
                        v: ConstantV::InvokeDynamicRef(
                            InvokeDynamicRef { bootstrap: b, name_and_type: nt },
                        ),
                        end,
                    },
                },
            },
            t => Parsed::Fail { err: ErrorV::UnknownTag { tag: t } },
        }
    }
}

impl Constant {
    /// Reads one constant-pool entry.
    pub fn read(reader: &mut Reader) -> (r: Result<Constant, Error>)
        requires
            old(reader).wf(),
        ensures
            final(reader).wf(),
            final(reader).data() == old(reader).data(),
            final(reader).position() >= old(reader).position(),
            match r {
                Ok(c) => parse_constant(old(reader).data(), old(reader).position())
                    == (Parsed::Val { v: c@, end: final(reader).position() }),
                Err(e) => parse_constant(old(reader).data(), old(reader).position())
                    == (Parsed::Fail::<ConstantV> { err: e@ }),
            },
    {
        let tag = match reader.read_u8("tag") {
            Ok(t) => t,
            Err(e) => {
                return Err(e);
            },
        };
        match tag {
            1u8 => match read_utf8(reader) {
                Ok(s) => Ok(Constant::Utf8(s)),
                Err(e) => Err(e),
            },
            3u8 => match reader.read_u32("integer") {
                Ok(v) => Ok(Constant::Integer(v)),
                Err(e) => Err(e),
            },
            4u8 => match reader.read_u32("float") {
                Ok(v) => Ok(Constant::Float(v)),
                Err(e) => Err(e),
            },
            5u8 => match reader.read_u64("long") {
                Ok(v) => Ok(Constant::Long(v)),
                Err(e) => Err(e),
            },
            6u8 => match reader.read_u64("double") {
                Ok(v) => Ok(Constant::Double(v)),
                Err(e) => Err(e),
            },
            7u8 => match ConstantIndex::read(reader) {
                Ok(i) => Ok(Constant::ClassRef(i)),
                Err(e) => Err(e),
            },
            8u8 => match ConstantIndex::read(reader) {
                Ok(i) => Ok(Constant::StringRef(i)),
                Err(e) => Err(e),
            },
            9u8 => match read_index_pair(reader) {
                Ok(v) => Ok(Constant::FieldRef(FieldRef { class: v.0, name_and_type: v.1 })),
                Err(e) => Err(e),
            },
            10u8 => match read_index_pair(reader) {
                Ok(v) => Ok(Constant::MethodRef(MethodRef { class: v.0, name_and_type: v.1 })),
                Err(e) => Err(e),
            },
            11u8 => match read_index_pair(reader) {
                Ok(v) => Ok(
                    Constant::InterfaceMethodRef(
                        InterfaceMethodRef { class: v.0, name_and_type: v.1 },
                    ),
                ),
                Err(e) => Err(e),
            },
            12u8 => match read_index_pair(reader) {
                Ok(v) => Ok(
                    Constant::NameAndTypeRef(NameAndTypeRef { name: v.0, descriptor: v.1 }),
                ),
                Err(e) => Err(e),
            },
            15u8 => match MethodHandle::read(reader) {
                Ok(h) => Ok(Constant::MethodHandleRef(h)),
                Err(e) => Err(e),
            },
            16u8 => match ConstantIndex::read(reader) {
                Ok(i) => Ok(Constant::MethodType(i)),
                Err(e) => Err(e),
            },
            18u8 => {
                let b = match MethodIndex::read(reader) {
                    Ok(b) => b,
                    Err(e) => {
                        return Err(e);
                    },
                };
                match ConstantIndex::read(reader) {
                    Ok(nt) => Ok(
                        Constant::InvokeDynamicRef(
                            InvokeDynamicRef { bootstrap: b, name_and_type: nt },
                        ),
                    ),
                    Err(e) => Err(e),
                }
            },
            t => Err(Error::UnknownTag { tag: t }),
        }
    }
}

/// The specification-level parse of `n` logical constant-pool entries.
/// After a long or double constant a padding slot is appended, so the
/// parsed pool may be longer than `n`.
pub open spec fn parse_constants(d: Seq<u8>, p: int, n: nat) -> Parsed<Seq<ConstantV>>
    decreases n,
{
    if n == 0 {
        Parsed::Val { v: Seq::empty(), end: p }
    } else {
        match parse_constant(d, p) {
            Parsed::Fail { err } => Parsed::Fail { err },
            Parsed::Val { v: c, end } => match parse_constants(d, end, (n - 1) as nat) {
                Parsed::Fail { err } => Parsed::Fail { err },
                Parsed::Val { v: rest, end: e } => {
                    let this = if c is Long || c is Double {
                        seq![c, ConstantV::Padding]
                    } else {
                        seq![c]
                    };
                    Parsed::Val { v: this + rest, end: e }
                },
            },
        }
    }
}

/// The specification-level parse of a whole constant pool: the count
/// field, then `count - 1` logical entries.
pub open spec fn parse_constant_pool(d: Seq<u8>, p: int) -> Parsed<Seq<ConstantV>> {
    if p + 2 > d.len() {
        Parsed::Fail { err: ErrorV::Io { msg: "constant_pool_count"@ } }
    } else {
        let count = be16(d, p);
        if count == 0 {
            Parsed::Fail {
                err: ErrorV::Expected {
                    got: "0"@,
                    expected: "a constant pool count of at least 1"@,
                },
            }
        } else {
            parse_constants(d, p + 2, (count - 1) as nat)
        }
    }
}

/// Reads the constant pool: a count field, then `count - 1` logical
/// entries, a padding slot being inserted after each long or double.
pub fn read_constant_pool(reader: &mut Reader) -> (r: Result<Vec<Constant>, Error>)
    requires
        old(reader).wf(),
    ensures
        final(reader).wf(),
        final(reader).data() == old(reader).data(),
        final(reader).position() >= old(reader).position(),
        match r {
            Ok(v) => parse_constant_pool(old(reader).data(), old(reader).position())
                == (Parsed::Val { v: pool_view(v@), end: final(reader).position() }),
            Err(e) => parse_constant_pool(old(reader).data(), old(reader).position())
                == (Parsed::Fail::<Seq<ConstantV>> { err: e@ }),
        },
{
    let count = match reader.read_u16("constant_pool_count") {
        Ok(c) => c,
        Err(e) => {
            return Err(e);
        },
    };
    if count == 0 {
        return Err(
            Error::Expected {
                got: String::from_str("0"),
                expected: String::from_str("a constant pool count of at least 1"),
            },
        );
    }
    let n = count - 1;
    let ghost d = reader.data();
    let ghost p0 = reader.position();
    let mut pool: Vec<Constant> = Vec::new();
    let mut i: u16 = 0;
    while i < n
        invariant
            reader.wf(),
            reader.data() == d,
            i <= n,
            reader.position() >= p0,
            match parse_constants(d, reader.position(), (n - i) as nat) {
                Parsed::Val { v: rest, end } => parse_constants(d, p0, n as nat)
                    == (Parsed::Val { v: pool_view(pool@) + rest, end }),
                Parsed::Fail { err } => parse_constants(d, p0, n as nat)
                    == (Parsed::Fail::<Seq<ConstantV>> { err }),
            },
        decreases n - i,
    {
        let ghost pool_before = pool_view(pool@);
        let c = match Constant::read(reader) {
            Ok(c) => c,
            Err(e) => {
                return Err(e);
            },
        };
        let wide = match &c {
            Constant::Long(..) => true,
            Constant::Double(..) => true,
            _ => false,
        };
        pool.push(c);
        if wide {
            pool.push(Constant::Padding);
        }
        proof {
            if wide {
                assert(pool_view(pool@) =~= pool_before + seq![
                    pool@[pool@.len() - 2]@,
                    ConstantV::Padding,
                ]);
            } else {
                assert(pool_view(pool@) =~= pool_before + seq![pool@[pool@.len() - 1]@]);
            }
        }
        i = i + 1;
        proof {
            match parse_constants(d, reader.position(), (n - i) as nat) {
                Parsed::Val { v: rest, end } => {
                    assert(pool_view(pool@) + rest =~= pool_before + (
                    if wide {
                        seq![pool@[pool@.len() - 2]@, ConstantV::Padding]
                    } else {
                        seq![pool@[pool@.len() - 1]@]
                    } + rest));
                },
                Parsed::Fail { .. } => {},
            }
        }
    }
    proof {
        assert(pool_view(pool@) + Seq::<ConstantV>::empty() =~= pool_view(pool@));
    }
    Ok(pool)
}

/// After every long or double constant in a parsed pool stands a
/// padding slot.
pub proof fn lemma_padding_after_wide(d: Seq<u8>, p: int, n: nat)
    ensures
        parse_constants(d, p, n) matches Parsed::Val { v, .. } ==> forall|i: int|
            0 <= i < v.len() && ((#[trigger] v[i]) is Long || v[i] is Double) ==> i + 1 < v.len()
                && v[i + 1] is Padding,
    decreases n,
{
    if n == 0 {
    } else {
        match parse_constant(d, p) {
            Parsed::Fail { .. } => {},
            Parsed::Val { v: c, end } => {
                lemma_padding_after_wide(d, end, (n - 1) as nat);
                match parse_constants(d, end, (n - 1) as nat) {
                    Parsed::Fail { .. } => {},
                    Parsed::Val { v: rest, .. } => {
                        let this = if c is Long || c is Double {
                            seq![c, ConstantV::Padding]
                        } else {
                            seq![c]
                        };
                        let whole = this + rest;
                        assert forall|i: int|
                            0 <= i < whole.len() && ((#[trigger] whole[i]) is Long
                                || whole[i] is Double) implies i + 1 < whole.len() && whole[i
                            + 1] is Padding by {
                            if i >= this.len() {
                                assert(whole[i] == rest[i - this.len()]);
                                assert(rest[i - this.len() + 1] == whole[i + 1]);
                            }
                        }
                    },
                }
            },
        }
    }
}

/// The number of entries of a pool that are not padding slots.
pub open spec fn logical_count(v: Seq<ConstantV>) -> nat
    decreases v.len(),
{
    if v.len() == 0 {
        0
    } else {
        (if v[0] is Padding {
            0nat
        } else {
            1nat
        }) + logical_count(v.drop_first())
    }
}

proof fn lemma_logical_count_add(a: Seq<ConstantV>, b: Seq<ConstantV>)
    ensures
        logical_count(a + b) == logical_count(a) + logical_count(b),
    decreases a.len(),
{
    if a.len() == 0 {
        assert(a + b =~= b);
    } else {
        lemma_logical_count_add(a.drop_first(), b);
        assert((a + b).drop_first() =~= a.drop_first() + b);
    }
}

/// A parse of `n` logical entries yields a pool with exactly `n`
/// entries that are not padding slots.
pub proof fn lemma_logical_count(d: Seq<u8>, p: int, n: nat)
    ensures
        parse_constants(d, p, n) matches Parsed::Val { v, .. } ==> logical_count(v) == n,
    decreases n,
{
    if n == 0 {
    } else {
        match parse_constant(d, p) {
            Parsed::Fail { .. } => {},
            Parsed::Val { v: c, end } => {
                lemma_logical_count(d, end, (n - 1) as nat);
                match parse_constants(d, end, (n - 1) as nat) {
                    Parsed::Fail { .. } => {},
                    Parsed::Val { v: rest, .. } => {
                        let this = if c is Long || c is Double {
                            seq![c, ConstantV::Padding]
                        } else {
                            seq![c]
                        };
                        lemma_logical_count_add(this, rest);
                        assert(!(c is Padding));
                        assert(logical_count(this) == 1) by {
                            reveal_with_fuel(logical_count, 3);
                            if c is Long || c is Double {
                                assert(this.drop_first() =~= seq![ConstantV::Padding]);
                                assert(this.drop_first().drop_first() =~= Seq::<
                                    ConstantV,
                                >::empty());
                            } else {
                                assert(this.drop_first() =~= Seq::<ConstantV>::empty());
                            }
                        }
                    },
                }
            },
        }
    }
}

} // verus!
