//! Methods, method handles, and method access flags.

use vstd::prelude::*;

use crate::parse::attribute::{
    attr_vec_view, attr_view, attrs_view, parse_counted_attributes, read_counted_attributes,
    Attribute, AttributeV, Code, CodeV,
};
use crate::parse::constant::{parse_constant_index, pool_view, Constant, ConstantIndex, ConstantV};
use crate::parse::error::{Error, ErrorV};
use crate::parse::reader::{be16, parse_many, Parsed, Reader};

verus! {

broadcast use crate::parse::reader::lemma_reader_bounds;

/// A 0-based index into the bootstrap-method table.
#[derive(Debug, Copy, Clone, PartialEq, Eq, Structural)]
pub struct MethodIndex(pub u16);

/// The specification-level parse of a method index: two big-endian bytes.
pub open spec fn parse_method_index(d: Seq<u8>, p: int) -> Parsed<MethodIndex> {
    if p + 2 <= d.len() {
        Parsed::Val { v: MethodIndex(be16(d, p)), end: p + 2 }
    } else {
        Parsed::Fail { err: ErrorV::Io { msg: "method index"@ } }
    }
}

impl MethodIndex {
    /// Reads a method index.
    pub fn read(reader: &mut Reader) -> (r: Result<MethodIndex, Error>)
        requires
            old(reader).wf(),
        ensures
            final(reader).wf(),
            final(reader).data() == old(reader).data(),
            final(reader).position() >= old(reader).position(),
            match r {
                Ok(v) => parse_method_index(old(reader).data(), old(reader).position())
                    == (Parsed::Val { v, end: final(reader).position() }),
                Err(e) => {
                    &&& parse_method_index(old(reader).data(), old(reader).position())
                        == (Parsed::Fail::<MethodIndex> { err: e@ })
                    &&& final(reader).position() == old(reader).position()
                },
            },
    {
        match reader.read_u16("method index") {
            Ok(n) => Ok(MethodIndex(n)),
            Err(e) => Err(e),
        }
    }
}

/// A reference to a field or method together with the way it is invoked.
/// The handle kind byte 1 through 9 selects the variant, in this order.
#[derive(Debug, Copy, Clone, PartialEq, Eq, Structural)]
pub enum MethodHandle {
    GetField(ConstantIndex),
    GetStatic(ConstantIndex),
    PutField(ConstantIndex),
    PutStatic(ConstantIndex),
    InvokeVirtual(ConstantIndex),
    InvokeDynamic(ConstantIndex),
    InvokeSpecial(ConstantIndex),
    NewInvokeSpecial(ConstantIndex),
    InvokeInterface(ConstantIndex),
}

/// The variant selected by a handle kind byte, if the byte is recognized.
pub open spec fn method_handle_of(kind: u8, index: ConstantIndex) -> Option<MethodHandle> {
    match kind {
        1u8 => Some(MethodHandle::GetField(index)),
        2u8 => Some(MethodHandle::GetStatic(index)),
        3u8 => Some(MethodHandle::PutField(index)),
        4u8 => Some(MethodHandle::PutStatic(index)),
        5u8 => Some(MethodHandle::InvokeVirtual(index)),
        6u8 => Some(MethodHandle::InvokeDynamic(index)),
        7u8 => Some(MethodHandle::InvokeSpecial(index)),
        8u8 => Some(MethodHandle::NewInvokeSpecial(index)),
        9u8 => Some(MethodHandle::InvokeInterface(index)),
        _ => None,
    }
}

/// The specification-level parse of a method handle: a kind byte, then a
/// constant-pool index.  An unrecognized kind is a parse error.
pub open spec fn parse_method_handle(d: Seq<u8>, p: int) -> Parsed<MethodHandle> {
    if p + 1 > d.len() {
        Parsed::Fail { err: ErrorV::Io { msg: "method handle ref kind"@ } }
    } else if p + 3 > d.len() {
        Parsed::Fail { err: ErrorV::Io { msg: "constant index"@ } }
    } else {
        match method_handle_of(d[p], ConstantIndex(be16(d, p + 1))) {
            Some(h) => Parsed::Val { v: h, end: p + 3 },
            None => Parsed::Fail { err: ErrorV::InvalidMethodHandleKind { kind: d[p] } },
        }
    }
}

impl MethodHandle {
    /// Reads a method handle.
    pub fn read(reader: &mut Reader) -> (r: Result<MethodHandle, Error>)
        requires
            old(reader).wf(),
        ensures
            final(reader).wf(),
            final(reader).data() == old(reader).data(),
            final(reader).position() >= old(reader).position(),
            match r {
                Ok(v) => parse_method_handle(old(reader).data(), old(reader).position())
                    == (Parsed::Val { v, end: final(reader).position() }),
                Err(e) => parse_method_handle(old(reader).data(), old(reader).position())
                    == (Parsed::Fail::<MethodHandle> { err: e@ }),
            },
    {
        let kind = match reader.read_u8("method handle ref kind") {
            Ok(k) => k,
            Err(e) => {
                return Err(e);
            },
        };
        let index = match ConstantIndex::read(reader) {
            Ok(i) => i,
            Err(e) => {
                return Err(e);
            },
        };
        let handle = match kind {
            1u8 => MethodHandle::GetField(index),
            2u8 => MethodHandle::GetStatic(index),
            3u8 => MethodHandle::PutField(index),
            4u8 => MethodHandle::PutStatic(index),
            5u8 => MethodHandle::InvokeVirtual(index),
            6u8 => MethodHandle::InvokeDynamic(index),
            7u8 => MethodHandle::InvokeSpecial(index),
            8u8 => MethodHandle::NewInvokeSpecial(index),
            9u8 => MethodHandle::InvokeInterface(index),
            k => {
                return Err(Error::InvalidMethodHandleKind { kind: k });
            },
        };
        Ok(handle)
    }
}

/// The access-flag bitset of a method.  The named constants are the
/// meanings of the individual bits.
#[derive(Debug, Copy, Clone, PartialEq, Eq, Structural)]
pub struct MethodFlags {
    pub bits: u16,
}

pub const METHOD_PUBLIC: u16 = 0x0001;

pub const METHOD_PRIVATE: u16 = 0x0002;

pub const METHOD_PROTECTED: u16 = 0x0004;

pub const METHOD_STATIC: u16 = 0x0008;

pub const METHOD_FINAL: u16 = 0x0010;

pub const METHOD_SYNCHRONIZED: u16 = 0x0020;

pub const METHOD_BRIDGE: u16 = 0x0040;

pub const METHOD_VARARGS: u16 = 0x0080;

pub const METHOD_NATIVE: u16 = 0x0100;

pub const METHOD_ABSTRACT: u16 = 0x0400;

pub const METHOD_STRICT: u16 = 0x0800;

pub const METHOD_SYNTHETIC: u16 = 0x1000;

impl MethodFlags {
    /// The bitset with exactly the bits of `bits` set.
    pub fn from_bits(bits: u16) -> (r: Self)
        ensures
            r.bits == bits,
    {
        MethodFlags { bits }
    }

    /// Whether every bit of `flag` is set.
    pub fn contains(&self, flag: u16) -> (r: bool)
        ensures
            r == (self.bits & flag == flag),
    {
        self.bits & flag == flag
    }
}

/// A method of a class: flags, a name, a descriptor, and attributes.
/// The method's executable body, if any, is its `Code` attribute.
#[derive(Debug)]
pub struct Method {
    pub flags: MethodFlags,
    pub name: ConstantIndex,
    pub descriptor: ConstantIndex,
    pub attributes: Vec<Attribute>,
}

/// The ghost mirror of [`Method`].
pub struct MethodV {
    pub flags: MethodFlags,
    pub name: ConstantIndex,
    pub descriptor: ConstantIndex,
    pub attributes: Seq<AttributeV>,
}

impl View for Method {
    type V = MethodV;

    open spec fn view(&self) -> MethodV {
        MethodV {
            flags: self.flags,
            name: self.name,
            descriptor: self.descriptor,
            attributes: attr_vec_view(self.attributes),
        }
    }
}

/// The views of a sequence of methods.
pub open spec fn methods_view(s: Seq<Method>) -> Seq<MethodV> {
    s.map_values(|m: Method| m@)
}

/// The specification-level parse of a method: a flag word, a name
/// index, a descriptor index, and an attribute list.
pub open spec fn parse_method(d: Seq<u8>, p: int, pool: Seq<ConstantV>) -> Parsed<MethodV> {
    if p + 2 > d.len() {
        Parsed::Fail { err: ErrorV::Io { msg: "access_flags"@ } }
    } else {
        let flags = MethodFlags { bits: be16(d, p) };
        match parse_constant_index(d, p + 2) {
            Parsed::Fail { err } => Parsed::Fail { err },
            Parsed::Val { v: name, end: p1 } => match parse_constant_index(d, p1) {
                Parsed::Fail { err } => Parsed::Fail { err },
                Parsed::Val { v: descriptor, end: p2 } => match parse_counted_attributes(
                    d,
                    p2,
                    "attributes_count"@,
                    pool,
                ) {
                    Parsed::Fail { err } => Parsed::Fail { err },
                    Parsed::Val { v: attributes, end } => Parsed::Val {
                        v: MethodV { flags, name, descriptor, attributes },
                        end,
                    },
                },
            },
        }
    }
}

/// The parse of one method, as a step function for lists.
pub open spec fn method_step(pool: Seq<ConstantV>) -> spec_fn(Seq<u8>, int) -> Parsed<MethodV> {
    |d: Seq<u8>, p: int| parse_method(d, p, pool)
}

/// A two-byte count followed by that many methods.
pub open spec fn parse_counted_methods(
    d: Seq<u8>,
    p: int,
    msg: Seq<char>,
    pool: Seq<ConstantV>,
) -> Parsed<Seq<MethodV>> {
    if p + 2 > d.len() {
        Parsed::Fail { err: ErrorV::Io { msg } }
    } else {
        parse_many(d, p + 2, be16(d, p) as nat, method_step(pool))
    }
}

/// Reads a two-byte count, then that many methods.
pub fn read_counted_methods(reader: &mut Reader, constants: &[Constant], msg: &str) -> (r: Result<
    Vec<Method>,
    Error,
>)
    requires
        old(reader).wf(),
    ensures
        final(reader).wf(),
        final(reader).data() == old(reader).data(),
        final(reader).position() >= old(reader).position(),
        match r {
            Ok(v) => parse_counted_methods(
                old(reader).data(),
                old(reader).position(),
                msg@,
                pool_view(constants@),
            ) == (Parsed::Val { v: methods_view(v@), end: final(reader).position() }),
            Err(e) => parse_counted_methods(
                old(reader).data(),
                old(reader).position(),
                msg@,
                pool_view(constants@),
            ) == (Parsed::Fail::<Seq<MethodV>> { err: e@ }),
        },
{
    let n = match reader.read_u16(msg) {
        Ok(v) => v,
        Err(e) => {
            return Err(e);
        },
    };
    let ghost d = reader.data();
    let ghost p0 = reader.position();
    let ghost pool = pool_view(constants@);
    let mut items: Vec<Method> = Vec::new();
    let mut i: u16 = 0;
    while i < n
        invariant
            reader.wf(),
            reader.data() == d,
            i <= n,
            reader.position() >= p0,
            match parse_many(d, reader.position(), (n - i) as nat, method_step(pool)) {
                Parsed::Val { v: rest, end } => parse_many(d, p0, n as nat, method_step(pool))
                    == (Parsed::Val { v: methods_view(items@) + rest, end }),
                Parsed::Fail { err } => parse_many(d, p0, n as nat, method_step(pool))
                    == (Parsed::Fail::<Seq<MethodV>> { err }),
            },
        decreases n - i,
    {
        let ghost acc = methods_view(items@);
        let m = match Method::read(reader, constants) {
            Ok(m) => m,
            Err(e) => {
                return Err(e);
            },
        };
        items.push(m);
        proof {
            assert(methods_view(items@) =~= acc + seq![items@[items@.len() - 1]@]);
        }
        i = i + 1;
        proof {
            match parse_many(d, reader.position(), (n - i) as nat, method_step(pool)) {
                Parsed::Val { v: rest, end } => {
                    assert(methods_view(items@) + rest =~= acc + (seq![
                        items@[items@.len() - 1]@,
                    ] + rest));
                },
                Parsed::Fail { .. } => {},
            }
        }
    }
    proof {
        assert(methods_view(items@) + Seq::<MethodV>::empty() =~= methods_view(items@));
    }
    Ok(items)
}

/// The first `Code` attribute of an attribute list, if any.
pub open spec fn first_code(attrs: Seq<AttributeV>) -> Option<CodeV>
    decreases attrs.len(),
{
    if attrs.len() == 0 {
        None
    } else {
        match attrs[0] {
            AttributeV::Code(c) => Some(c),
            _ => first_code(attrs.drop_first()),
        }
    }
}

impl Method {
    /// Reads one method.
    pub fn read(reader: &mut Reader, constants: &[Constant]) -> (r: Result<Method, Error>)
        requires
            old(reader).wf(),
        ensures
            final(reader).wf(),
            final(reader).data() == old(reader).data(),
            final(reader).position() >= old(reader).position(),
            match r {
                Ok(m) => parse_method(old(reader).data(), old(reader).position(), pool_view(
                    constants@,
                )) == (Parsed::Val { v: m@, end: final(reader).position() }),
                Err(e) => parse_method(old(reader).data(), old(reader).position(), pool_view(
                    constants@,
                )) == (Parsed::Fail::<MethodV> { err: e@ }),
            },
    {
        let bits = match reader.read_u16("access_flags") {
            Ok(v) => v,
            Err(e) => {
                return Err(e);
            },
        };
        let name = match ConstantIndex::read(reader) {
            Ok(v) => v,
            Err(e) => {
                return Err(e);
            },
        };
        let descriptor = match ConstantIndex::read(reader) {
            Ok(v) => v,
            Err(e) => {
                return Err(e);
            },
        };
        let attributes = match read_counted_attributes(reader, constants, "attributes_count") {
            Ok(v) => v,
            Err(e) => {
                return Err(e);
            },
        };
        proof {
            assert(attr_vec_view(attributes) =~= attrs_view(attributes@));
        }
        Ok(Method { flags: MethodFlags { bits }, name, descriptor, attributes })
    }

    /// The position of the method's `Code` attribute in its attribute
    /// list: the first attribute whose variant is `Code`, if any.
    pub fn code_attribute_index(&self) -> (r: Option<usize>)
        ensures
            match r {
                Some(j) => {
                    &&& j < self@.attributes.len()
                    &&& self@.attributes[j as int] is Code
                    &&& first_code(self@.attributes) == Some(
                        self@.attributes[j as int]->Code_0,
                    )
                },
                None => first_code(self@.attributes) is None,
            },
    {
        let ghost attrs = self@.attributes;
        let n = self.attributes.len();
        let mut i: usize = 0;
        proof {
            assert(attrs.skip(0) =~= attrs);
        }
        while i < n
            invariant
                n == self.attributes.len(),
                i <= n,
                first_code(attrs) == first_code(attrs.skip(i as int)),
            decreases n - i,
        {
            let ghost before = attrs.skip(i as int);
            match &self.attributes[i] {
                Attribute::Code(..) => {
                    proof {
                        assert(before[0] == attrs[i as int]);
                        assert(attrs[i as int] == attr_view(self.attributes[i as int]));
                    }
                    return Some(i);
                },
                _ => {},
            }
            i = i + 1;
            proof {
                assert(before[0] == attrs[i - 1]);
                assert(attrs[i - 1] == attr_view(self.attributes[i - 1]));
                assert(before.drop_first() =~= attrs.skip(i as int));
            }
        }
        proof {
            assert(attrs.skip(n as int) =~= Seq::<AttributeV>::empty());
        }
        None
    }

    /// The method's `Code` attribute: the first attribute of the list
    /// whose variant is `Code`, if there is one.
    pub fn get_code(&self) -> (r: Option<&Code>)
        ensures
            match r {
                Some(c) => first_code(self@.attributes) == Some(c@),
                None => first_code(self@.attributes) is None,
            },
    {
        match self.code_attribute_index() {
            Some(j) => match &self.attributes[j] {
                Attribute::Code(code) => Some(code),
                _ => vstd::pervasive::unreached(),
            },
            None => None,
        }
    }
}

} // verus!
