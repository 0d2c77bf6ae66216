//! Fields and field access flags.

use vstd::prelude::*;

use crate::parse::attribute::{
    attr_vec_view, attrs_view, parse_counted_attributes, read_counted_attributes, Attribute,
    AttributeV,
};
use crate::parse::constant::{parse_constant_index, pool_view, Constant, ConstantIndex, ConstantV};
use crate::parse::error::{Error, ErrorV};
use crate::parse::reader::{be16, parse_many, Parsed, Reader};

verus! {

broadcast use crate::parse::reader::lemma_reader_bounds;

/// The access-flag bitset of a field.  The named constants are the
/// meanings of the individual bits.
#[derive(Debug, Copy, Clone, PartialEq, Eq, Structural)]
pub struct FieldFlags {
    pub bits: u16,
}

pub const FIELD_PUBLIC: u16 = 0x0001;

pub const FIELD_PRIVATE: u16 = 0x0002;

pub const FIELD_PROTECTED: u16 = 0x0004;

pub const FIELD_STATIC: u16 = 0x0008;

pub const FIELD_FINAL: u16 = 0x0010;

pub const FIELD_VOLATILE: u16 = 0x0040;

pub const FIELD_TRANSIENT: u16 = 0x0080;

pub const FIELD_SYNTHETIC: u16 = 0x1000;

pub const FIELD_ENUM: u16 = 0x4000;

impl FieldFlags {
    /// The bitset with exactly the bits of `bits` set.
    pub fn from_bits(bits: u16) -> (r: Self)
        ensures
            r.bits == bits,
    {
        FieldFlags { bits }
    }

    /// Whether every bit of `flag` is set.
    pub fn contains(&self, flag: u16) -> (r: bool)
        ensures
            r == (self.bits & flag == flag),
    {
        self.bits & flag == flag
    }
}

/// A field of a class: flags, a name, a descriptor, and attributes.
#[derive(Debug)]
pub struct Field {
    pub flags: FieldFlags,
    pub name: ConstantIndex,
    pub descriptor: ConstantIndex,
    pub attributes: Vec<Attribute>,
}

/// The ghost mirror of [`Field`].
pub struct FieldV {
    pub flags: FieldFlags,
    pub name: ConstantIndex,
    pub descriptor: ConstantIndex,
    pub attributes: Seq<AttributeV>,
}

impl View for Field {
    type V = FieldV;

    open spec fn view(&self) -> FieldV {
        FieldV {
            flags: self.flags,
            name: self.name,
            descriptor: self.descriptor,
            attributes: attr_vec_view(self.attributes),
        }
    }
}

/// The views of a sequence of fields.
pub open spec fn fields_view(s: Seq<Field>) -> Seq<FieldV> {
    s.map_values(|f: Field| f@)
}

/// The specification-level parse of a field: a flag word, a name index,
/// a descriptor index, and an attribute list.
pub open spec fn parse_field(d: Seq<u8>, p: int, pool: Seq<ConstantV>) -> Parsed<FieldV> {
    if p + 2 > d.len() {
        Parsed::Fail { err: ErrorV::Io { msg: "field_flags"@ } }
    } else {
        let flags = FieldFlags { bits: be16(d, p) };
        match parse_constant_index(d, p + 2) {
            Parsed::Fail { err } => Parsed::Fail { err },
            Parsed::Val { v: name, end: p1 } => match parse_constant_index(d, p1) {
                Parsed::Fail { err } => Parsed::Fail { err },
                Parsed::Val { v: descriptor, end: p2 } => match parse_counted_attributes(
                    d,
                    p2,
                    "attributes length"@,
                    pool,
                ) {
                    Parsed::Fail { err } => Parsed::Fail { err },
                    Parsed::Val { v: attributes, end } => Parsed::Val {
                        v: FieldV { flags, name, descriptor, attributes },
                        end,
                    },
                },
            },
        }
    }
}

/// The parse of one field, as a step function for lists.
pub open spec fn field_step(pool: Seq<ConstantV>) -> spec_fn(Seq<u8>, int) -> Parsed<FieldV> {
    |d: Seq<u8>, p: int| parse_field(d, p, pool)
}

/// A two-byte count followed by that many fields.
pub open spec fn parse_counted_fields(
    d: Seq<u8>,
    p: int,
    msg: Seq<char>,
    pool: Seq<ConstantV>,
) -> Parsed<Seq<FieldV>> {
    if p + 2 > d.len() {
        Parsed::Fail { err: ErrorV::Io { msg } }
    } else {
        parse_many(d, p + 2, be16(d, p) as nat, field_step(pool))
    }
}

/// Reads a two-byte count, then that many fields.
pub fn read_counted_fields(reader: &mut Reader, constants: &[Constant], msg: &str) -> (r: Result<
    Vec<Field>,
    Error,
>)
    requires
        old(reader).wf(),
    ensures
        final(reader).wf(),
        final(reader).data() == old(reader).data(),
        final(reader).position() >= old(reader).position(),
        match r {
            Ok(v) => parse_counted_fields(
                old(reader).data(),
                old(reader).position(),
                msg@,
                pool_view(constants@),
            ) == (Parsed::Val { v: fields_view(v@), end: final(reader).position() }),
            Err(e) => parse_counted_fields(
                old(reader).data(),
                old(reader).position(),
                msg@,
                pool_view(constants@),
            ) == (Parsed::Fail::<Seq<FieldV>> { err: e@ }),
        },
{
    let n = match reader.read_u16(msg) {
        Ok(v) => v,
        Err(e) => {
            return Err(e);
        },
    };
    let ghost d = reader.data();
    let ghost p0 = reader.position();
    let ghost pool = pool_view(constants@);
    let mut items: Vec<Field> = Vec::new();
    let mut i: u16 = 0;
    while i < n
        invariant
            reader.wf(),
            reader.data() == d,
            i <= n,
            reader.position() >= p0,
            match parse_many(d, reader.position(), (n - i) as nat, field_step(pool)) {
                Parsed::Val { v: rest, end } => parse_many(d, p0, n as nat, field_step(pool))
                    == (Parsed::Val { v: fields_view(items@) + rest, end }),
                Parsed::Fail { err } => parse_many(d, p0, n as nat, field_step(pool))
                    == (Parsed::Fail::<Seq<FieldV>> { err }),
            },
        decreases n - i,
    {
        let ghost acc = fields_view(items@);
        let f = match Field::read(reader, constants) {
            Ok(f) => f,
            Err(e) => {
                return Err(e);
            },
        };
        items.push(f);
        proof {
            assert(fields_view(items@) =~= acc + seq![items@[items@.len() - 1]@]);
        }
        i = i + 1;
        proof {
            match parse_many(d, reader.position(), (n - i) as nat, field_step(pool)) {
                Parsed::Val { v: rest, end } => {
                    assert(fields_view(items@) + rest =~= acc + (seq![
                        items@[items@.len() - 1]@,
                    ] + rest));
                },
                Parsed::Fail { .. } => {},
            }
        }
    }
    proof {
        assert(fields_view(items@) + Seq::<FieldV>::empty() =~= fields_view(items@));
    }
    Ok(items)
}

impl Field {
    /// Reads one field.
    pub fn read(reader: &mut Reader, constants: &[Constant]) -> (r: Result<Field, Error>)
        requires
            old(reader).wf(),
        ensures
            final(reader).wf(),
            final(reader).data() == old(reader).data(),
            final(reader).position() >= old(reader).position(),
            match r {
                Ok(f) => parse_field(old(reader).data(), old(reader).position(), pool_view(
                    constants@,
                )) == (Parsed::Val { v: f@, end: final(reader).position() }),
                Err(e) => parse_field(old(reader).data(), old(reader).position(), pool_view(
                    constants@,
                )) == (Parsed::Fail::<FieldV> { err: e@ }),
            },
    {
        let bits = match reader.read_u16("field_flags") {
            Ok(v) => v,
            Err(e) => {
                return Err(e);
            },
        };
        let name = match ConstantIndex::read(reader) {
            Ok(v) => v,
            Err(e) => {
                return Err(e);
            },
        };
        let descriptor = match ConstantIndex::read(reader) {
            Ok(v) => v,
            Err(e) => {
                return Err(e);
            },
        };
        let attributes = match read_counted_attributes(reader, constants, "attributes length") {
            Ok(v) => v,
            Err(e) => {
                return Err(e);
            },
        };
        proof {
            assert(attr_vec_view(attributes) =~= attrs_view(attributes@));
        }
        Ok(Field { flags: FieldFlags { bits }, name, descriptor, attributes })
    }
}

} // verus!
