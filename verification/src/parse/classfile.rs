//! The parsed whole of a class file, and its top-level decoder.
//!
//! A class file opens with the magic number `0xCAFEBABE`, then carries
//! its version, the constant pool, the class flags and self/super
//! references, and the interface, field, method, and attribute lists,
//! all big-endian.

use vstd::prelude::*;
use vstd::string::StringExecFns;

use crate::parse::attribute::{
    attr_vec_view, attrs_view, parse_counted_attributes, parse_counted_indices,
    read_counted_attributes, read_counted_indices, Attribute, AttributeV,
};
use crate::parse::constant::{
    parse_constant_pool, pool_view, read_constant_pool, Constant, ConstantIndex, ConstantV,
};
use crate::parse::error::{Error, ErrorV};
use crate::parse::field::{fields_view, parse_counted_fields, read_counted_fields, Field, FieldV};
use crate::parse::method::{
    methods_view, parse_counted_methods, read_counted_methods, Method, MethodV,
};
use crate::parse::reader::{be16, be32, Parsed, Reader};

verus! {

broadcast use crate::parse::reader::lemma_reader_bounds;

/// The access-flag bitset of a class.  The named constants are the
/// meanings of the individual bits.
#[derive(Debug, Copy, Clone, PartialEq, Eq, Structural)]
pub struct ClassFlags {
    pub bits: u16,
}

pub const CLASS_PUBLIC: u16 = 0x0001;

pub const CLASS_FINAL: u16 = 0x0010;

pub const CLASS_SUPER: u16 = 0x0020;

pub const CLASS_ABSTRACT: u16 = 0x0040;

pub const CLASS_INTERFACE: u16 = 0x0200;

pub const CLASS_SYNTHETIC: u16 = 0x1000;

pub const CLASS_ANNOTATION: u16 = 0x2000;

pub const CLASS_ENUM: u16 = 0x4000;

impl ClassFlags {
    /// The bitset with exactly the bits of `bits` set.
    pub fn from_bits(bits: u16) -> (r: Self)
        ensures
            r.bits == bits,
    {
        ClassFlags { bits }
    }

    /// Whether every bit of `flag` is set.
    pub fn contains(&self, flag: u16) -> (r: bool)
        ensures
            r == (self.bits & flag == flag),
    {
        self.bits & flag == flag
    }
}

/// The character for one hexadecimal digit, upper case.
pub open spec fn hex_digit(n: int) -> char {
    if n == 0 {
        '0'
    } else if n == 1 {
        '1'
    } else if n == 2 {
        '2'
    } else if n == 3 {
        '3'
    } else if n == 4 {
        '4'
    } else if n == 5 {
        '5'
    } else if n == 6 {
        '6'
    } else if n == 7 {
        '7'
    } else if n == 8 {
        '8'
    } else if n == 9 {
        '9'
    } else if n == 10 {
        'A'
    } else if n == 11 {
        'B'
    } else if n == 12 {
        'C'
    } else if n == 13 {
        'D'
    } else if n == 14 {
        'E'
    } else {
        'F'
    }
}

/// The hexadecimal digits of `v`, most significant first, with no
/// leading zeros; empty for zero.
pub open spec fn hex_digits(v: nat) -> Seq<char>
    decreases v,
{
    if v == 0 {
        Seq::empty()
    } else {
        hex_digits(v / 16) + seq![hex_digit(v as int % 16)]
    }
}

/// `v` written as `0x` followed by its upper-case hexadecimal digits.
pub open spec fn hex_string(v: u32) -> Seq<char> {
    "0x"@ + if v == 0 {
        "0"@
    } else {
        hex_digits(v as nat)
    }
}

/// The text of one hexadecimal digit.
fn hex_digit_str(n: u32) -> (r: &'static str)
    requires
        n < 16,
    ensures
        r@ == seq![hex_digit(n as int)],
{
    let r: &'static str = match n {
        0u32 => "0",
        1u32 => "1",
        2u32 => "2",
        3u32 => "3",
        4u32 => "4",
        5u32 => "5",
        6u32 => "6",
        7u32 => "7",
        8u32 => "8",
        9u32 => "9",
        10u32 => "A",
        11u32 => "B",
        12u32 => "C",
        13u32 => "D",
        14u32 => "E",
        _ => "F",
    };
    proof {
        reveal_strlit("0");
        reveal_strlit("1");
        reveal_strlit("2");
        reveal_strlit("3");
        reveal_strlit("4");
        reveal_strlit("5");
        reveal_strlit("6");
        reveal_strlit("7");
        reveal_strlit("8");
        reveal_strlit("9");
        reveal_strlit("A");
        reveal_strlit("B");
        reveal_strlit("C");
        reveal_strlit("D");
        reveal_strlit("E");
        reveal_strlit("F");
        assert(r@ =~= seq![hex_digit(n as int)]);
    }
    r
}

/// The hexadecimal digits of `v`, most significant first.
fn hex_str(v: u32) -> (r: String)
    ensures
        r@ == hex_digits(v as nat),
    decreases v,
{
    if v == 0 {
        String::new()
    } else {
        let mut s = hex_str(v / 16);
        s.append(hex_digit_str(v % 16));
        s
    }
}

/// `v` written as a `0x`-prefixed upper-case hexadecimal string.
pub fn hex_u32(v: u32) -> (r: String)
    ensures
        r@ == hex_string(v),
{
    let mut out = String::from_str("0x");
    if v == 0 {
        out.append("0");
    } else {
        let digits = hex_str(v);
        out.append(digits.as_str());
    }
    out
}

/// A parsed class file.
#[derive(Debug)]
pub struct ClassFile {
    pub minor_version: u16,
    pub major_version: u16,
    pub constant_pool: Vec<Constant>,
    pub flags: ClassFlags,
    pub this_class: ConstantIndex,
    pub super_class: ConstantIndex,
    pub interfaces: Vec<ConstantIndex>,
    pub fields: Vec<Field>,
    pub methods: Vec<Method>,
    pub attributes: Vec<Attribute>,
}

/// The ghost mirror of [`ClassFile`].
pub struct ClassFileV {
    pub minor_version: u16,
    pub major_version: u16,
    pub constant_pool: Seq<ConstantV>,
    pub flags: ClassFlags,
    pub this_class: ConstantIndex,
    pub super_class: ConstantIndex,
    pub interfaces: Seq<ConstantIndex>,
    pub fields: Seq<FieldV>,
    pub methods: Seq<MethodV>,
    pub attributes: Seq<AttributeV>,
}

impl View for ClassFile {
    type V = ClassFileV;

    open spec fn view(&self) -> ClassFileV {
        ClassFileV {
            minor_version: self.minor_version,
            major_version: self.major_version,
            constant_pool: pool_view(self.constant_pool@),
            flags: self.flags,
            this_class: self.this_class,
            super_class: self.super_class,
            interfaces: self.interfaces@,
            fields: fields_view(self.fields@),
            methods: methods_view(self.methods@),
            attributes: attr_vec_view(self.attributes),
        }
    }
}

/// The magic number that opens every class file.
pub open spec fn spec_magic() -> u32 {
    0xCAFE_BABEu32
}

/// The specification-level parse of a whole class file, starting at `p`.
pub open spec fn parse_class_file(d: Seq<u8>, p: int) -> Parsed<ClassFileV> {
    if p + 4 > d.len() {
        Parsed::Fail { err: ErrorV::Io { msg: "magic"@ } }
    } else if be32(d, p) != spec_magic() {
        Parsed::Fail {
            err: ErrorV::Expected {
                got: hex_string(be32(d, p)),
                expected: hex_string(spec_magic()),
            },
        }
    } else if p + 6 > d.len() {
        Parsed::Fail { err: ErrorV::Io { msg: "minor_version"@ } }
    } else if p + 8 > d.len() {
        Parsed::Fail { err: ErrorV::Io { msg: "major_version"@ } }
    } else {
        let minor_version = be16(d, p + 4);
        let major_version = be16(d, p + 6);
        match parse_constant_pool(d, p + 8) {
            Parsed::Fail { err } => Parsed::Fail { err },
            Parsed::Val { v: constant_pool, end: p1 } => {
                if p1 + 2 > d.len() {
                    Parsed::Fail { err: ErrorV::Io { msg: "flags"@ } }
                } else if p1 + 4 > d.len() {
                    Parsed::Fail { err: ErrorV::Io { msg: "this_class"@ } }
                } else if p1 + 6 > d.len() {
                    Parsed::Fail { err: ErrorV::Io { msg: "super_class"@ } }
                } else {
                    let flags = ClassFlags { bits: be16(d, p1) };
                    let this_class = ConstantIndex(be16(d, p1 + 2));
                    let super_class = ConstantIndex(be16(d, p1 + 4));
                    match parse_counted_indices(d, p1 + 6, "interfaces_count"@) {
                        Parsed::Fail { err } => Parsed::Fail { err },
                        Parsed::Val { v: interfaces, end: p2 } => {
                            match parse_counted_fields(d, p2, "fields_count"@, constant_pool) {
                                Parsed::Fail { err } => Parsed::Fail { err },
                                Parsed::Val { v: fields, end: p3 } => {
                                    match parse_counted_methods(
                                        d,
                                        p3,
                                        "methods_count"@,
                                        constant_pool,
                                    ) {
                                        Parsed::Fail { err } => Parsed::Fail { err },
                                        Parsed::Val { v: methods, end: p4 } => {
                                            match parse_counted_attributes(
                                                d,
                                                p4,
                                                "attributes_count"@,
                                                constant_pool,
                                            ) {
                                                Parsed::Fail { err } => Parsed::Fail { err },
                                                Parsed::Val { v: attributes, end } => Parsed::Val {
                                                    v: ClassFileV {
                                                        minor_version,
                                                        major_version,
                                                        constant_pool,
                                                        flags,
                                                        this_class,
                                                        super_class,
                                                        interfaces,
                                                        fields,
                                                        methods,
                                                        attributes,
                                                    },
                                                    end,
                                                },
                                            }
                                        },
                                    }
                                },
                            }
                        },
                    }
                }
            },
        }
    }
}

/// Parsing is a pure function of the input bytes: two parses of equal
/// byte sequences yield equal results, so parsing is deterministic.
pub proof fn lemma_parse_deterministic(b1: Seq<u8>, b2: Seq<u8>)
    requires
        b1 == b2,
    ensures
        parse_class_file(b1, 0) == parse_class_file(b2, 0),
{
}

impl ClassFile {
    /// Reads a whole class file.
    #[verifier::rlimit(60)]
    pub fn read(reader: &mut Reader) -> (r: Result<ClassFile, Error>)
        requires
            old(reader).wf(),
        ensures
            final(reader).wf(),
            final(reader).data() == old(reader).data(),
            final(reader).position() >= old(reader).position(),
            match r {
                Ok(c) => parse_class_file(old(reader).data(), old(reader).position())
                    == (Parsed::Val { v: c@, end: final(reader).position() }),
                Err(e) => parse_class_file(old(reader).data(), old(reader).position())
                    == (Parsed::Fail::<ClassFileV> { err: e@ }),
            },
    {
        let ghost d = reader.data();
        let magic = match reader.read_u32("magic") {
            Ok(v) => v,
            Err(e) => {
                return Err(e);
            },
        };
        if magic != 0xCAFE_BABE {
            return Err(
                Error::Expected { got: hex_u32(magic), expected: hex_u32(0xCAFE_BABE) },
            );
        }
        let minor_version = match reader.read_u16("minor_version") {
            Ok(v) => v,
            Err(e) => {
                return Err(e);
            },
        };
        let major_version = match reader.read_u16("major_version") {
            Ok(v) => v,
            Err(e) => {
                return Err(e);
            },
        };
        let constant_pool = match read_constant_pool(reader) {
            Ok(v) => v,
            Err(e) => {
                return Err(e);
            },
        };
        let flag_bits = match reader.read_u16("flags") {
            Ok(v) => v,
            Err(e) => {
                return Err(e);
            },
        };
        let this_class = match reader.read_u16("this_class") {
            Ok(v) => ConstantIndex(v),
            Err(e) => {
                return Err(e);
            },
        };
        let super_class = match reader.read_u16("super_class") {
            Ok(v) => ConstantIndex(v),
            Err(e) => {
                return Err(e);
            },
        };
        let interfaces = match read_counted_indices(reader, "interfaces_count") {
            Ok(v) => v,
            Err(e) => {
                return Err(e);
            },
        };
        let fields = match read_counted_fields(reader, constant_pool.as_slice(), "fields_count") {
            Ok(v) => v,
            Err(e) => {
                return Err(e);
            },
        };
        let methods = match read_counted_methods(
            reader,
            constant_pool.as_slice(),
            "methods_count",
        ) {
            Ok(v) => v,
            Err(e) => {
                return Err(e);
            },
        };
        let attributes = match read_counted_attributes(
            reader,
            constant_pool.as_slice(),
            "attributes_count",
        ) {
            Ok(v) => v,
            Err(e) => {
                return Err(e);
            },
        };
        proof {
            assert(attr_vec_view(attributes) =~= attrs_view(attributes@));
        }
        Ok(
            ClassFile {
                minor_version,
                major_version,
                constant_pool,
                flags: ClassFlags { bits: flag_bits },
                this_class,
                super_class,
                interfaces,
                fields,
                methods,
                attributes,
            },
        )
    }
}

/// Parses a class file from its bytes.
pub fn load_class(bytes: &[u8]) -> (r: Result<ClassFile, Error>)
    ensures
        match r {
            Ok(c) => parse_class_file(bytes@, 0) matches Parsed::Val { v, .. } && v == c@,
            Err(e) => parse_class_file(bytes@, 0) == (Parsed::Fail::<ClassFileV> { err: e@ }),
        },
{
    let mut reader = Reader::new(bytes, 0);
    ClassFile::read(&mut reader)
}

} // verus!
