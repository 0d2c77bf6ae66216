//! Attributes: named, length-prefixed records attached to a class, a
//! field, a method, or a `Code` attribute.
//!
//! The decoder resolves each attribute's name through the constant pool
//! and dispatches on it.  Every attribute declares its own byte length;
//! after the variant parser returns, the decoder checks that exactly
//! that many bytes were consumed and fails with `LengthMismatch`
//! otherwise.  Unrecognized names fail with `UnknownAttributeType`.

use vstd::prelude::*;
use vstd::string::StringExecFns;

use crate::parse::constant::{
    parse_constant_index, pool_lookup, pool_view, Constant, ConstantIndex, ConstantV,
};
use crate::parse::error::{Error, ErrorV};
use crate::parse::reader::{be16, be32, parse_many, Parsed, Reader};

verus! {

broadcast use {crate::parse::reader::lemma_reader_bounds, vstd::std_specs::vec::group_vec_axioms};

/// A type tag used by stack-map verification metadata.
#[derive(Debug, Copy, Clone, PartialEq, Eq, Structural)]
pub enum VerificationType {
    Top,
    Integer,
    Float,
    Long,
    Double,
    Null,
    UninitializedThis,
    Object(ConstantIndex),
    Uninitialized(u16),
}

/// The specification-level parse of a verification type: a tag byte,
/// and for `Object` and `Uninitialized` a two-byte payload.
pub open spec fn parse_verification_type(d: Seq<u8>, p: int) -> Parsed<VerificationType> {
    if p + 1 > d.len() {
        Parsed::Fail { err: ErrorV::Io { msg: "verification_type"@ } }
    } else {
        match d[p] {
            0u8 => Parsed::Val { v: VerificationType::Top, end: p + 1 },
            1u8 => Parsed::Val { v: VerificationType::Integer, end: p + 1 },
            2u8 => Parsed::Val { v: VerificationType::Float, end: p + 1 },
            3u8 => Parsed::Val { v: VerificationType::Long, end: p + 1 },
            4u8 => Parsed::Val { v: VerificationType::Double, end: p + 1 },
            5u8 => Parsed::Val { v: VerificationType::Null, end: p + 1 },
            6u8 => Parsed::Val { v: VerificationType::UninitializedThis, end: p + 1 },
            7u8 => match parse_constant_index(d, p + 1) {
                Parsed::Fail { err } => Parsed::Fail { err },
                Parsed::Val { v, end } => Parsed::Val { v: VerificationType::Object(v), end },
            },
            8u8 => if p + 3 <= d.len() {
                Parsed::Val { v: VerificationType::Uninitialized(be16(d, p + 1)), end: p + 3 }
            } else {
                Parsed::Fail { err: ErrorV::Io { msg: "uninitialized"@ } }
            },
            t => Parsed::Fail { err: ErrorV::InvalidVerificationType { ty: t } },
        }
    }
}

/// The parse of one verification type, as a step function for lists.
pub open spec fn vt_step() -> spec_fn(Seq<u8>, int) -> Parsed<VerificationType> {
    |d: Seq<u8>, p: int| parse_verification_type(d, p)
}

impl VerificationType {
    /// Reads a verification type.
    pub fn read(reader: &mut Reader) -> (r: Result<VerificationType, Error>)
        requires
            old(reader).wf(),
        ensures
            final(reader).wf(),
            final(reader).data() == old(reader).data(),
            final(reader).position() >= old(reader).position(),
            match r {
                Ok(v) => parse_verification_type(old(reader).data(), old(reader).position())
                    == (Parsed::Val { v, end: final(reader).position() }),
                Err(e) => parse_verification_type(old(reader).data(), old(reader).position())
                    == (Parsed::Fail::<VerificationType> { err: e@ }),
            },
    {
        let tag = match reader.read_u8("verification_type") {
            Ok(t) => t,
            Err(e) => {
                return Err(e);
            },
        };
        match tag {
            0u8 => Ok(VerificationType::Top),
            1u8 => Ok(VerificationType::Integer),
            2u8 => Ok(VerificationType::Float),
            3u8 => Ok(VerificationType::Long),
            4u8 => Ok(VerificationType::Double),
            5u8 => Ok(VerificationType::Null),
            6u8 => Ok(VerificationType::UninitializedThis),
            7u8 => match ConstantIndex::read(reader) {
                Ok(i) => Ok(VerificationType::Object(i)),
                Err(e) => Err(e),
            },
            8u8 => match reader.read_u16("uninitialized") {
                Ok(n) => Ok(VerificationType::Uninitialized(n)),
                Err(e) => Err(e),
            },
            t => Err(Error::InvalidVerificationType { ty: t }),
        }
    }
}

/// A two-byte count followed by that many verification types.
pub open spec fn parse_counted_vts(d: Seq<u8>, p: int, msg: Seq<char>) -> Parsed<
    Seq<VerificationType>,
> {
    if p + 2 > d.len() {
        Parsed::Fail { err: ErrorV::Io { msg } }
    } else {
        parse_many(d, p + 2, be16(d, p) as nat, vt_step())
    }
}

/// Reads a two-byte count, then that many verification types.
fn read_counted_vts(reader: &mut Reader, msg: &str) -> (r: Result<Vec<VerificationType>, Error>)
    requires
        old(reader).wf(),
    ensures
        final(reader).wf(),
        final(reader).data() == old(reader).data(),
        final(reader).position() >= old(reader).position(),
        match r {
            Ok(v) => parse_counted_vts(old(reader).data(), old(reader).position(), msg@)
                == (Parsed::Val { v: v@, end: final(reader).position() }),
            Err(e) => parse_counted_vts(old(reader).data(), old(reader).position(), msg@)
                == (Parsed::Fail::<Seq<VerificationType>> { err: e@ }),
        },
{
    let n = match reader.read_u16(msg) {
        Ok(n) => n,
        Err(e) => {
            return Err(e);
        },
    };
    let ghost d = reader.data();
    let ghost p0 = reader.position();
    let mut items: Vec<VerificationType> = Vec::new();
    let mut i: u16 = 0;
    while i < n
        invariant
            reader.wf(),
            reader.data() == d,
            i <= n,
            reader.position() >= p0,
            match parse_many(d, reader.position(), (n - i) as nat, vt_step()) {
                Parsed::Val { v: rest, end } => parse_many(d, p0, n as nat, vt_step())
                    == (Parsed::Val { v: items@ + rest, end }),
                Parsed::Fail { err } => parse_many(d, p0, n as nat, vt_step())
                    == (Parsed::Fail::<Seq<VerificationType>> { err }),
            },
        decreases n - i,
    {
        let ghost acc = items@;
        let item = match VerificationType::read(reader) {
            Ok(v) => v,
            Err(e) => {
                return Err(e);
            },
        };
        items.push(item);
        i = i + 1;
        proof {
            match parse_many(d, reader.position(), (n - i) as nat, vt_step()) {
                Parsed::Val { v: rest, end } => {
                    assert(items@ + rest =~= acc + (seq![item] + rest));
                },
                Parsed::Fail { .. } => {},
            }
        }
    }
    proof {
        assert(items@ + Seq::<VerificationType>::empty() =~= items@);
    }
    Ok(items)
}

/// A stack-map frame reusing the locals and stack of the previous frame;
/// the discriminator byte itself is the offset delta.
#[derive(Debug, Copy, Clone, PartialEq, Eq, Structural)]
pub struct SameFrame {
    pub offset: u8,
}

/// `SameFrame` with an explicit two-byte offset delta.
#[derive(Debug, Copy, Clone, PartialEq, Eq, Structural)]
pub struct SameFrameExtended {
    pub offset: u16,
}

/// Same locals as the previous frame, one new stack item; the offset
/// delta is the discriminator minus 64.
#[derive(Debug, Copy, Clone, PartialEq, Eq, Structural)]
pub struct SameLocalsOneStackItemFrame {
    pub offset: u8,
    pub stack_item: VerificationType,
}

/// `SameLocalsOneStackItemFrame` with an explicit two-byte offset delta.
#[derive(Debug, Copy, Clone, PartialEq, Eq, Structural)]
pub struct SameLocalsOneStackItemFrameExtended {
    pub offset: u16,
    pub stack_item: VerificationType,
}

/// The previous frame with its last locals chopped; 251 minus the
/// discriminator gives how many are absent.
#[derive(Debug, Copy, Clone, PartialEq, Eq, Structural)]
pub struct ChopFrame {
    pub offset: u16,
    pub absent_locals: u8,
}

/// The previous frame with extra locals appended.
#[derive(Debug, Clone)]
pub struct AppendFrame {
    pub offset: u16,
    pub new_locals: Vec<VerificationType>,
}

/// The ghost mirror of [`AppendFrame`].
pub struct AppendFrameV {
    pub offset: u16,
    pub new_locals: Seq<VerificationType>,
}

impl View for AppendFrame {
    type V = AppendFrameV;

    open spec fn view(&self) -> AppendFrameV {
        AppendFrameV { offset: self.offset, new_locals: self.new_locals@ }
    }
}

/// A frame that spells out all locals and all stack items.
#[derive(Debug, Clone)]
pub struct FullFrame {
    pub offset: u16,
    pub locals: Vec<VerificationType>,
    pub stack_items: Vec<VerificationType>,
}

/// The ghost mirror of [`FullFrame`].
pub struct FullFrameV {
    pub offset: u16,
    pub locals: Seq<VerificationType>,
    pub stack_items: Seq<VerificationType>,
}

impl View for FullFrame {
    type V = FullFrameV;

    open spec fn view(&self) -> FullFrameV {
        FullFrameV {
            offset: self.offset,
            locals: self.locals@,
            stack_items: self.stack_items@,
        }
    }
}

/// Stack-map verification metadata for one bytecode offset.  The
/// single-byte discriminator range selects the variant.
#[derive(Debug, Clone)]
pub enum StackMapFrame {
    SameFrame(SameFrame),
    SameFrameExtended(SameFrameExtended),
    SameLocalsOneStackItemFrame(SameLocalsOneStackItemFrame),
    SameLocalsOneStackItemFrameExtended(SameLocalsOneStackItemFrameExtended),
    ChopFrame(ChopFrame),
    AppendFrame(AppendFrame),
    FullFrame(FullFrame),
}

/// The ghost mirror of [`StackMapFrame`].
pub enum StackMapFrameV {
    SameFrame(SameFrame),
    SameFrameExtended(SameFrameExtended),
    SameLocalsOneStackItemFrame(SameLocalsOneStackItemFrame),
    SameLocalsOneStackItemFrameExtended(SameLocalsOneStackItemFrameExtended),
    ChopFrame(ChopFrame),
    AppendFrame(AppendFrameV),
    FullFrame(FullFrameV),
}

impl View for StackMapFrame {
    type V = StackMapFrameV;

    open spec fn view(&self) -> StackMapFrameV {
        match self {
            StackMapFrame::SameFrame(f) => StackMapFrameV::SameFrame(*f),
            StackMapFrame::SameFrameExtended(f) => StackMapFrameV::SameFrameExtended(*f),
            StackMapFrame::SameLocalsOneStackItemFrame(f) => {
                StackMapFrameV::SameLocalsOneStackItemFrame(*f)
            },
            StackMapFrame::SameLocalsOneStackItemFrameExtended(f) => {
                StackMapFrameV::SameLocalsOneStackItemFrameExtended(*f)
            },
            StackMapFrame::ChopFrame(f) => StackMapFrameV::ChopFrame(*f),
            StackMapFrame::AppendFrame(f) => StackMapFrameV::AppendFrame(f@),
            StackMapFrame::FullFrame(f) => StackMapFrameV::FullFrame(f@),
        }
    }
}

/// The views of a sequence of stack-map frames.
pub open spec fn frames_view(s: Seq<StackMapFrame>) -> Seq<StackMapFrameV> {
    s.map_values(|f: StackMapFrame| f@)
}

/// The specification-level parse of a stack-map frame: the
/// discriminator byte selects the variant and, for the compact forms,
/// carries the offset delta itself.
pub open spec fn parse_stack_map_frame(d: Seq<u8>, p: int) -> Parsed<StackMapFrameV> {
    if p + 1 > d.len() {
        Parsed::Fail { err: ErrorV::Io { msg: "stack_map_frame type"@ } }
    } else {
        let ty = d[p];
        let q = p + 1;
        if ty <= 63 {
            Parsed::Val { v: StackMapFrameV::SameFrame(SameFrame { offset: ty }), end: q }
        } else if ty <= 127 {
            match parse_verification_type(d, q) {
                Parsed::Fail { err } => Parsed::Fail { err },
                Parsed::Val { v, end } => Parsed::Val {
                    v: StackMapFrameV::SameLocalsOneStackItemFrame(
                        SameLocalsOneStackItemFrame { offset: (ty - 64) as u8, stack_item: v },
                    ),
                    end,
                },
            }
        } else if ty == 247 {
            if q + 2 > d.len() {
                Parsed::Fail {
                    err: ErrorV::Io { msg: "same_locals_one_stack_item_frame_extended"@ },
                }
            } else {
                match parse_verification_type(d, q + 2) {
                    Parsed::Fail { err } => Parsed::Fail { err },
                    Parsed::Val { v, end } => Parsed::Val {
                        v: StackMapFrameV::SameLocalsOneStackItemFrameExtended(
                            SameLocalsOneStackItemFrameExtended {
                                offset: be16(d, q),
                                stack_item: v,
                            },
                        ),
                        end,
                    },
                }
            }
        } else if 248 <= ty && ty <= 250 {
            if q + 2 > d.len() {
                Parsed::Fail { err: ErrorV::Io { msg: "chop_frame"@ } }
            } else {
                Parsed::Val {
                    v: StackMapFrameV::ChopFrame(
                        ChopFrame { offset: be16(d, q), absent_locals: (251 - ty) as u8 },
                    ),
                    end: q + 2,
                }
            }
        } else if ty == 251 {
            if q + 2 > d.len() {
                Parsed::Fail { err: ErrorV::Io { msg: "same_frame_extended"@ } }
            } else {
                Parsed::Val {
                    v: StackMapFrameV::SameFrameExtended(SameFrameExtended { offset: be16(d, q) }),
                    end: q + 2,
                }
            }
        } else if 252 <= ty && ty <= 254 {
            if q + 2 > d.len() {
                Parsed::Fail { err: ErrorV::Io { msg: "append_frame"@ } }
            } else {
                match parse_counted_vts(d, q + 2, "num_locals"@) {
                    Parsed::Fail { err } => Parsed::Fail { err },
                    Parsed::Val { v, end } => Parsed::Val {
                        v: StackMapFrameV::AppendFrame(
                            AppendFrameV { offset: be16(d, q), new_locals: v },
                        ),
                        end,
                    },
                }
            }
        } else if ty == 255 {
            if q + 2 > d.len() {
                Parsed::Fail { err: ErrorV::Io { msg: "full_frame"@ } }
            } else {
                match parse_counted_vts(d, q + 2, "num_locals"@) {
                    Parsed::Fail { err } => Parsed::Fail { err },
                    Parsed::Val { v: locals, end: r1 } => match parse_counted_vts(
                        d,
                        r1,
                        "num_stack_items"@,
                    ) {
                        Parsed::Fail { err } => Parsed::Fail { err },
                        Parsed::Val { v: stack_items, end } => Parsed::Val {
                            v: StackMapFrameV::FullFrame(
                                FullFrameV { offset: be16(d, q), locals, stack_items },
                            ),
                            end,
                        },
                    },
                }
            }
        } else {
            Parsed::Fail { err: ErrorV::InvalidStackFrameType { ty } }
        }
    }
}

/// The parse of one stack-map frame, as a step function for lists.
pub open spec fn smf_step() -> spec_fn(Seq<u8>, int) -> Parsed<StackMapFrameV> {
    |d: Seq<u8>, p: int| parse_stack_map_frame(d, p)
}

impl StackMapFrame {
    /// Reads a stack-map frame.
    pub fn read(reader: &mut Reader) -> (r: Result<StackMapFrame, Error>)
        requires
            old(reader).wf(),
        ensures
            final(reader).wf(),
            final(reader).data() == old(reader).data(),
            final(reader).position() >= old(reader).position(),
            match r {
                Ok(v) => parse_stack_map_frame(old(reader).data(), old(reader).position())
                    == (Parsed::Val { v: v@, end: final(reader).position() }),
                Err(e) => parse_stack_map_frame(old(reader).data(), old(reader).position())
                    == (Parsed::Fail::<StackMapFrameV> { err: e@ }),
            },
    {
        let ty = match reader.read_u8("stack_map_frame type") {
            Ok(t) => t,
            Err(e) => {
                return Err(e);
            },
        };
        if ty <= 63 {
            Ok(StackMapFrame::SameFrame(SameFrame { offset: ty }))
        } else if ty <= 127 {
            match VerificationType::read(reader) {
                Ok(v) => Ok(
                    StackMapFrame::SameLocalsOneStackItemFrame(
                        SameLocalsOneStackItemFrame { offset: ty - 64, stack_item: v },
                    ),
                ),
                Err(e) => Err(e),
            }
        } else if ty == 247 {
            let offset = match reader.read_u16("same_locals_one_stack_item_frame_extended") {
                Ok(o) => o,
                Err(e) => {
                    return Err(e);
                },
            };
            match VerificationType::read(reader) {
                Ok(v) => Ok(
                    StackMapFrame::SameLocalsOneStackItemFrameExtended(
                        SameLocalsOneStackItemFrameExtended { offset, stack_item: v },
                    ),
                ),
                Err(e) => Err(e),
            }
        } else if 248 <= ty && ty <= 250 {
            match reader.read_u16("chop_frame") {
                Ok(offset) => Ok(
                    StackMapFrame::ChopFrame(ChopFrame { offset, absent_locals: 251 - ty }),
                ),
                Err(e) => Err(e),
            }
        } else if ty == 251 {
            match reader.read_u16("same_frame_extended") {
                Ok(offset) => Ok(StackMapFrame::SameFrameExtended(SameFrameExtended { offset })),
                Err(e) => Err(e),
            }
        } else if 252 <= ty && ty <= 254 {
            let offset = match reader.read_u16("append_frame") {
                Ok(o) => o,
                Err(e) => {
                    return Err(e);
                },
            };
            match read_counted_vts(reader, "num_locals") {
                Ok(new_locals) => Ok(
                    StackMapFrame::AppendFrame(AppendFrame { offset, new_locals }),
                ),
                Err(e) => Err(e),
            }
        } else if ty == 255 {
            let offset = match reader.read_u16("full_frame") {
                Ok(o) => o,
                Err(e) => {
                    return Err(e);
                },
            };
            let locals = match read_counted_vts(reader, "num_locals") {
                Ok(l) => l,
                Err(e) => {
                    return Err(e);
                },
            };
            match read_counted_vts(reader, "num_stack_items") {
                Ok(stack_items) => Ok(
                    StackMapFrame::FullFrame(FullFrame { offset, locals, stack_items }),
                ),
                Err(e) => Err(e),
            }
        } else {
            Err(Error::InvalidStackFrameType { ty })
        }
    }
}

/// One row of a `Code` attribute's exception table.
#[derive(Debug, Copy, Clone, PartialEq, Eq, Structural)]
pub struct ExceptionTableRow {
    pub start_pc: u16,
    pub end_pc: u16,
    pub handler_pc: u16,
    pub catch_type: ConstantIndex,
}

/// The specification-level parse of an exception-table row: four
/// two-byte fields.
pub open spec fn parse_exception_row(d: Seq<u8>, p: int) -> Parsed<ExceptionTableRow> {
    if p + 2 > d.len() {
        Parsed::Fail { err: ErrorV::Io { msg: "start_pc"@ } }
    } else if p + 4 > d.len() {
        Parsed::Fail { err: ErrorV::Io { msg: "end_pc"@ } }
    } else if p + 6 > d.len() {
        Parsed::Fail { err: ErrorV::Io { msg: "handler_pc"@ } }
    } else if p + 8 > d.len() {
        Parsed::Fail { err: ErrorV::Io { msg: "constant index"@ } }
    } else {
        Parsed::Val {
            v: ExceptionTableRow {
                start_pc: be16(d, p),
                end_pc: be16(d, p + 2),
                handler_pc: be16(d, p + 4),
                catch_type: ConstantIndex(be16(d, p + 6)),
            },
            end: p + 8,
        }
    }
}

/// The parse of one exception-table row, as a step function for lists.
pub open spec fn etr_step() -> spec_fn(Seq<u8>, int) -> Parsed<ExceptionTableRow> {
    |d: Seq<u8>, p: int| parse_exception_row(d, p)
}

impl ExceptionTableRow {
    /// Reads one exception-table row.
    pub fn read(reader: &mut Reader) -> (r: Result<ExceptionTableRow, Error>)
        requires
            old(reader).wf(),
        ensures
            final(reader).wf(),
            final(reader).data() == old(reader).data(),
            final(reader).position() >= old(reader).position(),
            match r {
                Ok(v) => parse_exception_row(old(reader).data(), old(reader).position())
                    == (Parsed::Val { v, end: final(reader).position() }),
                Err(e) => parse_exception_row(old(reader).data(), old(reader).position())
                    == (Parsed::Fail::<ExceptionTableRow> { err: e@ }),
            },
    {
        let start_pc = match reader.read_u16("start_pc") {
            Ok(v) => v,
            Err(e) => {
                return Err(e);
            },
        };
        let end_pc = match reader.read_u16("end_pc") {
            Ok(v) => v,
            Err(e) => {
                return Err(e);
            },
        };
        let handler_pc = match reader.read_u16("handler_pc") {
            Ok(v) => v,
            Err(e) => {
                return Err(e);
            },
        };
        let catch_type = match ConstantIndex::read(reader) {
            Ok(v) => v,
            Err(e) => {
                return Err(e);
            },
        };
        Ok(ExceptionTableRow { start_pc, end_pc, handler_pc, catch_type })
    }
}

/// The parse of one exception-table row, as a step function for lists.
pub open spec fn parse_counted_rows(d: Seq<u8>, p: int, msg: Seq<char>) -> Parsed<
    Seq<ExceptionTableRow>,
> {
    if p + 2 > d.len() {
        Parsed::Fail { err: ErrorV::Io { msg } }
    } else {
        parse_many(d, p + 2, be16(d, p) as nat, etr_step())
    }
}

/// Reads a two-byte count, then that many exception-table rows.
fn read_counted_rows(reader: &mut Reader, msg: &str) -> (r: Result<Vec<ExceptionTableRow>, Error>)
    requires
        old(reader).wf(),
    ensures
        final(reader).wf(),
        final(reader).data() == old(reader).data(),
        final(reader).position() >= old(reader).position(),
        match r {
            Ok(v) => parse_counted_rows(old(reader).data(), old(reader).position(), msg@)
                == (Parsed::Val { v: v@, end: final(reader).position() }),
            Err(e) => parse_counted_rows(old(reader).data(), old(reader).position(), msg@)
                == (Parsed::Fail::<Seq<ExceptionTableRow>> { err: e@ }),
        },
{
    let n = match reader.read_u16(msg) {
        Ok(n) => n,
        Err(e) => {
            return Err(e);
        },
    };
    let ghost d = reader.data();
    let ghost p0 = reader.position();
    let mut items: Vec<ExceptionTableRow> = Vec::new();
    let mut i: u16 = 0;
    while i < n
        invariant
            reader.wf(),
            reader.data() == d,
            i <= n,
            reader.position() >= p0,
            match parse_many(d, reader.position(), (n - i) as nat, etr_step()) {
                Parsed::Val { v: rest, end } => parse_many(d, p0, n as nat, etr_step())
                    == (Parsed::Val { v: items@ + rest, end }),
                Parsed::Fail { err } => parse_many(d, p0, n as nat, etr_step())
                    == (Parsed::Fail::<Seq<ExceptionTableRow>> { err }),
            },
        decreases n - i,
    {
        let ghost acc = items@;
        let item = match ExceptionTableRow::read(reader) {
            Ok(v) => v,
            Err(e) => {
                return Err(e);
            },
        };
        items.push(item);
        i = i + 1;
        proof {
            match parse_many(d, reader.position(), (n - i) as nat, etr_step()) {
                Parsed::Val { v: rest, end } => {
                    assert(items@ + rest =~= acc + (seq![item] + rest));
                },
                Parsed::Fail { .. } => {},
            }
        }
    }
    proof {
        assert(items@ + Seq::<ExceptionTableRow>::empty() =~= items@);
    }
    Ok(items)
}

/// The specification-level parse of a line-number table entry: a
/// bytecode offset and the source line that starts there.
pub open spec fn parse_line_pair(d: Seq<u8>, p: int) -> Parsed<(u16, u16)> {
    if p + 2 > d.len() {
        Parsed::Fail { err: ErrorV::Io { msg: "start_pc"@ } }
    } else if p + 4 > d.len() {
        Parsed::Fail { err: ErrorV::Io { msg: "line_number"@ } }
    } else {
        Parsed::Val { v: (be16(d, p), be16(d, p + 2)), end: p + 4 }
    }
}

/// The parse of one line-number pair, as a step function for lists.
pub open spec fn lnt_step() -> spec_fn(Seq<u8>, int) -> Parsed<(u16, u16)> {
    |d: Seq<u8>, p: int| parse_line_pair(d, p)
}

/// A two-byte count followed by that many line-number pairs.
pub open spec fn parse_counted_pairs(d: Seq<u8>, p: int, msg: Seq<char>) -> Parsed<
    Seq<(u16, u16)>,
> {
    if p + 2 > d.len() {
        Parsed::Fail { err: ErrorV::Io { msg } }
    } else {
        parse_many(d, p + 2, be16(d, p) as nat, lnt_step())
    }
}

/// Reads a two-byte count, then that many line-number pairs.
fn read_counted_pairs(reader: &mut Reader, msg: &str) -> (r: Result<Vec<(u16, u16)>, Error>)
    requires
        old(reader).wf(),
    ensures
        final(reader).wf(),
        final(reader).data() == old(reader).data(),
        final(reader).position() >= old(reader).position(),
        match r {
            Ok(v) => parse_counted_pairs(old(reader).data(), old(reader).position(), msg@)
                == (Parsed::Val { v: v@, end: final(reader).position() }),
            Err(e) => parse_counted_pairs(old(reader).data(), old(reader).position(), msg@)
                == (Parsed::Fail::<Seq<(u16, u16)>> { err: e@ }),
        },
{
    let n = match reader.read_u16(msg) {
        Ok(n) => n,
        Err(e) => {
            return Err(e);
        },
    };
    let ghost d = reader.data();
    let ghost p0 = reader.position();
    let mut items: Vec<(u16, u16)> = Vec::new();
    let mut i: u16 = 0;
    while i < n
        invariant
            reader.wf(),
            reader.data() == d,
            i <= n,
            reader.position() >= p0,
            match parse_many(d, reader.position(), (n - i) as nat, lnt_step()) {
                Parsed::Val { v: rest, end } => parse_many(d, p0, n as nat, lnt_step())
                    == (Parsed::Val { v: items@ + rest, end }),
                Parsed::Fail { err } => parse_many(d, p0, n as nat, lnt_step())
                    == (Parsed::Fail::<Seq<(u16, u16)>> { err }),
            },
        decreases n - i,
    {
        let ghost acc = items@;
        let start_pc = match reader.read_u16("start_pc") {
            Ok(v) => v,
            Err(e) => {
                return Err(e);
            },
        };
        let line_no = match reader.read_u16("line_number") {
            Ok(v) => v,
            Err(e) => {
                return Err(e);
            },
        };
        items.push((start_pc, line_no));
        i = i + 1;
        proof {
            match parse_many(d, reader.position(), (n - i) as nat, lnt_step()) {
                Parsed::Val { v: rest, end } => {
                    assert(items@ + rest =~= acc + (seq![(start_pc, line_no)] + rest));
                },
                Parsed::Fail { .. } => {},
            }
        }
    }
    proof {
        assert(items@ + Seq::<(u16, u16)>::empty() =~= items@);
    }
    Ok(items)
}

/// The parse of one constant-pool index, as a step function for lists.
pub open spec fn ci_step() -> spec_fn(Seq<u8>, int) -> Parsed<ConstantIndex> {
    |d: Seq<u8>, p: int| parse_constant_index(d, p)
}

/// A two-byte count followed by that many constant-pool indices.
pub open spec fn parse_counted_indices(d: Seq<u8>, p: int, msg: Seq<char>) -> Parsed<
    Seq<ConstantIndex>,
> {
    if p + 2 > d.len() {
        Parsed::Fail { err: ErrorV::Io { msg } }
    } else {
        parse_many(d, p + 2, be16(d, p) as nat, ci_step())
    }
}

/// Reads a two-byte count, then that many constant-pool indices.
pub fn read_counted_indices(reader: &mut Reader, msg: &str) -> (r: Result<
    Vec<ConstantIndex>,
    Error,
>)
    requires
        old(reader).wf(),
    ensures
        final(reader).wf(),
        final(reader).data() == old(reader).data(),
        final(reader).position() >= old(reader).position(),
        match r {
            Ok(v) => parse_counted_indices(old(reader).data(), old(reader).position(), msg@)
                == (Parsed::Val { v: v@, end: final(reader).position() }),
            Err(e) => parse_counted_indices(old(reader).data(), old(reader).position(), msg@)
                == (Parsed::Fail::<Seq<ConstantIndex>> { err: e@ }),
        },
{
    let n = match reader.read_u16(msg) {
        Ok(n) => n,
        Err(e) => {
            return Err(e);
        },
    };
    let ghost d = reader.data();
    let ghost p0 = reader.position();
    let mut items: Vec<ConstantIndex> = Vec::new();
    let mut i: u16 = 0;
    while i < n
        invariant
            reader.wf(),
            reader.data() == d,
            i <= n,
            reader.position() >= p0,
            match parse_many(d, reader.position(), (n - i) as nat, ci_step()) {
                Parsed::Val { v: rest, end } => parse_many(d, p0, n as nat, ci_step())
                    == (Parsed::Val { v: items@ + rest, end }),
                Parsed::Fail { err } => parse_many(d, p0, n as nat, ci_step())
                    == (Parsed::Fail::<Seq<ConstantIndex>> { err }),
            },
        decreases n - i,
    {
        let ghost acc = items@;
        let item = match ConstantIndex::read(reader) {
            Ok(v) => v,
            Err(e) => {
                return Err(e);
            },
        };
        items.push(item);
        i = i + 1;
        proof {
            match parse_many(d, reader.position(), (n - i) as nat, ci_step()) {
                Parsed::Val { v: rest, end } => {
                    assert(items@ + rest =~= acc + (seq![item] + rest));
                },
                Parsed::Fail { .. } => {},
            }
        }
    }
    proof {
        assert(items@ + Seq::<ConstantIndex>::empty() =~= items@);
    }
    Ok(items)
}

/// A two-byte count followed by that many stack-map frames.
pub open spec fn parse_counted_frames(d: Seq<u8>, p: int, msg: Seq<char>) -> Parsed<
    Seq<StackMapFrameV>,
> {
    if p + 2 > d.len() {
        Parsed::Fail { err: ErrorV::Io { msg } }
    } else {
        parse_many(d, p + 2, be16(d, p) as nat, smf_step())
    }
}

/// Reads a two-byte count, then that many stack-map frames.
fn read_counted_frames(reader: &mut Reader, msg: &str) -> (r: Result<Vec<StackMapFrame>, Error>)
    requires
        old(reader).wf(),
    ensures
        final(reader).wf(),
        final(reader).data() == old(reader).data(),
        final(reader).position() >= old(reader).position(),
        match r {
            Ok(v) => parse_counted_frames(old(reader).data(), old(reader).position(), msg@)
                == (Parsed::Val { v: frames_view(v@), end: final(reader).position() }),
            Err(e) => parse_counted_frames(old(reader).data(), old(reader).position(), msg@)
                == (Parsed::Fail::<Seq<StackMapFrameV>> { err: e@ }),
        },
{
    let n = match reader.read_u16(msg) {
        Ok(n) => n,
        Err(e) => {
            return Err(e);
        },
    };
    let ghost d = reader.data();
    let ghost p0 = reader.position();
    let mut items: Vec<StackMapFrame> = Vec::new();
    let mut i: u16 = 0;
    while i < n
        invariant
            reader.wf(),
            reader.data() == d,
            i <= n,
            reader.position() >= p0,
            match parse_many(d, reader.position(), (n - i) as nat, smf_step()) {
                Parsed::Val { v: rest, end } => parse_many(d, p0, n as nat, smf_step())
                    == (Parsed::Val { v: frames_view(items@) + rest, end }),
                Parsed::Fail { err } => parse_many(d, p0, n as nat, smf_step())
                    == (Parsed::Fail::<Seq<StackMapFrameV>> { err }),
            },
        decreases n - i,
    {
        let ghost acc = frames_view(items@);
        let item = match StackMapFrame::read(reader) {
            Ok(v) => v,
            Err(e) => {
                return Err(e);
            },
        };
        items.push(item);
        proof {
            assert(frames_view(items@) =~= acc + seq![items@[items@.len() - 1]@]);
        }
        i = i + 1;
        proof {
            match parse_many(d, reader.position(), (n - i) as nat, smf_step()) {
                Parsed::Val { v: rest, end } => {
                    assert(frames_view(items@) + rest =~= acc + (seq![
                        items@[items@.len() - 1]@,
                    ] + rest));
                },
                Parsed::Fail { .. } => {},
            }
        }
    }
    proof {
        assert(frames_view(items@) + Seq::<StackMapFrameV>::empty() =~= frames_view(items@));
    }
    Ok(items)
}

/// A method's executable body: limits, raw instruction bytes, the
/// exception table, and nested attributes.
#[derive(Debug)]
pub struct Code {
    pub attribute_name: ConstantIndex,
    pub max_stack: u16,
    pub max_locals: u16,
    pub code: Vec<u8>,
    pub exception_table: Vec<ExceptionTableRow>,
    pub attributes: Vec<Attribute>,
}

/// The ghost mirror of [`Code`].
pub struct CodeV {
    pub attribute_name: ConstantIndex,
    pub max_stack: u16,
    pub max_locals: u16,
    pub code: Seq<u8>,
    pub exception_table: Seq<ExceptionTableRow>,
    pub attributes: Seq<AttributeV>,
}

/// The name of the source file the class was compiled from.
#[derive(Debug, Copy, Clone, PartialEq, Eq, Structural)]
pub struct SourceFile {
    pub attribute_name: ConstantIndex,
    pub source_file: ConstantIndex,
}

/// The constant value of a static field.
#[derive(Debug, Copy, Clone, PartialEq, Eq, Structural)]
pub struct ConstantValue {
    pub attribute_name: ConstantIndex,
    pub constant_value: ConstantIndex,
}

/// The checked exceptions a method declares.
#[derive(Debug, Clone)]
pub struct Exceptions {
    pub attribute_name: ConstantIndex,
    pub index_table: Vec<ConstantIndex>,
}

/// The ghost mirror of [`Exceptions`].
pub struct ExceptionsV {
    pub attribute_name: ConstantIndex,
    pub index_table: Seq<ConstantIndex>,
}

/// The mapping from bytecode offsets to source lines.
#[derive(Debug, Clone)]
pub struct LineNumberTable {
    pub attribute_name: ConstantIndex,
    pub table: Vec<(u16, u16)>,
}

/// The ghost mirror of [`LineNumberTable`].
pub struct LineNumberTableV {
    pub attribute_name: ConstantIndex,
    pub table: Seq<(u16, u16)>,
}

/// The stack-map verification metadata of a `Code` attribute.
#[derive(Debug, Clone)]
pub struct StackMapTable {
    pub attribute_name: ConstantIndex,
    pub entries: Vec<StackMapFrame>,
}

/// The ghost mirror of [`StackMapTable`].
pub struct StackMapTableV {
    pub attribute_name: ConstantIndex,
    pub entries: Seq<StackMapFrameV>,
}

/// An attribute the decoder recognizes, keyed by its name string.
#[derive(Debug)]
pub enum Attribute {
    Code(Code),
    SourceFile(SourceFile),
    ConstantValue(ConstantValue),
    Exceptions(Exceptions),
    LineNumberTable(LineNumberTable),
    StackMapTable(StackMapTable),
}

/// The ghost mirror of [`Attribute`].
pub enum AttributeV {
    Code(CodeV),
    SourceFile(SourceFile),
    ConstantValue(ConstantValue),
    Exceptions(ExceptionsV),
    LineNumberTable(LineNumberTableV),
    StackMapTable(StackMapTableV),
}

/// The view of one attribute.
pub open spec fn attr_view(a: Attribute) -> AttributeV
    decreases a,
{
    match a {
        Attribute::Code(c) => AttributeV::Code(code_view(c)),
        Attribute::SourceFile(a) => AttributeV::SourceFile(a),
        Attribute::ConstantValue(a) => AttributeV::ConstantValue(a),
        Attribute::Exceptions(a) => AttributeV::Exceptions(
            ExceptionsV { attribute_name: a.attribute_name, index_table: a.index_table@ },
        ),
        Attribute::LineNumberTable(a) => AttributeV::LineNumberTable(
            LineNumberTableV { attribute_name: a.attribute_name, table: a.table@ },
        ),
        Attribute::StackMapTable(a) => AttributeV::StackMapTable(
            StackMapTableV { attribute_name: a.attribute_name, entries: frames_view(a.entries@) },
        ),
    }
}

/// The view of a `Code` attribute.
pub open spec fn code_view(c: Code) -> CodeV
    decreases c,
{
    CodeV {
        attribute_name: c.attribute_name,
        max_stack: c.max_stack,
        max_locals: c.max_locals,
        code: c.code@,
        exception_table: c.exception_table@,
        attributes: attr_vec_view(c.attributes),
    }
}

/// The views of a vector of attributes.
pub open spec fn attr_vec_view(v: Vec<Attribute>) -> Seq<AttributeV>
    decreases v,
{
    Seq::new(
        v@.len(),
        |i: int|
            if 0 <= i < v@.len() {
                attr_view(v[i])
            } else {
                vstd::pervasive::arbitrary()
            },
    )
}

impl View for Attribute {
    type V = AttributeV;

    open spec fn view(&self) -> AttributeV {
        attr_view(*self)
    }
}

impl View for Code {
    type V = CodeV;

    open spec fn view(&self) -> CodeV {
        code_view(*self)
    }
}

/// The views of a sequence of attributes.
pub open spec fn attrs_view(s: Seq<Attribute>) -> Seq<AttributeV> {
    s.map_values(|a: Attribute| a@)
}

/// The specification-level parse of the body of a `Code` attribute:
/// operand-stack and local limits, the length-prefixed instruction
/// bytes, the exception table, and the nested attribute list.
pub open spec fn parse_code_body(
    d: Seq<u8>,
    q: int,
    pool: Seq<ConstantV>,
    name: ConstantIndex,
) -> Parsed<CodeV>
    decreases d.len() - q, 0int,
{
    if q + 2 > d.len() {
        Parsed::Fail { err: ErrorV::Io { msg: "max_stack"@ } }
    } else if q + 4 > d.len() {
        Parsed::Fail { err: ErrorV::Io { msg: "max_locals"@ } }
    } else if q + 8 > d.len() {
        Parsed::Fail { err: ErrorV::Io { msg: "code length"@ } }
    } else {
        let n = be32(d, q + 4) as int;
        if q + 8 + n > d.len() {
            Parsed::Fail { err: ErrorV::Io { msg: "code"@ } }
        } else {
            let r0 = q + 8 + n;
            if r0 + 2 > d.len() {
                Parsed::Fail { err: ErrorV::Io { msg: "exception table length"@ } }
            } else {
                match parse_many(d, r0 + 2, be16(d, r0) as nat, etr_step()) {
                    Parsed::Fail { err } => Parsed::Fail { err },
                    Parsed::Val { v: exception_table, end: r1 } => {
                        if r1 <= q || r1 > d.len() {
                            // A list parse never moves backwards; this branch is
                            // unreachable and only bounds the recursion.
                            Parsed::Fail { err: ErrorV::Io { msg: Seq::empty() } }
                        } else {
                            match parse_counted_attributes(d, r1, "attributes length"@, pool) {
                                Parsed::Fail { err } => Parsed::Fail { err },
                                Parsed::Val { v: attributes, end } => Parsed::Val {
                                    v: CodeV {
                                        attribute_name: name,
                                        max_stack: be16(d, q),
                                        max_locals: be16(d, q + 2),
                                        code: d.subrange(q + 8, q + 8 + n),
                                        exception_table,
                                        attributes,
                                    },
                                    end,
                                },
                            }
                        }
                    },
                }
            }
        }
    }
}

/// The specification-level parse of `n` attributes in sequence.
pub open spec fn parse_attribute_list(d: Seq<u8>, p: int, n: nat, pool: Seq<ConstantV>) -> Parsed<
    Seq<AttributeV>,
>
    decreases d.len() - p, 2int,
{
    if n == 0 {
        Parsed::Val { v: Seq::empty(), end: p }
    } else {
        match parse_attribute(d, p, pool) {
            Parsed::Fail { err } => Parsed::Fail { err },
            Parsed::Val { v: a, end: p2 } => {
                if p < p2 <= d.len() {
                    match parse_attribute_list(d, p2, (n - 1) as nat, pool) {
                        Parsed::Fail { err } => Parsed::Fail { err },
                        Parsed::Val { v: rest, end } => Parsed::Val {
                            v: seq![a] + rest,
                            end,
                        },
                    }
                } else {
                    // An attribute parse always advances; this branch is
                    // unreachable and only bounds the recursion.
                    Parsed::Fail { err: ErrorV::Io { msg: Seq::empty() } }
                }
            },
        }
    }
}

/// A two-byte count followed by that many attributes.
pub open spec fn parse_counted_attributes(
    d: Seq<u8>,
    p: int,
    msg: Seq<char>,
    pool: Seq<ConstantV>,
) -> Parsed<Seq<AttributeV>>
    decreases d.len() - p, 3int,
{
    if p + 2 > d.len() {
        Parsed::Fail { err: ErrorV::Io { msg } }
    } else {
        parse_attribute_list(d, p + 2, be16(d, p) as nat, pool)
    }
}

/// The specification-level parse of one attribute: a name index
/// resolved through the pool, a declared length, the body selected by
/// the name, and the check that the body consumed exactly the declared
/// length.
pub open spec fn parse_attribute(d: Seq<u8>, p: int, pool: Seq<ConstantV>) -> Parsed<AttributeV>
    decreases d.len() - p, 1int,
{
    if p + 2 > d.len() {
        Parsed::Fail { err: ErrorV::Io { msg: "attribute_name_index"@ } }
    } else {
        let index = ConstantIndex(be16(d, p));
        match pool_lookup(pool, index.0) {
            Err(err) => Parsed::Fail { err },
            Ok(ConstantV::Utf8(name)) => {
                if p + 6 > d.len() {
                    Parsed::Fail { err: ErrorV::Io { msg: "attribute_length"@ } }
                } else {
                    let declared = be32(d, p + 2);
                    let q = p + 6;
                    let body: Parsed<AttributeV> = if name == "ConstantValue"@ {
                        match parse_constant_index(d, q) {
                            Parsed::Fail { err } => Parsed::Fail { err },
                            Parsed::Val { v, end } => Parsed::Val {
                                v: AttributeV::ConstantValue(
                                    ConstantValue { attribute_name: index, constant_value: v },
                                ),
                                end,
                            },
                        }
                    } else if name == "Code"@ {
                        match parse_code_body(d, q, pool, index) {
                            Parsed::Fail { err } => Parsed::Fail { err },
                            Parsed::Val { v, end } => Parsed::Val {
                                v: AttributeV::Code(v),
                                end,
                            },
                        }
                    } else if name == "StackMapTable"@ {
                        match parse_counted_frames(d, q, "stack_map_table length"@) {
                            Parsed::Fail { err } => Parsed::Fail { err },
                            Parsed::Val { v, end } => Parsed::Val {
                                v: AttributeV::StackMapTable(
                                    StackMapTableV { attribute_name: index, entries: v },
                                ),
                                end,
                            },
                        }
                    } else if name == "Exceptions"@ {
                        match parse_counted_indices(d, q, "exceptions length"@) {
                            Parsed::Fail { err } => Parsed::Fail { err },
                            Parsed::Val { v, end } => Parsed::Val {
                                v: AttributeV::Exceptions(
                                    ExceptionsV { attribute_name: index, index_table: v },
                                ),
                                end,
                            },
                        }
                    } else if name == "SourceFile"@ {
                        match parse_constant_index(d, q) {
                            Parsed::Fail { err } => Parsed::Fail { err },
                            Parsed::Val { v, end } => Parsed::Val {
                                v: AttributeV::SourceFile(
                                    SourceFile { attribute_name: index, source_file: v },
                                ),
                                end,
                            },
                        }
                    } else if name == "LineNumberTable"@ {
                        match parse_counted_pairs(d, q, "line_number_table length"@) {
                            Parsed::Fail { err } => Parsed::Fail { err },
                            Parsed::Val { v, end } => Parsed::Val {
                                v: AttributeV::LineNumberTable(
                                    LineNumberTableV { attribute_name: index, table: v },
                                ),
                                end,
                            },
                        }
                    } else {
                        Parsed::Fail { err: ErrorV::UnknownAttributeType { attr: name } }
                    };
                    match body {
                        Parsed::Fail { err } => Parsed::Fail { err },
                        Parsed::Val { v, end } => {
                            if (end - q) as u32 == declared {
                                Parsed::Val { v, end }
                            } else {
                                Parsed::Fail {
                                    err: ErrorV::LengthMismatch {
                                        length: declared,
                                        actual: (end - q) as u32,
                                        ty: name,
                                    },
                                }
                            }
                        },
                    }
                }
            },
            Ok(c) => Parsed::Fail { err: ErrorV::InvalidAttributeType { attr: c } },
        }
    }
}

/// On success, an attribute occupies exactly its six header bytes plus
/// its declared length: the decoder enforces that the bytes a variant
/// parser consumes equal the declared length.
pub proof fn lemma_attribute_consumes_declared(d: Seq<u8>, p: int, pool: Seq<ConstantV>)
    ensures
        parse_attribute(d, p, pool) matches Parsed::Val { v, end } ==> (end - (p + 6)) as u32
            == be32(d, p + 2),
{
}

/// Reads a two-byte count, then that many attributes.
pub fn read_counted_attributes(reader: &mut Reader, constants: &[Constant], msg: &str) -> (r:
    Result<Vec<Attribute>, Error>)
    requires
        old(reader).wf(),
    ensures
        final(reader).wf(),
        final(reader).data() == old(reader).data(),
        final(reader).position() >= old(reader).position(),
        match r {
            Ok(v) => parse_counted_attributes(
                old(reader).data(),
                old(reader).position(),
                msg@,
                pool_view(constants@),
            ) == (Parsed::Val { v: attrs_view(v@), end: final(reader).position() }),
            Err(e) => parse_counted_attributes(
                old(reader).data(),
                old(reader).position(),
                msg@,
                pool_view(constants@),
            ) == (Parsed::Fail::<Seq<AttributeV>> { err: e@ }),
        },
    decreases old(reader).data().len() - old(reader).position(), 2int,
{
    let n = match reader.read_u16(msg) {
        Ok(v) => v,
        Err(e) => {
            return Err(e);
        },
    };
    let ghost d = reader.data();
    let ghost p0 = reader.position();
    let mut attributes: Vec<Attribute> = Vec::new();
    let mut i: u16 = 0;
    while i < n
        invariant
            reader.wf(),
            reader.data() == d,
            i <= n,
            reader.position() >= p0,
            match parse_attribute_list(d, reader.position(), (n - i) as nat, pool_view(
                constants@,
            )) {
                Parsed::Val { v: rest, end } => parse_attribute_list(d, p0, n as nat, pool_view(
                    constants@,
                )) == (Parsed::Val { v: attrs_view(attributes@) + rest, end }),
                Parsed::Fail { err } => parse_attribute_list(d, p0, n as nat, pool_view(
                    constants@,
                )) == (Parsed::Fail::<Seq<AttributeV>> { err }),
            },
        decreases n - i,
    {
        let ghost acc = attrs_view(attributes@);
        let a = match Attribute::read(reader, constants) {
            Ok(a) => a,
            Err(e) => {
                return Err(e);
            },
        };
        attributes.push(a);
        proof {
            assert(attrs_view(attributes@) =~= acc + seq![attributes@[attributes@.len() - 1]@]);
        }
        i = i + 1;
        proof {
            match parse_attribute_list(d, reader.position(), (n - i) as nat, pool_view(
                constants@,
            )) {
                Parsed::Val { v: rest, end } => {
                    assert(attrs_view(attributes@) + rest =~= acc + (seq![
                        attributes@[attributes@.len() - 1]@,
                    ] + rest));
                },
                Parsed::Fail { .. } => {},
            }
        }
    }
    proof {
        assert(attrs_view(attributes@) + Seq::<AttributeV>::empty() =~= attrs_view(attributes@));
    }
    Ok(attributes)
}

impl Code {
    /// Reads the body of a `Code` attribute, whose name resolved to
    /// `attribute_name`.
    pub fn read(reader: &mut Reader, constants: &[Constant], attribute_name: ConstantIndex) -> (r:
        Result<Code, Error>)
        requires
            old(reader).wf(),
        ensures
            final(reader).wf(),
            final(reader).data() == old(reader).data(),
            final(reader).position() >= old(reader).position(),
            match r {
                Ok(c) => parse_code_body(
                    old(reader).data(),
                    old(reader).position(),
                    pool_view(constants@),
                    attribute_name,
                ) == (Parsed::Val { v: c@, end: final(reader).position() }),
                Err(e) => parse_code_body(
                    old(reader).data(),
                    old(reader).position(),
                    pool_view(constants@),
                    attribute_name,
                ) == (Parsed::Fail::<CodeV> { err: e@ }),
            },
        decreases old(reader).data().len() - old(reader).position(), 0int,
    {
        let ghost d = reader.data();
        let ghost q0 = reader.position();
        let max_stack = match reader.read_u16("max_stack") {
            Ok(v) => v,
            Err(e) => {
                return Err(e);
            },
        };
        let max_locals = match reader.read_u16("max_locals") {
            Ok(v) => v,
            Err(e) => {
                return Err(e);
            },
        };
        let code_len = match reader.read_u32("code length") {
            Ok(v) => v,
            Err(e) => {
                return Err(e);
            },
        };
        let code = match reader.read_exact(code_len as usize, "code") {
            Ok(v) => v,
            Err(e) => {
                return Err(e);
            },
        };
        let exception_table = match read_counted_rows(reader, "exception table length") {
            Ok(v) => v,
            Err(e) => {
                return Err(e);
            },
        };
        let attributes = match read_counted_attributes(reader, constants, "attributes length") {
            Ok(v) => v,
            Err(e) => {
                return Err(e);
            },
        };
        proof {
            assert(attr_vec_view(attributes) =~= attrs_view(attributes@));
        }
        Ok(
            Code {
                attribute_name,
                max_stack,
                max_locals,
                code,
                exception_table,
                attributes,
            },
        )
    }
}

impl Attribute {
    /// Reads one attribute, resolving its name through `constants`.
    pub fn read(reader: &mut Reader, constants: &[Constant]) -> (r: Result<Attribute, Error>)
        requires
            old(reader).wf(),
        ensures
            final(reader).wf(),
            final(reader).data() == old(reader).data(),
            final(reader).position() >= old(reader).position(),
            match r {
                Ok(a) => {
                    &&& parse_attribute(
                        old(reader).data(),
                        old(reader).position(),
                        pool_view(constants@),
                    ) == (Parsed::Val { v: a@, end: final(reader).position() })
                    &&& final(reader).position() > old(reader).position()
                },
                Err(e) => parse_attribute(
                    old(reader).data(),
                    old(reader).position(),
                    pool_view(constants@),
                ) == (Parsed::Fail::<AttributeV> { err: e@ }),
            },
        decreases old(reader).data().len() - old(reader).position(), 1int,
    {
        let index = match reader.read_u16("attribute_name_index") {
            Ok(n) => ConstantIndex(n),
            Err(e) => {
                return Err(e);
            },
        };
        let constant = match index.lookup(constants) {
            Ok(c) => c,
            Err(e) => {
                return Err(e);
            },
        };
        let name: &String = match constant {
            Constant::Utf8(s) => s,
            _ => {
                return Err(Error::InvalidAttributeType { attr: constant.duplicate() });
            },
        };
        let declared = match reader.read_u32("attribute_length") {
            Ok(v) => v,
            Err(e) => {
                return Err(e);
            },
        };
        let start = reader.pos();
        let parsed: Attribute = if *name == String::from_str("ConstantValue") {
            match ConstantIndex::read(reader) {
                Ok(ci) => Attribute::ConstantValue(
                    ConstantValue { attribute_name: index, constant_value: ci },
                ),
                Err(e) => {
                    return Err(e);
                },
            }
        } else if *name == String::from_str("Code") {
            match Code::read(reader, constants, index) {
                Ok(c) => Attribute::Code(c),
                Err(e) => {
                    return Err(e);
                },
            }
        } else if *name == String::from_str("StackMapTable") {
            match read_counted_frames(reader, "stack_map_table length") {
                Ok(entries) => Attribute::StackMapTable(
                    StackMapTable { attribute_name: index, entries },
                ),
                Err(e) => {
                    return Err(e);
                },
            }
        } else if *name == String::from_str("Exceptions") {
            match read_counted_indices(reader, "exceptions length") {
                Ok(index_table) => Attribute::Exceptions(
                    Exceptions { attribute_name: index, index_table },
                ),
                Err(e) => {
                    return Err(e);
                },
            }
        } else if *name == String::from_str("SourceFile") {
            match ConstantIndex::read(reader) {
                Ok(ci) => Attribute::SourceFile(
                    SourceFile { attribute_name: index, source_file: ci },
                ),
                Err(e) => {
                    return Err(e);
                },
            }
        } else if *name == String::from_str("LineNumberTable") {
            match read_counted_pairs(reader, "line_number_table length") {
                Ok(table) => Attribute::LineNumberTable(
                    LineNumberTable { attribute_name: index, table },
                ),
                Err(e) => {
                    return Err(e);
                },
            }
        } else {
            return Err(Error::UnknownAttributeType { attr: name.clone() });
        };
        let end = reader.pos();
        let actual = #[verifier::truncate] ((end - start) as u32);
        if actual == declared {
            Ok(parsed)
        } else {
            Err(
                Error::LengthMismatch { length: declared, actual, ty: name.clone() },
            )
        }
    }
}

} // verus!
