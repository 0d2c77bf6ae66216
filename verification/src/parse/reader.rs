//! A positional big-endian reader over a byte slice, and the
//! specification-level parsing vocabulary shared by all decoders.
//!
//! Every multi-byte read is big-endian and advances the cursor by the
//! number of bytes read.  Each read carries a short context label that
//! names the field being read; the label is preserved in the error when
//! the input ends too early.

use vstd::prelude::*;
use vstd::string::StringExecFns;

use crate::parse::error::{Error, ErrorV};

verus! {

/// The outcome of a specification-level parser: either a value together
/// with the position just past its encoding, or the error the decoder
/// reports.
pub enum Parsed<T> {
    Val { v: T, end: int },
    Fail { err: ErrorV },
}

/// The big-endian value of the two bytes at `p`.
pub open spec fn be16(d: Seq<u8>, p: int) -> u16 {
    (d[p] * 0x100 + d[p + 1]) as u16
}

/// The big-endian value of the four bytes at `p`.
pub open spec fn be32(d: Seq<u8>, p: int) -> u32 {
    (d[p] * 0x100_0000 + d[p + 1] * 0x1_0000 + d[p + 2] * 0x100 + d[p + 3]) as u32
}

/// The big-endian value of the eight bytes at `p`.
pub open spec fn be64(d: Seq<u8>, p: int) -> u64 {
    (be32(d, p) * 0x1_0000_0000 + be32(d, p + 4)) as u64
}

/// Runs `step` exactly `n` times, each time from the position where the
/// previous run ended, and collects the results.
pub open spec fn parse_many<T>(
    d: Seq<u8>,
    p: int,
    n: nat,
    step: spec_fn(Seq<u8>, int) -> Parsed<T>,
) -> Parsed<Seq<T>>
    decreases n,
{
    if n == 0 {
        Parsed::Val { v: Seq::empty(), end: p }
    } else {
        match step(d, p) {
            Parsed::Fail { err } => Parsed::Fail { err },
            Parsed::Val { v, end } => match parse_many(d, end, (n - 1) as nat, step) {
                Parsed::Fail { err } => Parsed::Fail { err },
                Parsed::Val { v: rest, end: e } => Parsed::Val { v: seq![v] + rest, end: e },
            },
        }
    }
}

/// A cursor over an immutable byte slice.  All reads are big-endian.
pub struct Reader<'a> {
    source: &'a [u8],
    pos: usize,
}

/// A well-formed reader's position lies within its data.
pub broadcast proof fn lemma_reader_bounds<'a>(r: Reader<'a>)
    ensures
        #[trigger] r.wf() ==> 0 <= r.position() <= r.data().len(),
{
}

impl<'a> Reader<'a> {
    /// The whole underlying byte sequence.
    pub closed spec fn data(&self) -> Seq<u8> {
        self.source@
    }

    /// The current cursor position.
    pub closed spec fn position(&self) -> int {
        self.pos as int
    }

    /// The cursor never runs past the end of the data.
    pub closed spec fn wf(&self) -> bool {
        self.pos <= self.source@.len()
    }

    /// A reader over `source` whose cursor starts at `pos`.
    pub fn new(source: &'a [u8], pos: usize) -> (r: Self)
        requires
            pos <= source@.len(),
        ensures
            r.wf(),
            r.data() == source@,
            r.position() == pos,
    {
        Self { source, pos }
    }

    /// The number of bytes read so far (when the cursor started at zero).
    pub fn pos(&self) -> (r: usize)
        ensures
            r == self.position(),
    {
        self.pos
    }

    /// Reads one byte.
    pub fn read_u8(&mut self, msg: &str) -> (r: Result<u8, Error>)
        requires
            old(self).wf(),
        ensures
            final(self).wf(),
            final(self).data() == old(self).data(),
            match r {
                Ok(b) => {
                    &&& old(self).position() + 1 <= old(self).data().len()
                    &&& final(self).position() == old(self).position() + 1
                    &&& b == old(self).data()[old(self).position()]
                },
                Err(e) => {
                    &&& old(self).position() + 1 > old(self).data().len()
                    &&& final(self).position() == old(self).position()
                    &&& e@ == (ErrorV::Io { msg: msg@ })
                },
            },
    {
        if self.source.len() - self.pos >= 1 {
            let b = self.source[self.pos];
            self.pos = self.pos + 1;
            Ok(b)
        } else {
            Err(Error::Io { msg: String::from_str(msg) })
        }
    }

    /// Reads a big-endian `u16`.
    pub fn read_u16(&mut self, msg: &str) -> (r: Result<u16, Error>)
        requires
            old(self).wf(),
        ensures
            final(self).wf(),
            final(self).data() == old(self).data(),
            match r {
                Ok(n) => {
                    &&& old(self).position() + 2 <= old(self).data().len()
                    &&& final(self).position() == old(self).position() + 2
                    &&& n == be16(old(self).data(), old(self).position())
                },
                Err(e) => {
                    &&& old(self).position() + 2 > old(self).data().len()
                    &&& final(self).position() == old(self).position()
                    &&& e@ == (ErrorV::Io { msg: msg@ })
                },
            },
    {
        if self.source.len() - self.pos >= 2 {
            let b0 = self.source[self.pos];
            let b1 = self.source[self.pos + 1];
            self.pos = self.pos + 2;
            Ok((b0 as u16) * 0x100 + (b1 as u16))
        } else {
            Err(Error::Io { msg: String::from_str(msg) })
        }
    }

    /// Reads a big-endian `u32`.
    pub fn read_u32(&mut self, msg: &str) -> (r: Result<u32, Error>)
        requires
            old(self).wf(),
        ensures
            final(self).wf(),
            final(self).data() == old(self).data(),
            match r {
                Ok(n) => {
                    &&& old(self).position() + 4 <= old(self).data().len()
                    &&& final(self).position() == old(self).position() + 4
                    &&& n == be32(old(self).data(), old(self).position())
                },
                Err(e) => {
                    &&& old(self).position() + 4 > old(self).data().len()
                    &&& final(self).position() == old(self).position()
                    &&& e@ == (ErrorV::Io { msg: msg@ })
                },
            },
    {
        if self.source.len() - self.pos >= 4 {
            let b0 = self.source[self.pos];
            let b1 = self.source[self.pos + 1];
            let b2 = self.source[self.pos + 2];
            let b3 = self.source[self.pos + 3];
            self.pos = self.pos + 4;
            Ok((b0 as u32) * 0x100_0000 + (b1 as u32) * 0x1_0000 + (b2 as u32) * 0x100
                + (b3 as u32))
        } else {
            Err(Error::Io { msg: String::from_str(msg) })
        }
    }

    /// Reads a big-endian `u64`.
    pub fn read_u64(&mut self, msg: &str) -> (r: Result<u64, Error>)
        requires
            old(self).wf(),
        ensures
            final(self).wf(),
            final(self).data() == old(self).data(),
            match r {
                Ok(n) => {
                    &&& old(self).position() + 8 <= old(self).data().len()
                    &&& final(self).position() == old(self).position() + 8
                    &&& n == be64(old(self).data(), old(self).position())
                },
                Err(e) => {
                    &&& old(self).position() + 8 > old(self).data().len()
                    &&& final(self).position() == old(self).position()
                    &&& e@ == (ErrorV::Io { msg: msg@ })
                },
            },
    {
        if self.source.len() - self.pos >= 8 {
            let hi = self.read_u32(msg);
            let lo = self.read_u32(msg);
            match (hi, lo) {
                (Ok(hi), Ok(lo)) => Ok((hi as u64) * 0x1_0000_0000 + (lo as u64)),
                _ => Err(Error::Io { msg: String::from_str(msg) }),
            }
        } else {
            Err(Error::Io { msg: String::from_str(msg) })
        }
    }

    /// Reads exactly `len` bytes into a fresh vector.
    pub fn read_exact(&mut self, len: usize, msg: &str) -> (r: Result<Vec<u8>, Error>)
        requires
            old(self).wf(),
        ensures
            final(self).wf(),
            final(self).data() == old(self).data(),
            match r {
                Ok(v) => {
                    &&& old(self).position() + len <= old(self).data().len()
                    &&& final(self).position() == old(self).position() + len
                    &&& v@ == old(self).data().subrange(
                        old(self).position(),
                        old(self).position() + len,
                    )
                },
                Err(e) => {
                    &&& old(self).position() + len > old(self).data().len()
                    &&& final(self).position() == old(self).position()
                    &&& e@ == (ErrorV::Io { msg: msg@ })
                },
            },
    {
        if self.source.len() - self.pos >= len {
            let mut buf: Vec<u8> = Vec::new();
            let mut i: usize = 0;
            while i < len
                invariant
                    self.wf(),
                    i <= len,
                    self.pos == old(self).pos,
                    self.source == old(self).source,
                    self.source@.len() <= usize::MAX,
                    self.source@.len() - self.pos >= len,
                    buf@ == self.source@.subrange(self.pos as int, self.pos + i),
                decreases len - i,
            {
                buf.push(self.source[self.pos + i]);
                i = i + 1;
                proof {
                    assert(buf@ == self.source@.subrange(self.pos as int, self.pos + i));
                }
            }
            self.pos = self.pos + len;
            Ok(buf)
        } else {
            Err(Error::Io { msg: String::from_str(msg) })
        }
    }
}

} // verus!
