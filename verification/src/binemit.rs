//! Binary emission: an in-memory code sink that instructions write
//! themselves into, with relocation records for calls by name.

use vstd::prelude::*;
use crate::ir::{ExternalName, SourceLoc};

verus! {

/// The little-endian bytes of a 16-bit word.
pub open spec fn spec_le2(w: u16) -> Seq<u8> {
    seq![(w & 0xff) as u8, ((w >> 8) & 0xff) as u8]
}

/// The little-endian bytes of a 32-bit word.
pub open spec fn spec_le4(w: u32) -> Seq<u8> {
    seq![
        (w & 0xff) as u8,
        ((w >> 8) & 0xff) as u8,
        ((w >> 16) & 0xff) as u8,
        ((w >> 24) & 0xff) as u8,
    ]
}

/// The little-endian bytes of a 64-bit word.
pub open spec fn spec_le8(w: u64) -> Seq<u8> {
    seq![
        (w & 0xff) as u8,
        ((w >> 8) & 0xff) as u8,
        ((w >> 16) & 0xff) as u8,
        ((w >> 24) & 0xff) as u8,
        ((w >> 32) & 0xff) as u8,
        ((w >> 40) & 0xff) as u8,
        ((w >> 48) & 0xff) as u8,
        ((w >> 56) & 0xff) as u8,
    ]
}

/// A relocation: the code at `offset` refers to the external `name`.
#[derive(Clone, Debug, PartialEq, Eq, Structural)]
pub struct RelocRecord {
    pub offset: u64,
    pub srcloc: SourceLoc,
    pub name: ExternalName,
}

/// An in-memory byte sink.  Emission appends bytes at monotonically
/// non-decreasing offsets and may record relocations.
pub struct CodeSink {
    pub bytes: Vec<u8>,
    pub relocs: Vec<RelocRecord>,
}

impl CodeSink {
    pub fn new() -> (s: CodeSink)
        ensures
            s.bytes@ == Seq::<u8>::empty(),
            s.relocs@ == Seq::<RelocRecord>::empty(),
    {
        CodeSink { bytes: Vec::new(), relocs: Vec::new() }
    }

    /// The current write offset.
    pub fn cur_offset(&self) -> (o: usize)
        ensures
            o == self.bytes@.len(),
    {
        self.bytes.len()
    }

    pub fn put1(&mut self, b: u8)
        ensures
            final(self).bytes@ == old(self).bytes@.push(b),
            final(self).relocs@ == old(self).relocs@,
    {
        self.bytes.push(b);
    }

    pub fn put2(&mut self, w: u16)
        ensures
            final(self).bytes@ == old(self).bytes@ + spec_le2(w),
            final(self).relocs@ == old(self).relocs@,
    {
        self.bytes.push((w & 0xff) as u8);
        self.bytes.push(((w >> 8) & 0xff) as u8);
        assert(final(self).bytes@ =~= old(self).bytes@ + spec_le2(w));
    }

    pub fn put4(&mut self, w: u32)
        ensures
            final(self).bytes@ == old(self).bytes@ + spec_le4(w),
            final(self).relocs@ == old(self).relocs@,
    {
        self.bytes.push((w & 0xff) as u8);
        self.bytes.push(((w >> 8) & 0xff) as u8);
        self.bytes.push(((w >> 16) & 0xff) as u8);
        self.bytes.push(((w >> 24) & 0xff) as u8);
        assert(final(self).bytes@ =~= old(self).bytes@ + spec_le4(w));
    }

    pub fn put8(&mut self, w: u64)
        ensures
            final(self).bytes@ == old(self).bytes@ + spec_le8(w),
            final(self).relocs@ == old(self).relocs@,
    {
        self.bytes.push((w & 0xff) as u8);
        self.bytes.push(((w >> 8) & 0xff) as u8);
        self.bytes.push(((w >> 16) & 0xff) as u8);
        self.bytes.push(((w >> 24) & 0xff) as u8);
        self.bytes.push(((w >> 32) & 0xff) as u8);
        self.bytes.push(((w >> 40) & 0xff) as u8);
        self.bytes.push(((w >> 48) & 0xff) as u8);
        self.bytes.push(((w >> 56) & 0xff) as u8);
        assert(final(self).bytes@ =~= old(self).bytes@ + spec_le8(w));
    }

    /// Record that the bytes at the current offset refer to `name`.
    pub fn add_reloc(&mut self, srcloc: SourceLoc, name: ExternalName)
        ensures
            final(self).bytes@ == old(self).bytes@,
            final(self).relocs@ == old(self).relocs@.push(
                RelocRecord { offset: old(self).bytes@.len() as u64, srcloc, name },
            ),
    {
        let offset = self.bytes.len() as u64;
        self.relocs.push(RelocRecord { offset, srcloc, name });
    }
}

} // verus!
