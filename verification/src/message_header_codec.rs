//! The fixed-width message header preamble: block length, template id,
//! schema id and schema version, always the first bytes of a message.
//! Encoding writes the four fields of the target message kind; decoding
//! reads them so the caller can pick the schema and structural version
//! that govern the remaining bytes.
use crate::Reader;
use crate::SbeErr;
use crate::SbeResult;
use crate::Writer;
use crate::spec_get_post;
use crate::spec_put_post;
use crate::spec_reclaim;
use vstd::prelude::*;

verus! {

/// Byte size of the header preamble.
pub const ENCODED_LENGTH: usize = 8;

/// The four fields of the header preamble.
pub struct HeaderFields {
    pub block_length: u16,
    pub template_id: u16,
    pub schema_id: u16,
    pub version: u16,
}

/// The buffer after the four header fields are written at `off`.
pub open spec fn spec_write_header(s: Seq<u8>, off: int, h: HeaderFields) -> Seq<u8> {
    crate::spec_write_bytes(
        crate::spec_write_bytes(
            crate::spec_write_bytes(
                crate::spec_write_bytes(
                    s, off, vstd::bytes::spec_u16_to_le_bytes(h.block_length)),
                off + 2, vstd::bytes::spec_u16_to_le_bytes(h.template_id)),
            off + 4, vstd::bytes::spec_u16_to_le_bytes(h.schema_id)),
        off + 6, vstd::bytes::spec_u16_to_le_bytes(h.version))
}

/// The four header fields read from `s` at `off`.
pub open spec fn spec_header_fields(s: Seq<u8>, off: int) -> HeaderFields {
    HeaderFields {
        block_length: vstd::bytes::spec_u16_from_le_bytes(s.subrange(off, off + 2)),
        template_id: vstd::bytes::spec_u16_from_le_bytes(s.subrange(off + 2, off + 4)),
        schema_id: vstd::bytes::spec_u16_from_le_bytes(s.subrange(off + 4, off + 6)),
        version: vstd::bytes::spec_u16_from_le_bytes(s.subrange(off + 6, off + 8)),
    }
}

/// Header round-trip: decoding a freshly written header yields the same
/// four fields, whatever the buffer held before.
pub proof fn lemma_header_round_trip(s: Seq<u8>, off: int, h: HeaderFields)
    requires
        0 <= off,
        off + 8 <= s.len(),
    ensures
        spec_header_fields(spec_write_header(s, off, h), off) == h,
{
    vstd::bytes::lemma_auto_spec_u16_to_from_le_bytes();
    let bl = vstd::bytes::spec_u16_to_le_bytes(h.block_length);
    let tid = vstd::bytes::spec_u16_to_le_bytes(h.template_id);
    let sid = vstd::bytes::spec_u16_to_le_bytes(h.schema_id);
    let ver = vstd::bytes::spec_u16_to_le_bytes(h.version);
    let s1 = crate::spec_write_bytes(s, off, bl);
    let s2 = crate::spec_write_bytes(s1, off + 2, tid);
    let s3 = crate::spec_write_bytes(s2, off + 4, sid);
    let s4 = crate::spec_write_bytes(s3, off + 6, ver);
    crate::lemma_read_over_write_disjoint(s3, off + 6, ver, off, 2);
    crate::lemma_read_over_write_disjoint(s2, off + 4, sid, off, 2);
    crate::lemma_read_over_write_disjoint(s1, off + 2, tid, off, 2);
    crate::lemma_read_over_write_same(s, off, bl);
    crate::lemma_read_over_write_disjoint(s3, off + 6, ver, off + 2, 2);
    crate::lemma_read_over_write_disjoint(s2, off + 4, sid, off + 2, 2);
    crate::lemma_read_over_write_same(s1, off + 2, tid);
    crate::lemma_read_over_write_disjoint(s3, off + 6, ver, off + 4, 2);
    crate::lemma_read_over_write_same(s2, off + 4, sid);
    crate::lemma_read_over_write_same(s3, off + 6, ver);
}

/// Writes the four header fields at a fixed offset of the enclosing
/// frame's buffer; it borrows the enclosing frame and must hand it back
/// through `parent` before the body can be encoded.
pub struct MessageHeaderEncoder<P> {
    pub parent: Option<P>,
    pub offset: usize,
}

impl<P: Writer> Writer for MessageHeaderEncoder<P> {
    open spec fn writer_ready(&self) -> bool {
        match self.parent {
            Some(p) => p.writer_ready(),
            None => false,
        }
    }

    open spec fn wbytes(&self) -> Seq<u8> {
        match self.parent {
            Some(p) => p.wbytes(),
            None => Seq::empty(),
        }
    }

    open spec fn wstart(&self) -> int {
        match self.parent {
            Some(p) => p.wstart(),
            None => 0,
        }
    }

    open spec fn wlimit(&self) -> int {
        match self.parent {
            Some(p) => p.wlimit(),
            None => 0,
        }
    }

    fn put_u8_at(&mut self, index: usize, value: u8) -> (r: SbeResult<()>) {
        match &mut self.parent {
            Some(p) => p.put_u8_at(index, value),
            None => Err(SbeErr::ParentNotSet),
        }
    }

    fn put_u16_at(&mut self, index: usize, value: u16) -> (r: SbeResult<()>) {
        match &mut self.parent {
            Some(p) => p.put_u16_at(index, value),
            None => Err(SbeErr::ParentNotSet),
        }
    }

    fn put_u32_at(&mut self, index: usize, value: u32) -> (r: SbeResult<()>) {
        match &mut self.parent {
            Some(p) => p.put_u32_at(index, value),
            None => Err(SbeErr::ParentNotSet),
        }
    }

    fn put_u64_at(&mut self, index: usize, value: u64) -> (r: SbeResult<()>) {
        match &mut self.parent {
            Some(p) => p.put_u64_at(index, value),
            None => Err(SbeErr::ParentNotSet),
        }
    }

    fn put_i64_at(&mut self, index: usize, value: i64) -> (r: SbeResult<()>) {
        match &mut self.parent {
            Some(p) => p.put_i64_at(index, value),
            None => Err(SbeErr::ParentNotSet),
        }
    }
}

impl<P: Writer> MessageHeaderEncoder<P> {
    pub fn wrap(self, parent: P, offset: usize) -> (r: Self)
        ensures
            r.parent == Some(parent),
            r.offset == offset,
    {
        MessageHeaderEncoder { parent: Some(parent), offset }
    }

    /// Hand the enclosing frame back; single-use.
    pub fn parent(&mut self) -> (r: SbeResult<P>)
        ensures
            final(self).offset == old(self).offset,
            (final(self).parent, r) == spec_reclaim(old(self).parent),
    {
        match self.parent.take() {
            Some(p) => Ok(p),
            None => Err(SbeErr::ParentNotSet),
        }
    }

    pub fn block_length(&mut self, value: u16) -> (r: SbeResult<()>)
        requires
            old(self).offset + ENCODED_LENGTH <= usize::MAX,
        ensures
            final(self).offset == old(self).offset,
            final(self).writer_ready() == old(self).writer_ready(),
            final(self).wstart() == old(self).wstart(),
            final(self).wlimit() == old(self).wlimit(),
            spec_put_post(
                old(self).writer_ready(), old(self).wbytes(), final(self).wbytes(),
                old(self).offset as int, vstd::bytes::spec_u16_to_le_bytes(value), r),
    {
        let index = self.offset;
        match &mut self.parent {
            Some(p) => p.put_u16_at(index, value),
            None => Err(SbeErr::ParentNotSet),
        }
    }

    pub fn template_id(&mut self, value: u16) -> (r: SbeResult<()>)
        requires
            old(self).offset + ENCODED_LENGTH <= usize::MAX,
        ensures
            final(self).offset == old(self).offset,
            final(self).writer_ready() == old(self).writer_ready(),
            final(self).wstart() == old(self).wstart(),
            final(self).wlimit() == old(self).wlimit(),
            spec_put_post(
                old(self).writer_ready(), old(self).wbytes(), final(self).wbytes(),
                old(self).offset + 2, vstd::bytes::spec_u16_to_le_bytes(value), r),
    {
        let index = self.offset + 2;
        match &mut self.parent {
            Some(p) => p.put_u16_at(index, value),
            None => Err(SbeErr::ParentNotSet),
        }
    }

    pub fn schema_id(&mut self, value: u16) -> (r: SbeResult<()>)
        requires
            old(self).offset + ENCODED_LENGTH <= usize::MAX,
        ensures
            final(self).offset == old(self).offset,
            final(self).writer_ready() == old(self).writer_ready(),
            final(self).wstart() == old(self).wstart(),
            final(self).wlimit() == old(self).wlimit(),
            spec_put_post(
                old(self).writer_ready(), old(self).wbytes(), final(self).wbytes(),
                old(self).offset + 4, vstd::bytes::spec_u16_to_le_bytes(value), r),
    {
        let index = self.offset + 4;
        match &mut self.parent {
            Some(p) => p.put_u16_at(index, value),
            None => Err(SbeErr::ParentNotSet),
        }
    }

    pub fn version(&mut self, value: u16) -> (r: SbeResult<()>)
        requires
            old(self).offset + ENCODED_LENGTH <= usize::MAX,
        ensures
            final(self).offset == old(self).offset,
            final(self).writer_ready() == old(self).writer_ready(),
            final(self).wstart() == old(self).wstart(),
            final(self).wlimit() == old(self).wlimit(),
            spec_put_post(
                old(self).writer_ready(), old(self).wbytes(), final(self).wbytes(),
                old(self).offset + 6, vstd::bytes::spec_u16_to_le_bytes(value), r),
    {
        let index = self.offset + 6;
        match &mut self.parent {
            Some(p) => p.put_u16_at(index, value),
            None => Err(SbeErr::ParentNotSet),
        }
    }
}

/// Reads the four header fields at a fixed offset of the enclosing
/// frame's buffer.
pub struct MessageHeaderDecoder<P> {
    pub parent: Option<P>,
    pub offset: usize,
}

impl<P: Reader> Reader for MessageHeaderDecoder<P> {
    open spec fn reader_ready(&self) -> bool {
        match self.parent {
            Some(p) => p.reader_ready(),
            None => false,
        }
    }

    open spec fn rbytes(&self) -> Seq<u8> {
        match self.parent {
            Some(p) => p.rbytes(),
            None => Seq::empty(),
        }
    }

    open spec fn rstart(&self) -> int {
        match self.parent {
            Some(p) => p.rstart(),
            None => 0,
        }
    }

    open spec fn rlimit(&self) -> int {
        match self.parent {
            Some(p) => p.rlimit(),
            None => 0,
        }
    }

    fn get_u8_at(&self, index: usize) -> (r: SbeResult<u8>) {
        match &self.parent {
            Some(p) => p.get_u8_at(index),
            None => Err(SbeErr::ParentNotSet),
        }
    }

    fn get_u16_at(&self, index: usize) -> (r: SbeResult<u16>) {
        match &self.parent {
            Some(p) => p.get_u16_at(index),
            None => Err(SbeErr::ParentNotSet),
        }
    }

    fn get_u32_at(&self, index: usize) -> (r: SbeResult<u32>) {
        match &self.parent {
            Some(p) => p.get_u32_at(index),
            None => Err(SbeErr::ParentNotSet),
        }
    }

    fn get_u64_at(&self, index: usize) -> (r: SbeResult<u64>) {
        match &self.parent {
            Some(p) => p.get_u64_at(index),
            None => Err(SbeErr::ParentNotSet),
        }
    }

    fn get_i64_at(&self, index: usize) -> (r: SbeResult<i64>) {
        match &self.parent {
            Some(p) => p.get_i64_at(index),
            None => Err(SbeErr::ParentNotSet),
        }
    }
}

impl<P: Reader> MessageHeaderDecoder<P> {
    pub fn wrap(self, parent: P, offset: usize) -> (r: Self)
        ensures
            r.parent == Some(parent),
            r.offset == offset,
    {
        MessageHeaderDecoder { parent: Some(parent), offset }
    }

    /// Hand the enclosing frame back; single-use.
    pub fn parent(&mut self) -> (r: SbeResult<P>)
        ensures
            final(self).offset == old(self).offset,
            (final(self).parent, r) == spec_reclaim(old(self).parent),
    {
        match self.parent.take() {
            Some(p) => Ok(p),
            None => Err(SbeErr::ParentNotSet),
        }
    }

    pub fn block_length(&self) -> (r: SbeResult<u16>)
        requires
            self.offset + ENCODED_LENGTH <= usize::MAX,
        ensures
            spec_get_post(
                self.reader_ready(), self.rbytes(), self.offset as int, 2, r,
                vstd::bytes::spec_u16_from_le_bytes(
                    self.rbytes().subrange(self.offset as int, self.offset + 2))),
    {
        let index = self.offset;
        match &self.parent {
            Some(p) => p.get_u16_at(index),
            None => Err(SbeErr::ParentNotSet),
        }
    }

    pub fn template_id(&self) -> (r: SbeResult<u16>)
        requires
            self.offset + ENCODED_LENGTH <= usize::MAX,
        ensures
            spec_get_post(
                self.reader_ready(), self.rbytes(), self.offset + 2, 2, r,
                vstd::bytes::spec_u16_from_le_bytes(
                    self.rbytes().subrange(self.offset + 2, self.offset + 4))),
    {
        let index = self.offset + 2;
        match &self.parent {
            Some(p) => p.get_u16_at(index),
            None => Err(SbeErr::ParentNotSet),
        }
    }

    pub fn schema_id(&self) -> (r: SbeResult<u16>)
        requires
            self.offset + ENCODED_LENGTH <= usize::MAX,
        ensures
            spec_get_post(
                self.reader_ready(), self.rbytes(), self.offset + 4, 2, r,
                vstd::bytes::spec_u16_from_le_bytes(
                    self.rbytes().subrange(self.offset + 4, self.offset + 6))),
    {
        let index = self.offset + 4;
        match &self.parent {
            Some(p) => p.get_u16_at(index),
            None => Err(SbeErr::ParentNotSet),
        }
    }

    pub fn version(&self) -> (r: SbeResult<u16>)
        requires
            self.offset + ENCODED_LENGTH <= usize::MAX,
        ensures
            spec_get_post(
                self.reader_ready(), self.rbytes(), self.offset + 6, 2, r,
                vstd::bytes::spec_u16_from_le_bytes(
                    self.rbytes().subrange(self.offset + 6, self.offset + 8))),
    {
        let index = self.offset + 6;
        match &self.parent {
            Some(p) => p.get_u16_at(index),
            None => Err(SbeErr::ParentNotSet),
        }
    }
}


impl<P: Writer> Default for MessageHeaderEncoder<P> {
    fn default() -> (r: Self)
        ensures
            r.parent is None,
            r.offset == 0,
    {
        MessageHeaderEncoder { parent: None, offset: 0 }
    }
}

impl<P: Reader> Default for MessageHeaderDecoder<P> {
    fn default() -> (r: Self)
        ensures
            r.parent is None,
            r.offset == 0,
    {
        MessageHeaderDecoder { parent: None, offset: 0 }
    }
}

} // verus!
