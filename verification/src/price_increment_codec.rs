//! Codec for the price-level increment message: a small fixed block
//! followed by two repeating groups, bids and offers, each element a
//! price level increment composite.
use crate::Decoder;
use crate::Encoder;
use crate::ReadBuf;
use crate::Reader;
use crate::SbeErr;
use crate::SbeResult;
use crate::WriteBuf;
use crate::Writer;
use crate::message_header_codec::HeaderFields;
use crate::message_header_codec::MessageHeaderDecoder;
use crate::message_header_codec::MessageHeaderEncoder;
use crate::message_header_codec::spec_header_fields;
use crate::message_header_codec::spec_write_header;
use crate::group::GroupState;
use crate::group::spec_group_advance;
use crate::group::spec_group_open;
use crate::group::spec_next_index;
use crate::price_level_increment_codec::PriceLevelIncrementDecoder;
use crate::price_level_increment_codec::PriceLevelIncrementEncoder;
use crate::spec_get_post;
use crate::spec_put_post;
use crate::spec_reclaim;
use vstd::assert_seqs_equal;
use vstd::prelude::*;

verus! {

pub const SBE_BLOCK_LENGTH: u16 = 8;
pub const SBE_TEMPLATE_ID: u16 = 2;
pub const SBE_SCHEMA_ID: u16 = 1;
pub const SBE_SCHEMA_VERSION: u16 = 0;

/// Owns the buffer for one encode pass; the fixed block starts at
/// `offset` and `limit` marks the end of everything written so far.
pub struct PriceIncrementEncoder {
    pub buf: WriteBuf,
    pub initial_offset: usize,
    pub offset: usize,
    pub limit: usize,
}

impl Writer for PriceIncrementEncoder {
    open spec fn writer_ready(&self) -> bool {
        true
    }

    open spec fn wbytes(&self) -> Seq<u8> {
        self.buf@
    }

    open spec fn wstart(&self) -> int {
        self.offset as int
    }

    open spec fn wlimit(&self) -> int {
        self.limit as int
    }

    fn put_u8_at(&mut self, index: usize, value: u8) -> (r: SbeResult<()>) {
        self.buf.put_u8_at(index, value)
    }

    fn put_u16_at(&mut self, index: usize, value: u16) -> (r: SbeResult<()>) {
        self.buf.put_u16_at(index, value)
    }

    fn put_u32_at(&mut self, index: usize, value: u32) -> (r: SbeResult<()>) {
        self.buf.put_u32_at(index, value)
    }

    fn put_u64_at(&mut self, index: usize, value: u64) -> (r: SbeResult<()>) {
        self.buf.put_u64_at(index, value)
    }

    fn put_i64_at(&mut self, index: usize, value: i64) -> (r: SbeResult<()>) {
        self.buf.put_i64_at(index, value)
    }
}

impl Encoder for PriceIncrementEncoder {
    fn get_limit(&self) -> (r: SbeResult<usize>) {
        Ok(self.limit)
    }

    fn set_limit(&mut self, limit: usize) -> (r: SbeResult<()>) {
        self.limit = limit;
        Ok(())
    }
}

impl PriceIncrementEncoder {
    pub fn wrap(self, buf: WriteBuf, offset: usize) -> (r: Self)
        requires
            offset + SBE_BLOCK_LENGTH <= usize::MAX,
        ensures
            r.buf@ == buf@,
            r.initial_offset == offset,
            r.offset == offset,
            r.limit == offset + SBE_BLOCK_LENGTH,
    {
        let limit = offset + (SBE_BLOCK_LENGTH as usize);
        PriceIncrementEncoder { buf, initial_offset: offset, offset, limit }
    }

    /// Total size of the fixed block plus all variable content so far.
    pub fn encoded_length(&self) -> (r: usize)
        requires
            self.offset <= self.limit,
        ensures
            r == self.wlimit() - self.wstart(),
    {
        self.limit - self.offset
    }

    /// Write this message kind's header preamble at `offset`, normally 0.
    pub fn header(self, offset: usize) -> (r: SbeResult<MessageHeaderEncoder<Self>>)
        requires
            offset + crate::message_header_codec::ENCODED_LENGTH <= usize::MAX,
        ensures
            offset + 8 <= self.buf@.len() ==> (r matches Ok(h)
                && h.offset == offset
                && (h.parent matches Some(e)
                    && e.offset == self.offset
                    && e.initial_offset == self.initial_offset
                    && e.limit == self.limit
                    && e.buf@ == spec_write_header(self.buf@, offset as int,
                        (HeaderFields {
                            block_length: SBE_BLOCK_LENGTH,
                            template_id: SBE_TEMPLATE_ID,
                            schema_id: SBE_SCHEMA_ID,
                            version: SBE_SCHEMA_VERSION,
                        })))),
            offset + 8 > self.buf@.len() ==> r == Err::<MessageHeaderEncoder<Self>, SbeErr>(
                SbeErr::IndexOutOfRange),
    {
        proof {
            vstd::bytes::lemma_auto_spec_u16_to_from_le_bytes();
        }
        let mut this = self;
        match this.buf.put_u16_at(offset, SBE_BLOCK_LENGTH) {
            Ok(()) => (),
            Err(e) => { return Err(e); },
        }
        match this.buf.put_u16_at(offset + 2, SBE_TEMPLATE_ID) {
            Ok(()) => (),
            Err(e) => { return Err(e); },
        }
        match this.buf.put_u16_at(offset + 4, SBE_SCHEMA_ID) {
            Ok(()) => (),
            Err(e) => { return Err(e); },
        }
        match this.buf.put_u16_at(offset + 6, SBE_SCHEMA_VERSION) {
            Ok(()) => (),
            Err(e) => { return Err(e); },
        }
        Ok(MessageHeaderEncoder { parent: None, offset: 0 }.wrap(this, offset))
    }

    pub fn comp_id(&mut self, value: u32) -> (r: SbeResult<()>)
        requires
            old(self).offset + SBE_BLOCK_LENGTH <= usize::MAX,
        ensures
            final(self).offset == old(self).offset,
            final(self).initial_offset == old(self).initial_offset,
            final(self).limit == old(self).limit,
            spec_put_post(
                true, old(self).buf@, final(self).buf@,
                old(self).offset as int, vstd::bytes::spec_u32_to_le_bytes(value), r),
    {
        let index = self.offset;
        self.buf.put_u32_at(index, value)
    }

    pub fn instrument_id(&mut self, value: u32) -> (r: SbeResult<()>)
        requires
            old(self).offset + SBE_BLOCK_LENGTH <= usize::MAX,
        ensures
            final(self).offset == old(self).offset,
            final(self).initial_offset == old(self).initial_offset,
            final(self).limit == old(self).limit,
            spec_put_post(
                true, old(self).buf@, final(self).buf@,
                old(self).offset + 4, vstd::bytes::spec_u32_to_le_bytes(value), r),
    {
        let index = self.offset + 4;
        self.buf.put_u32_at(index, value)
    }


}

/// Reads one message from a borrowed buffer; the acting block length and
/// version come from the decoded header, so a body written by an older,
/// shorter schema is recognized.
pub struct PriceIncrementDecoder {
    pub buf: ReadBuf,
    pub initial_offset: usize,
    pub offset: usize,
    pub limit: usize,
    pub acting_block_length: u16,
    pub acting_version: u16,
}

impl Reader for PriceIncrementDecoder {
    open spec fn reader_ready(&self) -> bool {
        true
    }

    open spec fn rbytes(&self) -> Seq<u8> {
        self.buf@
    }

    open spec fn rstart(&self) -> int {
        self.offset as int
    }

    open spec fn rlimit(&self) -> int {
        self.limit as int
    }

    fn get_u8_at(&self, index: usize) -> (r: SbeResult<u8>) {
        self.buf.get_u8_at(index)
    }

    fn get_u16_at(&self, index: usize) -> (r: SbeResult<u16>) {
        self.buf.get_u16_at(index)
    }

    fn get_u32_at(&self, index: usize) -> (r: SbeResult<u32>) {
        self.buf.get_u32_at(index)
    }

    fn get_u64_at(&self, index: usize) -> (r: SbeResult<u64>) {
        self.buf.get_u64_at(index)
    }

    fn get_i64_at(&self, index: usize) -> (r: SbeResult<i64>) {
        self.buf.get_i64_at(index)
    }
}

impl Decoder for PriceIncrementDecoder {
    fn get_limit(&self) -> (r: SbeResult<usize>) {
        Ok(self.limit)
    }

    fn set_limit(&mut self, limit: usize) -> (r: SbeResult<()>) {
        self.limit = limit;
        Ok(())
    }
}

impl PriceIncrementDecoder {
    pub fn wrap(
        self,
        buf: ReadBuf,
        offset: usize,
        acting_block_length: u16,
        acting_version: u16,
    ) -> (r: Self)
        requires
            offset + acting_block_length <= usize::MAX,
        ensures
            r.buf@ == buf@,
            r.initial_offset == offset,
            r.offset == offset,
            r.limit == offset + acting_block_length,
            r.acting_block_length == acting_block_length,
            r.acting_version == acting_version,
    {
        let limit = offset + (acting_block_length as usize);
        PriceIncrementDecoder { buf, initial_offset: offset, offset, limit, acting_block_length, acting_version }
    }

    /// Total size of the fixed block plus all variable content so far.
    pub fn encoded_length(&self) -> (r: usize)
        requires
            self.offset <= self.limit,
        ensures
            r == self.rlimit() - self.rstart(),
    {
        self.limit - self.offset
    }

    /// Check the decoded header's template id against this message kind
    /// and position the body cursor right after the header, governed by
    /// the header's own block length and version.
    pub fn header(self, header: MessageHeaderDecoder<ReadBuf>) -> (r: SbeResult<Self>)
        requires
            header.offset + crate::message_header_codec::ENCODED_LENGTH <= usize::MAX,
        ensures
            !header.reader_ready() ==> r == Err::<Self, SbeErr>(SbeErr::ParentNotSet),
            header.reader_ready() && header.offset + 8 > header.rbytes().len() ==> r
                == Err::<Self, SbeErr>(SbeErr::IndexOutOfRange),
            header.reader_ready() && header.offset + 8 <= header.rbytes().len()
                && spec_header_fields(header.rbytes(), header.offset as int).template_id
                != SBE_TEMPLATE_ID ==> r == Err::<Self, SbeErr>(SbeErr::TemplateMismatch),
            header.reader_ready() && header.offset + 8 <= header.rbytes().len()
                && spec_header_fields(header.rbytes(), header.offset as int).template_id
                == SBE_TEMPLATE_ID ==> (r matches Ok(d) && ({
                let h = spec_header_fields(header.rbytes(), header.offset as int);
                &&& d.buf@ == header.rbytes()
                &&& d.initial_offset == crate::message_header_codec::ENCODED_LENGTH
                &&& d.offset == crate::message_header_codec::ENCODED_LENGTH
                &&& d.limit == crate::message_header_codec::ENCODED_LENGTH + h.block_length
                &&& d.acting_block_length == h.block_length
                &&& d.acting_version == h.version
            })),
    {
        let bl = match header.block_length() {
            Ok(v) => v,
            Err(e) => { return Err(e); },
        };
        let tid = match header.template_id() {
            Ok(v) => v,
            Err(e) => { return Err(e); },
        };
        let ver = match header.version() {
            Ok(v) => v,
            Err(e) => { return Err(e); },
        };
        if tid != SBE_TEMPLATE_ID {
            return Err(SbeErr::TemplateMismatch);
        }
        let mut hd = header;
        let buf = match hd.parent() {
            Ok(b) => b,
            Err(e) => { return Err(e); },
        };
        Ok(self.wrap(buf, crate::message_header_codec::ENCODED_LENGTH, bl, ver))
    }

    /// Absent when the acting block ends before this field: the null
    /// sentinel is returned without reading.
    pub fn comp_id(&self) -> (r: SbeResult<u32>)
        requires
            self.offset + SBE_BLOCK_LENGTH <= usize::MAX,
        ensures
            self.acting_block_length >= 4 ==> spec_get_post(
                true, self.buf@, self.offset as int, 4, r,
                vstd::bytes::spec_u32_from_le_bytes(self.buf@.subrange(self.offset as int, self.offset + 4))),
            self.acting_block_length < 4 ==> r == Ok::<u32, SbeErr>(u32::MAX),
    {
        if (self.acting_block_length as usize) < 4 {
            return Ok(u32::MAX);
        }
        let index = self.offset;
        self.buf.get_u32_at(index)
    }

    /// Absent when the acting block ends before this field: the null
    /// sentinel is returned without reading.
    pub fn instrument_id(&self) -> (r: SbeResult<u32>)
        requires
            self.offset + SBE_BLOCK_LENGTH <= usize::MAX,
        ensures
            self.acting_block_length >= 8 ==> spec_get_post(
                true, self.buf@, self.offset + 4, 4, r,
                vstd::bytes::spec_u32_from_le_bytes(self.buf@.subrange(self.offset + 4, self.offset + 8))),
            self.acting_block_length < 8 ==> r == Ok::<u32, SbeErr>(u32::MAX),
    {
        if (self.acting_block_length as usize) < 8 {
            return Ok(u32::MAX);
        }
        let index = self.offset + 4;
        self.buf.get_u32_at(index)
    }


}


/// Encodes the repeating bid group: opening it writes the 2-byte
/// dimension header at the enclosing cursor's limit, and each advance
/// reserves one fixed-size element. The group holds the enclosing frame
/// until it is handed back through `parent`.
pub struct BidsEncoder<P> {
    pub parent: Option<P>,
    pub count: u8,
    pub index: Option<u8>,
    pub offset: usize,
    pub initial_limit: usize,
}

impl<P: Writer> Writer for BidsEncoder<P> {
    open spec fn writer_ready(&self) -> bool {
        match self.parent {
            Some(p) => p.writer_ready(),
            None => false,
        }
    }

    open spec fn wbytes(&self) -> Seq<u8> {
        match self.parent {
            Some(p) => p.wbytes(),
            None => Seq::empty(),
        }
    }

    open spec fn wstart(&self) -> int {
        match self.parent {
            Some(p) => p.wstart(),
            None => 0,
        }
    }

    open spec fn wlimit(&self) -> int {
        match self.parent {
            Some(p) => p.wlimit(),
            None => 0,
        }
    }

    fn put_u8_at(&mut self, index: usize, value: u8) -> (r: SbeResult<()>) {
        match &mut self.parent {
            Some(p) => p.put_u8_at(index, value),
            None => Err(SbeErr::ParentNotSet),
        }
    }

    fn put_u16_at(&mut self, index: usize, value: u16) -> (r: SbeResult<()>) {
        match &mut self.parent {
            Some(p) => p.put_u16_at(index, value),
            None => Err(SbeErr::ParentNotSet),
        }
    }

    fn put_u32_at(&mut self, index: usize, value: u32) -> (r: SbeResult<()>) {
        match &mut self.parent {
            Some(p) => p.put_u32_at(index, value),
            None => Err(SbeErr::ParentNotSet),
        }
    }

    fn put_u64_at(&mut self, index: usize, value: u64) -> (r: SbeResult<()>) {
        match &mut self.parent {
            Some(p) => p.put_u64_at(index, value),
            None => Err(SbeErr::ParentNotSet),
        }
    }

    fn put_i64_at(&mut self, index: usize, value: i64) -> (r: SbeResult<()>) {
        match &mut self.parent {
            Some(p) => p.put_i64_at(index, value),
            None => Err(SbeErr::ParentNotSet),
        }
    }
}

impl<P: Encoder> Encoder for BidsEncoder<P> {
    fn get_limit(&self) -> (r: SbeResult<usize>) {
        match &self.parent {
            Some(p) => p.get_limit(),
            None => Err(SbeErr::ParentNotSet),
        }
    }

    fn set_limit(&mut self, limit: usize) -> (r: SbeResult<()>) {
        match &mut self.parent {
            Some(p) => p.set_limit(limit),
            None => Err(SbeErr::ParentNotSet),
        }
    }
}

impl<P: Encoder> BidsEncoder<P> {
    /// The group's view as the repeating-group protocol model.
    pub open spec fn spec_group_state(&self) -> GroupState {
        GroupState {
            count: self.count as int,
            index: match self.index {
                None => None,
                Some(i) => Some(i as int),
            },
            limit: self.wlimit(),
            block_length: 29,
        }
    }

    /// Byte size of one element of this group.
    pub fn block_length() -> (r: u8)
        ensures
            r == 29,
    {
        29
    }

    /// Open the group over the enclosing cursor: write the dimension
    /// header `(element block length, count)` at the current limit and
    /// advance the limit past it.
    pub fn wrap(self, parent: P, count: u8) -> (r: SbeResult<Self>)
        ensures
            !parent.writer_ready() ==> r == Err::<Self, SbeErr>(SbeErr::ParentNotSet),
            parent.writer_ready() && parent.wlimit() + 2 > usize::MAX ==> r
                == Err::<Self, SbeErr>(SbeErr::IndexOutOfRange),
            parent.writer_ready() && parent.wlimit() + 2 <= usize::MAX
                && parent.wlimit() + 2 > parent.wbytes().len() ==> r
                == Err::<Self, SbeErr>(SbeErr::IndexOutOfRange),
            parent.writer_ready() && parent.wlimit() + 2 <= usize::MAX
                && parent.wlimit() + 2 <= parent.wbytes().len() ==> (r matches Ok(g)
                && (g.parent matches Some(p)
                    && p.writer_ready()
                    && p.wbytes() == crate::spec_write_bytes(
                        parent.wbytes(), parent.wlimit(), seq![29u8, count])
                    && p.wstart() == parent.wstart()
                    && p.wlimit() == parent.wlimit() + 2)
                && g.count == count
                && g.index is None
                && g.offset == usize::MAX
                && g.initial_limit == parent.wlimit()
                && g.spec_group_state() == spec_group_open(parent.wlimit(), count as int, 29)),
    {
        let mut p = parent;
        let initial_limit = match p.get_limit() {
            Ok(l) => l,
            Err(e) => { return Err(e); },
        };
        let limit2 = match initial_limit.checked_add(2) {
            Some(l) => l,
            None => { return Err(SbeErr::IndexOutOfRange); },
        };
        match p.put_u8_at(initial_limit, 29) {
            Ok(()) => (),
            Err(e) => { return Err(e); },
        }
        match p.put_u8_at(initial_limit + 1, count) {
            Ok(()) => (),
            Err(e) => { return Err(e); },
        }
        match p.set_limit(limit2) {
            Ok(()) => (),
            Err(e) => { return Err(e); },
        }
        proof {
            assert_seqs_equal!(p.wbytes() == crate::spec_write_bytes(
                parent.wbytes(), parent.wlimit(), seq![29u8, count]));
        }
        Ok(BidsEncoder {
            parent: Some(p),
            count,
            index: None,
            offset: usize::MAX,
            initial_limit,
        })
    }

    /// Hand the enclosing frame back; single-use.
    pub fn parent(&mut self) -> (r: SbeResult<P>)
        ensures
            final(self).count == old(self).count,
            final(self).index == old(self).index,
            final(self).offset == old(self).offset,
            final(self).initial_limit == old(self).initial_limit,
            (final(self).parent, r) == spec_reclaim(old(self).parent),
    {
        match self.parent.take() {
            Some(p) => Ok(p),
            None => Err(SbeErr::ParentNotSet),
        }
    }

    /// Move to the next element: past the last one this returns the end
    /// signal and changes nothing; otherwise it records the element's
    /// offset at the current limit and reserves one element block.
    pub fn advance(&mut self) -> (r: SbeResult<Option<usize>>)
        ensures
            final(self).count == old(self).count,
            final(self).initial_limit == old(self).initial_limit,
            spec_next_index(old(self).spec_group_state()) >= old(self).count ==> r
                == Ok::<Option<usize>, SbeErr>(None) && *final(self) == *old(self),
            spec_next_index(old(self).spec_group_state()) < old(self).count
                && old(self).parent is None ==> r == Err::<Option<usize>, SbeErr>(
                SbeErr::ParentNotSet) && *final(self) == *old(self),
            spec_next_index(old(self).spec_group_state()) < old(self).count ==> (old(
                self).parent matches Some(p) ==> {
                &&& !p.writer_ready() ==> r == Err::<Option<usize>, SbeErr>(SbeErr::ParentNotSet)
                    && *final(self) == *old(self)
                &&& p.writer_ready() && p.wlimit() + 29 > usize::MAX ==> r == Err::<
                    Option<usize>, SbeErr>(SbeErr::IndexOutOfRange) && *final(self) == *old(self)
                &&& p.writer_ready() && p.wlimit() + 29 <= usize::MAX ==> (r == Ok::<
                    Option<usize>, SbeErr>(
                    Some(spec_next_index(old(self).spec_group_state()) as usize))
                    && final(self).offset == p.wlimit()
                    && (final(self).parent matches Some(p2)
                        && p2.writer_ready()
                        && p2.wbytes() == p.wbytes()
                        && p2.wstart() == p.wstart()
                        && p2.wlimit() == p.wlimit() + 29)
                    && final(self).spec_group_state() == spec_group_advance(
                        old(self).spec_group_state()).0)
            }),
    {
        let next: usize = match self.index {
            None => 0,
            Some(i) => (i as usize) + 1,
        };
        if next >= self.count as usize {
            return Ok(None);
        }
        match &mut self.parent {
            Some(p) => {
                let l = match p.get_limit() {
                    Ok(l) => l,
                    Err(e) => { return Err(e); },
                };
                let l2 = match l.checked_add(29) {
                    Some(x) => x,
                    None => { return Err(SbeErr::IndexOutOfRange); },
                };
                match p.set_limit(l2) {
                    Ok(()) => (),
                    Err(e) => { return Err(e); },
                }
                self.offset = l;
                self.index = Some(next as u8);
                Ok(Some(next))
            },
            None => Err(SbeErr::ParentNotSet),
        }
    }

    /// The composite codec over the current element's offset.
    pub fn bid_encoder(self) -> (r: PriceLevelIncrementEncoder<Self>)
        ensures
            r.parent == Some(self),
            r.offset == self.offset,
    {
        let offset = self.offset;
        PriceLevelIncrementEncoder { parent: None, offset: 0 }.wrap(self, offset)
    }
}

/// Decodes the repeating bid group: opening it reads the 2-byte
/// dimension header at the enclosing cursor's limit, and each advance
/// consumes one element of the size the header gave.
pub struct BidsDecoder<P> {
    pub parent: Option<P>,
    pub block_length: usize,
    pub acting_version: usize,
    pub count: u8,
    pub index: Option<u8>,
    pub offset: usize,
}

impl<P: Reader> Reader for BidsDecoder<P> {
    open spec fn reader_ready(&self) -> bool {
        match self.parent {
            Some(p) => p.reader_ready(),
            None => false,
        }
    }

    open spec fn rbytes(&self) -> Seq<u8> {
        match self.parent {
            Some(p) => p.rbytes(),
            None => Seq::empty(),
        }
    }

    open spec fn rstart(&self) -> int {
        match self.parent {
            Some(p) => p.rstart(),
            None => 0,
        }
    }

    open spec fn rlimit(&self) -> int {
        match self.parent {
            Some(p) => p.rlimit(),
            None => 0,
        }
    }

    fn get_u8_at(&self, index: usize) -> (r: SbeResult<u8>) {
        match &self.parent {
            Some(p) => p.get_u8_at(index),
            None => Err(SbeErr::ParentNotSet),
        }
    }

    fn get_u16_at(&self, index: usize) -> (r: SbeResult<u16>) {
        match &self.parent {
            Some(p) => p.get_u16_at(index),
            None => Err(SbeErr::ParentNotSet),
        }
    }

    fn get_u32_at(&self, index: usize) -> (r: SbeResult<u32>) {
        match &self.parent {
            Some(p) => p.get_u32_at(index),
            None => Err(SbeErr::ParentNotSet),
        }
    }

    fn get_u64_at(&self, index: usize) -> (r: SbeResult<u64>) {
        match &self.parent {
            Some(p) => p.get_u64_at(index),
            None => Err(SbeErr::ParentNotSet),
        }
    }

    fn get_i64_at(&self, index: usize) -> (r: SbeResult<i64>) {
        match &self.parent {
            Some(p) => p.get_i64_at(index),
            None => Err(SbeErr::ParentNotSet),
        }
    }
}

impl<P: Decoder> Decoder for BidsDecoder<P> {
    fn get_limit(&self) -> (r: SbeResult<usize>) {
        match &self.parent {
            Some(p) => p.get_limit(),
            None => Err(SbeErr::ParentNotSet),
        }
    }

    fn set_limit(&mut self, limit: usize) -> (r: SbeResult<()>) {
        match &mut self.parent {
            Some(p) => p.set_limit(limit),
            None => Err(SbeErr::ParentNotSet),
        }
    }
}

impl<P: Decoder> BidsDecoder<P> {
    /// The group's view as the repeating-group protocol model.
    pub open spec fn spec_group_state(&self) -> GroupState {
        GroupState {
            count: self.count as int,
            index: match self.index {
                None => None,
                Some(i) => Some(i as int),
            },
            limit: self.rlimit(),
            block_length: self.block_length as int,
        }
    }

    /// Open the group over the enclosing cursor: read the dimension
    /// header `(element block length, count)` at the current limit and
    /// advance the limit past it.
    pub fn wrap(self, parent: P, acting_version: usize) -> (r: SbeResult<Self>)
        ensures
            !parent.reader_ready() ==> r == Err::<Self, SbeErr>(SbeErr::ParentNotSet),
            parent.reader_ready() && parent.rlimit() + 2 > usize::MAX ==> r
                == Err::<Self, SbeErr>(SbeErr::IndexOutOfRange),
            parent.reader_ready() && parent.rlimit() + 2 <= usize::MAX
                && parent.rlimit() + 2 > parent.rbytes().len() ==> r == Err::<Self, SbeErr>(
                SbeErr::IndexOutOfRange),
            parent.reader_ready() && parent.rlimit() + 2 <= usize::MAX
                && parent.rlimit() + 2 <= parent.rbytes().len() ==> (r matches Ok(g)
                && (g.parent matches Some(p)
                    && p.reader_ready()
                    && p.rbytes() == parent.rbytes()
                    && p.rstart() == parent.rstart()
                    && p.rlimit() == parent.rlimit() + 2)
                && g.block_length == parent.rbytes()[parent.rlimit()]
                && g.count == parent.rbytes()[parent.rlimit() + 1]
                && g.acting_version == acting_version
                && g.index is None
                && g.offset == usize::MAX
                && g.spec_group_state() == spec_group_open(
                    parent.rlimit(), g.count as int, g.block_length as int)),
    {
        let mut p = parent;
        let initial_offset = match p.get_limit() {
            Ok(l) => l,
            Err(e) => { return Err(e); },
        };
        let limit2 = match initial_offset.checked_add(2) {
            Some(l) => l,
            None => { return Err(SbeErr::IndexOutOfRange); },
        };
        let block_length = match p.get_u8_at(initial_offset) {
            Ok(b) => b as usize,
            Err(e) => { return Err(e); },
        };
        let count = match p.get_u8_at(initial_offset + 1) {
            Ok(c) => c,
            Err(e) => { return Err(e); },
        };
        match p.set_limit(limit2) {
            Ok(()) => (),
            Err(e) => { return Err(e); },
        }
        Ok(BidsDecoder {
            parent: Some(p),
            block_length,
            acting_version,
            count,
            index: None,
            offset: usize::MAX,
        })
    }

    /// Hand the enclosing frame back; single-use.
    pub fn parent(&mut self) -> (r: SbeResult<P>)
        ensures
            final(self).count == old(self).count,
            final(self).index == old(self).index,
            final(self).offset == old(self).offset,
            final(self).block_length == old(self).block_length,
            final(self).acting_version == old(self).acting_version,
            (final(self).parent, r) == spec_reclaim(old(self).parent),
    {
        match self.parent.take() {
            Some(p) => Ok(p),
            None => Err(SbeErr::ParentNotSet),
        }
    }

    /// The element count read from the dimension header.
    pub fn count(&self) -> (r: u8)
        ensures
            r == self.count,
    {
        self.count
    }

    /// Move to the next element: past the last one this returns the end
    /// signal and changes nothing; otherwise it records the element's
    /// offset at the current limit and consumes one element block.
    pub fn advance(&mut self) -> (r: SbeResult<Option<usize>>)
        ensures
            final(self).count == old(self).count,
            final(self).block_length == old(self).block_length,
            final(self).acting_version == old(self).acting_version,
            spec_next_index(old(self).spec_group_state()) >= old(self).count ==> r
                == Ok::<Option<usize>, SbeErr>(None) && *final(self) == *old(self),
            spec_next_index(old(self).spec_group_state()) < old(self).count
                && old(self).parent is None ==> r == Err::<Option<usize>, SbeErr>(
                SbeErr::ParentNotSet) && *final(self) == *old(self),
            spec_next_index(old(self).spec_group_state()) < old(self).count ==> (old(
                self).parent matches Some(p) ==> {
                &&& !p.reader_ready() ==> r == Err::<Option<usize>, SbeErr>(SbeErr::ParentNotSet)
                    && *final(self) == *old(self)
                &&& p.reader_ready() && p.rlimit() + old(self).block_length > usize::MAX ==> r
                    == Err::<Option<usize>, SbeErr>(SbeErr::IndexOutOfRange) && *final(self)
                    == *old(self)
                &&& p.reader_ready() && p.rlimit() + old(self).block_length <= usize::MAX ==> (r
                    == Ok::<Option<usize>, SbeErr>(
                    Some(spec_next_index(old(self).spec_group_state()) as usize))
                    && final(self).offset == p.rlimit()
                    && (final(self).parent matches Some(p2)
                        && p2.reader_ready()
                        && p2.rbytes() == p.rbytes()
                        && p2.rstart() == p.rstart()
                        && p2.rlimit() == p.rlimit() + old(self).block_length)
                    && final(self).spec_group_state() == spec_group_advance(
                        old(self).spec_group_state()).0)
            }),
    {
        let next: usize = match self.index {
            None => 0,
            Some(i) => (i as usize) + 1,
        };
        if next >= self.count as usize {
            return Ok(None);
        }
        let block_length = self.block_length;
        match &mut self.parent {
            Some(p) => {
                let l = match p.get_limit() {
                    Ok(l) => l,
                    Err(e) => { return Err(e); },
                };
                let l2 = match l.checked_add(block_length) {
                    Some(x) => x,
                    None => { return Err(SbeErr::IndexOutOfRange); },
                };
                match p.set_limit(l2) {
                    Ok(()) => (),
                    Err(e) => { return Err(e); },
                }
                self.offset = l;
                self.index = Some(next as u8);
                Ok(Some(next))
            },
            None => Err(SbeErr::ParentNotSet),
        }
    }

    /// The composite codec over the current element's offset, governed by
    /// the element block length the wire's dimension header declared.
    pub fn bid_decoder(self) -> (r: PriceLevelIncrementDecoder<Self>)
        ensures
            r.parent == Some(self),
            r.offset == self.offset,
            r.acting_block_length == self.block_length,
    {
        let offset = self.offset;
        let acting_block_length = self.block_length;
        PriceLevelIncrementDecoder { parent: None, offset: 0, acting_block_length: 0 }.wrap(
            self, offset, acting_block_length)
    }
}

/// Encodes the repeating offer group: opening it writes the 2-byte
/// dimension header at the enclosing cursor's limit, and each advance
/// reserves one fixed-size element. The group holds the enclosing frame
/// until it is handed back through `parent`.
pub struct OffersEncoder<P> {
    pub parent: Option<P>,
    pub count: u8,
    pub index: Option<u8>,
    pub offset: usize,
    pub initial_limit: usize,
}

impl<P: Writer> Writer for OffersEncoder<P> {
    open spec fn writer_ready(&self) -> bool {
        match self.parent {
            Some(p) => p.writer_ready(),
            None => false,
        }
    }

    open spec fn wbytes(&self) -> Seq<u8> {
        match self.parent {
            Some(p) => p.wbytes(),
            None => Seq::empty(),
        }
    }

    open spec fn wstart(&self) -> int {
        match self.parent {
            Some(p) => p.wstart(),
            None => 0,
        }
    }

    open spec fn wlimit(&self) -> int {
        match self.parent {
            Some(p) => p.wlimit(),
            None => 0,
        }
    }

    fn put_u8_at(&mut self, index: usize, value: u8) -> (r: SbeResult<()>) {
        match &mut self.parent {
            Some(p) => p.put_u8_at(index, value),
            None => Err(SbeErr::ParentNotSet),
        }
    }

    fn put_u16_at(&mut self, index: usize, value: u16) -> (r: SbeResult<()>) {
        match &mut self.parent {
            Some(p) => p.put_u16_at(index, value),
            None => Err(SbeErr::ParentNotSet),
        }
    }

    fn put_u32_at(&mut self, index: usize, value: u32) -> (r: SbeResult<()>) {
        match &mut self.parent {
            Some(p) => p.put_u32_at(index, value),
            None => Err(SbeErr::ParentNotSet),
        }
    }

    fn put_u64_at(&mut self, index: usize, value: u64) -> (r: SbeResult<()>) {
        match &mut self.parent {
            Some(p) => p.put_u64_at(index, value),
            None => Err(SbeErr::ParentNotSet),
        }
    }

    fn put_i64_at(&mut self, index: usize, value: i64) -> (r: SbeResult<()>) {
        match &mut self.parent {
            Some(p) => p.put_i64_at(index, value),
            None => Err(SbeErr::ParentNotSet),
        }
    }
}

impl<P: Encoder> Encoder for OffersEncoder<P> {
    fn get_limit(&self) -> (r: SbeResult<usize>) {
        match &self.parent {
            Some(p) => p.get_limit(),
            None => Err(SbeErr::ParentNotSet),
        }
    }

    fn set_limit(&mut self, limit: usize) -> (r: SbeResult<()>) {
        match &mut self.parent {
            Some(p) => p.set_limit(limit),
            None => Err(SbeErr::ParentNotSet),
        }
    }
}

impl<P: Encoder> OffersEncoder<P> {
    /// The group's view as the repeating-group protocol model.
    pub open spec fn spec_group_state(&self) -> GroupState {
        GroupState {
            count: self.count as int,
            index: match self.index {
                None => None,
                Some(i) => Some(i as int),
            },
            limit: self.wlimit(),
            block_length: 29,
        }
    }

    /// Byte size of one element of this group.
    pub fn block_length() -> (r: u8)
        ensures
            r == 29,
    {
        29
    }

    /// Open the group over the enclosing cursor: write the dimension
    /// header `(element block length, count)` at the current limit and
    /// advance the limit past it.
    pub fn wrap(self, parent: P, count: u8) -> (r: SbeResult<Self>)
        ensures
            !parent.writer_ready() ==> r == Err::<Self, SbeErr>(SbeErr::ParentNotSet),
            parent.writer_ready() && parent.wlimit() + 2 > usize::MAX ==> r
                == Err::<Self, SbeErr>(SbeErr::IndexOutOfRange),
            parent.writer_ready() && parent.wlimit() + 2 <= usize::MAX
                && parent.wlimit() + 2 > parent.wbytes().len() ==> r
                == Err::<Self, SbeErr>(SbeErr::IndexOutOfRange),
            parent.writer_ready() && parent.wlimit() + 2 <= usize::MAX
                && parent.wlimit() + 2 <= parent.wbytes().len() ==> (r matches Ok(g)
                && (g.parent matches Some(p)
                    && p.writer_ready()
                    && p.wbytes() == crate::spec_write_bytes(
                        parent.wbytes(), parent.wlimit(), seq![29u8, count])
                    && p.wstart() == parent.wstart()
                    && p.wlimit() == parent.wlimit() + 2)
                && g.count == count
                && g.index is None
                && g.offset == usize::MAX
                && g.initial_limit == parent.wlimit()
                && g.spec_group_state() == spec_group_open(parent.wlimit(), count as int, 29)),
    {
        let mut p = parent;
        let initial_limit = match p.get_limit() {
            Ok(l) => l,
            Err(e) => { return Err(e); },
        };
        let limit2 = match initial_limit.checked_add(2) {
            Some(l) => l,
            None => { return Err(SbeErr::IndexOutOfRange); },
        };
        match p.put_u8_at(initial_limit, 29) {
            Ok(()) => (),
            Err(e) => { return Err(e); },
        }
        match p.put_u8_at(initial_limit + 1, count) {
            Ok(()) => (),
            Err(e) => { return Err(e); },
        }
        match p.set_limit(limit2) {
            Ok(()) => (),
            Err(e) => { return Err(e); },
        }
        proof {
            assert_seqs_equal!(p.wbytes() == crate::spec_write_bytes(
                parent.wbytes(), parent.wlimit(), seq![29u8, count]));
        }
        Ok(OffersEncoder {
            parent: Some(p),
            count,
            index: None,
            offset: usize::MAX,
            initial_limit,
        })
    }

    /// Hand the enclosing frame back; single-use.
    pub fn parent(&mut self) -> (r: SbeResult<P>)
        ensures
            final(self).count == old(self).count,
            final(self).index == old(self).index,
            final(self).offset == old(self).offset,
            final(self).initial_limit == old(self).initial_limit,
            (final(self).parent, r) == spec_reclaim(old(self).parent),
    {
        match self.parent.take() {
            Some(p) => Ok(p),
            None => Err(SbeErr::ParentNotSet),
        }
    }

    /// Move to the next element: past the last one this returns the end
    /// signal and changes nothing; otherwise it records the element's
    /// offset at the current limit and reserves one element block.
    pub fn advance(&mut self) -> (r: SbeResult<Option<usize>>)
        ensures
            final(self).count == old(self).count,
            final(self).initial_limit == old(self).initial_limit,
            spec_next_index(old(self).spec_group_state()) >= old(self).count ==> r
                == Ok::<Option<usize>, SbeErr>(None) && *final(self) == *old(self),
            spec_next_index(old(self).spec_group_state()) < old(self).count
                && old(self).parent is None ==> r == Err::<Option<usize>, SbeErr>(
                SbeErr::ParentNotSet) && *final(self) == *old(self),
            spec_next_index(old(self).spec_group_state()) < old(self).count ==> (old(
                self).parent matches Some(p) ==> {
                &&& !p.writer_ready() ==> r == Err::<Option<usize>, SbeErr>(SbeErr::ParentNotSet)
                    && *final(self) == *old(self)
                &&& p.writer_ready() && p.wlimit() + 29 > usize::MAX ==> r == Err::<
                    Option<usize>, SbeErr>(SbeErr::IndexOutOfRange) && *final(self) == *old(self)
                &&& p.writer_ready() && p.wlimit() + 29 <= usize::MAX ==> (r == Ok::<
                    Option<usize>, SbeErr>(
                    Some(spec_next_index(old(self).spec_group_state()) as usize))
                    && final(self).offset == p.wlimit()
                    && (final(self).parent matches Some(p2)
                        && p2.writer_ready()
                        && p2.wbytes() == p.wbytes()
                        && p2.wstart() == p.wstart()
                        && p2.wlimit() == p.wlimit() + 29)
                    && final(self).spec_group_state() == spec_group_advance(
                        old(self).spec_group_state()).0)
            }),
    {
        let next: usize = match self.index {
            None => 0,
            Some(i) => (i as usize) + 1,
        };
        if next >= self.count as usize {
            return Ok(None);
        }
        match &mut self.parent {
            Some(p) => {
                let l = match p.get_limit() {
                    Ok(l) => l,
                    Err(e) => { return Err(e); },
                };
                let l2 = match l.checked_add(29) {
                    Some(x) => x,
                    None => { return Err(SbeErr::IndexOutOfRange); },
                };
                match p.set_limit(l2) {
                    Ok(()) => (),
                    Err(e) => { return Err(e); },
                }
                self.offset = l;
                self.index = Some(next as u8);
                Ok(Some(next))
            },
            None => Err(SbeErr::ParentNotSet),
        }
    }

    /// The composite codec over the current element's offset.
    pub fn offer_encoder(self) -> (r: PriceLevelIncrementEncoder<Self>)
        ensures
            r.parent == Some(self),
            r.offset == self.offset,
    {
        let offset = self.offset;
        PriceLevelIncrementEncoder { parent: None, offset: 0 }.wrap(self, offset)
    }
}

/// Decodes the repeating offer group: opening it reads the 2-byte
/// dimension header at the enclosing cursor's limit, and each advance
/// consumes one element of the size the header gave.
pub struct OffersDecoder<P> {
    pub parent: Option<P>,
    pub block_length: usize,
    pub acting_version: usize,
    pub count: u8,
    pub index: Option<u8>,
    pub offset: usize,
}

impl<P: Reader> Reader for OffersDecoder<P> {
    open spec fn reader_ready(&self) -> bool {
        match self.parent {
            Some(p) => p.reader_ready(),
            None => false,
        }
    }

    open spec fn rbytes(&self) -> Seq<u8> {
        match self.parent {
            Some(p) => p.rbytes(),
            None => Seq::empty(),
        }
    }

    open spec fn rstart(&self) -> int {
        match self.parent {
            Some(p) => p.rstart(),
            None => 0,
        }
    }

    open spec fn rlimit(&self) -> int {
        match self.parent {
            Some(p) => p.rlimit(),
            None => 0,
        }
    }

    fn get_u8_at(&self, index: usize) -> (r: SbeResult<u8>) {
        match &self.parent {
            Some(p) => p.get_u8_at(index),
            None => Err(SbeErr::ParentNotSet),
        }
    }

    fn get_u16_at(&self, index: usize) -> (r: SbeResult<u16>) {
        match &self.parent {
            Some(p) => p.get_u16_at(index),
            None => Err(SbeErr::ParentNotSet),
        }
    }

    fn get_u32_at(&self, index: usize) -> (r: SbeResult<u32>) {
        match &self.parent {
            Some(p) => p.get_u32_at(index),
            None => Err(SbeErr::ParentNotSet),
        }
    }

    fn get_u64_at(&self, index: usize) -> (r: SbeResult<u64>) {
        match &self.parent {
            Some(p) => p.get_u64_at(index),
            None => Err(SbeErr::ParentNotSet),
        }
    }

    fn get_i64_at(&self, index: usize) -> (r: SbeResult<i64>) {
        match &self.parent {
            Some(p) => p.get_i64_at(index),
            None => Err(SbeErr::ParentNotSet),
        }
    }
}

impl<P: Decoder> Decoder for OffersDecoder<P> {
    fn get_limit(&self) -> (r: SbeResult<usize>) {
        match &self.parent {
            Some(p) => p.get_limit(),
            None => Err(SbeErr::ParentNotSet),
        }
    }

    fn set_limit(&mut self, limit: usize) -> (r: SbeResult<()>) {
        match &mut self.parent {
            Some(p) => p.set_limit(limit),
            None => Err(SbeErr::ParentNotSet),
        }
    }
}

impl<P: Decoder> OffersDecoder<P> {
    /// The group's view as the repeating-group protocol model.
    pub open spec fn spec_group_state(&self) -> GroupState {
        GroupState {
            count: self.count as int,
            index: match self.index {
                None => None,
                Some(i) => Some(i as int),
            },
            limit: self.rlimit(),
            block_length: self.block_length as int,
        }
    }

    /// Open the group over the enclosing cursor: read the dimension
    /// header `(element block length, count)` at the current limit and
    /// advance the limit past it.
    pub fn wrap(self, parent: P, acting_version: usize) -> (r: SbeResult<Self>)
        ensures
            !parent.reader_ready() ==> r == Err::<Self, SbeErr>(SbeErr::ParentNotSet),
            parent.reader_ready() && parent.rlimit() + 2 > usize::MAX ==> r
                == Err::<Self, SbeErr>(SbeErr::IndexOutOfRange),
            parent.reader_ready() && parent.rlimit() + 2 <= usize::MAX
                && parent.rlimit() + 2 > parent.rbytes().len() ==> r == Err::<Self, SbeErr>(
                SbeErr::IndexOutOfRange),
            parent.reader_ready() && parent.rlimit() + 2 <= usize::MAX
                && parent.rlimit() + 2 <= parent.rbytes().len() ==> (r matches Ok(g)
                && (g.parent matches Some(p)
                    && p.reader_ready()
                    && p.rbytes() == parent.rbytes()
                    && p.rstart() == parent.rstart()
                    && p.rlimit() == parent.rlimit() + 2)
                && g.block_length == parent.rbytes()[parent.rlimit()]
                && g.count == parent.rbytes()[parent.rlimit() + 1]
                && g.acting_version == acting_version
                && g.index is None
                && g.offset == usize::MAX
                && g.spec_group_state() == spec_group_open(
                    parent.rlimit(), g.count as int, g.block_length as int)),
    {
        let mut p = parent;
        let initial_offset = match p.get_limit() {
            Ok(l) => l,
            Err(e) => { return Err(e); },
        };
        let limit2 = match initial_offset.checked_add(2) {
            Some(l) => l,
            None => { return Err(SbeErr::IndexOutOfRange); },
        };
        let block_length = match p.get_u8_at(initial_offset) {
            Ok(b) => b as usize,
            Err(e) => { return Err(e); },
        };
        let count = match p.get_u8_at(initial_offset + 1) {
            Ok(c) => c,
            Err(e) => { return Err(e); },
        };
        match p.set_limit(limit2) {
            Ok(()) => (),
            Err(e) => { return Err(e); },
        }
        Ok(OffersDecoder {
            parent: Some(p),
            block_length,
            acting_version,
            count,
            index: None,
            offset: usize::MAX,
        })
    }

    /// Hand the enclosing frame back; single-use.
    pub fn parent(&mut self) -> (r: SbeResult<P>)
        ensures
            final(self).count == old(self).count,
            final(self).index == old(self).index,
            final(self).offset == old(self).offset,
            final(self).block_length == old(self).block_length,
            final(self).acting_version == old(self).acting_version,
            (final(self).parent, r) == spec_reclaim(old(self).parent),
    {
        match self.parent.take() {
            Some(p) => Ok(p),
            None => Err(SbeErr::ParentNotSet),
        }
    }

    /// The element count read from the dimension header.
    pub fn count(&self) -> (r: u8)
        ensures
            r == self.count,
    {
        self.count
    }

    /// Move to the next element: past the last one this returns the end
    /// signal and changes nothing; otherwise it records the element's
    /// offset at the current limit and consumes one element block.
    pub fn advance(&mut self) -> (r: SbeResult<Option<usize>>)
        ensures
            final(self).count == old(self).count,
            final(self).block_length == old(self).block_length,
            final(self).acting_version == old(self).acting_version,
            spec_next_index(old(self).spec_group_state()) >= old(self).count ==> r
                == Ok::<Option<usize>, SbeErr>(None) && *final(self) == *old(self),
            spec_next_index(old(self).spec_group_state()) < old(self).count
                && old(self).parent is None ==> r == Err::<Option<usize>, SbeErr>(
                SbeErr::ParentNotSet) && *final(self) == *old(self),
            spec_next_index(old(self).spec_group_state()) < old(self).count ==> (old(
                self).parent matches Some(p) ==> {
                &&& !p.reader_ready() ==> r == Err::<Option<usize>, SbeErr>(SbeErr::ParentNotSet)
                    && *final(self) == *old(self)
                &&& p.reader_ready() && p.rlimit() + old(self).block_length > usize::MAX ==> r
                    == Err::<Option<usize>, SbeErr>(SbeErr::IndexOutOfRange) && *final(self)
                    == *old(self)
                &&& p.reader_ready() && p.rlimit() + old(self).block_length <= usize::MAX ==> (r
                    == Ok::<Option<usize>, SbeErr>(
                    Some(spec_next_index(old(self).spec_group_state()) as usize))
                    && final(self).offset == p.rlimit()
                    && (final(self).parent matches Some(p2)
                        && p2.reader_ready()
                        && p2.rbytes() == p.rbytes()
                        && p2.rstart() == p.rstart()
                        && p2.rlimit() == p.rlimit() + old(self).block_length)
                    && final(self).spec_group_state() == spec_group_advance(
                        old(self).spec_group_state()).0)
            }),
    {
        let next: usize = match self.index {
            None => 0,
            Some(i) => (i as usize) + 1,
        };
        if next >= self.count as usize {
            return Ok(None);
        }
        let block_length = self.block_length;
        match &mut self.parent {
            Some(p) => {
                let l = match p.get_limit() {
                    Ok(l) => l,
                    Err(e) => { return Err(e); },
                };
                let l2 = match l.checked_add(block_length) {
                    Some(x) => x,
                    None => { return Err(SbeErr::IndexOutOfRange); },
                };
                match p.set_limit(l2) {
                    Ok(()) => (),
                    Err(e) => { return Err(e); },
                }
                self.offset = l;
                self.index = Some(next as u8);
                Ok(Some(next))
            },
            None => Err(SbeErr::ParentNotSet),
        }
    }

    /// The composite codec over the current element's offset, governed by
    /// the element block length the wire's dimension header declared.
    pub fn offer_decoder(self) -> (r: PriceLevelIncrementDecoder<Self>)
        ensures
            r.parent == Some(self),
            r.offset == self.offset,
            r.acting_block_length == self.block_length,
    {
        let offset = self.offset;
        let acting_block_length = self.block_length;
        PriceLevelIncrementDecoder { parent: None, offset: 0, acting_block_length: 0 }.wrap(
            self, offset, acting_block_length)
    }
}

impl PriceIncrementEncoder {
    /// Open the bids group with `count` elements.
    pub fn bids_encoder(self, count: u8, bids_encoder: BidsEncoder<Self>) -> (r: SbeResult<
        BidsEncoder<Self>,
    >)
        ensures
            self.limit + 2 > usize::MAX ==> r == Err::<BidsEncoder<Self>, SbeErr>(
                SbeErr::IndexOutOfRange),
            self.limit + 2 <= usize::MAX && self.limit + 2 > self.buf@.len() ==> r
                == Err::<BidsEncoder<Self>, SbeErr>(SbeErr::IndexOutOfRange),
            self.limit + 2 <= usize::MAX && self.limit + 2 <= self.buf@.len() ==> (r matches Ok(g)
                && (g.parent matches Some(p)
                    && p.buf@ == crate::spec_write_bytes(
                        self.buf@, self.limit as int, seq![29u8, count])
                    && p.offset == self.offset
                    && p.limit == self.limit + 2)
                && g.count == count
                && g.index is None
                && g.initial_limit == self.limit
                && g.spec_group_state() == spec_group_open(self.limit as int, count as int, 29)),
    {
        let _ = bids_encoder;
        BidsEncoder { parent: None, count: 0, index: None, offset: 0, initial_limit: 0 }.wrap(
            self, count)
    }

    /// Open the offers group with `count` elements.
    pub fn offers_encoder(self, count: u8, offers_encoder: OffersEncoder<Self>) -> (r: SbeResult<
        OffersEncoder<Self>,
    >)
        ensures
            self.limit + 2 > usize::MAX ==> r == Err::<OffersEncoder<Self>, SbeErr>(
                SbeErr::IndexOutOfRange),
            self.limit + 2 <= usize::MAX && self.limit + 2 > self.buf@.len() ==> r
                == Err::<OffersEncoder<Self>, SbeErr>(SbeErr::IndexOutOfRange),
            self.limit + 2 <= usize::MAX && self.limit + 2 <= self.buf@.len() ==> (r matches Ok(g)
                && (g.parent matches Some(p)
                    && p.buf@ == crate::spec_write_bytes(
                        self.buf@, self.limit as int, seq![29u8, count])
                    && p.offset == self.offset
                    && p.limit == self.limit + 2)
                && g.count == count
                && g.index is None
                && g.initial_limit == self.limit
                && g.spec_group_state() == spec_group_open(self.limit as int, count as int, 29)),
    {
        let _ = offers_encoder;
        OffersEncoder { parent: None, count: 0, index: None, offset: 0, initial_limit: 0 }.wrap(
            self, count)
    }
}

impl PriceIncrementDecoder {
    /// Open the bids group, reading its dimension header.
    pub fn bids_decoder(self) -> (r: SbeResult<BidsDecoder<Self>>)
        ensures
            self.limit + 2 > usize::MAX ==> r == Err::<BidsDecoder<Self>, SbeErr>(
                SbeErr::IndexOutOfRange),
            self.limit + 2 <= usize::MAX && self.limit + 2 > self.buf@.len() ==> r
                == Err::<BidsDecoder<Self>, SbeErr>(SbeErr::IndexOutOfRange),
            self.limit + 2 <= usize::MAX && self.limit + 2 <= self.buf@.len() ==> (r matches Ok(g)
                && (g.parent matches Some(p)
                    && p.buf@ == self.buf@
                    && p.offset == self.offset
                    && p.limit == self.limit + 2)
                && g.block_length == self.buf@[self.limit as int]
                && g.count == self.buf@[self.limit + 1]
                && g.acting_version == self.acting_version
                && g.index is None
                && g.spec_group_state() == spec_group_open(
                    self.limit as int, g.count as int, g.block_length as int)),
    {
        let acting_version = self.acting_version;
        BidsDecoder {
            parent: None,
            block_length: 0,
            acting_version: 0,
            count: 0,
            index: None,
            offset: 0,
        }.wrap(self, acting_version as usize)
    }

    /// Open the offers group, reading its dimension header.
    pub fn offers_decoder(self) -> (r: SbeResult<OffersDecoder<Self>>)
        ensures
            self.limit + 2 > usize::MAX ==> r == Err::<OffersDecoder<Self>, SbeErr>(
                SbeErr::IndexOutOfRange),
            self.limit + 2 <= usize::MAX && self.limit + 2 > self.buf@.len() ==> r
                == Err::<OffersDecoder<Self>, SbeErr>(SbeErr::IndexOutOfRange),
            self.limit + 2 <= usize::MAX && self.limit + 2 <= self.buf@.len() ==> (r matches Ok(g)
                && (g.parent matches Some(p)
                    && p.buf@ == self.buf@
                    && p.offset == self.offset
                    && p.limit == self.limit + 2)
                && g.block_length == self.buf@[self.limit as int]
                && g.count == self.buf@[self.limit + 1]
                && g.acting_version == self.acting_version
                && g.index is None
                && g.spec_group_state() == spec_group_open(
                    self.limit as int, g.count as int, g.block_length as int)),
    {
        let acting_version = self.acting_version;
        OffersDecoder {
            parent: None,
            block_length: 0,
            acting_version: 0,
            count: 0,
            index: None,
            offset: 0,
        }.wrap(self, acting_version as usize)
    }
}


impl Default for PriceIncrementEncoder {
    fn default() -> (r: Self)
        ensures
            r.buf@ == Seq::<u8>::empty(),
            r.initial_offset == 0,
            r.offset == 0,
            r.limit == 0,
    {
        PriceIncrementEncoder { buf: WriteBuf { data: Vec::new() }, initial_offset: 0, offset: 0, limit: 0 }
    }
}

impl Default for PriceIncrementDecoder {
    fn default() -> (r: Self)
        ensures
            r.buf@ == Seq::<u8>::empty(),
            r.initial_offset == 0,
            r.offset == 0,
            r.limit == 0,
            r.acting_block_length == 0,
            r.acting_version == 0,
    {
        PriceIncrementDecoder {
            buf: ReadBuf { data: Vec::new() },
            initial_offset: 0,
            offset: 0,
            limit: 0,
            acting_block_length: 0,
            acting_version: 0,
        }
    }
}

impl<P: Encoder> Default for BidsEncoder<P> {
    fn default() -> (r: Self)
        ensures
            r.parent is None,
            r.count == 0,
            r.index is None,
            r.offset == 0,
            r.initial_limit == 0,
    {
        BidsEncoder { parent: None, count: 0, index: None, offset: 0, initial_limit: 0 }
    }
}

impl<P: Decoder> Default for BidsDecoder<P> {
    fn default() -> (r: Self)
        ensures
            r.parent is None,
            r.block_length == 0,
            r.acting_version == 0,
            r.count == 0,
            r.index is None,
            r.offset == 0,
    {
        BidsDecoder {
            parent: None,
            block_length: 0,
            acting_version: 0,
            count: 0,
            index: None,
            offset: 0,
        }
    }
}

impl<P: Encoder> Default for OffersEncoder<P> {
    fn default() -> (r: Self)
        ensures
            r.parent is None,
            r.count == 0,
            r.index is None,
            r.offset == 0,
            r.initial_limit == 0,
    {
        OffersEncoder { parent: None, count: 0, index: None, offset: 0, initial_limit: 0 }
    }
}

impl<P: Decoder> Default for OffersDecoder<P> {
    fn default() -> (r: Self)
        ensures
            r.parent is None,
            r.block_length == 0,
            r.acting_version == 0,
            r.count == 0,
            r.index is None,
            r.offset == 0,
    {
        OffersDecoder {
            parent: None,
            block_length: 0,
            acting_version: 0,
            count: 0,
            index: None,
            offset: 0,
        }
    }
}

} // verus!
