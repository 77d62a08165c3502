//! Codec for the order-cancel request message. The price field is
//! floating-point on the wire and is not part of this codec.
use crate::Decoder;
use crate::Encoder;
use crate::ReadBuf;
use crate::Reader;
use crate::SbeErr;
use crate::SbeResult;
use crate::WriteBuf;
use crate::Writer;
use crate::message_header_codec::HeaderFields;
use crate::message_header_codec::MessageHeaderDecoder;
use crate::message_header_codec::MessageHeaderEncoder;
use crate::message_header_codec::spec_header_fields;
use crate::message_header_codec::spec_write_header;
use crate::order_side::OrderSide;
use crate::spec_get_post;
use crate::spec_put_post;
use crate::strategy::Strategy;
use vstd::prelude::*;

verus! {

pub const SBE_BLOCK_LENGTH: u16 = 55;
pub const SBE_TEMPLATE_ID: u16 = 9;
pub const SBE_SCHEMA_ID: u16 = 1;
pub const SBE_SCHEMA_VERSION: u16 = 0;

/// Owns the buffer for one encode pass; the fixed block starts at
/// `offset` and `limit` marks the end of everything written so far.
pub struct OrderCancelRequestEncoder {
    pub buf: WriteBuf,
    pub initial_offset: usize,
    pub offset: usize,
    pub limit: usize,
}

impl Writer for OrderCancelRequestEncoder {
    open spec fn writer_ready(&self) -> bool {
        true
    }

    open spec fn wbytes(&self) -> Seq<u8> {
        self.buf@
    }

    open spec fn wstart(&self) -> int {
        self.offset as int
    }

    open spec fn wlimit(&self) -> int {
        self.limit as int
    }

    fn put_u8_at(&mut self, index: usize, value: u8) -> (r: SbeResult<()>) {
        self.buf.put_u8_at(index, value)
    }

    fn put_u16_at(&mut self, index: usize, value: u16) -> (r: SbeResult<()>) {
        self.buf.put_u16_at(index, value)
    }

    fn put_u32_at(&mut self, index: usize, value: u32) -> (r: SbeResult<()>) {
        self.buf.put_u32_at(index, value)
    }

    fn put_u64_at(&mut self, index: usize, value: u64) -> (r: SbeResult<()>) {
        self.buf.put_u64_at(index, value)
    }

    fn put_i64_at(&mut self, index: usize, value: i64) -> (r: SbeResult<()>) {
        self.buf.put_i64_at(index, value)
    }
}

impl Encoder for OrderCancelRequestEncoder {
    fn get_limit(&self) -> (r: SbeResult<usize>) {
        Ok(self.limit)
    }

    fn set_limit(&mut self, limit: usize) -> (r: SbeResult<()>) {
        self.limit = limit;
        Ok(())
    }
}

impl OrderCancelRequestEncoder {
    pub fn wrap(self, buf: WriteBuf, offset: usize) -> (r: Self)
        requires
            offset + SBE_BLOCK_LENGTH <= usize::MAX,
        ensures
            r.buf@ == buf@,
            r.initial_offset == offset,
            r.offset == offset,
            r.limit == offset + SBE_BLOCK_LENGTH,
    {
        let limit = offset + (SBE_BLOCK_LENGTH as usize);
        OrderCancelRequestEncoder { buf, initial_offset: offset, offset, limit }
    }

    /// Total size of the fixed block plus all variable content so far.
    pub fn encoded_length(&self) -> (r: usize)
        requires
            self.offset <= self.limit,
        ensures
            r == self.wlimit() - self.wstart(),
    {
        self.limit - self.offset
    }

    /// Write this message kind's header preamble at `offset`, normally 0.
    pub fn header(self, offset: usize) -> (r: SbeResult<MessageHeaderEncoder<Self>>)
        requires
            offset + crate::message_header_codec::ENCODED_LENGTH <= usize::MAX,
        ensures
            offset + 8 <= self.buf@.len() ==> (r matches Ok(h)
                && h.offset == offset
                && (h.parent matches Some(e)
                    && e.offset == self.offset
                    && e.initial_offset == self.initial_offset
                    && e.limit == self.limit
                    && e.buf@ == spec_write_header(self.buf@, offset as int,
                        (HeaderFields {
                            block_length: SBE_BLOCK_LENGTH,
                            template_id: SBE_TEMPLATE_ID,
                            schema_id: SBE_SCHEMA_ID,
                            version: SBE_SCHEMA_VERSION,
                        })))),
            offset + 8 > self.buf@.len() ==> r == Err::<MessageHeaderEncoder<Self>, SbeErr>(
                SbeErr::IndexOutOfRange),
    {
        proof {
            vstd::bytes::lemma_auto_spec_u16_to_from_le_bytes();
        }
        let mut this = self;
        match this.buf.put_u16_at(offset, SBE_BLOCK_LENGTH) {
            Ok(()) => (),
            Err(e) => { return Err(e); },
        }
        match this.buf.put_u16_at(offset + 2, SBE_TEMPLATE_ID) {
            Ok(()) => (),
            Err(e) => { return Err(e); },
        }
        match this.buf.put_u16_at(offset + 4, SBE_SCHEMA_ID) {
            Ok(()) => (),
            Err(e) => { return Err(e); },
        }
        match this.buf.put_u16_at(offset + 6, SBE_SCHEMA_VERSION) {
            Ok(()) => (),
            Err(e) => { return Err(e); },
        }
        Ok(MessageHeaderEncoder { parent: None, offset: 0 }.wrap(this, offset))
    }

    pub fn orig_cl_ord_id(&mut self, value: u64) -> (r: SbeResult<()>)
        requires
            old(self).offset + SBE_BLOCK_LENGTH <= usize::MAX,
        ensures
            final(self).offset == old(self).offset,
            final(self).initial_offset == old(self).initial_offset,
            final(self).limit == old(self).limit,
            spec_put_post(
                true, old(self).buf@, final(self).buf@,
                old(self).offset as int, vstd::bytes::spec_u64_to_le_bytes(value), r),
    {
        let index = self.offset;
        self.buf.put_u64_at(index, value)
    }

    pub fn order_id(&mut self, value: u64) -> (r: SbeResult<()>)
        requires
            old(self).offset + SBE_BLOCK_LENGTH <= usize::MAX,
        ensures
            final(self).offset == old(self).offset,
            final(self).initial_offset == old(self).initial_offset,
            final(self).limit == old(self).limit,
            spec_put_post(
                true, old(self).buf@, final(self).buf@,
                old(self).offset + 8, vstd::bytes::spec_u64_to_le_bytes(value), r),
    {
        let index = self.offset + 8;
        self.buf.put_u64_at(index, value)
    }

    pub fn cl_ord_id(&mut self, value: u64) -> (r: SbeResult<()>)
        requires
            old(self).offset + SBE_BLOCK_LENGTH <= usize::MAX,
        ensures
            final(self).offset == old(self).offset,
            final(self).initial_offset == old(self).initial_offset,
            final(self).limit == old(self).limit,
            spec_put_post(
                true, old(self).buf@, final(self).buf@,
                old(self).offset + 16, vstd::bytes::spec_u64_to_le_bytes(value), r),
    {
        let index = self.offset + 16;
        self.buf.put_u64_at(index, value)
    }

    pub fn instrument_id(&mut self, value: u32) -> (r: SbeResult<()>)
        requires
            old(self).offset + SBE_BLOCK_LENGTH <= usize::MAX,
        ensures
            final(self).offset == old(self).offset,
            final(self).initial_offset == old(self).initial_offset,
            final(self).limit == old(self).limit,
            spec_put_post(
                true, old(self).buf@, final(self).buf@,
                old(self).offset + 24, vstd::bytes::spec_u32_to_le_bytes(value), r),
    {
        let index = self.offset + 24;
        self.buf.put_u32_at(index, value)
    }

    pub fn target_comp_id(&mut self, value: u32) -> (r: SbeResult<()>)
        requires
            old(self).offset + SBE_BLOCK_LENGTH <= usize::MAX,
        ensures
            final(self).offset == old(self).offset,
            final(self).initial_offset == old(self).initial_offset,
            final(self).limit == old(self).limit,
            spec_put_post(
                true, old(self).buf@, final(self).buf@,
                old(self).offset + 28, vstd::bytes::spec_u32_to_le_bytes(value), r),
    {
        let index = self.offset + 28;
        self.buf.put_u32_at(index, value)
    }

    pub fn source_comp_id(&mut self, value: u32) -> (r: SbeResult<()>)
        requires
            old(self).offset + SBE_BLOCK_LENGTH <= usize::MAX,
        ensures
            final(self).offset == old(self).offset,
            final(self).initial_offset == old(self).initial_offset,
            final(self).limit == old(self).limit,
            spec_put_post(
                true, old(self).buf@, final(self).buf@,
                old(self).offset + 32, vstd::bytes::spec_u32_to_le_bytes(value), r),
    {
        let index = self.offset + 32;
        self.buf.put_u32_at(index, value)
    }

    pub fn target_strategy(&mut self, value: Strategy) -> (r: SbeResult<()>)
        requires
            old(self).offset + SBE_BLOCK_LENGTH <= usize::MAX,
        ensures
            final(self).offset == old(self).offset,
            final(self).initial_offset == old(self).initial_offset,
            final(self).limit == old(self).limit,
            spec_put_post(
                true, old(self).buf@, final(self).buf@,
                old(self).offset + 36, seq![value.spec_to_raw()], r),
    {
        let index = self.offset + 36;
        let b = value.to_raw();
        self.buf.put_u8_at(index, b)
    }

    pub fn source_strategy(&mut self, value: Strategy) -> (r: SbeResult<()>)
        requires
            old(self).offset + SBE_BLOCK_LENGTH <= usize::MAX,
        ensures
            final(self).offset == old(self).offset,
            final(self).initial_offset == old(self).initial_offset,
            final(self).limit == old(self).limit,
            spec_put_post(
                true, old(self).buf@, final(self).buf@,
                old(self).offset + 37, seq![value.spec_to_raw()], r),
    {
        let index = self.offset + 37;
        let b = value.to_raw();
        self.buf.put_u8_at(index, b)
    }

    pub fn side(&mut self, value: OrderSide) -> (r: SbeResult<()>)
        requires
            old(self).offset + SBE_BLOCK_LENGTH <= usize::MAX,
        ensures
            final(self).offset == old(self).offset,
            final(self).initial_offset == old(self).initial_offset,
            final(self).limit == old(self).limit,
            spec_put_post(
                true, old(self).buf@, final(self).buf@,
                old(self).offset + 38, seq![value.spec_to_raw()], r),
    {
        let index = self.offset + 38;
        let b = value.to_raw();
        self.buf.put_u8_at(index, b)
    }

    pub fn transact_time(&mut self, value: u64) -> (r: SbeResult<()>)
        requires
            old(self).offset + SBE_BLOCK_LENGTH <= usize::MAX,
        ensures
            final(self).offset == old(self).offset,
            final(self).initial_offset == old(self).initial_offset,
            final(self).limit == old(self).limit,
            spec_put_post(
                true, old(self).buf@, final(self).buf@,
                old(self).offset + 47, vstd::bytes::spec_u64_to_le_bytes(value), r),
    {
        let index = self.offset + 47;
        self.buf.put_u64_at(index, value)
    }


}

/// Reads one message from a borrowed buffer; the acting block length and
/// version come from the decoded header, so a body written by an older,
/// shorter schema is recognized.
pub struct OrderCancelRequestDecoder {
    pub buf: ReadBuf,
    pub initial_offset: usize,
    pub offset: usize,
    pub limit: usize,
    pub acting_block_length: u16,
    pub acting_version: u16,
}

impl Reader for OrderCancelRequestDecoder {
    open spec fn reader_ready(&self) -> bool {
        true
    }

    open spec fn rbytes(&self) -> Seq<u8> {
        self.buf@
    }

    open spec fn rstart(&self) -> int {
        self.offset as int
    }

    open spec fn rlimit(&self) -> int {
        self.limit as int
    }

    fn get_u8_at(&self, index: usize) -> (r: SbeResult<u8>) {
        self.buf.get_u8_at(index)
    }

    fn get_u16_at(&self, index: usize) -> (r: SbeResult<u16>) {
        self.buf.get_u16_at(index)
    }

    fn get_u32_at(&self, index: usize) -> (r: SbeResult<u32>) {
        self.buf.get_u32_at(index)
    }

    fn get_u64_at(&self, index: usize) -> (r: SbeResult<u64>) {
        self.buf.get_u64_at(index)
    }

    fn get_i64_at(&self, index: usize) -> (r: SbeResult<i64>) {
        self.buf.get_i64_at(index)
    }
}

impl Decoder for OrderCancelRequestDecoder {
    fn get_limit(&self) -> (r: SbeResult<usize>) {
        Ok(self.limit)
    }

    fn set_limit(&mut self, limit: usize) -> (r: SbeResult<()>) {
        self.limit = limit;
        Ok(())
    }
}

impl OrderCancelRequestDecoder {
    pub fn wrap(
        self,
        buf: ReadBuf,
        offset: usize,
        acting_block_length: u16,
        acting_version: u16,
    ) -> (r: Self)
        requires
            offset + acting_block_length <= usize::MAX,
        ensures
            r.buf@ == buf@,
            r.initial_offset == offset,
            r.offset == offset,
            r.limit == offset + acting_block_length,
            r.acting_block_length == acting_block_length,
            r.acting_version == acting_version,
    {
        let limit = offset + (acting_block_length as usize);
        OrderCancelRequestDecoder { buf, initial_offset: offset, offset, limit, acting_block_length, acting_version }
    }

    /// Total size of the fixed block plus all variable content so far.
    pub fn encoded_length(&self) -> (r: usize)
        requires
            self.offset <= self.limit,
        ensures
            r == self.rlimit() - self.rstart(),
    {
        self.limit - self.offset
    }

    /// Check the decoded header's template id against this message kind
    /// and position the body cursor right after the header, governed by
    /// the header's own block length and version.
    pub fn header(self, header: MessageHeaderDecoder<ReadBuf>) -> (r: SbeResult<Self>)
        requires
            header.offset + crate::message_header_codec::ENCODED_LENGTH <= usize::MAX,
        ensures
            !header.reader_ready() ==> r == Err::<Self, SbeErr>(SbeErr::ParentNotSet),
            header.reader_ready() && header.offset + 8 > header.rbytes().len() ==> r
                == Err::<Self, SbeErr>(SbeErr::IndexOutOfRange),
            header.reader_ready() && header.offset + 8 <= header.rbytes().len()
                && spec_header_fields(header.rbytes(), header.offset as int).template_id
                != SBE_TEMPLATE_ID ==> r == Err::<Self, SbeErr>(SbeErr::TemplateMismatch),
            header.reader_ready() && header.offset + 8 <= header.rbytes().len()
                && spec_header_fields(header.rbytes(), header.offset as int).template_id
                == SBE_TEMPLATE_ID ==> (r matches Ok(d) && ({
                let h = spec_header_fields(header.rbytes(), header.offset as int);
                &&& d.buf@ == header.rbytes()
                &&& d.initial_offset == crate::message_header_codec::ENCODED_LENGTH
                &&& d.offset == crate::message_header_codec::ENCODED_LENGTH
                &&& d.limit == crate::message_header_codec::ENCODED_LENGTH + h.block_length
                &&& d.acting_block_length == h.block_length
                &&& d.acting_version == h.version
            })),
    {
        let bl = match header.block_length() {
            Ok(v) => v,
            Err(e) => { return Err(e); },
        };
        let tid = match header.template_id() {
            Ok(v) => v,
            Err(e) => { return Err(e); },
        };
        let ver = match header.version() {
            Ok(v) => v,
            Err(e) => { return Err(e); },
        };
        if tid != SBE_TEMPLATE_ID {
            return Err(SbeErr::TemplateMismatch);
        }
        let mut hd = header;
        let buf = match hd.parent() {
            Ok(b) => b,
            Err(e) => { return Err(e); },
        };
        Ok(self.wrap(buf, crate::message_header_codec::ENCODED_LENGTH, bl, ver))
    }

    /// Absent when the acting block ends before this field: the null
    /// sentinel is returned without reading.
    pub fn orig_cl_ord_id(&self) -> (r: SbeResult<u64>)
        requires
            self.offset + SBE_BLOCK_LENGTH <= usize::MAX,
        ensures
            self.acting_block_length >= 8 ==> spec_get_post(
                true, self.buf@, self.offset as int, 8, r,
                vstd::bytes::spec_u64_from_le_bytes(self.buf@.subrange(self.offset as int, self.offset + 8))),
            self.acting_block_length < 8 ==> r == Ok::<u64, SbeErr>(u64::MAX),
    {
        if (self.acting_block_length as usize) < 8 {
            return Ok(u64::MAX);
        }
        let index = self.offset;
        self.buf.get_u64_at(index)
    }

    /// Absent when the acting block ends before this field: the null
    /// sentinel is returned without reading.
    pub fn order_id(&self) -> (r: SbeResult<u64>)
        requires
            self.offset + SBE_BLOCK_LENGTH <= usize::MAX,
        ensures
            self.acting_block_length >= 16 ==> spec_get_post(
                true, self.buf@, self.offset + 8, 8, r,
                vstd::bytes::spec_u64_from_le_bytes(self.buf@.subrange(self.offset + 8, self.offset + 16))),
            self.acting_block_length < 16 ==> r == Ok::<u64, SbeErr>(u64::MAX),
    {
        if (self.acting_block_length as usize) < 16 {
            return Ok(u64::MAX);
        }
        let index = self.offset + 8;
        self.buf.get_u64_at(index)
    }

    /// Absent when the acting block ends before this field: the null
    /// sentinel is returned without reading.
    pub fn cl_ord_id(&self) -> (r: SbeResult<u64>)
        requires
            self.offset + SBE_BLOCK_LENGTH <= usize::MAX,
        ensures
            self.acting_block_length >= 24 ==> spec_get_post(
                true, self.buf@, self.offset + 16, 8, r,
                vstd::bytes::spec_u64_from_le_bytes(self.buf@.subrange(self.offset + 16, self.offset + 24))),
            self.acting_block_length < 24 ==> r == Ok::<u64, SbeErr>(u64::MAX),
    {
        if (self.acting_block_length as usize) < 24 {
            return Ok(u64::MAX);
        }
        let index = self.offset + 16;
        self.buf.get_u64_at(index)
    }

    /// Absent when the acting block ends before this field: the null
    /// sentinel is returned without reading.
    pub fn instrument_id(&self) -> (r: SbeResult<u32>)
        requires
            self.offset + SBE_BLOCK_LENGTH <= usize::MAX,
        ensures
            self.acting_block_length >= 28 ==> spec_get_post(
                true, self.buf@, self.offset + 24, 4, r,
                vstd::bytes::spec_u32_from_le_bytes(self.buf@.subrange(self.offset + 24, self.offset + 28))),
            self.acting_block_length < 28 ==> r == Ok::<u32, SbeErr>(u32::MAX),
    {
        if (self.acting_block_length as usize) < 28 {
            return Ok(u32::MAX);
        }
        let index = self.offset + 24;
        self.buf.get_u32_at(index)
    }

    /// Absent when the acting block ends before this field: the null
    /// sentinel is returned without reading.
    pub fn target_comp_id(&self) -> (r: SbeResult<u32>)
        requires
            self.offset + SBE_BLOCK_LENGTH <= usize::MAX,
        ensures
            self.acting_block_length >= 32 ==> spec_get_post(
                true, self.buf@, self.offset + 28, 4, r,
                vstd::bytes::spec_u32_from_le_bytes(self.buf@.subrange(self.offset + 28, self.offset + 32))),
            self.acting_block_length < 32 ==> r == Ok::<u32, SbeErr>(u32::MAX),
    {
        if (self.acting_block_length as usize) < 32 {
            return Ok(u32::MAX);
        }
        let index = self.offset + 28;
        self.buf.get_u32_at(index)
    }

    /// Absent when the acting block ends before this field: the null
    /// sentinel is returned without reading.
    pub fn source_comp_id(&self) -> (r: SbeResult<u32>)
        requires
            self.offset + SBE_BLOCK_LENGTH <= usize::MAX,
        ensures
            self.acting_block_length >= 36 ==> spec_get_post(
                true, self.buf@, self.offset + 32, 4, r,
                vstd::bytes::spec_u32_from_le_bytes(self.buf@.subrange(self.offset + 32, self.offset + 36))),
            self.acting_block_length < 36 ==> r == Ok::<u32, SbeErr>(u32::MAX),
    {
        if (self.acting_block_length as usize) < 36 {
            return Ok(u32::MAX);
        }
        let index = self.offset + 32;
        self.buf.get_u32_at(index)
    }

    /// A byte outside the defined set decodes to the null variant, and a
    /// field the acting block ends before is absent: the null variant is
    /// returned without reading.
    pub fn target_strategy(&self) -> (r: SbeResult<Strategy>)
        requires
            self.offset + SBE_BLOCK_LENGTH <= usize::MAX,
        ensures
            self.acting_block_length >= 37 ==> spec_get_post(
                true, self.buf@, self.offset + 36, 1, r,
                Strategy::spec_from_raw(self.buf@[self.offset + 36])),
            self.acting_block_length < 37 ==> r == Ok::<Strategy, SbeErr>(Strategy::NullVal),
    {
        if (self.acting_block_length as usize) < 37 {
            return Ok(Strategy::NullVal);
        }
        let index = self.offset + 36;
        match self.buf.get_u8_at(index) {
            Ok(v) => Ok(Strategy::from_raw(v)),
            Err(e) => Err(e),
        }
    }

    /// A byte outside the defined set decodes to the null variant, and a
    /// field the acting block ends before is absent: the null variant is
    /// returned without reading.
    pub fn source_strategy(&self) -> (r: SbeResult<Strategy>)
        requires
            self.offset + SBE_BLOCK_LENGTH <= usize::MAX,
        ensures
            self.acting_block_length >= 38 ==> spec_get_post(
                true, self.buf@, self.offset + 37, 1, r,
                Strategy::spec_from_raw(self.buf@[self.offset + 37])),
            self.acting_block_length < 38 ==> r == Ok::<Strategy, SbeErr>(Strategy::NullVal),
    {
        if (self.acting_block_length as usize) < 38 {
            return Ok(Strategy::NullVal);
        }
        let index = self.offset + 37;
        match self.buf.get_u8_at(index) {
            Ok(v) => Ok(Strategy::from_raw(v)),
            Err(e) => Err(e),
        }
    }

    /// A byte outside the defined set decodes to the null variant, and a
    /// field the acting block ends before is absent: the null variant is
    /// returned without reading.
    pub fn side(&self) -> (r: SbeResult<OrderSide>)
        requires
            self.offset + SBE_BLOCK_LENGTH <= usize::MAX,
        ensures
            self.acting_block_length >= 39 ==> spec_get_post(
                true, self.buf@, self.offset + 38, 1, r,
                OrderSide::spec_from_raw(self.buf@[self.offset + 38])),
            self.acting_block_length < 39 ==> r == Ok::<OrderSide, SbeErr>(OrderSide::NullVal),
    {
        if (self.acting_block_length as usize) < 39 {
            return Ok(OrderSide::NullVal);
        }
        let index = self.offset + 38;
        match self.buf.get_u8_at(index) {
            Ok(v) => Ok(OrderSide::from_raw(v)),
            Err(e) => Err(e),
        }
    }

    /// Absent when the acting block ends before this field: the null
    /// sentinel is returned without reading.
    pub fn transact_time(&self) -> (r: SbeResult<u64>)
        requires
            self.offset + SBE_BLOCK_LENGTH <= usize::MAX,
        ensures
            self.acting_block_length >= 55 ==> spec_get_post(
                true, self.buf@, self.offset + 47, 8, r,
                vstd::bytes::spec_u64_from_le_bytes(self.buf@.subrange(self.offset + 47, self.offset + 55))),
            self.acting_block_length < 55 ==> r == Ok::<u64, SbeErr>(u64::MAX),
    {
        if (self.acting_block_length as usize) < 55 {
            return Ok(u64::MAX);
        }
        let index = self.offset + 47;
        self.buf.get_u64_at(index)
    }


}


impl Default for OrderCancelRequestEncoder {
    fn default() -> (r: Self)
        ensures
            r.buf@ == Seq::<u8>::empty(),
            r.initial_offset == 0,
            r.offset == 0,
            r.limit == 0,
    {
        OrderCancelRequestEncoder { buf: WriteBuf { data: Vec::new() }, initial_offset: 0, offset: 0, limit: 0 }
    }
}

impl Default for OrderCancelRequestDecoder {
    fn default() -> (r: Self)
        ensures
            r.buf@ == Seq::<u8>::empty(),
            r.initial_offset == 0,
            r.offset == 0,
            r.limit == 0,
            r.acting_block_length == 0,
            r.acting_version == 0,
    {
        OrderCancelRequestDecoder {
            buf: ReadBuf { data: Vec::new() },
            initial_offset: 0,
            offset: 0,
            limit: 0,
            acting_block_length: 0,
            acting_version: 0,
        }
    }
}

} // verus!
