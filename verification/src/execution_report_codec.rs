//! Codec for the execution-report message: the order fields plus
//! execution identifiers, execution type, order status and reject
//! reason. The price and quantity fields are floating-point on the wire
//! and are not part of this codec.
use crate::Decoder;
use crate::Encoder;
use crate::ReadBuf;
use crate::Reader;
use crate::SbeErr;
use crate::SbeResult;
use crate::WriteBuf;
use crate::Writer;
use crate::exec_type::ExecType;
use crate::message_header_codec::HeaderFields;
use crate::message_header_codec::MessageHeaderDecoder;
use crate::message_header_codec::MessageHeaderEncoder;
use crate::message_header_codec::spec_header_fields;
use crate::message_header_codec::spec_write_header;
use crate::order_reject_reason::OrderRejectReason;
use crate::order_side::OrderSide;
use crate::order_status::OrderStatus;
use crate::order_type::OrderType;
use crate::spec_get_post;
use crate::spec_put_post;
use crate::strategy::Strategy;
use crate::time_in_force::TimeInForce;
use vstd::prelude::*;

verus! {

pub const SBE_BLOCK_LENGTH: u16 = 140;
pub const SBE_TEMPLATE_ID: u16 = 8;
pub const SBE_SCHEMA_ID: u16 = 1;
pub const SBE_SCHEMA_VERSION: u16 = 0;

/// Owns the buffer for one encode pass; the fixed block starts at
/// `offset` and `limit` marks the end of everything written so far.
pub struct ExecutionReportEncoder {
    pub buf: WriteBuf,
    pub initial_offset: usize,
    pub offset: usize,
    pub limit: usize,
}

impl Writer for ExecutionReportEncoder {
    open spec fn writer_ready(&self) -> bool {
        true
    }

    open spec fn wbytes(&self) -> Seq<u8> {
        self.buf@
    }

    open spec fn wstart(&self) -> int {
        self.offset as int
    }

    open spec fn wlimit(&self) -> int {
        self.limit as int
    }

    fn put_u8_at(&mut self, index: usize, value: u8) -> (r: SbeResult<()>) {
        self.buf.put_u8_at(index, value)
    }

    fn put_u16_at(&mut self, index: usize, value: u16) -> (r: SbeResult<()>) {
        self.buf.put_u16_at(index, value)
    }

    fn put_u32_at(&mut self, index: usize, value: u32) -> (r: SbeResult<()>) {
        self.buf.put_u32_at(index, value)
    }

    fn put_u64_at(&mut self, index: usize, value: u64) -> (r: SbeResult<()>) {
        self.buf.put_u64_at(index, value)
    }

    fn put_i64_at(&mut self, index: usize, value: i64) -> (r: SbeResult<()>) {
        self.buf.put_i64_at(index, value)
    }
}

impl Encoder for ExecutionReportEncoder {
    fn get_limit(&self) -> (r: SbeResult<usize>) {
        Ok(self.limit)
    }

    fn set_limit(&mut self, limit: usize) -> (r: SbeResult<()>) {
        self.limit = limit;
        Ok(())
    }
}

impl ExecutionReportEncoder {
    pub fn wrap(self, buf: WriteBuf, offset: usize) -> (r: Self)
        requires
            offset + SBE_BLOCK_LENGTH <= usize::MAX,
        ensures
            r.buf@ == buf@,
            r.initial_offset == offset,
            r.offset == offset,
            r.limit == offset + SBE_BLOCK_LENGTH,
    {
        let limit = offset + (SBE_BLOCK_LENGTH as usize);
        ExecutionReportEncoder { buf, initial_offset: offset, offset, limit }
    }

    /// Total size of the fixed block plus all variable content so far.
    pub fn encoded_length(&self) -> (r: usize)
        requires
            self.offset <= self.limit,
        ensures
            r == self.wlimit() - self.wstart(),
    {
        self.limit - self.offset
    }

    /// Write this message kind's header preamble at `offset`, normally 0.
    pub fn header(self, offset: usize) -> (r: SbeResult<MessageHeaderEncoder<Self>>)
        requires
            offset + crate::message_header_codec::ENCODED_LENGTH <= usize::MAX,
        ensures
            offset + 8 <= self.buf@.len() ==> (r matches Ok(h)
                && h.offset == offset
                && (h.parent matches Some(e)
                    && e.offset == self.offset
                    && e.initial_offset == self.initial_offset
                    && e.limit == self.limit
                    && e.buf@ == spec_write_header(self.buf@, offset as int,
                        (HeaderFields {
                            block_length: SBE_BLOCK_LENGTH,
                            template_id: SBE_TEMPLATE_ID,
                            schema_id: SBE_SCHEMA_ID,
                            version: SBE_SCHEMA_VERSION,
                        })))),
            offset + 8 > self.buf@.len() ==> r == Err::<MessageHeaderEncoder<Self>, SbeErr>(
                SbeErr::IndexOutOfRange),
    {
        proof {
            vstd::bytes::lemma_auto_spec_u16_to_from_le_bytes();
        }
        let mut this = self;
        match this.buf.put_u16_at(offset, SBE_BLOCK_LENGTH) {
            Ok(()) => (),
            Err(e) => { return Err(e); },
        }
        match this.buf.put_u16_at(offset + 2, SBE_TEMPLATE_ID) {
            Ok(()) => (),
            Err(e) => { return Err(e); },
        }
        match this.buf.put_u16_at(offset + 4, SBE_SCHEMA_ID) {
            Ok(()) => (),
            Err(e) => { return Err(e); },
        }
        match this.buf.put_u16_at(offset + 6, SBE_SCHEMA_VERSION) {
            Ok(()) => (),
            Err(e) => { return Err(e); },
        }
        Ok(MessageHeaderEncoder { parent: None, offset: 0 }.wrap(this, offset))
    }

    pub fn cl_ord_id(&mut self, value: u64) -> (r: SbeResult<()>)
        requires
            old(self).offset + SBE_BLOCK_LENGTH <= usize::MAX,
        ensures
            final(self).offset == old(self).offset,
            final(self).initial_offset == old(self).initial_offset,
            final(self).limit == old(self).limit,
            spec_put_post(
                true, old(self).buf@, final(self).buf@,
                old(self).offset as int, vstd::bytes::spec_u64_to_le_bytes(value), r),
    {
        let index = self.offset;
        self.buf.put_u64_at(index, value)
    }

    pub fn cl_ord_link_id(&mut self, value: u64) -> (r: SbeResult<()>)
        requires
            old(self).offset + SBE_BLOCK_LENGTH <= usize::MAX,
        ensures
            final(self).offset == old(self).offset,
            final(self).initial_offset == old(self).initial_offset,
            final(self).limit == old(self).limit,
            spec_put_post(
                true, old(self).buf@, final(self).buf@,
                old(self).offset + 8, vstd::bytes::spec_u64_to_le_bytes(value), r),
    {
        let index = self.offset + 8;
        self.buf.put_u64_at(index, value)
    }

    pub fn instrument_id(&mut self, value: u32) -> (r: SbeResult<()>)
        requires
            old(self).offset + SBE_BLOCK_LENGTH <= usize::MAX,
        ensures
            final(self).offset == old(self).offset,
            final(self).initial_offset == old(self).initial_offset,
            final(self).limit == old(self).limit,
            spec_put_post(
                true, old(self).buf@, final(self).buf@,
                old(self).offset + 16, vstd::bytes::spec_u32_to_le_bytes(value), r),
    {
        let index = self.offset + 16;
        self.buf.put_u32_at(index, value)
    }

    pub fn target_comp_id(&mut self, value: u32) -> (r: SbeResult<()>)
        requires
            old(self).offset + SBE_BLOCK_LENGTH <= usize::MAX,
        ensures
            final(self).offset == old(self).offset,
            final(self).initial_offset == old(self).initial_offset,
            final(self).limit == old(self).limit,
            spec_put_post(
                true, old(self).buf@, final(self).buf@,
                old(self).offset + 20, vstd::bytes::spec_u32_to_le_bytes(value), r),
    {
        let index = self.offset + 20;
        self.buf.put_u32_at(index, value)
    }

    pub fn source_comp_id(&mut self, value: u32) -> (r: SbeResult<()>)
        requires
            old(self).offset + SBE_BLOCK_LENGTH <= usize::MAX,
        ensures
            final(self).offset == old(self).offset,
            final(self).initial_offset == old(self).initial_offset,
            final(self).limit == old(self).limit,
            spec_put_post(
                true, old(self).buf@, final(self).buf@,
                old(self).offset + 24, vstd::bytes::spec_u32_to_le_bytes(value), r),
    {
        let index = self.offset + 24;
        self.buf.put_u32_at(index, value)
    }

    pub fn side(&mut self, value: OrderSide) -> (r: SbeResult<()>)
        requires
            old(self).offset + SBE_BLOCK_LENGTH <= usize::MAX,
        ensures
            final(self).offset == old(self).offset,
            final(self).initial_offset == old(self).initial_offset,
            final(self).limit == old(self).limit,
            spec_put_post(
                true, old(self).buf@, final(self).buf@,
                old(self).offset + 28, seq![value.spec_to_raw()], r),
    {
        let index = self.offset + 28;
        let b = value.to_raw();
        self.buf.put_u8_at(index, b)
    }

    pub fn order_type(&mut self, value: OrderType) -> (r: SbeResult<()>)
        requires
            old(self).offset + SBE_BLOCK_LENGTH <= usize::MAX,
        ensures
            final(self).offset == old(self).offset,
            final(self).initial_offset == old(self).initial_offset,
            final(self).limit == old(self).limit,
            spec_put_post(
                true, old(self).buf@, final(self).buf@,
                old(self).offset + 29, seq![value.spec_to_raw()], r),
    {
        let index = self.offset + 29;
        let b = value.to_raw();
        self.buf.put_u8_at(index, b)
    }

    pub fn time_in_force(&mut self, value: TimeInForce) -> (r: SbeResult<()>)
        requires
            old(self).offset + SBE_BLOCK_LENGTH <= usize::MAX,
        ensures
            final(self).offset == old(self).offset,
            final(self).initial_offset == old(self).initial_offset,
            final(self).limit == old(self).limit,
            spec_put_post(
                true, old(self).buf@, final(self).buf@,
                old(self).offset + 46, seq![value.spec_to_raw()], r),
    {
        let index = self.offset + 46;
        let b = value.to_raw();
        self.buf.put_u8_at(index, b)
    }

    pub fn transact_time(&mut self, value: u64) -> (r: SbeResult<()>)
        requires
            old(self).offset + SBE_BLOCK_LENGTH <= usize::MAX,
        ensures
            final(self).offset == old(self).offset,
            final(self).initial_offset == old(self).initial_offset,
            final(self).limit == old(self).limit,
            spec_put_post(
                true, old(self).buf@, final(self).buf@,
                old(self).offset + 47, vstd::bytes::spec_u64_to_le_bytes(value), r),
    {
        let index = self.offset + 47;
        self.buf.put_u64_at(index, value)
    }

    pub fn effective_time(&mut self, value: u64) -> (r: SbeResult<()>)
        requires
            old(self).offset + SBE_BLOCK_LENGTH <= usize::MAX,
        ensures
            final(self).offset == old(self).offset,
            final(self).initial_offset == old(self).initial_offset,
            final(self).limit == old(self).limit,
            spec_put_post(
                true, old(self).buf@, final(self).buf@,
                old(self).offset + 55, vstd::bytes::spec_u64_to_le_bytes(value), r),
    {
        let index = self.offset + 55;
        self.buf.put_u64_at(index, value)
    }

    pub fn expire_time(&mut self, value: u64) -> (r: SbeResult<()>)
        requires
            old(self).offset + SBE_BLOCK_LENGTH <= usize::MAX,
        ensures
            final(self).offset == old(self).offset,
            final(self).initial_offset == old(self).initial_offset,
            final(self).limit == old(self).limit,
            spec_put_post(
                true, old(self).buf@, final(self).buf@,
                old(self).offset + 63, vstd::bytes::spec_u64_to_le_bytes(value), r),
    {
        let index = self.offset + 63;
        self.buf.put_u64_at(index, value)
    }

    pub fn target_strategy(&mut self, value: Strategy) -> (r: SbeResult<()>)
        requires
            old(self).offset + SBE_BLOCK_LENGTH <= usize::MAX,
        ensures
            final(self).offset == old(self).offset,
            final(self).initial_offset == old(self).initial_offset,
            final(self).limit == old(self).limit,
            spec_put_post(
                true, old(self).buf@, final(self).buf@,
                old(self).offset + 71, seq![value.spec_to_raw()], r),
    {
        let index = self.offset + 71;
        let b = value.to_raw();
        self.buf.put_u8_at(index, b)
    }

    pub fn source_strategy(&mut self, value: Strategy) -> (r: SbeResult<()>)
        requires
            old(self).offset + SBE_BLOCK_LENGTH <= usize::MAX,
        ensures
            final(self).offset == old(self).offset,
            final(self).initial_offset == old(self).initial_offset,
            final(self).limit == old(self).limit,
            spec_put_post(
                true, old(self).buf@, final(self).buf@,
                old(self).offset + 72, seq![value.spec_to_raw()], r),
    {
        let index = self.offset + 72;
        let b = value.to_raw();
        self.buf.put_u8_at(index, b)
    }

    pub fn orig_cl_ord_id(&mut self, value: u64) -> (r: SbeResult<()>)
        requires
            old(self).offset + SBE_BLOCK_LENGTH <= usize::MAX,
        ensures
            final(self).offset == old(self).offset,
            final(self).initial_offset == old(self).initial_offset,
            final(self).limit == old(self).limit,
            spec_put_post(
                true, old(self).buf@, final(self).buf@,
                old(self).offset + 73, vstd::bytes::spec_u64_to_le_bytes(value), r),
    {
        let index = self.offset + 73;
        self.buf.put_u64_at(index, value)
    }

    pub fn exec_id(&mut self, value: u64) -> (r: SbeResult<()>)
        requires
            old(self).offset + SBE_BLOCK_LENGTH <= usize::MAX,
        ensures
            final(self).offset == old(self).offset,
            final(self).initial_offset == old(self).initial_offset,
            final(self).limit == old(self).limit,
            spec_put_post(
                true, old(self).buf@, final(self).buf@,
                old(self).offset + 81, vstd::bytes::spec_u64_to_le_bytes(value), r),
    {
        let index = self.offset + 81;
        self.buf.put_u64_at(index, value)
    }

    pub fn order_id(&mut self, value: u64) -> (r: SbeResult<()>)
        requires
            old(self).offset + SBE_BLOCK_LENGTH <= usize::MAX,
        ensures
            final(self).offset == old(self).offset,
            final(self).initial_offset == old(self).initial_offset,
            final(self).limit == old(self).limit,
            spec_put_post(
                true, old(self).buf@, final(self).buf@,
                old(self).offset + 89, vstd::bytes::spec_u64_to_le_bytes(value), r),
    {
        let index = self.offset + 89;
        self.buf.put_u64_at(index, value)
    }

    pub fn exec_type(&mut self, value: ExecType) -> (r: SbeResult<()>)
        requires
            old(self).offset + SBE_BLOCK_LENGTH <= usize::MAX,
        ensures
            final(self).offset == old(self).offset,
            final(self).initial_offset == old(self).initial_offset,
            final(self).limit == old(self).limit,
            spec_put_post(
                true, old(self).buf@, final(self).buf@,
                old(self).offset + 97, seq![value.spec_to_raw()], r),
    {
        let index = self.offset + 97;
        let b = value.to_raw();
        self.buf.put_u8_at(index, b)
    }

    pub fn order_status(&mut self, value: OrderStatus) -> (r: SbeResult<()>)
        requires
            old(self).offset + SBE_BLOCK_LENGTH <= usize::MAX,
        ensures
            final(self).offset == old(self).offset,
            final(self).initial_offset == old(self).initial_offset,
            final(self).limit == old(self).limit,
            spec_put_post(
                true, old(self).buf@, final(self).buf@,
                old(self).offset + 98, seq![value.spec_to_raw()], r),
    {
        let index = self.offset + 98;
        let b = value.to_raw();
        self.buf.put_u8_at(index, b)
    }

    pub fn order_rej_reason(&mut self, value: OrderRejectReason) -> (r: SbeResult<()>)
        requires
            old(self).offset + SBE_BLOCK_LENGTH <= usize::MAX,
        ensures
            final(self).offset == old(self).offset,
            final(self).initial_offset == old(self).initial_offset,
            final(self).limit == old(self).limit,
            spec_put_post(
                true, old(self).buf@, final(self).buf@,
                old(self).offset + 99, seq![value.spec_to_raw()], r),
    {
        let index = self.offset + 99;
        let b = value.to_raw();
        self.buf.put_u8_at(index, b)
    }


}

/// Reads one message from a borrowed buffer; the acting block length and
/// version come from the decoded header, so a body written by an older,
/// shorter schema is recognized.
pub struct ExecutionReportDecoder {
    pub buf: ReadBuf,
    pub initial_offset: usize,
    pub offset: usize,
    pub limit: usize,
    pub acting_block_length: u16,
    pub acting_version: u16,
}

impl Reader for ExecutionReportDecoder {
    open spec fn reader_ready(&self) -> bool {
        true
    }

    open spec fn rbytes(&self) -> Seq<u8> {
        self.buf@
    }

    open spec fn rstart(&self) -> int {
        self.offset as int
    }

    open spec fn rlimit(&self) -> int {
        self.limit as int
    }

    fn get_u8_at(&self, index: usize) -> (r: SbeResult<u8>) {
        self.buf.get_u8_at(index)
    }

    fn get_u16_at(&self, index: usize) -> (r: SbeResult<u16>) {
        self.buf.get_u16_at(index)
    }

    fn get_u32_at(&self, index: usize) -> (r: SbeResult<u32>) {
        self.buf.get_u32_at(index)
    }

    fn get_u64_at(&self, index: usize) -> (r: SbeResult<u64>) {
        self.buf.get_u64_at(index)
    }

    fn get_i64_at(&self, index: usize) -> (r: SbeResult<i64>) {
        self.buf.get_i64_at(index)
    }
}

impl Decoder for ExecutionReportDecoder {
    fn get_limit(&self) -> (r: SbeResult<usize>) {
        Ok(self.limit)
    }

    fn set_limit(&mut self, limit: usize) -> (r: SbeResult<()>) {
        self.limit = limit;
        Ok(())
    }
}

impl ExecutionReportDecoder {
    pub fn wrap(
        self,
        buf: ReadBuf,
        offset: usize,
        acting_block_length: u16,
        acting_version: u16,
    ) -> (r: Self)
        requires
            offset + acting_block_length <= usize::MAX,
        ensures
            r.buf@ == buf@,
            r.initial_offset == offset,
            r.offset == offset,
            r.limit == offset + acting_block_length,
            r.acting_block_length == acting_block_length,
            r.acting_version == acting_version,
    {
        let limit = offset + (acting_block_length as usize);
        ExecutionReportDecoder { buf, initial_offset: offset, offset, limit, acting_block_length, acting_version }
    }

    /// Total size of the fixed block plus all variable content so far.
    pub fn encoded_length(&self) -> (r: usize)
        requires
            self.offset <= self.limit,
        ensures
            r == self.rlimit() - self.rstart(),
    {
        self.limit - self.offset
    }

    /// Check the decoded header's template id against this message kind
    /// and position the body cursor right after the header, governed by
    /// the header's own block length and version.
    pub fn header(self, header: MessageHeaderDecoder<ReadBuf>) -> (r: SbeResult<Self>)
        requires
            header.offset + crate::message_header_codec::ENCODED_LENGTH <= usize::MAX,
        ensures
            !header.reader_ready() ==> r == Err::<Self, SbeErr>(SbeErr::ParentNotSet),
            header.reader_ready() && header.offset + 8 > header.rbytes().len() ==> r
                == Err::<Self, SbeErr>(SbeErr::IndexOutOfRange),
            header.reader_ready() && header.offset + 8 <= header.rbytes().len()
                && spec_header_fields(header.rbytes(), header.offset as int).template_id
                != SBE_TEMPLATE_ID ==> r == Err::<Self, SbeErr>(SbeErr::TemplateMismatch),
            header.reader_ready() && header.offset + 8 <= header.rbytes().len()
                && spec_header_fields(header.rbytes(), header.offset as int).template_id
                == SBE_TEMPLATE_ID ==> (r matches Ok(d) && ({
                let h = spec_header_fields(header.rbytes(), header.offset as int);
                &&& d.buf@ == header.rbytes()
                &&& d.initial_offset == crate::message_header_codec::ENCODED_LENGTH
                &&& d.offset == crate::message_header_codec::ENCODED_LENGTH
                &&& d.limit == crate::message_header_codec::ENCODED_LENGTH + h.block_length
                &&& d.acting_block_length == h.block_length
                &&& d.acting_version == h.version
            })),
    {
        let bl = match header.block_length() {
            Ok(v) => v,
            Err(e) => { return Err(e); },
        };
        let tid = match header.template_id() {
            Ok(v) => v,
            Err(e) => { return Err(e); },
        };
        let ver = match header.version() {
            Ok(v) => v,
            Err(e) => { return Err(e); },
        };
        if tid != SBE_TEMPLATE_ID {
            return Err(SbeErr::TemplateMismatch);
        }
        let mut hd = header;
        let buf = match hd.parent() {
            Ok(b) => b,
            Err(e) => { return Err(e); },
        };
        Ok(self.wrap(buf, crate::message_header_codec::ENCODED_LENGTH, bl, ver))
    }

    /// Absent when the acting block ends before this field: the null
    /// sentinel is returned without reading.
    pub fn cl_ord_id(&self) -> (r: SbeResult<u64>)
        requires
            self.offset + SBE_BLOCK_LENGTH <= usize::MAX,
        ensures
            self.acting_block_length >= 8 ==> spec_get_post(
                true, self.buf@, self.offset as int, 8, r,
                vstd::bytes::spec_u64_from_le_bytes(self.buf@.subrange(self.offset as int, self.offset + 8))),
            self.acting_block_length < 8 ==> r == Ok::<u64, SbeErr>(u64::MAX),
    {
        if (self.acting_block_length as usize) < 8 {
            return Ok(u64::MAX);
        }
        let index = self.offset;
        self.buf.get_u64_at(index)
    }

    /// Absent when the acting block ends before this field: the null
    /// sentinel is returned without reading.
    pub fn cl_ord_link_id(&self) -> (r: SbeResult<u64>)
        requires
            self.offset + SBE_BLOCK_LENGTH <= usize::MAX,
        ensures
            self.acting_block_length >= 16 ==> spec_get_post(
                true, self.buf@, self.offset + 8, 8, r,
                vstd::bytes::spec_u64_from_le_bytes(self.buf@.subrange(self.offset + 8, self.offset + 16))),
            self.acting_block_length < 16 ==> r == Ok::<u64, SbeErr>(u64::MAX),
    {
        if (self.acting_block_length as usize) < 16 {
            return Ok(u64::MAX);
        }
        let index = self.offset + 8;
        self.buf.get_u64_at(index)
    }

    /// Absent when the acting block ends before this field: the null
    /// sentinel is returned without reading.
    pub fn instrument_id(&self) -> (r: SbeResult<u32>)
        requires
            self.offset + SBE_BLOCK_LENGTH <= usize::MAX,
        ensures
            self.acting_block_length >= 20 ==> spec_get_post(
                true, self.buf@, self.offset + 16, 4, r,
                vstd::bytes::spec_u32_from_le_bytes(self.buf@.subrange(self.offset + 16, self.offset + 20))),
            self.acting_block_length < 20 ==> r == Ok::<u32, SbeErr>(u32::MAX),
    {
        if (self.acting_block_length as usize) < 20 {
            return Ok(u32::MAX);
        }
        let index = self.offset + 16;
        self.buf.get_u32_at(index)
    }

    /// Absent when the acting block ends before this field: the null
    /// sentinel is returned without reading.
    pub fn target_comp_id(&self) -> (r: SbeResult<u32>)
        requires
            self.offset + SBE_BLOCK_LENGTH <= usize::MAX,
        ensures
            self.acting_block_length >= 24 ==> spec_get_post(
                true, self.buf@, self.offset + 20, 4, r,
                vstd::bytes::spec_u32_from_le_bytes(self.buf@.subrange(self.offset + 20, self.offset + 24))),
            self.acting_block_length < 24 ==> r == Ok::<u32, SbeErr>(u32::MAX),
    {
        if (self.acting_block_length as usize) < 24 {
            return Ok(u32::MAX);
        }
        let index = self.offset + 20;
        self.buf.get_u32_at(index)
    }

    /// Absent when the acting block ends before this field: the null
    /// sentinel is returned without reading.
    pub fn source_comp_id(&self) -> (r: SbeResult<u32>)
        requires
            self.offset + SBE_BLOCK_LENGTH <= usize::MAX,
        ensures
            self.acting_block_length >= 28 ==> spec_get_post(
                true, self.buf@, self.offset + 24, 4, r,
                vstd::bytes::spec_u32_from_le_bytes(self.buf@.subrange(self.offset + 24, self.offset + 28))),
            self.acting_block_length < 28 ==> r == Ok::<u32, SbeErr>(u32::MAX),
    {
        if (self.acting_block_length as usize) < 28 {
            return Ok(u32::MAX);
        }
        let index = self.offset + 24;
        self.buf.get_u32_at(index)
    }

    /// A byte outside the defined set decodes to the null variant, and a
    /// field the acting block ends before is absent: the null variant is
    /// returned without reading.
    pub fn side(&self) -> (r: SbeResult<OrderSide>)
        requires
            self.offset + SBE_BLOCK_LENGTH <= usize::MAX,
        ensures
            self.acting_block_length >= 29 ==> spec_get_post(
                true, self.buf@, self.offset + 28, 1, r,
                OrderSide::spec_from_raw(self.buf@[self.offset + 28])),
            self.acting_block_length < 29 ==> r == Ok::<OrderSide, SbeErr>(OrderSide::NullVal),
    {
        if (self.acting_block_length as usize) < 29 {
            return Ok(OrderSide::NullVal);
        }
        let index = self.offset + 28;
        match self.buf.get_u8_at(index) {
            Ok(v) => Ok(OrderSide::from_raw(v)),
            Err(e) => Err(e),
        }
    }

    /// A byte outside the defined set decodes to the null variant, and a
    /// field the acting block ends before is absent: the null variant is
    /// returned without reading.
    pub fn order_type(&self) -> (r: SbeResult<OrderType>)
        requires
            self.offset + SBE_BLOCK_LENGTH <= usize::MAX,
        ensures
            self.acting_block_length >= 30 ==> spec_get_post(
                true, self.buf@, self.offset + 29, 1, r,
                OrderType::spec_from_raw(self.buf@[self.offset + 29])),
            self.acting_block_length < 30 ==> r == Ok::<OrderType, SbeErr>(OrderType::NullVal),
    {
        if (self.acting_block_length as usize) < 30 {
            return Ok(OrderType::NullVal);
        }
        let index = self.offset + 29;
        match self.buf.get_u8_at(index) {
            Ok(v) => Ok(OrderType::from_raw(v)),
            Err(e) => Err(e),
        }
    }

    /// A byte outside the defined set decodes to the null variant, and a
    /// field the acting block ends before is absent: the null variant is
    /// returned without reading.
    pub fn time_in_force(&self) -> (r: SbeResult<TimeInForce>)
        requires
            self.offset + SBE_BLOCK_LENGTH <= usize::MAX,
        ensures
            self.acting_block_length >= 47 ==> spec_get_post(
                true, self.buf@, self.offset + 46, 1, r,
                TimeInForce::spec_from_raw(self.buf@[self.offset + 46])),
            self.acting_block_length < 47 ==> r == Ok::<TimeInForce, SbeErr>(TimeInForce::NullVal),
    {
        if (self.acting_block_length as usize) < 47 {
            return Ok(TimeInForce::NullVal);
        }
        let index = self.offset + 46;
        match self.buf.get_u8_at(index) {
            Ok(v) => Ok(TimeInForce::from_raw(v)),
            Err(e) => Err(e),
        }
    }

    /// Absent when the acting block ends before this field: the null
    /// sentinel is returned without reading.
    pub fn transact_time(&self) -> (r: SbeResult<u64>)
        requires
            self.offset + SBE_BLOCK_LENGTH <= usize::MAX,
        ensures
            self.acting_block_length >= 55 ==> spec_get_post(
                true, self.buf@, self.offset + 47, 8, r,
                vstd::bytes::spec_u64_from_le_bytes(self.buf@.subrange(self.offset + 47, self.offset + 55))),
            self.acting_block_length < 55 ==> r == Ok::<u64, SbeErr>(u64::MAX),
    {
        if (self.acting_block_length as usize) < 55 {
            return Ok(u64::MAX);
        }
        let index = self.offset + 47;
        self.buf.get_u64_at(index)
    }

    /// Absent when the acting block ends before this field: the null
    /// sentinel is returned without reading.
    pub fn effective_time(&self) -> (r: SbeResult<u64>)
        requires
            self.offset + SBE_BLOCK_LENGTH <= usize::MAX,
        ensures
            self.acting_block_length >= 63 ==> spec_get_post(
                true, self.buf@, self.offset + 55, 8, r,
                vstd::bytes::spec_u64_from_le_bytes(self.buf@.subrange(self.offset + 55, self.offset + 63))),
            self.acting_block_length < 63 ==> r == Ok::<u64, SbeErr>(u64::MAX),
    {
        if (self.acting_block_length as usize) < 63 {
            return Ok(u64::MAX);
        }
        let index = self.offset + 55;
        self.buf.get_u64_at(index)
    }

    /// Absent when the acting block ends before this field: the null
    /// sentinel is returned without reading.
    pub fn expire_time(&self) -> (r: SbeResult<u64>)
        requires
            self.offset + SBE_BLOCK_LENGTH <= usize::MAX,
        ensures
            self.acting_block_length >= 71 ==> spec_get_post(
                true, self.buf@, self.offset + 63, 8, r,
                vstd::bytes::spec_u64_from_le_bytes(self.buf@.subrange(self.offset + 63, self.offset + 71))),
            self.acting_block_length < 71 ==> r == Ok::<u64, SbeErr>(u64::MAX),
    {
        if (self.acting_block_length as usize) < 71 {
            return Ok(u64::MAX);
        }
        let index = self.offset + 63;
        self.buf.get_u64_at(index)
    }

    /// A byte outside the defined set decodes to the null variant, and a
    /// field the acting block ends before is absent: the null variant is
    /// returned without reading.
    pub fn target_strategy(&self) -> (r: SbeResult<Strategy>)
        requires
            self.offset + SBE_BLOCK_LENGTH <= usize::MAX,
        ensures
            self.acting_block_length >= 72 ==> spec_get_post(
                true, self.buf@, self.offset + 71, 1, r,
                Strategy::spec_from_raw(self.buf@[self.offset + 71])),
            self.acting_block_length < 72 ==> r == Ok::<Strategy, SbeErr>(Strategy::NullVal),
    {
        if (self.acting_block_length as usize) < 72 {
            return Ok(Strategy::NullVal);
        }
        let index = self.offset + 71;
        match self.buf.get_u8_at(index) {
            Ok(v) => Ok(Strategy::from_raw(v)),
            Err(e) => Err(e),
        }
    }

    /// A byte outside the defined set decodes to the null variant, and a
    /// field the acting block ends before is absent: the null variant is
    /// returned without reading.
    pub fn source_strategy(&self) -> (r: SbeResult<Strategy>)
        requires
            self.offset + SBE_BLOCK_LENGTH <= usize::MAX,
        ensures
            self.acting_block_length >= 73 ==> spec_get_post(
                true, self.buf@, self.offset + 72, 1, r,
                Strategy::spec_from_raw(self.buf@[self.offset + 72])),
            self.acting_block_length < 73 ==> r == Ok::<Strategy, SbeErr>(Strategy::NullVal),
    {
        if (self.acting_block_length as usize) < 73 {
            return Ok(Strategy::NullVal);
        }
        let index = self.offset + 72;
        match self.buf.get_u8_at(index) {
            Ok(v) => Ok(Strategy::from_raw(v)),
            Err(e) => Err(e),
        }
    }

    /// Absent when the acting block ends before this field: the null
    /// sentinel is returned without reading.
    pub fn orig_cl_ord_id(&self) -> (r: SbeResult<u64>)
        requires
            self.offset + SBE_BLOCK_LENGTH <= usize::MAX,
        ensures
            self.acting_block_length >= 81 ==> spec_get_post(
                true, self.buf@, self.offset + 73, 8, r,
                vstd::bytes::spec_u64_from_le_bytes(self.buf@.subrange(self.offset + 73, self.offset + 81))),
            self.acting_block_length < 81 ==> r == Ok::<u64, SbeErr>(u64::MAX),
    {
        if (self.acting_block_length as usize) < 81 {
            return Ok(u64::MAX);
        }
        let index = self.offset + 73;
        self.buf.get_u64_at(index)
    }

    /// Absent when the acting block ends before this field: the null
    /// sentinel is returned without reading.
    pub fn exec_id(&self) -> (r: SbeResult<u64>)
        requires
            self.offset + SBE_BLOCK_LENGTH <= usize::MAX,
        ensures
            self.acting_block_length >= 89 ==> spec_get_post(
                true, self.buf@, self.offset + 81, 8, r,
                vstd::bytes::spec_u64_from_le_bytes(self.buf@.subrange(self.offset + 81, self.offset + 89))),
            self.acting_block_length < 89 ==> r == Ok::<u64, SbeErr>(u64::MAX),
    {
        if (self.acting_block_length as usize) < 89 {
            return Ok(u64::MAX);
        }
        let index = self.offset + 81;
        self.buf.get_u64_at(index)
    }

    /// Absent when the acting block ends before this field: the null
    /// sentinel is returned without reading.
    pub fn order_id(&self) -> (r: SbeResult<u64>)
        requires
            self.offset + SBE_BLOCK_LENGTH <= usize::MAX,
        ensures
            self.acting_block_length >= 97 ==> spec_get_post(
                true, self.buf@, self.offset + 89, 8, r,
                vstd::bytes::spec_u64_from_le_bytes(self.buf@.subrange(self.offset + 89, self.offset + 97))),
            self.acting_block_length < 97 ==> r == Ok::<u64, SbeErr>(u64::MAX),
    {
        if (self.acting_block_length as usize) < 97 {
            return Ok(u64::MAX);
        }
        let index = self.offset + 89;
        self.buf.get_u64_at(index)
    }

    /// A byte outside the defined set decodes to the null variant, and a
    /// field the acting block ends before is absent: the null variant is
    /// returned without reading.
    pub fn exec_type(&self) -> (r: SbeResult<ExecType>)
        requires
            self.offset + SBE_BLOCK_LENGTH <= usize::MAX,
        ensures
            self.acting_block_length >= 98 ==> spec_get_post(
                true, self.buf@, self.offset + 97, 1, r,
                ExecType::spec_from_raw(self.buf@[self.offset + 97])),
            self.acting_block_length < 98 ==> r == Ok::<ExecType, SbeErr>(ExecType::NullVal),
    {
        if (self.acting_block_length as usize) < 98 {
            return Ok(ExecType::NullVal);
        }
        let index = self.offset + 97;
        match self.buf.get_u8_at(index) {
            Ok(v) => Ok(ExecType::from_raw(v)),
            Err(e) => Err(e),
        }
    }

    /// A byte outside the defined set decodes to the null variant, and a
    /// field the acting block ends before is absent: the null variant is
    /// returned without reading.
    pub fn order_status(&self) -> (r: SbeResult<OrderStatus>)
        requires
            self.offset + SBE_BLOCK_LENGTH <= usize::MAX,
        ensures
            self.acting_block_length >= 99 ==> spec_get_post(
                true, self.buf@, self.offset + 98, 1, r,
                OrderStatus::spec_from_raw(self.buf@[self.offset + 98])),
            self.acting_block_length < 99 ==> r == Ok::<OrderStatus, SbeErr>(OrderStatus::NullVal),
    {
        if (self.acting_block_length as usize) < 99 {
            return Ok(OrderStatus::NullVal);
        }
        let index = self.offset + 98;
        match self.buf.get_u8_at(index) {
            Ok(v) => Ok(OrderStatus::from_raw(v)),
            Err(e) => Err(e),
        }
    }

    /// A byte outside the defined set decodes to the null variant, and a
    /// field the acting block ends before is absent: the null variant is
    /// returned without reading.
    pub fn order_rej_reason(&self) -> (r: SbeResult<OrderRejectReason>)
        requires
            self.offset + SBE_BLOCK_LENGTH <= usize::MAX,
        ensures
            self.acting_block_length >= 100 ==> spec_get_post(
                true, self.buf@, self.offset + 99, 1, r,
                OrderRejectReason::spec_from_raw(self.buf@[self.offset + 99])),
            self.acting_block_length < 100 ==> r == Ok::<OrderRejectReason, SbeErr>(OrderRejectReason::NullVal),
    {
        if (self.acting_block_length as usize) < 100 {
            return Ok(OrderRejectReason::NullVal);
        }
        let index = self.offset + 99;
        match self.buf.get_u8_at(index) {
            Ok(v) => Ok(OrderRejectReason::from_raw(v)),
            Err(e) => Err(e),
        }
    }


}


impl Default for ExecutionReportEncoder {
    fn default() -> (r: Self)
        ensures
            r.buf@ == Seq::<u8>::empty(),
            r.initial_offset == 0,
            r.offset == 0,
            r.limit == 0,
    {
        ExecutionReportEncoder { buf: WriteBuf { data: Vec::new() }, initial_offset: 0, offset: 0, limit: 0 }
    }
}

impl Default for ExecutionReportDecoder {
    fn default() -> (r: Self)
        ensures
            r.buf@ == Seq::<u8>::empty(),
            r.initial_offset == 0,
            r.offset == 0,
            r.limit == 0,
            r.acting_block_length == 0,
            r.acting_version == 0,
    {
        ExecutionReportDecoder {
            buf: ReadBuf { data: Vec::new() },
            initial_offset: 0,
            offset: 0,
            limit: 0,
            acting_block_length: 0,
            acting_version: 0,
        }
    }
}

} // verus!
