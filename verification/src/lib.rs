//! Runtime for a simple binary encoding of fixed-offset little-endian
//! messages: bounds-checked buffer views, frame cursors with a monotonically
//! advancing limit, a message-header link, nested composite codecs and
//! repeating-group traversal.
//!
//! Every read or write is validated once, at the buffer accessor; higher
//! layers never re-check offsets. All failures are returned as values of
//! [`SbeErr`]; no operation panics.
use vstd::assert_seqs_equal;
use vstd::prelude::*;

pub mod cancel_reject_reason;
pub mod cancel_reject_response_to;
pub mod exec_type;
pub mod execution_report_codec;
pub mod group;
pub mod message_header_codec;
pub mod new_order_single_codec;
pub mod order_cancel_request_codec;
pub mod order_reject_reason;
pub mod order_side;
pub mod order_status;
pub mod order_type;
pub mod price_increment_codec;
pub mod price_level_codec;
pub mod price_level_increment_codec;
pub mod properties;
pub mod small_group_size_encoding_codec;
pub mod strategy;
pub mod time_in_force;
pub mod update_action;

pub use cancel_reject_reason::CancelRejectReason;
pub use cancel_reject_response_to::CancelRejectResponseTo;
pub use exec_type::ExecType;
pub use execution_report_codec::ExecutionReportDecoder;
pub use execution_report_codec::ExecutionReportEncoder;
pub use message_header_codec::MessageHeaderDecoder;
pub use message_header_codec::MessageHeaderEncoder;
pub use new_order_single_codec::NewOrderSingleDecoder;
pub use new_order_single_codec::NewOrderSingleEncoder;
pub use order_cancel_request_codec::OrderCancelRequestDecoder;
pub use order_cancel_request_codec::OrderCancelRequestEncoder;
pub use order_reject_reason::OrderRejectReason;
pub use order_side::OrderSide;
pub use order_status::OrderStatus;
pub use order_type::OrderType;
pub use price_increment_codec::BidsDecoder;
pub use price_increment_codec::BidsEncoder;
pub use price_increment_codec::OffersDecoder;
pub use price_increment_codec::OffersEncoder;
pub use price_increment_codec::PriceIncrementDecoder;
pub use price_increment_codec::PriceIncrementEncoder;
pub use price_level_codec::PriceLevelDecoder;
pub use price_level_codec::PriceLevelEncoder;
pub use price_level_increment_codec::PriceLevelIncrementDecoder;
pub use price_level_increment_codec::PriceLevelIncrementEncoder;
pub use small_group_size_encoding_codec::SmallGroupSizeEncodingDecoder;
pub use small_group_size_encoding_codec::SmallGroupSizeEncodingEncoder;
pub use strategy::Strategy;
pub use time_in_force::TimeInForce;
pub use update_action::UpdateAction;

verus! {

pub type SbeResult<T> = core::result::Result<T, SbeErr>;

/// Errors of the codec runtime. Every failure is returned to the caller;
/// no operation panics.
#[derive(Clone, Copy, Debug, PartialEq, Eq, PartialOrd, Ord, Hash, Structural)]
pub enum SbeErr {
    /// The enclosing frame was reclaimed twice, or never set.
    ParentNotSet,
    /// A read or write addressed bytes outside the buffer.
    IndexOutOfRange,
    /// A decoded header's template id is not the expected one.
    TemplateMismatch,
}

#[derive(Clone, Copy, Debug, PartialEq, Eq, PartialOrd, Ord, Hash, Structural)]
pub enum Either<L, R> {
    Left(L),
    Right(R),
}

/// Bytes `bs` written over `s` starting at `i`; everything else unchanged.
pub open spec fn spec_write_bytes(s: Seq<u8>, i: int, bs: Seq<u8>) -> Seq<u8> {
    Seq::new(s.len(), |j: int| if i <= j < i + bs.len() { bs[j - i] } else { s[j] })
}

/// Reading back exactly the range that was just written yields the
/// written bytes.
pub proof fn lemma_read_over_write_same(s: Seq<u8>, i: int, bs: Seq<u8>)
    requires
        0 <= i,
        i + bs.len() <= s.len(),
    ensures
        spec_write_bytes(s, i, bs).subrange(i, i + bs.len()) == bs,
{
    assert_seqs_equal!(spec_write_bytes(s, i, bs).subrange(i, i + bs.len()) == bs);
}

/// A write leaves every range disjoint from it unchanged.
pub proof fn lemma_read_over_write_disjoint(s: Seq<u8>, i: int, bs: Seq<u8>, j: int, n: int)
    requires
        0 <= j,
        0 <= n,
        j + n <= s.len(),
        j + n <= i || i + bs.len() <= j,
    ensures
        spec_write_bytes(s, i, bs).subrange(j, j + n) == s.subrange(j, j + n),
{
    assert_seqs_equal!(spec_write_bytes(s, i, bs).subrange(j, j + n) == s.subrange(j, j + n));
}

/// Two's-complement reinterpretations between the signed and unsigned
/// integers of each width, used to define the little-endian layout of the
/// signed field types.
pub open spec fn spec_i8_to_u8(v: i8) -> u8 {
    if v >= 0 {
        v as u8
    } else {
        (v + 0x100) as u8
    }
}

pub open spec fn spec_u8_to_i8(v: u8) -> i8 {
    if v < 0x80 {
        v as i8
    } else {
        (v - 0x100) as i8
    }
}

pub open spec fn spec_i16_to_u16(v: i16) -> u16 {
    if v >= 0 {
        v as u16
    } else {
        (v + 0x1_0000) as u16
    }
}

pub open spec fn spec_u16_to_i16(v: u16) -> i16 {
    if v < 0x8000 {
        v as i16
    } else {
        (v - 0x1_0000) as i16
    }
}

pub open spec fn spec_i32_to_u32(v: i32) -> u32 {
    if v >= 0 {
        v as u32
    } else {
        (v + 0x1_0000_0000) as u32
    }
}

pub open spec fn spec_u32_to_i32(v: u32) -> i32 {
    if v < 0x8000_0000 {
        v as i32
    } else {
        (v - 0x1_0000_0000) as i32
    }
}

pub open spec fn spec_i64_to_u64(v: i64) -> u64 {
    if v >= 0 {
        v as u64
    } else {
        (v + 0x1_0000_0000_0000_0000) as u64
    }
}

pub open spec fn spec_u64_to_i64(v: u64) -> i64 {
    if v < 0x8000_0000_0000_0000 {
        v as i64
    } else {
        (v - 0x1_0000_0000_0000_0000) as i64
    }
}

/// Reinterpreting a signed value as unsigned and back is the identity,
/// for every width.
pub proof fn lemma_signed_unsigned_round_trip()
    ensures
        forall|v: i8| #[trigger] spec_u8_to_i8(spec_i8_to_u8(v)) == v,
        forall|v: i16| #[trigger] spec_u16_to_i16(spec_i16_to_u16(v)) == v,
        forall|v: i32| #[trigger] spec_u32_to_i32(spec_i32_to_u32(v)) == v,
        forall|v: i64| #[trigger] spec_u64_to_i64(spec_i64_to_u64(v)) == v,
{
}

/// Little-endian bytes of the signed field types.
pub open spec fn spec_i16_to_le_bytes(v: i16) -> Seq<u8> {
    vstd::bytes::spec_u16_to_le_bytes(spec_i16_to_u16(v))
}

pub open spec fn spec_i16_from_le_bytes(s: Seq<u8>) -> i16 {
    spec_u16_to_i16(vstd::bytes::spec_u16_from_le_bytes(s))
}

pub open spec fn spec_i32_to_le_bytes(v: i32) -> Seq<u8> {
    vstd::bytes::spec_u32_to_le_bytes(spec_i32_to_u32(v))
}

pub open spec fn spec_i32_from_le_bytes(s: Seq<u8>) -> i32 {
    spec_u32_to_i32(vstd::bytes::spec_u32_from_le_bytes(s))
}

pub open spec fn spec_i64_to_le_bytes(v: i64) -> Seq<u8> {
    vstd::bytes::spec_u64_to_le_bytes(spec_i64_to_u64(v))
}

pub open spec fn spec_i64_from_le_bytes(s: Seq<u8>) -> i64 {
    spec_u64_to_i64(vstd::bytes::spec_u64_from_le_bytes(s))
}

fn i16_to_u16(v: i16) -> (r: u16)
    ensures
        r == spec_i16_to_u16(v),
{
    if v >= 0 {
        v as u16
    } else {
        ((v as i32) + 0x1_0000) as u16
    }
}

fn u16_to_i16(v: u16) -> (r: i16)
    ensures
        r == spec_u16_to_i16(v),
{
    if v < 0x8000 {
        v as i16
    } else {
        ((v as i32) - 0x1_0000) as i16
    }
}

fn i32_to_u32(v: i32) -> (r: u32)
    ensures
        r == spec_i32_to_u32(v),
{
    if v >= 0 {
        v as u32
    } else {
        ((v as i64) + 0x1_0000_0000) as u32
    }
}

fn u32_to_i32(v: u32) -> (r: i32)
    ensures
        r == spec_u32_to_i32(v),
{
    if v < 0x8000_0000 {
        v as i32
    } else {
        ((v as i64) - 0x1_0000_0000) as i32
    }
}

fn i64_to_u64(v: i64) -> (r: u64)
    ensures
        r == spec_i64_to_u64(v),
{
    if v >= 0 {
        v as u64
    } else {
        ((v as i128) + 0x1_0000_0000_0000_0000) as u64
    }
}

fn u64_to_i64(v: u64) -> (r: i64)
    ensures
        r == spec_u64_to_i64(v),
{
    if v < 0x8000_0000_0000_0000 {
        v as i64
    } else {
        ((v as i128) - 0x1_0000_0000_0000_0000) as i64
    }
}

/// What a bounds-checked write of the bytes `bs` at `index` leaves behind:
/// success exactly when the frame chain is intact and the range fits,
/// the buffer unchanged on failure, its length unchanged always.
pub open spec fn spec_put_post(
    pre_ready: bool,
    pre: Seq<u8>,
    post: Seq<u8>,
    index: int,
    bs: Seq<u8>,
    r: SbeResult<()>,
) -> bool {
    &&& post.len() == pre.len()
    &&& (!pre_ready ==> r == Err::<(), SbeErr>(SbeErr::ParentNotSet) && post == pre)
    &&& (pre_ready && index + bs.len() <= pre.len() ==> r == Ok::<(), SbeErr>(())
        && post == spec_write_bytes(pre, index, bs))
    &&& (pre_ready && index + bs.len() > pre.len() ==> r == Err::<(), SbeErr>(
        SbeErr::IndexOutOfRange,
    ) && post == pre)
}

/// What a bounds-checked read of `width` bytes at `index` returns:
/// the decoded value `v` exactly when the frame chain is intact and the
/// range fits, the distinguishing error otherwise.
pub open spec fn spec_get_post<T>(
    ready: bool,
    bytes: Seq<u8>,
    index: int,
    width: int,
    r: SbeResult<T>,
    v: T,
) -> bool {
    &&& (!ready ==> r == Err::<T, SbeErr>(SbeErr::ParentNotSet))
    &&& (ready && index + width <= bytes.len() ==> r == Ok::<T, SbeErr>(v))
    &&& (ready && index + width > bytes.len() ==> r == Err::<T, SbeErr>(SbeErr::IndexOutOfRange))
}

/// Reclaiming the enclosing frame empties the slot and hands the frame
/// back; an empty slot reports the ownership violation.
pub open spec fn spec_reclaim<P>(slot: Option<P>) -> (Option<P>, SbeResult<P>) {
    match slot {
        Some(p) => (None, Ok(p)),
        None => (None, Err(SbeErr::ParentNotSet)),
    }
}

/// Reclaiming a parent is single-use: after any reclaim, reclaiming again
/// fails with the ownership violation, never a stale or default frame.
pub proof fn lemma_reclaim_single_use<P>(slot: Option<P>)
    ensures
        spec_reclaim::<P>(spec_reclaim(slot).0).1 == Err::<P, SbeErr>(SbeErr::ParentNotSet),
{
}

/// Bounds-respecting little-endian write accessors over an owned byte buffer.
pub struct WriteBuf {
    pub data: Vec<u8>,
}

impl View for WriteBuf {
    type V = Seq<u8>;

    open spec fn view(&self) -> Seq<u8> {
        self.data@
    }
}

impl WriteBuf {
    pub fn new(data: Vec<u8>) -> (r: WriteBuf)
        ensures
            r@ == data@,
    {
        WriteBuf { data }
    }

    /// Recover the underlying buffer once encoding is finished.
    pub fn into_inner(self) -> (r: Vec<u8>)
        ensures
            r@ == self@,
    {
        self.data
    }

    pub fn put_slice_at(&mut self, index: usize, src: &[u8]) -> (r: SbeResult<usize>)
        ensures
            final(self)@.len() == old(self)@.len(),
            index + src@.len() <= old(self)@.len() ==> r == Ok::<usize, SbeErr>(src@.len() as usize)
                && final(self)@ == spec_write_bytes(old(self)@, index as int, src@),
            index + src@.len() > old(self)@.len() ==> r == Err::<usize, SbeErr>(
                SbeErr::IndexOutOfRange,
            ) && final(self)@ == old(self)@,
    {
        let len = src.len();
        if len <= self.data.len() && index <= self.data.len() - len {
            let ghost orig = self@;
            let mut i: usize = 0;
            while i < len
                invariant
                    i <= len,
                    index + len <= orig.len(),
                    orig.len() <= usize::MAX,
                    self@.len() == orig.len(),
                    len == src@.len(),
                    self@ == spec_write_bytes(orig, index as int, src@.take(i as int)),
                decreases len - i,
            {
                let b = *vstd::slice::slice_index_get(src, i);
                self.data[index + i] = b;
                proof {
                    assert_seqs_equal!(self@ == spec_write_bytes(orig, index as int,
                        src@.take(i + 1)));
                }
                i = i + 1;
            }
            proof {
                assert_seqs_equal!(self@ == spec_write_bytes(orig, index as int, src@));
            }
            Ok(len)
        } else {
            Err(SbeErr::IndexOutOfRange)
        }
    }

    pub fn put_bytes_at<const N: usize>(&mut self, index: usize, bytes: [u8; N]) -> (r: SbeResult<
        usize,
    >)
        ensures
            final(self)@.len() == old(self)@.len(),
            index + N <= old(self)@.len() ==> r == Ok::<usize, SbeErr>(N)
                && final(self)@ == spec_write_bytes(old(self)@, index as int, bytes@),
            index + N > old(self)@.len() ==> r == Err::<usize, SbeErr>(SbeErr::IndexOutOfRange)
                && final(self)@ == old(self)@,
    {
        self.put_slice_at(index, bytes.as_slice())
    }

    pub fn put_u8_at(&mut self, index: usize, value: u8) -> (r: SbeResult<()>)
        ensures
            spec_put_post(true, old(self)@, final(self)@, index as int, seq![value], r),
    {
        if index < self.data.len() {
            self.data[index] = value;
            proof {
                assert_seqs_equal!(self@ == spec_write_bytes(old(self)@, index as int,
                    seq![value]));
            }
            Ok(())
        } else {
            Err(SbeErr::IndexOutOfRange)
        }
    }

    pub fn put_i8_at(&mut self, index: usize, value: i8) -> (r: SbeResult<()>)
        ensures
            spec_put_post(
                true, old(self)@, final(self)@, index as int, seq![spec_i8_to_u8(value)], r),
    {
        let b: u8 = if value >= 0 {
            value as u8
        } else {
            ((value as i16) + 0x100) as u8
        };
        self.put_u8_at(index, b)
    }

    pub fn put_u16_at(&mut self, index: usize, value: u16) -> (r: SbeResult<()>)
        ensures
            spec_put_post(
                true, old(self)@, final(self)@, index as int,
                vstd::bytes::spec_u16_to_le_bytes(value), r),
    {
        proof {
            vstd::bytes::lemma_auto_spec_u16_to_from_le_bytes();
        }
        if self.data.len() >= 2 && index <= self.data.len() - 2 {
            let bs = vstd::bytes::u16_to_le_bytes(value);
            self.data[index] = bs[0];
            self.data[index + 1] = bs[1];
            proof {
                assert_seqs_equal!(self@ == spec_write_bytes(old(self)@, index as int,
                    vstd::bytes::spec_u16_to_le_bytes(value)));
            }
            Ok(())
        } else {
            Err(SbeErr::IndexOutOfRange)
        }
    }

    pub fn put_i16_at(&mut self, index: usize, value: i16) -> (r: SbeResult<()>)
        ensures
            spec_put_post(
                true, old(self)@, final(self)@, index as int, spec_i16_to_le_bytes(value), r),
    {
        let u = i16_to_u16(value);
        self.put_u16_at(index, u)
    }

    pub fn put_u32_at(&mut self, index: usize, value: u32) -> (r: SbeResult<()>)
        ensures
            spec_put_post(
                true, old(self)@, final(self)@, index as int,
                vstd::bytes::spec_u32_to_le_bytes(value), r),
    {
        proof {
            vstd::bytes::lemma_auto_spec_u32_to_from_le_bytes();
        }
        if self.data.len() >= 4 && index <= self.data.len() - 4 {
            let bs = vstd::bytes::u32_to_le_bytes(value);
            self.data[index] = bs[0];
            self.data[index + 1] = bs[1];
            self.data[index + 2] = bs[2];
            self.data[index + 3] = bs[3];
            proof {
                assert_seqs_equal!(self@ == spec_write_bytes(old(self)@, index as int,
                    vstd::bytes::spec_u32_to_le_bytes(value)));
            }
            Ok(())
        } else {
            Err(SbeErr::IndexOutOfRange)
        }
    }

    pub fn put_i32_at(&mut self, index: usize, value: i32) -> (r: SbeResult<()>)
        ensures
            spec_put_post(
                true, old(self)@, final(self)@, index as int, spec_i32_to_le_bytes(value), r),
    {
        let u = i32_to_u32(value);
        self.put_u32_at(index, u)
    }

    pub fn put_u64_at(&mut self, index: usize, value: u64) -> (r: SbeResult<()>)
        ensures
            spec_put_post(
                true, old(self)@, final(self)@, index as int,
                vstd::bytes::spec_u64_to_le_bytes(value), r),
    {
        proof {
            vstd::bytes::lemma_auto_spec_u64_to_from_le_bytes();
        }
        if self.data.len() >= 8 && index <= self.data.len() - 8 {
            let bs = vstd::bytes::u64_to_le_bytes(value);
            self.data[index] = bs[0];
            self.data[index + 1] = bs[1];
            self.data[index + 2] = bs[2];
            self.data[index + 3] = bs[3];
            self.data[index + 4] = bs[4];
            self.data[index + 5] = bs[5];
            self.data[index + 6] = bs[6];
            self.data[index + 7] = bs[7];
            proof {
                assert_seqs_equal!(self@ == spec_write_bytes(old(self)@, index as int,
                    vstd::bytes::spec_u64_to_le_bytes(value)));
            }
            Ok(())
        } else {
            Err(SbeErr::IndexOutOfRange)
        }
    }

    pub fn put_i64_at(&mut self, index: usize, value: i64) -> (r: SbeResult<()>)
        ensures
            spec_put_post(
                true, old(self)@, final(self)@, index as int, spec_i64_to_le_bytes(value), r),
    {
        let u = i64_to_u64(value);
        self.put_u64_at(index, u)
    }
}

/// Bounds-respecting little-endian read accessors over an owned byte buffer.
pub struct ReadBuf {
    pub data: Vec<u8>,
}

impl View for ReadBuf {
    type V = Seq<u8>;

    open spec fn view(&self) -> Seq<u8> {
        self.data@
    }
}

impl ReadBuf {
    pub fn new(data: Vec<u8>) -> (r: ReadBuf)
        ensures
            r@ == data@,
    {
        ReadBuf { data }
    }

    pub fn get_slice_at(&self, index: usize, len: usize) -> (r: SbeResult<&[u8]>)
        ensures
            index + len <= self@.len() ==> (r matches Ok(s)
                && s@ == self@.subrange(index as int, index + len)),
            index + len > self@.len() ==> r == Err::<&[u8], SbeErr>(SbeErr::IndexOutOfRange),
    {
        if len <= self.data.len() && index <= self.data.len() - len {
            Ok(vstd::slice::slice_subrange(self.data.as_slice(), index, index + len))
        } else {
            Err(SbeErr::IndexOutOfRange)
        }
    }

    pub fn get_u8_at(&self, index: usize) -> (r: SbeResult<u8>)
        ensures
            spec_get_post(true, self@, index as int, 1, r, self@[index as int]),
    {
        if index < self.data.len() {
            Ok(self.data[index])
        } else {
            Err(SbeErr::IndexOutOfRange)
        }
    }

    pub fn get_i8_at(&self, index: usize) -> (r: SbeResult<i8>)
        ensures
            spec_get_post(true, self@, index as int, 1, r, spec_u8_to_i8(self@[index as int])),
    {
        match self.get_u8_at(index) {
            Ok(b) => Ok(
                if b < 0x80 {
                    b as i8
                } else {
                    ((b as i16) - 0x100) as i8
                },
            ),
            Err(e) => Err(e),
        }
    }

    pub fn get_u16_at(&self, index: usize) -> (r: SbeResult<u16>)
        ensures
            spec_get_post(
                true, self@, index as int, 2, r,
                vstd::bytes::spec_u16_from_le_bytes(self@.subrange(index as int, index + 2))),
    {
        if self.data.len() >= 2 && index <= self.data.len() - 2 {
            let s = vstd::slice::slice_subrange(self.data.as_slice(), index, index + 2);
            Ok(vstd::bytes::u16_from_le_bytes(s))
        } else {
            Err(SbeErr::IndexOutOfRange)
        }
    }

    pub fn get_i16_at(&self, index: usize) -> (r: SbeResult<i16>)
        ensures
            spec_get_post(
                true, self@, index as int, 2, r,
                spec_i16_from_le_bytes(self@.subrange(index as int, index + 2))),
    {
        match self.get_u16_at(index) {
            Ok(u) => Ok(u16_to_i16(u)),
            Err(e) => Err(e),
        }
    }

    pub fn get_u32_at(&self, index: usize) -> (r: SbeResult<u32>)
        ensures
            spec_get_post(
                true, self@, index as int, 4, r,
                vstd::bytes::spec_u32_from_le_bytes(self@.subrange(index as int, index + 4))),
    {
        if self.data.len() >= 4 && index <= self.data.len() - 4 {
            let s = vstd::slice::slice_subrange(self.data.as_slice(), index, index + 4);
            Ok(vstd::bytes::u32_from_le_bytes(s))
        } else {
            Err(SbeErr::IndexOutOfRange)
        }
    }

    pub fn get_i32_at(&self, index: usize) -> (r: SbeResult<i32>)
        ensures
            spec_get_post(
                true, self@, index as int, 4, r,
                spec_i32_from_le_bytes(self@.subrange(index as int, index + 4))),
    {
        match self.get_u32_at(index) {
            Ok(u) => Ok(u32_to_i32(u)),
            Err(e) => Err(e),
        }
    }

    pub fn get_u64_at(&self, index: usize) -> (r: SbeResult<u64>)
        ensures
            spec_get_post(
                true, self@, index as int, 8, r,
                vstd::bytes::spec_u64_from_le_bytes(self@.subrange(index as int, index + 8))),
    {
        if self.data.len() >= 8 && index <= self.data.len() - 8 {
            let s = vstd::slice::slice_subrange(self.data.as_slice(), index, index + 8);
            Ok(vstd::bytes::u64_from_le_bytes(s))
        } else {
            Err(SbeErr::IndexOutOfRange)
        }
    }

    pub fn get_i64_at(&self, index: usize) -> (r: SbeResult<i64>)
        ensures
            spec_get_post(
                true, self@, index as int, 8, r,
                spec_i64_from_le_bytes(self@.subrange(index as int, index + 8))),
    {
        match self.get_u64_at(index) {
            Ok(u) => Ok(u64_to_i64(u)),
            Err(e) => Err(e),
        }
    }
}

/// Write capability over the buffer of the enclosing message frame,
/// possibly reached through a chain of nested frames.
pub trait Writer: Sized {
    /// Whether the chain of enclosing frames is intact down to the buffer.
    spec fn writer_ready(&self) -> bool;

    /// The bytes of the underlying buffer.
    spec fn wbytes(&self) -> Seq<u8>;

    /// The start offset of the underlying message frame.
    spec fn wstart(&self) -> int;

    /// The limit of the underlying message frame.
    spec fn wlimit(&self) -> int;

    fn put_u8_at(&mut self, index: usize, value: u8) -> (r: SbeResult<()>)
        ensures
            final(self).writer_ready() == old(self).writer_ready(),
            final(self).wstart() == old(self).wstart(),
            final(self).wlimit() == old(self).wlimit(),
            spec_put_post(
                old(self).writer_ready(), old(self).wbytes(), final(self).wbytes(),
                index as int, seq![value], r);

    fn put_u16_at(&mut self, index: usize, value: u16) -> (r: SbeResult<()>)
        ensures
            final(self).writer_ready() == old(self).writer_ready(),
            final(self).wstart() == old(self).wstart(),
            final(self).wlimit() == old(self).wlimit(),
            spec_put_post(
                old(self).writer_ready(), old(self).wbytes(), final(self).wbytes(),
                index as int, vstd::bytes::spec_u16_to_le_bytes(value), r);

    fn put_u32_at(&mut self, index: usize, value: u32) -> (r: SbeResult<()>)
        ensures
            final(self).writer_ready() == old(self).writer_ready(),
            final(self).wstart() == old(self).wstart(),
            final(self).wlimit() == old(self).wlimit(),
            spec_put_post(
                old(self).writer_ready(), old(self).wbytes(), final(self).wbytes(),
                index as int, vstd::bytes::spec_u32_to_le_bytes(value), r);

    fn put_u64_at(&mut self, index: usize, value: u64) -> (r: SbeResult<()>)
        ensures
            final(self).writer_ready() == old(self).writer_ready(),
            final(self).wstart() == old(self).wstart(),
            final(self).wlimit() == old(self).wlimit(),
            spec_put_post(
                old(self).writer_ready(), old(self).wbytes(), final(self).wbytes(),
                index as int, vstd::bytes::spec_u64_to_le_bytes(value), r);

    fn put_i64_at(&mut self, index: usize, value: i64) -> (r: SbeResult<()>)
        ensures
            final(self).writer_ready() == old(self).writer_ready(),
            final(self).wstart() == old(self).wstart(),
            final(self).wlimit() == old(self).wlimit(),
            spec_put_post(
                old(self).writer_ready(), old(self).wbytes(), final(self).wbytes(),
                index as int, spec_i64_to_le_bytes(value), r);
}

/// A frame that may extend the limit of the enclosing message frame.
pub trait Encoder: Writer {
    fn get_limit(&self) -> (r: SbeResult<usize>)
        ensures
            self.writer_ready() ==> (r matches Ok(l) && l == self.wlimit()),
            !self.writer_ready() ==> r == Err::<usize, SbeErr>(SbeErr::ParentNotSet);

    fn set_limit(&mut self, limit: usize) -> (r: SbeResult<()>)
        ensures
            final(self).writer_ready() == old(self).writer_ready(),
            final(self).wbytes() == old(self).wbytes(),
            final(self).wstart() == old(self).wstart(),
            old(self).writer_ready() ==> r == Ok::<(), SbeErr>(()) && final(self).wlimit()
                == limit,
            !old(self).writer_ready() ==> r == Err::<(), SbeErr>(SbeErr::ParentNotSet)
                && final(self).wlimit() == old(self).wlimit();
}

/// Read capability over the buffer of the enclosing message frame,
/// possibly reached through a chain of nested frames.
pub trait Reader: Sized {
    /// Whether the chain of enclosing frames is intact down to the buffer.
    spec fn reader_ready(&self) -> bool;

    /// The bytes of the underlying buffer.
    spec fn rbytes(&self) -> Seq<u8>;

    /// The start offset of the underlying message frame.
    spec fn rstart(&self) -> int;

    /// The limit of the underlying message frame.
    spec fn rlimit(&self) -> int;

    fn get_u8_at(&self, index: usize) -> (r: SbeResult<u8>)
        ensures
            spec_get_post(
                self.reader_ready(), self.rbytes(), index as int, 1, r,
                self.rbytes()[index as int]);

    fn get_u16_at(&self, index: usize) -> (r: SbeResult<u16>)
        ensures
            spec_get_post(
                self.reader_ready(), self.rbytes(), index as int, 2, r,
                vstd::bytes::spec_u16_from_le_bytes(
                    self.rbytes().subrange(index as int, index + 2)));

    fn get_u32_at(&self, index: usize) -> (r: SbeResult<u32>)
        ensures
            spec_get_post(
                self.reader_ready(), self.rbytes(), index as int, 4, r,
                vstd::bytes::spec_u32_from_le_bytes(
                    self.rbytes().subrange(index as int, index + 4)));

    fn get_u64_at(&self, index: usize) -> (r: SbeResult<u64>)
        ensures
            spec_get_post(
                self.reader_ready(), self.rbytes(), index as int, 8, r,
                vstd::bytes::spec_u64_from_le_bytes(
                    self.rbytes().subrange(index as int, index + 8)));

    fn get_i64_at(&self, index: usize) -> (r: SbeResult<i64>)
        ensures
            spec_get_post(
                self.reader_ready(), self.rbytes(), index as int, 8, r,
                spec_i64_from_le_bytes(self.rbytes().subrange(index as int, index + 8)));
}

/// A frame that may advance the read limit of the enclosing message frame.
pub trait Decoder: Reader {
    fn get_limit(&self) -> (r: SbeResult<usize>)
        ensures
            self.reader_ready() ==> (r matches Ok(l) && l == self.rlimit()),
            !self.reader_ready() ==> r == Err::<usize, SbeErr>(SbeErr::ParentNotSet);

    fn set_limit(&mut self, limit: usize) -> (r: SbeResult<()>)
        ensures
            final(self).reader_ready() == old(self).reader_ready(),
            final(self).rbytes() == old(self).rbytes(),
            final(self).rstart() == old(self).rstart(),
            old(self).reader_ready() ==> r == Ok::<(), SbeErr>(()) && final(self).rlimit()
                == limit,
            !old(self).reader_ready() ==> r == Err::<(), SbeErr>(SbeErr::ParentNotSet)
                && final(self).rlimit() == old(self).rlimit();
}

impl Reader for ReadBuf {
    open spec fn reader_ready(&self) -> bool {
        true
    }

    open spec fn rbytes(&self) -> Seq<u8> {
        self@
    }

    open spec fn rstart(&self) -> int {
        0
    }

    open spec fn rlimit(&self) -> int {
        0
    }

    fn get_u8_at(&self, index: usize) -> (r: SbeResult<u8>) {
        ReadBuf::get_u8_at(self, index)
    }

    fn get_u16_at(&self, index: usize) -> (r: SbeResult<u16>) {
        ReadBuf::get_u16_at(self, index)
    }

    fn get_u32_at(&self, index: usize) -> (r: SbeResult<u32>) {
        ReadBuf::get_u32_at(self, index)
    }

    fn get_u64_at(&self, index: usize) -> (r: SbeResult<u64>) {
        ReadBuf::get_u64_at(self, index)
    }

    fn get_i64_at(&self, index: usize) -> (r: SbeResult<i64>) {
        ReadBuf::get_i64_at(self, index)
    }
}


impl Default for WriteBuf {
    fn default() -> (r: Self)
        ensures
            r@ == Seq::<u8>::empty(),
    {
        WriteBuf { data: Vec::new() }
    }
}

impl Default for ReadBuf {
    fn default() -> (r: Self)
        ensures
            r@ == Seq::<u8>::empty(),
    {
        ReadBuf { data: Vec::new() }
    }
}

} // verus!
