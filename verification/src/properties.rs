//! The laws of the codec runtime, stated over the same specification
//! functions that the executable codecs' contracts use: field-for-field
//! round trips for every message kind and for the group element
//! composite, the dimension header round trip, and length accounting for
//! a fully encoded message with repeating groups.
use crate::exec_type::ExecType;
use crate::message_header_codec::HeaderFields;
use crate::message_header_codec::lemma_header_round_trip;
use crate::message_header_codec::spec_header_fields;
use crate::message_header_codec::spec_write_header;
use crate::group::spec_group_advance_n;
use crate::group::spec_group_open;
use crate::order_reject_reason::OrderRejectReason;
use crate::order_side::OrderSide;
use crate::order_status::OrderStatus;
use crate::order_type::OrderType;
use crate::spec_write_bytes;
use crate::strategy::Strategy;
use crate::time_in_force::TimeInForce;
use crate::update_action::UpdateAction;
use vstd::assert_seqs_equal;
use vstd::prelude::*;

verus! {

/// The fixed-block field values of one new-order message.
pub struct NewOrderSingleFields {
    pub cl_ord_id: u64,
    pub cl_ord_link_id: u64,
    pub instrument_id: u32,
    pub target_comp_id: u32,
    pub source_comp_id: u32,
    pub side: OrderSide,
    pub order_type: OrderType,
    pub time_in_force: TimeInForce,
    pub transact_time: u64,
    pub effective_time: u64,
    pub expire_time: u64,
    pub target_strategy: Strategy,
    pub source_strategy: Strategy,
}

/// The buffer after the fields of one new-order fixed block are
/// written at `off`, in declaration order.
pub open spec fn spec_encode_new_order_single(s: Seq<u8>, off: int, f: NewOrderSingleFields) -> Seq<u8> {
    crate::spec_write_bytes(
        crate::spec_write_bytes(
        crate::spec_write_bytes(
        crate::spec_write_bytes(
        crate::spec_write_bytes(
        crate::spec_write_bytes(
        crate::spec_write_bytes(
        crate::spec_write_bytes(
        crate::spec_write_bytes(
        crate::spec_write_bytes(
        crate::spec_write_bytes(
        crate::spec_write_bytes(
        crate::spec_write_bytes(
        s,
        off, vstd::bytes::spec_u64_to_le_bytes(f.cl_ord_id)),
        off + 8, vstd::bytes::spec_u64_to_le_bytes(f.cl_ord_link_id)),
        off + 16, vstd::bytes::spec_u32_to_le_bytes(f.instrument_id)),
        off + 20, vstd::bytes::spec_u32_to_le_bytes(f.target_comp_id)),
        off + 24, vstd::bytes::spec_u32_to_le_bytes(f.source_comp_id)),
        off + 28, seq![f.side.spec_to_raw()]),
        off + 29, seq![f.order_type.spec_to_raw()]),
        off + 46, seq![f.time_in_force.spec_to_raw()]),
        off + 47, vstd::bytes::spec_u64_to_le_bytes(f.transact_time)),
        off + 55, vstd::bytes::spec_u64_to_le_bytes(f.effective_time)),
        off + 63, vstd::bytes::spec_u64_to_le_bytes(f.expire_time)),
        off + 71, seq![f.target_strategy.spec_to_raw()]),
        off + 72, seq![f.source_strategy.spec_to_raw()])
}

/// The fields of one new-order fixed block read from `s` at `off`.
pub open spec fn spec_decode_new_order_single(s: Seq<u8>, off: int) -> NewOrderSingleFields {
    NewOrderSingleFields {
        cl_ord_id: vstd::bytes::spec_u64_from_le_bytes(s.subrange(off, off + 8)),
        cl_ord_link_id: vstd::bytes::spec_u64_from_le_bytes(s.subrange(off + 8, off + 16)),
        instrument_id: vstd::bytes::spec_u32_from_le_bytes(s.subrange(off + 16, off + 20)),
        target_comp_id: vstd::bytes::spec_u32_from_le_bytes(s.subrange(off + 20, off + 24)),
        source_comp_id: vstd::bytes::spec_u32_from_le_bytes(s.subrange(off + 24, off + 28)),
        side: OrderSide::spec_from_raw(s[off + 28]),
        order_type: OrderType::spec_from_raw(s[off + 29]),
        time_in_force: TimeInForce::spec_from_raw(s[off + 46]),
        transact_time: vstd::bytes::spec_u64_from_le_bytes(s.subrange(off + 47, off + 55)),
        effective_time: vstd::bytes::spec_u64_from_le_bytes(s.subrange(off + 55, off + 63)),
        expire_time: vstd::bytes::spec_u64_from_le_bytes(s.subrange(off + 63, off + 71)),
        target_strategy: Strategy::spec_from_raw(s[off + 71]),
        source_strategy: Strategy::spec_from_raw(s[off + 72]),
    }
}

/// Round-trip: encoding every field and decoding them back yields
/// field-for-field equality, whatever the buffer held before.
pub proof fn lemma_new_order_single_round_trip(s: Seq<u8>, off: int, f: NewOrderSingleFields)
    requires
        0 <= off,
        off + 73 <= s.len(),
    ensures
        spec_decode_new_order_single(spec_encode_new_order_single(s, off, f), off) == f,
{
    vstd::bytes::lemma_auto_spec_u32_to_from_le_bytes();
    vstd::bytes::lemma_auto_spec_u64_to_from_le_bytes();
    let t = spec_encode_new_order_single(s, off, f);
    assert_seqs_equal!(t.subrange(off, off + 8) == vstd::bytes::spec_u64_to_le_bytes(f.cl_ord_id));
    assert_seqs_equal!(t.subrange(off + 8, off + 16) == vstd::bytes::spec_u64_to_le_bytes(f.cl_ord_link_id));
    assert_seqs_equal!(t.subrange(off + 16, off + 20) == vstd::bytes::spec_u32_to_le_bytes(f.instrument_id));
    assert_seqs_equal!(t.subrange(off + 20, off + 24) == vstd::bytes::spec_u32_to_le_bytes(f.target_comp_id));
    assert_seqs_equal!(t.subrange(off + 24, off + 28) == vstd::bytes::spec_u32_to_le_bytes(f.source_comp_id));
    assert(t[off + 28] == f.side.spec_to_raw());
    assert(t[off + 29] == f.order_type.spec_to_raw());
    assert(t[off + 46] == f.time_in_force.spec_to_raw());
    assert_seqs_equal!(t.subrange(off + 47, off + 55) == vstd::bytes::spec_u64_to_le_bytes(f.transact_time));
    assert_seqs_equal!(t.subrange(off + 55, off + 63) == vstd::bytes::spec_u64_to_le_bytes(f.effective_time));
    assert_seqs_equal!(t.subrange(off + 63, off + 71) == vstd::bytes::spec_u64_to_le_bytes(f.expire_time));
    assert(t[off + 71] == f.target_strategy.spec_to_raw());
    assert(t[off + 72] == f.source_strategy.spec_to_raw());
}

/// The fixed-block field values of one order-cancel request message.
pub struct OrderCancelRequestFields {
    pub orig_cl_ord_id: u64,
    pub order_id: u64,
    pub cl_ord_id: u64,
    pub instrument_id: u32,
    pub target_comp_id: u32,
    pub source_comp_id: u32,
    pub target_strategy: Strategy,
    pub source_strategy: Strategy,
    pub side: OrderSide,
    pub transact_time: u64,
}

/// The buffer after the fields of one order-cancel request fixed block are
/// written at `off`, in declaration order.
pub open spec fn spec_encode_order_cancel_request(s: Seq<u8>, off: int, f: OrderCancelRequestFields) -> Seq<u8> {
    crate::spec_write_bytes(
        crate::spec_write_bytes(
        crate::spec_write_bytes(
        crate::spec_write_bytes(
        crate::spec_write_bytes(
        crate::spec_write_bytes(
        crate::spec_write_bytes(
        crate::spec_write_bytes(
        crate::spec_write_bytes(
        crate::spec_write_bytes(
        s,
        off, vstd::bytes::spec_u64_to_le_bytes(f.orig_cl_ord_id)),
        off + 8, vstd::bytes::spec_u64_to_le_bytes(f.order_id)),
        off + 16, vstd::bytes::spec_u64_to_le_bytes(f.cl_ord_id)),
        off + 24, vstd::bytes::spec_u32_to_le_bytes(f.instrument_id)),
        off + 28, vstd::bytes::spec_u32_to_le_bytes(f.target_comp_id)),
        off + 32, vstd::bytes::spec_u32_to_le_bytes(f.source_comp_id)),
        off + 36, seq![f.target_strategy.spec_to_raw()]),
        off + 37, seq![f.source_strategy.spec_to_raw()]),
        off + 38, seq![f.side.spec_to_raw()]),
        off + 47, vstd::bytes::spec_u64_to_le_bytes(f.transact_time))
}

/// The fields of one order-cancel request fixed block read from `s` at `off`.
pub open spec fn spec_decode_order_cancel_request(s: Seq<u8>, off: int) -> OrderCancelRequestFields {
    OrderCancelRequestFields {
        orig_cl_ord_id: vstd::bytes::spec_u64_from_le_bytes(s.subrange(off, off + 8)),
        order_id: vstd::bytes::spec_u64_from_le_bytes(s.subrange(off + 8, off + 16)),
        cl_ord_id: vstd::bytes::spec_u64_from_le_bytes(s.subrange(off + 16, off + 24)),
        instrument_id: vstd::bytes::spec_u32_from_le_bytes(s.subrange(off + 24, off + 28)),
        target_comp_id: vstd::bytes::spec_u32_from_le_bytes(s.subrange(off + 28, off + 32)),
        source_comp_id: vstd::bytes::spec_u32_from_le_bytes(s.subrange(off + 32, off + 36)),
        target_strategy: Strategy::spec_from_raw(s[off + 36]),
        source_strategy: Strategy::spec_from_raw(s[off + 37]),
        side: OrderSide::spec_from_raw(s[off + 38]),
        transact_time: vstd::bytes::spec_u64_from_le_bytes(s.subrange(off + 47, off + 55)),
    }
}

/// Round-trip: encoding every field and decoding them back yields
/// field-for-field equality, whatever the buffer held before.
pub proof fn lemma_order_cancel_request_round_trip(s: Seq<u8>, off: int, f: OrderCancelRequestFields)
    requires
        0 <= off,
        off + 55 <= s.len(),
    ensures
        spec_decode_order_cancel_request(spec_encode_order_cancel_request(s, off, f), off) == f,
{
    vstd::bytes::lemma_auto_spec_u32_to_from_le_bytes();
    vstd::bytes::lemma_auto_spec_u64_to_from_le_bytes();
    let t = spec_encode_order_cancel_request(s, off, f);
    assert_seqs_equal!(t.subrange(off, off + 8) == vstd::bytes::spec_u64_to_le_bytes(f.orig_cl_ord_id));
    assert_seqs_equal!(t.subrange(off + 8, off + 16) == vstd::bytes::spec_u64_to_le_bytes(f.order_id));
    assert_seqs_equal!(t.subrange(off + 16, off + 24) == vstd::bytes::spec_u64_to_le_bytes(f.cl_ord_id));
    assert_seqs_equal!(t.subrange(off + 24, off + 28) == vstd::bytes::spec_u32_to_le_bytes(f.instrument_id));
    assert_seqs_equal!(t.subrange(off + 28, off + 32) == vstd::bytes::spec_u32_to_le_bytes(f.target_comp_id));
    assert_seqs_equal!(t.subrange(off + 32, off + 36) == vstd::bytes::spec_u32_to_le_bytes(f.source_comp_id));
    assert(t[off + 36] == f.target_strategy.spec_to_raw());
    assert(t[off + 37] == f.source_strategy.spec_to_raw());
    assert(t[off + 38] == f.side.spec_to_raw());
    assert_seqs_equal!(t.subrange(off + 47, off + 55) == vstd::bytes::spec_u64_to_le_bytes(f.transact_time));
}

/// The fixed-block field values of one execution-report message.
pub struct ExecutionReportFields {
    pub cl_ord_id: u64,
    pub cl_ord_link_id: u64,
    pub instrument_id: u32,
    pub target_comp_id: u32,
    pub source_comp_id: u32,
    pub side: OrderSide,
    pub order_type: OrderType,
    pub time_in_force: TimeInForce,
    pub transact_time: u64,
    pub effective_time: u64,
    pub expire_time: u64,
    pub target_strategy: Strategy,
    pub source_strategy: Strategy,
    pub orig_cl_ord_id: u64,
    pub exec_id: u64,
    pub order_id: u64,
    pub exec_type: ExecType,
    pub order_status: OrderStatus,
    pub order_rej_reason: OrderRejectReason,
}

/// The buffer after the fields of one execution-report fixed block are
/// written at `off`, in declaration order.
pub open spec fn spec_encode_execution_report(s: Seq<u8>, off: int, f: ExecutionReportFields) -> Seq<u8> {
    crate::spec_write_bytes(
        crate::spec_write_bytes(
        crate::spec_write_bytes(
        crate::spec_write_bytes(
        crate::spec_write_bytes(
        crate::spec_write_bytes(
        crate::spec_write_bytes(
        crate::spec_write_bytes(
        crate::spec_write_bytes(
        crate::spec_write_bytes(
        crate::spec_write_bytes(
        crate::spec_write_bytes(
        crate::spec_write_bytes(
        crate::spec_write_bytes(
        crate::spec_write_bytes(
        crate::spec_write_bytes(
        crate::spec_write_bytes(
        crate::spec_write_bytes(
        crate::spec_write_bytes(
        s,
        off, vstd::bytes::spec_u64_to_le_bytes(f.cl_ord_id)),
        off + 8, vstd::bytes::spec_u64_to_le_bytes(f.cl_ord_link_id)),
        off + 16, vstd::bytes::spec_u32_to_le_bytes(f.instrument_id)),
        off + 20, vstd::bytes::spec_u32_to_le_bytes(f.target_comp_id)),
        off + 24, vstd::bytes::spec_u32_to_le_bytes(f.source_comp_id)),
        off + 28, seq![f.side.spec_to_raw()]),
        off + 29, seq![f.order_type.spec_to_raw()]),
        off + 46, seq![f.time_in_force.spec_to_raw()]),
        off + 47, vstd::bytes::spec_u64_to_le_bytes(f.transact_time)),
        off + 55, vstd::bytes::spec_u64_to_le_bytes(f.effective_time)),
        off + 63, vstd::bytes::spec_u64_to_le_bytes(f.expire_time)),
        off + 71, seq![f.target_strategy.spec_to_raw()]),
        off + 72, seq![f.source_strategy.spec_to_raw()]),
        off + 73, vstd::bytes::spec_u64_to_le_bytes(f.orig_cl_ord_id)),
        off + 81, vstd::bytes::spec_u64_to_le_bytes(f.exec_id)),
        off + 89, vstd::bytes::spec_u64_to_le_bytes(f.order_id)),
        off + 97, seq![f.exec_type.spec_to_raw()]),
        off + 98, seq![f.order_status.spec_to_raw()]),
        off + 99, seq![f.order_rej_reason.spec_to_raw()])
}

/// The fields of one execution-report fixed block read from `s` at `off`.
pub open spec fn spec_decode_execution_report(s: Seq<u8>, off: int) -> ExecutionReportFields {
    ExecutionReportFields {
        cl_ord_id: vstd::bytes::spec_u64_from_le_bytes(s.subrange(off, off + 8)),
        cl_ord_link_id: vstd::bytes::spec_u64_from_le_bytes(s.subrange(off + 8, off + 16)),
        instrument_id: vstd::bytes::spec_u32_from_le_bytes(s.subrange(off + 16, off + 20)),
        target_comp_id: vstd::bytes::spec_u32_from_le_bytes(s.subrange(off + 20, off + 24)),
        source_comp_id: vstd::bytes::spec_u32_from_le_bytes(s.subrange(off + 24, off + 28)),
        side: OrderSide::spec_from_raw(s[off + 28]),
        order_type: OrderType::spec_from_raw(s[off + 29]),
        time_in_force: TimeInForce::spec_from_raw(s[off + 46]),
        transact_time: vstd::bytes::spec_u64_from_le_bytes(s.subrange(off + 47, off + 55)),
        effective_time: vstd::bytes::spec_u64_from_le_bytes(s.subrange(off + 55, off + 63)),
        expire_time: vstd::bytes::spec_u64_from_le_bytes(s.subrange(off + 63, off + 71)),
        target_strategy: Strategy::spec_from_raw(s[off + 71]),
        source_strategy: Strategy::spec_from_raw(s[off + 72]),
        orig_cl_ord_id: vstd::bytes::spec_u64_from_le_bytes(s.subrange(off + 73, off + 81)),
        exec_id: vstd::bytes::spec_u64_from_le_bytes(s.subrange(off + 81, off + 89)),
        order_id: vstd::bytes::spec_u64_from_le_bytes(s.subrange(off + 89, off + 97)),
        exec_type: ExecType::spec_from_raw(s[off + 97]),
        order_status: OrderStatus::spec_from_raw(s[off + 98]),
        order_rej_reason: OrderRejectReason::spec_from_raw(s[off + 99]),
    }
}

/// Round-trip: encoding every field and decoding them back yields
/// field-for-field equality, whatever the buffer held before.
pub proof fn lemma_execution_report_round_trip(s: Seq<u8>, off: int, f: ExecutionReportFields)
    requires
        0 <= off,
        off + 140 <= s.len(),
    ensures
        spec_decode_execution_report(spec_encode_execution_report(s, off, f), off) == f,
{
    vstd::bytes::lemma_auto_spec_u32_to_from_le_bytes();
    vstd::bytes::lemma_auto_spec_u64_to_from_le_bytes();
    let t = spec_encode_execution_report(s, off, f);
    assert_seqs_equal!(t.subrange(off, off + 8) == vstd::bytes::spec_u64_to_le_bytes(f.cl_ord_id));
    assert_seqs_equal!(t.subrange(off + 8, off + 16) == vstd::bytes::spec_u64_to_le_bytes(f.cl_ord_link_id));
    assert_seqs_equal!(t.subrange(off + 16, off + 20) == vstd::bytes::spec_u32_to_le_bytes(f.instrument_id));
    assert_seqs_equal!(t.subrange(off + 20, off + 24) == vstd::bytes::spec_u32_to_le_bytes(f.target_comp_id));
    assert_seqs_equal!(t.subrange(off + 24, off + 28) == vstd::bytes::spec_u32_to_le_bytes(f.source_comp_id));
    assert(t[off + 28] == f.side.spec_to_raw());
    assert(t[off + 29] == f.order_type.spec_to_raw());
    assert(t[off + 46] == f.time_in_force.spec_to_raw());
    assert_seqs_equal!(t.subrange(off + 47, off + 55) == vstd::bytes::spec_u64_to_le_bytes(f.transact_time));
    assert_seqs_equal!(t.subrange(off + 55, off + 63) == vstd::bytes::spec_u64_to_le_bytes(f.effective_time));
    assert_seqs_equal!(t.subrange(off + 63, off + 71) == vstd::bytes::spec_u64_to_le_bytes(f.expire_time));
    assert(t[off + 71] == f.target_strategy.spec_to_raw());
    assert(t[off + 72] == f.source_strategy.spec_to_raw());
    assert_seqs_equal!(t.subrange(off + 73, off + 81) == vstd::bytes::spec_u64_to_le_bytes(f.orig_cl_ord_id));
    assert_seqs_equal!(t.subrange(off + 81, off + 89) == vstd::bytes::spec_u64_to_le_bytes(f.exec_id));
    assert_seqs_equal!(t.subrange(off + 89, off + 97) == vstd::bytes::spec_u64_to_le_bytes(f.order_id));
    assert(t[off + 97] == f.exec_type.spec_to_raw());
    assert(t[off + 98] == f.order_status.spec_to_raw());
    assert(t[off + 99] == f.order_rej_reason.spec_to_raw());
}

/// The fixed-block field values of one price-level increment message.
pub struct PriceIncrementFields {
    pub comp_id: u32,
    pub instrument_id: u32,
}

/// The buffer after the fields of one price-level increment message's fixed block are
/// written at `off`, in declaration order.
pub open spec fn spec_encode_price_increment(s: Seq<u8>, off: int, f: PriceIncrementFields) -> Seq<u8> {
    crate::spec_write_bytes(
        crate::spec_write_bytes(
        s,
        off, vstd::bytes::spec_u32_to_le_bytes(f.comp_id)),
        off + 4, vstd::bytes::spec_u32_to_le_bytes(f.instrument_id))
}

/// The fields of one price-level increment message's fixed block read from `s` at `off`.
pub open spec fn spec_decode_price_increment(s: Seq<u8>, off: int) -> PriceIncrementFields {
    PriceIncrementFields {
        comp_id: vstd::bytes::spec_u32_from_le_bytes(s.subrange(off, off + 4)),
        instrument_id: vstd::bytes::spec_u32_from_le_bytes(s.subrange(off + 4, off + 8)),
    }
}

/// Round-trip: encoding every field and decoding them back yields
/// field-for-field equality, whatever the buffer held before.
pub proof fn lemma_price_increment_round_trip(s: Seq<u8>, off: int, f: PriceIncrementFields)
    requires
        0 <= off,
        off + 8 <= s.len(),
    ensures
        spec_decode_price_increment(spec_encode_price_increment(s, off, f), off) == f,
{
    vstd::bytes::lemma_auto_spec_u32_to_from_le_bytes();
    vstd::bytes::lemma_auto_spec_u64_to_from_le_bytes();
    let t = spec_encode_price_increment(s, off, f);
    assert_seqs_equal!(t.subrange(off, off + 4) == vstd::bytes::spec_u32_to_le_bytes(f.comp_id));
    assert_seqs_equal!(t.subrange(off + 4, off + 8) == vstd::bytes::spec_u32_to_le_bytes(f.instrument_id));
}

/// The fixed-block field values of one group element: a price level plus its update action.
pub struct PriceLevelIncrementFields {
    pub id: u32,
    pub transact_time: i64,
    pub update_action: UpdateAction,
}

/// The buffer after the fields of one group element are
/// written at `off`, in declaration order.
pub open spec fn spec_encode_price_level_increment(s: Seq<u8>, off: int, f: PriceLevelIncrementFields) -> Seq<u8> {
    crate::spec_write_bytes(
        crate::spec_write_bytes(
        crate::spec_write_bytes(
        s,
        off, vstd::bytes::spec_u32_to_le_bytes(f.id)),
        off + 20, crate::spec_i64_to_le_bytes(f.transact_time)),
        off + 28, seq![f.update_action.spec_to_raw()])
}

/// The fields of one group element read from `s` at `off`.
pub open spec fn spec_decode_price_level_increment(s: Seq<u8>, off: int) -> PriceLevelIncrementFields {
    PriceLevelIncrementFields {
        id: vstd::bytes::spec_u32_from_le_bytes(s.subrange(off, off + 4)),
        transact_time: crate::spec_i64_from_le_bytes(s.subrange(off + 20, off + 28)),
        update_action: UpdateAction::spec_from_raw(s[off + 28]),
    }
}

/// Round-trip: encoding every field and decoding them back yields
/// field-for-field equality, whatever the buffer held before.
pub proof fn lemma_price_level_increment_round_trip(s: Seq<u8>, off: int, f: PriceLevelIncrementFields)
    requires
        0 <= off,
        off + 29 <= s.len(),
    ensures
        spec_decode_price_level_increment(spec_encode_price_level_increment(s, off, f), off) == f,
{
    vstd::bytes::lemma_auto_spec_u32_to_from_le_bytes();
    vstd::bytes::lemma_auto_spec_u64_to_from_le_bytes();
    crate::lemma_signed_unsigned_round_trip();
    let t = spec_encode_price_level_increment(s, off, f);
    assert_seqs_equal!(t.subrange(off, off + 4) == vstd::bytes::spec_u32_to_le_bytes(f.id));
    assert_seqs_equal!(t.subrange(off + 20, off + 28) == crate::spec_i64_to_le_bytes(f.transact_time));
    assert(t[off + 28] == f.update_action.spec_to_raw());
}

/// Reading back a freshly written group dimension header yields the
/// element block length and count that were written.
pub proof fn lemma_dimension_header_round_trip(s: Seq<u8>, limit: int, block_length: u8, count: u8)
    requires
        0 <= limit,
        limit + 2 <= s.len(),
    ensures
        spec_write_bytes(s, limit, seq![block_length, count])[limit] == block_length,
        spec_write_bytes(s, limit, seq![block_length, count])[limit + 1] == count,
{
}

/// Length accounting for the price-level increment message: after the
/// fixed block and both groups are driven to exhaustion, the encoded
/// length is the fixed block length plus, for each group, its 2-byte
/// dimension header plus count times the element block length.
pub proof fn lemma_price_increment_length_accounting(offset: int, nbids: u8, noffers: u8)
    ensures
        ({
            let after_block = offset + 8;
            let after_bids = spec_group_advance_n(
                spec_group_open(after_block, nbids as int, 29), nbids as nat).limit;
            let after_offers = spec_group_advance_n(
                spec_group_open(after_bids, noffers as int, 29), noffers as nat).limit;
            after_offers - offset == 8 + (2 + nbids as int * 29) + (2 + noffers as int * 29)
        }),
{
    crate::group::lemma_group_length_accounting(offset + 8, nbids as int, 29);
    let after_bids = spec_group_advance_n(
        spec_group_open(offset + 8, nbids as int, 29), nbids as nat).limit;
    crate::group::lemma_group_length_accounting(after_bids, noffers as int, 29);
}

/// Whole-message round-trip for the NewOrderSingle kind: writing the header
/// preamble at the start of the buffer and the fixed block right after
/// it, then decoding both, yields the original header fields and the
/// original body fields.
pub proof fn lemma_new_order_single_message_round_trip(s: Seq<u8>, h: HeaderFields, f: NewOrderSingleFields)
    requires
        81 <= s.len(),
    ensures
        ({
            let t = spec_encode_new_order_single(spec_write_header(s, 0, h), 8, f);
            &&& spec_header_fields(t, 0) == h
            &&& spec_decode_new_order_single(t, 8) == f
        }),
{
    vstd::bytes::lemma_auto_spec_u16_to_from_le_bytes();
    let s0 = spec_write_header(s, 0, h);
    let t = spec_encode_new_order_single(s0, 8, f);
    lemma_header_round_trip(s, 0, h);
    assert_seqs_equal!(t.subrange(0, 2) == s0.subrange(0, 2));
    assert_seqs_equal!(t.subrange(2, 4) == s0.subrange(2, 4));
    assert_seqs_equal!(t.subrange(4, 6) == s0.subrange(4, 6));
    assert_seqs_equal!(t.subrange(6, 8) == s0.subrange(6, 8));
    lemma_new_order_single_round_trip(s0, 8, f);
}

/// Whole-message round-trip for the OrderCancelRequest kind: writing the header
/// preamble at the start of the buffer and the fixed block right after
/// it, then decoding both, yields the original header fields and the
/// original body fields.
pub proof fn lemma_order_cancel_request_message_round_trip(s: Seq<u8>, h: HeaderFields, f: OrderCancelRequestFields)
    requires
        63 <= s.len(),
    ensures
        ({
            let t = spec_encode_order_cancel_request(spec_write_header(s, 0, h), 8, f);
            &&& spec_header_fields(t, 0) == h
            &&& spec_decode_order_cancel_request(t, 8) == f
        }),
{
    vstd::bytes::lemma_auto_spec_u16_to_from_le_bytes();
    let s0 = spec_write_header(s, 0, h);
    let t = spec_encode_order_cancel_request(s0, 8, f);
    lemma_header_round_trip(s, 0, h);
    assert_seqs_equal!(t.subrange(0, 2) == s0.subrange(0, 2));
    assert_seqs_equal!(t.subrange(2, 4) == s0.subrange(2, 4));
    assert_seqs_equal!(t.subrange(4, 6) == s0.subrange(4, 6));
    assert_seqs_equal!(t.subrange(6, 8) == s0.subrange(6, 8));
    lemma_order_cancel_request_round_trip(s0, 8, f);
}

/// Whole-message round-trip for the ExecutionReport kind: writing the header
/// preamble at the start of the buffer and the fixed block right after
/// it, then decoding both, yields the original header fields and the
/// original body fields.
pub proof fn lemma_execution_report_message_round_trip(s: Seq<u8>, h: HeaderFields, f: ExecutionReportFields)
    requires
        148 <= s.len(),
    ensures
        ({
            let t = spec_encode_execution_report(spec_write_header(s, 0, h), 8, f);
            &&& spec_header_fields(t, 0) == h
            &&& spec_decode_execution_report(t, 8) == f
        }),
{
    vstd::bytes::lemma_auto_spec_u16_to_from_le_bytes();
    let s0 = spec_write_header(s, 0, h);
    let t = spec_encode_execution_report(s0, 8, f);
    lemma_header_round_trip(s, 0, h);
    assert_seqs_equal!(t.subrange(0, 2) == s0.subrange(0, 2));
    assert_seqs_equal!(t.subrange(2, 4) == s0.subrange(2, 4));
    assert_seqs_equal!(t.subrange(4, 6) == s0.subrange(4, 6));
    assert_seqs_equal!(t.subrange(6, 8) == s0.subrange(6, 8));
    lemma_execution_report_round_trip(s0, 8, f);
}

/// Whole-message round-trip for the PriceIncrement kind: writing the header
/// preamble at the start of the buffer and the fixed block right after
/// it, then decoding both, yields the original header fields and the
/// original body fields.
pub proof fn lemma_price_increment_message_round_trip(s: Seq<u8>, h: HeaderFields, f: PriceIncrementFields)
    requires
        16 <= s.len(),
    ensures
        ({
            let t = spec_encode_price_increment(spec_write_header(s, 0, h), 8, f);
            &&& spec_header_fields(t, 0) == h
            &&& spec_decode_price_increment(t, 8) == f
        }),
{
    vstd::bytes::lemma_auto_spec_u16_to_from_le_bytes();
    let s0 = spec_write_header(s, 0, h);
    let t = spec_encode_price_increment(s0, 8, f);
    lemma_header_round_trip(s, 0, h);
    assert_seqs_equal!(t.subrange(0, 2) == s0.subrange(0, 2));
    assert_seqs_equal!(t.subrange(2, 4) == s0.subrange(2, 4));
    assert_seqs_equal!(t.subrange(4, 6) == s0.subrange(4, 6));
    assert_seqs_equal!(t.subrange(6, 8) == s0.subrange(6, 8));
    lemma_price_increment_round_trip(s0, 8, f);
}

} // verus!
