use sbe_codec::ExecType;
use sbe_codec::ExecutionReportDecoder;
use sbe_codec::ExecutionReportEncoder;
use sbe_codec::MessageHeaderDecoder;
use sbe_codec::NewOrderSingleDecoder;
use sbe_codec::NewOrderSingleEncoder;
use sbe_codec::OrderCancelRequestDecoder;
use sbe_codec::OrderCancelRequestEncoder;
use sbe_codec::OrderRejectReason;
use sbe_codec::OrderSide;
use sbe_codec::OrderStatus;
use sbe_codec::OrderType;
use sbe_codec::ReadBuf;
use sbe_codec::SbeErr;
use sbe_codec::Strategy;
use sbe_codec::TimeInForce;
use sbe_codec::WriteBuf;
use sbe_codec::Decoder;
use sbe_codec::Encoder;
use sbe_codec::message_header_codec;

fn encode_new_order(buffer: Vec<u8>) -> Vec<u8> {
    let enc = NewOrderSingleEncoder::default()
        .wrap(WriteBuf::new(buffer), message_header_codec::ENCODED_LENGTH);
    let mut h = enc.header(0).unwrap();
    let mut enc = h.parent().unwrap();
    enc.cl_ord_id(11).unwrap();
    enc.cl_ord_link_id(22).unwrap();
    enc.instrument_id(33).unwrap();
    enc.target_comp_id(44).unwrap();
    enc.source_comp_id(55).unwrap();
    enc.side(OrderSide::BUY).unwrap();
    enc.order_type(OrderType::LIMIT).unwrap();
    enc.time_in_force(TimeInForce::GTC).unwrap();
    enc.transact_time(66).unwrap();
    enc.effective_time(77).unwrap();
    enc.expire_time(88).unwrap();
    enc.target_strategy(Strategy::TWAP).unwrap();
    enc.source_strategy(Strategy::VWAP).unwrap();
    assert_eq!(enc.encoded_length(), 73);
    enc.buf.into_inner()
}

#[test]
fn new_order_round_trip() {
    let bytes = encode_new_order(vec![0u8; 96]);
    let hd = MessageHeaderDecoder::<ReadBuf>::default().wrap(ReadBuf::new(bytes), 0);
    assert_eq!(hd.block_length().unwrap(), 73);
    assert_eq!(hd.template_id().unwrap(), 7);
    assert_eq!(hd.schema_id().unwrap(), 1);
    assert_eq!(hd.version().unwrap(), 0);
    let dec = NewOrderSingleDecoder::default().header(hd).unwrap();
    assert_eq!(dec.encoded_length(), 73);
    assert_eq!(dec.acting_block_length, 73);
    assert_eq!(dec.acting_version, 0);
    assert_eq!(dec.cl_ord_id().unwrap(), 11);
    assert_eq!(dec.cl_ord_link_id().unwrap(), 22);
    assert_eq!(dec.instrument_id().unwrap(), 33);
    assert_eq!(dec.target_comp_id().unwrap(), 44);
    assert_eq!(dec.source_comp_id().unwrap(), 55);
    assert_eq!(dec.side().unwrap(), OrderSide::BUY);
    assert_eq!(dec.order_type().unwrap(), OrderType::LIMIT);
    assert_eq!(dec.time_in_force().unwrap(), TimeInForce::GTC);
    assert_eq!(dec.transact_time().unwrap(), 66);
    assert_eq!(dec.effective_time().unwrap(), 77);
    assert_eq!(dec.expire_time().unwrap(), 88);
    assert_eq!(dec.target_strategy().unwrap(), Strategy::TWAP);
    assert_eq!(dec.source_strategy().unwrap(), Strategy::VWAP);
}

#[test]
fn raw_side_byte_out_of_set_decodes_to_null() {
    // side = BUY (byte 49) on the wire, overwritten with 200
    let mut bytes = encode_new_order(vec![0u8; 96]);
    assert_eq!(bytes[8 + 28], 49);
    bytes[8 + 28] = 200;
    let hd = MessageHeaderDecoder::<ReadBuf>::default().wrap(ReadBuf::new(bytes), 0);
    let dec = NewOrderSingleDecoder::default().header(hd).unwrap();
    assert_eq!(dec.side().unwrap(), OrderSide::NullVal);
}

#[test]
fn newer_schema_version_still_decodes_older_fields() {
    // a producer with a newer schema revision: same template, version 5
    let mut bytes = encode_new_order(vec![0u8; 96]);
    bytes[6] = 5;
    bytes[7] = 0;
    let hd = MessageHeaderDecoder::<ReadBuf>::default().wrap(ReadBuf::new(bytes), 0);
    assert_eq!(hd.version().unwrap(), 5);
    let dec = NewOrderSingleDecoder::default().header(hd).unwrap();
    assert_eq!(dec.acting_version, 5);
    assert_eq!(dec.cl_ord_id().unwrap(), 11);
    assert_eq!(dec.side().unwrap(), OrderSide::BUY);
    assert_eq!(dec.source_strategy().unwrap(), Strategy::VWAP);
}

#[test]
fn shorter_acting_block_keeps_fields_beyond_it_out_of_the_body() {
    // a producer with an older, shorter schema: the body cursor covers
    // only the acting block length it declared
    let mut bytes = encode_new_order(vec![0u8; 96]);
    bytes[0] = 28;
    bytes[1] = 0;
    let hd = MessageHeaderDecoder::<ReadBuf>::default().wrap(ReadBuf::new(bytes), 0);
    let dec = NewOrderSingleDecoder::default().header(hd).unwrap();
    assert_eq!(dec.acting_block_length, 28);
    assert_eq!(dec.encoded_length(), 28);
    // fields inside the acting block decode
    assert_eq!(dec.cl_ord_id().unwrap(), 11);
    assert_eq!(dec.instrument_id().unwrap(), 33);
    assert_eq!(dec.source_comp_id().unwrap(), 55);
    // fields the acting block ends before are absent: the null variant
    // for enumerations, the null sentinel for numeric fields, and the
    // wire bytes beyond the block are never read
    assert_eq!(dec.side().unwrap(), OrderSide::NullVal);
    assert_eq!(dec.order_type().unwrap(), OrderType::NullVal);
    assert_eq!(dec.time_in_force().unwrap(), TimeInForce::NullVal);
    assert_eq!(dec.transact_time().unwrap(), u64::MAX);
    assert_eq!(dec.effective_time().unwrap(), u64::MAX);
    assert_eq!(dec.expire_time().unwrap(), u64::MAX);
    assert_eq!(dec.target_strategy().unwrap(), Strategy::NullVal);
    assert_eq!(dec.source_strategy().unwrap(), Strategy::NullVal);
}

#[test]
fn template_mismatch_is_reported() {
    let bytes = encode_new_order(vec![0u8; 96]);
    let hd = MessageHeaderDecoder::<ReadBuf>::default().wrap(ReadBuf::new(bytes), 0);
    let r = ExecutionReportDecoder::default().header(hd);
    assert!(matches!(r, Err(SbeErr::TemplateMismatch)));
}

#[test]
fn header_into_too_small_buffer_fails() {
    let enc = NewOrderSingleEncoder::default().wrap(WriteBuf::new(vec![0u8; 4]), 8);
    assert!(matches!(enc.header(0), Err(SbeErr::IndexOutOfRange)));
}

#[test]
fn field_write_past_buffer_end_fails() {
    let mut h = NewOrderSingleEncoder::default()
        .wrap(WriteBuf::new(vec![0u8; 20]), 8)
        .header(0)
        .unwrap();
    let mut enc = h.parent().unwrap();
    assert_eq!(enc.cl_ord_id(1), Ok(()));
    assert_eq!(enc.cl_ord_link_id(2), Err(SbeErr::IndexOutOfRange));
}

#[test]
fn header_parent_is_single_use() {
    let enc = NewOrderSingleEncoder::default().wrap(WriteBuf::new(vec![0u8; 96]), 8);
    let mut h = enc.header(0).unwrap();
    let _enc = h.parent().unwrap();
    assert!(matches!(h.parent(), Err(SbeErr::ParentNotSet)));
}

#[test]
fn order_cancel_request_round_trip() {
    let enc = OrderCancelRequestEncoder::default()
        .wrap(WriteBuf::new(vec![0u8; 80]), message_header_codec::ENCODED_LENGTH);
    let mut h = enc.header(0).unwrap();
    let mut enc = h.parent().unwrap();
    enc.orig_cl_ord_id(1).unwrap();
    enc.order_id(2).unwrap();
    enc.cl_ord_id(3).unwrap();
    enc.instrument_id(4).unwrap();
    enc.target_comp_id(5).unwrap();
    enc.source_comp_id(6).unwrap();
    enc.target_strategy(Strategy::SIMULATOR).unwrap();
    enc.source_strategy(Strategy::VENUE).unwrap();
    enc.side(OrderSide::SELL).unwrap();
    enc.transact_time(7).unwrap();
    assert_eq!(enc.encoded_length(), 55);
    let bytes = enc.buf.into_inner();

    let hd = MessageHeaderDecoder::<ReadBuf>::default().wrap(ReadBuf::new(bytes), 0);
    assert_eq!(hd.block_length().unwrap(), 55);
    assert_eq!(hd.template_id().unwrap(), 9);
    let dec = OrderCancelRequestDecoder::default().header(hd).unwrap();
    assert_eq!(dec.orig_cl_ord_id().unwrap(), 1);
    assert_eq!(dec.order_id().unwrap(), 2);
    assert_eq!(dec.cl_ord_id().unwrap(), 3);
    assert_eq!(dec.instrument_id().unwrap(), 4);
    assert_eq!(dec.target_comp_id().unwrap(), 5);
    assert_eq!(dec.source_comp_id().unwrap(), 6);
    assert_eq!(dec.target_strategy().unwrap(), Strategy::SIMULATOR);
    assert_eq!(dec.source_strategy().unwrap(), Strategy::VENUE);
    assert_eq!(dec.side().unwrap(), OrderSide::SELL);
    assert_eq!(dec.transact_time().unwrap(), 7);
}

#[test]
fn execution_report_round_trip() {
    let enc = ExecutionReportEncoder::default()
        .wrap(WriteBuf::new(vec![0u8; 160]), message_header_codec::ENCODED_LENGTH);
    let mut h = enc.header(0).unwrap();
    let mut enc = h.parent().unwrap();
    enc.cl_ord_id(101).unwrap();
    enc.cl_ord_link_id(102).unwrap();
    enc.instrument_id(103).unwrap();
    enc.target_comp_id(104).unwrap();
    enc.source_comp_id(105).unwrap();
    enc.side(OrderSide::BUY).unwrap();
    enc.order_type(OrderType::MARKET).unwrap();
    enc.time_in_force(TimeInForce::IOC).unwrap();
    enc.transact_time(106).unwrap();
    enc.effective_time(107).unwrap();
    enc.expire_time(108).unwrap();
    enc.target_strategy(Strategy::STOP_LOSS).unwrap();
    enc.source_strategy(Strategy::SWEEPER).unwrap();
    enc.orig_cl_ord_id(109).unwrap();
    enc.exec_id(110).unwrap();
    enc.order_id(111).unwrap();
    enc.exec_type(ExecType::PARTIAL_FILL).unwrap();
    enc.order_status(OrderStatus::PARTIALLY_FILLED).unwrap();
    enc.order_rej_reason(OrderRejectReason::NullVal).unwrap();
    assert_eq!(enc.encoded_length(), 140);
    let bytes = enc.buf.into_inner();

    let hd = MessageHeaderDecoder::<ReadBuf>::default().wrap(ReadBuf::new(bytes), 0);
    assert_eq!(hd.block_length().unwrap(), 140);
    assert_eq!(hd.template_id().unwrap(), 8);
    let dec = ExecutionReportDecoder::default().header(hd).unwrap();
    assert_eq!(dec.cl_ord_id().unwrap(), 101);
    assert_eq!(dec.cl_ord_link_id().unwrap(), 102);
    assert_eq!(dec.instrument_id().unwrap(), 103);
    assert_eq!(dec.target_comp_id().unwrap(), 104);
    assert_eq!(dec.source_comp_id().unwrap(), 105);
    assert_eq!(dec.side().unwrap(), OrderSide::BUY);
    assert_eq!(dec.order_type().unwrap(), OrderType::MARKET);
    assert_eq!(dec.time_in_force().unwrap(), TimeInForce::IOC);
    assert_eq!(dec.transact_time().unwrap(), 106);
    assert_eq!(dec.effective_time().unwrap(), 107);
    assert_eq!(dec.expire_time().unwrap(), 108);
    assert_eq!(dec.target_strategy().unwrap(), Strategy::STOP_LOSS);
    assert_eq!(dec.source_strategy().unwrap(), Strategy::SWEEPER);
    assert_eq!(dec.orig_cl_ord_id().unwrap(), 109);
    assert_eq!(dec.exec_id().unwrap(), 110);
    assert_eq!(dec.order_id().unwrap(), 111);
    assert_eq!(dec.exec_type().unwrap(), ExecType::PARTIAL_FILL);
    assert_eq!(dec.order_status().unwrap(), OrderStatus::PARTIALLY_FILLED);
    assert_eq!(dec.order_rej_reason().unwrap(), OrderRejectReason::NullVal);
}

#[test]
fn limit_starts_after_the_fixed_block_and_only_grows() {
    let mut enc = NewOrderSingleEncoder::default().wrap(WriteBuf::new(vec![0u8; 96]), 8);
    assert_eq!(enc.get_limit().unwrap(), 8 + 73);
    assert_eq!(enc.encoded_length(), 73);
    enc.set_limit(90).unwrap();
    assert_eq!(enc.get_limit().unwrap(), 90);
    assert_eq!(enc.encoded_length(), 90 - 8);

    let bytes = encode_new_order(vec![0u8; 96]);
    let hd = MessageHeaderDecoder::<ReadBuf>::default().wrap(ReadBuf::new(bytes), 0);
    let mut dec = NewOrderSingleDecoder::default().header(hd).unwrap();
    assert_eq!(dec.get_limit().unwrap(), 8 + 73);
    dec.set_limit(85).unwrap();
    assert_eq!(dec.get_limit().unwrap(), 85);
}
