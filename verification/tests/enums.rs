use sbe_codec::CancelRejectReason;
use sbe_codec::CancelRejectResponseTo;
use sbe_codec::ExecType;
use sbe_codec::OrderRejectReason;
use sbe_codec::OrderSide;
use sbe_codec::OrderStatus;
use sbe_codec::OrderType;
use sbe_codec::Strategy;
use sbe_codec::TimeInForce;
use sbe_codec::UpdateAction;

#[test]
fn order_side_raw_values() {
    assert_eq!(OrderSide::BUY.to_raw(), 49);
    assert_eq!(OrderSide::SELL.to_raw(), 50);
    assert_eq!(OrderSide::NullVal.to_raw(), 0);
    assert_eq!(OrderSide::from_raw(49), OrderSide::BUY);
    assert_eq!(OrderSide::from_raw(50), OrderSide::SELL);
    assert_eq!(OrderSide::from_raw(0), OrderSide::NullVal);
}

#[test]
fn unknown_bytes_decode_to_null_never_an_error() {
    assert_eq!(OrderSide::from_raw(99), OrderSide::NullVal);
    assert_eq!(OrderSide::from_raw(200), OrderSide::NullVal);
    assert_eq!(OrderType::from_raw(99), OrderType::NullVal);
    assert_eq!(TimeInForce::from_raw(99), TimeInForce::NullVal);
    assert_eq!(TimeInForce::from_raw(50), TimeInForce::NullVal);
    assert_eq!(Strategy::from_raw(99), Strategy::NullVal);
    assert_eq!(ExecType::from_raw(99), ExecType::NullVal);
    assert_eq!(OrderStatus::from_raw(99), OrderStatus::NullVal);
    assert_eq!(OrderRejectReason::from_raw(99), OrderRejectReason::NullVal);
    assert_eq!(OrderRejectReason::from_raw(55), OrderRejectReason::NullVal);
    assert_eq!(CancelRejectReason::from_raw(99), CancelRejectReason::NullVal);
    assert_eq!(CancelRejectResponseTo::from_raw(99), CancelRejectResponseTo::NullVal);
    assert_eq!(UpdateAction::from_raw(99), UpdateAction::NullVal);
}

#[test]
fn every_variant_survives_raw_round_trip() {
    for v in [OrderSide::BUY, OrderSide::SELL, OrderSide::NullVal] {
        assert_eq!(OrderSide::from_raw(v.to_raw()), v);
    }
    for v in [OrderType::MARKET, OrderType::LIMIT, OrderType::NullVal] {
        assert_eq!(OrderType::from_raw(v.to_raw()), v);
    }
    for v in [
        TimeInForce::DAY,
        TimeInForce::GTC,
        TimeInForce::IOC,
        TimeInForce::FOK,
        TimeInForce::GTD,
        TimeInForce::NullVal,
    ] {
        assert_eq!(TimeInForce::from_raw(v.to_raw()), v);
    }
    for v in [
        Strategy::SIMULATOR,
        Strategy::VENUE,
        Strategy::SWEEPER,
        Strategy::LIMIT_SNIPER,
        Strategy::STOP_LOSS,
        Strategy::TWAP,
        Strategy::VWAP,
        Strategy::NullVal,
    ] {
        assert_eq!(Strategy::from_raw(v.to_raw()), v);
    }
    for v in [
        ExecType::NEW,
        ExecType::PARTIAL_FILL,
        ExecType::FILL,
        ExecType::DONE_FOR_DAY,
        ExecType::CANCELLED,
        ExecType::REPLACED,
        ExecType::PENDING_CANCEL,
        ExecType::STOPPED,
        ExecType::REJECTED,
        ExecType::SUSPENDED,
        ExecType::PENDING_NEW,
        ExecType::CALCULATED,
        ExecType::EXPIRED,
        ExecType::RESTATED,
        ExecType::PENDING_REPLACE,
        ExecType::NullVal,
    ] {
        assert_eq!(ExecType::from_raw(v.to_raw()), v);
    }
    for v in [
        OrderStatus::NEW,
        OrderStatus::PARTIALLY_FILLED,
        OrderStatus::FILLED,
        OrderStatus::ACCEPTED_FOR_BID,
        OrderStatus::NullVal,
    ] {
        assert_eq!(OrderStatus::from_raw(v.to_raw()), v);
    }
    for v in [
        OrderRejectReason::BROKER_OPTION,
        OrderRejectReason::UNKNOWN_SYMBOL,
        OrderRejectReason::STALE_ORDER,
        OrderRejectReason::NullVal,
    ] {
        assert_eq!(OrderRejectReason::from_raw(v.to_raw()), v);
    }
    for v in [
        CancelRejectReason::TOO_LATE_TO_CANCEL,
        CancelRejectReason::UNKNOWN_ORDER,
        CancelRejectReason::BROKER_OPTION,
        CancelRejectReason::ALREADY_IN_PENDING,
        CancelRejectReason::NullVal,
    ] {
        assert_eq!(CancelRejectReason::from_raw(v.to_raw()), v);
    }
    for v in [
        CancelRejectResponseTo::ORDER_CANCEL_REQUEST,
        CancelRejectResponseTo::ORDER_CANCEL_REPLACE_REQUEST,
        CancelRejectResponseTo::NullVal,
    ] {
        assert_eq!(CancelRejectResponseTo::from_raw(v.to_raw()), v);
    }
    for v in [
        UpdateAction::NEW,
        UpdateAction::UPDATE,
        UpdateAction::DELETE,
        UpdateAction::NullVal,
    ] {
        assert_eq!(UpdateAction::from_raw(v.to_raw()), v);
    }
}

#[test]
fn defaults_are_null() {
    assert_eq!(OrderSide::default(), OrderSide::NullVal);
    assert_eq!(OrderType::default(), OrderType::NullVal);
    assert_eq!(TimeInForce::default(), TimeInForce::NullVal);
    assert_eq!(Strategy::default(), Strategy::NullVal);
    assert_eq!(ExecType::default(), ExecType::NullVal);
    assert_eq!(OrderStatus::default(), OrderStatus::NullVal);
    assert_eq!(OrderRejectReason::default(), OrderRejectReason::NullVal);
    assert_eq!(CancelRejectReason::default(), CancelRejectReason::NullVal);
    assert_eq!(CancelRejectResponseTo::default(), CancelRejectResponseTo::NullVal);
    assert_eq!(UpdateAction::default(), UpdateAction::NullVal);
}
