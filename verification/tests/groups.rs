use sbe_codec::BidsEncoder;
use sbe_codec::MessageHeaderDecoder;
use sbe_codec::OffersEncoder;
use sbe_codec::PriceIncrementDecoder;
use sbe_codec::PriceIncrementEncoder;
use sbe_codec::ReadBuf;
use sbe_codec::SbeErr;
use sbe_codec::SmallGroupSizeEncodingDecoder;
use sbe_codec::SmallGroupSizeEncodingEncoder;
use sbe_codec::UpdateAction;
use sbe_codec::WriteBuf;
use sbe_codec::message_header_codec;

fn encode_snapshot(bid_ids: &[u32], offer_ids: &[u32]) -> Vec<u8> {
    let enc = PriceIncrementEncoder::default()
        .wrap(WriteBuf::new(vec![0u8; 256]), message_header_codec::ENCODED_LENGTH);
    let mut h = enc.header(0).unwrap();
    let mut enc = h.parent().unwrap();
    enc.comp_id(7).unwrap();
    enc.instrument_id(42).unwrap();

    let mut bids = enc.bids_encoder(bid_ids.len() as u8, BidsEncoder::default()).unwrap();
    for (i, id) in bid_ids.iter().enumerate() {
        assert_eq!(bids.advance().unwrap(), Some(i));
        let ple = bids.bid_encoder();
        let mut pl = ple.price_level_encoder();
        pl.id(*id).unwrap();
        pl.transact_time(1_000_000 + *id as i64).unwrap();
        let mut ple = pl.parent().unwrap();
        ple.update_action(UpdateAction::NEW).unwrap();
        bids = ple.parent().unwrap();
    }
    assert_eq!(bids.advance().unwrap(), None);
    let enc = bids.parent().unwrap();

    let mut offers = enc.offers_encoder(offer_ids.len() as u8, OffersEncoder::default()).unwrap();
    for (i, id) in offer_ids.iter().enumerate() {
        assert_eq!(offers.advance().unwrap(), Some(i));
        let ple = offers.offer_encoder();
        let mut pl = ple.price_level_encoder();
        pl.id(*id).unwrap();
        pl.transact_time(2_000_000 + *id as i64).unwrap();
        let mut ple = pl.parent().unwrap();
        ple.update_action(UpdateAction::UPDATE).unwrap();
        offers = ple.parent().unwrap();
    }
    assert_eq!(offers.advance().unwrap(), None);
    let enc = offers.parent().unwrap();

    // fixed block + per group: 2-byte dimension header + count x 29
    let expected = 8 + (2 + bid_ids.len() * 29) + (2 + offer_ids.len() * 29);
    assert_eq!(enc.encoded_length(), expected);
    enc.buf.into_inner()
}

#[test]
fn snapshot_with_two_bids_three_offers_round_trips_in_order() {
    let bytes = encode_snapshot(&[101, 102], &[201, 202, 203]);

    let hd = MessageHeaderDecoder::<ReadBuf>::default().wrap(ReadBuf::new(bytes), 0);
    assert_eq!(hd.template_id().unwrap(), 2);
    let dec = PriceIncrementDecoder::default().header(hd).unwrap();
    assert_eq!(dec.comp_id().unwrap(), 7);
    assert_eq!(dec.instrument_id().unwrap(), 42);

    let mut bids = dec.bids_decoder().unwrap();
    assert_eq!(bids.count(), 2);
    for (i, id) in [101u32, 102].iter().enumerate() {
        assert_eq!(bids.advance().unwrap(), Some(i));
        let pld = bids.bid_decoder();
        let pl = pld.price_level_decoder();
        assert_eq!(pl.id().unwrap(), *id);
        assert_eq!(pl.transact_time().unwrap(), 1_000_000 + *id as i64);
        let mut pl = pl;
        let mut pld = pl.parent().unwrap();
        assert_eq!(pld.update_action().unwrap(), UpdateAction::NEW);
        bids = pld.parent().unwrap();
    }
    assert_eq!(bids.advance().unwrap(), None);
    let dec = bids.parent().unwrap();

    let mut offers = dec.offers_decoder().unwrap();
    assert_eq!(offers.count(), 3);
    for (i, id) in [201u32, 202, 203].iter().enumerate() {
        assert_eq!(offers.advance().unwrap(), Some(i));
        let pld = offers.offer_decoder();
        let pl = pld.price_level_decoder();
        assert_eq!(pl.id().unwrap(), *id);
        assert_eq!(pl.transact_time().unwrap(), 2_000_000 + *id as i64);
        let mut pl = pl;
        let mut pld = pl.parent().unwrap();
        assert_eq!(pld.update_action().unwrap(), UpdateAction::UPDATE);
        offers = pld.parent().unwrap();
    }
    assert_eq!(offers.advance().unwrap(), None);
    let dec = offers.parent().unwrap();
    assert_eq!(dec.encoded_length(), 8 + (2 + 2 * 29) + (2 + 3 * 29));
}

#[test]
fn group_advance_is_exhausted_exactly_at_count() {
    let enc = PriceIncrementEncoder::default().wrap(WriteBuf::new(vec![0u8; 256]), 8);
    let mut bids = enc.bids_encoder(3, BidsEncoder::default()).unwrap();
    assert_eq!(bids.advance().unwrap(), Some(0));
    assert_eq!(bids.advance().unwrap(), Some(1));
    assert_eq!(bids.advance().unwrap(), Some(2));
    assert_eq!(bids.advance().unwrap(), None);
    assert_eq!(bids.advance().unwrap(), None);
    assert_eq!(bids.advance().unwrap(), None);
}

#[test]
fn empty_group_is_exhausted_immediately() {
    let enc = PriceIncrementEncoder::default().wrap(WriteBuf::new(vec![0u8; 64]), 8);
    let mut bids = enc.bids_encoder(0, BidsEncoder::default()).unwrap();
    assert_eq!(bids.advance().unwrap(), None);
    assert_eq!(bids.advance().unwrap(), None);
    let enc = bids.parent().unwrap();
    assert_eq!(enc.encoded_length(), 8 + 2);
}

#[test]
fn largest_count_is_accepted_by_the_dimension_header() {
    // count is a single byte; 255 elements is the largest group
    let enc = PriceIncrementEncoder::default().wrap(WriteBuf::new(vec![0u8; 18]), 8);
    let bids = enc.bids_encoder(255, BidsEncoder::default()).unwrap();
    assert_eq!(bids.count, 255);
}

#[test]
fn group_parent_is_single_use() {
    let enc = PriceIncrementEncoder::default().wrap(WriteBuf::new(vec![0u8; 64]), 8);
    let mut bids = enc.bids_encoder(1, BidsEncoder::default()).unwrap();
    let _enc = bids.parent().unwrap();
    assert!(matches!(bids.parent(), Err(SbeErr::ParentNotSet)));
    // advancing with the parent gone is the ownership violation too
    assert!(matches!(bids.advance(), Err(SbeErr::ParentNotSet)));
}

#[test]
fn composite_parent_is_single_use() {
    let enc = PriceIncrementEncoder::default().wrap(WriteBuf::new(vec![0u8; 64]), 8);
    let mut bids = enc.bids_encoder(1, BidsEncoder::default()).unwrap();
    bids.advance().unwrap();
    let ple = bids.bid_encoder();
    let mut pl = ple.price_level_encoder();
    pl.id(5).unwrap();
    let mut ple = pl.parent().unwrap();
    assert!(matches!(pl.parent(), Err(SbeErr::ParentNotSet)));
    // a write through a frame whose parent is gone reports the violation
    assert_eq!(pl.id(6), Err(SbeErr::ParentNotSet));
    let mut bids = ple.parent().unwrap();
    assert!(matches!(ple.parent(), Err(SbeErr::ParentNotSet)));
    let _enc = bids.parent().unwrap();
}

#[test]
fn group_dimension_header_does_not_fit_in_full_buffer() {
    // the fixed block ends exactly at the buffer end: no room for the
    // 2-byte dimension header
    let enc = PriceIncrementEncoder::default().wrap(WriteBuf::new(vec![0u8; 16]), 8);
    let r = enc.bids_encoder(1, BidsEncoder::default());
    assert!(matches!(r, Err(SbeErr::IndexOutOfRange)));
}

#[test]
fn dimension_header_composite_round_trips() {
    let enc = PriceIncrementEncoder::default().wrap(WriteBuf::new(vec![0u8; 32]), 8);
    let mut g = SmallGroupSizeEncodingEncoder::default().wrap(enc, 16);
    g.block_length(29).unwrap();
    g.num_in_group(2).unwrap();
    let enc = g.parent().unwrap();
    let bytes = enc.buf.into_inner();
    assert_eq!(bytes[16], 29);
    assert_eq!(bytes[17], 2);

    let d = SmallGroupSizeEncodingDecoder::default().wrap(ReadBuf::new(bytes), 16);
    assert_eq!(d.block_length().unwrap(), 29);
    assert_eq!(d.num_in_group().unwrap(), 2);
}

#[test]
fn decoded_dimension_header_drives_the_group() {
    let bytes = encode_snapshot(&[9], &[]);
    // dimension header of the bids group sits right after the fixed block
    assert_eq!(bytes[16], 29);
    assert_eq!(bytes[17], 1);
    let hd = MessageHeaderDecoder::<ReadBuf>::default().wrap(ReadBuf::new(bytes), 0);
    let dec = PriceIncrementDecoder::default().header(hd).unwrap();
    let mut bids = dec.bids_decoder().unwrap();
    assert_eq!(bids.block_length, 29);
    assert_eq!(bids.count(), 1);
    assert_eq!(bids.advance().unwrap(), Some(0));
    assert_eq!(bids.advance().unwrap(), None);
}

#[test]
fn shorter_element_block_keeps_element_fields_beyond_it_absent() {
    let mut bytes = encode_snapshot(&[9], &[]);
    // an older producer declared 20-byte elements in the dimension header
    assert_eq!(bytes[16], 29);
    bytes[16] = 20;
    let hd = MessageHeaderDecoder::<ReadBuf>::default().wrap(ReadBuf::new(bytes), 0);
    let dec = PriceIncrementDecoder::default().header(hd).unwrap();
    let mut bids = dec.bids_decoder().unwrap();
    assert_eq!(bids.block_length, 20);
    assert_eq!(bids.advance().unwrap(), Some(0));
    let pld = bids.bid_decoder();
    assert_eq!(pld.acting_block_length, 20);
    let pl = pld.price_level_decoder();
    // the id lies inside the declared element block and decodes
    assert_eq!(pl.id().unwrap(), 9);
    // fields the element block ends before are absent: the null sentinel
    // and the null variant come back without reading the wire
    assert_eq!(pl.transact_time().unwrap(), i64::MIN);
    let mut pl = pl;
    let mut pld = pl.parent().unwrap();
    assert_eq!(pld.update_action().unwrap(), UpdateAction::NullVal);
}
