use lora_gateway::error::DecodeError;
use lora_gateway::datarate::{
    bandwidth_to_concentrator, bandwidth_to_semtech, coding_rate_to_concentrator, coding_rate_to_semtech,
    datarate_to_concentrator, datarate_to_semtech, from_proto, sf_to_concentrator, sf_to_semtech, to_proto,
    CardBandwidth, CardCodingRate, CardDatarate, CardSpreadingFactor, DataRate, ProtoRate,
};
use lora_modulation::{Bandwidth, CodingRate, SpreadingFactor};

const CARD_SFS: [CardSpreadingFactor; 8] = [
    CardSpreadingFactor::SF5,
    CardSpreadingFactor::SF6,
    CardSpreadingFactor::SF7,
    CardSpreadingFactor::SF8,
    CardSpreadingFactor::SF9,
    CardSpreadingFactor::SF10,
    CardSpreadingFactor::SF11,
    CardSpreadingFactor::SF12,
];
const CARD_BWS: [CardBandwidth; 3] = [CardBandwidth::BW125, CardBandwidth::BW250, CardBandwidth::BW500];

#[test]
fn datarate_round_trip() {
    for sf in CARD_SFS {
        for bw in CARD_BWS {
            let d = CardDatarate(sf, bw);
            assert_eq!(datarate_to_concentrator(datarate_to_semtech(d)), Some(d));
            assert_eq!(sf_to_concentrator(sf_to_semtech(sf)), sf);
            assert_eq!(bandwidth_to_concentrator(bandwidth_to_semtech(bw)), Some(bw));
        }
    }
}

#[test]
fn spreading_factors_match() {
    assert_eq!(sf_to_semtech(CardSpreadingFactor::SF5), SpreadingFactor::_5);
    assert_eq!(sf_to_semtech(CardSpreadingFactor::SF12), SpreadingFactor::_12);
    assert_eq!(sf_to_concentrator(SpreadingFactor::_9), CardSpreadingFactor::SF9);
    assert_eq!(bandwidth_to_semtech(CardBandwidth::BW250), Bandwidth::_250KHz);
}

#[test]
fn narrow_bandwidths_have_no_card_equivalent() {
    assert_eq!(bandwidth_to_concentrator(Bandwidth::_62KHz), None);
    assert_eq!(bandwidth_to_concentrator(Bandwidth::_7KHz), None);
    let d = DataRate { sf: SpreadingFactor::_7, bw: Bandwidth::_41KHz };
    assert_eq!(datarate_to_concentrator(d), None);
}

#[test]
fn coding_rates_match() {
    assert_eq!(coding_rate_to_semtech(CardCodingRate::Cr4_5), Some(CodingRate::_4_5));
    assert_eq!(coding_rate_to_semtech(CardCodingRate::Cr4_8), Some(CodingRate::_4_8));
    assert_eq!(coding_rate_to_semtech(CardCodingRate::Off), None);
    assert_eq!(coding_rate_to_concentrator(None), CardCodingRate::Off);
    assert_eq!(coding_rate_to_concentrator(Some(CodingRate::_4_6)), CardCodingRate::Cr4_6);
    for cr in [
        CardCodingRate::Cr4_5,
        CardCodingRate::Cr4_6,
        CardCodingRate::Cr4_7,
        CardCodingRate::Cr4_8,
        CardCodingRate::Off,
    ] {
        assert_eq!(coding_rate_to_concentrator(coding_rate_to_semtech(cr)), cr);
    }
}

#[test]
fn router_rates() {
    let d = from_proto(ProtoRate::Sf9bw250).unwrap();
    assert_eq!(d.sf, SpreadingFactor::_9);
    assert_eq!(d.bw, Bandwidth::_250KHz);
    assert_eq!(to_proto(d), Some(ProtoRate::Sf9bw250));
    assert_eq!(to_proto(DataRate { sf: SpreadingFactor::_12, bw: Bandwidth::_125KHz }), Some(ProtoRate::Sf12bw125));
    assert_eq!(to_proto(DataRate { sf: SpreadingFactor::_6, bw: Bandwidth::_125KHz }), None);
    assert_eq!(to_proto(DataRate { sf: SpreadingFactor::_7, bw: Bandwidth::_62KHz }), None);
    assert!(matches!(from_proto(ProtoRate::Fsk50), Err(DecodeError::InvalidDataRate)));
    assert!(matches!(from_proto(ProtoRate::Lrfhss2bw1523), Err(DecodeError::InvalidDataRate)));
}
