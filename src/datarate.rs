//! Data rates and coding rates on the three sides of the forwarder: the
//! concentrator card, the packet-forwarder protocol (whose vocabulary is the
//! `lora_modulation` enums), and the router protocol.
use vstd::prelude::*;
use crate::error::DecodeError;

verus! {

// The packet-forwarder protocol names spreading factors, bandwidths and
// coding rates with lora_modulation's field-less enums; Verus reads their
// variants from that crate.
#[verifier::external_type_specification]
pub struct ExModulationSpreadingFactor(lora_modulation::SpreadingFactor);

#[verifier::external_type_specification]
pub struct ExModulationBandwidth(lora_modulation::Bandwidth);

#[verifier::external_type_specification]
pub struct ExModulationCodingRate(lora_modulation::CodingRate);

/// Spreading factor as the concentrator card names it.
#[derive(PartialEq, Eq, Structural, Debug, Clone, Copy)]
pub enum CardSpreadingFactor {
    SF5,
    SF6,
    SF7,
    SF8,
    SF9,
    SF10,
    SF11,
    SF12,
}

/// Channel bandwidth as the concentrator card names it.
#[derive(PartialEq, Eq, Structural, Debug, Clone, Copy)]
pub enum CardBandwidth {
    BW125,
    BW250,
    BW500,
}

/// Coding rate as the concentrator card names it; `Off` disables forward
/// error correction.
#[derive(PartialEq, Eq, Structural, Debug, Clone, Copy)]
pub enum CardCodingRate {
    Cr4_5,
    Cr4_6,
    Cr4_7,
    Cr4_8,
    Off,
}

/// A LoRa data rate on the concentrator card: spreading factor and bandwidth.
#[derive(PartialEq, Eq, Structural, Debug, Clone, Copy)]
pub struct CardDatarate(pub CardSpreadingFactor, pub CardBandwidth);

pub open spec fn sf_to_semtech_spec(sf: CardSpreadingFactor) -> lora_modulation::SpreadingFactor {
    match sf {
        CardSpreadingFactor::SF5 => lora_modulation::SpreadingFactor::_5,
        CardSpreadingFactor::SF6 => lora_modulation::SpreadingFactor::_6,
        CardSpreadingFactor::SF7 => lora_modulation::SpreadingFactor::_7,
        CardSpreadingFactor::SF8 => lora_modulation::SpreadingFactor::_8,
        CardSpreadingFactor::SF9 => lora_modulation::SpreadingFactor::_9,
        CardSpreadingFactor::SF10 => lora_modulation::SpreadingFactor::_10,
        CardSpreadingFactor::SF11 => lora_modulation::SpreadingFactor::_11,
        CardSpreadingFactor::SF12 => lora_modulation::SpreadingFactor::_12,
    }
}

pub open spec fn sf_to_concentrator_spec(sf: lora_modulation::SpreadingFactor) -> CardSpreadingFactor {
    match sf {
        lora_modulation::SpreadingFactor::_5 => CardSpreadingFactor::SF5,
        lora_modulation::SpreadingFactor::_6 => CardSpreadingFactor::SF6,
        lora_modulation::SpreadingFactor::_7 => CardSpreadingFactor::SF7,
        lora_modulation::SpreadingFactor::_8 => CardSpreadingFactor::SF8,
        lora_modulation::SpreadingFactor::_9 => CardSpreadingFactor::SF9,
        lora_modulation::SpreadingFactor::_10 => CardSpreadingFactor::SF10,
        lora_modulation::SpreadingFactor::_11 => CardSpreadingFactor::SF11,
        lora_modulation::SpreadingFactor::_12 => CardSpreadingFactor::SF12,
    }
}

pub fn sf_to_semtech(sf: CardSpreadingFactor) -> (r: lora_modulation::SpreadingFactor)
    ensures
        r == sf_to_semtech_spec(sf),
{
    match sf {
        CardSpreadingFactor::SF5 => lora_modulation::SpreadingFactor::_5,
        CardSpreadingFactor::SF6 => lora_modulation::SpreadingFactor::_6,
        CardSpreadingFactor::SF7 => lora_modulation::SpreadingFactor::_7,
        CardSpreadingFactor::SF8 => lora_modulation::SpreadingFactor::_8,
        CardSpreadingFactor::SF9 => lora_modulation::SpreadingFactor::_9,
        CardSpreadingFactor::SF10 => lora_modulation::SpreadingFactor::_10,
        CardSpreadingFactor::SF11 => lora_modulation::SpreadingFactor::_11,
        CardSpreadingFactor::SF12 => lora_modulation::SpreadingFactor::_12,
    }
}

pub fn sf_to_concentrator(sf: lora_modulation::SpreadingFactor) -> (r: CardSpreadingFactor)
    ensures
        r == sf_to_concentrator_spec(sf),
{
    match sf {
        lora_modulation::SpreadingFactor::_5 => CardSpreadingFactor::SF5,
        lora_modulation::SpreadingFactor::_6 => CardSpreadingFactor::SF6,
        lora_modulation::SpreadingFactor::_7 => CardSpreadingFactor::SF7,
        lora_modulation::SpreadingFactor::_8 => CardSpreadingFactor::SF8,
        lora_modulation::SpreadingFactor::_9 => CardSpreadingFactor::SF9,
        lora_modulation::SpreadingFactor::_10 => CardSpreadingFactor::SF10,
        lora_modulation::SpreadingFactor::_11 => CardSpreadingFactor::SF11,
        lora_modulation::SpreadingFactor::_12 => CardSpreadingFactor::SF12,
    }
}

pub open spec fn bandwidth_to_semtech_spec(bw: CardBandwidth) -> lora_modulation::Bandwidth {
    match bw {
        CardBandwidth::BW125 => lora_modulation::Bandwidth::_125KHz,
        CardBandwidth::BW250 => lora_modulation::Bandwidth::_250KHz,
        CardBandwidth::BW500 => lora_modulation::Bandwidth::_500KHz,
    }
}

/// The card supports three of the bandwidths that the forwarder protocol names.
pub open spec fn bandwidth_to_concentrator_spec(bw: lora_modulation::Bandwidth) -> Option<CardBandwidth> {
    match bw {
        lora_modulation::Bandwidth::_125KHz => Some(CardBandwidth::BW125),
        lora_modulation::Bandwidth::_250KHz => Some(CardBandwidth::BW250),
        lora_modulation::Bandwidth::_500KHz => Some(CardBandwidth::BW500),
        _ => None,
    }
}

pub fn bandwidth_to_semtech(bw: CardBandwidth) -> (r: lora_modulation::Bandwidth)
    ensures
        r == bandwidth_to_semtech_spec(bw),
{
    match bw {
        CardBandwidth::BW125 => lora_modulation::Bandwidth::_125KHz,
        CardBandwidth::BW250 => lora_modulation::Bandwidth::_250KHz,
        CardBandwidth::BW500 => lora_modulation::Bandwidth::_500KHz,
    }
}

pub fn bandwidth_to_concentrator(bw: lora_modulation::Bandwidth) -> (r: Option<CardBandwidth>)
    ensures
        r == bandwidth_to_concentrator_spec(bw),
{
    match bw {
        lora_modulation::Bandwidth::_125KHz => Some(CardBandwidth::BW125),
        lora_modulation::Bandwidth::_250KHz => Some(CardBandwidth::BW250),
        lora_modulation::Bandwidth::_500KHz => Some(CardBandwidth::BW500),
        _ => None,
    }
}

/// The forwarder protocol writes a disabled coding rate as no coding rate.
pub open spec fn coding_rate_to_semtech_spec(cr: CardCodingRate) -> Option<lora_modulation::CodingRate> {
    match cr {
        CardCodingRate::Cr4_5 => Some(lora_modulation::CodingRate::_4_5),
        CardCodingRate::Cr4_6 => Some(lora_modulation::CodingRate::_4_6),
        CardCodingRate::Cr4_7 => Some(lora_modulation::CodingRate::_4_7),
        CardCodingRate::Cr4_8 => Some(lora_modulation::CodingRate::_4_8),
        CardCodingRate::Off => None,
    }
}

pub open spec fn coding_rate_to_concentrator_spec(cr: Option<lora_modulation::CodingRate>) -> CardCodingRate {
    match cr {
        Some(lora_modulation::CodingRate::_4_5) => CardCodingRate::Cr4_5,
        Some(lora_modulation::CodingRate::_4_6) => CardCodingRate::Cr4_6,
        Some(lora_modulation::CodingRate::_4_7) => CardCodingRate::Cr4_7,
        Some(lora_modulation::CodingRate::_4_8) => CardCodingRate::Cr4_8,
        None => CardCodingRate::Off,
    }
}

pub fn coding_rate_to_semtech(cr: CardCodingRate) -> (r: Option<lora_modulation::CodingRate>)
    ensures
        r == coding_rate_to_semtech_spec(cr),
{
    match cr {
        CardCodingRate::Cr4_5 => Some(lora_modulation::CodingRate::_4_5),
        CardCodingRate::Cr4_6 => Some(lora_modulation::CodingRate::_4_6),
        CardCodingRate::Cr4_7 => Some(lora_modulation::CodingRate::_4_7),
        CardCodingRate::Cr4_8 => Some(lora_modulation::CodingRate::_4_8),
        CardCodingRate::Off => None,
    }
}

pub fn coding_rate_to_concentrator(cr: Option<lora_modulation::CodingRate>) -> (r: CardCodingRate)
    ensures
        r == coding_rate_to_concentrator_spec(cr),
{
    match cr {
        Some(lora_modulation::CodingRate::_4_5) => CardCodingRate::Cr4_5,
        Some(lora_modulation::CodingRate::_4_6) => CardCodingRate::Cr4_6,
        Some(lora_modulation::CodingRate::_4_7) => CardCodingRate::Cr4_7,
        Some(lora_modulation::CodingRate::_4_8) => CardCodingRate::Cr4_8,
        None => CardCodingRate::Off,
    }
}

/// A LoRa data rate as the packet-forwarder protocol carries it.
#[derive(Debug, Clone, Copy)]
pub struct DataRate {
    pub sf: lora_modulation::SpreadingFactor,
    pub bw: lora_modulation::Bandwidth,
}

pub open spec fn datarate_to_semtech_spec(d: CardDatarate) -> DataRate {
    DataRate { sf: sf_to_semtech_spec(d.0), bw: bandwidth_to_semtech_spec(d.1) }
}

pub open spec fn datarate_to_concentrator_spec(d: DataRate) -> Option<CardDatarate> {
    match bandwidth_to_concentrator_spec(d.bw) {
        Some(bw) => Some(CardDatarate(sf_to_concentrator_spec(d.sf), bw)),
        None => None,
    }
}

pub fn datarate_to_semtech(d: CardDatarate) -> (r: DataRate)
    ensures
        r == datarate_to_semtech_spec(d),
{
    DataRate { sf: sf_to_semtech(d.0), bw: bandwidth_to_semtech(d.1) }
}

pub fn datarate_to_concentrator(d: DataRate) -> (r: Option<CardDatarate>)
    ensures
        r == datarate_to_concentrator_spec(d),
{
    match bandwidth_to_concentrator(d.bw) {
        Some(bw) => Some(CardDatarate(sf_to_concentrator(d.sf), bw)),
        None => None,
    }
}

/// Translating a forwarder data rate to the card and back gives it back,
/// for every data rate the card supports; translating a card data rate to
/// the forwarder and back gives it back, for every card data rate.
pub proof fn lemma_datarate_round_trip(d: DataRate, c: CardDatarate)
    requires
        bandwidth_to_concentrator_spec(d.bw) is Some,
    ensures
        datarate_to_concentrator_spec(d) matches Some(x) && datarate_to_semtech_spec(x) == d,
        datarate_to_concentrator_spec(datarate_to_semtech_spec(c)) == Some(c),
        sf_to_semtech_spec(sf_to_concentrator_spec(d.sf)) == d.sf,
        sf_to_concentrator_spec(sf_to_semtech_spec(c.0)) == c.0,
        bandwidth_to_semtech_spec(bandwidth_to_concentrator_spec(d.bw)->0) == d.bw,
{
}

/// Coding rates translate one for one between the card and the forwarder.
pub proof fn lemma_coding_rate_round_trip(cr: CardCodingRate, s: Option<lora_modulation::CodingRate>)
    ensures
        coding_rate_to_concentrator_spec(coding_rate_to_semtech_spec(cr)) == cr,
        coding_rate_to_semtech_spec(coding_rate_to_concentrator_spec(s)) == s,
{
}

/// Data rates of the router protocol.
#[derive(PartialEq, Eq, Structural, Debug, Clone, Copy)]
pub enum ProtoRate {
    Sf12bw125,
    Sf11bw125,
    Sf10bw125,
    Sf9bw125,
    Sf8bw125,
    Sf7bw125,
    Sf12bw250,
    Sf11bw250,
    Sf10bw250,
    Sf9bw250,
    Sf8bw250,
    Sf7bw250,
    Sf12bw500,
    Sf11bw500,
    Sf10bw500,
    Sf9bw500,
    Sf8bw500,
    Sf7bw500,
    Lrfhss1bw137,
    Lrfhss2bw137,
    Lrfhss1bw336,
    Lrfhss2bw336,
    Lrfhss1bw1523,
    Lrfhss2bw1523,
    Fsk50,
}

pub open spec fn from_proto_spec(rate: ProtoRate) -> Result<DataRate, DecodeError> {
    match rate {
        ProtoRate::Sf12bw125 => Ok(DataRate { sf: lora_modulation::SpreadingFactor::_12, bw: lora_modulation::Bandwidth::_125KHz }),
        ProtoRate::Sf11bw125 => Ok(DataRate { sf: lora_modulation::SpreadingFactor::_11, bw: lora_modulation::Bandwidth::_125KHz }),
        ProtoRate::Sf10bw125 => Ok(DataRate { sf: lora_modulation::SpreadingFactor::_10, bw: lora_modulation::Bandwidth::_125KHz }),
        ProtoRate::Sf9bw125 => Ok(DataRate { sf: lora_modulation::SpreadingFactor::_9, bw: lora_modulation::Bandwidth::_125KHz }),
        ProtoRate::Sf8bw125 => Ok(DataRate { sf: lora_modulation::SpreadingFactor::_8, bw: lora_modulation::Bandwidth::_125KHz }),
        ProtoRate::Sf7bw125 => Ok(DataRate { sf: lora_modulation::SpreadingFactor::_7, bw: lora_modulation::Bandwidth::_125KHz }),
        ProtoRate::Sf12bw250 => Ok(DataRate { sf: lora_modulation::SpreadingFactor::_12, bw: lora_modulation::Bandwidth::_250KHz }),
        ProtoRate::Sf11bw250 => Ok(DataRate { sf: lora_modulation::SpreadingFactor::_11, bw: lora_modulation::Bandwidth::_250KHz }),
        ProtoRate::Sf10bw250 => Ok(DataRate { sf: lora_modulation::SpreadingFactor::_10, bw: lora_modulation::Bandwidth::_250KHz }),
        ProtoRate::Sf9bw250 => Ok(DataRate { sf: lora_modulation::SpreadingFactor::_9, bw: lora_modulation::Bandwidth::_250KHz }),
        ProtoRate::Sf8bw250 => Ok(DataRate { sf: lora_modulation::SpreadingFactor::_8, bw: lora_modulation::Bandwidth::_250KHz }),
        ProtoRate::Sf7bw250 => Ok(DataRate { sf: lora_modulation::SpreadingFactor::_7, bw: lora_modulation::Bandwidth::_250KHz }),
        ProtoRate::Sf12bw500 => Ok(DataRate { sf: lora_modulation::SpreadingFactor::_12, bw: lora_modulation::Bandwidth::_500KHz }),
        ProtoRate::Sf11bw500 => Ok(DataRate { sf: lora_modulation::SpreadingFactor::_11, bw: lora_modulation::Bandwidth::_500KHz }),
        ProtoRate::Sf10bw500 => Ok(DataRate { sf: lora_modulation::SpreadingFactor::_10, bw: lora_modulation::Bandwidth::_500KHz }),
        ProtoRate::Sf9bw500 => Ok(DataRate { sf: lora_modulation::SpreadingFactor::_9, bw: lora_modulation::Bandwidth::_500KHz }),
        ProtoRate::Sf8bw500 => Ok(DataRate { sf: lora_modulation::SpreadingFactor::_8, bw: lora_modulation::Bandwidth::_500KHz }),
        ProtoRate::Sf7bw500 => Ok(DataRate { sf: lora_modulation::SpreadingFactor::_7, bw: lora_modulation::Bandwidth::_500KHz }),
        _ => Err(DecodeError::InvalidDataRate),
    }
}

pub open spec fn to_proto_spec(rate: DataRate) -> Option<ProtoRate> {
    match (rate.sf, rate.bw) {
        (lora_modulation::SpreadingFactor::_12, lora_modulation::Bandwidth::_125KHz) => Some(ProtoRate::Sf12bw125),
        (lora_modulation::SpreadingFactor::_11, lora_modulation::Bandwidth::_125KHz) => Some(ProtoRate::Sf11bw125),
        (lora_modulation::SpreadingFactor::_10, lora_modulation::Bandwidth::_125KHz) => Some(ProtoRate::Sf10bw125),
        (lora_modulation::SpreadingFactor::_9, lora_modulation::Bandwidth::_125KHz) => Some(ProtoRate::Sf9bw125),
        (lora_modulation::SpreadingFactor::_8, lora_modulation::Bandwidth::_125KHz) => Some(ProtoRate::Sf8bw125),
        (lora_modulation::SpreadingFactor::_7, lora_modulation::Bandwidth::_125KHz) => Some(ProtoRate::Sf7bw125),
        (lora_modulation::SpreadingFactor::_12, lora_modulation::Bandwidth::_250KHz) => Some(ProtoRate::Sf12bw250),
        (lora_modulation::SpreadingFactor::_11, lora_modulation::Bandwidth::_250KHz) => Some(ProtoRate::Sf11bw250),
        (lora_modulation::SpreadingFactor::_10, lora_modulation::Bandwidth::_250KHz) => Some(ProtoRate::Sf10bw250),
        (lora_modulation::SpreadingFactor::_9, lora_modulation::Bandwidth::_250KHz) => Some(ProtoRate::Sf9bw250),
        (lora_modulation::SpreadingFactor::_8, lora_modulation::Bandwidth::_250KHz) => Some(ProtoRate::Sf8bw250),
        (lora_modulation::SpreadingFactor::_7, lora_modulation::Bandwidth::_250KHz) => Some(ProtoRate::Sf7bw250),
        (lora_modulation::SpreadingFactor::_12, lora_modulation::Bandwidth::_500KHz) => Some(ProtoRate::Sf12bw500),
        (lora_modulation::SpreadingFactor::_11, lora_modulation::Bandwidth::_500KHz) => Some(ProtoRate::Sf11bw500),
        (lora_modulation::SpreadingFactor::_10, lora_modulation::Bandwidth::_500KHz) => Some(ProtoRate::Sf10bw500),
        (lora_modulation::SpreadingFactor::_9, lora_modulation::Bandwidth::_500KHz) => Some(ProtoRate::Sf9bw500),
        (lora_modulation::SpreadingFactor::_8, lora_modulation::Bandwidth::_500KHz) => Some(ProtoRate::Sf8bw500),
        (lora_modulation::SpreadingFactor::_7, lora_modulation::Bandwidth::_500KHz) => Some(ProtoRate::Sf7bw500),
        _ => None,
    }
}

/// The forwarder data rate of a router data rate; LR-FHSS and FSK rates
/// have none.
pub fn from_proto(rate: ProtoRate) -> (r: Result<DataRate, DecodeError>)
    ensures
        r == from_proto_spec(rate),
{
    match rate {
        ProtoRate::Sf12bw125 => Ok(DataRate { sf: lora_modulation::SpreadingFactor::_12, bw: lora_modulation::Bandwidth::_125KHz }),
        ProtoRate::Sf11bw125 => Ok(DataRate { sf: lora_modulation::SpreadingFactor::_11, bw: lora_modulation::Bandwidth::_125KHz }),
        ProtoRate::Sf10bw125 => Ok(DataRate { sf: lora_modulation::SpreadingFactor::_10, bw: lora_modulation::Bandwidth::_125KHz }),
        ProtoRate::Sf9bw125 => Ok(DataRate { sf: lora_modulation::SpreadingFactor::_9, bw: lora_modulation::Bandwidth::_125KHz }),
        ProtoRate::Sf8bw125 => Ok(DataRate { sf: lora_modulation::SpreadingFactor::_8, bw: lora_modulation::Bandwidth::_125KHz }),
        ProtoRate::Sf7bw125 => Ok(DataRate { sf: lora_modulation::SpreadingFactor::_7, bw: lora_modulation::Bandwidth::_125KHz }),
        ProtoRate::Sf12bw250 => Ok(DataRate { sf: lora_modulation::SpreadingFactor::_12, bw: lora_modulation::Bandwidth::_250KHz }),
        ProtoRate::Sf11bw250 => Ok(DataRate { sf: lora_modulation::SpreadingFactor::_11, bw: lora_modulation::Bandwidth::_250KHz }),
        ProtoRate::Sf10bw250 => Ok(DataRate { sf: lora_modulation::SpreadingFactor::_10, bw: lora_modulation::Bandwidth::_250KHz }),
        ProtoRate::Sf9bw250 => Ok(DataRate { sf: lora_modulation::SpreadingFactor::_9, bw: lora_modulation::Bandwidth::_250KHz }),
        ProtoRate::Sf8bw250 => Ok(DataRate { sf: lora_modulation::SpreadingFactor::_8, bw: lora_modulation::Bandwidth::_250KHz }),
        ProtoRate::Sf7bw250 => Ok(DataRate { sf: lora_modulation::SpreadingFactor::_7, bw: lora_modulation::Bandwidth::_250KHz }),
        ProtoRate::Sf12bw500 => Ok(DataRate { sf: lora_modulation::SpreadingFactor::_12, bw: lora_modulation::Bandwidth::_500KHz }),
        ProtoRate::Sf11bw500 => Ok(DataRate { sf: lora_modulation::SpreadingFactor::_11, bw: lora_modulation::Bandwidth::_500KHz }),
        ProtoRate::Sf10bw500 => Ok(DataRate { sf: lora_modulation::SpreadingFactor::_10, bw: lora_modulation::Bandwidth::_500KHz }),
        ProtoRate::Sf9bw500 => Ok(DataRate { sf: lora_modulation::SpreadingFactor::_9, bw: lora_modulation::Bandwidth::_500KHz }),
        ProtoRate::Sf8bw500 => Ok(DataRate { sf: lora_modulation::SpreadingFactor::_8, bw: lora_modulation::Bandwidth::_500KHz }),
        ProtoRate::Sf7bw500 => Ok(DataRate { sf: lora_modulation::SpreadingFactor::_7, bw: lora_modulation::Bandwidth::_500KHz }),
        _ => Err(DecodeError::InvalidDataRate),
    }
}

/// The router data rate of a forwarder data rate: spreading factors 7 to 12
/// at 125, 250 or 500 kHz.
pub fn to_proto(rate: DataRate) -> (r: Option<ProtoRate>)
    ensures
        r == to_proto_spec(rate),
{
    match (rate.sf, rate.bw) {
        (lora_modulation::SpreadingFactor::_12, lora_modulation::Bandwidth::_125KHz) => Some(ProtoRate::Sf12bw125),
        (lora_modulation::SpreadingFactor::_11, lora_modulation::Bandwidth::_125KHz) => Some(ProtoRate::Sf11bw125),
        (lora_modulation::SpreadingFactor::_10, lora_modulation::Bandwidth::_125KHz) => Some(ProtoRate::Sf10bw125),
        (lora_modulation::SpreadingFactor::_9, lora_modulation::Bandwidth::_125KHz) => Some(ProtoRate::Sf9bw125),
        (lora_modulation::SpreadingFactor::_8, lora_modulation::Bandwidth::_125KHz) => Some(ProtoRate::Sf8bw125),
        (lora_modulation::SpreadingFactor::_7, lora_modulation::Bandwidth::_125KHz) => Some(ProtoRate::Sf7bw125),
        (lora_modulation::SpreadingFactor::_12, lora_modulation::Bandwidth::_250KHz) => Some(ProtoRate::Sf12bw250),
        (lora_modulation::SpreadingFactor::_11, lora_modulation::Bandwidth::_250KHz) => Some(ProtoRate::Sf11bw250),
        (lora_modulation::SpreadingFactor::_10, lora_modulation::Bandwidth::_250KHz) => Some(ProtoRate::Sf10bw250),
        (lora_modulation::SpreadingFactor::_9, lora_modulation::Bandwidth::_250KHz) => Some(ProtoRate::Sf9bw250),
        (lora_modulation::SpreadingFactor::_8, lora_modulation::Bandwidth::_250KHz) => Some(ProtoRate::Sf8bw250),
        (lora_modulation::SpreadingFactor::_7, lora_modulation::Bandwidth::_250KHz) => Some(ProtoRate::Sf7bw250),
        (lora_modulation::SpreadingFactor::_12, lora_modulation::Bandwidth::_500KHz) => Some(ProtoRate::Sf12bw500),
        (lora_modulation::SpreadingFactor::_11, lora_modulation::Bandwidth::_500KHz) => Some(ProtoRate::Sf11bw500),
        (lora_modulation::SpreadingFactor::_10, lora_modulation::Bandwidth::_500KHz) => Some(ProtoRate::Sf10bw500),
        (lora_modulation::SpreadingFactor::_9, lora_modulation::Bandwidth::_500KHz) => Some(ProtoRate::Sf9bw500),
        (lora_modulation::SpreadingFactor::_8, lora_modulation::Bandwidth::_500KHz) => Some(ProtoRate::Sf8bw500),
        (lora_modulation::SpreadingFactor::_7, lora_modulation::Bandwidth::_500KHz) => Some(ProtoRate::Sf7bw500),
        _ => None,
    }
}

/// Router data rates that name a LoRa data rate survive the trip to the
/// forwarder and back, and forwarder data rates that the router protocol
/// names survive the opposite trip.
pub proof fn lemma_proto_round_trip(rate: ProtoRate, d: DataRate)
    ensures
        from_proto_spec(rate) matches Ok(x) ==> to_proto_spec(x) == Some(rate),
        to_proto_spec(d) matches Some(p) ==> from_proto_spec(p) == Ok::<DataRate, DecodeError>(d),
{
}

} // verus!
