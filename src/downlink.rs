//! Downlink dispatch: the card's transmission record, the meaning of the
//! card's replies, and the choice between the two receive windows.
use vstd::prelude::*;
use crate::error::DecodeError;
use crate::datarate::{
    CardCodingRate, CardDatarate, coding_rate_to_concentrator,
    coding_rate_to_concentrator_spec, datarate_to_concentrator, datarate_to_concentrator_spec,
};
use crate::lora_throttle::MAX_PAYLOAD_LEN;
use crate::packet::{PacketDown, TxPacket, TxTime, rx1_request, rx2_request};

verus! {

/// Upper bound on each dispatch to the card, in seconds.
pub const DOWNLINK_TIMEOUT_SECS: u64 = 5;

/// How the card schedules a transmission.
#[derive(PartialEq, Eq, Structural, Debug, Clone, Copy)]
pub enum CardTxMode {
    Immediate,
    /// When the card's microsecond counter reaches this value.
    Timestamped(u32),
    OnGps,
}

/// A transmission as the concentrator card takes it.
#[derive(Debug, Clone)]
pub struct CardTxPkt {
    pub freq_hz: u32,
    pub rf_chain: u8,
    /// Output power (dBm).
    pub rf_power: i8,
    pub datarate: CardDatarate,
    pub coderate: CardCodingRate,
    pub invert_pol: bool,
    pub preamble: Option<u16>,
    pub no_crc: bool,
    pub no_header: bool,
    pub payload: Vec<u8>,
    pub tx_mode: CardTxMode,
}

pub open spec fn tx_mode_spec(time: TxTime) -> CardTxMode {
    match time {
        TxTime::Immediate => CardTxMode::Immediate,
        TxTime::Tmst(t) => CardTxMode::Timestamped(t),
        TxTime::Tmms(_) => CardTxMode::OnGps,
    }
}

/// Immediate requests go out at once, timed requests at their concentrator
/// time, and the rest at their GPS time.
pub fn convert_txmode(time: TxTime) -> (r: CardTxMode)
    ensures
        r == tx_mode_spec(time),
{
    match time {
        TxTime::Immediate => CardTxMode::Immediate,
        TxTime::Tmst(t) => CardTxMode::Timestamped(t),
        TxTime::Tmms(_) => CardTxMode::OnGps,
    }
}

/// `c` is the card's record of the request `p`, whose data rate is `d` on the card.
pub open spec fn is_card_record(c: CardTxPkt, p: TxPacket, d: CardDatarate) -> bool {
    &&& c.freq_hz == p.freq_hz
    &&& c.rf_chain == p.rfch as u8
    &&& c.rf_power == p.powe as i8
    &&& c.datarate == d
    &&& c.coderate == coding_rate_to_concentrator_spec(p.codr)
    &&& c.invert_pol == p.ipol
    &&& c.preamble == match p.prea {
        Some(x) => Some(x as u16),
        None => None::<u16>,
    }
    &&& c.no_crc == match p.ncrc {
        Some(x) => x,
        None => false,
    }
    &&& !c.no_header
    &&& c.payload@ == p.data@
    &&& c.tx_mode == tx_mode_spec(p.time)
}

/// The card's record of a transmission request. The card takes 125, 250
/// and 500 kHz channels and frames of at most 255 bytes.
pub fn card_tx_packet(pkt: TxPacket) -> (r: Result<CardTxPkt, DecodeError>)
    ensures
        match datarate_to_concentrator_spec(pkt.datr) {
            None => r matches Err(DecodeError::InvalidDataRate),
            Some(d) => if pkt.data@.len() > MAX_PAYLOAD_LEN {
                r matches Err(DecodeError::PayloadTooLong)
            } else {
                r matches Ok(c) && is_card_record(c, pkt, d)
            },
        },
{
    let datarate = match datarate_to_concentrator(pkt.datr) {
        Some(d) => d,
        None => {
            return Err(DecodeError::InvalidDataRate);
        },
    };
    if pkt.data.len() > MAX_PAYLOAD_LEN {
        return Err(DecodeError::PayloadTooLong);
    }
    let preamble = match pkt.prea {
        Some(x) => Some(x as u16),
        None => None,
    };
    let no_crc = match pkt.ncrc {
        Some(x) => x,
        None => false,
    };
    Ok(CardTxPkt {
        freq_hz: pkt.freq_hz,
        rf_chain: pkt.rfch as u8,
        rf_power: pkt.powe as i8,
        datarate,
        coderate: coding_rate_to_concentrator(pkt.codr),
        invert_pol: pkt.ipol,
        preamble,
        no_crc,
        no_header: false,
        payload: pkt.data,
        tx_mode: convert_txmode(pkt.time),
    })
}

/// The card's reply to a transmission.
#[derive(PartialEq, Eq, Structural, Debug, Clone, Copy)]
pub enum SendResult {
    Success,
    ErrTooEarly,
    ErrTooLate,
    ErrPacketCollision,
    ErrQueueFull,
    ErrIO,
}

/// Why a transmission was refused.
#[derive(PartialEq, Eq, Structural, Debug, Clone, Copy)]
pub enum TxAckError {
    TooEarly,
    TooLate,
    CollisionPacket,
    QueueFull,
    SendFail,
}

/// Why a dispatch failed.
#[derive(PartialEq, Eq, Structural, Debug, Clone, Copy)]
pub enum DispatchError {
    /// The card refused the transmission.
    Ack(TxAckError),
    /// The card could not be reached in time.
    SendTimeout,
}

impl DispatchError {
    /// Errors of timing, after which the second receive window is tried.
    pub open spec fn is_timing(self) -> bool {
        self == DispatchError::Ack(TxAckError::TooEarly) || self == DispatchError::Ack(TxAckError::TooLate)
    }
}

pub open spec fn dispatch_result_spec(reply: Option<SendResult>) -> Result<Option<u32>, DispatchError> {
    match reply {
        Some(SendResult::Success) => Ok(None),
        Some(SendResult::ErrTooEarly) => Err(DispatchError::Ack(TxAckError::TooEarly)),
        Some(SendResult::ErrTooLate) => Err(DispatchError::Ack(TxAckError::TooLate)),
        Some(SendResult::ErrPacketCollision) => Err(DispatchError::Ack(TxAckError::CollisionPacket)),
        Some(SendResult::ErrQueueFull) => Err(DispatchError::Ack(TxAckError::QueueFull)),
        Some(SendResult::ErrIO) => Err(DispatchError::Ack(TxAckError::SendFail)),
        None => Err(DispatchError::SendTimeout),
    }
}

/// The outcome of a dispatch, from the card's reply (none when the bus
/// failed or timed out). Only early and late replies count as errors of
/// timing.
pub fn dispatch_result(reply: Option<SendResult>) -> (r: Result<Option<u32>, DispatchError>)
    ensures
        r == dispatch_result_spec(reply),
{
    match reply {
        Some(SendResult::Success) => Ok(None),
        Some(SendResult::ErrTooEarly) => Err(DispatchError::Ack(TxAckError::TooEarly)),
        Some(SendResult::ErrTooLate) => Err(DispatchError::Ack(TxAckError::TooLate)),
        Some(SendResult::ErrPacketCollision) => Err(DispatchError::Ack(TxAckError::CollisionPacket)),
        Some(SendResult::ErrQueueFull) => Err(DispatchError::Ack(TxAckError::QueueFull)),
        Some(SendResult::ErrIO) => Err(DispatchError::Ack(TxAckError::SendFail)),
        None => Err(DispatchError::SendTimeout),
    }
}

/// The two receive windows.
#[derive(PartialEq, Eq, Structural, Debug, Clone, Copy)]
pub enum RxWindow {
    Rx1,
    Rx2,
}

/// What happened to a downlink in the end.
#[derive(PartialEq, Eq, Structural, Debug, Clone, Copy)]
pub enum DownlinkOutcome {
    /// Sent in this window.
    Sent(RxWindow),
    /// The dispatch in this window failed, and no other was tried.
    Failed(RxWindow, DispatchError),
    /// No transmission could be built for the window.
    NotSent(DecodeError),
}

/// What the scheduler learns.
#[derive(Debug, Clone, Copy)]
pub enum DownlinkEvent {
    /// A downlink request arrived.
    Start,
    /// The dispatch in the first window ended.
    Rx1Done(Result<Option<u32>, DispatchError>),
    /// The dispatch in the second window ended.
    Rx2Done(Result<Option<u32>, DispatchError>),
}

/// What the scheduler asks for next.
#[derive(Debug, Clone)]
pub enum DownlinkStep {
    /// Dispatch this transmission in this window, with the downlink timeout,
    /// and report how it ended.
    Dispatch(RxWindow, TxPacket),
    /// Nothing more to do.
    Done(DownlinkOutcome),
}

/// The scheduler's answer to `event`.
pub open spec fn downlink_step_spec(down: PacketDown, tx_power: u32, event: DownlinkEvent, r: DownlinkStep) -> bool {
    match event {
        DownlinkEvent::Start => match r {
            DownlinkStep::Dispatch(w, t) => w == RxWindow::Rx1 && rx1_request(down, tx_power, Ok(t)),
            DownlinkStep::Done(DownlinkOutcome::NotSent(e)) => rx1_request(down, tx_power, Err(e)),
            _ => false,
        },
        DownlinkEvent::Rx1Done(Ok(_)) => r == DownlinkStep::Done(DownlinkOutcome::Sent(RxWindow::Rx1)),
        DownlinkEvent::Rx1Done(Err(e)) => if e.is_timing() {
            match r {
                DownlinkStep::Dispatch(w, t) => w == RxWindow::Rx2 && rx2_request(down, tx_power, Ok(Some(t))),
                DownlinkStep::Done(DownlinkOutcome::Failed(w, x)) => w == RxWindow::Rx1 && x == e
                    && rx2_request(down, tx_power, Ok(None)),
                DownlinkStep::Done(DownlinkOutcome::NotSent(d)) => rx2_request(down, tx_power, Err(d)),
                _ => false,
            }
        } else {
            r == DownlinkStep::Done(DownlinkOutcome::Failed(RxWindow::Rx1, e))
        },
        DownlinkEvent::Rx2Done(Ok(_)) => r == DownlinkStep::Done(DownlinkOutcome::Sent(RxWindow::Rx2)),
        DownlinkEvent::Rx2Done(Err(e)) => r == DownlinkStep::Done(DownlinkOutcome::Failed(RxWindow::Rx2, e)),
    }
}

/// Decides the next step for a downlink: the first window is tried first;
/// after an error of timing there, the second window, if the router gave
/// one; any other error ends the downlink.
pub fn downlink_step(down: &PacketDown, tx_power: u32, event: DownlinkEvent) -> (r: DownlinkStep)
    ensures
        downlink_step_spec(*down, tx_power, event, r),
{
    match event {
        DownlinkEvent::Start => match down.to_rx1_pull_resp(tx_power) {
            Ok(t) => DownlinkStep::Dispatch(RxWindow::Rx1, t),
            Err(e) => DownlinkStep::Done(DownlinkOutcome::NotSent(e)),
        },
        DownlinkEvent::Rx1Done(Ok(_)) => DownlinkStep::Done(DownlinkOutcome::Sent(RxWindow::Rx1)),
        DownlinkEvent::Rx1Done(Err(e)) => {
            let timing = match e {
                DispatchError::Ack(TxAckError::TooEarly) => true,
                DispatchError::Ack(TxAckError::TooLate) => true,
                _ => false,
            };
            if timing {
                match down.to_rx2_pull_resp(tx_power) {
                    Ok(Some(t)) => DownlinkStep::Dispatch(RxWindow::Rx2, t),
                    Ok(None) => DownlinkStep::Done(DownlinkOutcome::Failed(RxWindow::Rx1, e)),
                    Err(d) => DownlinkStep::Done(DownlinkOutcome::NotSent(d)),
                }
            } else {
                DownlinkStep::Done(DownlinkOutcome::Failed(RxWindow::Rx1, e))
            }
        },
        DownlinkEvent::Rx2Done(Ok(_)) => DownlinkStep::Done(DownlinkOutcome::Sent(RxWindow::Rx2)),
        DownlinkEvent::Rx2Done(Err(e)) => DownlinkStep::Done(DownlinkOutcome::Failed(RxWindow::Rx2, e)),
    }
}

} // verus!
