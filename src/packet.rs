//! Uplink and downlink packets, and their translation between the
//! packet-forwarder protocol, the concentrator card and the router protocol.
use vstd::prelude::*;
use sha2::Digest;
use crate::error::DecodeError;
use crate::datarate::{DataRate, ProtoRate, from_proto, from_proto_spec, to_proto, to_proto_spec};
use crate::units::{Frequency, Rssi, Snr};

verus! {

// lorawan's field-less enum of LoRaWAN message types; Verus reads its
// variants from that crate.
#[verifier::external_type_specification]
pub struct ExMType(lorawan::parser::MType);

/// The LoRaWAN message type that a MAC header byte announces: its top three
/// bits.
pub open spec fn mtype_of(header: u8) -> lorawan::parser::MType {
    let t = header / 32;
    if t == 0 {
        lorawan::parser::MType::JoinRequest
    } else if t == 1 {
        lorawan::parser::MType::JoinAccept
    } else if t == 2 {
        lorawan::parser::MType::UnconfirmedDataUp
    } else if t == 3 {
        lorawan::parser::MType::UnconfirmedDataDown
    } else if t == 4 {
        lorawan::parser::MType::ConfirmedDataUp
    } else if t == 5 {
        lorawan::parser::MType::ConfirmedDataDown
    } else if t == 6 {
        lorawan::parser::MType::RFU
    } else {
        lorawan::parser::MType::Proprietary
    }
}

/// Relies on lorawan's `MHDR::new` and `MHDR::mtype`: the message type is
/// read from the top three bits of the header byte.
#[verifier::external_body]
fn message_type(header: u8) -> (r: lorawan::parser::MType)
    ensures
        r == mtype_of(header),
{
    lorawan::parser::MHDR::new(header).mtype()
}

/// The SHA-256 digest of some bytes.
pub uninterp spec fn sha256_of(data: Seq<u8>) -> Seq<u8>;

/// Relies on sha2's `Sha256::digest`: the digest depends on the bytes alone
/// and is 32 bytes long.
#[verifier::external_body]
fn sha256(data: &[u8]) -> (r: Vec<u8>)
    ensures
        r@ == sha256_of(data@),
        r@.len() == 32,
{
    sha2::Sha256::digest(data).to_vec()
}

/// The instant that an RFC 3339 date and time names, in nanoseconds since
/// the unix epoch; none when the text is not such a date or the instant does
/// not fit in 64 bits.
pub uninterp spec fn rfc3339_nanos(s: Seq<char>) -> Option<i64>;

/// Relies on chrono's `DateTime::parse_from_rfc3339` and
/// `DateTime::timestamp_nanos_opt`: the result depends on the text alone.
#[verifier::external_body]
fn parse_rfc3339_nanos(s: &str) -> (r: Option<i64>)
    ensures
        r == rfc3339_nanos(s@),
{
    match chrono::DateTime::parse_from_rfc3339(s) {
        Ok(t) => t.timestamp_nanos_opt(),
        Err(_) => None,
    }
}

/// A copy of the bytes of `b` from index `start` on.
fn copy_from(b: &[u8], start: usize) -> (r: Vec<u8>)
    requires
        start <= b@.len(),
    ensures
        r@ == b@.skip(start as int),
{
    let mut r: Vec<u8> = Vec::new();
    let mut i: usize = start;
    while i < b.len()
        invariant
            start <= i <= b@.len(),
            r@ == b@.subrange(start as int, i as int),
        decreases b@.len() - i,
    {
        r.push(b[i]);
        i = i + 1;
        assert(r@ =~= b@.subrange(start as int, i as int));
    }
    assert(b@.subrange(start as int, i as int) =~= b@.skip(start as int));
    r
}

/// A copy of some bytes.
fn copy_bytes(b: &[u8]) -> (r: Vec<u8>)
    ensures
        r@ == b@,
{
    let r = copy_from(b, 0);
    assert(b@.skip(0) =~= b@);
    r
}

/// CRC status that the radio reports for a reception.
#[derive(PartialEq, Eq, Structural, Debug, Clone, Copy)]
pub enum CrcStatus {
    Good,
    Fail,
    Disabled,
}

pub open spec fn crc_status_spec(crc_en: bool, crc_err: bool) -> CrcStatus {
    if !crc_en {
        CrcStatus::Disabled
    } else if crc_err {
        CrcStatus::Fail
    } else {
        CrcStatus::Good
    }
}

/// The CRC status of a reception on the concentrator card, from whether a
/// CRC was checked and whether the check failed.
pub fn convert_crc(crc_en: bool, crc_err: bool) -> (r: CrcStatus)
    ensures
        r == crc_status_spec(crc_en, crc_err),
{
    match (crc_en, crc_err) {
        (true, false) => CrcStatus::Good,
        (true, true) => CrcStatus::Fail,
        (false, _) => CrcStatus::Disabled,
    }
}

/// A reception as the packet forwarder reports it.
#[derive(Debug, Clone)]
pub struct RxRecord {
    pub crc: CrcStatus,
    /// Signal strength of the packet itself, when the radio measures it.
    pub signal_rssi: Option<i32>,
    /// Signal strength of the channel.
    pub channel_rssi: i32,
    /// Arrival time from GPS, in nanoseconds since the unix epoch.
    pub gps_time: Option<u64>,
    /// Arrival time as the forwarder wrote it (RFC 3339).
    pub time: Option<String>,
    pub data: Vec<u8>,
    /// Concentrator timestamp of the end of reception, in microseconds.
    pub tmst: u32,
    pub freq: Frequency,
    pub datr: DataRate,
    pub snr: Snr,
    /// Packet id; only secure concentrators send one.
    pub key: Option<u32>,
}

/// What a `PacketUp` holds.
pub ghost struct PacketUpView {
    pub payload: Seq<u8>,
    pub tmst: u32,
    pub timestamp: u64,
    pub rssi: i32,
    pub freq: u32,
    pub datr: DataRate,
    pub snr: i32,
    pub region: i32,
    pub hold_time: u64,
    pub gateway: Seq<u8>,
    pub key: Option<u32>,
    pub concentrator_sig: Option<Seq<u8>>,
}

/// An uplink: a frame received by the radio, with how and when it arrived.
#[derive(Debug)]
pub struct PacketUp {
    payload: Vec<u8>,
    /// Concentrator timestamp of the end of reception (microseconds, wraps).
    tmst: u32,
    /// Arrival time, in nanoseconds since the unix epoch.
    timestamp: u64,
    rssi: Rssi,
    freq: Frequency,
    datr: DataRate,
    snr: Snr,
    /// Router-protocol region code.
    region: i32,
    hold_time: u64,
    /// MAC address of the gateway.
    gateway: [u8; 6],
    /// Packet id, present for packets from a secure concentrator.
    key: Option<u32>,
    concentrator_sig: Option<Vec<u8>>,
}

impl View for PacketUp {
    type V = PacketUpView;

    closed spec fn view(&self) -> PacketUpView {
        PacketUpView {
            payload: self.payload@,
            tmst: self.tmst,
            timestamp: self.timestamp,
            rssi: self.rssi@,
            freq: self.freq@,
            datr: self.datr,
            snr: self.snr@,
            region: self.region,
            hold_time: self.hold_time,
            gateway: self.gateway@,
            key: self.key,
            concentrator_sig: match self.concentrator_sig {
                Some(s) => Some(s@),
                None => None,
            },
        }
    }
}

/// Arrival time of a reception: GPS time first, then the forwarder's own
/// time when it could be read, then the local clock.
pub open spec fn arrival_time(gps_time: Option<u64>, parsed_time: Option<Option<i64>>, now: u64) -> u64 {
    match gps_time {
        Some(t) => t,
        None => match parsed_time {
            Some(Some(ns)) => ns as u64,
            _ => now,
        },
    }
}

/// The forwarder's time of a record, read.
pub open spec fn parsed_time_of(rx: RxRecord) -> Option<Option<i64>> {
    match rx.time {
        Some(s) => Some(rfc3339_nanos(s@)),
        None => None,
    }
}

/// The uplink built from a reception whose CRC is good.
pub open spec fn packet_of_record(rx: RxRecord, region: i32, parsed_time: Option<Option<i64>>, now: u64) -> PacketUpView {
    PacketUpView {
        payload: rx.data@,
        tmst: rx.tmst,
        timestamp: arrival_time(rx.gps_time, parsed_time, now),
        rssi: match rx.signal_rssi {
            Some(r) => r,
            None => rx.channel_rssi,
        },
        freq: rx.freq@,
        datr: rx.datr,
        snr: rx.snr@,
        region: region,
        hold_time: 0,
        gateway: seq![0u8, 0u8, 0u8, 0u8, 0u8, 0u8],
        key: rx.key,
        concentrator_sig: None,
    }
}

/// Chooses the arrival time of a reception; `parsed_time` is none when the
/// forwarder wrote no time, and holds none when what it wrote could not be
/// read.
pub fn arrival_timestamp(gps_time: Option<u64>, parsed_time: Option<Option<i64>>, now_ns: u64) -> (r: u64)
    ensures
        r == arrival_time(gps_time, parsed_time, now_ns),
{
    match gps_time {
        Some(t) => t,
        None => match parsed_time {
            Some(Some(ns)) => ns as u64,
            _ => now_ns,
        },
    }
}

impl PacketUp {
    /// Builds an uplink from a reception whose forwarder time, if any, was
    /// already read; `now_ns` is the local clock.
    pub fn from_rxpk_parsed(rx: RxRecord, region: i32, parsed_time: Option<Option<i64>>, now_ns: u64) -> (r: Result<PacketUp, DecodeError>)
        ensures
            rx.crc != CrcStatus::Good ==> r == Err::<PacketUp, DecodeError>(DecodeError::InvalidCrc),
            rx.crc == CrcStatus::Good ==> (r matches Ok(p) && p@ == packet_of_record(rx, region, parsed_time, now_ns)),
    {
        if rx.crc != CrcStatus::Good {
            return Err(DecodeError::InvalidCrc);
        }
        let rssi = match rx.signal_rssi {
            Some(r) => r,
            None => rx.channel_rssi,
        };
        let timestamp = arrival_timestamp(rx.gps_time, parsed_time, now_ns);
        let packet = PacketUp {
            payload: rx.data,
            tmst: rx.tmst,
            timestamp,
            rssi: Rssi::from_dbm(rssi),
            freq: rx.freq,
            datr: rx.datr,
            snr: rx.snr,
            region,
            hold_time: 0,
            gateway: [0u8; 6],
            key: rx.key,
            concentrator_sig: None,
        };
        assert(packet@.gateway =~= seq![0u8, 0u8, 0u8, 0u8, 0u8, 0u8]);
        Ok(packet)
    }

    /// Builds an uplink from a reception; `now_ns` is the local clock, used
    /// when neither GPS nor the forwarder gave a readable time.
    pub fn from_rxpk(rx: RxRecord, region: i32, now_ns: u64) -> (r: Result<PacketUp, DecodeError>)
        ensures
            rx.crc != CrcStatus::Good ==> r == Err::<PacketUp, DecodeError>(DecodeError::InvalidCrc),
            rx.crc == CrcStatus::Good ==> (r matches Ok(p) && p@ == packet_of_record(rx, region, parsed_time_of(rx), now_ns)),
    {
        let parsed_time = match &rx.time {
            Some(s) => Some(parse_rfc3339_nanos(s.as_str())),
            None => None,
        };
        Self::from_rxpk_parsed(rx, region, parsed_time, now_ns)
    }

    pub fn payload(&self) -> (r: &[u8])
        ensures
            r@ == self@.payload,
    {
        self.payload.as_slice()
    }

    /// The message type announced by the first byte of a payload.
    pub fn parse_header(payload: &[u8]) -> (r: Result<lorawan::parser::MType, DecodeError>)
        ensures
            payload@.len() == 0 ==> r == Err::<lorawan::parser::MType, DecodeError>(DecodeError::EmptyPayload),
            payload@.len() > 0 ==> r == Ok::<lorawan::parser::MType, DecodeError>(mtype_of(payload@[0])),
    {
        if payload.len() == 0 {
            Err(DecodeError::EmptyPayload)
        } else {
            Ok(message_type(payload[0]))
        }
    }

    /// Whether the payload is a proprietary frame, as Proof-of-Coverage
    /// beacons are.
    pub fn is_potential_beacon(&self) -> (r: bool)
        ensures
            r == (self@.payload.len() > 0 && mtype_of(self@.payload[0]) == lorawan::parser::MType::Proprietary),
    {
        match Self::parse_header(self.payload.as_slice()) {
            Ok(lorawan::parser::MType::Proprietary) => true,
            _ => false,
        }
    }

    /// SHA-256 of the payload, the packet's identity for deduplication.
    pub fn hash(&self) -> (r: Vec<u8>)
        ensures
            r@ == sha256_of(self@.payload),
    {
        sha256(self.payload.as_slice())
    }

    /// Whether the packet came from a secure concentrator, which always
    /// gives a packet id.
    pub fn is_secure_packet(&self) -> (r: bool)
        ensures
            r == self@.key is Some,
    {
        self.key.is_some()
    }

    pub fn packet_id(&self) -> (r: Option<u32>)
        ensures
            r == self@.key,
    {
        self.key
    }

    /// Attaches the signature that the secure concentrator made.
    pub fn set_secure_sig(&mut self, sig: Vec<u8>)
        ensures
            final(self)@ == (PacketUpView { concentrator_sig: Some(sig@), ..old(self)@ }),
    {
        self.concentrator_sig = Some(sig);
    }

    /// Arrival time, in nanoseconds since the unix epoch.
    pub fn unix_timestamp(&self) -> (r: u64)
        ensures
            r == self@.timestamp,
    {
        self.timestamp
    }

    pub fn tmst(&self) -> (r: u32)
        ensures
            r == self@.tmst,
    {
        self.tmst
    }

    pub fn rssi(&self) -> (r: Rssi)
        ensures
            r@ == self@.rssi,
    {
        self.rssi
    }

    pub fn freq(&self) -> (r: Frequency)
        ensures
            r@ == self@.freq,
    {
        self.freq
    }

    pub fn datr(&self) -> (r: DataRate)
        ensures
            r == self@.datr,
    {
        self.datr
    }

    pub fn snr(&self) -> (r: Snr)
        ensures
            r@ == self@.snr,
    {
        self.snr
    }

    pub fn region(&self) -> (r: i32)
        ensures
            r == self@.region,
    {
        self.region
    }

    pub fn hold_time(&self) -> (r: u64)
        ensures
            r == self@.hold_time,
    {
        self.hold_time
    }

    pub fn gateway(&self) -> (r: [u8; 6])
        ensures
            r@ == self@.gateway,
    {
        self.gateway
    }

    pub fn concentrator_sig(&self) -> (r: Option<&[u8]>)
        ensures
            match r {
                Some(s) => self@.concentrator_sig == Some(s@),
                None => self@.concentrator_sig is None,
            },
    {
        match &self.concentrator_sig {
            Some(s) => Some(s.as_slice()),
            None => None,
        }
    }
}

impl Clone for PacketUp {
    fn clone(&self) -> (r: Self)
        ensures
            r@ == self@,
    {
        PacketUp {
            payload: copy_bytes(self.payload.as_slice()),
            tmst: self.tmst,
            timestamp: self.timestamp,
            rssi: self.rssi,
            freq: self.freq,
            datr: self.datr,
            snr: self.snr,
            region: self.region,
            hold_time: self.hold_time,
            gateway: self.gateway,
            key: self.key,
            concentrator_sig: match &self.concentrator_sig {
                Some(s) => Some(copy_bytes(s.as_slice())),
                None => None,
            },
        }
    }
}

/// When a downlink is to be sent.
#[derive(PartialEq, Eq, Structural, Debug, Clone, Copy)]
pub enum TxTime {
    /// As soon as possible.
    Immediate,
    /// When the concentrator's microsecond counter reaches this value.
    Tmst(u32),
    /// At this GPS time, in milliseconds.
    Tmms(u32),
}

/// A transmission request in the packet-forwarder protocol: LoRa
/// modulation, with no FSK frequency deviation.
#[derive(Debug, Clone)]
pub struct TxPacket {
    pub time: TxTime,
    pub freq_hz: u32,
    /// Concentrator RF chain.
    pub rfch: u64,
    /// Output power (dBm).
    pub powe: u64,
    pub datr: DataRate,
    /// Coding rate; none disables forward error correction.
    pub codr: Option<lora_modulation::CodingRate>,
    /// Inverted polarisation.
    pub ipol: bool,
    /// Preamble length, when not the default.
    pub prea: Option<u64>,
    /// Physical-layer CRC disabled, when given.
    pub ncrc: Option<bool>,
    pub data: Vec<u8>,
}

/// A receive window that the router chose for a downlink.
#[derive(PartialEq, Eq, Structural, Debug, Clone, Copy)]
pub struct Window {
    /// Concentrator time to send at, in microseconds.
    pub timestamp: u64,
    pub frequency: u32,
    pub datarate: ProtoRate,
    pub immediate: bool,
}

/// A downlink from the router: a payload and one or two receive windows.
#[derive(Debug, Clone)]
pub struct PacketDown {
    pub payload: Vec<u8>,
    pub rx1: Option<Window>,
    pub rx2: Option<Window>,
}

/// `t` is the request that sends `payload` in a window at `time` on
/// `frequency` with data rate `datr` and power `tx_power`.
pub open spec fn is_window_request(t: TxPacket, time: TxTime, frequency: u32, datr: DataRate, payload: Seq<u8>, tx_power: u32) -> bool {
    &&& t.time == time
    &&& t.freq_hz == frequency
    &&& t.rfch == 0
    &&& t.powe == tx_power
    &&& t.datr == datr
    &&& t.codr == Some(lora_modulation::CodingRate::_4_5)
    &&& t.ipol
    &&& t.prea is None
    &&& t.ncrc is None
    &&& t.data@ == payload
}

/// When to send in the first window.
pub open spec fn rx1_time(w: Window) -> TxTime {
    if w.immediate {
        TxTime::Immediate
    } else {
        TxTime::Tmst(w.timestamp as u32)
    }
}

/// `r` is what the first receive window of `down` asks for.
pub open spec fn rx1_request(down: PacketDown, tx_power: u32, r: Result<TxPacket, DecodeError>) -> bool {
    match down.rx1 {
        None => r matches Err(DecodeError::NoRx1Window),
        Some(w) => match from_proto_spec(w.datarate) {
            Ok(d) => r matches Ok(t) && is_window_request(t, rx1_time(w), w.frequency, d, down.payload@, tx_power),
            Err(e) => r matches Err(x) && x == e,
        },
    }
}

/// `r` is what the second receive window of `down` asks for, if there is one.
pub open spec fn rx2_request(down: PacketDown, tx_power: u32, r: Result<Option<TxPacket>, DecodeError>) -> bool {
    match down.rx2 {
        None => r matches Ok(None),
        Some(w) => match from_proto_spec(w.datarate) {
            Ok(d) => r matches Ok(Some(t)) && is_window_request(t, TxTime::Tmst(w.timestamp as u32), w.frequency, d, down.payload@, tx_power),
            Err(e) => r matches Err(x) && x == e,
        },
    }
}

impl PacketDown {
    fn inner_to_pull_resp(&self, time: TxTime, frequency_hz: u32, datarate: DataRate, tx_power: u32) -> (r: TxPacket)
        ensures
            is_window_request(r, time, frequency_hz, datarate, self.payload@, tx_power),
    {
        TxPacket {
            time,
            freq_hz: frequency_hz,
            rfch: 0,
            powe: tx_power as u64,
            datr: datarate,
            codr: Some(lora_modulation::CodingRate::_4_5),
            ipol: true,
            prea: None,
            ncrc: None,
            data: copy_bytes(self.payload.as_slice()),
        }
    }

    /// The transmission request for the first receive window.
    pub fn to_rx1_pull_resp(&self, tx_power: u32) -> (r: Result<TxPacket, DecodeError>)
        ensures
            rx1_request(*self, tx_power, r),
    {
        let rx1 = match &self.rx1 {
            Some(w) => *w,
            None => {
                return Err(DecodeError::NoRx1Window);
            },
        };
        let time = if rx1.immediate {
            TxTime::Immediate
        } else {
            TxTime::Tmst(rx1.timestamp as u32)
        };
        let datarate = match from_proto(rx1.datarate) {
            Ok(d) => d,
            Err(e) => {
                return Err(e);
            },
        };
        Ok(self.inner_to_pull_resp(time, rx1.frequency, datarate, tx_power))
    }

    /// The transmission request for the second receive window, if the
    /// router gave one; it is always sent at a concentrator time.
    pub fn to_rx2_pull_resp(&self, tx_power: u32) -> (r: Result<Option<TxPacket>, DecodeError>)
        ensures
            rx2_request(*self, tx_power, r),
    {
        let rx2 = match &self.rx2 {
            Some(w) => *w,
            None => {
                return Ok(None);
            },
        };
        let datarate = match from_proto(rx2.datarate) {
            Ok(d) => d,
            Err(e) => {
                return Err(e);
            },
        };
        Ok(Some(self.inner_to_pull_resp(TxTime::Tmst(rx2.timestamp as u32), rx2.frequency, datarate, tx_power)))
    }
}

/// What a secure concentrator adds to a witness report.
#[derive(Debug, Clone)]
pub struct SecureBeacon {
    /// MAC address of the gateway.
    pub card_id: Vec<u8>,
    /// Arrival time: whole seconds since the unix epoch, and nanoseconds within the second.
    pub time_sec: u64,
    pub time_nano: u32,
    /// Signature by the concentrator, empty when none arrived.
    pub sc_signature: Vec<u8>,
}

/// A report that a Proof-of-Coverage beacon was witnessed.
#[derive(Debug, Clone)]
pub struct WitnessReport {
    /// The beacon's payload after its MAC header.
    pub data: Vec<u8>,
    pub tmst: u32,
    pub timestamp: u64,
    /// Signal strength, in tenths of a dBm.
    pub signal: i32,
    /// Signal-to-noise ratio, in tenths of a dB.
    pub snr: i32,
    pub frequency: u64,
    pub datarate: ProtoRate,
    pub secure_pkt: Option<SecureBeacon>,
}

/// `r` reports the beacon `p`.
pub open spec fn reports(r: WitnessReport, p: PacketUpView, rate: ProtoRate) -> bool {
    &&& r.data@ == p.payload.skip(1)
    &&& r.tmst == p.tmst
    &&& r.timestamp == p.timestamp
    &&& r.signal == p.rssi * 10
    &&& r.snr == p.snr
    &&& r.frequency == p.freq
    &&& r.datarate == rate
    &&& match p.key {
        Some(_) => r.secure_pkt matches Some(s) && {
            &&& s.card_id@ == p.gateway
            &&& s.time_sec == p.timestamp / 1_000_000_000
            &&& s.time_nano == p.timestamp % 1_000_000_000
            &&& s.sc_signature@ == match p.concentrator_sig {
                Some(sig) => sig,
                None => Seq::<u8>::empty(),
            }
        },
        None => r.secure_pkt is None,
    }
}

/// `p` holds a proprietary frame.
pub open spec fn is_beacon(p: PacketUpView) -> bool {
    p.payload.len() > 0 && mtype_of(p.payload[0]) == lorawan::parser::MType::Proprietary
}

impl PacketUp {
    /// The witness report for this beacon.
    pub fn witness_report(&self) -> (r: Result<WitnessReport, DecodeError>)
        requires
            i32::MIN <= self@.rssi * 10 <= i32::MAX,
        ensures
            !is_beacon(self@) ==> r matches Err(DecodeError::NotBeacon),
            is_beacon(self@) ==> match to_proto_spec(self@.datr) {
                Some(rate) => r matches Ok(w) && reports(w, self@, rate),
                None => r matches Err(DecodeError::InvalidDataRate),
            },
    {
        if !self.is_potential_beacon() {
            return Err(DecodeError::NotBeacon);
        }
        let datarate = match to_proto(self.datr) {
            Some(d) => d,
            None => {
                return Err(DecodeError::InvalidDataRate);
            },
        };
        let data = copy_from(self.payload.as_slice(), 1);
        let secure_pkt = if self.key.is_some() {
            let sc_signature = match &self.concentrator_sig {
                Some(sig) => copy_bytes(sig.as_slice()),
                None => Vec::new(),
            };
            let mut card_id: Vec<u8> = Vec::new();
            let mut i: usize = 0;
            while i < 6
                invariant
                    i <= 6,
                    card_id@ == self.gateway@.take(i as int),
                decreases 6 - i,
            {
                card_id.push(self.gateway[i]);
                i = i + 1;
                assert(card_id@ =~= self.gateway@.take(i as int));
            }
            assert(self.gateway@.take(6) =~= self.gateway@);
            Some(SecureBeacon {
                card_id,
                time_sec: self.timestamp / 1_000_000_000,
                time_nano: (self.timestamp % 1_000_000_000) as u32,
                sc_signature,
            })
        } else {
            None
        };
        Ok(WitnessReport {
            data,
            tmst: self.tmst,
            timestamp: self.timestamp,
            signal: self.rssi.centi_dbm(),
            snr: self.snr.centi_db(),
            frequency: self.freq.hz() as u64,
            datarate,
            secure_pkt,
        })
    }
}

} // verus!
