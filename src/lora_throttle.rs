//! Time-on-air regulatory compliance for the LoRaWAN ISM bands.
//!
//! Nothing here talks to hardware. Callers record what they sent with
//! `track_sent`, ask `can_send` before transmitting, and size transmissions
//! with `time_on_air`. Times are integer milliseconds and frequencies are
//! integer hertz.
use vstd::prelude::*;

verus! {

/// Largest payload, in bytes, that a LoRa frame can carry.
pub const MAX_PAYLOAD_LEN: usize = 255;

/// `2^n`.
pub open spec fn pow2(n: nat) -> nat
    decreases n,
{
    if n == 0 {
        1
    } else {
        2 * pow2((n - 1) as nat)
    }
}

/// Smallest integer that is at least `n / d`, for `d > 0`.
pub open spec fn ceil_div(n: int, d: int) -> int
    recommends
        d > 0,
{
    (n + d - 1) / d
}

/// Low data rate optimisation is on for slow channels with long symbols.
pub open spec fn low_datarate_optimized(bandwidth: u32, spreading_factor: u32) -> bool {
    bandwidth <= 125000 && spreading_factor >= 11
}

/// Number of payload symbols (Semtech AN1200.13):
/// `8 + max(ceil((8 len - 4 SF + 28 + 16 - 20 (1 - EH)) / (4 (SF - 2 LDO))) * CR, 0)`.
pub open spec fn payload_symbols_spec(
    spreading_factor: u32,
    code_rate: u32,
    explicit_header: bool,
    payload_len: usize,
    low_datarate_optimized: bool,
) -> int {
    let eh: int = if explicit_header { 1 } else { 0 };
    let ldo: int = if low_datarate_optimized { 1 } else { 0 };
    let n = 8 * payload_len - 4 * spreading_factor + 28 + 16 - 20 * (1 - eh);
    let d = 4 * (spreading_factor - 2 * ldo);
    let s = ceil_div(n, d) * code_rate;
    8 + if s > 0 { s } else { 0 }
}

/// Time on air in whole milliseconds, truncated.
///
/// A symbol lasts `2^SF / BW` seconds and a frame lasts
/// `4.25 + preamble + payload_symbols` symbols, so the frame lasts
/// `2^SF * (17 + 4 preamble + 4 payload_symbols) * 250 / BW` milliseconds.
pub open spec fn time_on_air_spec(
    bandwidth: u32,
    spreading_factor: u32,
    code_rate: u32,
    preamble_symbols: u32,
    explicit_header: bool,
    payload_len: usize,
) -> int {
    let ps = payload_symbols_spec(
        spreading_factor,
        code_rate,
        explicit_header,
        payload_len,
        low_datarate_optimized(bandwidth, spreading_factor),
    );
    (pow2(spreading_factor as nat) * (17 + 4 * preamble_symbols + 4 * ps) * 250) / (bandwidth as int)
}

/// The parameters that the time-on-air formula is defined for.
pub open spec fn valid_modulation(spreading_factor: u32, code_rate: u32, payload_len: usize) -> bool {
    &&& 5 <= spreading_factor <= 12
    &&& 5 <= code_rate <= 8
    &&& payload_len <= MAX_PAYLOAD_LEN
}

proof fn lemma_payload_symbols_bounds(
    spreading_factor: u32,
    code_rate: u32,
    explicit_header: bool,
    payload_len: usize,
    low_datarate_optimized: bool,
)
    requires
        valid_modulation(spreading_factor, code_rate, payload_len),
    ensures
        8 <= payload_symbols_spec(spreading_factor, code_rate, explicit_header, payload_len, low_datarate_optimized) <= 8 + 533 * 8,
{
    let eh: int = if explicit_header { 1 } else { 0 };
    let ldo: int = if low_datarate_optimized { 1 } else { 0 };
    let n = 8 * payload_len - 4 * spreading_factor + 28 + 16 - 20 * (1 - eh);
    let d = 4 * (spreading_factor - 2 * ldo);
    assert(d >= 4);
    assert(n + d - 1 <= 2084 + 48);
    assert((n + d - 1) / d <= 533) by (nonlinear_arith)
        requires d >= 4, n + d - 1 <= 2132;
    assert(ceil_div(n, d) * code_rate <= 533 * 8) by (nonlinear_arith)
        requires ceil_div(n, d) <= 533, 5 <= code_rate <= 8;
}

/// Returns the number of payload symbols required to send a payload.
pub fn payload_symbols(
    spreading_factor: u32,
    code_rate: u32,
    explicit_header: bool,
    payload_len: usize,
    low_datarate_optimized: bool,
) -> (r: u32)
    requires
        valid_modulation(spreading_factor, code_rate, payload_len),
    ensures
        r == payload_symbols_spec(spreading_factor, code_rate, explicit_header, payload_len, low_datarate_optimized),
{
    let eh: i64 = if explicit_header { 1 } else { 0 };
    let ldo: i64 = if low_datarate_optimized { 1 } else { 0 };
    let n: i64 = 8 * (payload_len as i64) - 4 * (spreading_factor as i64) + 28 + 16 - 20 * (1 - eh);
    let d: i64 = 4 * (spreading_factor as i64 - 2 * ldo);
    let cr: i64 = code_rate as i64;
    let c: i64 = (n + d - 1) / d;
    assert(c == ceil_div(n as int, d as int));
    let s: i64;
    if n <= 0 {
        assert(c <= 0) by (nonlinear_arith)
            requires n <= 0, d > 0, c as int == ceil_div(n as int, d as int);
        assert(c * cr <= 0) by (nonlinear_arith)
            requires c <= 0, cr >= 0;
        s = 0;
    } else {
        assert(1 <= c <= 600) by (nonlinear_arith)
            requires 0 < n <= 2084, d >= 4, c as int == ceil_div(n as int, d as int);
        assert(0 < c * cr <= 600 * 8) by (nonlinear_arith)
            requires 1 <= c <= 600, 5 <= cr <= 8;
        s = c * cr;
    }
    (8 + s) as u32
}

/// `2^n` for the spreading factors in use.
fn pow2_u64(n: u32) -> (r: u64)
    requires
        n <= 12,
    ensures
        r == pow2(n as nat),
        r <= 4096,
{
    proof {
        reveal_with_fuel(pow2, 13);
        assert(pow2(12) == 4096);
    }
    let mut r: u64 = 1;
    let mut i: u32 = 0;
    while i < n
        invariant
            i <= n <= 12,
            r == pow2(i as nat),
            pow2(12) == 4096,
        decreases n - i,
    {
        proof {
            lemma_pow2_monotone((i + 1) as nat, 12);
        }
        r = r * 2;
        i = i + 1;
    }
    proof {
        lemma_pow2_monotone(n as nat, 12);
    }
    r
}

proof fn lemma_pow2_monotone(a: nat, b: nat)
    requires
        a <= b,
    ensures
        pow2(a) <= pow2(b),
    decreases b,
{
    if a < b {
        lemma_pow2_monotone(a, (b - 1) as nat);
    }
}

/// Returns the total time on air, in whole milliseconds (truncated), of a
/// packet sent with the given parameters.
///
/// See Semtech application note AN1200.13, "LoRa Modem Designer's Guide".
pub fn time_on_air(
    bandwidth: u32,
    spreading_factor: u32,
    code_rate: u32,
    preamble_symbols: u32,
    explicit_header: bool,
    payload_len: usize,
) -> (r: u64)
    requires
        bandwidth > 0,
        valid_modulation(spreading_factor, code_rate, payload_len),
    ensures
        r == time_on_air_spec(
            bandwidth,
            spreading_factor,
            code_rate,
            preamble_symbols,
            explicit_header,
            payload_len,
        ),
{
    let ldo = bandwidth <= 125000 && spreading_factor >= 11;
    let ps = payload_symbols(spreading_factor, code_rate, explicit_header, payload_len, ldo);
    proof {
        lemma_payload_symbols_bounds(spreading_factor, code_rate, explicit_header, payload_len, ldo);
    }
    let p = pow2_u64(spreading_factor);
    let symbols: u64 = 17 + 4 * (preamble_symbols as u64) + 4 * (ps as u64);
    assert(p * symbols <= 4096 * 17200000000u64) by (nonlinear_arith)
        requires p <= 4096, symbols <= 17200000000u64;
    let scaled: u64 = p * symbols * 250;
    scaled / (bandwidth as u64)
}

/// Hard cap on the time on air of a single transmission, in milliseconds.
pub const MAX_TIME_ON_AIR: u32 = 400;

/// The regulatory regime that decides whether a transmission is permitted.
#[derive(PartialEq, Eq, Structural, Debug, Clone, Copy)]
pub enum LoraRegulatoryModel {
    /// At most `limit` ms on any one frequency within any window of `period` ms.
    Dwell { limit: u32, period: u32 },
    /// Time on air over all frequencies within any window of `period` ms must
    /// stay below `limit_ppm` parts per million of the window.
    Duty { limit_ppm: u32, period: u32 },
}

/// A transmission that was made: when it started (ms), on which frequency
/// (Hz), and for how long (ms).
#[derive(PartialEq, Eq, Structural, Debug, Clone, Copy)]
pub struct SentPacket {
    pub frequency: u32,
    pub sent_at: i64,
    pub time_on_air: u32,
}

/// How much of packet `p` falls within a window that starts at `cutoff`,
/// counting only packets on `frequency` when one is given.
pub open spec fn packet_dwell(p: SentPacket, cutoff: int, frequency: Option<u32>) -> int {
    if p.sent_at + p.time_on_air < cutoff {
        // sent entirely before the window
        0
    } else if frequency is Some && p.frequency != frequency->0 {
        // another frequency
        0
    } else if p.sent_at <= cutoff {
        // straddles the start of the window
        p.time_on_air - (cutoff - p.sent_at)
    } else {
        p.time_on_air as int
    }
}

/// Total time on air of `packets` within a window that starts at `cutoff`.
pub open spec fn dwell_sum(packets: Seq<SentPacket>, cutoff: int, frequency: Option<u32>) -> int
    decreases packets.len(),
{
    if packets.len() == 0 {
        0
    } else {
        dwell_sum(packets.drop_last(), cutoff, frequency) + packet_dwell(packets.last(), cutoff, frequency)
    }
}

impl LoraRegulatoryModel {
    /// Length of the sliding window, in ms.
    pub open spec fn window(self) -> u32 {
        match self {
            LoraRegulatoryModel::Dwell { period, .. } => period,
            LoraRegulatoryModel::Duty { period, .. } => period,
        }
    }

    /// Whether `model` permits `time_on_air` ms on `frequency` at `at_time`,
    /// given what was sent before.
    pub open spec fn allows(self, packets: Seq<SentPacket>, at_time: int, frequency: u32, time_on_air: int) -> bool {
        match self {
            LoraRegulatoryModel::Dwell { limit, period } => {
                let cutoff = at_time - period + time_on_air;
                dwell_sum(packets, cutoff, Some(frequency)) + time_on_air <= limit
            },
            LoraRegulatoryModel::Duty { limit_ppm, period } => {
                let cutoff = at_time - period;
                (dwell_sum(packets, cutoff, None) + time_on_air) * 1_000_000 < limit_ppm * period
            },
        }
    }

    /// The common duty-cycle rule: 1 % over one hour.
    pub fn common_duty() -> (r: Self)
        ensures
            r == (LoraRegulatoryModel::Duty { limit_ppm: 10_000, period: 3_600_000 }),
    {
        LoraRegulatoryModel::Duty { limit_ppm: 10_000, period: 3_600_000 }
    }

    /// The US dwell-time rule: 400 ms per frequency in any 20 s.
    pub fn us_dwell_time() -> (r: Self)
        ensures
            r == (LoraRegulatoryModel::Dwell { limit: 400, period: 20_000 }),
    {
        LoraRegulatoryModel::Dwell { limit: 400, period: 20_000 }
    }

    pub fn period(&self) -> (r: u32)
        ensures
            r == self.window(),
    {
        match self {
            LoraRegulatoryModel::Duty { period, .. } => *period,
            LoraRegulatoryModel::Dwell { period, .. } => *period,
        }
    }

    /// Whether this model permits sending `time_on_air` ms on `frequency` at
    /// `at_time`, given the packets sent before.
    pub fn can_send(&self, sent_packets: &[SentPacket], at_time: i64, frequency: u32, time_on_air: u32) -> (r: bool)
        ensures
            r == self.allows(sent_packets@, at_time as int, frequency, time_on_air as int),
    {
        match self {
            LoraRegulatoryModel::Dwell { period, limit } => {
                let cutoff_time = at_time as i128 - *period as i128 + time_on_air as i128;
                let dwell = dwell_time(sent_packets, cutoff_time, Some(frequency));
                let n = sent_packets.len();
                proof {
                    lemma_dwell_fits(dwell, n);
                }
                dwell + time_on_air as i128 <= *limit as i128
            },
            LoraRegulatoryModel::Duty { period, limit_ppm } => {
                let cutoff_time = at_time as i128 - *period as i128;
                let dwell = dwell_time(sent_packets, cutoff_time, None);
                let n = sent_packets.len();
                proof {
                    lemma_dwell_fits(dwell, n);
                }
                let limit = *limit_ppm as i128;
                let window = *period as i128;
                assert(0 <= limit * window <= 0xffff_ffff * 0xffff_ffff) by (nonlinear_arith)
                    requires
                        0 <= limit <= 0xffff_ffff,
                        0 <= window <= 0xffff_ffff,
                ;
                (dwell + time_on_air as i128) * 1_000_000 < limit * window
            },
        }
    }
}

proof fn lemma_dwell_fits(dwell: i128, n: usize)
    requires
        0 <= dwell <= n * 0xffff_ffff,
    ensures
        dwell <= 0x1_0000_0000_0000_0000_0000_0000,
{
    assert(dwell <= 0x1_0000_0000_0000_0000_0000_0000) by (nonlinear_arith)
        requires
            dwell <= n * 0xffff_ffff,
            n <= 0xffff_ffff_ffff_ffff,
    ;
}

proof fn lemma_packet_dwell_bounds(p: SentPacket, cutoff: int, frequency: Option<u32>)
    ensures
        0 <= packet_dwell(p, cutoff, frequency) <= p.time_on_air,
{
}

/// Computes the total time on air of the packets sent on `frequency` (on
/// any frequency when `None`) that fall after `cutoff_time`.
pub fn dwell_time(sent_packets: &[SentPacket], cutoff_time: i128, frequency: Option<u32>) -> (r: i128)
    requires
        -0x1_0000_0000_0000_0000_0000 <= cutoff_time <= 0x1_0000_0000_0000_0000_0000,
    ensures
        r == dwell_sum(sent_packets@, cutoff_time as int, frequency),
        0 <= r <= sent_packets@.len() * 0xffff_ffff,
{
    let mut dwell: i128 = 0;
    let mut i: usize = 0;
    while i < sent_packets.len()
        invariant
            i <= sent_packets@.len(),
            -0x1_0000_0000_0000_0000_0000 <= cutoff_time <= 0x1_0000_0000_0000_0000_0000,
            dwell == dwell_sum(sent_packets@.take(i as int), cutoff_time as int, frequency),
            0 <= dwell <= i * 0xffff_ffff,
        decreases sent_packets@.len() - i,
    {
        let p = sent_packets[i];
        proof {
            assert(sent_packets@.take(i + 1).drop_last() =~= sent_packets@.take(i as int));
            lemma_packet_dwell_bounds(p, cutoff_time as int, frequency);
        }
        let sent_at = p.sent_at as i128;
        let toa = p.time_on_air as i128;
        let mut relevant: i128 = 0;
        if sent_at + toa < cutoff_time {
            // sent entirely before the window
        } else if frequency.is_some() && p.frequency != frequency.unwrap() {
            // another frequency
        } else if sent_at <= cutoff_time {
            // straddles the start of the window
            relevant = toa - (cutoff_time - sent_at);
        } else {
            relevant = toa;
        }
        assert(relevant == packet_dwell(p, cutoff_time as int, frequency));
        dwell = dwell + relevant;
        i = i + 1;
    }
    assert(sent_packets@.take(i as int) =~= sent_packets@);
    dwell
}

/// Packets are listed in the order in which they started.
pub open spec fn sorted_by_sent_at(packets: Seq<SentPacket>) -> bool {
    forall|i: int, j: int| 0 <= i <= j < packets.len() ==> packets[i].sent_at <= packets[j].sent_at
}

/// No packet started `period` ms or more before the last one listed.
pub open spec fn within_period(packets: Seq<SentPacket>, period: u32) -> bool {
    packets.len() > 0 ==> forall|i: int|
        0 <= i < packets.len() ==> #[trigger] packets[i].sent_at > packets.last().sent_at - period
}

/// `packets` with `p` placed after every packet that did not start later
/// than it: the stable sort of `packets` followed by `p`, for sorted `packets`.
pub open spec fn insert_by_sent_at(packets: Seq<SentPacket>, p: SentPacket) -> Seq<SentPacket>
    decreases packets.len(),
{
    if packets.len() == 0 {
        seq![p]
    } else if packets.last().sent_at <= p.sent_at {
        packets.push(p)
    } else {
        insert_by_sent_at(packets.drop_last(), p).push(packets.last())
    }
}

pub open spec fn started_after(cutoff: int) -> spec_fn(SentPacket) -> bool {
    |q: SentPacket| q.sent_at > cutoff
}

/// The packets that started less than `period` ms before the last one.
pub open spec fn prune(packets: Seq<SentPacket>, period: u32) -> Seq<SentPacket> {
    if packets.len() == 0 {
        packets
    } else {
        packets.filter(started_after(packets.last().sent_at - period))
    }
}

proof fn lemma_insert_at(packets: Seq<SentPacket>, p: SentPacket, k: int)
    requires
        0 <= k <= packets.len(),
        k > 0 ==> packets[k - 1].sent_at <= p.sent_at,
        forall|j: int| k <= j < packets.len() ==> #[trigger] packets[j].sent_at > p.sent_at,
    ensures
        insert_by_sent_at(packets, p) == packets.insert(k, p),
    decreases packets.len(),
{
    if packets.len() == 0 {
        assert(packets.insert(k, p) =~= seq![p]);
    } else if packets.last().sent_at <= p.sent_at {
        assert(k == packets.len());
        assert(packets.insert(k, p) =~= packets.push(p));
    } else {
        let rest = packets.drop_last();
        lemma_insert_at(rest, p, k);
        assert(packets.insert(k, p) =~= rest.insert(k, p).push(packets.last()));
    }
}

/// Decides whether transmissions are permitted under a regulatory model,
/// from the transmissions made before.
#[derive(Debug)]
pub struct LoraThrottle {
    model: Option<LoraRegulatoryModel>,
    sent_packets: Vec<SentPacket>,
}

impl LoraThrottle {
    /// The regulatory model in force; none denies every transmission.
    pub closed spec fn regulatory_model(&self) -> Option<LoraRegulatoryModel> {
        self.model
    }

    /// The transmissions remembered, in the order in which they started.
    pub closed spec fn sent(&self) -> Seq<SentPacket> {
        self.sent_packets@
    }

    pub open spec fn wf(&self) -> bool {
        match self.regulatory_model() {
            None => self.sent().len() == 0,
            Some(m) => sorted_by_sent_at(self.sent()) && within_period(self.sent(), m.window()),
        }
    }

    /// What `track_sent` leaves in the list.
    pub open spec fn sent_after_tracking(&self, p: SentPacket) -> Seq<SentPacket> {
        match self.regulatory_model() {
            None => self.sent(),
            Some(m) => prune(insert_by_sent_at(self.sent(), p), m.window()),
        }
    }

    /// Whether this throttle permits `time_on_air` ms on `frequency` at `at_time`.
    pub open spec fn permits(&self, at_time: int, frequency: u32, time_on_air: int) -> bool {
        match self.regulatory_model() {
            None => false,
            Some(m) => time_on_air <= MAX_TIME_ON_AIR && m.allows(self.sent(), at_time, frequency, time_on_air),
        }
    }

    /// Records a transmission of `time_on_air` ms on `frequency` started at
    /// `sent_at`, and forgets those that started `period` ms or more before
    /// the latest one.
    pub fn track_sent(&mut self, sent_at: i64, frequency: u32, time_on_air: u32)
        requires
            old(self).wf(),
        ensures
            final(self).wf(),
            final(self).regulatory_model() == old(self).regulatory_model(),
            final(self).sent() == old(self).sent_after_tracking(
                SentPacket { frequency: frequency, sent_at: sent_at, time_on_air: time_on_air },
            ),
            sorted_by_sent_at(final(self).sent()),
            final(self).regulatory_model() matches Some(m) ==> within_period(final(self).sent(), m.window()),
    {
        let model = match &self.model {
            Some(m) => *m,
            None => {
                return ;
            },
        };
        let sent_packet = SentPacket { frequency, sent_at, time_on_air };
        let ghost before = self.sent_packets@;
        let mut k: usize = self.sent_packets.len();
        while k > 0 && self.sent_packets[k - 1].sent_at > sent_at
            invariant
                k <= self.sent_packets@.len(),
                self.sent_packets@ == before,
                forall|j: int| k <= j < before.len() ==> #[trigger] before[j].sent_at > sent_at,
            decreases k,
        {
            k = k - 1;
        }
        proof {
            lemma_insert_at(before, sent_packet, k as int);
        }
        self.sent_packets.insert(k, sent_packet);
        let ghost all = self.sent_packets@;
        assert(sorted_by_sent_at(all)) by {
            assert forall|i: int, j: int| 0 <= i <= j < all.len() implies all[i].sent_at <= all[j].sent_at by {
                if i < k && j > k {
                    assert(all[j] == before[j - 1]);
                }
            }
        }
        let last = self.sent_packets.len() - 1;
        let cutoff = self.sent_packets[last].sent_at as i128 - model.period() as i128;
        let ghost keep = started_after(all.last().sent_at - model.window());
        let mut kept: Vec<SentPacket> = Vec::new();
        let mut i: usize = 0;
        while i < self.sent_packets.len()
            invariant
                i <= all.len(),
                self.sent_packets@ == all,
                all.len() > 0,
                sorted_by_sent_at(all),
                cutoff == all.last().sent_at - model.window(),
                keep == started_after(cutoff as int),
                kept@ == all.take(i as int).filter(keep),
                sorted_by_sent_at(kept@),
                forall|a: int| 0 <= a < kept@.len() ==> #[trigger] kept@[a].sent_at > cutoff,
                forall|a: int, b: int|
                    0 <= a < kept@.len() && i <= b < all.len() ==> #[trigger] kept@[a].sent_at <= #[trigger] all[b].sent_at,
                forall|a: int| 0 <= a < kept@.len() ==> #[trigger] kept@[a].sent_at <= all.last().sent_at,
            decreases all.len() - i,
        {
            let q = self.sent_packets[i];
            proof {
                assert(all.take(i + 1) =~= all.take(i as int).push(q));
                all.take(i as int).lemma_filter_push(q, keep);
            }
            if q.sent_at as i128 > cutoff {
                kept.push(q);
            }
            i = i + 1;
        }
        assert(all.take(i as int) =~= all);
        self.sent_packets = kept;
    }

    /// Based on the transmissions made before, whether it is permitted to
    /// send `time_on_air` ms on `frequency` at `at_time`.
    pub fn can_send(&self, at_time: i64, frequency: u32, time_on_air: u32) -> (r: bool)
        ensures
            r == self.permits(at_time as int, frequency, time_on_air as int),
            time_on_air > MAX_TIME_ON_AIR ==> !r,
            self.regulatory_model() is None ==> !r,
    {
        match &self.model {
            Some(model) => {
                if time_on_air > MAX_TIME_ON_AIR {
                    return false;
                }
                model.can_send(self.sent_packets.as_slice(), at_time, frequency, time_on_air)
            },
            None => false,
        }
    }
}

impl From<LoraRegulatoryModel> for LoraThrottle {
    fn from(v: LoraRegulatoryModel) -> (r: Self)
        ensures
            r.regulatory_model() == Some(v),
            r.sent().len() == 0,
            r.wf(),
    {
        LoraThrottle { model: Some(v), sent_packets: Vec::new() }
    }
}

impl vstd::std_specs::convert::FromSpecImpl<LoraRegulatoryModel> for LoraThrottle {
    /// The result holds a list of packets, which a spec value cannot build;
    /// `from` states what it returns in its own `ensures`.
    open spec fn obeys_from_spec() -> bool {
        false
    }

    open spec fn from_spec(v: LoraRegulatoryModel) -> Self {
        arbitrary()
    }
}

} // verus!
