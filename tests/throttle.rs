use lora_gateway::lora_throttle::{
    payload_symbols, time_on_air, LoraRegulatoryModel, LoraThrottle, MAX_TIME_ON_AIR,
};

// Reference values truncated to milliseconds.
#[test]
fn test_us_time_on_air() {
    assert_eq!(991, time_on_air(125000, 12, 5, 8, true, 7));
    assert_eq!(2465, time_on_air(125000, 12, 5, 8, true, 51));

    assert_eq!(495, time_on_air(125000, 11, 5, 8, true, 7));
    assert_eq!(1314, time_on_air(125000, 11, 5, 8, true, 51));

    assert_eq!(247, time_on_air(125000, 10, 5, 8, true, 7));
    assert_eq!(616, time_on_air(125000, 10, 5, 8, true, 51));

    assert_eq!(123, time_on_air(125000, 9, 5, 8, true, 7));
    assert_eq!(328, time_on_air(125000, 9, 5, 8, true, 51));

    assert_eq!(72, time_on_air(125000, 8, 5, 8, true, 7));
    assert_eq!(184, time_on_air(125000, 8, 5, 8, true, 51));

    assert_eq!(36, time_on_air(125000, 7, 5, 8, true, 7));
    assert_eq!(102, time_on_air(125000, 7, 5, 8, true, 51));
}

#[test]
fn us915_dwell_time_test() {
    let max_dwell: u32 = 400;
    let period: i64 = 20000;
    let half_max = max_dwell / 2;
    let quarter_max = max_dwell / 4;
    // Channel numbers stand in for frequencies: they only need to differ.
    let ch0: u32 = 0;
    let ch1: u32 = 1;
    // Times may be negative; they only need to increase.
    let t0: i64 = -123456789;

    let mut throttle = LoraThrottle::from(LoraRegulatoryModel::us_dwell_time());
    throttle.track_sent(t0, ch0, max_dwell);
    throttle.track_sent(t0, ch1, half_max);

    assert_eq!(false, throttle.can_send(t0 + 100, ch0, max_dwell));
    assert_eq!(true, throttle.can_send(t0, ch1, half_max));
    assert_eq!(false, throttle.can_send(t0 + 1, ch0, max_dwell));
    assert_eq!(true, throttle.can_send(t0 + 1, ch1, half_max));

    assert_eq!(false, throttle.can_send(t0 + period - 1, ch0, max_dwell));
    assert_eq!(true, throttle.can_send(t0 + period, ch0, max_dwell));
    assert_eq!(true, throttle.can_send(t0 + period + 1, ch0, max_dwell));

    // half_max + half_max stays within max_dwell wherever it starts.
    assert_eq!(true, throttle.can_send(t0 + period - half_max as i64 - 1, ch1, half_max));
    assert_eq!(true, throttle.can_send(t0 + period - half_max as i64, ch1, half_max));
    assert_eq!(true, throttle.can_send(t0 + period - half_max as i64 + 1, ch1, half_max));

    // Each of these exceeds max_dwell by 1.
    assert_eq!(false, throttle.can_send(t0 + period - half_max as i64 - 1, ch1, half_max + 1));
    assert_eq!(false, throttle.can_send(t0 + period - half_max as i64 - 2, ch1, half_max + 1));
    assert_eq!(false, throttle.can_send(t0 + period - half_max as i64 - 3, ch1, half_max + 1));

    // A full period after the tracked transmissions.
    assert_eq!(true, throttle.can_send(t0 + period + max_dwell as i64, ch0, max_dwell));
    assert_eq!(true, throttle.can_send(t0 + period + max_dwell as i64, ch1, max_dwell));

    // Two more quarter packets leave no room in [t0, t0 + period).
    assert_eq!(true, throttle.can_send(t0 + period / 4, ch1, quarter_max));
    throttle.track_sent(t0 + period / 4, ch1, quarter_max);
    assert_eq!(true, throttle.can_send(t0 + (period as f32 * 0.75) as i64, ch1, quarter_max));
    throttle.track_sent(t0 + (period * 3) / 4, ch1, quarter_max);
    assert_eq!(false, throttle.can_send(t0 + period - 1, ch1, 1));

    // ... but one ms later there is.
    assert_eq!(true, throttle.can_send(t0 + period, ch1, 1));
}

#[test]
fn us_dwell_exhaustion() {
    let t0: i64 = 1_000_000;
    let mut throttle = LoraThrottle::from(LoraRegulatoryModel::us_dwell_time());
    throttle.track_sent(t0, 0, 400);
    throttle.track_sent(t0, 1, 200);
    assert!(!throttle.can_send(t0 + 1, 0, 400));
    assert!(throttle.can_send(t0 + 1, 1, 200));
    assert!(throttle.can_send(t0 + 20000, 0, 400));
}

#[test]
fn straddle_semantics() {
    let t0: i64 = 0;
    let mut throttle = LoraThrottle::from(LoraRegulatoryModel::us_dwell_time());
    throttle.track_sent(t0, 1, 200);
    assert!(throttle.can_send(t0 + 20000 - 200 + 1, 1, 200));
    assert!(!throttle.can_send(t0 + 20000 - 200 - 1, 1, 201));
}

#[test]
fn eu_duty_saturation() {
    let mut throttle = LoraThrottle::from(LoraRegulatoryModel::common_duty());
    assert!(throttle.can_send(0, 0, 400));
    assert!(!throttle.can_send(0, 0, 401));
    let mut now: i64 = 0;
    for n in 1..=3599i64 {
        now = (n - 1) * 1000;
        assert!(throttle.can_send(now, 0, 10));
        throttle.track_sent(now, 0, 10);
        now += 1000;
    }
    assert_eq!(now, 3599000);
    // The duty cycle is counted over all channels.
    assert!(!throttle.can_send(now, 1, 10));
}

#[test]
fn can_send_refuses_long_transmissions() {
    let throttle = LoraThrottle::from(LoraRegulatoryModel::us_dwell_time());
    assert_eq!(MAX_TIME_ON_AIR, 400);
    assert!(throttle.can_send(0, 0, 400));
    assert!(!throttle.can_send(0, 0, 401));
    let duty = LoraThrottle::from(LoraRegulatoryModel::Duty { limit_ppm: 1_000_000, period: 1000 });
    assert!(!duty.can_send(0, 0, 401));
    assert!(duty.can_send(0, 0, 400));
}

#[test]
fn out_of_order_tracking_is_counted() {
    let mut throttle = LoraThrottle::from(LoraRegulatoryModel::us_dwell_time());
    throttle.track_sent(10_000, 5, 100);
    throttle.track_sent(5_000, 5, 300);
    // Both packets fall in the window that ends at 19_000.
    assert!(!throttle.can_send(19_000, 5, 1));
    assert!(throttle.can_send(19_000, 6, 400));
}

#[test]
fn old_packets_are_forgotten() {
    let mut throttle = LoraThrottle::from(LoraRegulatoryModel::us_dwell_time());
    throttle.track_sent(0, 5, 400);
    // The first packet started a whole period before this one and is pruned.
    throttle.track_sent(20_000, 7, 10);
    assert!(throttle.can_send(10_000, 5, 400));
}

#[test]
fn regulatory_models() {
    assert_eq!(
        LoraRegulatoryModel::common_duty(),
        LoraRegulatoryModel::Duty { limit_ppm: 10_000, period: 3_600_000 }
    );
    assert_eq!(
        LoraRegulatoryModel::us_dwell_time(),
        LoraRegulatoryModel::Dwell { limit: 400, period: 20_000 }
    );
    assert_eq!(LoraRegulatoryModel::common_duty().period(), 3_600_000);
    assert_eq!(LoraRegulatoryModel::us_dwell_time().period(), 20_000);
}

#[test]
fn payload_symbol_counts() {
    // SF12, CR 4/5, explicit header, 7 bytes, low data rate optimisation:
    // ceil(52 / 40) * 5 = 10 symbols after the 8 fixed ones.
    assert_eq!(payload_symbols(12, 5, true, 7, true), 18);
    // SF7, 51 bytes: ceil((408 - 28 + 44) / 28) * 5 = 80.
    assert_eq!(payload_symbols(7, 5, true, 51, false), 88);
    // An empty payload with an implicit header needs no extra symbols.
    assert_eq!(payload_symbols(12, 8, false, 0, false), 8);
}

#[test]
fn time_on_air_other_bandwidths() {
    // SF7 at 250 kHz: ceil(72 / 28) * 5 = 15, so 23 payload symbols and
    // 128 * (17 + 32 + 4 * 23) * 250 / 250000 = 18.048 ms.
    assert_eq!(time_on_air(250000, 7, 5, 8, true, 7), 18);
    // SF12 at 500 kHz has no low data rate optimisation:
    // ceil(52 / 48) * 5 = 10, 4096 * 121 * 250 / 500000 = 247.8 ms.
    assert_eq!(time_on_air(500000, 12, 5, 8, true, 7), 247);
}
