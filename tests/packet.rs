use lora_gateway::error::DecodeError;
use lora_gateway::datarate::{DataRate, ProtoRate};
use lora_gateway::packet::{arrival_timestamp, convert_crc, CrcStatus, PacketDown, PacketUp, RxRecord, TxTime, Window};
use lora_gateway::units::{Frequency, Rssi, Snr};

fn sf7bw125() -> DataRate {
    DataRate { sf: lora_modulation::SpreadingFactor::_7, bw: lora_modulation::Bandwidth::_125KHz }
}

fn record(data: Vec<u8>) -> RxRecord {
    RxRecord {
        crc: CrcStatus::Good,
        signal_rssi: None,
        channel_rssi: -80,
        gps_time: None,
        time: None,
        data,
        tmst: 1234,
        freq: Frequency::from_hz(868_100_000),
        datr: sf7bw125(),
        snr: Snr::from_centi_db(55),
        key: None,
    }
}

#[test]
fn bad_crc_is_refused() {
    let mut rx = record(vec![0x40, 1, 2]);
    rx.crc = CrcStatus::Fail;
    assert!(matches!(PacketUp::from_rxpk(rx, 1, 7), Err(DecodeError::InvalidCrc)));
    let mut rx = record(vec![0x40, 1, 2]);
    rx.crc = CrcStatus::Disabled;
    assert!(matches!(PacketUp::from_rxpk(rx, 1, 7), Err(DecodeError::InvalidCrc)));
}

#[test]
fn uplink_fields_come_from_the_record() {
    let p = PacketUp::from_rxpk(record(vec![0x40, 1, 2]), 3, 99).unwrap();
    assert_eq!(p.payload(), &[0x40, 1, 2]);
    assert_eq!(p.tmst(), 1234);
    assert_eq!(p.unix_timestamp(), 99);
    assert_eq!(p.rssi().dbm(), -80);
    assert_eq!(p.freq().hz(), 868_100_000);
    assert_eq!(p.snr().centi_db(), 55);
    assert_eq!(p.region(), 3);
    assert_eq!(p.hold_time(), 0);
    assert_eq!(p.gateway(), [0u8; 6]);
    assert!(!p.is_secure_packet());
    assert_eq!(p.packet_id(), None);
    assert!(p.concentrator_sig().is_none());
    assert_eq!(p.datr().sf, lora_modulation::SpreadingFactor::_7);
}

#[test]
fn signal_rssi_is_preferred() {
    let mut rx = record(vec![0x40]);
    rx.signal_rssi = Some(-70);
    let p = PacketUp::from_rxpk(rx, 0, 0).unwrap();
    assert_eq!(p.rssi().dbm(), -70);
}

#[test]
fn arrival_time_priority() {
    let mut rx = record(vec![0x40]);
    rx.gps_time = Some(42);
    rx.time = Some("2023-01-01T00:00:00Z".to_string());
    assert_eq!(PacketUp::from_rxpk(rx, 0, 7).unwrap().unix_timestamp(), 42);

    let mut rx = record(vec![0x40]);
    rx.time = Some("2023-01-01T00:00:00Z".to_string());
    assert_eq!(PacketUp::from_rxpk(rx, 0, 7).unwrap().unix_timestamp(), 1_672_531_200_000_000_000);

    let mut rx = record(vec![0x40]);
    rx.time = Some("2023-01-01T00:00:00.5+01:00".to_string());
    assert_eq!(PacketUp::from_rxpk(rx, 0, 7).unwrap().unix_timestamp(), 1_672_527_600_500_000_000);

    let mut rx = record(vec![0x40]);
    rx.time = Some("yesterday".to_string());
    assert_eq!(PacketUp::from_rxpk(rx, 0, 7).unwrap().unix_timestamp(), 7);

    assert_eq!(PacketUp::from_rxpk(record(vec![0x40]), 0, 7).unwrap().unix_timestamp(), 7);
}

#[test]
fn arrival_timestamp_choices() {
    assert_eq!(arrival_timestamp(Some(5), Some(Some(6)), 7), 5);
    assert_eq!(arrival_timestamp(None, Some(Some(6)), 7), 6);
    assert_eq!(arrival_timestamp(None, Some(None), 7), 7);
    assert_eq!(arrival_timestamp(None, None, 7), 7);
}

#[test]
fn secure_packets_carry_their_key() {
    let mut rx = record(vec![0xE0, 1]);
    rx.key = Some(0xDEADBEEF);
    let p = PacketUp::from_rxpk(rx, 0, 0).unwrap();
    assert!(p.is_secure_packet());
    assert_eq!(p.packet_id(), Some(0xDEADBEEF));
}

#[test]
fn beacon_detection() {
    let beacon = PacketUp::from_rxpk(record(vec![0xE0, 1, 2]), 0, 0).unwrap();
    assert!(beacon.is_potential_beacon());
    let data = PacketUp::from_rxpk(record(vec![0x40, 1, 2]), 0, 0).unwrap();
    assert!(!data.is_potential_beacon());
    let rfu = PacketUp::from_rxpk(record(vec![0xC0]), 0, 0).unwrap();
    assert!(!rfu.is_potential_beacon());
    let empty = PacketUp::from_rxpk(record(vec![]), 0, 0).unwrap();
    assert!(!empty.is_potential_beacon());
}

#[test]
fn header_parsing() {
    assert_eq!(PacketUp::parse_header(&[]), Err(DecodeError::EmptyPayload));
    assert_eq!(PacketUp::parse_header(&[0x00]), Ok(lorawan::parser::MType::JoinRequest));
    assert_eq!(PacketUp::parse_header(&[0x80, 9]), Ok(lorawan::parser::MType::ConfirmedDataUp));
    assert_eq!(PacketUp::parse_header(&[0xFF]), Ok(lorawan::parser::MType::Proprietary));
}

#[test]
fn payload_hash_is_sha256() {
    let p = PacketUp::from_rxpk(record(b"abc".to_vec()), 0, 0).unwrap();
    let expected: Vec<u8> = vec![
        0xba, 0x78, 0x16, 0xbf, 0x8f, 0x01, 0xcf, 0xea, 0x41, 0x41, 0x40, 0xde, 0x5d, 0xae, 0x22, 0x23,
        0xb0, 0x03, 0x61, 0xa3, 0x96, 0x17, 0x7a, 0x9c, 0xb4, 0x10, 0xff, 0x61, 0xf2, 0x00, 0x15, 0xad,
    ];
    assert_eq!(p.hash(), expected);
}

#[test]
fn signature_is_attached() {
    let mut p = PacketUp::from_rxpk(record(vec![0xE0]), 0, 0).unwrap();
    p.set_secure_sig(vec![9, 8, 7]);
    assert_eq!(p.concentrator_sig(), Some(&[9u8, 8, 7][..]));
    let copy = p.clone();
    assert_eq!(copy.concentrator_sig(), Some(&[9u8, 8, 7][..]));
    assert_eq!(copy.payload(), &[0xE0]);
}

#[test]
fn witness_report_of_a_secure_beacon() {
    let mut rx = record(vec![0xE0, 1, 2, 3]);
    rx.key = Some(77);
    rx.gps_time = Some(1_500_000_123);
    let mut p = PacketUp::from_rxpk(rx, 0, 0).unwrap();
    p.set_secure_sig(vec![4, 5]);
    let report = p.witness_report().unwrap();
    assert_eq!(report.data, vec![1, 2, 3]);
    assert_eq!(report.tmst, 1234);
    assert_eq!(report.timestamp, 1_500_000_123);
    assert_eq!(report.signal, -800);
    assert_eq!(report.snr, 55);
    assert_eq!(report.frequency, 868_100_000);
    assert_eq!(report.datarate, ProtoRate::Sf7bw125);
    let secure = report.secure_pkt.unwrap();
    assert_eq!(secure.card_id, vec![0u8; 6]);
    assert_eq!(secure.time_sec, 1);
    assert_eq!(secure.time_nano, 500_000_123);
    assert_eq!(secure.sc_signature, vec![4, 5]);
}

#[test]
fn witness_report_refusals() {
    let p = PacketUp::from_rxpk(record(vec![0x40, 1]), 0, 0).unwrap();
    assert!(matches!(p.witness_report(), Err(DecodeError::NotBeacon)));
    let mut rx = record(vec![0xE0, 1]);
    rx.datr = DataRate { sf: lora_modulation::SpreadingFactor::_5, bw: lora_modulation::Bandwidth::_125KHz };
    let p = PacketUp::from_rxpk(rx, 0, 0).unwrap();
    assert!(matches!(p.witness_report(), Err(DecodeError::InvalidDataRate)));
    let p = PacketUp::from_rxpk(record(vec![0xE0]), 0, 0).unwrap();
    let report = p.witness_report().unwrap();
    assert!(report.data.is_empty());
    assert!(report.secure_pkt.is_none());
}

fn window(timestamp: u64, immediate: bool, datarate: ProtoRate) -> Window {
    Window { timestamp, frequency: 923_300_000, datarate, immediate }
}

#[test]
fn rx1_request() {
    let down = PacketDown {
        payload: vec![1, 2, 3],
        rx1: Some(window(0x1_0000_0005, false, ProtoRate::Sf10bw500)),
        rx2: None,
    };
    let t = down.to_rx1_pull_resp(27).unwrap();
    assert_eq!(t.time, TxTime::Tmst(5));
    assert_eq!(t.freq_hz, 923_300_000);
    assert_eq!(t.powe, 27);
    assert_eq!(t.rfch, 0);
    assert!(t.ipol);
    assert_eq!(t.codr, Some(lora_modulation::CodingRate::_4_5));
    assert_eq!(t.prea, None);
    assert_eq!(t.ncrc, None);
    assert_eq!(t.data, vec![1, 2, 3]);
    assert_eq!(t.datr.sf, lora_modulation::SpreadingFactor::_10);
    assert_eq!(t.datr.bw, lora_modulation::Bandwidth::_500KHz);
    assert!(matches!(down.to_rx2_pull_resp(27), Ok(None)));

    let immediate = PacketDown { payload: vec![], rx1: Some(window(5, true, ProtoRate::Sf7bw125)), rx2: None };
    assert_eq!(immediate.to_rx1_pull_resp(14).unwrap().time, TxTime::Immediate);
}

#[test]
fn rx1_request_refusals() {
    let none = PacketDown { payload: vec![1], rx1: None, rx2: Some(window(5, false, ProtoRate::Sf12bw500)) };
    assert!(matches!(none.to_rx1_pull_resp(27), Err(DecodeError::NoRx1Window)));
    let fsk = PacketDown { payload: vec![1], rx1: Some(window(5, false, ProtoRate::Fsk50)), rx2: None };
    assert!(matches!(fsk.to_rx1_pull_resp(27), Err(DecodeError::InvalidDataRate)));
}

#[test]
fn rx2_request() {
    let down = PacketDown {
        payload: vec![7],
        rx1: Some(window(5, true, ProtoRate::Sf7bw125)),
        rx2: Some(window(1_000_005, true, ProtoRate::Sf12bw500)),
    };
    let t = down.to_rx2_pull_resp(20).unwrap().unwrap();
    // The second window is always timed, even when flagged immediate.
    assert_eq!(t.time, TxTime::Tmst(1_000_005));
    assert_eq!(t.datr.sf, lora_modulation::SpreadingFactor::_12);
    assert_eq!(t.data, vec![7]);
    let lrfhss = PacketDown { payload: vec![], rx1: None, rx2: Some(window(5, false, ProtoRate::Lrfhss1bw137)) };
    assert!(matches!(lrfhss.to_rx2_pull_resp(20), Err(DecodeError::InvalidDataRate)));
}

#[test]
fn units() {
    assert_eq!(Frequency::from_hz(903_900_000).hz(), 903_900_000);
    assert_eq!(Rssi::from_dbm(-120).dbm(), -120);
    assert_eq!(Rssi::from_dbm(-120).centi_dbm(), -1200);
    assert_eq!(Snr::from_centi_db(-75).centi_db(), -75);
}

#[test]
fn card_crc_flags() {
    assert_eq!(convert_crc(true, false), CrcStatus::Good);
    assert_eq!(convert_crc(true, true), CrcStatus::Fail);
    assert_eq!(convert_crc(false, true), CrcStatus::Disabled);
    assert_eq!(convert_crc(false, false), CrcStatus::Disabled);
}
