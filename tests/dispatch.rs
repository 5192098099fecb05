use f1_game_telemetry::dispatch::{decode_packet, PacketCategory, TelemetryTypes};
use f1_game_telemetry::event::{EventCode, EventDataDetails, PacketEventData};
use f1_game_telemetry::telemetry::{
    PacketHeader, PACKET_CAR_DAMAGE_DATA_SIZE, PACKET_CAR_SETUP_DATA_SIZE,
    PACKET_CAR_STATUS_DATA_SIZE, PACKET_CAR_TELEMETRY_DATA_SIZE,
    PACKET_FINAL_CLASSIFICATION_DATA_SIZE, PACKET_LAP_DATA_SIZE, PACKET_LOBBY_INFO_DATA_SIZE,
    PACKET_MOTION_DATA_SIZE, PACKET_PARTICIPANTS_DATA_SIZE, PACKET_SESSION_DATA_SIZE,
    PACKET_SESSION_HISTORY_DATA_SIZE,
};
use f1_game_telemetry::{Telemetry, TelemetryBuilder, TelemetryErrorKind};

fn all_subscribed() -> Telemetry {
    TelemetryBuilder::new("127.0.0.1:20777".to_string()).add_all_data().build()
}

fn datagram(packet_id: u8, len: usize) -> Vec<u8> {
    let mut b = vec![0u8; len];
    b[0] = 0xE5;
    b[1] = 0x07;
    b[5] = packet_id;
    b
}

fn event_datagram(code: &str, len: usize) -> Vec<u8> {
    let mut b = datagram(3, len);
    b[24..28].copy_from_slice(code.as_bytes());
    b
}

const SIZES: [(u8, usize); 11] = [
    (0, PACKET_MOTION_DATA_SIZE),
    (1, PACKET_SESSION_DATA_SIZE),
    (2, PACKET_LAP_DATA_SIZE),
    (4, PACKET_PARTICIPANTS_DATA_SIZE),
    (5, PACKET_CAR_SETUP_DATA_SIZE),
    (6, PACKET_CAR_TELEMETRY_DATA_SIZE),
    (7, PACKET_CAR_STATUS_DATA_SIZE),
    (8, PACKET_FINAL_CLASSIFICATION_DATA_SIZE),
    (9, PACKET_LOBBY_INFO_DATA_SIZE),
    (10, PACKET_CAR_DAMAGE_DATA_SIZE),
    (11, PACKET_SESSION_HISTORY_DATA_SIZE),
];

const PAYLOAD_CODES: [(&str, usize); 11] = [
    ("FTLP", 5),
    ("RTMT", 1),
    ("TMPT", 1),
    ("RCWN", 1),
    ("PENA", 7),
    ("SPTP", 12),
    ("STLG", 1),
    ("DTSV", 1),
    ("SGSV", 1),
    ("FLBK", 8),
    ("BUTN", 4),
];

const ZERO_PAYLOAD_CODES: [&str; 6] = ["SSTA", "SEND", "DRSE", "DRSD", "CHQF", "LGOT"];

#[test]
fn unsubscribed_ids_give_none() {
    let tel = TelemetryBuilder::new("127.0.0.1:20777".to_string())
        .add_motion_data()
        .build();
    for (id, size) in SIZES {
        let b = datagram(id, size);
        if id == 0 {
            assert!(tel.dispatch(&b).is_some());
        } else {
            assert!(tel.dispatch(&b).is_none());
            assert!(matches!(tel.try_dispatch(&b), Ok(None)));
        }
    }
    let e = event_datagram("STLG", 29);
    assert!(tel.dispatch(&e).is_none());
}

#[test]
fn unsubscribed_id_is_dropped_even_when_truncated() {
    let tel = TelemetryBuilder::new("x".to_string()).add_lap_data().build();
    let b = datagram(7, 30);
    assert!(matches!(tel.try_dispatch(&b), Ok(None)));
}

#[test]
fn every_category_decodes_at_its_minimum_size() {
    let tel = all_subscribed();
    for (id, size) in SIZES {
        let b = datagram(id, size);
        let rec = tel.dispatch(&b).expect("record");
        let expected = match id {
            0 => matches!(rec, TelemetryTypes::Motion(_)),
            1 => matches!(rec, TelemetryTypes::Session(_)),
            2 => matches!(rec, TelemetryTypes::LapData(_)),
            4 => matches!(rec, TelemetryTypes::Participants(_)),
            5 => matches!(rec, TelemetryTypes::CarSetup(_)),
            6 => matches!(rec, TelemetryTypes::CarTelemetry(_)),
            7 => matches!(rec, TelemetryTypes::CarStatus(_)),
            8 => matches!(rec, TelemetryTypes::FinalClassification(_)),
            9 => matches!(rec, TelemetryTypes::LobbyInfo(_)),
            10 => matches!(rec, TelemetryTypes::CarDamage(_)),
            _ => matches!(rec, TelemetryTypes::SessionHistory(_)),
        };
        assert!(expected, "packet id {}", id);
    }
    let e = event_datagram("BUTN", 32);
    assert!(matches!(tel.dispatch(&e), Some(TelemetryTypes::Event(_))));
}

#[test]
fn one_byte_short_is_a_decode_error() {
    let tel = all_subscribed();
    for (id, size) in SIZES {
        let b = datagram(id, size - 1);
        match tel.try_dispatch(&b) {
            Err(e) => assert_eq!(e.kind, TelemetryErrorKind::DecodeError),
            Ok(_) => panic!("packet id {} decoded from a short buffer", id),
        }
        assert!(tel.dispatch(&b).is_none());
    }
}

#[test]
fn header_sized_buffer_is_a_scoped_decode_error() {
    let tel = all_subscribed();
    let b = datagram(7, 24);
    assert_eq!(tel.try_dispatch(&b).unwrap_err().kind, TelemetryErrorKind::DecodeError);
    let next = datagram(7, PACKET_CAR_STATUS_DATA_SIZE);
    assert!(tel.dispatch(&next).is_some());
}

#[test]
fn short_buffer_is_a_malformed_header() {
    let tel = all_subscribed();
    for len in [0usize, 1, 5, 6, 23] {
        let b = datagram_prefix(len);
        assert_eq!(tel.try_dispatch(&b).unwrap_err().kind, TelemetryErrorKind::MalformedHeader);
        assert!(tel.dispatch(&b).is_none());
    }
    assert_eq!(PacketHeader::decode(&[0u8; 23]).unwrap_err().kind, TelemetryErrorKind::MalformedHeader);
}

fn datagram_prefix(len: usize) -> Vec<u8> {
    let mut b = vec![0u8; len];
    if len > 5 {
        b[5] = 7;
    }
    b
}

#[test]
fn unknown_packet_id_is_dropped() {
    let tel = all_subscribed();
    let b = datagram(12, 2000);
    assert!(matches!(tel.try_dispatch(&b), Ok(None)));
    assert_eq!(PacketCategory::from_packet_id(12).unwrap_err().kind, TelemetryErrorKind::UnroutableCategory);
    assert_eq!(PacketCategory::from_packet_id(255).unwrap_err().kind, TelemetryErrorKind::UnroutableCategory);
}

#[test]
fn packet_ids_route_to_their_categories() {
    for id in 0u8..12 {
        let c = PacketCategory::from_packet_id(id).unwrap();
        assert_eq!(c.packet_id(), id);
    }
    assert_eq!(PacketCategory::from_packet_id(7).unwrap(), PacketCategory::CarStatus);
    assert_eq!(PacketCategory::from_packet_id(3).unwrap(), PacketCategory::Event);
}

#[test]
fn zero_payload_events_give_none() {
    let tel = all_subscribed();
    for code in ZERO_PAYLOAD_CODES {
        let b = event_datagram(code, 64);
        assert!(tel.dispatch(&b).is_none(), "{}", code);
        assert!(matches!(tel.try_dispatch(&b), Ok(None)), "{}", code);
    }
}

#[test]
fn payload_events_decode_to_their_shape() {
    let tel = all_subscribed();
    for (code, size) in PAYLOAD_CODES {
        let b = event_datagram(code, 28 + size);
        let rec = match tel.dispatch(&b) {
            Some(TelemetryTypes::Event(p)) => p,
            _ => panic!("{} not decoded", code),
        };
        let chars: String = rec.event_string_code.iter().collect();
        assert_eq!(chars, code);
        let ok = match code {
            "FTLP" => matches!(rec.event_details, EventDataDetails::FastestLap(_)),
            "RTMT" => matches!(rec.event_details, EventDataDetails::Retirement(_)),
            "TMPT" => matches!(rec.event_details, EventDataDetails::TeamMateInPits(_)),
            "RCWN" => matches!(rec.event_details, EventDataDetails::RaceWinner(_)),
            "PENA" => matches!(rec.event_details, EventDataDetails::Penalty(_)),
            "SPTP" => matches!(rec.event_details, EventDataDetails::SpeedTrap(_)),
            "STLG" => matches!(rec.event_details, EventDataDetails::StartLights(_)),
            "DTSV" => matches!(rec.event_details, EventDataDetails::DriveThroughPenaltyServed(_)),
            "SGSV" => matches!(rec.event_details, EventDataDetails::StopGoPenaltyServed(_)),
            "FLBK" => matches!(rec.event_details, EventDataDetails::Flashback(_)),
            _ => matches!(rec.event_details, EventDataDetails::Buttons(_)),
        };
        assert!(ok, "{}", code);
        let short = event_datagram(code, 28 + size - 1);
        assert_eq!(tel.try_dispatch(&short).unwrap_err().kind, TelemetryErrorKind::DecodeError);
    }
}

#[test]
fn unknown_event_code_gives_none() {
    let tel = all_subscribed();
    for code in ["XXXX", "ftlp", "FTLQ", "    "] {
        let b = event_datagram(code, 64);
        assert!(matches!(tel.try_dispatch(&b), Ok(None)), "{}", code);
    }
}

#[test]
fn event_prefix_shorter_than_code_is_a_decode_error() {
    let tel = all_subscribed();
    let b = datagram(3, 27);
    assert_eq!(tel.try_dispatch(&b).unwrap_err().kind, TelemetryErrorKind::DecodeError);
    assert!(PacketEventData::decode(&b).is_err());
}

#[test]
fn event_codes_are_looked_up() {
    assert_eq!(EventCode::from_chars(&['S', 'T', 'L', 'G']), Some(EventCode::StartLights));
    assert_eq!(EventCode::from_chars(&['L', 'G', 'O', 'T']), Some(EventCode::LightsOut));
    assert_eq!(EventCode::from_chars(&['L', 'G', 'O', 'X']), None);
    assert!(!EventCode::LightsOut.carries_payload());
    assert!(EventCode::Flashback.carries_payload());
    assert_eq!(EventCode::SpeedTrap.payload_size(), 12);
    assert_eq!(EventCode::DrsEnabled.payload_size(), 0);
}

#[test]
fn car_status_fuel_reaches_the_forwarded_record() {
    let tel = all_subscribed();
    let mut b = datagram(7, PACKET_CAR_STATUS_DATA_SIZE);
    b[24 + 5..24 + 9].copy_from_slice(&55.5f32.to_le_bytes());
    let rec = match tel.dispatch(&b) {
        Some(TelemetryTypes::CarStatus(p)) => p,
        _ => panic!("car status not forwarded"),
    };
    assert_eq!(rec.car_status_data.len(), 22);
    assert_eq!(f32::from_bits(rec.car_status_data[0].fuel_in_tank), 55.5);
    for car in &rec.car_status_data[1..] {
        assert_eq!(f32::from_bits(car.fuel_in_tank), 0.0);
    }
    assert_eq!(rec.header.packet_id, 7);
    assert_eq!(rec.header.packet_format, 2021);
}

#[test]
fn start_lights_count_reaches_the_forwarded_record() {
    let tel = all_subscribed();
    let mut b = event_datagram("STLG", 36);
    b[28] = 3;
    match tel.dispatch(&b) {
        Some(TelemetryTypes::Event(p)) => match p.event_details {
            EventDataDetails::StartLights(s) => assert_eq!(s.num_lights, 3),
            other => panic!("wrong payload {:?}", other),
        },
        _ => panic!("start lights not forwarded"),
    }
}

#[test]
fn decode_packet_reports_event_outcomes() {
    let b = event_datagram("CHQF", 40);
    assert!(matches!(decode_packet(PacketCategory::Event, &b), Ok(None)));
    let b = event_datagram("RTMT", 29);
    assert!(matches!(decode_packet(PacketCategory::Event, &b), Ok(Some(TelemetryTypes::Event(_)))));
    let b = datagram(7, 100);
    assert_eq!(decode_packet(PacketCategory::CarStatus, &b).unwrap_err().kind, TelemetryErrorKind::DecodeError);
}
