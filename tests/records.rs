use binread::io::Cursor;
use binread::BinReaderExt;
use f1_game_telemetry::event::{EventDataDetails, PacketEventData};
use f1_game_telemetry::telemetry::{
    read_car_damage_data, read_lap_data, CarDamageData, CarStatusData, LapData, ParticipantData,
    read_car_status_data, read_lap_history_data, read_marshal_zone, read_packet_header,
    read_participant_data, PacketFinalClassificationData, PacketHeader, PacketParticipantsData,
    PacketSessionHistoryData, CAR_STATUS_DATA_SIZE, PACKET_FINAL_CLASSIFICATION_DATA_SIZE,
    PACKET_HEADER_SIZE, PACKET_PARTICIPANTS_DATA_SIZE, PACKET_SESSION_HISTORY_DATA_SIZE,
};
use f1_game_telemetry::wire::{read_chars, read_i8, read_u16, read_u32, read_u64};

#[test]
fn little_endian_integers() {
    let b = [0x01u8, 0x02, 0x03, 0x04, 0x05, 0x06, 0x07, 0x08, 0xFF];
    assert_eq!(read_u16(&b, 0), 0x0201);
    assert_eq!(read_u32(&b, 1), 0x05040302);
    assert_eq!(read_u64(&b, 0), 0x0807060504030201);
    assert_eq!(read_i8(&b, 8), -1);
    assert_eq!(read_u16(&b, 7), 0xFF08);
}

#[test]
fn integers_agree_with_binread() {
    let b: Vec<u8> = (0u8..16).map(|i| i.wrapping_mul(37).wrapping_add(11)).collect();
    let mut c = Cursor::new(b.clone());
    let x: u16 = c.read_le().unwrap();
    let y: u32 = c.read_le().unwrap();
    let z: u64 = c.read_le().unwrap();
    let w: i8 = c.read_le().unwrap();
    assert_eq!(read_u16(&b, 0), x);
    assert_eq!(read_u32(&b, 2), y);
    assert_eq!(read_u64(&b, 6), z);
    assert_eq!(read_i8(&b, 14), w);
    let mut c = Cursor::new(b.clone());
    let f: f32 = c.read_le().unwrap();
    assert_eq!(f32::from_bits(read_u32(&b, 0)).to_bits(), f.to_bits());
}

#[test]
fn characters_are_single_bytes() {
    let b = b"Max\0\0\xe9";
    let name = read_chars(b, 0, 6);
    assert_eq!(name, vec!['M', 'a', 'x', '\0', '\0', '\u{e9}']);
}

fn header_bytes(h: &PacketHeader) -> Vec<u8> {
    let mut v = Vec::new();
    v.extend_from_slice(&h.packet_format.to_le_bytes());
    v.push(h.game_major_version);
    v.push(h.game_minor_version);
    v.push(h.packet_version);
    v.push(h.packet_id);
    v.extend_from_slice(&h.session_uid.to_le_bytes());
    v.extend_from_slice(&h.session_time.to_le_bytes());
    v.extend_from_slice(&h.frame_identifier.to_le_bytes());
    v.push(h.player_car_index);
    v.push(h.secondary_player_car_index);
    v
}

fn sample_header() -> PacketHeader {
    PacketHeader {
        packet_format: 2021,
        game_major_version: 1,
        game_minor_version: 17,
        packet_version: 1,
        packet_id: 7,
        session_uid: 0x1122_3344_5566_7788,
        session_time: 12.25f32.to_bits(),
        frame_identifier: 4242,
        player_car_index: 19,
        secondary_player_car_index: 255,
    }
}

#[test]
fn header_round_trip() {
    let h = sample_header();
    let bytes = header_bytes(&h);
    assert_eq!(bytes.len(), PACKET_HEADER_SIZE);
    assert_eq!(read_packet_header(&bytes, 0), h);
    assert_eq!(PacketHeader::decode(&bytes).unwrap(), h);
    assert_eq!(f32::from_bits(PacketHeader::decode(&bytes).unwrap().session_time), 12.25);
}

#[test]
fn car_status_round_trip() {
    let mut v = vec![1u8, 1, 2, 58, 0];
    v.extend_from_slice(&55.5f32.to_le_bytes());
    v.extend_from_slice(&110.0f32.to_le_bytes());
    v.extend_from_slice(&(-1.5f32).to_le_bytes());
    v.extend_from_slice(&13000u16.to_le_bytes());
    v.extend_from_slice(&4000u16.to_le_bytes());
    v.push(8);
    v.push(1);
    v.extend_from_slice(&300u16.to_le_bytes());
    v.extend_from_slice(&[16, 17, 3, 0xFE]);
    v.extend_from_slice(&4.0e6f32.to_le_bytes());
    v.push(2);
    v.extend_from_slice(&1.0f32.to_le_bytes());
    v.extend_from_slice(&2.0f32.to_le_bytes());
    v.extend_from_slice(&3.0f32.to_le_bytes());
    v.push(1);
    assert_eq!(v.len(), CAR_STATUS_DATA_SIZE);
    let c = read_car_status_data(&v, 0);
    assert_eq!(c.traction_control, 1);
    assert_eq!(c.front_brake_bias, 58);
    assert_eq!(f32::from_bits(c.fuel_in_tank), 55.5);
    assert_eq!(f32::from_bits(c.fuel_capacity), 110.0);
    assert_eq!(f32::from_bits(c.fuel_remaining_laps), -1.5);
    assert_eq!(c.max_rpm, 13000);
    assert_eq!(c.idle_rpm, 4000);
    assert_eq!(c.max_gears, 8);
    assert_eq!(c.drs_activation_distance, 300);
    assert_eq!(c.actual_tyre_compound, 16);
    assert_eq!(c.visual_tyre_compound, 17);
    assert_eq!(c.tyres_age_laps, 3);
    assert_eq!(c.vehicle_fia_flags, -2);
    assert_eq!(f32::from_bits(c.ers_store_energy), 4.0e6);
    assert_eq!(c.ers_deploy_mode, 2);
    assert_eq!(f32::from_bits(c.ers_deployed_this_lap), 3.0);
    assert_eq!(c.network_paused, 1);
}

#[test]
fn marshal_zone_and_lap_history_round_trip() {
    let mut v = Vec::new();
    v.extend_from_slice(&0.25f32.to_le_bytes());
    v.push(0x80);
    let z = read_marshal_zone(&v, 0);
    assert_eq!(f32::from_bits(z.zone_start), 0.25);
    assert_eq!(z.zone_flag, -128);
    let mut v = vec![9u8];
    v.extend_from_slice(&83_456u32.to_le_bytes());
    v.extend_from_slice(&27_001u16.to_le_bytes());
    v.extend_from_slice(&28_002u16.to_le_bytes());
    v.extend_from_slice(&28_453u16.to_le_bytes());
    v.push(0x0F);
    let l = read_lap_history_data(&v, 1);
    assert_eq!(l.lap_time_in_ms, 83_456);
    assert_eq!(l.sector1_time_in_ms, 27_001);
    assert_eq!(l.sector2_time_in_ms, 28_002);
    assert_eq!(l.sector3_time_in_ms, 28_453);
    assert_eq!(l.lap_valid_bit_flags, 0x0F);
}

#[test]
fn participant_name_is_kept_raw() {
    let mut v = vec![0u8, 9, 255, 1, 0, 33, 4];
    let mut name = [0u8; 48];
    name[..8].copy_from_slice(b"VERSTAPP");
    v.extend_from_slice(&name);
    v.push(1);
    let p = read_participant_data(&v, 0);
    assert_eq!(p.driver_id, 9);
    assert_eq!(p.race_number, 33);
    assert_eq!(p.name.len(), 48);
    assert_eq!(p.name[..8].iter().collect::<String>(), "VERSTAPP");
    assert!(p.name[8..].iter().all(|c| *c == '\0'));
    assert_eq!(p.your_telemetry, 1);
}

#[test]
fn participants_packet_positions_each_car() {
    let mut b = vec![0u8; PACKET_PARTICIPANTS_DATA_SIZE];
    b[24] = 20;
    for car in 0..22 {
        b[25 + car * 56 + 5] = car as u8 + 1;
    }
    let p = PacketParticipantsData::decode(&b).unwrap();
    assert_eq!(p.num_active_cars, 20);
    assert_eq!(p.participants.len(), 22);
    for (car, d) in p.participants.iter().enumerate() {
        assert_eq!(d.race_number, car as u8 + 1);
    }
}

#[test]
fn final_classification_total_time_is_a_double() {
    let mut b = vec![0u8; PACKET_FINAL_CLASSIFICATION_DATA_SIZE];
    b[24] = 2;
    let second = 25 + 45;
    b[second] = 2;
    b[second + 6..second + 10].copy_from_slice(&91_234u32.to_le_bytes());
    b[second + 10..second + 18].copy_from_slice(&5432.125f64.to_le_bytes());
    b[second + 21..second + 29].copy_from_slice(&[16, 17, 18, 0, 0, 0, 0, 0]);
    let p = PacketFinalClassificationData::decode(&b).unwrap();
    let d = &p.classification_data[1];
    assert_eq!(d.position, 2);
    assert_eq!(d.best_lap_time_in_ms, 91_234);
    assert_eq!(f64::from_bits(d.total_race_time), 5432.125);
    assert_eq!(d.tyre_stints_actual, [16, 17, 18, 0, 0, 0, 0, 0]);
}

#[test]
fn session_history_reads_all_laps() {
    let mut b = vec![0u8; PACKET_SESSION_HISTORY_DATA_SIZE];
    b[24] = 5;
    let lap99 = 31 + 99 * 11;
    b[lap99..lap99 + 4].copy_from_slice(&77_000u32.to_le_bytes());
    let last_stint = 31 + 1100 + 7 * 3;
    b[last_stint] = 44;
    let p = PacketSessionHistoryData::decode(&b).unwrap();
    assert_eq!(p.car_idx, 5);
    assert_eq!(p.lap_history_data.len(), 100);
    assert_eq!(p.lap_history_data[99].lap_time_in_ms, 77_000);
    assert_eq!(p.tyre_stint_history_data.len(), 8);
    assert_eq!(p.tyre_stint_history_data[7].end_lap, 44);
}

#[test]
fn flashback_and_speed_trap_payloads() {
    let mut b = vec![0u8; 40];
    b[5] = 3;
    b[24..28].copy_from_slice(b"FLBK");
    b[28..32].copy_from_slice(&123_456u32.to_le_bytes());
    b[32..36].copy_from_slice(&42.5f32.to_le_bytes());
    let p = PacketEventData::decode(&b).unwrap().unwrap();
    match p.event_details {
        EventDataDetails::Flashback(f) => {
            assert_eq!(f.flashback_frame_identifier, 123_456);
            assert_eq!(f32::from_bits(f.flashback_session_time), 42.5);
        }
        other => panic!("wrong payload {:?}", other),
    }
    b[24..28].copy_from_slice(b"SPTP");
    b[28] = 4;
    b[29..33].copy_from_slice(&331.5f32.to_le_bytes());
    b[33] = 1;
    b[34] = 0;
    b[35] = 4;
    b[36..40].copy_from_slice(&331.5f32.to_le_bytes());
    let p = PacketEventData::decode(&b).unwrap().unwrap();
    match p.event_details {
        EventDataDetails::SpeedTrap(s) => {
            assert_eq!(s.vehicle_idx, 4);
            assert_eq!(f32::from_bits(s.speed), 331.5);
            assert_eq!(s.is_overall_fastest_in_session, 1);
            assert_eq!(s.is_driver_fastest_in_session, 0);
            assert_eq!(s.fastest_vehicle_idx_in_session, 4);
            assert_eq!(f32::from_bits(s.fastest_speed_in_session), 331.5);
        }
        other => panic!("wrong payload {:?}", other),
    }
}

#[test]
fn zero_bytes_decode_to_default_records() {
    let zeros = vec![0u8; 128];
    assert_eq!(read_car_status_data(&zeros, 0), CarStatusData::default());
    assert_eq!(read_lap_data(&zeros, 3), LapData::default());
    assert_eq!(read_car_damage_data(&zeros, 0), CarDamageData::default());
    let p = ParticipantData::default();
    assert!(p.name.is_empty());
    assert_eq!(read_participant_data(&zeros, 0).name.len(), 48);
}
