//! The byte encoding of every record, the inverse of its layout, with the
//! proof that decoding an encoding gives back the record field for field.
use crate::dispatch::{yields_record, PacketCategory};
use crate::event::{
    event_code_of, event_details_at, event_string_code_at, packet_event_data_at,
    EventDataDetails, PacketEventData, EVENT_PREFIX_SIZE,
};
use crate::telemetry::{
    CarDamageData, CarMotionData, CarSetupData, CarStatusData, CarTelemetryData, EventButtons,
    EventDriveThroughPenaltyServed, EventFastestLap, EventFlashback, EventPenalty,
    EventRaceWinner, EventRetirement, EventSpeedTrap, EventStartLights,
    EventStopGoPenaltyServed, EventTeamMateInPits, FinalClassificationData, LapData,
    LapHistoryData, LobbyInfoData, MarshalZone, PACKET_CAR_DAMAGE_DATA_SIZE,
    PACKET_CAR_SETUP_DATA_SIZE, PACKET_CAR_STATUS_DATA_SIZE, PACKET_CAR_TELEMETRY_DATA_SIZE,
    PACKET_FINAL_CLASSIFICATION_DATA_SIZE, PACKET_LAP_DATA_SIZE, PACKET_LOBBY_INFO_DATA_SIZE,
    PACKET_MOTION_DATA_SIZE, PACKET_PARTICIPANTS_DATA_SIZE, PACKET_SESSION_DATA_SIZE,
    PACKET_SESSION_HISTORY_DATA_SIZE, PacketCarDamageData, PacketCarSetupData,
    PacketCarStatusData, PacketCarTelemetryData, PacketFinalClassificationData, PacketHeader,
    PacketLapData, PacketLobbyInfoData, PacketMotionData, PacketParticipantsData,
    PacketSessionData, PacketSessionHistoryData, ParticipantData, TyreStintHistoryData,
    WeatherForecastSample, car_damage_data_at, car_motion_data_at, car_setup_data_at,
    car_status_data_at, car_telemetry_data_at, event_buttons_at,
    event_drive_through_penalty_served_at, event_fastest_lap_at, event_flashback_at,
    event_penalty_at, event_race_winner_at, event_retirement_at, event_speed_trap_at,
    event_start_lights_at, event_stop_go_penalty_served_at, event_team_mate_in_pits_at,
    final_classification_data_at, lap_data_at, lap_history_data_at, lobby_info_data_at,
    marshal_zone_at, packet_car_damage_data_at, packet_car_setup_data_at,
    packet_car_status_data_at, packet_car_telemetry_data_at,
    packet_final_classification_data_at, packet_header_at, packet_lap_data_at,
    packet_lobby_info_data_at, packet_motion_data_at, packet_participants_data_at,
    packet_session_data_at, packet_session_history_data_at, participant_data_at,
    tyre_stint_history_data_at, weather_forecast_sample_at,
};
use crate::wire::{
    le_u16, le_u32, le_u64, lemma_char_byte, lemma_i8_at, lemma_split_at,
    lemma_u16_at, lemma_u16_le_bytes, lemma_u32_at, lemma_u32_le_bytes, lemma_u64_at,
    lemma_u64_le_bytes, lemma_u8_at, u16_le_bytes, u32_le_bytes, u64_le_bytes,
};
use vstd::prelude::*;

verus! {

/// Laying records of `s` bytes end to end gives `s` bytes per record.
pub proof fn lemma_flatten_uniform_len(parts: Seq<Seq<u8>>, s: int)
    requires
        0 <= s,
        forall|k: int| 0 <= k < parts.len() ==> (#[trigger] parts[k]).len() == s,
    ensures
        parts.flatten().len() == parts.len() * s,
    decreases parts.len(),
{
    if parts.len() > 0 {
        let rest = parts.drop_first();
        assert forall|k: int| 0 <= k < rest.len() implies (#[trigger] rest[k]).len() == s by {
            assert(rest[k] == parts[k + 1]);
        }
        lemma_flatten_uniform_len(rest, s);
        let n = parts.len() as int;
        assert(s + (n - 1) * s == n * s) by (nonlinear_arith);
    }
}

/// Byte `j` of record `i`, laid end to end with others of `s` bytes, is
/// byte `i * s + j` of the whole.
pub proof fn lemma_flatten_uniform(parts: Seq<Seq<u8>>, s: int, i: int, j: int)
    requires
        forall|k: int| 0 <= k < parts.len() ==> (#[trigger] parts[k]).len() == s,
        0 <= i < parts.len(),
        0 <= j < s,
    ensures
        parts.flatten()[i * s + j] == parts[i][j],
    decreases i,
{
    let rest = parts.drop_first();
    let whole = parts.flatten();
    assert(whole == parts.first() + rest.flatten());
    assert(parts.first() == parts[0]);
    if i == 0 {
        assert(whole[j] == parts[0][j]);
    } else {
        assert forall|k: int| 0 <= k < rest.len() implies (#[trigger] rest[k]).len() == s by {
            assert(rest[k] == parts[k + 1]);
        }
        lemma_flatten_uniform(rest, s, i - 1, j);
        lemma_flatten_uniform_len(rest, s);
        let n = parts.len() as int;
        let k = i * s + j;
        assert(k - s == (i - 1) * s + j && s <= k) by (nonlinear_arith)
            requires
                k == i * s + j,
                i >= 1,
                0 <= j < s,
        ;
        assert((i - 1) * s + j < (n - 1) * s) by (nonlinear_arith)
            requires
                1 <= i < n,
                0 <= j < s,
        ;
        assert(whole[k] == rest.flatten()[k - s]);
        assert(rest[i - 1] == parts[i]);
    }
}

/// The 4 elements of `a` laid end to end, little-endian.
pub open spec fn u32x4_bytes(a: [u32; 4]) -> Seq<u8> {
    u32_le_bytes(a@[0])
        + u32_le_bytes(a@[1])
        + u32_le_bytes(a@[2])
        + u32_le_bytes(a@[3])
}

pub proof fn lemma_u32x4_bytes_len(a: [u32; 4])
    ensures
        u32x4_bytes(a).len() == 16,
{
    lemma_u32_le_bytes(a@[0]);
    lemma_u32_le_bytes(a@[1]);
    lemma_u32_le_bytes(a@[2]);
    lemma_u32_le_bytes(a@[3]);
}

/// Bytes that equal the encoding of `a` hold its elements.
pub proof fn lemma_u32x4_at(b: Seq<u8>, off: int, a: [u32; 4])
    requires
        0 <= off,
        off + 16 <= b.len(),
        b.subrange(off, off + 16) == u32x4_bytes(a),
    ensures
        a@ == seq![le_u32(b, off), le_u32(b, off + 4), le_u32(b, off + 8), le_u32(b, off + 12)],
{
    lemma_u32x4_bytes_len(a);
    lemma_u32_le_bytes(a@[0]);
    lemma_u32_le_bytes(a@[1]);
    lemma_u32_le_bytes(a@[2]);
    lemma_u32_le_bytes(a@[3]);
    let q1 = u32_le_bytes(a@[0]);
    let q2 = q1 + u32_le_bytes(a@[1]);
    let q3 = q2 + u32_le_bytes(a@[2]);
    let q4 = q3 + u32_le_bytes(a@[3]);
    lemma_split_at(b, off, q3, u32_le_bytes(a@[3]));
    lemma_split_at(b, off, q2, u32_le_bytes(a@[2]));
    lemma_split_at(b, off, q1, u32_le_bytes(a@[1]));
    lemma_u32_at(b, off, a@[0]);
    lemma_u32_at(b, off + 4, a@[1]);
    lemma_u32_at(b, off + 8, a@[2]);
    lemma_u32_at(b, off + 12, a@[3]);
    assert(a@ =~= seq![le_u32(b, off), le_u32(b, off + 4), le_u32(b, off + 8), le_u32(b, off + 12)]);
}

/// The 4 elements of `a` laid end to end, little-endian.
pub open spec fn u16x4_bytes(a: [u16; 4]) -> Seq<u8> {
    u16_le_bytes(a@[0])
        + u16_le_bytes(a@[1])
        + u16_le_bytes(a@[2])
        + u16_le_bytes(a@[3])
}

pub proof fn lemma_u16x4_bytes_len(a: [u16; 4])
    ensures
        u16x4_bytes(a).len() == 8,
{
    lemma_u16_le_bytes(a@[0]);
    lemma_u16_le_bytes(a@[1]);
    lemma_u16_le_bytes(a@[2]);
    lemma_u16_le_bytes(a@[3]);
}

/// Bytes that equal the encoding of `a` hold its elements.
pub proof fn lemma_u16x4_at(b: Seq<u8>, off: int, a: [u16; 4])
    requires
        0 <= off,
        off + 8 <= b.len(),
        b.subrange(off, off + 8) == u16x4_bytes(a),
    ensures
        a@ == seq![le_u16(b, off), le_u16(b, off + 2), le_u16(b, off + 4), le_u16(b, off + 6)],
{
    lemma_u16x4_bytes_len(a);
    lemma_u16_le_bytes(a@[0]);
    lemma_u16_le_bytes(a@[1]);
    lemma_u16_le_bytes(a@[2]);
    lemma_u16_le_bytes(a@[3]);
    let q1 = u16_le_bytes(a@[0]);
    let q2 = q1 + u16_le_bytes(a@[1]);
    let q3 = q2 + u16_le_bytes(a@[2]);
    let q4 = q3 + u16_le_bytes(a@[3]);
    lemma_split_at(b, off, q3, u16_le_bytes(a@[3]));
    lemma_split_at(b, off, q2, u16_le_bytes(a@[2]));
    lemma_split_at(b, off, q1, u16_le_bytes(a@[1]));
    lemma_u16_at(b, off, a@[0]);
    lemma_u16_at(b, off + 2, a@[1]);
    lemma_u16_at(b, off + 4, a@[2]);
    lemma_u16_at(b, off + 6, a@[3]);
    assert(a@ =~= seq![le_u16(b, off), le_u16(b, off + 2), le_u16(b, off + 4), le_u16(b, off + 6)]);
}

/// The 4 elements of `a` laid end to end, little-endian.
pub open spec fn u8x4_bytes(a: [u8; 4]) -> Seq<u8> {
    seq![a@[0]]
        + seq![a@[1]]
        + seq![a@[2]]
        + seq![a@[3]]
}

pub proof fn lemma_u8x4_bytes_len(a: [u8; 4])
    ensures
        u8x4_bytes(a).len() == 4,
{
}

/// Bytes that equal the encoding of `a` hold its elements.
pub proof fn lemma_u8x4_at(b: Seq<u8>, off: int, a: [u8; 4])
    requires
        0 <= off,
        off + 4 <= b.len(),
        b.subrange(off, off + 4) == u8x4_bytes(a),
    ensures
        a@ == seq![b[off], b[off + 1], b[off + 2], b[off + 3]],
{
    lemma_u8x4_bytes_len(a);
    let q1 = seq![a@[0]];
    let q2 = q1 + seq![a@[1]];
    let q3 = q2 + seq![a@[2]];
    let q4 = q3 + seq![a@[3]];
    lemma_split_at(b, off, q3, seq![a@[3]]);
    lemma_split_at(b, off, q2, seq![a@[2]]);
    lemma_split_at(b, off, q1, seq![a@[1]]);
    lemma_u8_at(b, off, a@[0]);
    lemma_u8_at(b, off + 1, a@[1]);
    lemma_u8_at(b, off + 2, a@[2]);
    lemma_u8_at(b, off + 3, a@[3]);
    assert(a@ =~= seq![b[off], b[off + 1], b[off + 2], b[off + 3]]);
}

/// The 8 elements of `a` laid end to end, little-endian.
pub open spec fn u8x8_bytes(a: [u8; 8]) -> Seq<u8> {
    seq![a@[0]]
        + seq![a@[1]]
        + seq![a@[2]]
        + seq![a@[3]]
        + seq![a@[4]]
        + seq![a@[5]]
        + seq![a@[6]]
        + seq![a@[7]]
}

pub proof fn lemma_u8x8_bytes_len(a: [u8; 8])
    ensures
        u8x8_bytes(a).len() == 8,
{
}

/// Bytes that equal the encoding of `a` hold its elements.
pub proof fn lemma_u8x8_at(b: Seq<u8>, off: int, a: [u8; 8])
    requires
        0 <= off,
        off + 8 <= b.len(),
        b.subrange(off, off + 8) == u8x8_bytes(a),
    ensures
        a@ == seq![b[off], b[off + 1], b[off + 2], b[off + 3], b[off + 4], b[off + 5], b[off + 6], b[off + 7]],
{
    lemma_u8x8_bytes_len(a);
    let q1 = seq![a@[0]];
    let q2 = q1 + seq![a@[1]];
    let q3 = q2 + seq![a@[2]];
    let q4 = q3 + seq![a@[3]];
    let q5 = q4 + seq![a@[4]];
    let q6 = q5 + seq![a@[5]];
    let q7 = q6 + seq![a@[6]];
    let q8 = q7 + seq![a@[7]];
    lemma_split_at(b, off, q7, seq![a@[7]]);
    lemma_split_at(b, off, q6, seq![a@[6]]);
    lemma_split_at(b, off, q5, seq![a@[5]]);
    lemma_split_at(b, off, q4, seq![a@[4]]);
    lemma_split_at(b, off, q3, seq![a@[3]]);
    lemma_split_at(b, off, q2, seq![a@[2]]);
    lemma_split_at(b, off, q1, seq![a@[1]]);
    lemma_u8_at(b, off, a@[0]);
    lemma_u8_at(b, off + 1, a@[1]);
    lemma_u8_at(b, off + 2, a@[2]);
    lemma_u8_at(b, off + 3, a@[3]);
    lemma_u8_at(b, off + 4, a@[4]);
    lemma_u8_at(b, off + 5, a@[5]);
    lemma_u8_at(b, off + 6, a@[6]);
    lemma_u8_at(b, off + 7, a@[7]);
    assert(a@ =~= seq![b[off], b[off + 1], b[off + 2], b[off + 3], b[off + 4], b[off + 5], b[off + 6], b[off + 7]]);
}

/// `r` can be written in the wire layout: its sequences have their fixed
/// lengths and its characters fit in one byte.
pub open spec fn packet_header_wf(r: PacketHeader) -> bool {
    true
}

/// The 24 bytes that hold `r`: its fields in declared order, little-endian.
pub open spec fn packet_header_bytes(r: PacketHeader) -> Seq<u8> {
    u16_le_bytes(r.packet_format)
        + seq![r.game_major_version]
        + seq![r.game_minor_version]
        + seq![r.packet_version]
        + seq![r.packet_id]
        + u64_le_bytes(r.session_uid)
        + u32_le_bytes(r.session_time)
        + u32_le_bytes(r.frame_identifier)
        + seq![r.player_car_index]
        + seq![r.secondary_player_car_index]
}

/// Bytes that equal the encoding of `r` hold `r`.
pub proof fn lemma_packet_header_bytes(r: PacketHeader, b: Seq<u8>, off: int)
    requires
        packet_header_wf(r),
        0 <= off,
        off + 24 <= b.len(),
        b.subrange(off, off + 24) == packet_header_bytes(r),
    ensures
        packet_header_bytes(r).len() == 24,
        packet_header_at(b, off, r),
{
    lemma_packet_header_bytes_len(r);
    lemma_u16_le_bytes(r.packet_format);
    lemma_u64_le_bytes(r.session_uid);
    lemma_u32_le_bytes(r.session_time);
    lemma_u32_le_bytes(r.frame_identifier);
    let q1 = u16_le_bytes(r.packet_format);
    let q2 = q1 + seq![r.game_major_version];
    let q3 = q2 + seq![r.game_minor_version];
    let q4 = q3 + seq![r.packet_version];
    let q5 = q4 + seq![r.packet_id];
    let q6 = q5 + u64_le_bytes(r.session_uid);
    let q7 = q6 + u32_le_bytes(r.session_time);
    let q8 = q7 + u32_le_bytes(r.frame_identifier);
    let q9 = q8 + seq![r.player_car_index];
    let q10 = q9 + seq![r.secondary_player_car_index];
    lemma_split_at(b, off, q9, seq![r.secondary_player_car_index]);
    lemma_split_at(b, off, q8, seq![r.player_car_index]);
    lemma_split_at(b, off, q7, u32_le_bytes(r.frame_identifier));
    lemma_split_at(b, off, q6, u32_le_bytes(r.session_time));
    lemma_split_at(b, off, q5, u64_le_bytes(r.session_uid));
    lemma_split_at(b, off, q4, seq![r.packet_id]);
    lemma_split_at(b, off, q3, seq![r.packet_version]);
    lemma_split_at(b, off, q2, seq![r.game_minor_version]);
    lemma_split_at(b, off, q1, seq![r.game_major_version]);
    lemma_u16_at(b, off, r.packet_format);
    lemma_u8_at(b, off + 2, r.game_major_version);
    lemma_u8_at(b, off + 3, r.game_minor_version);
    lemma_u8_at(b, off + 4, r.packet_version);
    lemma_u8_at(b, off + 5, r.packet_id);
    lemma_u64_at(b, off + 6, r.session_uid);
    lemma_u32_at(b, off + 14, r.session_time);
    lemma_u32_at(b, off + 18, r.frame_identifier);
    lemma_u8_at(b, off + 22, r.player_car_index);
    lemma_u8_at(b, off + 23, r.secondary_player_car_index);
}


/// The encoding of a writable `r` is as long as the layout.
pub proof fn lemma_packet_header_bytes_len(r: PacketHeader)
    requires
        packet_header_wf(r),
    ensures
        packet_header_bytes(r).len() == 24,
{
    lemma_u16_le_bytes(r.packet_format);
    lemma_u64_le_bytes(r.session_uid);
    lemma_u32_le_bytes(r.session_time);
    lemma_u32_le_bytes(r.frame_identifier);
}

/// `r` can be written in the wire layout: its sequences have their fixed
/// lengths and its characters fit in one byte.
pub open spec fn car_status_data_wf(r: CarStatusData) -> bool {
    true
}

/// The 47 bytes that hold `r`: its fields in declared order, little-endian.
pub open spec fn car_status_data_bytes(r: CarStatusData) -> Seq<u8> {
    seq![r.traction_control]
        + seq![r.anti_lock_brakes]
        + seq![r.fuel_mix]
        + seq![r.front_brake_bias]
        + seq![r.pit_limiter_status]
        + u32_le_bytes(r.fuel_in_tank)
        + u32_le_bytes(r.fuel_capacity)
        + u32_le_bytes(r.fuel_remaining_laps)
        + u16_le_bytes(r.max_rpm)
        + u16_le_bytes(r.idle_rpm)
        + seq![r.max_gears]
        + seq![r.drs_allowed]
        + u16_le_bytes(r.drs_activation_distance)
        + seq![r.actual_tyre_compound]
        + seq![r.visual_tyre_compound]
        + seq![r.tyres_age_laps]
        + seq![r.vehicle_fia_flags as u8]
        + u32_le_bytes(r.ers_store_energy)
        + seq![r.ers_deploy_mode]
        + u32_le_bytes(r.ers_harvested_this_lap_mguk)
        + u32_le_bytes(r.ers_harvested_this_lap_mguh)
        + u32_le_bytes(r.ers_deployed_this_lap)
        + seq![r.network_paused]
}

/// Bytes that equal the encoding of `r` hold `r`.
#[verifier::rlimit(60)]
pub proof fn lemma_car_status_data_bytes(r: CarStatusData, b: Seq<u8>, off: int)
    requires
        car_status_data_wf(r),
        0 <= off,
        off + 47 <= b.len(),
        b.subrange(off, off + 47) == car_status_data_bytes(r),
    ensures
        car_status_data_bytes(r).len() == 47,
        car_status_data_at(b, off, r),
{
    lemma_car_status_data_bytes_len(r);
    lemma_u32_le_bytes(r.fuel_in_tank);
    lemma_u32_le_bytes(r.fuel_capacity);
    lemma_u32_le_bytes(r.fuel_remaining_laps);
    lemma_u16_le_bytes(r.max_rpm);
    lemma_u16_le_bytes(r.idle_rpm);
    lemma_u16_le_bytes(r.drs_activation_distance);
    lemma_u32_le_bytes(r.ers_store_energy);
    lemma_u32_le_bytes(r.ers_harvested_this_lap_mguk);
    lemma_u32_le_bytes(r.ers_harvested_this_lap_mguh);
    lemma_u32_le_bytes(r.ers_deployed_this_lap);
    let q1 = seq![r.traction_control];
    let q2 = q1 + seq![r.anti_lock_brakes];
    let q3 = q2 + seq![r.fuel_mix];
    let q4 = q3 + seq![r.front_brake_bias];
    let q5 = q4 + seq![r.pit_limiter_status];
    let q6 = q5 + u32_le_bytes(r.fuel_in_tank);
    let q7 = q6 + u32_le_bytes(r.fuel_capacity);
    let q8 = q7 + u32_le_bytes(r.fuel_remaining_laps);
    let q9 = q8 + u16_le_bytes(r.max_rpm);
    let q10 = q9 + u16_le_bytes(r.idle_rpm);
    let q11 = q10 + seq![r.max_gears];
    let q12 = q11 + seq![r.drs_allowed];
    let q13 = q12 + u16_le_bytes(r.drs_activation_distance);
    let q14 = q13 + seq![r.actual_tyre_compound];
    let q15 = q14 + seq![r.visual_tyre_compound];
    let q16 = q15 + seq![r.tyres_age_laps];
    let q17 = q16 + seq![r.vehicle_fia_flags as u8];
    let q18 = q17 + u32_le_bytes(r.ers_store_energy);
    let q19 = q18 + seq![r.ers_deploy_mode];
    let q20 = q19 + u32_le_bytes(r.ers_harvested_this_lap_mguk);
    let q21 = q20 + u32_le_bytes(r.ers_harvested_this_lap_mguh);
    let q22 = q21 + u32_le_bytes(r.ers_deployed_this_lap);
    let q23 = q22 + seq![r.network_paused];
    lemma_split_at(b, off, q22, seq![r.network_paused]);
    lemma_split_at(b, off, q21, u32_le_bytes(r.ers_deployed_this_lap));
    lemma_split_at(b, off, q20, u32_le_bytes(r.ers_harvested_this_lap_mguh));
    lemma_split_at(b, off, q19, u32_le_bytes(r.ers_harvested_this_lap_mguk));
    lemma_split_at(b, off, q18, seq![r.ers_deploy_mode]);
    lemma_split_at(b, off, q17, u32_le_bytes(r.ers_store_energy));
    lemma_split_at(b, off, q16, seq![r.vehicle_fia_flags as u8]);
    lemma_split_at(b, off, q15, seq![r.tyres_age_laps]);
    lemma_split_at(b, off, q14, seq![r.visual_tyre_compound]);
    lemma_split_at(b, off, q13, seq![r.actual_tyre_compound]);
    lemma_split_at(b, off, q12, u16_le_bytes(r.drs_activation_distance));
    lemma_split_at(b, off, q11, seq![r.drs_allowed]);
    lemma_split_at(b, off, q10, seq![r.max_gears]);
    lemma_split_at(b, off, q9, u16_le_bytes(r.idle_rpm));
    lemma_split_at(b, off, q8, u16_le_bytes(r.max_rpm));
    lemma_split_at(b, off, q7, u32_le_bytes(r.fuel_remaining_laps));
    lemma_split_at(b, off, q6, u32_le_bytes(r.fuel_capacity));
    lemma_split_at(b, off, q5, u32_le_bytes(r.fuel_in_tank));
    lemma_split_at(b, off, q4, seq![r.pit_limiter_status]);
    lemma_split_at(b, off, q3, seq![r.front_brake_bias]);
    lemma_split_at(b, off, q2, seq![r.fuel_mix]);
    lemma_split_at(b, off, q1, seq![r.anti_lock_brakes]);
    lemma_u8_at(b, off, r.traction_control);
    lemma_u8_at(b, off + 1, r.anti_lock_brakes);
    lemma_u8_at(b, off + 2, r.fuel_mix);
    lemma_u8_at(b, off + 3, r.front_brake_bias);
    lemma_u8_at(b, off + 4, r.pit_limiter_status);
    lemma_u32_at(b, off + 5, r.fuel_in_tank);
    lemma_u32_at(b, off + 9, r.fuel_capacity);
    lemma_u32_at(b, off + 13, r.fuel_remaining_laps);
    lemma_u16_at(b, off + 17, r.max_rpm);
    lemma_u16_at(b, off + 19, r.idle_rpm);
    lemma_u8_at(b, off + 21, r.max_gears);
    lemma_u8_at(b, off + 22, r.drs_allowed);
    lemma_u16_at(b, off + 23, r.drs_activation_distance);
    lemma_u8_at(b, off + 25, r.actual_tyre_compound);
    lemma_u8_at(b, off + 26, r.visual_tyre_compound);
    lemma_u8_at(b, off + 27, r.tyres_age_laps);
    lemma_i8_at(b, off + 28, r.vehicle_fia_flags);
    lemma_u32_at(b, off + 29, r.ers_store_energy);
    lemma_u8_at(b, off + 33, r.ers_deploy_mode);
    lemma_u32_at(b, off + 34, r.ers_harvested_this_lap_mguk);
    lemma_u32_at(b, off + 38, r.ers_harvested_this_lap_mguh);
    lemma_u32_at(b, off + 42, r.ers_deployed_this_lap);
    lemma_u8_at(b, off + 46, r.network_paused);
}


/// The encoding of a writable `r` is as long as the layout.
pub proof fn lemma_car_status_data_bytes_len(r: CarStatusData)
    requires
        car_status_data_wf(r),
    ensures
        car_status_data_bytes(r).len() == 47,
{
    lemma_u32_le_bytes(r.fuel_in_tank);
    lemma_u32_le_bytes(r.fuel_capacity);
    lemma_u32_le_bytes(r.fuel_remaining_laps);
    lemma_u16_le_bytes(r.max_rpm);
    lemma_u16_le_bytes(r.idle_rpm);
    lemma_u16_le_bytes(r.drs_activation_distance);
    lemma_u32_le_bytes(r.ers_store_energy);
    lemma_u32_le_bytes(r.ers_harvested_this_lap_mguk);
    lemma_u32_le_bytes(r.ers_harvested_this_lap_mguh);
    lemma_u32_le_bytes(r.ers_deployed_this_lap);
}

/// The encodings of the records of `v`, one per record.
pub open spec fn car_status_data_parts(v: Seq<CarStatusData>) -> Seq<Seq<u8>> {
    v.map_values(|x: CarStatusData| car_status_data_bytes(x))
}

/// Bytes that equal the encodings of the records of `v`, end to end, hold
/// those records one after another.
#[verifier::rlimit(40)]
pub proof fn lemma_car_status_data_array_bytes(v: Seq<CarStatusData>, b: Seq<u8>, off: int)
    requires
        v.len() == 22,
        forall|i: int| 0 <= i < v.len() ==> car_status_data_wf(#[trigger] v[i]),
        0 <= off,
        off + 1034 <= b.len(),
        b.subrange(off, off + 1034) == car_status_data_parts(v).flatten(),
    ensures
        forall|i: int| 0 <= i < 22 ==> car_status_data_at(b, off + i * 47, #[trigger] v[i]),
{
    let parts = car_status_data_parts(v);
    lemma_car_status_data_parts(v);
    let whole = b.subrange(off, off + 1034);
    assert forall|i: int| 0 <= i < 22 implies car_status_data_at(b, off + i * 47, #[trigger] v[i]) by {
        assert forall|j: int| 0 <= j < 47 implies #[trigger] b.subrange(off + i * 47, off + i * 47 + 47)[j] == parts[i][j] by {
            lemma_flatten_uniform(parts, 47, i, j);
            assert(0 <= i * 47 + j < 1034) by (nonlinear_arith)
                requires
                    0 <= i < 22,
                    0 <= j < 47,
            ;
            assert(whole[i * 47 + j] == b[off + i * 47 + j]);
        }
        assert(b.subrange(off + i * 47, off + i * 47 + 47) =~= car_status_data_bytes(v[i]));
        lemma_car_status_data_bytes(v[i], b, off + i * 47);
    }
}

/// Each record of `v` encodes to as many bytes as the layout.
pub proof fn lemma_car_status_data_parts(v: Seq<CarStatusData>)
    requires
        forall|i: int| 0 <= i < v.len() ==> car_status_data_wf(#[trigger] v[i]),
    ensures
        forall|i: int| 0 <= i < v.len() ==> (#[trigger] car_status_data_parts(v)[i]).len() == 47,
{
    assert forall|i: int| 0 <= i < v.len() implies (#[trigger] car_status_data_parts(v)[i]).len() == 47 by {
        lemma_car_status_data_bytes_len(v[i]);
    }
}

/// `r` can be written in the wire layout: its sequences have their fixed
/// lengths and its characters fit in one byte.
pub open spec fn packet_car_status_data_wf(r: PacketCarStatusData) -> bool {
    &&& packet_header_wf(r.header)
    &&& r.car_status_data@.len() == 22
    &&& forall|i: int| 0 <= i < 22 ==> car_status_data_wf(#[trigger] r.car_status_data@[i])
}

/// The 1058 bytes that hold `r`: its fields in declared order, little-endian.
pub open spec fn packet_car_status_data_bytes(r: PacketCarStatusData) -> Seq<u8> {
    packet_header_bytes(r.header)
        + car_status_data_parts(r.car_status_data@).flatten()
}

/// Bytes that equal the encoding of `r` hold `r`.
#[verifier::rlimit(60)]
pub proof fn lemma_packet_car_status_data_bytes(r: PacketCarStatusData, b: Seq<u8>, off: int)
    requires
        packet_car_status_data_wf(r),
        0 <= off,
        off + 1058 <= b.len(),
        b.subrange(off, off + 1058) == packet_car_status_data_bytes(r),
    ensures
        packet_car_status_data_bytes(r).len() == 1058,
        packet_car_status_data_at(b, off, r),
{
    lemma_packet_car_status_data_bytes_len(r);
    lemma_packet_header_bytes_len(r.header);
    lemma_car_status_data_parts(r.car_status_data@);
    lemma_flatten_uniform_len(car_status_data_parts(r.car_status_data@), 47);
    let q1 = packet_header_bytes(r.header);
    let q2 = q1 + car_status_data_parts(r.car_status_data@).flatten();
    lemma_split_at(b, off, q1, car_status_data_parts(r.car_status_data@).flatten());
    lemma_packet_header_bytes(r.header, b, off);
    lemma_car_status_data_array_bytes(r.car_status_data@, b, off + 24);
}


/// The encoding of a writable `r` is as long as the layout.
pub proof fn lemma_packet_car_status_data_bytes_len(r: PacketCarStatusData)
    requires
        packet_car_status_data_wf(r),
    ensures
        packet_car_status_data_bytes(r).len() == 1058,
{
    lemma_packet_header_bytes_len(r.header);
    lemma_car_status_data_parts(r.car_status_data@);
    lemma_flatten_uniform_len(car_status_data_parts(r.car_status_data@), 47);
}

/// `r` can be written in the wire layout: its sequences have their fixed
/// lengths and its characters fit in one byte.
pub open spec fn car_motion_data_wf(r: CarMotionData) -> bool {
    true
}

/// The 60 bytes that hold `r`: its fields in declared order, little-endian.
pub open spec fn car_motion_data_bytes(r: CarMotionData) -> Seq<u8> {
    u32_le_bytes(r.world_position_x)
        + u32_le_bytes(r.world_position_y)
        + u32_le_bytes(r.world_position_z)
        + u32_le_bytes(r.world_velocity_x)
        + u32_le_bytes(r.world_velocity_y)
        + u32_le_bytes(r.world_velocity_z)
        + u16_le_bytes(r.world_forward_dir_x)
        + u16_le_bytes(r.world_forward_dir_y)
        + u16_le_bytes(r.world_forward_dir_z)
        + u16_le_bytes(r.world_right_dir_x)
        + u16_le_bytes(r.world_right_dir_y)
        + u16_le_bytes(r.world_right_dir_z)
        + u32_le_bytes(r.g_force_lateral)
        + u32_le_bytes(r.g_force_longitudinal)
        + u32_le_bytes(r.g_force_vertical)
        + u32_le_bytes(r.yaw)
        + u32_le_bytes(r.pitch)
        + u32_le_bytes(r.roll)
}

/// Bytes that equal the encoding of `r` hold `r`.
#[verifier::rlimit(60)]
pub proof fn lemma_car_motion_data_bytes(r: CarMotionData, b: Seq<u8>, off: int)
    requires
        car_motion_data_wf(r),
        0 <= off,
        off + 60 <= b.len(),
        b.subrange(off, off + 60) == car_motion_data_bytes(r),
    ensures
        car_motion_data_bytes(r).len() == 60,
        car_motion_data_at(b, off, r),
{
    lemma_car_motion_data_bytes_len(r);
    lemma_u32_le_bytes(r.world_position_x);
    lemma_u32_le_bytes(r.world_position_y);
    lemma_u32_le_bytes(r.world_position_z);
    lemma_u32_le_bytes(r.world_velocity_x);
    lemma_u32_le_bytes(r.world_velocity_y);
    lemma_u32_le_bytes(r.world_velocity_z);
    lemma_u16_le_bytes(r.world_forward_dir_x);
    lemma_u16_le_bytes(r.world_forward_dir_y);
    lemma_u16_le_bytes(r.world_forward_dir_z);
    lemma_u16_le_bytes(r.world_right_dir_x);
    lemma_u16_le_bytes(r.world_right_dir_y);
    lemma_u16_le_bytes(r.world_right_dir_z);
    lemma_u32_le_bytes(r.g_force_lateral);
    lemma_u32_le_bytes(r.g_force_longitudinal);
    lemma_u32_le_bytes(r.g_force_vertical);
    lemma_u32_le_bytes(r.yaw);
    lemma_u32_le_bytes(r.pitch);
    lemma_u32_le_bytes(r.roll);
    let q1 = u32_le_bytes(r.world_position_x);
    let q2 = q1 + u32_le_bytes(r.world_position_y);
    let q3 = q2 + u32_le_bytes(r.world_position_z);
    let q4 = q3 + u32_le_bytes(r.world_velocity_x);
    let q5 = q4 + u32_le_bytes(r.world_velocity_y);
    let q6 = q5 + u32_le_bytes(r.world_velocity_z);
    let q7 = q6 + u16_le_bytes(r.world_forward_dir_x);
    let q8 = q7 + u16_le_bytes(r.world_forward_dir_y);
    let q9 = q8 + u16_le_bytes(r.world_forward_dir_z);
    let q10 = q9 + u16_le_bytes(r.world_right_dir_x);
    let q11 = q10 + u16_le_bytes(r.world_right_dir_y);
    let q12 = q11 + u16_le_bytes(r.world_right_dir_z);
    let q13 = q12 + u32_le_bytes(r.g_force_lateral);
    let q14 = q13 + u32_le_bytes(r.g_force_longitudinal);
    let q15 = q14 + u32_le_bytes(r.g_force_vertical);
    let q16 = q15 + u32_le_bytes(r.yaw);
    let q17 = q16 + u32_le_bytes(r.pitch);
    let q18 = q17 + u32_le_bytes(r.roll);
    lemma_split_at(b, off, q17, u32_le_bytes(r.roll));
    lemma_split_at(b, off, q16, u32_le_bytes(r.pitch));
    lemma_split_at(b, off, q15, u32_le_bytes(r.yaw));
    lemma_split_at(b, off, q14, u32_le_bytes(r.g_force_vertical));
    lemma_split_at(b, off, q13, u32_le_bytes(r.g_force_longitudinal));
    lemma_split_at(b, off, q12, u32_le_bytes(r.g_force_lateral));
    lemma_split_at(b, off, q11, u16_le_bytes(r.world_right_dir_z));
    lemma_split_at(b, off, q10, u16_le_bytes(r.world_right_dir_y));
    lemma_split_at(b, off, q9, u16_le_bytes(r.world_right_dir_x));
    lemma_split_at(b, off, q8, u16_le_bytes(r.world_forward_dir_z));
    lemma_split_at(b, off, q7, u16_le_bytes(r.world_forward_dir_y));
    lemma_split_at(b, off, q6, u16_le_bytes(r.world_forward_dir_x));
    lemma_split_at(b, off, q5, u32_le_bytes(r.world_velocity_z));
    lemma_split_at(b, off, q4, u32_le_bytes(r.world_velocity_y));
    lemma_split_at(b, off, q3, u32_le_bytes(r.world_velocity_x));
    lemma_split_at(b, off, q2, u32_le_bytes(r.world_position_z));
    lemma_split_at(b, off, q1, u32_le_bytes(r.world_position_y));
    lemma_u32_at(b, off, r.world_position_x);
    lemma_u32_at(b, off + 4, r.world_position_y);
    lemma_u32_at(b, off + 8, r.world_position_z);
    lemma_u32_at(b, off + 12, r.world_velocity_x);
    lemma_u32_at(b, off + 16, r.world_velocity_y);
    lemma_u32_at(b, off + 20, r.world_velocity_z);
    lemma_u16_at(b, off + 24, r.world_forward_dir_x);
    lemma_u16_at(b, off + 26, r.world_forward_dir_y);
    lemma_u16_at(b, off + 28, r.world_forward_dir_z);
    lemma_u16_at(b, off + 30, r.world_right_dir_x);
    lemma_u16_at(b, off + 32, r.world_right_dir_y);
    lemma_u16_at(b, off + 34, r.world_right_dir_z);
    lemma_u32_at(b, off + 36, r.g_force_lateral);
    lemma_u32_at(b, off + 40, r.g_force_longitudinal);
    lemma_u32_at(b, off + 44, r.g_force_vertical);
    lemma_u32_at(b, off + 48, r.yaw);
    lemma_u32_at(b, off + 52, r.pitch);
    lemma_u32_at(b, off + 56, r.roll);
}


/// The encoding of a writable `r` is as long as the layout.
pub proof fn lemma_car_motion_data_bytes_len(r: CarMotionData)
    requires
        car_motion_data_wf(r),
    ensures
        car_motion_data_bytes(r).len() == 60,
{
    lemma_u32_le_bytes(r.world_position_x);
    lemma_u32_le_bytes(r.world_position_y);
    lemma_u32_le_bytes(r.world_position_z);
    lemma_u32_le_bytes(r.world_velocity_x);
    lemma_u32_le_bytes(r.world_velocity_y);
    lemma_u32_le_bytes(r.world_velocity_z);
    lemma_u16_le_bytes(r.world_forward_dir_x);
    lemma_u16_le_bytes(r.world_forward_dir_y);
    lemma_u16_le_bytes(r.world_forward_dir_z);
    lemma_u16_le_bytes(r.world_right_dir_x);
    lemma_u16_le_bytes(r.world_right_dir_y);
    lemma_u16_le_bytes(r.world_right_dir_z);
    lemma_u32_le_bytes(r.g_force_lateral);
    lemma_u32_le_bytes(r.g_force_longitudinal);
    lemma_u32_le_bytes(r.g_force_vertical);
    lemma_u32_le_bytes(r.yaw);
    lemma_u32_le_bytes(r.pitch);
    lemma_u32_le_bytes(r.roll);
}

/// The encodings of the records of `v`, one per record.
pub open spec fn car_motion_data_parts(v: Seq<CarMotionData>) -> Seq<Seq<u8>> {
    v.map_values(|x: CarMotionData| car_motion_data_bytes(x))
}

/// Bytes that equal the encodings of the records of `v`, end to end, hold
/// those records one after another.
#[verifier::rlimit(40)]
pub proof fn lemma_car_motion_data_array_bytes(v: Seq<CarMotionData>, b: Seq<u8>, off: int)
    requires
        v.len() == 22,
        forall|i: int| 0 <= i < v.len() ==> car_motion_data_wf(#[trigger] v[i]),
        0 <= off,
        off + 1320 <= b.len(),
        b.subrange(off, off + 1320) == car_motion_data_parts(v).flatten(),
    ensures
        forall|i: int| 0 <= i < 22 ==> car_motion_data_at(b, off + i * 60, #[trigger] v[i]),
{
    let parts = car_motion_data_parts(v);
    lemma_car_motion_data_parts(v);
    let whole = b.subrange(off, off + 1320);
    assert forall|i: int| 0 <= i < 22 implies car_motion_data_at(b, off + i * 60, #[trigger] v[i]) by {
        assert forall|j: int| 0 <= j < 60 implies #[trigger] b.subrange(off + i * 60, off + i * 60 + 60)[j] == parts[i][j] by {
            lemma_flatten_uniform(parts, 60, i, j);
            assert(0 <= i * 60 + j < 1320) by (nonlinear_arith)
                requires
                    0 <= i < 22,
                    0 <= j < 60,
            ;
            assert(whole[i * 60 + j] == b[off + i * 60 + j]);
        }
        assert(b.subrange(off + i * 60, off + i * 60 + 60) =~= car_motion_data_bytes(v[i]));
        lemma_car_motion_data_bytes(v[i], b, off + i * 60);
    }
}

/// Each record of `v` encodes to as many bytes as the layout.
pub proof fn lemma_car_motion_data_parts(v: Seq<CarMotionData>)
    requires
        forall|i: int| 0 <= i < v.len() ==> car_motion_data_wf(#[trigger] v[i]),
    ensures
        forall|i: int| 0 <= i < v.len() ==> (#[trigger] car_motion_data_parts(v)[i]).len() == 60,
{
    assert forall|i: int| 0 <= i < v.len() implies (#[trigger] car_motion_data_parts(v)[i]).len() == 60 by {
        lemma_car_motion_data_bytes_len(v[i]);
    }
}

/// `r` can be written in the wire layout: its sequences have their fixed
/// lengths and its characters fit in one byte.
pub open spec fn packet_motion_data_wf(r: PacketMotionData) -> bool {
    &&& packet_header_wf(r.header)
    &&& r.car_motion_data@.len() == 22
    &&& forall|i: int| 0 <= i < 22 ==> car_motion_data_wf(#[trigger] r.car_motion_data@[i])
}

/// The 1464 bytes that hold `r`: its fields in declared order, little-endian.
pub open spec fn packet_motion_data_bytes(r: PacketMotionData) -> Seq<u8> {
    packet_header_bytes(r.header)
        + car_motion_data_parts(r.car_motion_data@).flatten()
        + u32x4_bytes(r.suspension_position)
        + u32x4_bytes(r.suspension_velocity)
        + u32x4_bytes(r.suspension_acceleration)
        + u32x4_bytes(r.wheel_speed)
        + u32x4_bytes(r.wheel_slip)
        + u32_le_bytes(r.local_velocity_x)
        + u32_le_bytes(r.local_velocity_y)
        + u32_le_bytes(r.local_velocity_z)
        + u32_le_bytes(r.angular_velocity_x)
        + u32_le_bytes(r.angular_velocity_y)
        + u32_le_bytes(r.angular_velocity_z)
        + u32_le_bytes(r.angular_acceleration_x)
        + u32_le_bytes(r.angular_acceleration_y)
        + u32_le_bytes(r.angular_acceleration_z)
        + u32_le_bytes(r.front_wheels_angle)
}

/// Bytes that equal the encoding of `r` hold `r`.
#[verifier::rlimit(100)]
pub proof fn lemma_packet_motion_data_bytes(r: PacketMotionData, b: Seq<u8>, off: int)
    requires
        packet_motion_data_wf(r),
        0 <= off,
        off + 1464 <= b.len(),
        b.subrange(off, off + 1464) == packet_motion_data_bytes(r),
    ensures
        packet_motion_data_bytes(r).len() == 1464,
        packet_motion_data_at(b, off, r),
{
    lemma_packet_motion_data_bytes_len(r);
    lemma_packet_header_bytes_len(r.header);
    lemma_car_motion_data_parts(r.car_motion_data@);
    lemma_flatten_uniform_len(car_motion_data_parts(r.car_motion_data@), 60);
    lemma_u32x4_bytes_len(r.suspension_position);
    lemma_u32x4_bytes_len(r.suspension_velocity);
    lemma_u32x4_bytes_len(r.suspension_acceleration);
    lemma_u32x4_bytes_len(r.wheel_speed);
    lemma_u32x4_bytes_len(r.wheel_slip);
    lemma_u32_le_bytes(r.local_velocity_x);
    lemma_u32_le_bytes(r.local_velocity_y);
    lemma_u32_le_bytes(r.local_velocity_z);
    lemma_u32_le_bytes(r.angular_velocity_x);
    lemma_u32_le_bytes(r.angular_velocity_y);
    lemma_u32_le_bytes(r.angular_velocity_z);
    lemma_u32_le_bytes(r.angular_acceleration_x);
    lemma_u32_le_bytes(r.angular_acceleration_y);
    lemma_u32_le_bytes(r.angular_acceleration_z);
    lemma_u32_le_bytes(r.front_wheels_angle);
    let q1 = packet_header_bytes(r.header);
    let q2 = q1 + car_motion_data_parts(r.car_motion_data@).flatten();
    let q3 = q2 + u32x4_bytes(r.suspension_position);
    let q4 = q3 + u32x4_bytes(r.suspension_velocity);
    let q5 = q4 + u32x4_bytes(r.suspension_acceleration);
    let q6 = q5 + u32x4_bytes(r.wheel_speed);
    let q7 = q6 + u32x4_bytes(r.wheel_slip);
    let q8 = q7 + u32_le_bytes(r.local_velocity_x);
    let q9 = q8 + u32_le_bytes(r.local_velocity_y);
    let q10 = q9 + u32_le_bytes(r.local_velocity_z);
    let q11 = q10 + u32_le_bytes(r.angular_velocity_x);
    let q12 = q11 + u32_le_bytes(r.angular_velocity_y);
    let q13 = q12 + u32_le_bytes(r.angular_velocity_z);
    let q14 = q13 + u32_le_bytes(r.angular_acceleration_x);
    let q15 = q14 + u32_le_bytes(r.angular_acceleration_y);
    let q16 = q15 + u32_le_bytes(r.angular_acceleration_z);
    let q17 = q16 + u32_le_bytes(r.front_wheels_angle);
    lemma_split_at(b, off, q16, u32_le_bytes(r.front_wheels_angle));
    lemma_split_at(b, off, q15, u32_le_bytes(r.angular_acceleration_z));
    lemma_split_at(b, off, q14, u32_le_bytes(r.angular_acceleration_y));
    lemma_split_at(b, off, q13, u32_le_bytes(r.angular_acceleration_x));
    lemma_split_at(b, off, q12, u32_le_bytes(r.angular_velocity_z));
    lemma_split_at(b, off, q11, u32_le_bytes(r.angular_velocity_y));
    lemma_split_at(b, off, q10, u32_le_bytes(r.angular_velocity_x));
    lemma_split_at(b, off, q9, u32_le_bytes(r.local_velocity_z));
    lemma_split_at(b, off, q8, u32_le_bytes(r.local_velocity_y));
    lemma_split_at(b, off, q7, u32_le_bytes(r.local_velocity_x));
    lemma_split_at(b, off, q6, u32x4_bytes(r.wheel_slip));
    lemma_split_at(b, off, q5, u32x4_bytes(r.wheel_speed));
    lemma_split_at(b, off, q4, u32x4_bytes(r.suspension_acceleration));
    lemma_split_at(b, off, q3, u32x4_bytes(r.suspension_velocity));
    lemma_split_at(b, off, q2, u32x4_bytes(r.suspension_position));
    lemma_split_at(b, off, q1, car_motion_data_parts(r.car_motion_data@).flatten());
    lemma_packet_header_bytes(r.header, b, off);
    lemma_car_motion_data_array_bytes(r.car_motion_data@, b, off + 24);
    lemma_u32x4_at(b, off + 1344, r.suspension_position);
    lemma_u32x4_at(b, off + 1360, r.suspension_velocity);
    lemma_u32x4_at(b, off + 1376, r.suspension_acceleration);
    lemma_u32x4_at(b, off + 1392, r.wheel_speed);
    lemma_u32x4_at(b, off + 1408, r.wheel_slip);
    lemma_u32_at(b, off + 1424, r.local_velocity_x);
    lemma_u32_at(b, off + 1428, r.local_velocity_y);
    lemma_u32_at(b, off + 1432, r.local_velocity_z);
    lemma_u32_at(b, off + 1436, r.angular_velocity_x);
    lemma_u32_at(b, off + 1440, r.angular_velocity_y);
    lemma_u32_at(b, off + 1444, r.angular_velocity_z);
    lemma_u32_at(b, off + 1448, r.angular_acceleration_x);
    lemma_u32_at(b, off + 1452, r.angular_acceleration_y);
    lemma_u32_at(b, off + 1456, r.angular_acceleration_z);
    lemma_u32_at(b, off + 1460, r.front_wheels_angle);
}


/// The encoding of a writable `r` is as long as the layout.
pub proof fn lemma_packet_motion_data_bytes_len(r: PacketMotionData)
    requires
        packet_motion_data_wf(r),
    ensures
        packet_motion_data_bytes(r).len() == 1464,
{
    lemma_packet_header_bytes_len(r.header);
    lemma_car_motion_data_parts(r.car_motion_data@);
    lemma_flatten_uniform_len(car_motion_data_parts(r.car_motion_data@), 60);
    lemma_u32x4_bytes_len(r.suspension_position);
    lemma_u32x4_bytes_len(r.suspension_velocity);
    lemma_u32x4_bytes_len(r.suspension_acceleration);
    lemma_u32x4_bytes_len(r.wheel_speed);
    lemma_u32x4_bytes_len(r.wheel_slip);
    lemma_u32_le_bytes(r.local_velocity_x);
    lemma_u32_le_bytes(r.local_velocity_y);
    lemma_u32_le_bytes(r.local_velocity_z);
    lemma_u32_le_bytes(r.angular_velocity_x);
    lemma_u32_le_bytes(r.angular_velocity_y);
    lemma_u32_le_bytes(r.angular_velocity_z);
    lemma_u32_le_bytes(r.angular_acceleration_x);
    lemma_u32_le_bytes(r.angular_acceleration_y);
    lemma_u32_le_bytes(r.angular_acceleration_z);
    lemma_u32_le_bytes(r.front_wheels_angle);
}

/// `r` can be written in the wire layout: its sequences have their fixed
/// lengths and its characters fit in one byte.
pub open spec fn final_classification_data_wf(r: FinalClassificationData) -> bool {
    true
}

/// The 45 bytes that hold `r`: its fields in declared order, little-endian.
pub open spec fn final_classification_data_bytes(r: FinalClassificationData) -> Seq<u8> {
    seq![r.position]
        + seq![r.num_laps]
        + seq![r.grid_position]
        + seq![r.points]
        + seq![r.num_pit_stops]
        + seq![r.result_status]
        + u32_le_bytes(r.best_lap_time_in_ms)
        + u64_le_bytes(r.total_race_time)
        + seq![r.penalties_time]
        + seq![r.num_penalties]
        + seq![r.num_tyre_stints]
        + u8x8_bytes(r.tyre_stints_actual)
        + u8x8_bytes(r.tyre_stints_visual)
        + u8x8_bytes(r.tyre_stints_end_laps)
}

/// Bytes that equal the encoding of `r` hold `r`.
#[verifier::rlimit(60)]
pub proof fn lemma_final_classification_data_bytes(r: FinalClassificationData, b: Seq<u8>, off: int)
    requires
        final_classification_data_wf(r),
        0 <= off,
        off + 45 <= b.len(),
        b.subrange(off, off + 45) == final_classification_data_bytes(r),
    ensures
        final_classification_data_bytes(r).len() == 45,
        final_classification_data_at(b, off, r),
{
    lemma_final_classification_data_bytes_len(r);
    lemma_u32_le_bytes(r.best_lap_time_in_ms);
    lemma_u64_le_bytes(r.total_race_time);
    lemma_u8x8_bytes_len(r.tyre_stints_actual);
    lemma_u8x8_bytes_len(r.tyre_stints_visual);
    lemma_u8x8_bytes_len(r.tyre_stints_end_laps);
    let q1 = seq![r.position];
    let q2 = q1 + seq![r.num_laps];
    let q3 = q2 + seq![r.grid_position];
    let q4 = q3 + seq![r.points];
    let q5 = q4 + seq![r.num_pit_stops];
    let q6 = q5 + seq![r.result_status];
    let q7 = q6 + u32_le_bytes(r.best_lap_time_in_ms);
    let q8 = q7 + u64_le_bytes(r.total_race_time);
    let q9 = q8 + seq![r.penalties_time];
    let q10 = q9 + seq![r.num_penalties];
    let q11 = q10 + seq![r.num_tyre_stints];
    let q12 = q11 + u8x8_bytes(r.tyre_stints_actual);
    let q13 = q12 + u8x8_bytes(r.tyre_stints_visual);
    let q14 = q13 + u8x8_bytes(r.tyre_stints_end_laps);
    lemma_split_at(b, off, q13, u8x8_bytes(r.tyre_stints_end_laps));
    lemma_split_at(b, off, q12, u8x8_bytes(r.tyre_stints_visual));
    lemma_split_at(b, off, q11, u8x8_bytes(r.tyre_stints_actual));
    lemma_split_at(b, off, q10, seq![r.num_tyre_stints]);
    lemma_split_at(b, off, q9, seq![r.num_penalties]);
    lemma_split_at(b, off, q8, seq![r.penalties_time]);
    lemma_split_at(b, off, q7, u64_le_bytes(r.total_race_time));
    lemma_split_at(b, off, q6, u32_le_bytes(r.best_lap_time_in_ms));
    lemma_split_at(b, off, q5, seq![r.result_status]);
    lemma_split_at(b, off, q4, seq![r.num_pit_stops]);
    lemma_split_at(b, off, q3, seq![r.points]);
    lemma_split_at(b, off, q2, seq![r.grid_position]);
    lemma_split_at(b, off, q1, seq![r.num_laps]);
    lemma_u8_at(b, off, r.position);
    lemma_u8_at(b, off + 1, r.num_laps);
    lemma_u8_at(b, off + 2, r.grid_position);
    lemma_u8_at(b, off + 3, r.points);
    lemma_u8_at(b, off + 4, r.num_pit_stops);
    lemma_u8_at(b, off + 5, r.result_status);
    lemma_u32_at(b, off + 6, r.best_lap_time_in_ms);
    lemma_u64_at(b, off + 10, r.total_race_time);
    lemma_u8_at(b, off + 18, r.penalties_time);
    lemma_u8_at(b, off + 19, r.num_penalties);
    lemma_u8_at(b, off + 20, r.num_tyre_stints);
    lemma_u8x8_at(b, off + 21, r.tyre_stints_actual);
    lemma_u8x8_at(b, off + 29, r.tyre_stints_visual);
    lemma_u8x8_at(b, off + 37, r.tyre_stints_end_laps);
}


/// The encoding of a writable `r` is as long as the layout.
pub proof fn lemma_final_classification_data_bytes_len(r: FinalClassificationData)
    requires
        final_classification_data_wf(r),
    ensures
        final_classification_data_bytes(r).len() == 45,
{
    lemma_u32_le_bytes(r.best_lap_time_in_ms);
    lemma_u64_le_bytes(r.total_race_time);
    lemma_u8x8_bytes_len(r.tyre_stints_actual);
    lemma_u8x8_bytes_len(r.tyre_stints_visual);
    lemma_u8x8_bytes_len(r.tyre_stints_end_laps);
}

/// The encodings of the records of `v`, one per record.
pub open spec fn final_classification_data_parts(v: Seq<FinalClassificationData>) -> Seq<Seq<u8>> {
    v.map_values(|x: FinalClassificationData| final_classification_data_bytes(x))
}

/// Bytes that equal the encodings of the records of `v`, end to end, hold
/// those records one after another.
#[verifier::rlimit(40)]
pub proof fn lemma_final_classification_data_array_bytes(v: Seq<FinalClassificationData>, b: Seq<u8>, off: int)
    requires
        v.len() == 22,
        forall|i: int| 0 <= i < v.len() ==> final_classification_data_wf(#[trigger] v[i]),
        0 <= off,
        off + 990 <= b.len(),
        b.subrange(off, off + 990) == final_classification_data_parts(v).flatten(),
    ensures
        forall|i: int| 0 <= i < 22 ==> final_classification_data_at(b, off + i * 45, #[trigger] v[i]),
{
    let parts = final_classification_data_parts(v);
    lemma_final_classification_data_parts(v);
    let whole = b.subrange(off, off + 990);
    assert forall|i: int| 0 <= i < 22 implies final_classification_data_at(b, off + i * 45, #[trigger] v[i]) by {
        assert forall|j: int| 0 <= j < 45 implies #[trigger] b.subrange(off + i * 45, off + i * 45 + 45)[j] == parts[i][j] by {
            lemma_flatten_uniform(parts, 45, i, j);
            assert(0 <= i * 45 + j < 990) by (nonlinear_arith)
                requires
                    0 <= i < 22,
                    0 <= j < 45,
            ;
            assert(whole[i * 45 + j] == b[off + i * 45 + j]);
        }
        assert(b.subrange(off + i * 45, off + i * 45 + 45) =~= final_classification_data_bytes(v[i]));
        lemma_final_classification_data_bytes(v[i], b, off + i * 45);
    }
}

/// Each record of `v` encodes to as many bytes as the layout.
pub proof fn lemma_final_classification_data_parts(v: Seq<FinalClassificationData>)
    requires
        forall|i: int| 0 <= i < v.len() ==> final_classification_data_wf(#[trigger] v[i]),
    ensures
        forall|i: int| 0 <= i < v.len() ==> (#[trigger] final_classification_data_parts(v)[i]).len() == 45,
{
    assert forall|i: int| 0 <= i < v.len() implies (#[trigger] final_classification_data_parts(v)[i]).len() == 45 by {
        lemma_final_classification_data_bytes_len(v[i]);
    }
}

/// `r` can be written in the wire layout: its sequences have their fixed
/// lengths and its characters fit in one byte.
pub open spec fn packet_final_classification_data_wf(r: PacketFinalClassificationData) -> bool {
    &&& packet_header_wf(r.header)
    &&& r.classification_data@.len() == 22
    &&& forall|i: int| 0 <= i < 22 ==> final_classification_data_wf(#[trigger] r.classification_data@[i])
}

/// The 1015 bytes that hold `r`: its fields in declared order, little-endian.
pub open spec fn packet_final_classification_data_bytes(r: PacketFinalClassificationData) -> Seq<u8> {
    packet_header_bytes(r.header)
        + seq![r.num_cars]
        + final_classification_data_parts(r.classification_data@).flatten()
}

/// Bytes that equal the encoding of `r` hold `r`.
#[verifier::rlimit(60)]
pub proof fn lemma_packet_final_classification_data_bytes(r: PacketFinalClassificationData, b: Seq<u8>, off: int)
    requires
        packet_final_classification_data_wf(r),
        0 <= off,
        off + 1015 <= b.len(),
        b.subrange(off, off + 1015) == packet_final_classification_data_bytes(r),
    ensures
        packet_final_classification_data_bytes(r).len() == 1015,
        packet_final_classification_data_at(b, off, r),
{
    lemma_packet_final_classification_data_bytes_len(r);
    lemma_packet_header_bytes_len(r.header);
    lemma_final_classification_data_parts(r.classification_data@);
    lemma_flatten_uniform_len(final_classification_data_parts(r.classification_data@), 45);
    let q1 = packet_header_bytes(r.header);
    let q2 = q1 + seq![r.num_cars];
    let q3 = q2 + final_classification_data_parts(r.classification_data@).flatten();
    lemma_split_at(b, off, q2, final_classification_data_parts(r.classification_data@).flatten());
    lemma_split_at(b, off, q1, seq![r.num_cars]);
    lemma_packet_header_bytes(r.header, b, off);
    lemma_u8_at(b, off + 24, r.num_cars);
    lemma_final_classification_data_array_bytes(r.classification_data@, b, off + 25);
}


/// The encoding of a writable `r` is as long as the layout.
pub proof fn lemma_packet_final_classification_data_bytes_len(r: PacketFinalClassificationData)
    requires
        packet_final_classification_data_wf(r),
    ensures
        packet_final_classification_data_bytes(r).len() == 1015,
{
    lemma_packet_header_bytes_len(r.header);
    lemma_final_classification_data_parts(r.classification_data@);
    lemma_flatten_uniform_len(final_classification_data_parts(r.classification_data@), 45);
}

/// `r` can be written in the wire layout: its sequences have their fixed
/// lengths and its characters fit in one byte.
pub open spec fn marshal_zone_wf(r: MarshalZone) -> bool {
    true
}

/// The 5 bytes that hold `r`: its fields in declared order, little-endian.
pub open spec fn marshal_zone_bytes(r: MarshalZone) -> Seq<u8> {
    u32_le_bytes(r.zone_start)
        + seq![r.zone_flag as u8]
}

/// Bytes that equal the encoding of `r` hold `r`.
pub proof fn lemma_marshal_zone_bytes(r: MarshalZone, b: Seq<u8>, off: int)
    requires
        marshal_zone_wf(r),
        0 <= off,
        off + 5 <= b.len(),
        b.subrange(off, off + 5) == marshal_zone_bytes(r),
    ensures
        marshal_zone_bytes(r).len() == 5,
        marshal_zone_at(b, off, r),
{
    lemma_marshal_zone_bytes_len(r);
    lemma_u32_le_bytes(r.zone_start);
    let q1 = u32_le_bytes(r.zone_start);
    let q2 = q1 + seq![r.zone_flag as u8];
    lemma_split_at(b, off, q1, seq![r.zone_flag as u8]);
    lemma_u32_at(b, off, r.zone_start);
    lemma_i8_at(b, off + 4, r.zone_flag);
}


/// The encoding of a writable `r` is as long as the layout.
pub proof fn lemma_marshal_zone_bytes_len(r: MarshalZone)
    requires
        marshal_zone_wf(r),
    ensures
        marshal_zone_bytes(r).len() == 5,
{
    lemma_u32_le_bytes(r.zone_start);
}

/// The encodings of the records of `v`, one per record.
pub open spec fn marshal_zone_parts(v: Seq<MarshalZone>) -> Seq<Seq<u8>> {
    v.map_values(|x: MarshalZone| marshal_zone_bytes(x))
}

/// Bytes that equal the encodings of the records of `v`, end to end, hold
/// those records one after another.
#[verifier::rlimit(40)]
pub proof fn lemma_marshal_zone_array_bytes(v: Seq<MarshalZone>, b: Seq<u8>, off: int)
    requires
        v.len() == 21,
        forall|i: int| 0 <= i < v.len() ==> marshal_zone_wf(#[trigger] v[i]),
        0 <= off,
        off + 105 <= b.len(),
        b.subrange(off, off + 105) == marshal_zone_parts(v).flatten(),
    ensures
        forall|i: int| 0 <= i < 21 ==> marshal_zone_at(b, off + i * 5, #[trigger] v[i]),
{
    let parts = marshal_zone_parts(v);
    lemma_marshal_zone_parts(v);
    let whole = b.subrange(off, off + 105);
    assert forall|i: int| 0 <= i < 21 implies marshal_zone_at(b, off + i * 5, #[trigger] v[i]) by {
        assert forall|j: int| 0 <= j < 5 implies #[trigger] b.subrange(off + i * 5, off + i * 5 + 5)[j] == parts[i][j] by {
            lemma_flatten_uniform(parts, 5, i, j);
            assert(0 <= i * 5 + j < 105) by (nonlinear_arith)
                requires
                    0 <= i < 21,
                    0 <= j < 5,
            ;
            assert(whole[i * 5 + j] == b[off + i * 5 + j]);
        }
        assert(b.subrange(off + i * 5, off + i * 5 + 5) =~= marshal_zone_bytes(v[i]));
        lemma_marshal_zone_bytes(v[i], b, off + i * 5);
    }
}

/// Each record of `v` encodes to as many bytes as the layout.
pub proof fn lemma_marshal_zone_parts(v: Seq<MarshalZone>)
    requires
        forall|i: int| 0 <= i < v.len() ==> marshal_zone_wf(#[trigger] v[i]),
    ensures
        forall|i: int| 0 <= i < v.len() ==> (#[trigger] marshal_zone_parts(v)[i]).len() == 5,
{
    assert forall|i: int| 0 <= i < v.len() implies (#[trigger] marshal_zone_parts(v)[i]).len() == 5 by {
        lemma_marshal_zone_bytes_len(v[i]);
    }
}

/// `r` can be written in the wire layout: its sequences have their fixed
/// lengths and its characters fit in one byte.
pub open spec fn weather_forecast_sample_wf(r: WeatherForecastSample) -> bool {
    true
}

/// The 8 bytes that hold `r`: its fields in declared order, little-endian.
pub open spec fn weather_forecast_sample_bytes(r: WeatherForecastSample) -> Seq<u8> {
    seq![r.session_type]
        + seq![r.time_offset]
        + seq![r.weather]
        + seq![r.track_temperature as u8]
        + seq![r.track_temperature_change as u8]
        + seq![r.air_temperature as u8]
        + seq![r.air_temperature_change as u8]
        + seq![r.rain_percentage]
}

/// Bytes that equal the encoding of `r` hold `r`.
pub proof fn lemma_weather_forecast_sample_bytes(r: WeatherForecastSample, b: Seq<u8>, off: int)
    requires
        weather_forecast_sample_wf(r),
        0 <= off,
        off + 8 <= b.len(),
        b.subrange(off, off + 8) == weather_forecast_sample_bytes(r),
    ensures
        weather_forecast_sample_bytes(r).len() == 8,
        weather_forecast_sample_at(b, off, r),
{
    lemma_weather_forecast_sample_bytes_len(r);
    let q1 = seq![r.session_type];
    let q2 = q1 + seq![r.time_offset];
    let q3 = q2 + seq![r.weather];
    let q4 = q3 + seq![r.track_temperature as u8];
    let q5 = q4 + seq![r.track_temperature_change as u8];
    let q6 = q5 + seq![r.air_temperature as u8];
    let q7 = q6 + seq![r.air_temperature_change as u8];
    let q8 = q7 + seq![r.rain_percentage];
    lemma_split_at(b, off, q7, seq![r.rain_percentage]);
    lemma_split_at(b, off, q6, seq![r.air_temperature_change as u8]);
    lemma_split_at(b, off, q5, seq![r.air_temperature as u8]);
    lemma_split_at(b, off, q4, seq![r.track_temperature_change as u8]);
    lemma_split_at(b, off, q3, seq![r.track_temperature as u8]);
    lemma_split_at(b, off, q2, seq![r.weather]);
    lemma_split_at(b, off, q1, seq![r.time_offset]);
    lemma_u8_at(b, off, r.session_type);
    lemma_u8_at(b, off + 1, r.time_offset);
    lemma_u8_at(b, off + 2, r.weather);
    lemma_i8_at(b, off + 3, r.track_temperature);
    lemma_i8_at(b, off + 4, r.track_temperature_change);
    lemma_i8_at(b, off + 5, r.air_temperature);
    lemma_i8_at(b, off + 6, r.air_temperature_change);
    lemma_u8_at(b, off + 7, r.rain_percentage);
}


/// The encoding of a writable `r` is as long as the layout.
pub proof fn lemma_weather_forecast_sample_bytes_len(r: WeatherForecastSample)
    requires
        weather_forecast_sample_wf(r),
    ensures
        weather_forecast_sample_bytes(r).len() == 8,
{
}

/// The encodings of the records of `v`, one per record.
pub open spec fn weather_forecast_sample_parts(v: Seq<WeatherForecastSample>) -> Seq<Seq<u8>> {
    v.map_values(|x: WeatherForecastSample| weather_forecast_sample_bytes(x))
}

/// Bytes that equal the encodings of the records of `v`, end to end, hold
/// those records one after another.
#[verifier::rlimit(40)]
pub proof fn lemma_weather_forecast_sample_array_bytes(v: Seq<WeatherForecastSample>, b: Seq<u8>, off: int)
    requires
        v.len() == 21,
        forall|i: int| 0 <= i < v.len() ==> weather_forecast_sample_wf(#[trigger] v[i]),
        0 <= off,
        off + 168 <= b.len(),
        b.subrange(off, off + 168) == weather_forecast_sample_parts(v).flatten(),
    ensures
        forall|i: int| 0 <= i < 21 ==> weather_forecast_sample_at(b, off + i * 8, #[trigger] v[i]),
{
    let parts = weather_forecast_sample_parts(v);
    lemma_weather_forecast_sample_parts(v);
    let whole = b.subrange(off, off + 168);
    assert forall|i: int| 0 <= i < 21 implies weather_forecast_sample_at(b, off + i * 8, #[trigger] v[i]) by {
        assert forall|j: int| 0 <= j < 8 implies #[trigger] b.subrange(off + i * 8, off + i * 8 + 8)[j] == parts[i][j] by {
            lemma_flatten_uniform(parts, 8, i, j);
            assert(0 <= i * 8 + j < 168) by (nonlinear_arith)
                requires
                    0 <= i < 21,
                    0 <= j < 8,
            ;
            assert(whole[i * 8 + j] == b[off + i * 8 + j]);
        }
        assert(b.subrange(off + i * 8, off + i * 8 + 8) =~= weather_forecast_sample_bytes(v[i]));
        lemma_weather_forecast_sample_bytes(v[i], b, off + i * 8);
    }
}

/// Each record of `v` encodes to as many bytes as the layout.
pub proof fn lemma_weather_forecast_sample_parts(v: Seq<WeatherForecastSample>)
    requires
        forall|i: int| 0 <= i < v.len() ==> weather_forecast_sample_wf(#[trigger] v[i]),
    ensures
        forall|i: int| 0 <= i < v.len() ==> (#[trigger] weather_forecast_sample_parts(v)[i]).len() == 8,
{
    assert forall|i: int| 0 <= i < v.len() implies (#[trigger] weather_forecast_sample_parts(v)[i]).len() == 8 by {
        lemma_weather_forecast_sample_bytes_len(v[i]);
    }
}

/// `r` can be written in the wire layout: its sequences have their fixed
/// lengths and its characters fit in one byte.
pub open spec fn packet_session_data_wf(r: PacketSessionData) -> bool {
    &&& packet_header_wf(r.header)
    &&& r.marshal_zones@.len() == 21
    &&& forall|i: int| 0 <= i < 21 ==> marshal_zone_wf(#[trigger] r.marshal_zones@[i])
    &&& r.weather_forecast_samples@.len() == 21
    &&& forall|i: int| 0 <= i < 21 ==> weather_forecast_sample_wf(#[trigger] r.weather_forecast_samples@[i])
}

/// The 352 bytes that hold `r`: its fields in declared order, little-endian.
pub open spec fn packet_session_data_bytes(r: PacketSessionData) -> Seq<u8> {
    packet_header_bytes(r.header)
        + seq![r.weather]
        + seq![r.track_temperature as u8]
        + seq![r.air_temperature as u8]
        + seq![r.total_laps]
        + u16_le_bytes(r.track_length)
        + seq![r.session_type]
        + seq![r.track_id as u8]
        + seq![r.formula]
        + u16_le_bytes(r.session_time_left)
        + u16_le_bytes(r.session_duration)
        + seq![r.pit_speed_limit]
        + seq![r.game_paused]
        + seq![r.is_spectating]
        + seq![r.spectator_car_index]
        + seq![r.sli_pro_native_support]
        + seq![r.num_marshal_zones]
        + marshal_zone_parts(r.marshal_zones@).flatten()
        + seq![r.safety_car_status]
        + seq![r.network_game]
        + seq![r.num_weather_forecast_samples]
        + weather_forecast_sample_parts(r.weather_forecast_samples@).flatten()
        + seq![r.forecast_accuracy]
        + seq![r.ai_difficulty]
        + u32_le_bytes(r.season_link_identifier)
        + u32_le_bytes(r.weekend_link_identifier)
        + u32_le_bytes(r.session_link_identifier)
        + seq![r.pit_stop_window_ideal_lap]
        + seq![r.pit_stop_window_latest_lap]
        + seq![r.pit_stop_rejoin_position]
        + seq![r.steering_assist]
        + seq![r.braking_assist]
        + seq![r.gearbox_assist]
        + seq![r.pit_assist]
        + seq![r.pit_release_assist]
        + seq![r.ers_assist]
        + seq![r.drs_assist]
        + seq![r.dynamic_racing_line]
        + seq![r.dynamic_racing_line_type]
        + seq![r.game_mode]
        + seq![r.rule_set]
        + u32_le_bytes(r.time_of_day)
        + seq![r.session_length]
}

/// Bytes that equal the encoding of `r` hold `r`.
#[verifier::rlimit(60)]
pub proof fn lemma_packet_session_data_bytes(r: PacketSessionData, b: Seq<u8>, off: int)
    requires
        packet_session_data_wf(r),
        0 <= off,
        off + 352 <= b.len(),
        b.subrange(off, off + 352) == packet_session_data_bytes(r),
    ensures
        packet_session_data_bytes(r).len() == 352,
        packet_session_data_at(b, off, r),
{
    lemma_packet_session_data_bytes_len(r);
    lemma_packet_header_bytes_len(r.header);
    lemma_u16_le_bytes(r.track_length);
    lemma_u16_le_bytes(r.session_time_left);
    lemma_u16_le_bytes(r.session_duration);
    lemma_marshal_zone_parts(r.marshal_zones@);
    lemma_flatten_uniform_len(marshal_zone_parts(r.marshal_zones@), 5);
    lemma_weather_forecast_sample_parts(r.weather_forecast_samples@);
    lemma_flatten_uniform_len(weather_forecast_sample_parts(r.weather_forecast_samples@), 8);
    lemma_u32_le_bytes(r.season_link_identifier);
    lemma_u32_le_bytes(r.weekend_link_identifier);
    lemma_u32_le_bytes(r.session_link_identifier);
    lemma_u32_le_bytes(r.time_of_day);
    let q1 = packet_header_bytes(r.header);
    let q2 = q1 + seq![r.weather];
    let q3 = q2 + seq![r.track_temperature as u8];
    let q4 = q3 + seq![r.air_temperature as u8];
    let q5 = q4 + seq![r.total_laps];
    let q6 = q5 + u16_le_bytes(r.track_length);
    let q7 = q6 + seq![r.session_type];
    let q8 = q7 + seq![r.track_id as u8];
    let q9 = q8 + seq![r.formula];
    let q10 = q9 + u16_le_bytes(r.session_time_left);
    let q11 = q10 + u16_le_bytes(r.session_duration);
    let q12 = q11 + seq![r.pit_speed_limit];
    let q13 = q12 + seq![r.game_paused];
    let q14 = q13 + seq![r.is_spectating];
    let q15 = q14 + seq![r.spectator_car_index];
    let q16 = q15 + seq![r.sli_pro_native_support];
    let q17 = q16 + seq![r.num_marshal_zones];
    let q18 = q17 + marshal_zone_parts(r.marshal_zones@).flatten();
    let q19 = q18 + seq![r.safety_car_status];
    let q20 = q19 + seq![r.network_game];
    let q21 = q20 + seq![r.num_weather_forecast_samples];
    let q22 = q21 + weather_forecast_sample_parts(r.weather_forecast_samples@).flatten();
    let q23 = q22 + seq![r.forecast_accuracy];
    let q24 = q23 + seq![r.ai_difficulty];
    let q25 = q24 + u32_le_bytes(r.season_link_identifier);
    let q26 = q25 + u32_le_bytes(r.weekend_link_identifier);
    let q27 = q26 + u32_le_bytes(r.session_link_identifier);
    let q28 = q27 + seq![r.pit_stop_window_ideal_lap];
    let q29 = q28 + seq![r.pit_stop_window_latest_lap];
    let q30 = q29 + seq![r.pit_stop_rejoin_position];
    let q31 = q30 + seq![r.steering_assist];
    let q32 = q31 + seq![r.braking_assist];
    let q33 = q32 + seq![r.gearbox_assist];
    let q34 = q33 + seq![r.pit_assist];
    let q35 = q34 + seq![r.pit_release_assist];
    let q36 = q35 + seq![r.ers_assist];
    let q37 = q36 + seq![r.drs_assist];
    let q38 = q37 + seq![r.dynamic_racing_line];
    let q39 = q38 + seq![r.dynamic_racing_line_type];
    let q40 = q39 + seq![r.game_mode];
    let q41 = q40 + seq![r.rule_set];
    let q42 = q41 + u32_le_bytes(r.time_of_day);
    let q43 = q42 + seq![r.session_length];
    lemma_split_at(b, off, q42, seq![r.session_length]);
    lemma_split_at(b, off, q41, u32_le_bytes(r.time_of_day));
    lemma_split_at(b, off, q40, seq![r.rule_set]);
    lemma_split_at(b, off, q39, seq![r.game_mode]);
    lemma_split_at(b, off, q38, seq![r.dynamic_racing_line_type]);
    lemma_split_at(b, off, q37, seq![r.dynamic_racing_line]);
    lemma_split_at(b, off, q36, seq![r.drs_assist]);
    lemma_split_at(b, off, q35, seq![r.ers_assist]);
    lemma_split_at(b, off, q34, seq![r.pit_release_assist]);
    lemma_split_at(b, off, q33, seq![r.pit_assist]);
    lemma_split_at(b, off, q32, seq![r.gearbox_assist]);
    lemma_split_at(b, off, q31, seq![r.braking_assist]);
    lemma_split_at(b, off, q30, seq![r.steering_assist]);
    lemma_split_at(b, off, q29, seq![r.pit_stop_rejoin_position]);
    lemma_split_at(b, off, q28, seq![r.pit_stop_window_latest_lap]);
    lemma_split_at(b, off, q27, seq![r.pit_stop_window_ideal_lap]);
    lemma_split_at(b, off, q26, u32_le_bytes(r.session_link_identifier));
    lemma_split_at(b, off, q25, u32_le_bytes(r.weekend_link_identifier));
    lemma_split_at(b, off, q24, u32_le_bytes(r.season_link_identifier));
    lemma_split_at(b, off, q23, seq![r.ai_difficulty]);
    lemma_split_at(b, off, q22, seq![r.forecast_accuracy]);
    lemma_split_at(b, off, q21, weather_forecast_sample_parts(r.weather_forecast_samples@).flatten());
    lemma_split_at(b, off, q20, seq![r.num_weather_forecast_samples]);
    lemma_split_at(b, off, q19, seq![r.network_game]);
    lemma_split_at(b, off, q18, seq![r.safety_car_status]);
    lemma_split_at(b, off, q17, marshal_zone_parts(r.marshal_zones@).flatten());
    lemma_split_at(b, off, q16, seq![r.num_marshal_zones]);
    lemma_split_at(b, off, q15, seq![r.sli_pro_native_support]);
    lemma_split_at(b, off, q14, seq![r.spectator_car_index]);
    lemma_split_at(b, off, q13, seq![r.is_spectating]);
    lemma_split_at(b, off, q12, seq![r.game_paused]);
    lemma_split_at(b, off, q11, seq![r.pit_speed_limit]);
    lemma_split_at(b, off, q10, u16_le_bytes(r.session_duration));
    lemma_split_at(b, off, q9, u16_le_bytes(r.session_time_left));
    lemma_split_at(b, off, q8, seq![r.formula]);
    lemma_split_at(b, off, q7, seq![r.track_id as u8]);
    lemma_split_at(b, off, q6, seq![r.session_type]);
    lemma_split_at(b, off, q5, u16_le_bytes(r.track_length));
    lemma_split_at(b, off, q4, seq![r.total_laps]);
    lemma_split_at(b, off, q3, seq![r.air_temperature as u8]);
    lemma_split_at(b, off, q2, seq![r.track_temperature as u8]);
    lemma_split_at(b, off, q1, seq![r.weather]);
    lemma_packet_header_bytes(r.header, b, off);
    lemma_u8_at(b, off + 24, r.weather);
    lemma_i8_at(b, off + 25, r.track_temperature);
    lemma_i8_at(b, off + 26, r.air_temperature);
    lemma_u8_at(b, off + 27, r.total_laps);
    lemma_u16_at(b, off + 28, r.track_length);
    lemma_u8_at(b, off + 30, r.session_type);
    lemma_i8_at(b, off + 31, r.track_id);
    lemma_u8_at(b, off + 32, r.formula);
    lemma_u16_at(b, off + 33, r.session_time_left);
    lemma_u16_at(b, off + 35, r.session_duration);
    lemma_u8_at(b, off + 37, r.pit_speed_limit);
    lemma_u8_at(b, off + 38, r.game_paused);
    lemma_u8_at(b, off + 39, r.is_spectating);
    lemma_u8_at(b, off + 40, r.spectator_car_index);
    lemma_u8_at(b, off + 41, r.sli_pro_native_support);
    lemma_u8_at(b, off + 42, r.num_marshal_zones);
    lemma_marshal_zone_array_bytes(r.marshal_zones@, b, off + 43);
    lemma_u8_at(b, off + 148, r.safety_car_status);
    lemma_u8_at(b, off + 149, r.network_game);
    lemma_u8_at(b, off + 150, r.num_weather_forecast_samples);
    lemma_weather_forecast_sample_array_bytes(r.weather_forecast_samples@, b, off + 151);
    lemma_u8_at(b, off + 319, r.forecast_accuracy);
    lemma_u8_at(b, off + 320, r.ai_difficulty);
    lemma_u32_at(b, off + 321, r.season_link_identifier);
    lemma_u32_at(b, off + 325, r.weekend_link_identifier);
    lemma_u32_at(b, off + 329, r.session_link_identifier);
    lemma_u8_at(b, off + 333, r.pit_stop_window_ideal_lap);
    lemma_u8_at(b, off + 334, r.pit_stop_window_latest_lap);
    lemma_u8_at(b, off + 335, r.pit_stop_rejoin_position);
    lemma_u8_at(b, off + 336, r.steering_assist);
    lemma_u8_at(b, off + 337, r.braking_assist);
    lemma_u8_at(b, off + 338, r.gearbox_assist);
    lemma_u8_at(b, off + 339, r.pit_assist);
    lemma_u8_at(b, off + 340, r.pit_release_assist);
    lemma_u8_at(b, off + 341, r.ers_assist);
    lemma_u8_at(b, off + 342, r.drs_assist);
    lemma_u8_at(b, off + 343, r.dynamic_racing_line);
    lemma_u8_at(b, off + 344, r.dynamic_racing_line_type);
    lemma_u8_at(b, off + 345, r.game_mode);
    lemma_u8_at(b, off + 346, r.rule_set);
    lemma_u32_at(b, off + 347, r.time_of_day);
    lemma_u8_at(b, off + 351, r.session_length);
}


/// The encoding of a writable `r` is as long as the layout.
pub proof fn lemma_packet_session_data_bytes_len(r: PacketSessionData)
    requires
        packet_session_data_wf(r),
    ensures
        packet_session_data_bytes(r).len() == 352,
{
    lemma_packet_header_bytes_len(r.header);
    lemma_u16_le_bytes(r.track_length);
    lemma_u16_le_bytes(r.session_time_left);
    lemma_u16_le_bytes(r.session_duration);
    lemma_marshal_zone_parts(r.marshal_zones@);
    lemma_flatten_uniform_len(marshal_zone_parts(r.marshal_zones@), 5);
    lemma_weather_forecast_sample_parts(r.weather_forecast_samples@);
    lemma_flatten_uniform_len(weather_forecast_sample_parts(r.weather_forecast_samples@), 8);
    lemma_u32_le_bytes(r.season_link_identifier);
    lemma_u32_le_bytes(r.weekend_link_identifier);
    lemma_u32_le_bytes(r.session_link_identifier);
    lemma_u32_le_bytes(r.time_of_day);
}

/// `r` can be written in the wire layout: its sequences have their fixed
/// lengths and its characters fit in one byte.
pub open spec fn lap_data_wf(r: LapData) -> bool {
    true
}

/// The 43 bytes that hold `r`: its fields in declared order, little-endian.
pub open spec fn lap_data_bytes(r: LapData) -> Seq<u8> {
    u32_le_bytes(r.last_lap_time_in_ms)
        + u32_le_bytes(r.current_lap_time_in_ms)
        + u16_le_bytes(r.sector1_time_in_ms)
        + u16_le_bytes(r.sector2_time_in_ms)
        + u32_le_bytes(r.lap_distance)
        + u32_le_bytes(r.total_distance)
        + u32_le_bytes(r.safety_car_delta)
        + seq![r.car_position]
        + seq![r.current_lap_num]
        + seq![r.pit_status]
        + seq![r.num_pit_stops]
        + seq![r.sector]
        + seq![r.current_lap_invalid]
        + seq![r.penalties]
        + seq![r.warnings]
        + seq![r.num_unserved_drive_through_pens]
        + seq![r.num_unserved_stop_go_pens]
        + seq![r.grid_position]
        + seq![r.driver_status]
        + seq![r.result_status]
        + seq![r.pit_lane_timer_active]
        + u16_le_bytes(r.pit_lane_time_in_lane_in_ms)
        + u16_le_bytes(r.pit_stop_timer_in_ms)
        + seq![r.pit_stop_should_serve_pen]
}

/// Bytes that equal the encoding of `r` hold `r`.
#[verifier::rlimit(60)]
pub proof fn lemma_lap_data_bytes(r: LapData, b: Seq<u8>, off: int)
    requires
        lap_data_wf(r),
        0 <= off,
        off + 43 <= b.len(),
        b.subrange(off, off + 43) == lap_data_bytes(r),
    ensures
        lap_data_bytes(r).len() == 43,
        lap_data_at(b, off, r),
{
    lemma_lap_data_bytes_len(r);
    lemma_u32_le_bytes(r.last_lap_time_in_ms);
    lemma_u32_le_bytes(r.current_lap_time_in_ms);
    lemma_u16_le_bytes(r.sector1_time_in_ms);
    lemma_u16_le_bytes(r.sector2_time_in_ms);
    lemma_u32_le_bytes(r.lap_distance);
    lemma_u32_le_bytes(r.total_distance);
    lemma_u32_le_bytes(r.safety_car_delta);
    lemma_u16_le_bytes(r.pit_lane_time_in_lane_in_ms);
    lemma_u16_le_bytes(r.pit_stop_timer_in_ms);
    let q1 = u32_le_bytes(r.last_lap_time_in_ms);
    let q2 = q1 + u32_le_bytes(r.current_lap_time_in_ms);
    let q3 = q2 + u16_le_bytes(r.sector1_time_in_ms);
    let q4 = q3 + u16_le_bytes(r.sector2_time_in_ms);
    let q5 = q4 + u32_le_bytes(r.lap_distance);
    let q6 = q5 + u32_le_bytes(r.total_distance);
    let q7 = q6 + u32_le_bytes(r.safety_car_delta);
    let q8 = q7 + seq![r.car_position];
    let q9 = q8 + seq![r.current_lap_num];
    let q10 = q9 + seq![r.pit_status];
    let q11 = q10 + seq![r.num_pit_stops];
    let q12 = q11 + seq![r.sector];
    let q13 = q12 + seq![r.current_lap_invalid];
    let q14 = q13 + seq![r.penalties];
    let q15 = q14 + seq![r.warnings];
    let q16 = q15 + seq![r.num_unserved_drive_through_pens];
    let q17 = q16 + seq![r.num_unserved_stop_go_pens];
    let q18 = q17 + seq![r.grid_position];
    let q19 = q18 + seq![r.driver_status];
    let q20 = q19 + seq![r.result_status];
    let q21 = q20 + seq![r.pit_lane_timer_active];
    let q22 = q21 + u16_le_bytes(r.pit_lane_time_in_lane_in_ms);
    let q23 = q22 + u16_le_bytes(r.pit_stop_timer_in_ms);
    let q24 = q23 + seq![r.pit_stop_should_serve_pen];
    lemma_split_at(b, off, q23, seq![r.pit_stop_should_serve_pen]);
    lemma_split_at(b, off, q22, u16_le_bytes(r.pit_stop_timer_in_ms));
    lemma_split_at(b, off, q21, u16_le_bytes(r.pit_lane_time_in_lane_in_ms));
    lemma_split_at(b, off, q20, seq![r.pit_lane_timer_active]);
    lemma_split_at(b, off, q19, seq![r.result_status]);
    lemma_split_at(b, off, q18, seq![r.driver_status]);
    lemma_split_at(b, off, q17, seq![r.grid_position]);
    lemma_split_at(b, off, q16, seq![r.num_unserved_stop_go_pens]);
    lemma_split_at(b, off, q15, seq![r.num_unserved_drive_through_pens]);
    lemma_split_at(b, off, q14, seq![r.warnings]);
    lemma_split_at(b, off, q13, seq![r.penalties]);
    lemma_split_at(b, off, q12, seq![r.current_lap_invalid]);
    lemma_split_at(b, off, q11, seq![r.sector]);
    lemma_split_at(b, off, q10, seq![r.num_pit_stops]);
    lemma_split_at(b, off, q9, seq![r.pit_status]);
    lemma_split_at(b, off, q8, seq![r.current_lap_num]);
    lemma_split_at(b, off, q7, seq![r.car_position]);
    lemma_split_at(b, off, q6, u32_le_bytes(r.safety_car_delta));
    lemma_split_at(b, off, q5, u32_le_bytes(r.total_distance));
    lemma_split_at(b, off, q4, u32_le_bytes(r.lap_distance));
    lemma_split_at(b, off, q3, u16_le_bytes(r.sector2_time_in_ms));
    lemma_split_at(b, off, q2, u16_le_bytes(r.sector1_time_in_ms));
    lemma_split_at(b, off, q1, u32_le_bytes(r.current_lap_time_in_ms));
    lemma_u32_at(b, off, r.last_lap_time_in_ms);
    lemma_u32_at(b, off + 4, r.current_lap_time_in_ms);
    lemma_u16_at(b, off + 8, r.sector1_time_in_ms);
    lemma_u16_at(b, off + 10, r.sector2_time_in_ms);
    lemma_u32_at(b, off + 12, r.lap_distance);
    lemma_u32_at(b, off + 16, r.total_distance);
    lemma_u32_at(b, off + 20, r.safety_car_delta);
    lemma_u8_at(b, off + 24, r.car_position);
    lemma_u8_at(b, off + 25, r.current_lap_num);
    lemma_u8_at(b, off + 26, r.pit_status);
    lemma_u8_at(b, off + 27, r.num_pit_stops);
    lemma_u8_at(b, off + 28, r.sector);
    lemma_u8_at(b, off + 29, r.current_lap_invalid);
    lemma_u8_at(b, off + 30, r.penalties);
    lemma_u8_at(b, off + 31, r.warnings);
    lemma_u8_at(b, off + 32, r.num_unserved_drive_through_pens);
    lemma_u8_at(b, off + 33, r.num_unserved_stop_go_pens);
    lemma_u8_at(b, off + 34, r.grid_position);
    lemma_u8_at(b, off + 35, r.driver_status);
    lemma_u8_at(b, off + 36, r.result_status);
    lemma_u8_at(b, off + 37, r.pit_lane_timer_active);
    lemma_u16_at(b, off + 38, r.pit_lane_time_in_lane_in_ms);
    lemma_u16_at(b, off + 40, r.pit_stop_timer_in_ms);
    lemma_u8_at(b, off + 42, r.pit_stop_should_serve_pen);
}


/// The encoding of a writable `r` is as long as the layout.
pub proof fn lemma_lap_data_bytes_len(r: LapData)
    requires
        lap_data_wf(r),
    ensures
        lap_data_bytes(r).len() == 43,
{
    lemma_u32_le_bytes(r.last_lap_time_in_ms);
    lemma_u32_le_bytes(r.current_lap_time_in_ms);
    lemma_u16_le_bytes(r.sector1_time_in_ms);
    lemma_u16_le_bytes(r.sector2_time_in_ms);
    lemma_u32_le_bytes(r.lap_distance);
    lemma_u32_le_bytes(r.total_distance);
    lemma_u32_le_bytes(r.safety_car_delta);
    lemma_u16_le_bytes(r.pit_lane_time_in_lane_in_ms);
    lemma_u16_le_bytes(r.pit_stop_timer_in_ms);
}

/// The encodings of the records of `v`, one per record.
pub open spec fn lap_data_parts(v: Seq<LapData>) -> Seq<Seq<u8>> {
    v.map_values(|x: LapData| lap_data_bytes(x))
}

/// Bytes that equal the encodings of the records of `v`, end to end, hold
/// those records one after another.
#[verifier::rlimit(40)]
pub proof fn lemma_lap_data_array_bytes(v: Seq<LapData>, b: Seq<u8>, off: int)
    requires
        v.len() == 22,
        forall|i: int| 0 <= i < v.len() ==> lap_data_wf(#[trigger] v[i]),
        0 <= off,
        off + 946 <= b.len(),
        b.subrange(off, off + 946) == lap_data_parts(v).flatten(),
    ensures
        forall|i: int| 0 <= i < 22 ==> lap_data_at(b, off + i * 43, #[trigger] v[i]),
{
    let parts = lap_data_parts(v);
    lemma_lap_data_parts(v);
    let whole = b.subrange(off, off + 946);
    assert forall|i: int| 0 <= i < 22 implies lap_data_at(b, off + i * 43, #[trigger] v[i]) by {
        assert forall|j: int| 0 <= j < 43 implies #[trigger] b.subrange(off + i * 43, off + i * 43 + 43)[j] == parts[i][j] by {
            lemma_flatten_uniform(parts, 43, i, j);
            assert(0 <= i * 43 + j < 946) by (nonlinear_arith)
                requires
                    0 <= i < 22,
                    0 <= j < 43,
            ;
            assert(whole[i * 43 + j] == b[off + i * 43 + j]);
        }
        assert(b.subrange(off + i * 43, off + i * 43 + 43) =~= lap_data_bytes(v[i]));
        lemma_lap_data_bytes(v[i], b, off + i * 43);
    }
}

/// Each record of `v` encodes to as many bytes as the layout.
pub proof fn lemma_lap_data_parts(v: Seq<LapData>)
    requires
        forall|i: int| 0 <= i < v.len() ==> lap_data_wf(#[trigger] v[i]),
    ensures
        forall|i: int| 0 <= i < v.len() ==> (#[trigger] lap_data_parts(v)[i]).len() == 43,
{
    assert forall|i: int| 0 <= i < v.len() implies (#[trigger] lap_data_parts(v)[i]).len() == 43 by {
        lemma_lap_data_bytes_len(v[i]);
    }
}

/// `r` can be written in the wire layout: its sequences have their fixed
/// lengths and its characters fit in one byte.
pub open spec fn packet_lap_data_wf(r: PacketLapData) -> bool {
    &&& packet_header_wf(r.header)
    &&& r.lap_data@.len() == 22
    &&& forall|i: int| 0 <= i < 22 ==> lap_data_wf(#[trigger] r.lap_data@[i])
}

/// The 972 bytes that hold `r`: its fields in declared order, little-endian.
pub open spec fn packet_lap_data_bytes(r: PacketLapData) -> Seq<u8> {
    packet_header_bytes(r.header)
        + lap_data_parts(r.lap_data@).flatten()
        + seq![r.time_trial_pbcar_idx]
        + seq![r.time_trial_rival_car_idx]
}

/// Bytes that equal the encoding of `r` hold `r`.
#[verifier::rlimit(60)]
pub proof fn lemma_packet_lap_data_bytes(r: PacketLapData, b: Seq<u8>, off: int)
    requires
        packet_lap_data_wf(r),
        0 <= off,
        off + 972 <= b.len(),
        b.subrange(off, off + 972) == packet_lap_data_bytes(r),
    ensures
        packet_lap_data_bytes(r).len() == 972,
        packet_lap_data_at(b, off, r),
{
    lemma_packet_lap_data_bytes_len(r);
    lemma_packet_header_bytes_len(r.header);
    lemma_lap_data_parts(r.lap_data@);
    lemma_flatten_uniform_len(lap_data_parts(r.lap_data@), 43);
    let q1 = packet_header_bytes(r.header);
    let q2 = q1 + lap_data_parts(r.lap_data@).flatten();
    let q3 = q2 + seq![r.time_trial_pbcar_idx];
    let q4 = q3 + seq![r.time_trial_rival_car_idx];
    lemma_split_at(b, off, q3, seq![r.time_trial_rival_car_idx]);
    lemma_split_at(b, off, q2, seq![r.time_trial_pbcar_idx]);
    lemma_split_at(b, off, q1, lap_data_parts(r.lap_data@).flatten());
    lemma_packet_header_bytes(r.header, b, off);
    lemma_lap_data_array_bytes(r.lap_data@, b, off + 24);
    lemma_u8_at(b, off + 970, r.time_trial_pbcar_idx);
    lemma_u8_at(b, off + 971, r.time_trial_rival_car_idx);
}


/// The encoding of a writable `r` is as long as the layout.
pub proof fn lemma_packet_lap_data_bytes_len(r: PacketLapData)
    requires
        packet_lap_data_wf(r),
    ensures
        packet_lap_data_bytes(r).len() == 972,
{
    lemma_packet_header_bytes_len(r.header);
    lemma_lap_data_parts(r.lap_data@);
    lemma_flatten_uniform_len(lap_data_parts(r.lap_data@), 43);
}

/// `r` can be written in the wire layout: its sequences have their fixed
/// lengths and its characters fit in one byte.
pub open spec fn participant_data_wf(r: ParticipantData) -> bool {
    &&& r.name@.len() == 48
    &&& forall|i: int| 0 <= i < 48 ==> (#[trigger] r.name@[i] as u32) < 0x100
}

/// The 56 bytes that hold `r`: its fields in declared order, little-endian.
pub open spec fn participant_data_bytes(r: ParticipantData) -> Seq<u8> {
    seq![r.ai_controlled]
        + seq![r.driver_id]
        + seq![r.network_id]
        + seq![r.team_id]
        + seq![r.my_team]
        + seq![r.race_number]
        + seq![r.nationality]
        + r.name@.map_values(|c: char| c as u8)
        + seq![r.your_telemetry]
}

/// Bytes that equal the encoding of `r` hold `r`.
pub proof fn lemma_participant_data_bytes(r: ParticipantData, b: Seq<u8>, off: int)
    requires
        participant_data_wf(r),
        0 <= off,
        off + 56 <= b.len(),
        b.subrange(off, off + 56) == participant_data_bytes(r),
    ensures
        participant_data_bytes(r).len() == 56,
        participant_data_at(b, off, r),
{
    lemma_participant_data_bytes_len(r);
    let q1 = seq![r.ai_controlled];
    let q2 = q1 + seq![r.driver_id];
    let q3 = q2 + seq![r.network_id];
    let q4 = q3 + seq![r.team_id];
    let q5 = q4 + seq![r.my_team];
    let q6 = q5 + seq![r.race_number];
    let q7 = q6 + seq![r.nationality];
    let q8 = q7 + r.name@.map_values(|c: char| c as u8);
    let q9 = q8 + seq![r.your_telemetry];
    lemma_split_at(b, off, q8, seq![r.your_telemetry]);
    lemma_split_at(b, off, q7, r.name@.map_values(|c: char| c as u8));
    lemma_split_at(b, off, q6, seq![r.nationality]);
    lemma_split_at(b, off, q5, seq![r.race_number]);
    lemma_split_at(b, off, q4, seq![r.my_team]);
    lemma_split_at(b, off, q3, seq![r.team_id]);
    lemma_split_at(b, off, q2, seq![r.network_id]);
    lemma_split_at(b, off, q1, seq![r.driver_id]);
    lemma_u8_at(b, off, r.ai_controlled);
    lemma_u8_at(b, off + 1, r.driver_id);
    lemma_u8_at(b, off + 2, r.network_id);
    lemma_u8_at(b, off + 3, r.team_id);
    lemma_u8_at(b, off + 4, r.my_team);
    lemma_u8_at(b, off + 5, r.race_number);
    lemma_u8_at(b, off + 6, r.nationality);
    assert forall|i: int| 0 <= i < 48 implies #[trigger] r.name@[i] == b[off + 7 + i] as char by {
        assert(b.subrange(off + 7, off + 55)[i] == b[off + 7 + i]);
        lemma_char_byte(r.name@[i]);
    }
    lemma_u8_at(b, off + 55, r.your_telemetry);
}


/// The encoding of a writable `r` is as long as the layout.
pub proof fn lemma_participant_data_bytes_len(r: ParticipantData)
    requires
        participant_data_wf(r),
    ensures
        participant_data_bytes(r).len() == 56,
{
}

/// The encodings of the records of `v`, one per record.
pub open spec fn participant_data_parts(v: Seq<ParticipantData>) -> Seq<Seq<u8>> {
    v.map_values(|x: ParticipantData| participant_data_bytes(x))
}

/// Bytes that equal the encodings of the records of `v`, end to end, hold
/// those records one after another.
#[verifier::rlimit(40)]
pub proof fn lemma_participant_data_array_bytes(v: Seq<ParticipantData>, b: Seq<u8>, off: int)
    requires
        v.len() == 22,
        forall|i: int| 0 <= i < v.len() ==> participant_data_wf(#[trigger] v[i]),
        0 <= off,
        off + 1232 <= b.len(),
        b.subrange(off, off + 1232) == participant_data_parts(v).flatten(),
    ensures
        forall|i: int| 0 <= i < 22 ==> participant_data_at(b, off + i * 56, #[trigger] v[i]),
{
    let parts = participant_data_parts(v);
    lemma_participant_data_parts(v);
    let whole = b.subrange(off, off + 1232);
    assert forall|i: int| 0 <= i < 22 implies participant_data_at(b, off + i * 56, #[trigger] v[i]) by {
        assert forall|j: int| 0 <= j < 56 implies #[trigger] b.subrange(off + i * 56, off + i * 56 + 56)[j] == parts[i][j] by {
            lemma_flatten_uniform(parts, 56, i, j);
            assert(0 <= i * 56 + j < 1232) by (nonlinear_arith)
                requires
                    0 <= i < 22,
                    0 <= j < 56,
            ;
            assert(whole[i * 56 + j] == b[off + i * 56 + j]);
        }
        assert(b.subrange(off + i * 56, off + i * 56 + 56) =~= participant_data_bytes(v[i]));
        lemma_participant_data_bytes(v[i], b, off + i * 56);
    }
}

/// Each record of `v` encodes to as many bytes as the layout.
pub proof fn lemma_participant_data_parts(v: Seq<ParticipantData>)
    requires
        forall|i: int| 0 <= i < v.len() ==> participant_data_wf(#[trigger] v[i]),
    ensures
        forall|i: int| 0 <= i < v.len() ==> (#[trigger] participant_data_parts(v)[i]).len() == 56,
{
    assert forall|i: int| 0 <= i < v.len() implies (#[trigger] participant_data_parts(v)[i]).len() == 56 by {
        lemma_participant_data_bytes_len(v[i]);
    }
}

/// `r` can be written in the wire layout: its sequences have their fixed
/// lengths and its characters fit in one byte.
pub open spec fn packet_participants_data_wf(r: PacketParticipantsData) -> bool {
    &&& packet_header_wf(r.header)
    &&& r.participants@.len() == 22
    &&& forall|i: int| 0 <= i < 22 ==> participant_data_wf(#[trigger] r.participants@[i])
}

/// The 1257 bytes that hold `r`: its fields in declared order, little-endian.
pub open spec fn packet_participants_data_bytes(r: PacketParticipantsData) -> Seq<u8> {
    packet_header_bytes(r.header)
        + seq![r.num_active_cars]
        + participant_data_parts(r.participants@).flatten()
}

/// Bytes that equal the encoding of `r` hold `r`.
#[verifier::rlimit(60)]
pub proof fn lemma_packet_participants_data_bytes(r: PacketParticipantsData, b: Seq<u8>, off: int)
    requires
        packet_participants_data_wf(r),
        0 <= off,
        off + 1257 <= b.len(),
        b.subrange(off, off + 1257) == packet_participants_data_bytes(r),
    ensures
        packet_participants_data_bytes(r).len() == 1257,
        packet_participants_data_at(b, off, r),
{
    lemma_packet_participants_data_bytes_len(r);
    lemma_packet_header_bytes_len(r.header);
    lemma_participant_data_parts(r.participants@);
    lemma_flatten_uniform_len(participant_data_parts(r.participants@), 56);
    let q1 = packet_header_bytes(r.header);
    let q2 = q1 + seq![r.num_active_cars];
    let q3 = q2 + participant_data_parts(r.participants@).flatten();
    lemma_split_at(b, off, q2, participant_data_parts(r.participants@).flatten());
    lemma_split_at(b, off, q1, seq![r.num_active_cars]);
    lemma_packet_header_bytes(r.header, b, off);
    lemma_u8_at(b, off + 24, r.num_active_cars);
    lemma_participant_data_array_bytes(r.participants@, b, off + 25);
}


/// The encoding of a writable `r` is as long as the layout.
pub proof fn lemma_packet_participants_data_bytes_len(r: PacketParticipantsData)
    requires
        packet_participants_data_wf(r),
    ensures
        packet_participants_data_bytes(r).len() == 1257,
{
    lemma_packet_header_bytes_len(r.header);
    lemma_participant_data_parts(r.participants@);
    lemma_flatten_uniform_len(participant_data_parts(r.participants@), 56);
}

/// `r` can be written in the wire layout: its sequences have their fixed
/// lengths and its characters fit in one byte.
pub open spec fn car_setup_data_wf(r: CarSetupData) -> bool {
    true
}

/// The 49 bytes that hold `r`: its fields in declared order, little-endian.
pub open spec fn car_setup_data_bytes(r: CarSetupData) -> Seq<u8> {
    seq![r.front_wing]
        + seq![r.rear_wing]
        + seq![r.on_throttle]
        + seq![r.off_throttle]
        + u32_le_bytes(r.front_camber)
        + u32_le_bytes(r.rear_camber)
        + u32_le_bytes(r.front_toe)
        + u32_le_bytes(r.rear_toe)
        + seq![r.front_suspension]
        + seq![r.rear_suspension]
        + seq![r.front_anti_roll_bar]
        + seq![r.rear_anti_roll_bar]
        + seq![r.front_suspension_height]
        + seq![r.rear_suspension_height]
        + seq![r.brake_pressure]
        + seq![r.brake_bias]
        + u32_le_bytes(r.rear_left_tyre_pressure)
        + u32_le_bytes(r.rear_right_tyre_pressure)
        + u32_le_bytes(r.front_left_tyre_pressure)
        + u32_le_bytes(r.front_right_tyre_pressure)
        + seq![r.ballast]
        + u32_le_bytes(r.fuel_load)
}

/// Bytes that equal the encoding of `r` hold `r`.
#[verifier::rlimit(60)]
pub proof fn lemma_car_setup_data_bytes(r: CarSetupData, b: Seq<u8>, off: int)
    requires
        car_setup_data_wf(r),
        0 <= off,
        off + 49 <= b.len(),
        b.subrange(off, off + 49) == car_setup_data_bytes(r),
    ensures
        car_setup_data_bytes(r).len() == 49,
        car_setup_data_at(b, off, r),
{
    lemma_car_setup_data_bytes_len(r);
    lemma_u32_le_bytes(r.front_camber);
    lemma_u32_le_bytes(r.rear_camber);
    lemma_u32_le_bytes(r.front_toe);
    lemma_u32_le_bytes(r.rear_toe);
    lemma_u32_le_bytes(r.rear_left_tyre_pressure);
    lemma_u32_le_bytes(r.rear_right_tyre_pressure);
    lemma_u32_le_bytes(r.front_left_tyre_pressure);
    lemma_u32_le_bytes(r.front_right_tyre_pressure);
    lemma_u32_le_bytes(r.fuel_load);
    let q1 = seq![r.front_wing];
    let q2 = q1 + seq![r.rear_wing];
    let q3 = q2 + seq![r.on_throttle];
    let q4 = q3 + seq![r.off_throttle];
    let q5 = q4 + u32_le_bytes(r.front_camber);
    let q6 = q5 + u32_le_bytes(r.rear_camber);
    let q7 = q6 + u32_le_bytes(r.front_toe);
    let q8 = q7 + u32_le_bytes(r.rear_toe);
    let q9 = q8 + seq![r.front_suspension];
    let q10 = q9 + seq![r.rear_suspension];
    let q11 = q10 + seq![r.front_anti_roll_bar];
    let q12 = q11 + seq![r.rear_anti_roll_bar];
    let q13 = q12 + seq![r.front_suspension_height];
    let q14 = q13 + seq![r.rear_suspension_height];
    let q15 = q14 + seq![r.brake_pressure];
    let q16 = q15 + seq![r.brake_bias];
    let q17 = q16 + u32_le_bytes(r.rear_left_tyre_pressure);
    let q18 = q17 + u32_le_bytes(r.rear_right_tyre_pressure);
    let q19 = q18 + u32_le_bytes(r.front_left_tyre_pressure);
    let q20 = q19 + u32_le_bytes(r.front_right_tyre_pressure);
    let q21 = q20 + seq![r.ballast];
    let q22 = q21 + u32_le_bytes(r.fuel_load);
    lemma_split_at(b, off, q21, u32_le_bytes(r.fuel_load));
    lemma_split_at(b, off, q20, seq![r.ballast]);
    lemma_split_at(b, off, q19, u32_le_bytes(r.front_right_tyre_pressure));
    lemma_split_at(b, off, q18, u32_le_bytes(r.front_left_tyre_pressure));
    lemma_split_at(b, off, q17, u32_le_bytes(r.rear_right_tyre_pressure));
    lemma_split_at(b, off, q16, u32_le_bytes(r.rear_left_tyre_pressure));
    lemma_split_at(b, off, q15, seq![r.brake_bias]);
    lemma_split_at(b, off, q14, seq![r.brake_pressure]);
    lemma_split_at(b, off, q13, seq![r.rear_suspension_height]);
    lemma_split_at(b, off, q12, seq![r.front_suspension_height]);
    lemma_split_at(b, off, q11, seq![r.rear_anti_roll_bar]);
    lemma_split_at(b, off, q10, seq![r.front_anti_roll_bar]);
    lemma_split_at(b, off, q9, seq![r.rear_suspension]);
    lemma_split_at(b, off, q8, seq![r.front_suspension]);
    lemma_split_at(b, off, q7, u32_le_bytes(r.rear_toe));
    lemma_split_at(b, off, q6, u32_le_bytes(r.front_toe));
    lemma_split_at(b, off, q5, u32_le_bytes(r.rear_camber));
    lemma_split_at(b, off, q4, u32_le_bytes(r.front_camber));
    lemma_split_at(b, off, q3, seq![r.off_throttle]);
    lemma_split_at(b, off, q2, seq![r.on_throttle]);
    lemma_split_at(b, off, q1, seq![r.rear_wing]);
    lemma_u8_at(b, off, r.front_wing);
    lemma_u8_at(b, off + 1, r.rear_wing);
    lemma_u8_at(b, off + 2, r.on_throttle);
    lemma_u8_at(b, off + 3, r.off_throttle);
    lemma_u32_at(b, off + 4, r.front_camber);
    lemma_u32_at(b, off + 8, r.rear_camber);
    lemma_u32_at(b, off + 12, r.front_toe);
    lemma_u32_at(b, off + 16, r.rear_toe);
    lemma_u8_at(b, off + 20, r.front_suspension);
    lemma_u8_at(b, off + 21, r.rear_suspension);
    lemma_u8_at(b, off + 22, r.front_anti_roll_bar);
    lemma_u8_at(b, off + 23, r.rear_anti_roll_bar);
    lemma_u8_at(b, off + 24, r.front_suspension_height);
    lemma_u8_at(b, off + 25, r.rear_suspension_height);
    lemma_u8_at(b, off + 26, r.brake_pressure);
    lemma_u8_at(b, off + 27, r.brake_bias);
    lemma_u32_at(b, off + 28, r.rear_left_tyre_pressure);
    lemma_u32_at(b, off + 32, r.rear_right_tyre_pressure);
    lemma_u32_at(b, off + 36, r.front_left_tyre_pressure);
    lemma_u32_at(b, off + 40, r.front_right_tyre_pressure);
    lemma_u8_at(b, off + 44, r.ballast);
    lemma_u32_at(b, off + 45, r.fuel_load);
}


/// The encoding of a writable `r` is as long as the layout.
pub proof fn lemma_car_setup_data_bytes_len(r: CarSetupData)
    requires
        car_setup_data_wf(r),
    ensures
        car_setup_data_bytes(r).len() == 49,
{
    lemma_u32_le_bytes(r.front_camber);
    lemma_u32_le_bytes(r.rear_camber);
    lemma_u32_le_bytes(r.front_toe);
    lemma_u32_le_bytes(r.rear_toe);
    lemma_u32_le_bytes(r.rear_left_tyre_pressure);
    lemma_u32_le_bytes(r.rear_right_tyre_pressure);
    lemma_u32_le_bytes(r.front_left_tyre_pressure);
    lemma_u32_le_bytes(r.front_right_tyre_pressure);
    lemma_u32_le_bytes(r.fuel_load);
}

/// The encodings of the records of `v`, one per record.
pub open spec fn car_setup_data_parts(v: Seq<CarSetupData>) -> Seq<Seq<u8>> {
    v.map_values(|x: CarSetupData| car_setup_data_bytes(x))
}

/// Bytes that equal the encodings of the records of `v`, end to end, hold
/// those records one after another.
#[verifier::rlimit(40)]
pub proof fn lemma_car_setup_data_array_bytes(v: Seq<CarSetupData>, b: Seq<u8>, off: int)
    requires
        v.len() == 22,
        forall|i: int| 0 <= i < v.len() ==> car_setup_data_wf(#[trigger] v[i]),
        0 <= off,
        off + 1078 <= b.len(),
        b.subrange(off, off + 1078) == car_setup_data_parts(v).flatten(),
    ensures
        forall|i: int| 0 <= i < 22 ==> car_setup_data_at(b, off + i * 49, #[trigger] v[i]),
{
    let parts = car_setup_data_parts(v);
    lemma_car_setup_data_parts(v);
    let whole = b.subrange(off, off + 1078);
    assert forall|i: int| 0 <= i < 22 implies car_setup_data_at(b, off + i * 49, #[trigger] v[i]) by {
        assert forall|j: int| 0 <= j < 49 implies #[trigger] b.subrange(off + i * 49, off + i * 49 + 49)[j] == parts[i][j] by {
            lemma_flatten_uniform(parts, 49, i, j);
            assert(0 <= i * 49 + j < 1078) by (nonlinear_arith)
                requires
                    0 <= i < 22,
                    0 <= j < 49,
            ;
            assert(whole[i * 49 + j] == b[off + i * 49 + j]);
        }
        assert(b.subrange(off + i * 49, off + i * 49 + 49) =~= car_setup_data_bytes(v[i]));
        lemma_car_setup_data_bytes(v[i], b, off + i * 49);
    }
}

/// Each record of `v` encodes to as many bytes as the layout.
pub proof fn lemma_car_setup_data_parts(v: Seq<CarSetupData>)
    requires
        forall|i: int| 0 <= i < v.len() ==> car_setup_data_wf(#[trigger] v[i]),
    ensures
        forall|i: int| 0 <= i < v.len() ==> (#[trigger] car_setup_data_parts(v)[i]).len() == 49,
{
    assert forall|i: int| 0 <= i < v.len() implies (#[trigger] car_setup_data_parts(v)[i]).len() == 49 by {
        lemma_car_setup_data_bytes_len(v[i]);
    }
}

/// `r` can be written in the wire layout: its sequences have their fixed
/// lengths and its characters fit in one byte.
pub open spec fn packet_car_setup_data_wf(r: PacketCarSetupData) -> bool {
    &&& packet_header_wf(r.header)
    &&& r.car_setups@.len() == 22
    &&& forall|i: int| 0 <= i < 22 ==> car_setup_data_wf(#[trigger] r.car_setups@[i])
}

/// The 1102 bytes that hold `r`: its fields in declared order, little-endian.
pub open spec fn packet_car_setup_data_bytes(r: PacketCarSetupData) -> Seq<u8> {
    packet_header_bytes(r.header)
        + car_setup_data_parts(r.car_setups@).flatten()
}

/// Bytes that equal the encoding of `r` hold `r`.
#[verifier::rlimit(60)]
pub proof fn lemma_packet_car_setup_data_bytes(r: PacketCarSetupData, b: Seq<u8>, off: int)
    requires
        packet_car_setup_data_wf(r),
        0 <= off,
        off + 1102 <= b.len(),
        b.subrange(off, off + 1102) == packet_car_setup_data_bytes(r),
    ensures
        packet_car_setup_data_bytes(r).len() == 1102,
        packet_car_setup_data_at(b, off, r),
{
    lemma_packet_car_setup_data_bytes_len(r);
    lemma_packet_header_bytes_len(r.header);
    lemma_car_setup_data_parts(r.car_setups@);
    lemma_flatten_uniform_len(car_setup_data_parts(r.car_setups@), 49);
    let q1 = packet_header_bytes(r.header);
    let q2 = q1 + car_setup_data_parts(r.car_setups@).flatten();
    lemma_split_at(b, off, q1, car_setup_data_parts(r.car_setups@).flatten());
    lemma_packet_header_bytes(r.header, b, off);
    lemma_car_setup_data_array_bytes(r.car_setups@, b, off + 24);
}


/// The encoding of a writable `r` is as long as the layout.
pub proof fn lemma_packet_car_setup_data_bytes_len(r: PacketCarSetupData)
    requires
        packet_car_setup_data_wf(r),
    ensures
        packet_car_setup_data_bytes(r).len() == 1102,
{
    lemma_packet_header_bytes_len(r.header);
    lemma_car_setup_data_parts(r.car_setups@);
    lemma_flatten_uniform_len(car_setup_data_parts(r.car_setups@), 49);
}

/// `r` can be written in the wire layout: its sequences have their fixed
/// lengths and its characters fit in one byte.
pub open spec fn car_telemetry_data_wf(r: CarTelemetryData) -> bool {
    true
}

/// The 60 bytes that hold `r`: its fields in declared order, little-endian.
pub open spec fn car_telemetry_data_bytes(r: CarTelemetryData) -> Seq<u8> {
    u16_le_bytes(r.speed)
        + u32_le_bytes(r.throttle)
        + u32_le_bytes(r.steer)
        + u32_le_bytes(r.brake)
        + seq![r.clutch]
        + seq![r.gear as u8]
        + u16_le_bytes(r.engine_rpm)
        + seq![r.drs]
        + seq![r.rev_lights_percent]
        + u16_le_bytes(r.rev_lights_bit_value)
        + u16x4_bytes(r.brakes_temperature)
        + u8x4_bytes(r.tyres_surface_temperature)
        + u8x4_bytes(r.tyres_inner_temperature)
        + u16_le_bytes(r.engine_temperature)
        + u32x4_bytes(r.tyres_pressure)
        + u8x4_bytes(r.surface_type)
}

/// Bytes that equal the encoding of `r` hold `r`.
#[verifier::rlimit(60)]
pub proof fn lemma_car_telemetry_data_bytes(r: CarTelemetryData, b: Seq<u8>, off: int)
    requires
        car_telemetry_data_wf(r),
        0 <= off,
        off + 60 <= b.len(),
        b.subrange(off, off + 60) == car_telemetry_data_bytes(r),
    ensures
        car_telemetry_data_bytes(r).len() == 60,
        car_telemetry_data_at(b, off, r),
{
    lemma_car_telemetry_data_bytes_len(r);
    lemma_u16_le_bytes(r.speed);
    lemma_u32_le_bytes(r.throttle);
    lemma_u32_le_bytes(r.steer);
    lemma_u32_le_bytes(r.brake);
    lemma_u16_le_bytes(r.engine_rpm);
    lemma_u16_le_bytes(r.rev_lights_bit_value);
    lemma_u16x4_bytes_len(r.brakes_temperature);
    lemma_u8x4_bytes_len(r.tyres_surface_temperature);
    lemma_u8x4_bytes_len(r.tyres_inner_temperature);
    lemma_u16_le_bytes(r.engine_temperature);
    lemma_u32x4_bytes_len(r.tyres_pressure);
    lemma_u8x4_bytes_len(r.surface_type);
    let q1 = u16_le_bytes(r.speed);
    let q2 = q1 + u32_le_bytes(r.throttle);
    let q3 = q2 + u32_le_bytes(r.steer);
    let q4 = q3 + u32_le_bytes(r.brake);
    let q5 = q4 + seq![r.clutch];
    let q6 = q5 + seq![r.gear as u8];
    let q7 = q6 + u16_le_bytes(r.engine_rpm);
    let q8 = q7 + seq![r.drs];
    let q9 = q8 + seq![r.rev_lights_percent];
    let q10 = q9 + u16_le_bytes(r.rev_lights_bit_value);
    let q11 = q10 + u16x4_bytes(r.brakes_temperature);
    let q12 = q11 + u8x4_bytes(r.tyres_surface_temperature);
    let q13 = q12 + u8x4_bytes(r.tyres_inner_temperature);
    let q14 = q13 + u16_le_bytes(r.engine_temperature);
    let q15 = q14 + u32x4_bytes(r.tyres_pressure);
    let q16 = q15 + u8x4_bytes(r.surface_type);
    lemma_split_at(b, off, q15, u8x4_bytes(r.surface_type));
    lemma_split_at(b, off, q14, u32x4_bytes(r.tyres_pressure));
    lemma_split_at(b, off, q13, u16_le_bytes(r.engine_temperature));
    lemma_split_at(b, off, q12, u8x4_bytes(r.tyres_inner_temperature));
    lemma_split_at(b, off, q11, u8x4_bytes(r.tyres_surface_temperature));
    lemma_split_at(b, off, q10, u16x4_bytes(r.brakes_temperature));
    lemma_split_at(b, off, q9, u16_le_bytes(r.rev_lights_bit_value));
    lemma_split_at(b, off, q8, seq![r.rev_lights_percent]);
    lemma_split_at(b, off, q7, seq![r.drs]);
    lemma_split_at(b, off, q6, u16_le_bytes(r.engine_rpm));
    lemma_split_at(b, off, q5, seq![r.gear as u8]);
    lemma_split_at(b, off, q4, seq![r.clutch]);
    lemma_split_at(b, off, q3, u32_le_bytes(r.brake));
    lemma_split_at(b, off, q2, u32_le_bytes(r.steer));
    lemma_split_at(b, off, q1, u32_le_bytes(r.throttle));
    lemma_u16_at(b, off, r.speed);
    lemma_u32_at(b, off + 2, r.throttle);
    lemma_u32_at(b, off + 6, r.steer);
    lemma_u32_at(b, off + 10, r.brake);
    lemma_u8_at(b, off + 14, r.clutch);
    lemma_i8_at(b, off + 15, r.gear);
    lemma_u16_at(b, off + 16, r.engine_rpm);
    lemma_u8_at(b, off + 18, r.drs);
    lemma_u8_at(b, off + 19, r.rev_lights_percent);
    lemma_u16_at(b, off + 20, r.rev_lights_bit_value);
    lemma_u16x4_at(b, off + 22, r.brakes_temperature);
    lemma_u8x4_at(b, off + 30, r.tyres_surface_temperature);
    lemma_u8x4_at(b, off + 34, r.tyres_inner_temperature);
    lemma_u16_at(b, off + 38, r.engine_temperature);
    lemma_u32x4_at(b, off + 40, r.tyres_pressure);
    lemma_u8x4_at(b, off + 56, r.surface_type);
}


/// The encoding of a writable `r` is as long as the layout.
pub proof fn lemma_car_telemetry_data_bytes_len(r: CarTelemetryData)
    requires
        car_telemetry_data_wf(r),
    ensures
        car_telemetry_data_bytes(r).len() == 60,
{
    lemma_u16_le_bytes(r.speed);
    lemma_u32_le_bytes(r.throttle);
    lemma_u32_le_bytes(r.steer);
    lemma_u32_le_bytes(r.brake);
    lemma_u16_le_bytes(r.engine_rpm);
    lemma_u16_le_bytes(r.rev_lights_bit_value);
    lemma_u16x4_bytes_len(r.brakes_temperature);
    lemma_u8x4_bytes_len(r.tyres_surface_temperature);
    lemma_u8x4_bytes_len(r.tyres_inner_temperature);
    lemma_u16_le_bytes(r.engine_temperature);
    lemma_u32x4_bytes_len(r.tyres_pressure);
    lemma_u8x4_bytes_len(r.surface_type);
}

/// The encodings of the records of `v`, one per record.
pub open spec fn car_telemetry_data_parts(v: Seq<CarTelemetryData>) -> Seq<Seq<u8>> {
    v.map_values(|x: CarTelemetryData| car_telemetry_data_bytes(x))
}

/// Bytes that equal the encodings of the records of `v`, end to end, hold
/// those records one after another.
#[verifier::rlimit(40)]
pub proof fn lemma_car_telemetry_data_array_bytes(v: Seq<CarTelemetryData>, b: Seq<u8>, off: int)
    requires
        v.len() == 22,
        forall|i: int| 0 <= i < v.len() ==> car_telemetry_data_wf(#[trigger] v[i]),
        0 <= off,
        off + 1320 <= b.len(),
        b.subrange(off, off + 1320) == car_telemetry_data_parts(v).flatten(),
    ensures
        forall|i: int| 0 <= i < 22 ==> car_telemetry_data_at(b, off + i * 60, #[trigger] v[i]),
{
    let parts = car_telemetry_data_parts(v);
    lemma_car_telemetry_data_parts(v);
    let whole = b.subrange(off, off + 1320);
    assert forall|i: int| 0 <= i < 22 implies car_telemetry_data_at(b, off + i * 60, #[trigger] v[i]) by {
        assert forall|j: int| 0 <= j < 60 implies #[trigger] b.subrange(off + i * 60, off + i * 60 + 60)[j] == parts[i][j] by {
            lemma_flatten_uniform(parts, 60, i, j);
            assert(0 <= i * 60 + j < 1320) by (nonlinear_arith)
                requires
                    0 <= i < 22,
                    0 <= j < 60,
            ;
            assert(whole[i * 60 + j] == b[off + i * 60 + j]);
        }
        assert(b.subrange(off + i * 60, off + i * 60 + 60) =~= car_telemetry_data_bytes(v[i]));
        lemma_car_telemetry_data_bytes(v[i], b, off + i * 60);
    }
}

/// Each record of `v` encodes to as many bytes as the layout.
pub proof fn lemma_car_telemetry_data_parts(v: Seq<CarTelemetryData>)
    requires
        forall|i: int| 0 <= i < v.len() ==> car_telemetry_data_wf(#[trigger] v[i]),
    ensures
        forall|i: int| 0 <= i < v.len() ==> (#[trigger] car_telemetry_data_parts(v)[i]).len() == 60,
{
    assert forall|i: int| 0 <= i < v.len() implies (#[trigger] car_telemetry_data_parts(v)[i]).len() == 60 by {
        lemma_car_telemetry_data_bytes_len(v[i]);
    }
}

/// `r` can be written in the wire layout: its sequences have their fixed
/// lengths and its characters fit in one byte.
pub open spec fn packet_car_telemetry_data_wf(r: PacketCarTelemetryData) -> bool {
    &&& packet_header_wf(r.header)
    &&& r.car_telemetry_data@.len() == 22
    &&& forall|i: int| 0 <= i < 22 ==> car_telemetry_data_wf(#[trigger] r.car_telemetry_data@[i])
}

/// The 1347 bytes that hold `r`: its fields in declared order, little-endian.
pub open spec fn packet_car_telemetry_data_bytes(r: PacketCarTelemetryData) -> Seq<u8> {
    packet_header_bytes(r.header)
        + car_telemetry_data_parts(r.car_telemetry_data@).flatten()
        + seq![r.mfd_panel_index]
        + seq![r.mfd_panel_index_secondary_player]
        + seq![r.suggested_gear as u8]
}

/// Bytes that equal the encoding of `r` hold `r`.
#[verifier::rlimit(60)]
pub proof fn lemma_packet_car_telemetry_data_bytes(r: PacketCarTelemetryData, b: Seq<u8>, off: int)
    requires
        packet_car_telemetry_data_wf(r),
        0 <= off,
        off + 1347 <= b.len(),
        b.subrange(off, off + 1347) == packet_car_telemetry_data_bytes(r),
    ensures
        packet_car_telemetry_data_bytes(r).len() == 1347,
        packet_car_telemetry_data_at(b, off, r),
{
    lemma_packet_car_telemetry_data_bytes_len(r);
    lemma_packet_header_bytes_len(r.header);
    lemma_car_telemetry_data_parts(r.car_telemetry_data@);
    lemma_flatten_uniform_len(car_telemetry_data_parts(r.car_telemetry_data@), 60);
    let q1 = packet_header_bytes(r.header);
    let q2 = q1 + car_telemetry_data_parts(r.car_telemetry_data@).flatten();
    let q3 = q2 + seq![r.mfd_panel_index];
    let q4 = q3 + seq![r.mfd_panel_index_secondary_player];
    let q5 = q4 + seq![r.suggested_gear as u8];
    lemma_split_at(b, off, q4, seq![r.suggested_gear as u8]);
    lemma_split_at(b, off, q3, seq![r.mfd_panel_index_secondary_player]);
    lemma_split_at(b, off, q2, seq![r.mfd_panel_index]);
    lemma_split_at(b, off, q1, car_telemetry_data_parts(r.car_telemetry_data@).flatten());
    lemma_packet_header_bytes(r.header, b, off);
    lemma_car_telemetry_data_array_bytes(r.car_telemetry_data@, b, off + 24);
    lemma_u8_at(b, off + 1344, r.mfd_panel_index);
    lemma_u8_at(b, off + 1345, r.mfd_panel_index_secondary_player);
    lemma_i8_at(b, off + 1346, r.suggested_gear);
}


/// The encoding of a writable `r` is as long as the layout.
pub proof fn lemma_packet_car_telemetry_data_bytes_len(r: PacketCarTelemetryData)
    requires
        packet_car_telemetry_data_wf(r),
    ensures
        packet_car_telemetry_data_bytes(r).len() == 1347,
{
    lemma_packet_header_bytes_len(r.header);
    lemma_car_telemetry_data_parts(r.car_telemetry_data@);
    lemma_flatten_uniform_len(car_telemetry_data_parts(r.car_telemetry_data@), 60);
}

/// `r` can be written in the wire layout: its sequences have their fixed
/// lengths and its characters fit in one byte.
pub open spec fn lobby_info_data_wf(r: LobbyInfoData) -> bool {
    &&& r.name@.len() == 48
    &&& forall|i: int| 0 <= i < 48 ==> (#[trigger] r.name@[i] as u32) < 0x100
}

/// The 53 bytes that hold `r`: its fields in declared order, little-endian.
pub open spec fn lobby_info_data_bytes(r: LobbyInfoData) -> Seq<u8> {
    seq![r.ai_controlled]
        + seq![r.team_id]
        + seq![r.nationality]
        + r.name@.map_values(|c: char| c as u8)
        + seq![r.car_number]
        + seq![r.ready_status]
}

/// Bytes that equal the encoding of `r` hold `r`.
pub proof fn lemma_lobby_info_data_bytes(r: LobbyInfoData, b: Seq<u8>, off: int)
    requires
        lobby_info_data_wf(r),
        0 <= off,
        off + 53 <= b.len(),
        b.subrange(off, off + 53) == lobby_info_data_bytes(r),
    ensures
        lobby_info_data_bytes(r).len() == 53,
        lobby_info_data_at(b, off, r),
{
    lemma_lobby_info_data_bytes_len(r);
    let q1 = seq![r.ai_controlled];
    let q2 = q1 + seq![r.team_id];
    let q3 = q2 + seq![r.nationality];
    let q4 = q3 + r.name@.map_values(|c: char| c as u8);
    let q5 = q4 + seq![r.car_number];
    let q6 = q5 + seq![r.ready_status];
    lemma_split_at(b, off, q5, seq![r.ready_status]);
    lemma_split_at(b, off, q4, seq![r.car_number]);
    lemma_split_at(b, off, q3, r.name@.map_values(|c: char| c as u8));
    lemma_split_at(b, off, q2, seq![r.nationality]);
    lemma_split_at(b, off, q1, seq![r.team_id]);
    lemma_u8_at(b, off, r.ai_controlled);
    lemma_u8_at(b, off + 1, r.team_id);
    lemma_u8_at(b, off + 2, r.nationality);
    assert forall|i: int| 0 <= i < 48 implies #[trigger] r.name@[i] == b[off + 3 + i] as char by {
        assert(b.subrange(off + 3, off + 51)[i] == b[off + 3 + i]);
        lemma_char_byte(r.name@[i]);
    }
    lemma_u8_at(b, off + 51, r.car_number);
    lemma_u8_at(b, off + 52, r.ready_status);
}


/// The encoding of a writable `r` is as long as the layout.
pub proof fn lemma_lobby_info_data_bytes_len(r: LobbyInfoData)
    requires
        lobby_info_data_wf(r),
    ensures
        lobby_info_data_bytes(r).len() == 53,
{
}

/// The encodings of the records of `v`, one per record.
pub open spec fn lobby_info_data_parts(v: Seq<LobbyInfoData>) -> Seq<Seq<u8>> {
    v.map_values(|x: LobbyInfoData| lobby_info_data_bytes(x))
}

/// Bytes that equal the encodings of the records of `v`, end to end, hold
/// those records one after another.
#[verifier::rlimit(40)]
pub proof fn lemma_lobby_info_data_array_bytes(v: Seq<LobbyInfoData>, b: Seq<u8>, off: int)
    requires
        v.len() == 22,
        forall|i: int| 0 <= i < v.len() ==> lobby_info_data_wf(#[trigger] v[i]),
        0 <= off,
        off + 1166 <= b.len(),
        b.subrange(off, off + 1166) == lobby_info_data_parts(v).flatten(),
    ensures
        forall|i: int| 0 <= i < 22 ==> lobby_info_data_at(b, off + i * 53, #[trigger] v[i]),
{
    let parts = lobby_info_data_parts(v);
    lemma_lobby_info_data_parts(v);
    let whole = b.subrange(off, off + 1166);
    assert forall|i: int| 0 <= i < 22 implies lobby_info_data_at(b, off + i * 53, #[trigger] v[i]) by {
        assert forall|j: int| 0 <= j < 53 implies #[trigger] b.subrange(off + i * 53, off + i * 53 + 53)[j] == parts[i][j] by {
            lemma_flatten_uniform(parts, 53, i, j);
            assert(0 <= i * 53 + j < 1166) by (nonlinear_arith)
                requires
                    0 <= i < 22,
                    0 <= j < 53,
            ;
            assert(whole[i * 53 + j] == b[off + i * 53 + j]);
        }
        assert(b.subrange(off + i * 53, off + i * 53 + 53) =~= lobby_info_data_bytes(v[i]));
        lemma_lobby_info_data_bytes(v[i], b, off + i * 53);
    }
}

/// Each record of `v` encodes to as many bytes as the layout.
pub proof fn lemma_lobby_info_data_parts(v: Seq<LobbyInfoData>)
    requires
        forall|i: int| 0 <= i < v.len() ==> lobby_info_data_wf(#[trigger] v[i]),
    ensures
        forall|i: int| 0 <= i < v.len() ==> (#[trigger] lobby_info_data_parts(v)[i]).len() == 53,
{
    assert forall|i: int| 0 <= i < v.len() implies (#[trigger] lobby_info_data_parts(v)[i]).len() == 53 by {
        lemma_lobby_info_data_bytes_len(v[i]);
    }
}

/// `r` can be written in the wire layout: its sequences have their fixed
/// lengths and its characters fit in one byte.
pub open spec fn packet_lobby_info_data_wf(r: PacketLobbyInfoData) -> bool {
    &&& packet_header_wf(r.header)
    &&& r.lobby_players@.len() == 22
    &&& forall|i: int| 0 <= i < 22 ==> lobby_info_data_wf(#[trigger] r.lobby_players@[i])
}

/// The 1191 bytes that hold `r`: its fields in declared order, little-endian.
pub open spec fn packet_lobby_info_data_bytes(r: PacketLobbyInfoData) -> Seq<u8> {
    packet_header_bytes(r.header)
        + seq![r.num_players]
        + lobby_info_data_parts(r.lobby_players@).flatten()
}

/// Bytes that equal the encoding of `r` hold `r`.
#[verifier::rlimit(60)]
pub proof fn lemma_packet_lobby_info_data_bytes(r: PacketLobbyInfoData, b: Seq<u8>, off: int)
    requires
        packet_lobby_info_data_wf(r),
        0 <= off,
        off + 1191 <= b.len(),
        b.subrange(off, off + 1191) == packet_lobby_info_data_bytes(r),
    ensures
        packet_lobby_info_data_bytes(r).len() == 1191,
        packet_lobby_info_data_at(b, off, r),
{
    lemma_packet_lobby_info_data_bytes_len(r);
    lemma_packet_header_bytes_len(r.header);
    lemma_lobby_info_data_parts(r.lobby_players@);
    lemma_flatten_uniform_len(lobby_info_data_parts(r.lobby_players@), 53);
    let q1 = packet_header_bytes(r.header);
    let q2 = q1 + seq![r.num_players];
    let q3 = q2 + lobby_info_data_parts(r.lobby_players@).flatten();
    lemma_split_at(b, off, q2, lobby_info_data_parts(r.lobby_players@).flatten());
    lemma_split_at(b, off, q1, seq![r.num_players]);
    lemma_packet_header_bytes(r.header, b, off);
    lemma_u8_at(b, off + 24, r.num_players);
    lemma_lobby_info_data_array_bytes(r.lobby_players@, b, off + 25);
}


/// The encoding of a writable `r` is as long as the layout.
pub proof fn lemma_packet_lobby_info_data_bytes_len(r: PacketLobbyInfoData)
    requires
        packet_lobby_info_data_wf(r),
    ensures
        packet_lobby_info_data_bytes(r).len() == 1191,
{
    lemma_packet_header_bytes_len(r.header);
    lemma_lobby_info_data_parts(r.lobby_players@);
    lemma_flatten_uniform_len(lobby_info_data_parts(r.lobby_players@), 53);
}

/// `r` can be written in the wire layout: its sequences have their fixed
/// lengths and its characters fit in one byte.
pub open spec fn car_damage_data_wf(r: CarDamageData) -> bool {
    true
}

/// The 42 bytes that hold `r`: its fields in declared order, little-endian.
pub open spec fn car_damage_data_bytes(r: CarDamageData) -> Seq<u8> {
    u32x4_bytes(r.tyres_wear)
        + u8x4_bytes(r.tyres_damage)
        + u8x4_bytes(r.brakes_damage)
        + seq![r.front_left_wing_damage]
        + seq![r.front_right_wing_damage]
        + seq![r.rear_wing_damage]
        + seq![r.floor_damage]
        + seq![r.diffuser_damage]
        + seq![r.sidepod_damage]
        + seq![r.drs_fault]
        + seq![r.ers_fault]
        + seq![r.gear_box_damage]
        + seq![r.engine_damage]
        + seq![r.engine_mguhwear]
        + seq![r.engine_eswear]
        + seq![r.engine_cewear]
        + seq![r.engine_icewear]
        + seq![r.engine_mgukwear]
        + seq![r.engine_tcwear]
        + seq![r.engine_blown]
        + seq![r.engine_seized]
}

/// Bytes that equal the encoding of `r` hold `r`.
#[verifier::rlimit(60)]
pub proof fn lemma_car_damage_data_bytes(r: CarDamageData, b: Seq<u8>, off: int)
    requires
        car_damage_data_wf(r),
        0 <= off,
        off + 42 <= b.len(),
        b.subrange(off, off + 42) == car_damage_data_bytes(r),
    ensures
        car_damage_data_bytes(r).len() == 42,
        car_damage_data_at(b, off, r),
{
    lemma_car_damage_data_bytes_len(r);
    lemma_u32x4_bytes_len(r.tyres_wear);
    lemma_u8x4_bytes_len(r.tyres_damage);
    lemma_u8x4_bytes_len(r.brakes_damage);
    let q1 = u32x4_bytes(r.tyres_wear);
    let q2 = q1 + u8x4_bytes(r.tyres_damage);
    let q3 = q2 + u8x4_bytes(r.brakes_damage);
    let q4 = q3 + seq![r.front_left_wing_damage];
    let q5 = q4 + seq![r.front_right_wing_damage];
    let q6 = q5 + seq![r.rear_wing_damage];
    let q7 = q6 + seq![r.floor_damage];
    let q8 = q7 + seq![r.diffuser_damage];
    let q9 = q8 + seq![r.sidepod_damage];
    let q10 = q9 + seq![r.drs_fault];
    let q11 = q10 + seq![r.ers_fault];
    let q12 = q11 + seq![r.gear_box_damage];
    let q13 = q12 + seq![r.engine_damage];
    let q14 = q13 + seq![r.engine_mguhwear];
    let q15 = q14 + seq![r.engine_eswear];
    let q16 = q15 + seq![r.engine_cewear];
    let q17 = q16 + seq![r.engine_icewear];
    let q18 = q17 + seq![r.engine_mgukwear];
    let q19 = q18 + seq![r.engine_tcwear];
    let q20 = q19 + seq![r.engine_blown];
    let q21 = q20 + seq![r.engine_seized];
    lemma_split_at(b, off, q20, seq![r.engine_seized]);
    lemma_split_at(b, off, q19, seq![r.engine_blown]);
    lemma_split_at(b, off, q18, seq![r.engine_tcwear]);
    lemma_split_at(b, off, q17, seq![r.engine_mgukwear]);
    lemma_split_at(b, off, q16, seq![r.engine_icewear]);
    lemma_split_at(b, off, q15, seq![r.engine_cewear]);
    lemma_split_at(b, off, q14, seq![r.engine_eswear]);
    lemma_split_at(b, off, q13, seq![r.engine_mguhwear]);
    lemma_split_at(b, off, q12, seq![r.engine_damage]);
    lemma_split_at(b, off, q11, seq![r.gear_box_damage]);
    lemma_split_at(b, off, q10, seq![r.ers_fault]);
    lemma_split_at(b, off, q9, seq![r.drs_fault]);
    lemma_split_at(b, off, q8, seq![r.sidepod_damage]);
    lemma_split_at(b, off, q7, seq![r.diffuser_damage]);
    lemma_split_at(b, off, q6, seq![r.floor_damage]);
    lemma_split_at(b, off, q5, seq![r.rear_wing_damage]);
    lemma_split_at(b, off, q4, seq![r.front_right_wing_damage]);
    lemma_split_at(b, off, q3, seq![r.front_left_wing_damage]);
    lemma_split_at(b, off, q2, u8x4_bytes(r.brakes_damage));
    lemma_split_at(b, off, q1, u8x4_bytes(r.tyres_damage));
    lemma_u32x4_at(b, off, r.tyres_wear);
    lemma_u8x4_at(b, off + 16, r.tyres_damage);
    lemma_u8x4_at(b, off + 20, r.brakes_damage);
    lemma_u8_at(b, off + 24, r.front_left_wing_damage);
    lemma_u8_at(b, off + 25, r.front_right_wing_damage);
    lemma_u8_at(b, off + 26, r.rear_wing_damage);
    lemma_u8_at(b, off + 27, r.floor_damage);
    lemma_u8_at(b, off + 28, r.diffuser_damage);
    lemma_u8_at(b, off + 29, r.sidepod_damage);
    lemma_u8_at(b, off + 30, r.drs_fault);
    lemma_u8_at(b, off + 31, r.ers_fault);
    lemma_u8_at(b, off + 32, r.gear_box_damage);
    lemma_u8_at(b, off + 33, r.engine_damage);
    lemma_u8_at(b, off + 34, r.engine_mguhwear);
    lemma_u8_at(b, off + 35, r.engine_eswear);
    lemma_u8_at(b, off + 36, r.engine_cewear);
    lemma_u8_at(b, off + 37, r.engine_icewear);
    lemma_u8_at(b, off + 38, r.engine_mgukwear);
    lemma_u8_at(b, off + 39, r.engine_tcwear);
    lemma_u8_at(b, off + 40, r.engine_blown);
    lemma_u8_at(b, off + 41, r.engine_seized);
}


/// The encoding of a writable `r` is as long as the layout.
pub proof fn lemma_car_damage_data_bytes_len(r: CarDamageData)
    requires
        car_damage_data_wf(r),
    ensures
        car_damage_data_bytes(r).len() == 42,
{
    lemma_u32x4_bytes_len(r.tyres_wear);
    lemma_u8x4_bytes_len(r.tyres_damage);
    lemma_u8x4_bytes_len(r.brakes_damage);
}

/// The encodings of the records of `v`, one per record.
pub open spec fn car_damage_data_parts(v: Seq<CarDamageData>) -> Seq<Seq<u8>> {
    v.map_values(|x: CarDamageData| car_damage_data_bytes(x))
}

/// Bytes that equal the encodings of the records of `v`, end to end, hold
/// those records one after another.
#[verifier::rlimit(40)]
pub proof fn lemma_car_damage_data_array_bytes(v: Seq<CarDamageData>, b: Seq<u8>, off: int)
    requires
        v.len() == 22,
        forall|i: int| 0 <= i < v.len() ==> car_damage_data_wf(#[trigger] v[i]),
        0 <= off,
        off + 924 <= b.len(),
        b.subrange(off, off + 924) == car_damage_data_parts(v).flatten(),
    ensures
        forall|i: int| 0 <= i < 22 ==> car_damage_data_at(b, off + i * 42, #[trigger] v[i]),
{
    let parts = car_damage_data_parts(v);
    lemma_car_damage_data_parts(v);
    let whole = b.subrange(off, off + 924);
    assert forall|i: int| 0 <= i < 22 implies car_damage_data_at(b, off + i * 42, #[trigger] v[i]) by {
        assert forall|j: int| 0 <= j < 42 implies #[trigger] b.subrange(off + i * 42, off + i * 42 + 42)[j] == parts[i][j] by {
            lemma_flatten_uniform(parts, 42, i, j);
            assert(0 <= i * 42 + j < 924) by (nonlinear_arith)
                requires
                    0 <= i < 22,
                    0 <= j < 42,
            ;
            assert(whole[i * 42 + j] == b[off + i * 42 + j]);
        }
        assert(b.subrange(off + i * 42, off + i * 42 + 42) =~= car_damage_data_bytes(v[i]));
        lemma_car_damage_data_bytes(v[i], b, off + i * 42);
    }
}

/// Each record of `v` encodes to as many bytes as the layout.
pub proof fn lemma_car_damage_data_parts(v: Seq<CarDamageData>)
    requires
        forall|i: int| 0 <= i < v.len() ==> car_damage_data_wf(#[trigger] v[i]),
    ensures
        forall|i: int| 0 <= i < v.len() ==> (#[trigger] car_damage_data_parts(v)[i]).len() == 42,
{
    assert forall|i: int| 0 <= i < v.len() implies (#[trigger] car_damage_data_parts(v)[i]).len() == 42 by {
        lemma_car_damage_data_bytes_len(v[i]);
    }
}

/// `r` can be written in the wire layout: its sequences have their fixed
/// lengths and its characters fit in one byte.
pub open spec fn packet_car_damage_data_wf(r: PacketCarDamageData) -> bool {
    &&& packet_header_wf(r.header)
    &&& r.car_damage_data@.len() == 22
    &&& forall|i: int| 0 <= i < 22 ==> car_damage_data_wf(#[trigger] r.car_damage_data@[i])
}

/// The 948 bytes that hold `r`: its fields in declared order, little-endian.
pub open spec fn packet_car_damage_data_bytes(r: PacketCarDamageData) -> Seq<u8> {
    packet_header_bytes(r.header)
        + car_damage_data_parts(r.car_damage_data@).flatten()
}

/// Bytes that equal the encoding of `r` hold `r`.
#[verifier::rlimit(60)]
pub proof fn lemma_packet_car_damage_data_bytes(r: PacketCarDamageData, b: Seq<u8>, off: int)
    requires
        packet_car_damage_data_wf(r),
        0 <= off,
        off + 948 <= b.len(),
        b.subrange(off, off + 948) == packet_car_damage_data_bytes(r),
    ensures
        packet_car_damage_data_bytes(r).len() == 948,
        packet_car_damage_data_at(b, off, r),
{
    lemma_packet_car_damage_data_bytes_len(r);
    lemma_packet_header_bytes_len(r.header);
    lemma_car_damage_data_parts(r.car_damage_data@);
    lemma_flatten_uniform_len(car_damage_data_parts(r.car_damage_data@), 42);
    let q1 = packet_header_bytes(r.header);
    let q2 = q1 + car_damage_data_parts(r.car_damage_data@).flatten();
    lemma_split_at(b, off, q1, car_damage_data_parts(r.car_damage_data@).flatten());
    lemma_packet_header_bytes(r.header, b, off);
    lemma_car_damage_data_array_bytes(r.car_damage_data@, b, off + 24);
}


/// The encoding of a writable `r` is as long as the layout.
pub proof fn lemma_packet_car_damage_data_bytes_len(r: PacketCarDamageData)
    requires
        packet_car_damage_data_wf(r),
    ensures
        packet_car_damage_data_bytes(r).len() == 948,
{
    lemma_packet_header_bytes_len(r.header);
    lemma_car_damage_data_parts(r.car_damage_data@);
    lemma_flatten_uniform_len(car_damage_data_parts(r.car_damage_data@), 42);
}

/// `r` can be written in the wire layout: its sequences have their fixed
/// lengths and its characters fit in one byte.
pub open spec fn lap_history_data_wf(r: LapHistoryData) -> bool {
    true
}

/// The 11 bytes that hold `r`: its fields in declared order, little-endian.
pub open spec fn lap_history_data_bytes(r: LapHistoryData) -> Seq<u8> {
    u32_le_bytes(r.lap_time_in_ms)
        + u16_le_bytes(r.sector1_time_in_ms)
        + u16_le_bytes(r.sector2_time_in_ms)
        + u16_le_bytes(r.sector3_time_in_ms)
        + seq![r.lap_valid_bit_flags]
}

/// Bytes that equal the encoding of `r` hold `r`.
pub proof fn lemma_lap_history_data_bytes(r: LapHistoryData, b: Seq<u8>, off: int)
    requires
        lap_history_data_wf(r),
        0 <= off,
        off + 11 <= b.len(),
        b.subrange(off, off + 11) == lap_history_data_bytes(r),
    ensures
        lap_history_data_bytes(r).len() == 11,
        lap_history_data_at(b, off, r),
{
    lemma_lap_history_data_bytes_len(r);
    lemma_u32_le_bytes(r.lap_time_in_ms);
    lemma_u16_le_bytes(r.sector1_time_in_ms);
    lemma_u16_le_bytes(r.sector2_time_in_ms);
    lemma_u16_le_bytes(r.sector3_time_in_ms);
    let q1 = u32_le_bytes(r.lap_time_in_ms);
    let q2 = q1 + u16_le_bytes(r.sector1_time_in_ms);
    let q3 = q2 + u16_le_bytes(r.sector2_time_in_ms);
    let q4 = q3 + u16_le_bytes(r.sector3_time_in_ms);
    let q5 = q4 + seq![r.lap_valid_bit_flags];
    lemma_split_at(b, off, q4, seq![r.lap_valid_bit_flags]);
    lemma_split_at(b, off, q3, u16_le_bytes(r.sector3_time_in_ms));
    lemma_split_at(b, off, q2, u16_le_bytes(r.sector2_time_in_ms));
    lemma_split_at(b, off, q1, u16_le_bytes(r.sector1_time_in_ms));
    lemma_u32_at(b, off, r.lap_time_in_ms);
    lemma_u16_at(b, off + 4, r.sector1_time_in_ms);
    lemma_u16_at(b, off + 6, r.sector2_time_in_ms);
    lemma_u16_at(b, off + 8, r.sector3_time_in_ms);
    lemma_u8_at(b, off + 10, r.lap_valid_bit_flags);
}


/// The encoding of a writable `r` is as long as the layout.
pub proof fn lemma_lap_history_data_bytes_len(r: LapHistoryData)
    requires
        lap_history_data_wf(r),
    ensures
        lap_history_data_bytes(r).len() == 11,
{
    lemma_u32_le_bytes(r.lap_time_in_ms);
    lemma_u16_le_bytes(r.sector1_time_in_ms);
    lemma_u16_le_bytes(r.sector2_time_in_ms);
    lemma_u16_le_bytes(r.sector3_time_in_ms);
}

/// The encodings of the records of `v`, one per record.
pub open spec fn lap_history_data_parts(v: Seq<LapHistoryData>) -> Seq<Seq<u8>> {
    v.map_values(|x: LapHistoryData| lap_history_data_bytes(x))
}

/// Bytes that equal the encodings of the records of `v`, end to end, hold
/// those records one after another.
#[verifier::rlimit(40)]
pub proof fn lemma_lap_history_data_array_bytes(v: Seq<LapHistoryData>, b: Seq<u8>, off: int)
    requires
        v.len() == 100,
        forall|i: int| 0 <= i < v.len() ==> lap_history_data_wf(#[trigger] v[i]),
        0 <= off,
        off + 1100 <= b.len(),
        b.subrange(off, off + 1100) == lap_history_data_parts(v).flatten(),
    ensures
        forall|i: int| 0 <= i < 100 ==> lap_history_data_at(b, off + i * 11, #[trigger] v[i]),
{
    let parts = lap_history_data_parts(v);
    lemma_lap_history_data_parts(v);
    let whole = b.subrange(off, off + 1100);
    assert forall|i: int| 0 <= i < 100 implies lap_history_data_at(b, off + i * 11, #[trigger] v[i]) by {
        assert forall|j: int| 0 <= j < 11 implies #[trigger] b.subrange(off + i * 11, off + i * 11 + 11)[j] == parts[i][j] by {
            lemma_flatten_uniform(parts, 11, i, j);
            assert(0 <= i * 11 + j < 1100) by (nonlinear_arith)
                requires
                    0 <= i < 100,
                    0 <= j < 11,
            ;
            assert(whole[i * 11 + j] == b[off + i * 11 + j]);
        }
        assert(b.subrange(off + i * 11, off + i * 11 + 11) =~= lap_history_data_bytes(v[i]));
        lemma_lap_history_data_bytes(v[i], b, off + i * 11);
    }
}

/// Each record of `v` encodes to as many bytes as the layout.
pub proof fn lemma_lap_history_data_parts(v: Seq<LapHistoryData>)
    requires
        forall|i: int| 0 <= i < v.len() ==> lap_history_data_wf(#[trigger] v[i]),
    ensures
        forall|i: int| 0 <= i < v.len() ==> (#[trigger] lap_history_data_parts(v)[i]).len() == 11,
{
    assert forall|i: int| 0 <= i < v.len() implies (#[trigger] lap_history_data_parts(v)[i]).len() == 11 by {
        lemma_lap_history_data_bytes_len(v[i]);
    }
}

/// `r` can be written in the wire layout: its sequences have their fixed
/// lengths and its characters fit in one byte.
pub open spec fn tyre_stint_history_data_wf(r: TyreStintHistoryData) -> bool {
    true
}

/// The 3 bytes that hold `r`: its fields in declared order, little-endian.
pub open spec fn tyre_stint_history_data_bytes(r: TyreStintHistoryData) -> Seq<u8> {
    seq![r.end_lap]
        + seq![r.tyre_actual_compound]
        + seq![r.tyre_visual_compound]
}

/// Bytes that equal the encoding of `r` hold `r`.
pub proof fn lemma_tyre_stint_history_data_bytes(r: TyreStintHistoryData, b: Seq<u8>, off: int)
    requires
        tyre_stint_history_data_wf(r),
        0 <= off,
        off + 3 <= b.len(),
        b.subrange(off, off + 3) == tyre_stint_history_data_bytes(r),
    ensures
        tyre_stint_history_data_bytes(r).len() == 3,
        tyre_stint_history_data_at(b, off, r),
{
    lemma_tyre_stint_history_data_bytes_len(r);
    let q1 = seq![r.end_lap];
    let q2 = q1 + seq![r.tyre_actual_compound];
    let q3 = q2 + seq![r.tyre_visual_compound];
    lemma_split_at(b, off, q2, seq![r.tyre_visual_compound]);
    lemma_split_at(b, off, q1, seq![r.tyre_actual_compound]);
    lemma_u8_at(b, off, r.end_lap);
    lemma_u8_at(b, off + 1, r.tyre_actual_compound);
    lemma_u8_at(b, off + 2, r.tyre_visual_compound);
}


/// The encoding of a writable `r` is as long as the layout.
pub proof fn lemma_tyre_stint_history_data_bytes_len(r: TyreStintHistoryData)
    requires
        tyre_stint_history_data_wf(r),
    ensures
        tyre_stint_history_data_bytes(r).len() == 3,
{
}

/// The encodings of the records of `v`, one per record.
pub open spec fn tyre_stint_history_data_parts(v: Seq<TyreStintHistoryData>) -> Seq<Seq<u8>> {
    v.map_values(|x: TyreStintHistoryData| tyre_stint_history_data_bytes(x))
}

/// Bytes that equal the encodings of the records of `v`, end to end, hold
/// those records one after another.
#[verifier::rlimit(40)]
pub proof fn lemma_tyre_stint_history_data_array_bytes(v: Seq<TyreStintHistoryData>, b: Seq<u8>, off: int)
    requires
        v.len() == 8,
        forall|i: int| 0 <= i < v.len() ==> tyre_stint_history_data_wf(#[trigger] v[i]),
        0 <= off,
        off + 24 <= b.len(),
        b.subrange(off, off + 24) == tyre_stint_history_data_parts(v).flatten(),
    ensures
        forall|i: int| 0 <= i < 8 ==> tyre_stint_history_data_at(b, off + i * 3, #[trigger] v[i]),
{
    let parts = tyre_stint_history_data_parts(v);
    lemma_tyre_stint_history_data_parts(v);
    let whole = b.subrange(off, off + 24);
    assert forall|i: int| 0 <= i < 8 implies tyre_stint_history_data_at(b, off + i * 3, #[trigger] v[i]) by {
        assert forall|j: int| 0 <= j < 3 implies #[trigger] b.subrange(off + i * 3, off + i * 3 + 3)[j] == parts[i][j] by {
            lemma_flatten_uniform(parts, 3, i, j);
            assert(0 <= i * 3 + j < 24) by (nonlinear_arith)
                requires
                    0 <= i < 8,
                    0 <= j < 3,
            ;
            assert(whole[i * 3 + j] == b[off + i * 3 + j]);
        }
        assert(b.subrange(off + i * 3, off + i * 3 + 3) =~= tyre_stint_history_data_bytes(v[i]));
        lemma_tyre_stint_history_data_bytes(v[i], b, off + i * 3);
    }
}

/// Each record of `v` encodes to as many bytes as the layout.
pub proof fn lemma_tyre_stint_history_data_parts(v: Seq<TyreStintHistoryData>)
    requires
        forall|i: int| 0 <= i < v.len() ==> tyre_stint_history_data_wf(#[trigger] v[i]),
    ensures
        forall|i: int| 0 <= i < v.len() ==> (#[trigger] tyre_stint_history_data_parts(v)[i]).len() == 3,
{
    assert forall|i: int| 0 <= i < v.len() implies (#[trigger] tyre_stint_history_data_parts(v)[i]).len() == 3 by {
        lemma_tyre_stint_history_data_bytes_len(v[i]);
    }
}

/// `r` can be written in the wire layout: its sequences have their fixed
/// lengths and its characters fit in one byte.
pub open spec fn packet_session_history_data_wf(r: PacketSessionHistoryData) -> bool {
    &&& packet_header_wf(r.header)
    &&& r.lap_history_data@.len() == 100
    &&& forall|i: int| 0 <= i < 100 ==> lap_history_data_wf(#[trigger] r.lap_history_data@[i])
    &&& r.tyre_stint_history_data@.len() == 8
    &&& forall|i: int| 0 <= i < 8 ==> tyre_stint_history_data_wf(#[trigger] r.tyre_stint_history_data@[i])
}

/// The 1155 bytes that hold `r`: its fields in declared order, little-endian.
pub open spec fn packet_session_history_data_bytes(r: PacketSessionHistoryData) -> Seq<u8> {
    packet_header_bytes(r.header)
        + seq![r.car_idx]
        + seq![r.num_laps]
        + seq![r.num_tyre_stints]
        + seq![r.best_lap_time_lap_num]
        + seq![r.best_sector1_lap_num]
        + seq![r.best_sector2_lap_num]
        + seq![r.best_sector3_lap_num]
        + lap_history_data_parts(r.lap_history_data@).flatten()
        + tyre_stint_history_data_parts(r.tyre_stint_history_data@).flatten()
}

/// Bytes that equal the encoding of `r` hold `r`.
#[verifier::rlimit(60)]
pub proof fn lemma_packet_session_history_data_bytes(r: PacketSessionHistoryData, b: Seq<u8>, off: int)
    requires
        packet_session_history_data_wf(r),
        0 <= off,
        off + 1155 <= b.len(),
        b.subrange(off, off + 1155) == packet_session_history_data_bytes(r),
    ensures
        packet_session_history_data_bytes(r).len() == 1155,
        packet_session_history_data_at(b, off, r),
{
    lemma_packet_session_history_data_bytes_len(r);
    lemma_packet_header_bytes_len(r.header);
    lemma_lap_history_data_parts(r.lap_history_data@);
    lemma_flatten_uniform_len(lap_history_data_parts(r.lap_history_data@), 11);
    lemma_tyre_stint_history_data_parts(r.tyre_stint_history_data@);
    lemma_flatten_uniform_len(tyre_stint_history_data_parts(r.tyre_stint_history_data@), 3);
    let q1 = packet_header_bytes(r.header);
    let q2 = q1 + seq![r.car_idx];
    let q3 = q2 + seq![r.num_laps];
    let q4 = q3 + seq![r.num_tyre_stints];
    let q5 = q4 + seq![r.best_lap_time_lap_num];
    let q6 = q5 + seq![r.best_sector1_lap_num];
    let q7 = q6 + seq![r.best_sector2_lap_num];
    let q8 = q7 + seq![r.best_sector3_lap_num];
    let q9 = q8 + lap_history_data_parts(r.lap_history_data@).flatten();
    let q10 = q9 + tyre_stint_history_data_parts(r.tyre_stint_history_data@).flatten();
    lemma_split_at(b, off, q9, tyre_stint_history_data_parts(r.tyre_stint_history_data@).flatten());
    lemma_split_at(b, off, q8, lap_history_data_parts(r.lap_history_data@).flatten());
    lemma_split_at(b, off, q7, seq![r.best_sector3_lap_num]);
    lemma_split_at(b, off, q6, seq![r.best_sector2_lap_num]);
    lemma_split_at(b, off, q5, seq![r.best_sector1_lap_num]);
    lemma_split_at(b, off, q4, seq![r.best_lap_time_lap_num]);
    lemma_split_at(b, off, q3, seq![r.num_tyre_stints]);
    lemma_split_at(b, off, q2, seq![r.num_laps]);
    lemma_split_at(b, off, q1, seq![r.car_idx]);
    lemma_packet_header_bytes(r.header, b, off);
    lemma_u8_at(b, off + 24, r.car_idx);
    lemma_u8_at(b, off + 25, r.num_laps);
    lemma_u8_at(b, off + 26, r.num_tyre_stints);
    lemma_u8_at(b, off + 27, r.best_lap_time_lap_num);
    lemma_u8_at(b, off + 28, r.best_sector1_lap_num);
    lemma_u8_at(b, off + 29, r.best_sector2_lap_num);
    lemma_u8_at(b, off + 30, r.best_sector3_lap_num);
    lemma_lap_history_data_array_bytes(r.lap_history_data@, b, off + 31);
    lemma_tyre_stint_history_data_array_bytes(r.tyre_stint_history_data@, b, off + 1131);
}


/// The encoding of a writable `r` is as long as the layout.
pub proof fn lemma_packet_session_history_data_bytes_len(r: PacketSessionHistoryData)
    requires
        packet_session_history_data_wf(r),
    ensures
        packet_session_history_data_bytes(r).len() == 1155,
{
    lemma_packet_header_bytes_len(r.header);
    lemma_lap_history_data_parts(r.lap_history_data@);
    lemma_flatten_uniform_len(lap_history_data_parts(r.lap_history_data@), 11);
    lemma_tyre_stint_history_data_parts(r.tyre_stint_history_data@);
    lemma_flatten_uniform_len(tyre_stint_history_data_parts(r.tyre_stint_history_data@), 3);
}

/// `r` can be written in the wire layout: its sequences have their fixed
/// lengths and its characters fit in one byte.
pub open spec fn event_fastest_lap_wf(r: EventFastestLap) -> bool {
    true
}

/// The 5 bytes that hold `r`: its fields in declared order, little-endian.
pub open spec fn event_fastest_lap_bytes(r: EventFastestLap) -> Seq<u8> {
    seq![r.vehicle_idx]
        + u32_le_bytes(r.lap_time)
}

/// Bytes that equal the encoding of `r` hold `r`.
pub proof fn lemma_event_fastest_lap_bytes(r: EventFastestLap, b: Seq<u8>, off: int)
    requires
        event_fastest_lap_wf(r),
        0 <= off,
        off + 5 <= b.len(),
        b.subrange(off, off + 5) == event_fastest_lap_bytes(r),
    ensures
        event_fastest_lap_bytes(r).len() == 5,
        event_fastest_lap_at(b, off, r),
{
    lemma_event_fastest_lap_bytes_len(r);
    lemma_u32_le_bytes(r.lap_time);
    let q1 = seq![r.vehicle_idx];
    let q2 = q1 + u32_le_bytes(r.lap_time);
    lemma_split_at(b, off, q1, u32_le_bytes(r.lap_time));
    lemma_u8_at(b, off, r.vehicle_idx);
    lemma_u32_at(b, off + 1, r.lap_time);
}


/// The encoding of a writable `r` is as long as the layout.
pub proof fn lemma_event_fastest_lap_bytes_len(r: EventFastestLap)
    requires
        event_fastest_lap_wf(r),
    ensures
        event_fastest_lap_bytes(r).len() == 5,
{
    lemma_u32_le_bytes(r.lap_time);
}

/// `r` can be written in the wire layout: its sequences have their fixed
/// lengths and its characters fit in one byte.
pub open spec fn event_retirement_wf(r: EventRetirement) -> bool {
    true
}

/// The 1 bytes that hold `r`: its fields in declared order, little-endian.
pub open spec fn event_retirement_bytes(r: EventRetirement) -> Seq<u8> {
    seq![r.vehicle_idx]
}

/// Bytes that equal the encoding of `r` hold `r`.
pub proof fn lemma_event_retirement_bytes(r: EventRetirement, b: Seq<u8>, off: int)
    requires
        event_retirement_wf(r),
        0 <= off,
        off + 1 <= b.len(),
        b.subrange(off, off + 1) == event_retirement_bytes(r),
    ensures
        event_retirement_bytes(r).len() == 1,
        event_retirement_at(b, off, r),
{
    lemma_event_retirement_bytes_len(r);
    let q1 = seq![r.vehicle_idx];
    lemma_u8_at(b, off, r.vehicle_idx);
}


/// The encoding of a writable `r` is as long as the layout.
pub proof fn lemma_event_retirement_bytes_len(r: EventRetirement)
    requires
        event_retirement_wf(r),
    ensures
        event_retirement_bytes(r).len() == 1,
{
}

/// `r` can be written in the wire layout: its sequences have their fixed
/// lengths and its characters fit in one byte.
pub open spec fn event_team_mate_in_pits_wf(r: EventTeamMateInPits) -> bool {
    true
}

/// The 1 bytes that hold `r`: its fields in declared order, little-endian.
pub open spec fn event_team_mate_in_pits_bytes(r: EventTeamMateInPits) -> Seq<u8> {
    seq![r.vehicle_idx]
}

/// Bytes that equal the encoding of `r` hold `r`.
pub proof fn lemma_event_team_mate_in_pits_bytes(r: EventTeamMateInPits, b: Seq<u8>, off: int)
    requires
        event_team_mate_in_pits_wf(r),
        0 <= off,
        off + 1 <= b.len(),
        b.subrange(off, off + 1) == event_team_mate_in_pits_bytes(r),
    ensures
        event_team_mate_in_pits_bytes(r).len() == 1,
        event_team_mate_in_pits_at(b, off, r),
{
    lemma_event_team_mate_in_pits_bytes_len(r);
    let q1 = seq![r.vehicle_idx];
    lemma_u8_at(b, off, r.vehicle_idx);
}


/// The encoding of a writable `r` is as long as the layout.
pub proof fn lemma_event_team_mate_in_pits_bytes_len(r: EventTeamMateInPits)
    requires
        event_team_mate_in_pits_wf(r),
    ensures
        event_team_mate_in_pits_bytes(r).len() == 1,
{
}

/// `r` can be written in the wire layout: its sequences have their fixed
/// lengths and its characters fit in one byte.
pub open spec fn event_race_winner_wf(r: EventRaceWinner) -> bool {
    true
}

/// The 1 bytes that hold `r`: its fields in declared order, little-endian.
pub open spec fn event_race_winner_bytes(r: EventRaceWinner) -> Seq<u8> {
    seq![r.vehicle_idx]
}

/// Bytes that equal the encoding of `r` hold `r`.
pub proof fn lemma_event_race_winner_bytes(r: EventRaceWinner, b: Seq<u8>, off: int)
    requires
        event_race_winner_wf(r),
        0 <= off,
        off + 1 <= b.len(),
        b.subrange(off, off + 1) == event_race_winner_bytes(r),
    ensures
        event_race_winner_bytes(r).len() == 1,
        event_race_winner_at(b, off, r),
{
    lemma_event_race_winner_bytes_len(r);
    let q1 = seq![r.vehicle_idx];
    lemma_u8_at(b, off, r.vehicle_idx);
}


/// The encoding of a writable `r` is as long as the layout.
pub proof fn lemma_event_race_winner_bytes_len(r: EventRaceWinner)
    requires
        event_race_winner_wf(r),
    ensures
        event_race_winner_bytes(r).len() == 1,
{
}

/// `r` can be written in the wire layout: its sequences have their fixed
/// lengths and its characters fit in one byte.
pub open spec fn event_penalty_wf(r: EventPenalty) -> bool {
    true
}

/// The 7 bytes that hold `r`: its fields in declared order, little-endian.
pub open spec fn event_penalty_bytes(r: EventPenalty) -> Seq<u8> {
    seq![r.penalty_type]
        + seq![r.infringement_type]
        + seq![r.vehicle_idx]
        + seq![r.other_vehicle_idx]
        + seq![r.time]
        + seq![r.lap_num]
        + seq![r.places_gained]
}

/// Bytes that equal the encoding of `r` hold `r`.
pub proof fn lemma_event_penalty_bytes(r: EventPenalty, b: Seq<u8>, off: int)
    requires
        event_penalty_wf(r),
        0 <= off,
        off + 7 <= b.len(),
        b.subrange(off, off + 7) == event_penalty_bytes(r),
    ensures
        event_penalty_bytes(r).len() == 7,
        event_penalty_at(b, off, r),
{
    lemma_event_penalty_bytes_len(r);
    let q1 = seq![r.penalty_type];
    let q2 = q1 + seq![r.infringement_type];
    let q3 = q2 + seq![r.vehicle_idx];
    let q4 = q3 + seq![r.other_vehicle_idx];
    let q5 = q4 + seq![r.time];
    let q6 = q5 + seq![r.lap_num];
    let q7 = q6 + seq![r.places_gained];
    lemma_split_at(b, off, q6, seq![r.places_gained]);
    lemma_split_at(b, off, q5, seq![r.lap_num]);
    lemma_split_at(b, off, q4, seq![r.time]);
    lemma_split_at(b, off, q3, seq![r.other_vehicle_idx]);
    lemma_split_at(b, off, q2, seq![r.vehicle_idx]);
    lemma_split_at(b, off, q1, seq![r.infringement_type]);
    lemma_u8_at(b, off, r.penalty_type);
    lemma_u8_at(b, off + 1, r.infringement_type);
    lemma_u8_at(b, off + 2, r.vehicle_idx);
    lemma_u8_at(b, off + 3, r.other_vehicle_idx);
    lemma_u8_at(b, off + 4, r.time);
    lemma_u8_at(b, off + 5, r.lap_num);
    lemma_u8_at(b, off + 6, r.places_gained);
}


/// The encoding of a writable `r` is as long as the layout.
pub proof fn lemma_event_penalty_bytes_len(r: EventPenalty)
    requires
        event_penalty_wf(r),
    ensures
        event_penalty_bytes(r).len() == 7,
{
}

/// `r` can be written in the wire layout: its sequences have their fixed
/// lengths and its characters fit in one byte.
pub open spec fn event_speed_trap_wf(r: EventSpeedTrap) -> bool {
    true
}

/// The 12 bytes that hold `r`: its fields in declared order, little-endian.
pub open spec fn event_speed_trap_bytes(r: EventSpeedTrap) -> Seq<u8> {
    seq![r.vehicle_idx]
        + u32_le_bytes(r.speed)
        + seq![r.is_overall_fastest_in_session]
        + seq![r.is_driver_fastest_in_session]
        + seq![r.fastest_vehicle_idx_in_session]
        + u32_le_bytes(r.fastest_speed_in_session)
}

/// Bytes that equal the encoding of `r` hold `r`.
pub proof fn lemma_event_speed_trap_bytes(r: EventSpeedTrap, b: Seq<u8>, off: int)
    requires
        event_speed_trap_wf(r),
        0 <= off,
        off + 12 <= b.len(),
        b.subrange(off, off + 12) == event_speed_trap_bytes(r),
    ensures
        event_speed_trap_bytes(r).len() == 12,
        event_speed_trap_at(b, off, r),
{
    lemma_event_speed_trap_bytes_len(r);
    lemma_u32_le_bytes(r.speed);
    lemma_u32_le_bytes(r.fastest_speed_in_session);
    let q1 = seq![r.vehicle_idx];
    let q2 = q1 + u32_le_bytes(r.speed);
    let q3 = q2 + seq![r.is_overall_fastest_in_session];
    let q4 = q3 + seq![r.is_driver_fastest_in_session];
    let q5 = q4 + seq![r.fastest_vehicle_idx_in_session];
    let q6 = q5 + u32_le_bytes(r.fastest_speed_in_session);
    lemma_split_at(b, off, q5, u32_le_bytes(r.fastest_speed_in_session));
    lemma_split_at(b, off, q4, seq![r.fastest_vehicle_idx_in_session]);
    lemma_split_at(b, off, q3, seq![r.is_driver_fastest_in_session]);
    lemma_split_at(b, off, q2, seq![r.is_overall_fastest_in_session]);
    lemma_split_at(b, off, q1, u32_le_bytes(r.speed));
    lemma_u8_at(b, off, r.vehicle_idx);
    lemma_u32_at(b, off + 1, r.speed);
    lemma_u8_at(b, off + 5, r.is_overall_fastest_in_session);
    lemma_u8_at(b, off + 6, r.is_driver_fastest_in_session);
    lemma_u8_at(b, off + 7, r.fastest_vehicle_idx_in_session);
    lemma_u32_at(b, off + 8, r.fastest_speed_in_session);
}


/// The encoding of a writable `r` is as long as the layout.
pub proof fn lemma_event_speed_trap_bytes_len(r: EventSpeedTrap)
    requires
        event_speed_trap_wf(r),
    ensures
        event_speed_trap_bytes(r).len() == 12,
{
    lemma_u32_le_bytes(r.speed);
    lemma_u32_le_bytes(r.fastest_speed_in_session);
}

/// `r` can be written in the wire layout: its sequences have their fixed
/// lengths and its characters fit in one byte.
pub open spec fn event_start_lights_wf(r: EventStartLights) -> bool {
    true
}

/// The 1 bytes that hold `r`: its fields in declared order, little-endian.
pub open spec fn event_start_lights_bytes(r: EventStartLights) -> Seq<u8> {
    seq![r.num_lights]
}

/// Bytes that equal the encoding of `r` hold `r`.
pub proof fn lemma_event_start_lights_bytes(r: EventStartLights, b: Seq<u8>, off: int)
    requires
        event_start_lights_wf(r),
        0 <= off,
        off + 1 <= b.len(),
        b.subrange(off, off + 1) == event_start_lights_bytes(r),
    ensures
        event_start_lights_bytes(r).len() == 1,
        event_start_lights_at(b, off, r),
{
    lemma_event_start_lights_bytes_len(r);
    let q1 = seq![r.num_lights];
    lemma_u8_at(b, off, r.num_lights);
}


/// The encoding of a writable `r` is as long as the layout.
pub proof fn lemma_event_start_lights_bytes_len(r: EventStartLights)
    requires
        event_start_lights_wf(r),
    ensures
        event_start_lights_bytes(r).len() == 1,
{
}

/// `r` can be written in the wire layout: its sequences have their fixed
/// lengths and its characters fit in one byte.
pub open spec fn event_drive_through_penalty_served_wf(r: EventDriveThroughPenaltyServed) -> bool {
    true
}

/// The 1 bytes that hold `r`: its fields in declared order, little-endian.
pub open spec fn event_drive_through_penalty_served_bytes(r: EventDriveThroughPenaltyServed) -> Seq<u8> {
    seq![r.vehicle_idx]
}

/// Bytes that equal the encoding of `r` hold `r`.
pub proof fn lemma_event_drive_through_penalty_served_bytes(r: EventDriveThroughPenaltyServed, b: Seq<u8>, off: int)
    requires
        event_drive_through_penalty_served_wf(r),
        0 <= off,
        off + 1 <= b.len(),
        b.subrange(off, off + 1) == event_drive_through_penalty_served_bytes(r),
    ensures
        event_drive_through_penalty_served_bytes(r).len() == 1,
        event_drive_through_penalty_served_at(b, off, r),
{
    lemma_event_drive_through_penalty_served_bytes_len(r);
    let q1 = seq![r.vehicle_idx];
    lemma_u8_at(b, off, r.vehicle_idx);
}


/// The encoding of a writable `r` is as long as the layout.
pub proof fn lemma_event_drive_through_penalty_served_bytes_len(r: EventDriveThroughPenaltyServed)
    requires
        event_drive_through_penalty_served_wf(r),
    ensures
        event_drive_through_penalty_served_bytes(r).len() == 1,
{
}

/// `r` can be written in the wire layout: its sequences have their fixed
/// lengths and its characters fit in one byte.
pub open spec fn event_stop_go_penalty_served_wf(r: EventStopGoPenaltyServed) -> bool {
    true
}

/// The 1 bytes that hold `r`: its fields in declared order, little-endian.
pub open spec fn event_stop_go_penalty_served_bytes(r: EventStopGoPenaltyServed) -> Seq<u8> {
    seq![r.vehicle_idx]
}

/// Bytes that equal the encoding of `r` hold `r`.
pub proof fn lemma_event_stop_go_penalty_served_bytes(r: EventStopGoPenaltyServed, b: Seq<u8>, off: int)
    requires
        event_stop_go_penalty_served_wf(r),
        0 <= off,
        off + 1 <= b.len(),
        b.subrange(off, off + 1) == event_stop_go_penalty_served_bytes(r),
    ensures
        event_stop_go_penalty_served_bytes(r).len() == 1,
        event_stop_go_penalty_served_at(b, off, r),
{
    lemma_event_stop_go_penalty_served_bytes_len(r);
    let q1 = seq![r.vehicle_idx];
    lemma_u8_at(b, off, r.vehicle_idx);
}


/// The encoding of a writable `r` is as long as the layout.
pub proof fn lemma_event_stop_go_penalty_served_bytes_len(r: EventStopGoPenaltyServed)
    requires
        event_stop_go_penalty_served_wf(r),
    ensures
        event_stop_go_penalty_served_bytes(r).len() == 1,
{
}

/// `r` can be written in the wire layout: its sequences have their fixed
/// lengths and its characters fit in one byte.
pub open spec fn event_flashback_wf(r: EventFlashback) -> bool {
    true
}

/// The 8 bytes that hold `r`: its fields in declared order, little-endian.
pub open spec fn event_flashback_bytes(r: EventFlashback) -> Seq<u8> {
    u32_le_bytes(r.flashback_frame_identifier)
        + u32_le_bytes(r.flashback_session_time)
}

/// Bytes that equal the encoding of `r` hold `r`.
pub proof fn lemma_event_flashback_bytes(r: EventFlashback, b: Seq<u8>, off: int)
    requires
        event_flashback_wf(r),
        0 <= off,
        off + 8 <= b.len(),
        b.subrange(off, off + 8) == event_flashback_bytes(r),
    ensures
        event_flashback_bytes(r).len() == 8,
        event_flashback_at(b, off, r),
{
    lemma_event_flashback_bytes_len(r);
    lemma_u32_le_bytes(r.flashback_frame_identifier);
    lemma_u32_le_bytes(r.flashback_session_time);
    let q1 = u32_le_bytes(r.flashback_frame_identifier);
    let q2 = q1 + u32_le_bytes(r.flashback_session_time);
    lemma_split_at(b, off, q1, u32_le_bytes(r.flashback_session_time));
    lemma_u32_at(b, off, r.flashback_frame_identifier);
    lemma_u32_at(b, off + 4, r.flashback_session_time);
}


/// The encoding of a writable `r` is as long as the layout.
pub proof fn lemma_event_flashback_bytes_len(r: EventFlashback)
    requires
        event_flashback_wf(r),
    ensures
        event_flashback_bytes(r).len() == 8,
{
    lemma_u32_le_bytes(r.flashback_frame_identifier);
    lemma_u32_le_bytes(r.flashback_session_time);
}

/// `r` can be written in the wire layout: its sequences have their fixed
/// lengths and its characters fit in one byte.
pub open spec fn event_buttons_wf(r: EventButtons) -> bool {
    true
}

/// The 4 bytes that hold `r`: its fields in declared order, little-endian.
pub open spec fn event_buttons_bytes(r: EventButtons) -> Seq<u8> {
    u32_le_bytes(r.button_status)
}

/// Bytes that equal the encoding of `r` hold `r`.
pub proof fn lemma_event_buttons_bytes(r: EventButtons, b: Seq<u8>, off: int)
    requires
        event_buttons_wf(r),
        0 <= off,
        off + 4 <= b.len(),
        b.subrange(off, off + 4) == event_buttons_bytes(r),
    ensures
        event_buttons_bytes(r).len() == 4,
        event_buttons_at(b, off, r),
{
    lemma_event_buttons_bytes_len(r);
    lemma_u32_le_bytes(r.button_status);
    let q1 = u32_le_bytes(r.button_status);
    lemma_u32_at(b, off, r.button_status);
}


/// The encoding of a writable `r` is as long as the layout.
pub proof fn lemma_event_buttons_bytes_len(r: EventButtons)
    requires
        event_buttons_wf(r),
    ensures
        event_buttons_bytes(r).len() == 4,
{
    lemma_u32_le_bytes(r.button_status);
}

/// The encoding of an event payload.
pub open spec fn event_details_bytes(d: EventDataDetails) -> Seq<u8> {
    match d {
        EventDataDetails::FastestLap(x) => event_fastest_lap_bytes(x),
        EventDataDetails::Retirement(x) => event_retirement_bytes(x),
        EventDataDetails::TeamMateInPits(x) => event_team_mate_in_pits_bytes(x),
        EventDataDetails::RaceWinner(x) => event_race_winner_bytes(x),
        EventDataDetails::Penalty(x) => event_penalty_bytes(x),
        EventDataDetails::SpeedTrap(x) => event_speed_trap_bytes(x),
        EventDataDetails::StartLights(x) => event_start_lights_bytes(x),
        EventDataDetails::DriveThroughPenaltyServed(x) => event_drive_through_penalty_served_bytes(x),
        EventDataDetails::StopGoPenaltyServed(x) => event_stop_go_penalty_served_bytes(x),
        EventDataDetails::Flashback(x) => event_flashback_bytes(x),
        EventDataDetails::Buttons(x) => event_buttons_bytes(x),
    }
}

pub proof fn lemma_event_details_bytes_len(d: EventDataDetails)
    ensures
        event_details_bytes(d).len() == d.code().spec_payload_size(),
{
    match d {
        EventDataDetails::FastestLap(x) => lemma_event_fastest_lap_bytes_len(x),
        EventDataDetails::Retirement(x) => lemma_event_retirement_bytes_len(x),
        EventDataDetails::TeamMateInPits(x) => lemma_event_team_mate_in_pits_bytes_len(x),
        EventDataDetails::RaceWinner(x) => lemma_event_race_winner_bytes_len(x),
        EventDataDetails::Penalty(x) => lemma_event_penalty_bytes_len(x),
        EventDataDetails::SpeedTrap(x) => lemma_event_speed_trap_bytes_len(x),
        EventDataDetails::StartLights(x) => lemma_event_start_lights_bytes_len(x),
        EventDataDetails::DriveThroughPenaltyServed(x) => lemma_event_drive_through_penalty_served_bytes_len(x),
        EventDataDetails::StopGoPenaltyServed(x) => lemma_event_stop_go_penalty_served_bytes_len(x),
        EventDataDetails::Flashback(x) => lemma_event_flashback_bytes_len(x),
        EventDataDetails::Buttons(x) => lemma_event_buttons_bytes_len(x),
    }
}

/// Bytes that equal the encoding of payload `d` hold it.
pub proof fn lemma_event_details_bytes(d: EventDataDetails, b: Seq<u8>, off: int)
    requires
        0 <= off,
        off + d.code().spec_payload_size() <= b.len(),
        b.subrange(off, off + d.code().spec_payload_size()) == event_details_bytes(d),
    ensures
        event_details_bytes(d).len() == d.code().spec_payload_size(),
        event_details_at(b, off, d.code(), d),
{
    match d {
        EventDataDetails::FastestLap(x) => lemma_event_fastest_lap_bytes(x, b, off),
        EventDataDetails::Retirement(x) => lemma_event_retirement_bytes(x, b, off),
        EventDataDetails::TeamMateInPits(x) => lemma_event_team_mate_in_pits_bytes(x, b, off),
        EventDataDetails::RaceWinner(x) => lemma_event_race_winner_bytes(x, b, off),
        EventDataDetails::Penalty(x) => lemma_event_penalty_bytes(x, b, off),
        EventDataDetails::SpeedTrap(x) => lemma_event_speed_trap_bytes(x, b, off),
        EventDataDetails::StartLights(x) => lemma_event_start_lights_bytes(x, b, off),
        EventDataDetails::DriveThroughPenaltyServed(x) => lemma_event_drive_through_penalty_served_bytes(
            x,
            b,
            off,
        ),
        EventDataDetails::StopGoPenaltyServed(x) => lemma_event_stop_go_penalty_served_bytes(
            x,
            b,
            off,
        ),
        EventDataDetails::Flashback(x) => lemma_event_flashback_bytes(x, b, off),
        EventDataDetails::Buttons(x) => lemma_event_buttons_bytes(x, b, off),
    }
}

/// `p` can be written in the wire layout: its code names the event whose
/// payload it carries.
pub open spec fn packet_event_data_wf(p: PacketEventData) -> bool {
    event_code_of(p.event_string_code@) == Some(p.event_details.code())
}

/// The bytes that hold event packet `p`: header, code, then payload.
pub open spec fn packet_event_data_bytes(p: PacketEventData) -> Seq<u8> {
    packet_header_bytes(p.header) + p.event_string_code@.map_values(|c: char| c as u8)
        + event_details_bytes(p.event_details)
}

/// Encoding the event packet and decoding the bytes gives it back: the bytes
/// decode to an event packet, and every field of `p` is what they hold.
#[verifier::rlimit(100)]
pub proof fn law_packet_event_data_round_trip(p: PacketEventData)
    requires
        packet_event_data_wf(p),
    ensures
        yields_record(PacketCategory::Event, packet_event_data_bytes(p)),
        packet_event_data_at(packet_event_data_bytes(p), 0, p),
{
    let b = packet_event_data_bytes(p);
    let d = p.event_details;
    let size = d.code().spec_payload_size();
    let code = p.event_string_code@.map_values(|c: char| c as u8);
    lemma_packet_header_bytes_len(p.header);
    lemma_event_details_bytes_len(d);
    assert(p.event_string_code@.len() == 4);
    assert(code.len() == 4);
    assert(b.subrange(0, b.len() as int) =~= b);
    lemma_split_at(b, 0, packet_header_bytes(p.header) + code, event_details_bytes(d));
    lemma_split_at(b, 0, packet_header_bytes(p.header), code);
    lemma_packet_header_bytes(p.header, b, 0);
    lemma_event_details_bytes(d, b, EVENT_PREFIX_SIZE as int);
    assert forall|i: int| 0 <= i < 4 implies #[trigger] p.event_string_code@[i] == b[24 + i] as char by {
        assert(b.subrange(24, 28)[i] == b[24 + i]);
        lemma_char_byte(p.event_string_code@[i]);
    }
    assert(p.event_string_code@ =~= seq![b[24] as char, b[25] as char, b[26] as char, b[27] as char]);
    assert(event_string_code_at(b) =~= p.event_string_code@);
}

/// Encoding the packet in its layout and decoding the bytes gives it back:
/// the bytes are as long as the layout, and every field of `p` is what they
/// hold.
pub proof fn law_packet_car_status_data_round_trip(p: PacketCarStatusData)
    requires
        packet_car_status_data_wf(p),
    ensures
        packet_car_status_data_bytes(p).len() == PACKET_CAR_STATUS_DATA_SIZE,
        packet_car_status_data_at(packet_car_status_data_bytes(p), 0, p),
{
    let b = packet_car_status_data_bytes(p);
    lemma_packet_car_status_data_bytes_len(p);
    assert(b.subrange(0, b.len() as int) =~= b);
    lemma_packet_car_status_data_bytes(p, b, 0);
}

/// Encoding the packet in its layout and decoding the bytes gives it back:
/// the bytes are as long as the layout, and every field of `p` is what they
/// hold.
pub proof fn law_packet_motion_data_round_trip(p: PacketMotionData)
    requires
        packet_motion_data_wf(p),
    ensures
        packet_motion_data_bytes(p).len() == PACKET_MOTION_DATA_SIZE,
        packet_motion_data_at(packet_motion_data_bytes(p), 0, p),
{
    let b = packet_motion_data_bytes(p);
    lemma_packet_motion_data_bytes_len(p);
    assert(b.subrange(0, b.len() as int) =~= b);
    lemma_packet_motion_data_bytes(p, b, 0);
}

/// Encoding the packet in its layout and decoding the bytes gives it back:
/// the bytes are as long as the layout, and every field of `p` is what they
/// hold.
pub proof fn law_packet_final_classification_data_round_trip(p: PacketFinalClassificationData)
    requires
        packet_final_classification_data_wf(p),
    ensures
        packet_final_classification_data_bytes(p).len() == PACKET_FINAL_CLASSIFICATION_DATA_SIZE,
        packet_final_classification_data_at(packet_final_classification_data_bytes(p), 0, p),
{
    let b = packet_final_classification_data_bytes(p);
    lemma_packet_final_classification_data_bytes_len(p);
    assert(b.subrange(0, b.len() as int) =~= b);
    lemma_packet_final_classification_data_bytes(p, b, 0);
}

/// Encoding the packet in its layout and decoding the bytes gives it back:
/// the bytes are as long as the layout, and every field of `p` is what they
/// hold.
pub proof fn law_packet_session_data_round_trip(p: PacketSessionData)
    requires
        packet_session_data_wf(p),
    ensures
        packet_session_data_bytes(p).len() == PACKET_SESSION_DATA_SIZE,
        packet_session_data_at(packet_session_data_bytes(p), 0, p),
{
    let b = packet_session_data_bytes(p);
    lemma_packet_session_data_bytes_len(p);
    assert(b.subrange(0, b.len() as int) =~= b);
    lemma_packet_session_data_bytes(p, b, 0);
}

/// Encoding the packet in its layout and decoding the bytes gives it back:
/// the bytes are as long as the layout, and every field of `p` is what they
/// hold.
pub proof fn law_packet_lap_data_round_trip(p: PacketLapData)
    requires
        packet_lap_data_wf(p),
    ensures
        packet_lap_data_bytes(p).len() == PACKET_LAP_DATA_SIZE,
        packet_lap_data_at(packet_lap_data_bytes(p), 0, p),
{
    let b = packet_lap_data_bytes(p);
    lemma_packet_lap_data_bytes_len(p);
    assert(b.subrange(0, b.len() as int) =~= b);
    lemma_packet_lap_data_bytes(p, b, 0);
}

/// Encoding the packet in its layout and decoding the bytes gives it back:
/// the bytes are as long as the layout, and every field of `p` is what they
/// hold.
pub proof fn law_packet_participants_data_round_trip(p: PacketParticipantsData)
    requires
        packet_participants_data_wf(p),
    ensures
        packet_participants_data_bytes(p).len() == PACKET_PARTICIPANTS_DATA_SIZE,
        packet_participants_data_at(packet_participants_data_bytes(p), 0, p),
{
    let b = packet_participants_data_bytes(p);
    lemma_packet_participants_data_bytes_len(p);
    assert(b.subrange(0, b.len() as int) =~= b);
    lemma_packet_participants_data_bytes(p, b, 0);
}

/// Encoding the packet in its layout and decoding the bytes gives it back:
/// the bytes are as long as the layout, and every field of `p` is what they
/// hold.
pub proof fn law_packet_car_setup_data_round_trip(p: PacketCarSetupData)
    requires
        packet_car_setup_data_wf(p),
    ensures
        packet_car_setup_data_bytes(p).len() == PACKET_CAR_SETUP_DATA_SIZE,
        packet_car_setup_data_at(packet_car_setup_data_bytes(p), 0, p),
{
    let b = packet_car_setup_data_bytes(p);
    lemma_packet_car_setup_data_bytes_len(p);
    assert(b.subrange(0, b.len() as int) =~= b);
    lemma_packet_car_setup_data_bytes(p, b, 0);
}

/// Encoding the packet in its layout and decoding the bytes gives it back:
/// the bytes are as long as the layout, and every field of `p` is what they
/// hold.
pub proof fn law_packet_car_telemetry_data_round_trip(p: PacketCarTelemetryData)
    requires
        packet_car_telemetry_data_wf(p),
    ensures
        packet_car_telemetry_data_bytes(p).len() == PACKET_CAR_TELEMETRY_DATA_SIZE,
        packet_car_telemetry_data_at(packet_car_telemetry_data_bytes(p), 0, p),
{
    let b = packet_car_telemetry_data_bytes(p);
    lemma_packet_car_telemetry_data_bytes_len(p);
    assert(b.subrange(0, b.len() as int) =~= b);
    lemma_packet_car_telemetry_data_bytes(p, b, 0);
}

/// Encoding the packet in its layout and decoding the bytes gives it back:
/// the bytes are as long as the layout, and every field of `p` is what they
/// hold.
pub proof fn law_packet_lobby_info_data_round_trip(p: PacketLobbyInfoData)
    requires
        packet_lobby_info_data_wf(p),
    ensures
        packet_lobby_info_data_bytes(p).len() == PACKET_LOBBY_INFO_DATA_SIZE,
        packet_lobby_info_data_at(packet_lobby_info_data_bytes(p), 0, p),
{
    let b = packet_lobby_info_data_bytes(p);
    lemma_packet_lobby_info_data_bytes_len(p);
    assert(b.subrange(0, b.len() as int) =~= b);
    lemma_packet_lobby_info_data_bytes(p, b, 0);
}

/// Encoding the packet in its layout and decoding the bytes gives it back:
/// the bytes are as long as the layout, and every field of `p` is what they
/// hold.
pub proof fn law_packet_car_damage_data_round_trip(p: PacketCarDamageData)
    requires
        packet_car_damage_data_wf(p),
    ensures
        packet_car_damage_data_bytes(p).len() == PACKET_CAR_DAMAGE_DATA_SIZE,
        packet_car_damage_data_at(packet_car_damage_data_bytes(p), 0, p),
{
    let b = packet_car_damage_data_bytes(p);
    lemma_packet_car_damage_data_bytes_len(p);
    assert(b.subrange(0, b.len() as int) =~= b);
    lemma_packet_car_damage_data_bytes(p, b, 0);
}

/// Encoding the packet in its layout and decoding the bytes gives it back:
/// the bytes are as long as the layout, and every field of `p` is what they
/// hold.
pub proof fn law_packet_session_history_data_round_trip(p: PacketSessionHistoryData)
    requires
        packet_session_history_data_wf(p),
    ensures
        packet_session_history_data_bytes(p).len() == PACKET_SESSION_HISTORY_DATA_SIZE,
        packet_session_history_data_at(packet_session_history_data_bytes(p), 0, p),
{
    let b = packet_session_history_data_bytes(p);
    lemma_packet_session_history_data_bytes_len(p);
    assert(b.subrange(0, b.len() as int) =~= b);
    lemma_packet_session_history_data_bytes(p, b, 0);
}


} // verus!
