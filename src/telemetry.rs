//! The fixed binary record layouts of the telemetry packets, each with the
//! statement of what its bytes hold and a decoder proved against it.
use crate::errors::{TelemetryError, TelemetryErrorKind};
use crate::wire::{
    le_u16, le_u32, le_u64, read_char, read_chars, read_i8, read_u16, read_u32, read_u64, read_u8,
};
use vstd::prelude::*;

pub use crate::dispatch::{PacketCategory, TelemetryTypes};
pub use crate::event::{EventCode, EventDataDetails, PacketEventData};

verus! {

/// The header that starts every packet.
///
/// Floating-point quantities are kept as the bit pattern of their IEEE-754
/// value (`f32::from_bits`, `f64::from_bits` give the number back).
#[derive(Debug, PartialEq)]
pub struct PacketHeader {
    pub packet_format: u16,
    pub game_major_version: u8,
    pub game_minor_version: u8,
    pub packet_version: u8,
    pub packet_id: u8,
    pub session_uid: u64,
    pub session_time: u32,
    pub frame_identifier: u32,
    pub player_car_index: u8,
    pub secondary_player_car_index: u8,
}

pub const PACKET_HEADER_SIZE: usize = 24;

/// `r` is what the 24 bytes of `b` from `off` on hold, field by field in
/// declared order, little-endian and without padding.
pub open spec fn packet_header_at(b: Seq<u8>, off: int, r: PacketHeader) -> bool {
    &&& r.packet_format == le_u16(b, off)
    &&& r.game_major_version == b[off + 2]
    &&& r.game_minor_version == b[off + 3]
    &&& r.packet_version == b[off + 4]
    &&& r.packet_id == b[off + 5]
    &&& r.session_uid == le_u64(b, off + 6)
    &&& r.session_time == le_u32(b, off + 14)
    &&& r.frame_identifier == le_u32(b, off + 18)
    &&& r.player_car_index == b[off + 22]
    &&& r.secondary_player_car_index == b[off + 23]
}

pub fn read_packet_header(b: &[u8], off: usize) -> (r: PacketHeader)
    requires
        off + PACKET_HEADER_SIZE <= b.len(),
    ensures
        packet_header_at(b@, off as int, r),
{
    PacketHeader {
        packet_format: read_u16(b, off),
        game_major_version: read_u8(b, off + 2),
        game_minor_version: read_u8(b, off + 3),
        packet_version: read_u8(b, off + 4),
        packet_id: read_u8(b, off + 5),
        session_uid: read_u64(b, off + 6),
        session_time: read_u32(b, off + 14),
        frame_identifier: read_u32(b, off + 18),
        player_car_index: read_u8(b, off + 22),
        secondary_player_car_index: read_u8(b, off + 23),
    }
}

/// Status of one car.
///
/// Floating-point quantities are kept as the bit pattern of their IEEE-754
/// value (`f32::from_bits`, `f64::from_bits` give the number back).
#[derive(Debug, PartialEq)]
pub struct CarStatusData {
    /// Traction control - 0 = off, 1 = medium, 2 = full
    pub traction_control: u8,
    /// 0 (off) - 1 (on)
    pub anti_lock_brakes: u8,
    /// Fuel mix - 0 = lean, 1 = standard, 2 = rich, 3 = max
    pub fuel_mix: u8,
    /// Front brake bias (percentage)
    pub front_brake_bias: u8,
    /// Pit limiter status - 0 = off, 1 = on
    pub pit_limiter_status: u8,
    /// Current fuel mass
    pub fuel_in_tank: u32,
    /// Fuel capacity
    pub fuel_capacity: u32,
    /// Fuel remaining in terms of laps (value on MFD)
    pub fuel_remaining_laps: u32,
    /// Cars max RPM, point of rev limiter
    pub max_rpm: u16,
    /// Cars idle RPM
    pub idle_rpm: u16,
    /// Maximum number of gears
    pub max_gears: u8,
    /// 0 = not allowed, 1 = allowed
    pub drs_allowed: u8,
    /// 0 = DRS not available, non-zero - DRS will be available
    /// in [X] metres
    pub drs_activation_distance: u16,
    /// F1 Modern - 16 = C5, 17 = C4, 18 = C3, 19 = C2, 20 = C1
    /// 7 = inter, 8 = wet
    /// F1 Classic - 9 = dry, 10 = wet
    /// F2 – 11 = super soft, 12 = soft, 13 = medium, 14 = hard
    /// 15 = wet
    pub actual_tyre_compound: u8,
    /// F1 visual (can be different from actual compound)
    /// 16 = soft, 17 = medium, 18 = hard, 7 = inter, 8 = wet
    /// F1 Classic – same as above
    /// F2 ‘19, 15 = wet, 19 – super soft, 20 = soft
    /// 21 = medium , 22 = hard
    pub visual_tyre_compound: u8,
    /// Age in laps of the current set of tyres
    pub tyres_age_laps: u8,
    /// -1 = invalid/unknown, 0 = none, 1 = green
    /// 2 = blue, 3 = yellow, 4 = red
    pub vehicle_fia_flags: i8,
    /// ERS energy store in Joules
    pub ers_store_energy: u32,
    /// ERS deployment mode, 0 = none, 1 = medium
    /// 2 = hotlap, 3 = overtake
    pub ers_deploy_mode: u8,
    /// ERS energy harvested this lap by MGU-K
    pub ers_harvested_this_lap_mguk: u32,
    /// ERS energy harvested this lap by MGU-H
    pub ers_harvested_this_lap_mguh: u32,
    /// ERS energy deployed this lap
    pub ers_deployed_this_lap: u32,
    /// Whether the car is paused in a network game
    pub network_paused: u8,
}

pub const CAR_STATUS_DATA_SIZE: usize = 47;

/// `r` is what the 47 bytes of `b` from `off` on hold, field by field in
/// declared order, little-endian and without padding.
pub open spec fn car_status_data_at(b: Seq<u8>, off: int, r: CarStatusData) -> bool {
    &&& r.traction_control == b[off]
    &&& r.anti_lock_brakes == b[off + 1]
    &&& r.fuel_mix == b[off + 2]
    &&& r.front_brake_bias == b[off + 3]
    &&& r.pit_limiter_status == b[off + 4]
    &&& r.fuel_in_tank == le_u32(b, off + 5)
    &&& r.fuel_capacity == le_u32(b, off + 9)
    &&& r.fuel_remaining_laps == le_u32(b, off + 13)
    &&& r.max_rpm == le_u16(b, off + 17)
    &&& r.idle_rpm == le_u16(b, off + 19)
    &&& r.max_gears == b[off + 21]
    &&& r.drs_allowed == b[off + 22]
    &&& r.drs_activation_distance == le_u16(b, off + 23)
    &&& r.actual_tyre_compound == b[off + 25]
    &&& r.visual_tyre_compound == b[off + 26]
    &&& r.tyres_age_laps == b[off + 27]
    &&& r.vehicle_fia_flags == b[off + 28] as i8
    &&& r.ers_store_energy == le_u32(b, off + 29)
    &&& r.ers_deploy_mode == b[off + 33]
    &&& r.ers_harvested_this_lap_mguk == le_u32(b, off + 34)
    &&& r.ers_harvested_this_lap_mguh == le_u32(b, off + 38)
    &&& r.ers_deployed_this_lap == le_u32(b, off + 42)
    &&& r.network_paused == b[off + 46]
}

pub fn read_car_status_data(b: &[u8], off: usize) -> (r: CarStatusData)
    requires
        off + CAR_STATUS_DATA_SIZE <= b.len(),
    ensures
        car_status_data_at(b@, off as int, r),
{
    CarStatusData {
        traction_control: read_u8(b, off),
        anti_lock_brakes: read_u8(b, off + 1),
        fuel_mix: read_u8(b, off + 2),
        front_brake_bias: read_u8(b, off + 3),
        pit_limiter_status: read_u8(b, off + 4),
        fuel_in_tank: read_u32(b, off + 5),
        fuel_capacity: read_u32(b, off + 9),
        fuel_remaining_laps: read_u32(b, off + 13),
        max_rpm: read_u16(b, off + 17),
        idle_rpm: read_u16(b, off + 19),
        max_gears: read_u8(b, off + 21),
        drs_allowed: read_u8(b, off + 22),
        drs_activation_distance: read_u16(b, off + 23),
        actual_tyre_compound: read_u8(b, off + 25),
        visual_tyre_compound: read_u8(b, off + 26),
        tyres_age_laps: read_u8(b, off + 27),
        vehicle_fia_flags: read_i8(b, off + 28),
        ers_store_energy: read_u32(b, off + 29),
        ers_deploy_mode: read_u8(b, off + 33),
        ers_harvested_this_lap_mguk: read_u32(b, off + 34),
        ers_harvested_this_lap_mguh: read_u32(b, off + 38),
        ers_deployed_this_lap: read_u32(b, off + 42),
        network_paused: read_u8(b, off + 46),
    }
}

/// Car status packet: the status of every car.
#[derive(Debug, PartialEq)]
pub struct PacketCarStatusData {
    /// Header
    pub header: PacketHeader,
    pub car_status_data: Vec<CarStatusData>,
}

pub const PACKET_CAR_STATUS_DATA_SIZE: usize = 1058;

/// `r` is what the 1058 bytes of `b` from `off` on hold, field by field in
/// declared order, little-endian and without padding.
pub open spec fn packet_car_status_data_at(b: Seq<u8>, off: int, r: PacketCarStatusData) -> bool {
    &&& packet_header_at(b, off, r.header)
    &&& r.car_status_data@.len() == 22
    &&& forall|i: int| 0 <= i < 22 ==> car_status_data_at(b, off + 24 + i * 47, #[trigger] r.car_status_data@[i])
}

pub fn read_packet_car_status_data(b: &[u8], off: usize) -> (r: PacketCarStatusData)
    requires
        off + PACKET_CAR_STATUS_DATA_SIZE <= b.len(),
    ensures
        packet_car_status_data_at(b@, off as int, r),
{
    PacketCarStatusData {
        header: read_packet_header(b, off),
        car_status_data: read_car_status_data_array(b, off + 24),
    }
}

/// Motion of one car.
///
/// Floating-point quantities are kept as the bit pattern of their IEEE-754
/// value (`f32::from_bits`, `f64::from_bits` give the number back).
#[derive(Debug, PartialEq)]
pub struct CarMotionData {
    pub world_position_x: u32,
    pub world_position_y: u32,
    pub world_position_z: u32,
    pub world_velocity_x: u32,
    pub world_velocity_y: u32,
    pub world_velocity_z: u32,
    pub world_forward_dir_x: u16,
    pub world_forward_dir_y: u16,
    pub world_forward_dir_z: u16,
    pub world_right_dir_x: u16,
    pub world_right_dir_y: u16,
    pub world_right_dir_z: u16,
    pub g_force_lateral: u32,
    pub g_force_longitudinal: u32,
    pub g_force_vertical: u32,
    pub yaw: u32,
    pub pitch: u32,
    pub roll: u32,
}

pub const CAR_MOTION_DATA_SIZE: usize = 60;

/// `r` is what the 60 bytes of `b` from `off` on hold, field by field in
/// declared order, little-endian and without padding.
pub open spec fn car_motion_data_at(b: Seq<u8>, off: int, r: CarMotionData) -> bool {
    &&& r.world_position_x == le_u32(b, off)
    &&& r.world_position_y == le_u32(b, off + 4)
    &&& r.world_position_z == le_u32(b, off + 8)
    &&& r.world_velocity_x == le_u32(b, off + 12)
    &&& r.world_velocity_y == le_u32(b, off + 16)
    &&& r.world_velocity_z == le_u32(b, off + 20)
    &&& r.world_forward_dir_x == le_u16(b, off + 24)
    &&& r.world_forward_dir_y == le_u16(b, off + 26)
    &&& r.world_forward_dir_z == le_u16(b, off + 28)
    &&& r.world_right_dir_x == le_u16(b, off + 30)
    &&& r.world_right_dir_y == le_u16(b, off + 32)
    &&& r.world_right_dir_z == le_u16(b, off + 34)
    &&& r.g_force_lateral == le_u32(b, off + 36)
    &&& r.g_force_longitudinal == le_u32(b, off + 40)
    &&& r.g_force_vertical == le_u32(b, off + 44)
    &&& r.yaw == le_u32(b, off + 48)
    &&& r.pitch == le_u32(b, off + 52)
    &&& r.roll == le_u32(b, off + 56)
}

pub fn read_car_motion_data(b: &[u8], off: usize) -> (r: CarMotionData)
    requires
        off + CAR_MOTION_DATA_SIZE <= b.len(),
    ensures
        car_motion_data_at(b@, off as int, r),
{
    CarMotionData {
        world_position_x: read_u32(b, off),
        world_position_y: read_u32(b, off + 4),
        world_position_z: read_u32(b, off + 8),
        world_velocity_x: read_u32(b, off + 12),
        world_velocity_y: read_u32(b, off + 16),
        world_velocity_z: read_u32(b, off + 20),
        world_forward_dir_x: read_u16(b, off + 24),
        world_forward_dir_y: read_u16(b, off + 26),
        world_forward_dir_z: read_u16(b, off + 28),
        world_right_dir_x: read_u16(b, off + 30),
        world_right_dir_y: read_u16(b, off + 32),
        world_right_dir_z: read_u16(b, off + 34),
        g_force_lateral: read_u32(b, off + 36),
        g_force_longitudinal: read_u32(b, off + 40),
        g_force_vertical: read_u32(b, off + 44),
        yaw: read_u32(b, off + 48),
        pitch: read_u32(b, off + 52),
        roll: read_u32(b, off + 56),
    }
}

/// Motion packet: every car's motion, and extra data on the player's car.
///
/// Floating-point quantities are kept as the bit pattern of their IEEE-754
/// value (`f32::from_bits`, `f64::from_bits` give the number back).
#[derive(Debug, PartialEq)]
pub struct PacketMotionData {
    /// Header
    pub header: PacketHeader,
    /// Data for all cars on track
    /// Extra player car ONLY data
    pub car_motion_data: Vec<CarMotionData>,
    /// Note: All wheel arrays have the following order:
    pub suspension_position: [u32; 4],
    /// RL, RR, FL, FR
    pub suspension_velocity: [u32; 4],
    /// RL, RR, FL, FR
    pub suspension_acceleration: [u32; 4],
    /// Speed of each wheel
    pub wheel_speed: [u32; 4],
    /// Slip ratio for each wheel
    pub wheel_slip: [u32; 4],
    /// Velocity in local space
    pub local_velocity_x: u32,
    /// Velocity in local space
    pub local_velocity_y: u32,
    /// Velocity in local space
    pub local_velocity_z: u32,
    /// Angular velocity x-component
    pub angular_velocity_x: u32,
    /// Angular velocity y-component
    pub angular_velocity_y: u32,
    /// Angular velocity z-component
    pub angular_velocity_z: u32,
    /// Angular velocity x-component
    pub angular_acceleration_x: u32,
    /// Angular velocity y-component
    pub angular_acceleration_y: u32,
    /// Angular velocity z-component
    pub angular_acceleration_z: u32,
    /// Current front wheels angle in radians
    pub front_wheels_angle: u32,
}

pub const PACKET_MOTION_DATA_SIZE: usize = 1464;

/// `r` is what the 1464 bytes of `b` from `off` on hold, field by field in
/// declared order, little-endian and without padding.
pub open spec fn packet_motion_data_at(b: Seq<u8>, off: int, r: PacketMotionData) -> bool {
    &&& packet_header_at(b, off, r.header)
    &&& r.car_motion_data@.len() == 22
    &&& forall|i: int| 0 <= i < 22 ==> car_motion_data_at(b, off + 24 + i * 60, #[trigger] r.car_motion_data@[i])
    &&& r.suspension_position@ == seq![le_u32(b, off + 1344), le_u32(b, off + 1348), le_u32(b, off + 1352), le_u32(b, off + 1356)]
    &&& r.suspension_velocity@ == seq![le_u32(b, off + 1360), le_u32(b, off + 1364), le_u32(b, off + 1368), le_u32(b, off + 1372)]
    &&& r.suspension_acceleration@ == seq![le_u32(b, off + 1376), le_u32(b, off + 1380), le_u32(b, off + 1384), le_u32(b, off + 1388)]
    &&& r.wheel_speed@ == seq![le_u32(b, off + 1392), le_u32(b, off + 1396), le_u32(b, off + 1400), le_u32(b, off + 1404)]
    &&& r.wheel_slip@ == seq![le_u32(b, off + 1408), le_u32(b, off + 1412), le_u32(b, off + 1416), le_u32(b, off + 1420)]
    &&& r.local_velocity_x == le_u32(b, off + 1424)
    &&& r.local_velocity_y == le_u32(b, off + 1428)
    &&& r.local_velocity_z == le_u32(b, off + 1432)
    &&& r.angular_velocity_x == le_u32(b, off + 1436)
    &&& r.angular_velocity_y == le_u32(b, off + 1440)
    &&& r.angular_velocity_z == le_u32(b, off + 1444)
    &&& r.angular_acceleration_x == le_u32(b, off + 1448)
    &&& r.angular_acceleration_y == le_u32(b, off + 1452)
    &&& r.angular_acceleration_z == le_u32(b, off + 1456)
    &&& r.front_wheels_angle == le_u32(b, off + 1460)
}

pub fn read_packet_motion_data(b: &[u8], off: usize) -> (r: PacketMotionData)
    requires
        off + PACKET_MOTION_DATA_SIZE <= b.len(),
    ensures
        packet_motion_data_at(b@, off as int, r),
{
    PacketMotionData {
        header: read_packet_header(b, off),
        car_motion_data: read_car_motion_data_array(b, off + 24),
        suspension_position: [read_u32(b, off + 1344), read_u32(b, off + 1348), read_u32(b, off + 1352), read_u32(b, off + 1356)],
        suspension_velocity: [read_u32(b, off + 1360), read_u32(b, off + 1364), read_u32(b, off + 1368), read_u32(b, off + 1372)],
        suspension_acceleration: [read_u32(b, off + 1376), read_u32(b, off + 1380), read_u32(b, off + 1384), read_u32(b, off + 1388)],
        wheel_speed: [read_u32(b, off + 1392), read_u32(b, off + 1396), read_u32(b, off + 1400), read_u32(b, off + 1404)],
        wheel_slip: [read_u32(b, off + 1408), read_u32(b, off + 1412), read_u32(b, off + 1416), read_u32(b, off + 1420)],
        local_velocity_x: read_u32(b, off + 1424),
        local_velocity_y: read_u32(b, off + 1428),
        local_velocity_z: read_u32(b, off + 1432),
        angular_velocity_x: read_u32(b, off + 1436),
        angular_velocity_y: read_u32(b, off + 1440),
        angular_velocity_z: read_u32(b, off + 1444),
        angular_acceleration_x: read_u32(b, off + 1448),
        angular_acceleration_y: read_u32(b, off + 1452),
        angular_acceleration_z: read_u32(b, off + 1456),
        front_wheels_angle: read_u32(b, off + 1460),
    }
}

/// Final classification of one car.
///
/// Floating-point quantities are kept as the bit pattern of their IEEE-754
/// value (`f32::from_bits`, `f64::from_bits` give the number back).
#[derive(Debug, PartialEq)]
pub struct FinalClassificationData {
    /// Finishing position
    pub position: u8,
    /// Number of laps completed
    pub num_laps: u8,
    /// Grid position of the car
    pub grid_position: u8,
    /// Number of points scored
    pub points: u8,
    /// Number of pit stops made
    pub num_pit_stops: u8,
    /// Result status - 0 = invalid, 1 = inactive, 2 = active
    /// 3 = finished, 4 = didnotfinish, 5 = disqualified
    /// 6 = not classified, 7 = retired
    pub result_status: u8,
    /// Best lap time of the session in milliseconds
    pub best_lap_time_in_ms: u32,
    /// Total race time in seconds without penalties
    pub total_race_time: u64,
    /// Total penalties accumulated in seconds
    pub penalties_time: u8,
    /// Number of penalties applied to this driver
    pub num_penalties: u8,
    /// Number of tyres stints up to maximum
    pub num_tyre_stints: u8,
    /// Actual tyres used by this driver
    pub tyre_stints_actual: [u8; 8],
    /// Visual tyres used by this driver
    pub tyre_stints_visual: [u8; 8],
    /// The lap number stints end on
    pub tyre_stints_end_laps: [u8; 8],
}

pub const FINAL_CLASSIFICATION_DATA_SIZE: usize = 45;

/// `r` is what the 45 bytes of `b` from `off` on hold, field by field in
/// declared order, little-endian and without padding.
pub open spec fn final_classification_data_at(b: Seq<u8>, off: int, r: FinalClassificationData) -> bool {
    &&& r.position == b[off]
    &&& r.num_laps == b[off + 1]
    &&& r.grid_position == b[off + 2]
    &&& r.points == b[off + 3]
    &&& r.num_pit_stops == b[off + 4]
    &&& r.result_status == b[off + 5]
    &&& r.best_lap_time_in_ms == le_u32(b, off + 6)
    &&& r.total_race_time == le_u64(b, off + 10)
    &&& r.penalties_time == b[off + 18]
    &&& r.num_penalties == b[off + 19]
    &&& r.num_tyre_stints == b[off + 20]
    &&& r.tyre_stints_actual@ == seq![b[off + 21], b[off + 22], b[off + 23], b[off + 24], b[off + 25], b[off + 26], b[off + 27], b[off + 28]]
    &&& r.tyre_stints_visual@ == seq![b[off + 29], b[off + 30], b[off + 31], b[off + 32], b[off + 33], b[off + 34], b[off + 35], b[off + 36]]
    &&& r.tyre_stints_end_laps@ == seq![b[off + 37], b[off + 38], b[off + 39], b[off + 40], b[off + 41], b[off + 42], b[off + 43], b[off + 44]]
}

pub fn read_final_classification_data(b: &[u8], off: usize) -> (r: FinalClassificationData)
    requires
        off + FINAL_CLASSIFICATION_DATA_SIZE <= b.len(),
    ensures
        final_classification_data_at(b@, off as int, r),
{
    FinalClassificationData {
        position: read_u8(b, off),
        num_laps: read_u8(b, off + 1),
        grid_position: read_u8(b, off + 2),
        points: read_u8(b, off + 3),
        num_pit_stops: read_u8(b, off + 4),
        result_status: read_u8(b, off + 5),
        best_lap_time_in_ms: read_u32(b, off + 6),
        total_race_time: read_u64(b, off + 10),
        penalties_time: read_u8(b, off + 18),
        num_penalties: read_u8(b, off + 19),
        num_tyre_stints: read_u8(b, off + 20),
        tyre_stints_actual: [read_u8(b, off + 21), read_u8(b, off + 22), read_u8(b, off + 23), read_u8(b, off + 24), read_u8(b, off + 25), read_u8(b, off + 26), read_u8(b, off + 27), read_u8(b, off + 28)],
        tyre_stints_visual: [read_u8(b, off + 29), read_u8(b, off + 30), read_u8(b, off + 31), read_u8(b, off + 32), read_u8(b, off + 33), read_u8(b, off + 34), read_u8(b, off + 35), read_u8(b, off + 36)],
        tyre_stints_end_laps: [read_u8(b, off + 37), read_u8(b, off + 38), read_u8(b, off + 39), read_u8(b, off + 40), read_u8(b, off + 41), read_u8(b, off + 42), read_u8(b, off + 43), read_u8(b, off + 44)],
    }
}

/// Final classification packet, sent at the end of a race.
#[derive(Debug, PartialEq)]
pub struct PacketFinalClassificationData {
    pub header: PacketHeader,
    pub num_cars: u8,
    pub classification_data: Vec<FinalClassificationData>,
}

pub const PACKET_FINAL_CLASSIFICATION_DATA_SIZE: usize = 1015;

/// `r` is what the 1015 bytes of `b` from `off` on hold, field by field in
/// declared order, little-endian and without padding.
pub open spec fn packet_final_classification_data_at(b: Seq<u8>, off: int, r: PacketFinalClassificationData) -> bool {
    &&& packet_header_at(b, off, r.header)
    &&& r.num_cars == b[off + 24]
    &&& r.classification_data@.len() == 22
    &&& forall|i: int| 0 <= i < 22 ==> final_classification_data_at(b, off + 25 + i * 45, #[trigger] r.classification_data@[i])
}

pub fn read_packet_final_classification_data(b: &[u8], off: usize) -> (r: PacketFinalClassificationData)
    requires
        off + PACKET_FINAL_CLASSIFICATION_DATA_SIZE <= b.len(),
    ensures
        packet_final_classification_data_at(b@, off as int, r),
{
    PacketFinalClassificationData {
        header: read_packet_header(b, off),
        num_cars: read_u8(b, off + 24),
        classification_data: read_final_classification_data_array(b, off + 25),
    }
}

/// One marshal zone of the track.
///
/// Floating-point quantities are kept as the bit pattern of their IEEE-754
/// value (`f32::from_bits`, `f64::from_bits` give the number back).
#[derive(Debug, PartialEq)]
pub struct MarshalZone {
    /// Fraction (0..1) of way through the lap the marshal zone starts
    pub zone_start: u32,
    /// -1 = invalid/unknown, 0 = none, 1 = green, 2 = blue, 3 = yellow, 4 = red
    pub zone_flag: i8,
}

pub const MARSHAL_ZONE_SIZE: usize = 5;

/// `r` is what the 5 bytes of `b` from `off` on hold, field by field in
/// declared order, little-endian and without padding.
pub open spec fn marshal_zone_at(b: Seq<u8>, off: int, r: MarshalZone) -> bool {
    &&& r.zone_start == le_u32(b, off)
    &&& r.zone_flag == b[off + 4] as i8
}

pub fn read_marshal_zone(b: &[u8], off: usize) -> (r: MarshalZone)
    requires
        off + MARSHAL_ZONE_SIZE <= b.len(),
    ensures
        marshal_zone_at(b@, off as int, r),
{
    MarshalZone {
        zone_start: read_u32(b, off),
        zone_flag: read_i8(b, off + 4),
    }
}

/// One sample of the weather forecast.
#[derive(Debug, PartialEq)]
pub struct WeatherForecastSample {
    /// 0 = unknown, 1 = practice 1, 2 = practice 2, 3 = practice 3, 4 = short practice, 5 = Q1
    /// 6 = Q2, 7 = Q3, 8 = Short Q, 9 = OSQ, 10 = R, 11 = R2
    /// 12 = R3, 13 = Time Trial
    pub session_type: u8,
    /// Time in minutes the forecast is for
    pub time_offset: u8,
    /// Weather - 0 = clear, 1 = light cloud, 2 = overcast
    /// 3 = light rain, 4 = heavy rain, 5 = storm
    pub weather: u8,
    /// Track temp. in degrees Celsius
    pub track_temperature: i8,
    /// Track temp. change – 0 = up, 1 = down, 2 = no change
    pub track_temperature_change: i8,
    /// Air temp. in degrees celsius
    pub air_temperature: i8,
    /// Air temp. change – 0 = up, 1 = down, 2 = no change
    pub air_temperature_change: i8,
    /// Rain percentage (0-100)
    pub rain_percentage: u8,
}

pub const WEATHER_FORECAST_SAMPLE_SIZE: usize = 8;

/// `r` is what the 8 bytes of `b` from `off` on hold, field by field in
/// declared order, little-endian and without padding.
pub open spec fn weather_forecast_sample_at(b: Seq<u8>, off: int, r: WeatherForecastSample) -> bool {
    &&& r.session_type == b[off]
    &&& r.time_offset == b[off + 1]
    &&& r.weather == b[off + 2]
    &&& r.track_temperature == b[off + 3] as i8
    &&& r.track_temperature_change == b[off + 4] as i8
    &&& r.air_temperature == b[off + 5] as i8
    &&& r.air_temperature_change == b[off + 6] as i8
    &&& r.rain_percentage == b[off + 7]
}

pub fn read_weather_forecast_sample(b: &[u8], off: usize) -> (r: WeatherForecastSample)
    requires
        off + WEATHER_FORECAST_SAMPLE_SIZE <= b.len(),
    ensures
        weather_forecast_sample_at(b@, off as int, r),
{
    WeatherForecastSample {
        session_type: read_u8(b, off),
        time_offset: read_u8(b, off + 1),
        weather: read_u8(b, off + 2),
        track_temperature: read_i8(b, off + 3),
        track_temperature_change: read_i8(b, off + 4),
        air_temperature: read_i8(b, off + 5),
        air_temperature_change: read_i8(b, off + 6),
        rain_percentage: read_u8(b, off + 7),
    }
}

/// Session packet: the state of the session.
#[derive(Debug, PartialEq)]
pub struct PacketSessionData {
    /// Header
    pub header: PacketHeader,
    /// Weather - 0 = clear, 1 = light cloud, 2 = overcast
    /// 3 = light rain, 4 = heavy rain, 5 = storm
    pub weather: u8,
    /// Track temp. in degrees celsius
    pub track_temperature: i8,
    /// Air temp. in degrees celsius
    pub air_temperature: i8,
    /// Total number of laps in this race
    pub total_laps: u8,
    /// Track length in metres
    pub track_length: u16,
    /// 0 = unknown, 1 = practice 1, 2 = practice 2, 3 = practice 3, 4 = short practice
    /// 5 = Q1, 6 = Q2, 7 = Q3, 8 = Short Q, 9 = OSQ
    /// 10 = R, 11 = R2, 12 = R3, 13 = Time Trial
    pub session_type: u8,
    /// -1 for unknown, see appendix
    pub track_id: i8,
    /// Formula, 0 = F1 Modern, 1 = F1 Classic, 2 = F2,
    /// 3 = F1 Generic, 4 = Beta, 5 = Supercars
    /// 6 = Esports, 7 = F2 2021
    pub formula: u8,
    /// Time left in session in seconds
    pub session_time_left: u16,
    /// Session duration in seconds
    pub session_duration: u16,
    /// Pit speed limit in kilometres per hour
    pub pit_speed_limit: u8,
    /// Whether the game is paused – network game only
    pub game_paused: u8,
    /// Whether the player is spectating
    pub is_spectating: u8,
    /// Index of the car being spectated
    pub spectator_car_index: u8,
    /// SLI Pro support, 0 = inactive, 1 = active
    pub sli_pro_native_support: u8,
    /// Number of marshal zones to follow
    pub num_marshal_zones: u8,
    /// List of marshal zones – max 21
    pub marshal_zones: Vec<MarshalZone>,
    /// 0 = no safety car, 1 = full
    /// 2 = virtual, 3 = formation lap
    pub safety_car_status: u8,
    /// 0 = offline, 1 = online
    pub network_game: u8,
    /// Number of weather samples to follow
    pub num_weather_forecast_samples: u8,
    /// Array of weather forecast samples
    pub weather_forecast_samples: Vec<WeatherForecastSample>,
    /// 0 = Perfect, 1 = Approximate
    pub forecast_accuracy: u8,
    /// AI Difficulty rating – 0-110
    pub ai_difficulty: u8,
    /// Identifier for season - persists across saves
    pub season_link_identifier: u32,
    /// Identifier for weekend - persists across saves
    pub weekend_link_identifier: u32,
    /// Identifier for session - persists across saves
    pub session_link_identifier: u32,
    /// Ideal lap to pit on for current strategy (player)
    pub pit_stop_window_ideal_lap: u8,
    /// Latest lap to pit on for current strategy (player)
    pub pit_stop_window_latest_lap: u8,
    /// Predicted position to rejoin at (player)
    pub pit_stop_rejoin_position: u8,
    /// 0 = off, 1 = on
    pub steering_assist: u8,
    /// 0 = off, 1 = low, 2 = medium, 3 = high
    pub braking_assist: u8,
    /// 1 = manual, 2 = manual & suggested gear, 3 = auto
    pub gearbox_assist: u8,
    /// 0 = off, 1 = on
    pub pit_assist: u8,
    /// 0 = off, 1 = on
    pub pit_release_assist: u8,
    /// 0 = off, 1 = on
    pub ers_assist: u8,
    /// 0 = off, 1 = on
    pub drs_assist: u8,
    /// 0 = off, 1 = corners only, 2 = full
    pub dynamic_racing_line: u8,
    /// 0 = 2D, 1 = 3D
    pub dynamic_racing_line_type: u8,
    /// Game mode id - see appendix
    pub game_mode: u8,
    /// Ruleset - see appendix
    pub rule_set: u8,
    /// Local time of day - minutes since midnight
    pub time_of_day: u32,
    /// 0 = None, 2 = Very Short, 3 = Short, 4 = Medium
    /// 5 = Medium Long, 6 = Long, 7 = Full
    pub session_length: u8,
}

pub const PACKET_SESSION_DATA_SIZE: usize = 352;

/// `r` is what the 352 bytes of `b` from `off` on hold, field by field in
/// declared order, little-endian and without padding.
pub open spec fn packet_session_data_at(b: Seq<u8>, off: int, r: PacketSessionData) -> bool {
    &&& packet_header_at(b, off, r.header)
    &&& r.weather == b[off + 24]
    &&& r.track_temperature == b[off + 25] as i8
    &&& r.air_temperature == b[off + 26] as i8
    &&& r.total_laps == b[off + 27]
    &&& r.track_length == le_u16(b, off + 28)
    &&& r.session_type == b[off + 30]
    &&& r.track_id == b[off + 31] as i8
    &&& r.formula == b[off + 32]
    &&& r.session_time_left == le_u16(b, off + 33)
    &&& r.session_duration == le_u16(b, off + 35)
    &&& r.pit_speed_limit == b[off + 37]
    &&& r.game_paused == b[off + 38]
    &&& r.is_spectating == b[off + 39]
    &&& r.spectator_car_index == b[off + 40]
    &&& r.sli_pro_native_support == b[off + 41]
    &&& r.num_marshal_zones == b[off + 42]
    &&& r.marshal_zones@.len() == 21
    &&& forall|i: int| 0 <= i < 21 ==> marshal_zone_at(b, off + 43 + i * 5, #[trigger] r.marshal_zones@[i])
    &&& r.safety_car_status == b[off + 148]
    &&& r.network_game == b[off + 149]
    &&& r.num_weather_forecast_samples == b[off + 150]
    &&& r.weather_forecast_samples@.len() == 21
    &&& forall|i: int| 0 <= i < 21 ==> weather_forecast_sample_at(b, off + 151 + i * 8, #[trigger] r.weather_forecast_samples@[i])
    &&& r.forecast_accuracy == b[off + 319]
    &&& r.ai_difficulty == b[off + 320]
    &&& r.season_link_identifier == le_u32(b, off + 321)
    &&& r.weekend_link_identifier == le_u32(b, off + 325)
    &&& r.session_link_identifier == le_u32(b, off + 329)
    &&& r.pit_stop_window_ideal_lap == b[off + 333]
    &&& r.pit_stop_window_latest_lap == b[off + 334]
    &&& r.pit_stop_rejoin_position == b[off + 335]
    &&& r.steering_assist == b[off + 336]
    &&& r.braking_assist == b[off + 337]
    &&& r.gearbox_assist == b[off + 338]
    &&& r.pit_assist == b[off + 339]
    &&& r.pit_release_assist == b[off + 340]
    &&& r.ers_assist == b[off + 341]
    &&& r.drs_assist == b[off + 342]
    &&& r.dynamic_racing_line == b[off + 343]
    &&& r.dynamic_racing_line_type == b[off + 344]
    &&& r.game_mode == b[off + 345]
    &&& r.rule_set == b[off + 346]
    &&& r.time_of_day == le_u32(b, off + 347)
    &&& r.session_length == b[off + 351]
}

pub fn read_packet_session_data(b: &[u8], off: usize) -> (r: PacketSessionData)
    requires
        off + PACKET_SESSION_DATA_SIZE <= b.len(),
    ensures
        packet_session_data_at(b@, off as int, r),
{
    PacketSessionData {
        header: read_packet_header(b, off),
        weather: read_u8(b, off + 24),
        track_temperature: read_i8(b, off + 25),
        air_temperature: read_i8(b, off + 26),
        total_laps: read_u8(b, off + 27),
        track_length: read_u16(b, off + 28),
        session_type: read_u8(b, off + 30),
        track_id: read_i8(b, off + 31),
        formula: read_u8(b, off + 32),
        session_time_left: read_u16(b, off + 33),
        session_duration: read_u16(b, off + 35),
        pit_speed_limit: read_u8(b, off + 37),
        game_paused: read_u8(b, off + 38),
        is_spectating: read_u8(b, off + 39),
        spectator_car_index: read_u8(b, off + 40),
        sli_pro_native_support: read_u8(b, off + 41),
        num_marshal_zones: read_u8(b, off + 42),
        marshal_zones: read_marshal_zone_array(b, off + 43),
        safety_car_status: read_u8(b, off + 148),
        network_game: read_u8(b, off + 149),
        num_weather_forecast_samples: read_u8(b, off + 150),
        weather_forecast_samples: read_weather_forecast_sample_array(b, off + 151),
        forecast_accuracy: read_u8(b, off + 319),
        ai_difficulty: read_u8(b, off + 320),
        season_link_identifier: read_u32(b, off + 321),
        weekend_link_identifier: read_u32(b, off + 325),
        session_link_identifier: read_u32(b, off + 329),
        pit_stop_window_ideal_lap: read_u8(b, off + 333),
        pit_stop_window_latest_lap: read_u8(b, off + 334),
        pit_stop_rejoin_position: read_u8(b, off + 335),
        steering_assist: read_u8(b, off + 336),
        braking_assist: read_u8(b, off + 337),
        gearbox_assist: read_u8(b, off + 338),
        pit_assist: read_u8(b, off + 339),
        pit_release_assist: read_u8(b, off + 340),
        ers_assist: read_u8(b, off + 341),
        drs_assist: read_u8(b, off + 342),
        dynamic_racing_line: read_u8(b, off + 343),
        dynamic_racing_line_type: read_u8(b, off + 344),
        game_mode: read_u8(b, off + 345),
        rule_set: read_u8(b, off + 346),
        time_of_day: read_u32(b, off + 347),
        session_length: read_u8(b, off + 351),
    }
}

/// Lap data of one car.
///
/// Floating-point quantities are kept as the bit pattern of their IEEE-754
/// value (`f32::from_bits`, `f64::from_bits` give the number back).
#[derive(Debug, PartialEq)]
pub struct LapData {
    /// Last lap time in milliseconds
    pub last_lap_time_in_ms: u32,
    /// Current time around the lap in milliseconds
    pub current_lap_time_in_ms: u32,
    /// Sector 1 time in milliseconds
    pub sector1_time_in_ms: u16,
    /// Sector 2 time in milliseconds
    pub sector2_time_in_ms: u16,
    /// Distance vehicle is around current lap in metres – could
    /// be negative if line hasn’t been crossed yet
    pub lap_distance: u32,
    /// Total distance travelled in session in metres – could
    /// be negative if line hasn’t been crossed yet
    pub total_distance: u32,
    /// Delta in seconds for safety car
    pub safety_car_delta: u32,
    /// Car race position
    pub car_position: u8,
    /// Current lap number
    pub current_lap_num: u8,
    /// 0 = none, 1 = pitting, 2 = in pit area
    pub pit_status: u8,
    /// Number of pit stops taken in this race
    pub num_pit_stops: u8,
    /// 0 = sector1, 1 = sector2, 2 = sector3
    pub sector: u8,
    /// Current lap invalid - 0 = valid, 1 = invalid
    pub current_lap_invalid: u8,
    /// Accumulated time penalties in seconds to be added
    pub penalties: u8,
    /// Accumulated number of warnings issued
    pub warnings: u8,
    /// Num drive through pens left to serve
    pub num_unserved_drive_through_pens: u8,
    /// Num stop go pens left to serve
    pub num_unserved_stop_go_pens: u8,
    /// Grid position the vehicle started the race in
    pub grid_position: u8,
    /// Status of driver - 0 = in garage, 1 = flying lap
    /// 2 = in lap, 3 = out lap, 4 = on track
    pub driver_status: u8,
    /// Result status - 0 = invalid, 1 = inactive, 2 = active
    /// 3 = finished, 4 = didnotfinish, 5 = disqualified
    /// 6 = not classified, 7 = retired
    pub result_status: u8,
    /// Pit lane timing, 0 = inactive, 1 = active
    pub pit_lane_timer_active: u8,
    /// If active, the current time spent in the pit lane in ms
    pub pit_lane_time_in_lane_in_ms: u16,
    /// Time of the actual pit stop in ms
    pub pit_stop_timer_in_ms: u16,
    /// Whether the car should serve a penalty at this stop
    pub pit_stop_should_serve_pen: u8,
}

pub const LAP_DATA_SIZE: usize = 43;

/// `r` is what the 43 bytes of `b` from `off` on hold, field by field in
/// declared order, little-endian and without padding.
pub open spec fn lap_data_at(b: Seq<u8>, off: int, r: LapData) -> bool {
    &&& r.last_lap_time_in_ms == le_u32(b, off)
    &&& r.current_lap_time_in_ms == le_u32(b, off + 4)
    &&& r.sector1_time_in_ms == le_u16(b, off + 8)
    &&& r.sector2_time_in_ms == le_u16(b, off + 10)
    &&& r.lap_distance == le_u32(b, off + 12)
    &&& r.total_distance == le_u32(b, off + 16)
    &&& r.safety_car_delta == le_u32(b, off + 20)
    &&& r.car_position == b[off + 24]
    &&& r.current_lap_num == b[off + 25]
    &&& r.pit_status == b[off + 26]
    &&& r.num_pit_stops == b[off + 27]
    &&& r.sector == b[off + 28]
    &&& r.current_lap_invalid == b[off + 29]
    &&& r.penalties == b[off + 30]
    &&& r.warnings == b[off + 31]
    &&& r.num_unserved_drive_through_pens == b[off + 32]
    &&& r.num_unserved_stop_go_pens == b[off + 33]
    &&& r.grid_position == b[off + 34]
    &&& r.driver_status == b[off + 35]
    &&& r.result_status == b[off + 36]
    &&& r.pit_lane_timer_active == b[off + 37]
    &&& r.pit_lane_time_in_lane_in_ms == le_u16(b, off + 38)
    &&& r.pit_stop_timer_in_ms == le_u16(b, off + 40)
    &&& r.pit_stop_should_serve_pen == b[off + 42]
}

pub fn read_lap_data(b: &[u8], off: usize) -> (r: LapData)
    requires
        off + LAP_DATA_SIZE <= b.len(),
    ensures
        lap_data_at(b@, off as int, r),
{
    LapData {
        last_lap_time_in_ms: read_u32(b, off),
        current_lap_time_in_ms: read_u32(b, off + 4),
        sector1_time_in_ms: read_u16(b, off + 8),
        sector2_time_in_ms: read_u16(b, off + 10),
        lap_distance: read_u32(b, off + 12),
        total_distance: read_u32(b, off + 16),
        safety_car_delta: read_u32(b, off + 20),
        car_position: read_u8(b, off + 24),
        current_lap_num: read_u8(b, off + 25),
        pit_status: read_u8(b, off + 26),
        num_pit_stops: read_u8(b, off + 27),
        sector: read_u8(b, off + 28),
        current_lap_invalid: read_u8(b, off + 29),
        penalties: read_u8(b, off + 30),
        warnings: read_u8(b, off + 31),
        num_unserved_drive_through_pens: read_u8(b, off + 32),
        num_unserved_stop_go_pens: read_u8(b, off + 33),
        grid_position: read_u8(b, off + 34),
        driver_status: read_u8(b, off + 35),
        result_status: read_u8(b, off + 36),
        pit_lane_timer_active: read_u8(b, off + 37),
        pit_lane_time_in_lane_in_ms: read_u16(b, off + 38),
        pit_stop_timer_in_ms: read_u16(b, off + 40),
        pit_stop_should_serve_pen: read_u8(b, off + 42),
    }
}

/// Lap data packet: the lap data of every car.
#[derive(Debug, PartialEq)]
pub struct PacketLapData {
    /// Header
    pub header: PacketHeader,
    /// Lap data for all cars on track
    pub lap_data: Vec<LapData>,
    /// Index of Personal Best car in time trial (255 if invalid)
    pub time_trial_pbcar_idx: u8,
    /// Index of Rival car in time trial (255 if invalid)
    pub time_trial_rival_car_idx: u8,
}

pub const PACKET_LAP_DATA_SIZE: usize = 972;

/// `r` is what the 972 bytes of `b` from `off` on hold, field by field in
/// declared order, little-endian and without padding.
pub open spec fn packet_lap_data_at(b: Seq<u8>, off: int, r: PacketLapData) -> bool {
    &&& packet_header_at(b, off, r.header)
    &&& r.lap_data@.len() == 22
    &&& forall|i: int| 0 <= i < 22 ==> lap_data_at(b, off + 24 + i * 43, #[trigger] r.lap_data@[i])
    &&& r.time_trial_pbcar_idx == b[off + 970]
    &&& r.time_trial_rival_car_idx == b[off + 971]
}

pub fn read_packet_lap_data(b: &[u8], off: usize) -> (r: PacketLapData)
    requires
        off + PACKET_LAP_DATA_SIZE <= b.len(),
    ensures
        packet_lap_data_at(b@, off as int, r),
{
    PacketLapData {
        header: read_packet_header(b, off),
        lap_data: read_lap_data_array(b, off + 24),
        time_trial_pbcar_idx: read_u8(b, off + 970),
        time_trial_rival_car_idx: read_u8(b, off + 971),
    }
}

/// One participant of the session.
#[derive(Debug, PartialEq)]
pub struct ParticipantData {
    /// Whether the vehicle is AI (1) or Human (0) controlled
    pub ai_controlled: u8,
    /// Driver id - see appendix, 255 if network human
    pub driver_id: u8,
    /// Network id – unique identifier for network players
    pub network_id: u8,
    /// Team id - see appendix
    pub team_id: u8,
    /// My team flag – 1 = My Team, 0 = otherwise
    pub my_team: u8,
    /// Race number of the car
    pub race_number: u8,
    /// Nationality of the driver
    pub nationality: u8,
    /// Name of participant in UTF-8 format – null terminated
    /// Will be truncated with … (U+2026) if too long
    pub name: Vec<char>,
    /// The player's UDP setting, 0 = restricted, 1 = public
    pub your_telemetry: u8,
}

pub const PARTICIPANT_DATA_SIZE: usize = 56;

/// `r` is what the 56 bytes of `b` from `off` on hold, field by field in
/// declared order, little-endian and without padding.
pub open spec fn participant_data_at(b: Seq<u8>, off: int, r: ParticipantData) -> bool {
    &&& r.ai_controlled == b[off]
    &&& r.driver_id == b[off + 1]
    &&& r.network_id == b[off + 2]
    &&& r.team_id == b[off + 3]
    &&& r.my_team == b[off + 4]
    &&& r.race_number == b[off + 5]
    &&& r.nationality == b[off + 6]
    &&& r.name@.len() == 48
    &&& forall|i: int| 0 <= i < 48 ==> #[trigger] r.name@[i] == b[off + 7 + i] as char
    &&& r.your_telemetry == b[off + 55]
}

pub fn read_participant_data(b: &[u8], off: usize) -> (r: ParticipantData)
    requires
        off + PARTICIPANT_DATA_SIZE <= b.len(),
    ensures
        participant_data_at(b@, off as int, r),
{
    ParticipantData {
        ai_controlled: read_u8(b, off),
        driver_id: read_u8(b, off + 1),
        network_id: read_u8(b, off + 2),
        team_id: read_u8(b, off + 3),
        my_team: read_u8(b, off + 4),
        race_number: read_u8(b, off + 5),
        nationality: read_u8(b, off + 6),
        name: read_chars(b, off + 7, 48),
        your_telemetry: read_u8(b, off + 55),
    }
}

/// Participants packet: the participants of the session.
#[derive(Debug, PartialEq)]
pub struct PacketParticipantsData {
    /// Header
    pub header: PacketHeader,
    /// Number of active cars in the data – should match number of
    /// cars on HUD
    pub num_active_cars: u8,
    pub participants: Vec<ParticipantData>,
}

pub const PACKET_PARTICIPANTS_DATA_SIZE: usize = 1257;

/// `r` is what the 1257 bytes of `b` from `off` on hold, field by field in
/// declared order, little-endian and without padding.
pub open spec fn packet_participants_data_at(b: Seq<u8>, off: int, r: PacketParticipantsData) -> bool {
    &&& packet_header_at(b, off, r.header)
    &&& r.num_active_cars == b[off + 24]
    &&& r.participants@.len() == 22
    &&& forall|i: int| 0 <= i < 22 ==> participant_data_at(b, off + 25 + i * 56, #[trigger] r.participants@[i])
}

pub fn read_packet_participants_data(b: &[u8], off: usize) -> (r: PacketParticipantsData)
    requires
        off + PACKET_PARTICIPANTS_DATA_SIZE <= b.len(),
    ensures
        packet_participants_data_at(b@, off as int, r),
{
    PacketParticipantsData {
        header: read_packet_header(b, off),
        num_active_cars: read_u8(b, off + 24),
        participants: read_participant_data_array(b, off + 25),
    }
}

/// Setup of one car.
///
/// Floating-point quantities are kept as the bit pattern of their IEEE-754
/// value (`f32::from_bits`, `f64::from_bits` give the number back).
#[derive(Debug, PartialEq)]
pub struct CarSetupData {
    /// Front wing aero
    pub front_wing: u8,
    /// Rear wing aero
    pub rear_wing: u8,
    /// Differential adjustment on throttle (percentage)
    pub on_throttle: u8,
    /// Differential adjustment off throttle (percentage)
    pub off_throttle: u8,
    /// Front camber angle (suspension geometry)
    pub front_camber: u32,
    /// Rear camber angle (suspension geometry)
    pub rear_camber: u32,
    /// Front toe angle (suspension geometry)
    pub front_toe: u32,
    /// Rear toe angle (suspension geometry)
    pub rear_toe: u32,
    /// Front suspension
    pub front_suspension: u8,
    /// Rear suspension
    pub rear_suspension: u8,
    /// Front anti-roll bar
    pub front_anti_roll_bar: u8,
    /// Front anti-roll bar
    pub rear_anti_roll_bar: u8,
    /// Front ride height
    pub front_suspension_height: u8,
    /// Rear ride height
    pub rear_suspension_height: u8,
    /// Brake pressure (percentage)
    pub brake_pressure: u8,
    /// Brake bias (percentage)
    pub brake_bias: u8,
    /// Rear left tyre pressure (PSI)
    pub rear_left_tyre_pressure: u32,
    /// Rear right tyre pressure (PSI)
    pub rear_right_tyre_pressure: u32,
    /// Front left tyre pressure (PSI)
    pub front_left_tyre_pressure: u32,
    /// Front right tyre pressure (PSI)
    pub front_right_tyre_pressure: u32,
    /// Ballast
    pub ballast: u8,
    /// Fuel load
    pub fuel_load: u32,
}

pub const CAR_SETUP_DATA_SIZE: usize = 49;

/// `r` is what the 49 bytes of `b` from `off` on hold, field by field in
/// declared order, little-endian and without padding.
pub open spec fn car_setup_data_at(b: Seq<u8>, off: int, r: CarSetupData) -> bool {
    &&& r.front_wing == b[off]
    &&& r.rear_wing == b[off + 1]
    &&& r.on_throttle == b[off + 2]
    &&& r.off_throttle == b[off + 3]
    &&& r.front_camber == le_u32(b, off + 4)
    &&& r.rear_camber == le_u32(b, off + 8)
    &&& r.front_toe == le_u32(b, off + 12)
    &&& r.rear_toe == le_u32(b, off + 16)
    &&& r.front_suspension == b[off + 20]
    &&& r.rear_suspension == b[off + 21]
    &&& r.front_anti_roll_bar == b[off + 22]
    &&& r.rear_anti_roll_bar == b[off + 23]
    &&& r.front_suspension_height == b[off + 24]
    &&& r.rear_suspension_height == b[off + 25]
    &&& r.brake_pressure == b[off + 26]
    &&& r.brake_bias == b[off + 27]
    &&& r.rear_left_tyre_pressure == le_u32(b, off + 28)
    &&& r.rear_right_tyre_pressure == le_u32(b, off + 32)
    &&& r.front_left_tyre_pressure == le_u32(b, off + 36)
    &&& r.front_right_tyre_pressure == le_u32(b, off + 40)
    &&& r.ballast == b[off + 44]
    &&& r.fuel_load == le_u32(b, off + 45)
}

pub fn read_car_setup_data(b: &[u8], off: usize) -> (r: CarSetupData)
    requires
        off + CAR_SETUP_DATA_SIZE <= b.len(),
    ensures
        car_setup_data_at(b@, off as int, r),
{
    CarSetupData {
        front_wing: read_u8(b, off),
        rear_wing: read_u8(b, off + 1),
        on_throttle: read_u8(b, off + 2),
        off_throttle: read_u8(b, off + 3),
        front_camber: read_u32(b, off + 4),
        rear_camber: read_u32(b, off + 8),
        front_toe: read_u32(b, off + 12),
        rear_toe: read_u32(b, off + 16),
        front_suspension: read_u8(b, off + 20),
        rear_suspension: read_u8(b, off + 21),
        front_anti_roll_bar: read_u8(b, off + 22),
        rear_anti_roll_bar: read_u8(b, off + 23),
        front_suspension_height: read_u8(b, off + 24),
        rear_suspension_height: read_u8(b, off + 25),
        brake_pressure: read_u8(b, off + 26),
        brake_bias: read_u8(b, off + 27),
        rear_left_tyre_pressure: read_u32(b, off + 28),
        rear_right_tyre_pressure: read_u32(b, off + 32),
        front_left_tyre_pressure: read_u32(b, off + 36),
        front_right_tyre_pressure: read_u32(b, off + 40),
        ballast: read_u8(b, off + 44),
        fuel_load: read_u32(b, off + 45),
    }
}

/// Car setups packet: the setup of every car.
#[derive(Debug, PartialEq)]
pub struct PacketCarSetupData {
    pub header: PacketHeader,
    pub car_setups: Vec<CarSetupData>,
}

pub const PACKET_CAR_SETUP_DATA_SIZE: usize = 1102;

/// `r` is what the 1102 bytes of `b` from `off` on hold, field by field in
/// declared order, little-endian and without padding.
pub open spec fn packet_car_setup_data_at(b: Seq<u8>, off: int, r: PacketCarSetupData) -> bool {
    &&& packet_header_at(b, off, r.header)
    &&& r.car_setups@.len() == 22
    &&& forall|i: int| 0 <= i < 22 ==> car_setup_data_at(b, off + 24 + i * 49, #[trigger] r.car_setups@[i])
}

pub fn read_packet_car_setup_data(b: &[u8], off: usize) -> (r: PacketCarSetupData)
    requires
        off + PACKET_CAR_SETUP_DATA_SIZE <= b.len(),
    ensures
        packet_car_setup_data_at(b@, off as int, r),
{
    PacketCarSetupData {
        header: read_packet_header(b, off),
        car_setups: read_car_setup_data_array(b, off + 24),
    }
}

/// Telemetry of one car.
///
/// Floating-point quantities are kept as the bit pattern of their IEEE-754
/// value (`f32::from_bits`, `f64::from_bits` give the number back).
#[derive(Debug, PartialEq)]
pub struct CarTelemetryData {
    /// Speed of car in kilometres per hour
    pub speed: u16,
    /// Amount of throttle applied (0.0 to 1.0)
    pub throttle: u32,
    /// Steering (-1.0 (full lock left) to 1.0 (full lock right))
    pub steer: u32,
    /// Amount of brake applied (0.0 to 1.0)
    pub brake: u32,
    /// Amount of clutch applied (0 to 100)
    pub clutch: u8,
    /// Gear selected (1-8, N=0, R=-1)
    pub gear: i8,
    /// Engine RPM
    pub engine_rpm: u16,
    /// 0 = off, 1 = on
    pub drs: u8,
    /// Rev lights indicator (percentage)
    pub rev_lights_percent: u8,
    /// Rev lights (bit 0 = leftmost LED, bit 14 = rightmost LED)
    pub rev_lights_bit_value: u16,
    /// Brakes temperature (celsius)
    pub brakes_temperature: [u16; 4],
    /// Tyres surface temperature (celsius)
    pub tyres_surface_temperature: [u8; 4],
    /// Tyres inner temperature (celsius)
    pub tyres_inner_temperature: [u8; 4],
    /// Engine temperature (celsius)
    pub engine_temperature: u16,
    /// Tyres pressure (PSI)
    pub tyres_pressure: [u32; 4],
    /// Driving surface, see appendices
    pub surface_type: [u8; 4],
}

pub const CAR_TELEMETRY_DATA_SIZE: usize = 60;

/// `r` is what the 60 bytes of `b` from `off` on hold, field by field in
/// declared order, little-endian and without padding.
pub open spec fn car_telemetry_data_at(b: Seq<u8>, off: int, r: CarTelemetryData) -> bool {
    &&& r.speed == le_u16(b, off)
    &&& r.throttle == le_u32(b, off + 2)
    &&& r.steer == le_u32(b, off + 6)
    &&& r.brake == le_u32(b, off + 10)
    &&& r.clutch == b[off + 14]
    &&& r.gear == b[off + 15] as i8
    &&& r.engine_rpm == le_u16(b, off + 16)
    &&& r.drs == b[off + 18]
    &&& r.rev_lights_percent == b[off + 19]
    &&& r.rev_lights_bit_value == le_u16(b, off + 20)
    &&& r.brakes_temperature@ == seq![le_u16(b, off + 22), le_u16(b, off + 24), le_u16(b, off + 26), le_u16(b, off + 28)]
    &&& r.tyres_surface_temperature@ == seq![b[off + 30], b[off + 31], b[off + 32], b[off + 33]]
    &&& r.tyres_inner_temperature@ == seq![b[off + 34], b[off + 35], b[off + 36], b[off + 37]]
    &&& r.engine_temperature == le_u16(b, off + 38)
    &&& r.tyres_pressure@ == seq![le_u32(b, off + 40), le_u32(b, off + 44), le_u32(b, off + 48), le_u32(b, off + 52)]
    &&& r.surface_type@ == seq![b[off + 56], b[off + 57], b[off + 58], b[off + 59]]
}

pub fn read_car_telemetry_data(b: &[u8], off: usize) -> (r: CarTelemetryData)
    requires
        off + CAR_TELEMETRY_DATA_SIZE <= b.len(),
    ensures
        car_telemetry_data_at(b@, off as int, r),
{
    CarTelemetryData {
        speed: read_u16(b, off),
        throttle: read_u32(b, off + 2),
        steer: read_u32(b, off + 6),
        brake: read_u32(b, off + 10),
        clutch: read_u8(b, off + 14),
        gear: read_i8(b, off + 15),
        engine_rpm: read_u16(b, off + 16),
        drs: read_u8(b, off + 18),
        rev_lights_percent: read_u8(b, off + 19),
        rev_lights_bit_value: read_u16(b, off + 20),
        brakes_temperature: [read_u16(b, off + 22), read_u16(b, off + 24), read_u16(b, off + 26), read_u16(b, off + 28)],
        tyres_surface_temperature: [read_u8(b, off + 30), read_u8(b, off + 31), read_u8(b, off + 32), read_u8(b, off + 33)],
        tyres_inner_temperature: [read_u8(b, off + 34), read_u8(b, off + 35), read_u8(b, off + 36), read_u8(b, off + 37)],
        engine_temperature: read_u16(b, off + 38),
        tyres_pressure: [read_u32(b, off + 40), read_u32(b, off + 44), read_u32(b, off + 48), read_u32(b, off + 52)],
        surface_type: [read_u8(b, off + 56), read_u8(b, off + 57), read_u8(b, off + 58), read_u8(b, off + 59)],
    }
}

/// Car telemetry packet: the telemetry of every car.
#[derive(Debug, PartialEq)]
pub struct PacketCarTelemetryData {
    pub header: PacketHeader,
    pub car_telemetry_data: Vec<CarTelemetryData>,
    /// Index of MFD panel open - 255 = MFD closed
    /// Single player, race – 0 = Car setup, 1 = Pits
    /// 2 = Damage, 3 =  Engine, 4 = Temperatures
    /// May vary depending on game mode
    pub mfd_panel_index: u8,
    /// See above
    pub mfd_panel_index_secondary_player: u8,
    /// Suggested gear for the player (1-8)
    /// 0 if no gear suggested
    pub suggested_gear: i8,
}

pub const PACKET_CAR_TELEMETRY_DATA_SIZE: usize = 1347;

/// `r` is what the 1347 bytes of `b` from `off` on hold, field by field in
/// declared order, little-endian and without padding.
pub open spec fn packet_car_telemetry_data_at(b: Seq<u8>, off: int, r: PacketCarTelemetryData) -> bool {
    &&& packet_header_at(b, off, r.header)
    &&& r.car_telemetry_data@.len() == 22
    &&& forall|i: int| 0 <= i < 22 ==> car_telemetry_data_at(b, off + 24 + i * 60, #[trigger] r.car_telemetry_data@[i])
    &&& r.mfd_panel_index == b[off + 1344]
    &&& r.mfd_panel_index_secondary_player == b[off + 1345]
    &&& r.suggested_gear == b[off + 1346] as i8
}

pub fn read_packet_car_telemetry_data(b: &[u8], off: usize) -> (r: PacketCarTelemetryData)
    requires
        off + PACKET_CAR_TELEMETRY_DATA_SIZE <= b.len(),
    ensures
        packet_car_telemetry_data_at(b@, off as int, r),
{
    PacketCarTelemetryData {
        header: read_packet_header(b, off),
        car_telemetry_data: read_car_telemetry_data_array(b, off + 24),
        mfd_panel_index: read_u8(b, off + 1344),
        mfd_panel_index_secondary_player: read_u8(b, off + 1345),
        suggested_gear: read_i8(b, off + 1346),
    }
}

/// One player of a multiplayer lobby.
#[derive(Debug, PartialEq)]
pub struct LobbyInfoData {
    /// Whether the vehicle is AI (1) or Human (0) controlled
    pub ai_controlled: u8,
    /// Team id - see appendix (255 if no team currently selected)
    pub team_id: u8,
    /// Nationality of the driver
    pub nationality: u8,
    /// Name of participant in UTF-8 format – null terminated
    /// Will be truncated with ... (U+2026) if too long
    pub name: Vec<char>,
    /// Car number of the player
    pub car_number: u8,
    /// 0 = not ready, 1 = ready, 2 = spectating
    pub ready_status: u8,
}

pub const LOBBY_INFO_DATA_SIZE: usize = 53;

/// `r` is what the 53 bytes of `b` from `off` on hold, field by field in
/// declared order, little-endian and without padding.
pub open spec fn lobby_info_data_at(b: Seq<u8>, off: int, r: LobbyInfoData) -> bool {
    &&& r.ai_controlled == b[off]
    &&& r.team_id == b[off + 1]
    &&& r.nationality == b[off + 2]
    &&& r.name@.len() == 48
    &&& forall|i: int| 0 <= i < 48 ==> #[trigger] r.name@[i] == b[off + 3 + i] as char
    &&& r.car_number == b[off + 51]
    &&& r.ready_status == b[off + 52]
}

pub fn read_lobby_info_data(b: &[u8], off: usize) -> (r: LobbyInfoData)
    requires
        off + LOBBY_INFO_DATA_SIZE <= b.len(),
    ensures
        lobby_info_data_at(b@, off as int, r),
{
    LobbyInfoData {
        ai_controlled: read_u8(b, off),
        team_id: read_u8(b, off + 1),
        nationality: read_u8(b, off + 2),
        name: read_chars(b, off + 3, 48),
        car_number: read_u8(b, off + 51),
        ready_status: read_u8(b, off + 52),
    }
}

/// Lobby info packet: the players of a multiplayer lobby.
#[derive(Debug, PartialEq)]
pub struct PacketLobbyInfoData {
    pub header: PacketHeader,
    pub num_players: u8,
    pub lobby_players: Vec<LobbyInfoData>,
}

pub const PACKET_LOBBY_INFO_DATA_SIZE: usize = 1191;

/// `r` is what the 1191 bytes of `b` from `off` on hold, field by field in
/// declared order, little-endian and without padding.
pub open spec fn packet_lobby_info_data_at(b: Seq<u8>, off: int, r: PacketLobbyInfoData) -> bool {
    &&& packet_header_at(b, off, r.header)
    &&& r.num_players == b[off + 24]
    &&& r.lobby_players@.len() == 22
    &&& forall|i: int| 0 <= i < 22 ==> lobby_info_data_at(b, off + 25 + i * 53, #[trigger] r.lobby_players@[i])
}

pub fn read_packet_lobby_info_data(b: &[u8], off: usize) -> (r: PacketLobbyInfoData)
    requires
        off + PACKET_LOBBY_INFO_DATA_SIZE <= b.len(),
    ensures
        packet_lobby_info_data_at(b@, off as int, r),
{
    PacketLobbyInfoData {
        header: read_packet_header(b, off),
        num_players: read_u8(b, off + 24),
        lobby_players: read_lobby_info_data_array(b, off + 25),
    }
}

/// Damage of one car.
///
/// Floating-point quantities are kept as the bit pattern of their IEEE-754
/// value (`f32::from_bits`, `f64::from_bits` give the number back).
#[derive(Debug, PartialEq)]
pub struct CarDamageData {
    /// Tyre wear (percentage)
    pub tyres_wear: [u32; 4],
    /// Tyre damage (percentage)
    pub tyres_damage: [u8; 4],
    /// Brakes damage (percentage)
    pub brakes_damage: [u8; 4],
    /// Front left wing damage (percentage)
    pub front_left_wing_damage: u8,
    /// Front right wing damage (percentage)
    pub front_right_wing_damage: u8,
    /// Rear wing damage (percentage)
    pub rear_wing_damage: u8,
    /// Floor damage (percentage)
    pub floor_damage: u8,
    /// Diffuser damage (percentage)
    pub diffuser_damage: u8,
    /// Sidepod damage (percentage)
    pub sidepod_damage: u8,
    /// Indicator for DRS fault, 0 = OK, 1 = fault
    pub drs_fault: u8,
    /// Indicator for ERS fault, 0 = OK, 1 = fault
    pub ers_fault: u8,
    /// Gear box damage (percentage)
    pub gear_box_damage: u8,
    /// Engine damage (percentage)
    pub engine_damage: u8,
    /// Engine wear MGU-H (percentage)
    pub engine_mguhwear: u8,
    /// Engine wear ES (percentage)
    pub engine_eswear: u8,
    /// Engine wear CE (percentage)
    pub engine_cewear: u8,
    /// Engine wear ICE (percentage)
    pub engine_icewear: u8,
    /// Engine wear MGU-K (percentage)
    pub engine_mgukwear: u8,
    /// Engine wear TC (percentage)
    pub engine_tcwear: u8,
    /// Engine blown, 0 = OK, 1 = fault
    pub engine_blown: u8,
    /// Engine seized, 0 = OK, 1 = fault
    pub engine_seized: u8,
}

pub const CAR_DAMAGE_DATA_SIZE: usize = 42;

/// `r` is what the 42 bytes of `b` from `off` on hold, field by field in
/// declared order, little-endian and without padding.
pub open spec fn car_damage_data_at(b: Seq<u8>, off: int, r: CarDamageData) -> bool {
    &&& r.tyres_wear@ == seq![le_u32(b, off), le_u32(b, off + 4), le_u32(b, off + 8), le_u32(b, off + 12)]
    &&& r.tyres_damage@ == seq![b[off + 16], b[off + 17], b[off + 18], b[off + 19]]
    &&& r.brakes_damage@ == seq![b[off + 20], b[off + 21], b[off + 22], b[off + 23]]
    &&& r.front_left_wing_damage == b[off + 24]
    &&& r.front_right_wing_damage == b[off + 25]
    &&& r.rear_wing_damage == b[off + 26]
    &&& r.floor_damage == b[off + 27]
    &&& r.diffuser_damage == b[off + 28]
    &&& r.sidepod_damage == b[off + 29]
    &&& r.drs_fault == b[off + 30]
    &&& r.ers_fault == b[off + 31]
    &&& r.gear_box_damage == b[off + 32]
    &&& r.engine_damage == b[off + 33]
    &&& r.engine_mguhwear == b[off + 34]
    &&& r.engine_eswear == b[off + 35]
    &&& r.engine_cewear == b[off + 36]
    &&& r.engine_icewear == b[off + 37]
    &&& r.engine_mgukwear == b[off + 38]
    &&& r.engine_tcwear == b[off + 39]
    &&& r.engine_blown == b[off + 40]
    &&& r.engine_seized == b[off + 41]
}

pub fn read_car_damage_data(b: &[u8], off: usize) -> (r: CarDamageData)
    requires
        off + CAR_DAMAGE_DATA_SIZE <= b.len(),
    ensures
        car_damage_data_at(b@, off as int, r),
{
    CarDamageData {
        tyres_wear: [read_u32(b, off), read_u32(b, off + 4), read_u32(b, off + 8), read_u32(b, off + 12)],
        tyres_damage: [read_u8(b, off + 16), read_u8(b, off + 17), read_u8(b, off + 18), read_u8(b, off + 19)],
        brakes_damage: [read_u8(b, off + 20), read_u8(b, off + 21), read_u8(b, off + 22), read_u8(b, off + 23)],
        front_left_wing_damage: read_u8(b, off + 24),
        front_right_wing_damage: read_u8(b, off + 25),
        rear_wing_damage: read_u8(b, off + 26),
        floor_damage: read_u8(b, off + 27),
        diffuser_damage: read_u8(b, off + 28),
        sidepod_damage: read_u8(b, off + 29),
        drs_fault: read_u8(b, off + 30),
        ers_fault: read_u8(b, off + 31),
        gear_box_damage: read_u8(b, off + 32),
        engine_damage: read_u8(b, off + 33),
        engine_mguhwear: read_u8(b, off + 34),
        engine_eswear: read_u8(b, off + 35),
        engine_cewear: read_u8(b, off + 36),
        engine_icewear: read_u8(b, off + 37),
        engine_mgukwear: read_u8(b, off + 38),
        engine_tcwear: read_u8(b, off + 39),
        engine_blown: read_u8(b, off + 40),
        engine_seized: read_u8(b, off + 41),
    }
}

/// Car damage packet: the damage of every car.
#[derive(Debug, PartialEq)]
pub struct PacketCarDamageData {
    pub header: PacketHeader,
    pub car_damage_data: Vec<CarDamageData>,
}

pub const PACKET_CAR_DAMAGE_DATA_SIZE: usize = 948;

/// `r` is what the 948 bytes of `b` from `off` on hold, field by field in
/// declared order, little-endian and without padding.
pub open spec fn packet_car_damage_data_at(b: Seq<u8>, off: int, r: PacketCarDamageData) -> bool {
    &&& packet_header_at(b, off, r.header)
    &&& r.car_damage_data@.len() == 22
    &&& forall|i: int| 0 <= i < 22 ==> car_damage_data_at(b, off + 24 + i * 42, #[trigger] r.car_damage_data@[i])
}

pub fn read_packet_car_damage_data(b: &[u8], off: usize) -> (r: PacketCarDamageData)
    requires
        off + PACKET_CAR_DAMAGE_DATA_SIZE <= b.len(),
    ensures
        packet_car_damage_data_at(b@, off as int, r),
{
    PacketCarDamageData {
        header: read_packet_header(b, off),
        car_damage_data: read_car_damage_data_array(b, off + 24),
    }
}

/// History of one lap.
#[derive(Debug, PartialEq)]
pub struct LapHistoryData {
    /// Lap time in milliseconds
    pub lap_time_in_ms: u32,
    /// Sector 1 time in milliseconds
    pub sector1_time_in_ms: u16,
    /// Sector 2 time in milliseconds
    pub sector2_time_in_ms: u16,
    /// Sector 3 time in milliseconds
    pub sector3_time_in_ms: u16,
    /// 0x01 bit set-lap valid,      0x02 bit set-sector 1 valid
    /// 0x04 bit set-sector 2 valid, 0x08 bit set-sector 3 valid
    pub lap_valid_bit_flags: u8,
}

pub const LAP_HISTORY_DATA_SIZE: usize = 11;

/// `r` is what the 11 bytes of `b` from `off` on hold, field by field in
/// declared order, little-endian and without padding.
pub open spec fn lap_history_data_at(b: Seq<u8>, off: int, r: LapHistoryData) -> bool {
    &&& r.lap_time_in_ms == le_u32(b, off)
    &&& r.sector1_time_in_ms == le_u16(b, off + 4)
    &&& r.sector2_time_in_ms == le_u16(b, off + 6)
    &&& r.sector3_time_in_ms == le_u16(b, off + 8)
    &&& r.lap_valid_bit_flags == b[off + 10]
}

pub fn read_lap_history_data(b: &[u8], off: usize) -> (r: LapHistoryData)
    requires
        off + LAP_HISTORY_DATA_SIZE <= b.len(),
    ensures
        lap_history_data_at(b@, off as int, r),
{
    LapHistoryData {
        lap_time_in_ms: read_u32(b, off),
        sector1_time_in_ms: read_u16(b, off + 4),
        sector2_time_in_ms: read_u16(b, off + 6),
        sector3_time_in_ms: read_u16(b, off + 8),
        lap_valid_bit_flags: read_u8(b, off + 10),
    }
}

/// History of one tyre stint.
#[derive(Debug, PartialEq)]
pub struct TyreStintHistoryData {
    /// Lap the tyre usage ends on (255 of current tyre)
    pub end_lap: u8,
    /// Actual tyres used by this driver
    pub tyre_actual_compound: u8,
    /// Visual tyres used by this driver
    pub tyre_visual_compound: u8,
}

pub const TYRE_STINT_HISTORY_DATA_SIZE: usize = 3;

/// `r` is what the 3 bytes of `b` from `off` on hold, field by field in
/// declared order, little-endian and without padding.
pub open spec fn tyre_stint_history_data_at(b: Seq<u8>, off: int, r: TyreStintHistoryData) -> bool {
    &&& r.end_lap == b[off]
    &&& r.tyre_actual_compound == b[off + 1]
    &&& r.tyre_visual_compound == b[off + 2]
}

pub fn read_tyre_stint_history_data(b: &[u8], off: usize) -> (r: TyreStintHistoryData)
    requires
        off + TYRE_STINT_HISTORY_DATA_SIZE <= b.len(),
    ensures
        tyre_stint_history_data_at(b@, off as int, r),
{
    TyreStintHistoryData {
        end_lap: read_u8(b, off),
        tyre_actual_compound: read_u8(b, off + 1),
        tyre_visual_compound: read_u8(b, off + 2),
    }
}

/// Session history packet: the lap and tyre history of one car.
#[derive(Debug, PartialEq)]
pub struct PacketSessionHistoryData {
    pub header: PacketHeader,
    /// Index of the car this lap data relates to
    pub car_idx: u8,
    /// Num laps in the data (including current partial lap)
    pub num_laps: u8,
    /// Number of tyre stints in the data
    pub num_tyre_stints: u8,
    /// Lap the best lap time was achieved on
    pub best_lap_time_lap_num: u8,
    /// Lap the best Sector 1 time was achieved on
    pub best_sector1_lap_num: u8,
    /// Lap the best Sector 2 time was achieved on
    pub best_sector2_lap_num: u8,
    /// Lap the best Sector 3 time was achieved on
    pub best_sector3_lap_num: u8,
    pub lap_history_data: Vec<LapHistoryData>,
    pub tyre_stint_history_data: Vec<TyreStintHistoryData>,
}

pub const PACKET_SESSION_HISTORY_DATA_SIZE: usize = 1155;

/// `r` is what the 1155 bytes of `b` from `off` on hold, field by field in
/// declared order, little-endian and without padding.
pub open spec fn packet_session_history_data_at(b: Seq<u8>, off: int, r: PacketSessionHistoryData) -> bool {
    &&& packet_header_at(b, off, r.header)
    &&& r.car_idx == b[off + 24]
    &&& r.num_laps == b[off + 25]
    &&& r.num_tyre_stints == b[off + 26]
    &&& r.best_lap_time_lap_num == b[off + 27]
    &&& r.best_sector1_lap_num == b[off + 28]
    &&& r.best_sector2_lap_num == b[off + 29]
    &&& r.best_sector3_lap_num == b[off + 30]
    &&& r.lap_history_data@.len() == 100
    &&& forall|i: int| 0 <= i < 100 ==> lap_history_data_at(b, off + 31 + i * 11, #[trigger] r.lap_history_data@[i])
    &&& r.tyre_stint_history_data@.len() == 8
    &&& forall|i: int| 0 <= i < 8 ==> tyre_stint_history_data_at(b, off + 1131 + i * 3, #[trigger] r.tyre_stint_history_data@[i])
}

pub fn read_packet_session_history_data(b: &[u8], off: usize) -> (r: PacketSessionHistoryData)
    requires
        off + PACKET_SESSION_HISTORY_DATA_SIZE <= b.len(),
    ensures
        packet_session_history_data_at(b@, off as int, r),
{
    PacketSessionHistoryData {
        header: read_packet_header(b, off),
        car_idx: read_u8(b, off + 24),
        num_laps: read_u8(b, off + 25),
        num_tyre_stints: read_u8(b, off + 26),
        best_lap_time_lap_num: read_u8(b, off + 27),
        best_sector1_lap_num: read_u8(b, off + 28),
        best_sector2_lap_num: read_u8(b, off + 29),
        best_sector3_lap_num: read_u8(b, off + 30),
        lap_history_data: read_lap_history_data_array(b, off + 31),
        tyre_stint_history_data: read_tyre_stint_history_data_array(b, off + 1131),
    }
}

/// Payload of the fastest lap event.
///
/// Floating-point quantities are kept as the bit pattern of their IEEE-754
/// value (`f32::from_bits`, `f64::from_bits` give the number back).
#[derive(Debug, PartialEq)]
pub struct EventFastestLap {
    /// Vehicle index of car achieving fastest lap
    pub vehicle_idx: u8,
    /// Lap time is in seconds
    pub lap_time: u32,
}

pub const EVENT_FASTEST_LAP_SIZE: usize = 5;

/// `r` is what the 5 bytes of `b` from `off` on hold, field by field in
/// declared order, little-endian and without padding.
pub open spec fn event_fastest_lap_at(b: Seq<u8>, off: int, r: EventFastestLap) -> bool {
    &&& r.vehicle_idx == b[off]
    &&& r.lap_time == le_u32(b, off + 1)
}

pub fn read_event_fastest_lap(b: &[u8], off: usize) -> (r: EventFastestLap)
    requires
        off + EVENT_FASTEST_LAP_SIZE <= b.len(),
    ensures
        event_fastest_lap_at(b@, off as int, r),
{
    EventFastestLap {
        vehicle_idx: read_u8(b, off),
        lap_time: read_u32(b, off + 1),
    }
}

/// Payload of the retirement event.
#[derive(Debug, PartialEq)]
pub struct EventRetirement {
    /// Vehicle index of car retiring
    pub vehicle_idx: u8,
}

pub const EVENT_RETIREMENT_SIZE: usize = 1;

/// `r` is what the 1 bytes of `b` from `off` on hold, field by field in
/// declared order, little-endian and without padding.
pub open spec fn event_retirement_at(b: Seq<u8>, off: int, r: EventRetirement) -> bool {
    &&& r.vehicle_idx == b[off]
}

pub fn read_event_retirement(b: &[u8], off: usize) -> (r: EventRetirement)
    requires
        off + EVENT_RETIREMENT_SIZE <= b.len(),
    ensures
        event_retirement_at(b@, off as int, r),
{
    EventRetirement {
        vehicle_idx: read_u8(b, off),
    }
}

/// Payload of the team mate in pits event.
#[derive(Debug, PartialEq)]
pub struct EventTeamMateInPits {
    /// Vehicle index of team mate
    pub vehicle_idx: u8,
}

pub const EVENT_TEAM_MATE_IN_PITS_SIZE: usize = 1;

/// `r` is what the 1 bytes of `b` from `off` on hold, field by field in
/// declared order, little-endian and without padding.
pub open spec fn event_team_mate_in_pits_at(b: Seq<u8>, off: int, r: EventTeamMateInPits) -> bool {
    &&& r.vehicle_idx == b[off]
}

pub fn read_event_team_mate_in_pits(b: &[u8], off: usize) -> (r: EventTeamMateInPits)
    requires
        off + EVENT_TEAM_MATE_IN_PITS_SIZE <= b.len(),
    ensures
        event_team_mate_in_pits_at(b@, off as int, r),
{
    EventTeamMateInPits {
        vehicle_idx: read_u8(b, off),
    }
}

/// Payload of the race winner event.
#[derive(Debug, PartialEq)]
pub struct EventRaceWinner {
    /// Vehicle index of the race winner
    pub vehicle_idx: u8,
}

pub const EVENT_RACE_WINNER_SIZE: usize = 1;

/// `r` is what the 1 bytes of `b` from `off` on hold, field by field in
/// declared order, little-endian and without padding.
pub open spec fn event_race_winner_at(b: Seq<u8>, off: int, r: EventRaceWinner) -> bool {
    &&& r.vehicle_idx == b[off]
}

pub fn read_event_race_winner(b: &[u8], off: usize) -> (r: EventRaceWinner)
    requires
        off + EVENT_RACE_WINNER_SIZE <= b.len(),
    ensures
        event_race_winner_at(b@, off as int, r),
{
    EventRaceWinner {
        vehicle_idx: read_u8(b, off),
    }
}

/// Payload of the penalty event.
#[derive(Debug, PartialEq)]
pub struct EventPenalty {
    /// Penalty type – see Appendices
    pub penalty_type: u8,
    /// Infringement type – see Appendices
    pub infringement_type: u8,
    /// Vehicle index of the car the penalty is applied to
    pub vehicle_idx: u8,
    /// Vehicle index of the other car involved
    pub other_vehicle_idx: u8,
    /// Time gained, or time spent doing action in seconds
    pub time: u8,
    /// Lap the penalty occurred on
    pub lap_num: u8,
    /// Number of places gained by this
    pub places_gained: u8,
}

pub const EVENT_PENALTY_SIZE: usize = 7;

/// `r` is what the 7 bytes of `b` from `off` on hold, field by field in
/// declared order, little-endian and without padding.
pub open spec fn event_penalty_at(b: Seq<u8>, off: int, r: EventPenalty) -> bool {
    &&& r.penalty_type == b[off]
    &&& r.infringement_type == b[off + 1]
    &&& r.vehicle_idx == b[off + 2]
    &&& r.other_vehicle_idx == b[off + 3]
    &&& r.time == b[off + 4]
    &&& r.lap_num == b[off + 5]
    &&& r.places_gained == b[off + 6]
}

pub fn read_event_penalty(b: &[u8], off: usize) -> (r: EventPenalty)
    requires
        off + EVENT_PENALTY_SIZE <= b.len(),
    ensures
        event_penalty_at(b@, off as int, r),
{
    EventPenalty {
        penalty_type: read_u8(b, off),
        infringement_type: read_u8(b, off + 1),
        vehicle_idx: read_u8(b, off + 2),
        other_vehicle_idx: read_u8(b, off + 3),
        time: read_u8(b, off + 4),
        lap_num: read_u8(b, off + 5),
        places_gained: read_u8(b, off + 6),
    }
}

/// Payload of the speed trap event.
///
/// Floating-point quantities are kept as the bit pattern of their IEEE-754
/// value (`f32::from_bits`, `f64::from_bits` give the number back).
#[derive(Debug, PartialEq)]
pub struct EventSpeedTrap {
    /// Vehicle index of the vehicle triggering speed trap
    pub vehicle_idx: u8,
    /// Top speed achieved in kilometres per hour
    pub speed: u32,
    /// Overall fastest speed in session = 1, otherwise 0
    pub is_overall_fastest_in_session: u8,
    /// Fastest speed for driver in session = 1, otherwise 0
    pub is_driver_fastest_in_session: u8,
    /// Vehicle index of the vehicle that is the fastest
    /// in this session
    pub fastest_vehicle_idx_in_session: u8,
    /// Speed of the vehicle that is the fastest
    /// in this session
    pub fastest_speed_in_session: u32,
}

pub const EVENT_SPEED_TRAP_SIZE: usize = 12;

/// `r` is what the 12 bytes of `b` from `off` on hold, field by field in
/// declared order, little-endian and without padding.
pub open spec fn event_speed_trap_at(b: Seq<u8>, off: int, r: EventSpeedTrap) -> bool {
    &&& r.vehicle_idx == b[off]
    &&& r.speed == le_u32(b, off + 1)
    &&& r.is_overall_fastest_in_session == b[off + 5]
    &&& r.is_driver_fastest_in_session == b[off + 6]
    &&& r.fastest_vehicle_idx_in_session == b[off + 7]
    &&& r.fastest_speed_in_session == le_u32(b, off + 8)
}

pub fn read_event_speed_trap(b: &[u8], off: usize) -> (r: EventSpeedTrap)
    requires
        off + EVENT_SPEED_TRAP_SIZE <= b.len(),
    ensures
        event_speed_trap_at(b@, off as int, r),
{
    EventSpeedTrap {
        vehicle_idx: read_u8(b, off),
        speed: read_u32(b, off + 1),
        is_overall_fastest_in_session: read_u8(b, off + 5),
        is_driver_fastest_in_session: read_u8(b, off + 6),
        fastest_vehicle_idx_in_session: read_u8(b, off + 7),
        fastest_speed_in_session: read_u32(b, off + 8),
    }
}

/// Payload of the start lights event.
#[derive(Debug, PartialEq)]
pub struct EventStartLights {
    /// Number of lights showing
    pub num_lights: u8,
}

pub const EVENT_START_LIGHTS_SIZE: usize = 1;

/// `r` is what the 1 bytes of `b` from `off` on hold, field by field in
/// declared order, little-endian and without padding.
pub open spec fn event_start_lights_at(b: Seq<u8>, off: int, r: EventStartLights) -> bool {
    &&& r.num_lights == b[off]
}

pub fn read_event_start_lights(b: &[u8], off: usize) -> (r: EventStartLights)
    requires
        off + EVENT_START_LIGHTS_SIZE <= b.len(),
    ensures
        event_start_lights_at(b@, off as int, r),
{
    EventStartLights {
        num_lights: read_u8(b, off),
    }
}

/// Payload of the drive through served event.
#[derive(Debug, PartialEq)]
pub struct EventDriveThroughPenaltyServed {
    /// Vehicle index of the vehicle serving drive through
    pub vehicle_idx: u8,
}

pub const EVENT_DRIVE_THROUGH_PENALTY_SERVED_SIZE: usize = 1;

/// `r` is what the 1 bytes of `b` from `off` on hold, field by field in
/// declared order, little-endian and without padding.
pub open spec fn event_drive_through_penalty_served_at(b: Seq<u8>, off: int, r: EventDriveThroughPenaltyServed) -> bool {
    &&& r.vehicle_idx == b[off]
}

pub fn read_event_drive_through_penalty_served(b: &[u8], off: usize) -> (r: EventDriveThroughPenaltyServed)
    requires
        off + EVENT_DRIVE_THROUGH_PENALTY_SERVED_SIZE <= b.len(),
    ensures
        event_drive_through_penalty_served_at(b@, off as int, r),
{
    EventDriveThroughPenaltyServed {
        vehicle_idx: read_u8(b, off),
    }
}

/// Payload of the stop go served event.
#[derive(Debug, PartialEq)]
pub struct EventStopGoPenaltyServed {
    /// Vehicle index of the vehicle serving stop go
    pub vehicle_idx: u8,
}

pub const EVENT_STOP_GO_PENALTY_SERVED_SIZE: usize = 1;

/// `r` is what the 1 bytes of `b` from `off` on hold, field by field in
/// declared order, little-endian and without padding.
pub open spec fn event_stop_go_penalty_served_at(b: Seq<u8>, off: int, r: EventStopGoPenaltyServed) -> bool {
    &&& r.vehicle_idx == b[off]
}

pub fn read_event_stop_go_penalty_served(b: &[u8], off: usize) -> (r: EventStopGoPenaltyServed)
    requires
        off + EVENT_STOP_GO_PENALTY_SERVED_SIZE <= b.len(),
    ensures
        event_stop_go_penalty_served_at(b@, off as int, r),
{
    EventStopGoPenaltyServed {
        vehicle_idx: read_u8(b, off),
    }
}

/// Payload of the flashback event.
///
/// Floating-point quantities are kept as the bit pattern of their IEEE-754
/// value (`f32::from_bits`, `f64::from_bits` give the number back).
#[derive(Debug, PartialEq)]
pub struct EventFlashback {
    /// Frame identifier flashed back to
    pub flashback_frame_identifier: u32,
    /// Session time flashed back to
    pub flashback_session_time: u32,
}

pub const EVENT_FLASHBACK_SIZE: usize = 8;

/// `r` is what the 8 bytes of `b` from `off` on hold, field by field in
/// declared order, little-endian and without padding.
pub open spec fn event_flashback_at(b: Seq<u8>, off: int, r: EventFlashback) -> bool {
    &&& r.flashback_frame_identifier == le_u32(b, off)
    &&& r.flashback_session_time == le_u32(b, off + 4)
}

pub fn read_event_flashback(b: &[u8], off: usize) -> (r: EventFlashback)
    requires
        off + EVENT_FLASHBACK_SIZE <= b.len(),
    ensures
        event_flashback_at(b@, off as int, r),
{
    EventFlashback {
        flashback_frame_identifier: read_u32(b, off),
        flashback_session_time: read_u32(b, off + 4),
    }
}

/// Payload of the button status event.
#[derive(Debug, PartialEq)]
pub struct EventButtons {
    /// Bit flags specifying which buttons are being pressed
    /// currently - see appendices
    pub button_status: u32,
}

pub const EVENT_BUTTONS_SIZE: usize = 4;

/// `r` is what the 4 bytes of `b` from `off` on hold, field by field in
/// declared order, little-endian and without padding.
pub open spec fn event_buttons_at(b: Seq<u8>, off: int, r: EventButtons) -> bool {
    &&& r.button_status == le_u32(b, off)
}

pub fn read_event_buttons(b: &[u8], off: usize) -> (r: EventButtons)
    requires
        off + EVENT_BUTTONS_SIZE <= b.len(),
    ensures
        event_buttons_at(b@, off as int, r),
{
    EventButtons {
        button_status: read_u32(b, off),
    }
}

impl Default for CarStatusData {
    /// Every number zero.
    fn default() -> (r: CarStatusData)
        ensures
            r.traction_control == 0,
            r.anti_lock_brakes == 0,
            r.fuel_mix == 0,
            r.front_brake_bias == 0,
            r.pit_limiter_status == 0,
            r.fuel_in_tank == 0,
            r.fuel_capacity == 0,
            r.fuel_remaining_laps == 0,
            r.max_rpm == 0,
            r.idle_rpm == 0,
            r.max_gears == 0,
            r.drs_allowed == 0,
            r.drs_activation_distance == 0,
            r.actual_tyre_compound == 0,
            r.visual_tyre_compound == 0,
            r.tyres_age_laps == 0,
            r.vehicle_fia_flags == 0,
            r.ers_store_energy == 0,
            r.ers_deploy_mode == 0,
            r.ers_harvested_this_lap_mguk == 0,
            r.ers_harvested_this_lap_mguh == 0,
            r.ers_deployed_this_lap == 0,
            r.network_paused == 0,
    {
        CarStatusData {
            traction_control: 0,
            anti_lock_brakes: 0,
            fuel_mix: 0,
            front_brake_bias: 0,
            pit_limiter_status: 0,
            fuel_in_tank: 0,
            fuel_capacity: 0,
            fuel_remaining_laps: 0,
            max_rpm: 0,
            idle_rpm: 0,
            max_gears: 0,
            drs_allowed: 0,
            drs_activation_distance: 0,
            actual_tyre_compound: 0,
            visual_tyre_compound: 0,
            tyres_age_laps: 0,
            vehicle_fia_flags: 0,
            ers_store_energy: 0,
            ers_deploy_mode: 0,
            ers_harvested_this_lap_mguk: 0,
            ers_harvested_this_lap_mguh: 0,
            ers_deployed_this_lap: 0,
            network_paused: 0,
        }
    }
}

impl Default for CarMotionData {
    /// Every number zero.
    fn default() -> (r: CarMotionData)
        ensures
            r.world_position_x == 0,
            r.world_position_y == 0,
            r.world_position_z == 0,
            r.world_velocity_x == 0,
            r.world_velocity_y == 0,
            r.world_velocity_z == 0,
            r.world_forward_dir_x == 0,
            r.world_forward_dir_y == 0,
            r.world_forward_dir_z == 0,
            r.world_right_dir_x == 0,
            r.world_right_dir_y == 0,
            r.world_right_dir_z == 0,
            r.g_force_lateral == 0,
            r.g_force_longitudinal == 0,
            r.g_force_vertical == 0,
            r.yaw == 0,
            r.pitch == 0,
            r.roll == 0,
    {
        CarMotionData {
            world_position_x: 0,
            world_position_y: 0,
            world_position_z: 0,
            world_velocity_x: 0,
            world_velocity_y: 0,
            world_velocity_z: 0,
            world_forward_dir_x: 0,
            world_forward_dir_y: 0,
            world_forward_dir_z: 0,
            world_right_dir_x: 0,
            world_right_dir_y: 0,
            world_right_dir_z: 0,
            g_force_lateral: 0,
            g_force_longitudinal: 0,
            g_force_vertical: 0,
            yaw: 0,
            pitch: 0,
            roll: 0,
        }
    }
}

impl Default for FinalClassificationData {
    /// Every number zero.
    fn default() -> (r: FinalClassificationData)
        ensures
            r.position == 0,
            r.num_laps == 0,
            r.grid_position == 0,
            r.points == 0,
            r.num_pit_stops == 0,
            r.result_status == 0,
            r.best_lap_time_in_ms == 0,
            r.total_race_time == 0,
            r.penalties_time == 0,
            r.num_penalties == 0,
            r.num_tyre_stints == 0,
            r.tyre_stints_actual@ == seq![0u8, 0, 0, 0, 0, 0, 0, 0],
            r.tyre_stints_visual@ == seq![0u8, 0, 0, 0, 0, 0, 0, 0],
            r.tyre_stints_end_laps@ == seq![0u8, 0, 0, 0, 0, 0, 0, 0],
    {
        FinalClassificationData {
            position: 0,
            num_laps: 0,
            grid_position: 0,
            points: 0,
            num_pit_stops: 0,
            result_status: 0,
            best_lap_time_in_ms: 0,
            total_race_time: 0,
            penalties_time: 0,
            num_penalties: 0,
            num_tyre_stints: 0,
            tyre_stints_actual: [0; 8],
            tyre_stints_visual: [0; 8],
            tyre_stints_end_laps: [0; 8],
        }
    }
}

impl Default for MarshalZone {
    /// Every number zero.
    fn default() -> (r: MarshalZone)
        ensures
            r.zone_start == 0,
            r.zone_flag == 0,
    {
        MarshalZone {
            zone_start: 0,
            zone_flag: 0,
        }
    }
}

impl Default for WeatherForecastSample {
    /// Every number zero.
    fn default() -> (r: WeatherForecastSample)
        ensures
            r.session_type == 0,
            r.time_offset == 0,
            r.weather == 0,
            r.track_temperature == 0,
            r.track_temperature_change == 0,
            r.air_temperature == 0,
            r.air_temperature_change == 0,
            r.rain_percentage == 0,
    {
        WeatherForecastSample {
            session_type: 0,
            time_offset: 0,
            weather: 0,
            track_temperature: 0,
            track_temperature_change: 0,
            air_temperature: 0,
            air_temperature_change: 0,
            rain_percentage: 0,
        }
    }
}

impl Default for LapData {
    /// Every number zero.
    fn default() -> (r: LapData)
        ensures
            r.last_lap_time_in_ms == 0,
            r.current_lap_time_in_ms == 0,
            r.sector1_time_in_ms == 0,
            r.sector2_time_in_ms == 0,
            r.lap_distance == 0,
            r.total_distance == 0,
            r.safety_car_delta == 0,
            r.car_position == 0,
            r.current_lap_num == 0,
            r.pit_status == 0,
            r.num_pit_stops == 0,
            r.sector == 0,
            r.current_lap_invalid == 0,
            r.penalties == 0,
            r.warnings == 0,
            r.num_unserved_drive_through_pens == 0,
            r.num_unserved_stop_go_pens == 0,
            r.grid_position == 0,
            r.driver_status == 0,
            r.result_status == 0,
            r.pit_lane_timer_active == 0,
            r.pit_lane_time_in_lane_in_ms == 0,
            r.pit_stop_timer_in_ms == 0,
            r.pit_stop_should_serve_pen == 0,
    {
        LapData {
            last_lap_time_in_ms: 0,
            current_lap_time_in_ms: 0,
            sector1_time_in_ms: 0,
            sector2_time_in_ms: 0,
            lap_distance: 0,
            total_distance: 0,
            safety_car_delta: 0,
            car_position: 0,
            current_lap_num: 0,
            pit_status: 0,
            num_pit_stops: 0,
            sector: 0,
            current_lap_invalid: 0,
            penalties: 0,
            warnings: 0,
            num_unserved_drive_through_pens: 0,
            num_unserved_stop_go_pens: 0,
            grid_position: 0,
            driver_status: 0,
            result_status: 0,
            pit_lane_timer_active: 0,
            pit_lane_time_in_lane_in_ms: 0,
            pit_stop_timer_in_ms: 0,
            pit_stop_should_serve_pen: 0,
        }
    }
}

impl Default for ParticipantData {
    /// Every number zero, every name empty.
    fn default() -> (r: ParticipantData)
        ensures
            r.ai_controlled == 0,
            r.driver_id == 0,
            r.network_id == 0,
            r.team_id == 0,
            r.my_team == 0,
            r.race_number == 0,
            r.nationality == 0,
            r.name@.len() == 0,
            r.your_telemetry == 0,
    {
        ParticipantData {
            ai_controlled: 0,
            driver_id: 0,
            network_id: 0,
            team_id: 0,
            my_team: 0,
            race_number: 0,
            nationality: 0,
            name: Vec::new(),
            your_telemetry: 0,
        }
    }
}

impl Default for CarSetupData {
    /// Every number zero.
    fn default() -> (r: CarSetupData)
        ensures
            r.front_wing == 0,
            r.rear_wing == 0,
            r.on_throttle == 0,
            r.off_throttle == 0,
            r.front_camber == 0,
            r.rear_camber == 0,
            r.front_toe == 0,
            r.rear_toe == 0,
            r.front_suspension == 0,
            r.rear_suspension == 0,
            r.front_anti_roll_bar == 0,
            r.rear_anti_roll_bar == 0,
            r.front_suspension_height == 0,
            r.rear_suspension_height == 0,
            r.brake_pressure == 0,
            r.brake_bias == 0,
            r.rear_left_tyre_pressure == 0,
            r.rear_right_tyre_pressure == 0,
            r.front_left_tyre_pressure == 0,
            r.front_right_tyre_pressure == 0,
            r.ballast == 0,
            r.fuel_load == 0,
    {
        CarSetupData {
            front_wing: 0,
            rear_wing: 0,
            on_throttle: 0,
            off_throttle: 0,
            front_camber: 0,
            rear_camber: 0,
            front_toe: 0,
            rear_toe: 0,
            front_suspension: 0,
            rear_suspension: 0,
            front_anti_roll_bar: 0,
            rear_anti_roll_bar: 0,
            front_suspension_height: 0,
            rear_suspension_height: 0,
            brake_pressure: 0,
            brake_bias: 0,
            rear_left_tyre_pressure: 0,
            rear_right_tyre_pressure: 0,
            front_left_tyre_pressure: 0,
            front_right_tyre_pressure: 0,
            ballast: 0,
            fuel_load: 0,
        }
    }
}

impl Default for CarTelemetryData {
    /// Every number zero.
    fn default() -> (r: CarTelemetryData)
        ensures
            r.speed == 0,
            r.throttle == 0,
            r.steer == 0,
            r.brake == 0,
            r.clutch == 0,
            r.gear == 0,
            r.engine_rpm == 0,
            r.drs == 0,
            r.rev_lights_percent == 0,
            r.rev_lights_bit_value == 0,
            r.brakes_temperature@ == seq![0u16, 0, 0, 0],
            r.tyres_surface_temperature@ == seq![0u8, 0, 0, 0],
            r.tyres_inner_temperature@ == seq![0u8, 0, 0, 0],
            r.engine_temperature == 0,
            r.tyres_pressure@ == seq![0u32, 0, 0, 0],
            r.surface_type@ == seq![0u8, 0, 0, 0],
    {
        CarTelemetryData {
            speed: 0,
            throttle: 0,
            steer: 0,
            brake: 0,
            clutch: 0,
            gear: 0,
            engine_rpm: 0,
            drs: 0,
            rev_lights_percent: 0,
            rev_lights_bit_value: 0,
            brakes_temperature: [0; 4],
            tyres_surface_temperature: [0; 4],
            tyres_inner_temperature: [0; 4],
            engine_temperature: 0,
            tyres_pressure: [0; 4],
            surface_type: [0; 4],
        }
    }
}

impl Default for LobbyInfoData {
    /// Every number zero, every name empty.
    fn default() -> (r: LobbyInfoData)
        ensures
            r.ai_controlled == 0,
            r.team_id == 0,
            r.nationality == 0,
            r.name@.len() == 0,
            r.car_number == 0,
            r.ready_status == 0,
    {
        LobbyInfoData {
            ai_controlled: 0,
            team_id: 0,
            nationality: 0,
            name: Vec::new(),
            car_number: 0,
            ready_status: 0,
        }
    }
}

impl Default for CarDamageData {
    /// Every number zero.
    fn default() -> (r: CarDamageData)
        ensures
            r.tyres_wear@ == seq![0u32, 0, 0, 0],
            r.tyres_damage@ == seq![0u8, 0, 0, 0],
            r.brakes_damage@ == seq![0u8, 0, 0, 0],
            r.front_left_wing_damage == 0,
            r.front_right_wing_damage == 0,
            r.rear_wing_damage == 0,
            r.floor_damage == 0,
            r.diffuser_damage == 0,
            r.sidepod_damage == 0,
            r.drs_fault == 0,
            r.ers_fault == 0,
            r.gear_box_damage == 0,
            r.engine_damage == 0,
            r.engine_mguhwear == 0,
            r.engine_eswear == 0,
            r.engine_cewear == 0,
            r.engine_icewear == 0,
            r.engine_mgukwear == 0,
            r.engine_tcwear == 0,
            r.engine_blown == 0,
            r.engine_seized == 0,
    {
        CarDamageData {
            tyres_wear: [0; 4],
            tyres_damage: [0; 4],
            brakes_damage: [0; 4],
            front_left_wing_damage: 0,
            front_right_wing_damage: 0,
            rear_wing_damage: 0,
            floor_damage: 0,
            diffuser_damage: 0,
            sidepod_damage: 0,
            drs_fault: 0,
            ers_fault: 0,
            gear_box_damage: 0,
            engine_damage: 0,
            engine_mguhwear: 0,
            engine_eswear: 0,
            engine_cewear: 0,
            engine_icewear: 0,
            engine_mgukwear: 0,
            engine_tcwear: 0,
            engine_blown: 0,
            engine_seized: 0,
        }
    }
}

impl Default for LapHistoryData {
    /// Every number zero.
    fn default() -> (r: LapHistoryData)
        ensures
            r.lap_time_in_ms == 0,
            r.sector1_time_in_ms == 0,
            r.sector2_time_in_ms == 0,
            r.sector3_time_in_ms == 0,
            r.lap_valid_bit_flags == 0,
    {
        LapHistoryData {
            lap_time_in_ms: 0,
            sector1_time_in_ms: 0,
            sector2_time_in_ms: 0,
            sector3_time_in_ms: 0,
            lap_valid_bit_flags: 0,
        }
    }
}

impl Default for TyreStintHistoryData {
    /// Every number zero.
    fn default() -> (r: TyreStintHistoryData)
        ensures
            r.end_lap == 0,
            r.tyre_actual_compound == 0,
            r.tyre_visual_compound == 0,
    {
        TyreStintHistoryData {
            end_lap: 0,
            tyre_actual_compound: 0,
            tyre_visual_compound: 0,
        }
    }
}

impl Default for EventFastestLap {
    /// Every number zero.
    fn default() -> (r: EventFastestLap)
        ensures
            r.vehicle_idx == 0,
            r.lap_time == 0,
    {
        EventFastestLap {
            vehicle_idx: 0,
            lap_time: 0,
        }
    }
}

impl Default for EventRetirement {
    /// Every number zero.
    fn default() -> (r: EventRetirement)
        ensures
            r.vehicle_idx == 0,
    {
        EventRetirement {
            vehicle_idx: 0,
        }
    }
}

impl Default for EventTeamMateInPits {
    /// Every number zero.
    fn default() -> (r: EventTeamMateInPits)
        ensures
            r.vehicle_idx == 0,
    {
        EventTeamMateInPits {
            vehicle_idx: 0,
        }
    }
}

impl Default for EventRaceWinner {
    /// Every number zero.
    fn default() -> (r: EventRaceWinner)
        ensures
            r.vehicle_idx == 0,
    {
        EventRaceWinner {
            vehicle_idx: 0,
        }
    }
}

impl Default for EventPenalty {
    /// Every number zero.
    fn default() -> (r: EventPenalty)
        ensures
            r.penalty_type == 0,
            r.infringement_type == 0,
            r.vehicle_idx == 0,
            r.other_vehicle_idx == 0,
            r.time == 0,
            r.lap_num == 0,
            r.places_gained == 0,
    {
        EventPenalty {
            penalty_type: 0,
            infringement_type: 0,
            vehicle_idx: 0,
            other_vehicle_idx: 0,
            time: 0,
            lap_num: 0,
            places_gained: 0,
        }
    }
}

impl Default for EventSpeedTrap {
    /// Every number zero.
    fn default() -> (r: EventSpeedTrap)
        ensures
            r.vehicle_idx == 0,
            r.speed == 0,
            r.is_overall_fastest_in_session == 0,
            r.is_driver_fastest_in_session == 0,
            r.fastest_vehicle_idx_in_session == 0,
            r.fastest_speed_in_session == 0,
    {
        EventSpeedTrap {
            vehicle_idx: 0,
            speed: 0,
            is_overall_fastest_in_session: 0,
            is_driver_fastest_in_session: 0,
            fastest_vehicle_idx_in_session: 0,
            fastest_speed_in_session: 0,
        }
    }
}

impl Default for EventStartLights {
    /// Every number zero.
    fn default() -> (r: EventStartLights)
        ensures
            r.num_lights == 0,
    {
        EventStartLights {
            num_lights: 0,
        }
    }
}

impl Default for EventDriveThroughPenaltyServed {
    /// Every number zero.
    fn default() -> (r: EventDriveThroughPenaltyServed)
        ensures
            r.vehicle_idx == 0,
    {
        EventDriveThroughPenaltyServed {
            vehicle_idx: 0,
        }
    }
}

impl Default for EventStopGoPenaltyServed {
    /// Every number zero.
    fn default() -> (r: EventStopGoPenaltyServed)
        ensures
            r.vehicle_idx == 0,
    {
        EventStopGoPenaltyServed {
            vehicle_idx: 0,
        }
    }
}

impl Default for EventFlashback {
    /// Every number zero.
    fn default() -> (r: EventFlashback)
        ensures
            r.flashback_frame_identifier == 0,
            r.flashback_session_time == 0,
    {
        EventFlashback {
            flashback_frame_identifier: 0,
            flashback_session_time: 0,
        }
    }
}

impl Default for EventButtons {
    /// Every number zero.
    fn default() -> (r: EventButtons)
        ensures
            r.button_status == 0,
    {
        EventButtons {
            button_status: 0,
        }
    }
}

/// The 22 consecutive CarStatusData records that start at `b[off]`.
pub fn read_car_status_data_array(b: &[u8], off: usize) -> (v: Vec<CarStatusData>)
    requires
        off + 22 * CAR_STATUS_DATA_SIZE <= b.len(),
    ensures
        v@.len() == 22,
        forall|i: int| 0 <= i < 22 ==> car_status_data_at(b@, off + i * 47, #[trigger] v@[i]),
{
    let mut v: Vec<CarStatusData> = Vec::new();
    let mut k: usize = 0;
    while k < 22
        invariant
            k <= 22,
            off + 22 * CAR_STATUS_DATA_SIZE <= b.len(),
            v@.len() == k,
            forall|i: int| 0 <= i < k ==> car_status_data_at(b@, off + i * 47, #[trigger] v@[i]),
        decreases 22 - k,
    {
        let item = read_car_status_data(b, off + k * CAR_STATUS_DATA_SIZE);
        v.push(item);
        k = k + 1;
    }
    v
}

/// The 22 consecutive CarMotionData records that start at `b[off]`.
pub fn read_car_motion_data_array(b: &[u8], off: usize) -> (v: Vec<CarMotionData>)
    requires
        off + 22 * CAR_MOTION_DATA_SIZE <= b.len(),
    ensures
        v@.len() == 22,
        forall|i: int| 0 <= i < 22 ==> car_motion_data_at(b@, off + i * 60, #[trigger] v@[i]),
{
    let mut v: Vec<CarMotionData> = Vec::new();
    let mut k: usize = 0;
    while k < 22
        invariant
            k <= 22,
            off + 22 * CAR_MOTION_DATA_SIZE <= b.len(),
            v@.len() == k,
            forall|i: int| 0 <= i < k ==> car_motion_data_at(b@, off + i * 60, #[trigger] v@[i]),
        decreases 22 - k,
    {
        let item = read_car_motion_data(b, off + k * CAR_MOTION_DATA_SIZE);
        v.push(item);
        k = k + 1;
    }
    v
}

/// The 22 consecutive FinalClassificationData records that start at `b[off]`.
pub fn read_final_classification_data_array(b: &[u8], off: usize) -> (v: Vec<FinalClassificationData>)
    requires
        off + 22 * FINAL_CLASSIFICATION_DATA_SIZE <= b.len(),
    ensures
        v@.len() == 22,
        forall|i: int| 0 <= i < 22 ==> final_classification_data_at(b@, off + i * 45, #[trigger] v@[i]),
{
    let mut v: Vec<FinalClassificationData> = Vec::new();
    let mut k: usize = 0;
    while k < 22
        invariant
            k <= 22,
            off + 22 * FINAL_CLASSIFICATION_DATA_SIZE <= b.len(),
            v@.len() == k,
            forall|i: int| 0 <= i < k ==> final_classification_data_at(b@, off + i * 45, #[trigger] v@[i]),
        decreases 22 - k,
    {
        let item = read_final_classification_data(b, off + k * FINAL_CLASSIFICATION_DATA_SIZE);
        v.push(item);
        k = k + 1;
    }
    v
}

/// The 21 consecutive MarshalZone records that start at `b[off]`.
pub fn read_marshal_zone_array(b: &[u8], off: usize) -> (v: Vec<MarshalZone>)
    requires
        off + 21 * MARSHAL_ZONE_SIZE <= b.len(),
    ensures
        v@.len() == 21,
        forall|i: int| 0 <= i < 21 ==> marshal_zone_at(b@, off + i * 5, #[trigger] v@[i]),
{
    let mut v: Vec<MarshalZone> = Vec::new();
    let mut k: usize = 0;
    while k < 21
        invariant
            k <= 21,
            off + 21 * MARSHAL_ZONE_SIZE <= b.len(),
            v@.len() == k,
            forall|i: int| 0 <= i < k ==> marshal_zone_at(b@, off + i * 5, #[trigger] v@[i]),
        decreases 21 - k,
    {
        let item = read_marshal_zone(b, off + k * MARSHAL_ZONE_SIZE);
        v.push(item);
        k = k + 1;
    }
    v
}

/// The 21 consecutive WeatherForecastSample records that start at `b[off]`.
pub fn read_weather_forecast_sample_array(b: &[u8], off: usize) -> (v: Vec<WeatherForecastSample>)
    requires
        off + 21 * WEATHER_FORECAST_SAMPLE_SIZE <= b.len(),
    ensures
        v@.len() == 21,
        forall|i: int| 0 <= i < 21 ==> weather_forecast_sample_at(b@, off + i * 8, #[trigger] v@[i]),
{
    let mut v: Vec<WeatherForecastSample> = Vec::new();
    let mut k: usize = 0;
    while k < 21
        invariant
            k <= 21,
            off + 21 * WEATHER_FORECAST_SAMPLE_SIZE <= b.len(),
            v@.len() == k,
            forall|i: int| 0 <= i < k ==> weather_forecast_sample_at(b@, off + i * 8, #[trigger] v@[i]),
        decreases 21 - k,
    {
        let item = read_weather_forecast_sample(b, off + k * WEATHER_FORECAST_SAMPLE_SIZE);
        v.push(item);
        k = k + 1;
    }
    v
}

/// The 22 consecutive LapData records that start at `b[off]`.
pub fn read_lap_data_array(b: &[u8], off: usize) -> (v: Vec<LapData>)
    requires
        off + 22 * LAP_DATA_SIZE <= b.len(),
    ensures
        v@.len() == 22,
        forall|i: int| 0 <= i < 22 ==> lap_data_at(b@, off + i * 43, #[trigger] v@[i]),
{
    let mut v: Vec<LapData> = Vec::new();
    let mut k: usize = 0;
    while k < 22
        invariant
            k <= 22,
            off + 22 * LAP_DATA_SIZE <= b.len(),
            v@.len() == k,
            forall|i: int| 0 <= i < k ==> lap_data_at(b@, off + i * 43, #[trigger] v@[i]),
        decreases 22 - k,
    {
        let item = read_lap_data(b, off + k * LAP_DATA_SIZE);
        v.push(item);
        k = k + 1;
    }
    v
}

/// The 22 consecutive ParticipantData records that start at `b[off]`.
pub fn read_participant_data_array(b: &[u8], off: usize) -> (v: Vec<ParticipantData>)
    requires
        off + 22 * PARTICIPANT_DATA_SIZE <= b.len(),
    ensures
        v@.len() == 22,
        forall|i: int| 0 <= i < 22 ==> participant_data_at(b@, off + i * 56, #[trigger] v@[i]),
{
    let mut v: Vec<ParticipantData> = Vec::new();
    let mut k: usize = 0;
    while k < 22
        invariant
            k <= 22,
            off + 22 * PARTICIPANT_DATA_SIZE <= b.len(),
            v@.len() == k,
            forall|i: int| 0 <= i < k ==> participant_data_at(b@, off + i * 56, #[trigger] v@[i]),
        decreases 22 - k,
    {
        let item = read_participant_data(b, off + k * PARTICIPANT_DATA_SIZE);
        v.push(item);
        k = k + 1;
    }
    v
}

/// The 22 consecutive CarSetupData records that start at `b[off]`.
pub fn read_car_setup_data_array(b: &[u8], off: usize) -> (v: Vec<CarSetupData>)
    requires
        off + 22 * CAR_SETUP_DATA_SIZE <= b.len(),
    ensures
        v@.len() == 22,
        forall|i: int| 0 <= i < 22 ==> car_setup_data_at(b@, off + i * 49, #[trigger] v@[i]),
{
    let mut v: Vec<CarSetupData> = Vec::new();
    let mut k: usize = 0;
    while k < 22
        invariant
            k <= 22,
            off + 22 * CAR_SETUP_DATA_SIZE <= b.len(),
            v@.len() == k,
            forall|i: int| 0 <= i < k ==> car_setup_data_at(b@, off + i * 49, #[trigger] v@[i]),
        decreases 22 - k,
    {
        let item = read_car_setup_data(b, off + k * CAR_SETUP_DATA_SIZE);
        v.push(item);
        k = k + 1;
    }
    v
}

/// The 22 consecutive CarTelemetryData records that start at `b[off]`.
pub fn read_car_telemetry_data_array(b: &[u8], off: usize) -> (v: Vec<CarTelemetryData>)
    requires
        off + 22 * CAR_TELEMETRY_DATA_SIZE <= b.len(),
    ensures
        v@.len() == 22,
        forall|i: int| 0 <= i < 22 ==> car_telemetry_data_at(b@, off + i * 60, #[trigger] v@[i]),
{
    let mut v: Vec<CarTelemetryData> = Vec::new();
    let mut k: usize = 0;
    while k < 22
        invariant
            k <= 22,
            off + 22 * CAR_TELEMETRY_DATA_SIZE <= b.len(),
            v@.len() == k,
            forall|i: int| 0 <= i < k ==> car_telemetry_data_at(b@, off + i * 60, #[trigger] v@[i]),
        decreases 22 - k,
    {
        let item = read_car_telemetry_data(b, off + k * CAR_TELEMETRY_DATA_SIZE);
        v.push(item);
        k = k + 1;
    }
    v
}

/// The 22 consecutive LobbyInfoData records that start at `b[off]`.
pub fn read_lobby_info_data_array(b: &[u8], off: usize) -> (v: Vec<LobbyInfoData>)
    requires
        off + 22 * LOBBY_INFO_DATA_SIZE <= b.len(),
    ensures
        v@.len() == 22,
        forall|i: int| 0 <= i < 22 ==> lobby_info_data_at(b@, off + i * 53, #[trigger] v@[i]),
{
    let mut v: Vec<LobbyInfoData> = Vec::new();
    let mut k: usize = 0;
    while k < 22
        invariant
            k <= 22,
            off + 22 * LOBBY_INFO_DATA_SIZE <= b.len(),
            v@.len() == k,
            forall|i: int| 0 <= i < k ==> lobby_info_data_at(b@, off + i * 53, #[trigger] v@[i]),
        decreases 22 - k,
    {
        let item = read_lobby_info_data(b, off + k * LOBBY_INFO_DATA_SIZE);
        v.push(item);
        k = k + 1;
    }
    v
}

/// The 22 consecutive CarDamageData records that start at `b[off]`.
pub fn read_car_damage_data_array(b: &[u8], off: usize) -> (v: Vec<CarDamageData>)
    requires
        off + 22 * CAR_DAMAGE_DATA_SIZE <= b.len(),
    ensures
        v@.len() == 22,
        forall|i: int| 0 <= i < 22 ==> car_damage_data_at(b@, off + i * 42, #[trigger] v@[i]),
{
    let mut v: Vec<CarDamageData> = Vec::new();
    let mut k: usize = 0;
    while k < 22
        invariant
            k <= 22,
            off + 22 * CAR_DAMAGE_DATA_SIZE <= b.len(),
            v@.len() == k,
            forall|i: int| 0 <= i < k ==> car_damage_data_at(b@, off + i * 42, #[trigger] v@[i]),
        decreases 22 - k,
    {
        let item = read_car_damage_data(b, off + k * CAR_DAMAGE_DATA_SIZE);
        v.push(item);
        k = k + 1;
    }
    v
}

/// The 100 consecutive LapHistoryData records that start at `b[off]`.
pub fn read_lap_history_data_array(b: &[u8], off: usize) -> (v: Vec<LapHistoryData>)
    requires
        off + 100 * LAP_HISTORY_DATA_SIZE <= b.len(),
    ensures
        v@.len() == 100,
        forall|i: int| 0 <= i < 100 ==> lap_history_data_at(b@, off + i * 11, #[trigger] v@[i]),
{
    let mut v: Vec<LapHistoryData> = Vec::new();
    let mut k: usize = 0;
    while k < 100
        invariant
            k <= 100,
            off + 100 * LAP_HISTORY_DATA_SIZE <= b.len(),
            v@.len() == k,
            forall|i: int| 0 <= i < k ==> lap_history_data_at(b@, off + i * 11, #[trigger] v@[i]),
        decreases 100 - k,
    {
        let item = read_lap_history_data(b, off + k * LAP_HISTORY_DATA_SIZE);
        v.push(item);
        k = k + 1;
    }
    v
}

/// The 8 consecutive TyreStintHistoryData records that start at `b[off]`.
pub fn read_tyre_stint_history_data_array(b: &[u8], off: usize) -> (v: Vec<TyreStintHistoryData>)
    requires
        off + 8 * TYRE_STINT_HISTORY_DATA_SIZE <= b.len(),
    ensures
        v@.len() == 8,
        forall|i: int| 0 <= i < 8 ==> tyre_stint_history_data_at(b@, off + i * 3, #[trigger] v@[i]),
{
    let mut v: Vec<TyreStintHistoryData> = Vec::new();
    let mut k: usize = 0;
    while k < 8
        invariant
            k <= 8,
            off + 8 * TYRE_STINT_HISTORY_DATA_SIZE <= b.len(),
            v@.len() == k,
            forall|i: int| 0 <= i < k ==> tyre_stint_history_data_at(b@, off + i * 3, #[trigger] v@[i]),
        decreases 8 - k,
    {
        let item = read_tyre_stint_history_data(b, off + k * TYRE_STINT_HISTORY_DATA_SIZE);
        v.push(item);
        k = k + 1;
    }
    v
}

impl PacketHeader {
    /// Decodes the header at the start of a datagram; fails only when `b` is
    /// shorter than the header.
    pub fn decode(b: &[u8]) -> (r: Result<PacketHeader, TelemetryError>)
        ensures
            r is Ok <==> PACKET_HEADER_SIZE <= b.len(),
            r matches Ok(h) ==> packet_header_at(b@, 0, h),
            r matches Err(e) ==> e.kind == TelemetryErrorKind::MalformedHeader,
    {
        if b.len() < PACKET_HEADER_SIZE {
            Err(TelemetryError::new(TelemetryErrorKind::MalformedHeader))
        } else {
            Ok(read_packet_header(b, 0))
        }
    }
}

impl PacketCarStatusData {
    /// Decodes the packet from the start of `b`; fails only when `b` is
    /// shorter than the packet.
    pub fn decode(b: &[u8]) -> (r: Result<PacketCarStatusData, TelemetryError>)
        ensures
            r is Ok <==> PACKET_CAR_STATUS_DATA_SIZE <= b.len(),
            r matches Ok(p) ==> packet_car_status_data_at(b@, 0, p),
            r matches Err(e) ==> e.kind == TelemetryErrorKind::DecodeError,
    {
        if b.len() < PACKET_CAR_STATUS_DATA_SIZE {
            Err(TelemetryError::new(TelemetryErrorKind::DecodeError))
        } else {
            Ok(read_packet_car_status_data(b, 0))
        }
    }
}

impl PacketMotionData {
    /// Decodes the packet from the start of `b`; fails only when `b` is
    /// shorter than the packet.
    pub fn decode(b: &[u8]) -> (r: Result<PacketMotionData, TelemetryError>)
        ensures
            r is Ok <==> PACKET_MOTION_DATA_SIZE <= b.len(),
            r matches Ok(p) ==> packet_motion_data_at(b@, 0, p),
            r matches Err(e) ==> e.kind == TelemetryErrorKind::DecodeError,
    {
        if b.len() < PACKET_MOTION_DATA_SIZE {
            Err(TelemetryError::new(TelemetryErrorKind::DecodeError))
        } else {
            Ok(read_packet_motion_data(b, 0))
        }
    }
}

impl PacketFinalClassificationData {
    /// Decodes the packet from the start of `b`; fails only when `b` is
    /// shorter than the packet.
    pub fn decode(b: &[u8]) -> (r: Result<PacketFinalClassificationData, TelemetryError>)
        ensures
            r is Ok <==> PACKET_FINAL_CLASSIFICATION_DATA_SIZE <= b.len(),
            r matches Ok(p) ==> packet_final_classification_data_at(b@, 0, p),
            r matches Err(e) ==> e.kind == TelemetryErrorKind::DecodeError,
    {
        if b.len() < PACKET_FINAL_CLASSIFICATION_DATA_SIZE {
            Err(TelemetryError::new(TelemetryErrorKind::DecodeError))
        } else {
            Ok(read_packet_final_classification_data(b, 0))
        }
    }
}

impl PacketSessionData {
    /// Decodes the packet from the start of `b`; fails only when `b` is
    /// shorter than the packet.
    pub fn decode(b: &[u8]) -> (r: Result<PacketSessionData, TelemetryError>)
        ensures
            r is Ok <==> PACKET_SESSION_DATA_SIZE <= b.len(),
            r matches Ok(p) ==> packet_session_data_at(b@, 0, p),
            r matches Err(e) ==> e.kind == TelemetryErrorKind::DecodeError,
    {
        if b.len() < PACKET_SESSION_DATA_SIZE {
            Err(TelemetryError::new(TelemetryErrorKind::DecodeError))
        } else {
            Ok(read_packet_session_data(b, 0))
        }
    }
}

impl PacketLapData {
    /// Decodes the packet from the start of `b`; fails only when `b` is
    /// shorter than the packet.
    pub fn decode(b: &[u8]) -> (r: Result<PacketLapData, TelemetryError>)
        ensures
            r is Ok <==> PACKET_LAP_DATA_SIZE <= b.len(),
            r matches Ok(p) ==> packet_lap_data_at(b@, 0, p),
            r matches Err(e) ==> e.kind == TelemetryErrorKind::DecodeError,
    {
        if b.len() < PACKET_LAP_DATA_SIZE {
            Err(TelemetryError::new(TelemetryErrorKind::DecodeError))
        } else {
            Ok(read_packet_lap_data(b, 0))
        }
    }
}

impl PacketParticipantsData {
    /// Decodes the packet from the start of `b`; fails only when `b` is
    /// shorter than the packet.
    pub fn decode(b: &[u8]) -> (r: Result<PacketParticipantsData, TelemetryError>)
        ensures
            r is Ok <==> PACKET_PARTICIPANTS_DATA_SIZE <= b.len(),
            r matches Ok(p) ==> packet_participants_data_at(b@, 0, p),
            r matches Err(e) ==> e.kind == TelemetryErrorKind::DecodeError,
    {
        if b.len() < PACKET_PARTICIPANTS_DATA_SIZE {
            Err(TelemetryError::new(TelemetryErrorKind::DecodeError))
        } else {
            Ok(read_packet_participants_data(b, 0))
        }
    }
}

impl PacketCarSetupData {
    /// Decodes the packet from the start of `b`; fails only when `b` is
    /// shorter than the packet.
    pub fn decode(b: &[u8]) -> (r: Result<PacketCarSetupData, TelemetryError>)
        ensures
            r is Ok <==> PACKET_CAR_SETUP_DATA_SIZE <= b.len(),
            r matches Ok(p) ==> packet_car_setup_data_at(b@, 0, p),
            r matches Err(e) ==> e.kind == TelemetryErrorKind::DecodeError,
    {
        if b.len() < PACKET_CAR_SETUP_DATA_SIZE {
            Err(TelemetryError::new(TelemetryErrorKind::DecodeError))
        } else {
            Ok(read_packet_car_setup_data(b, 0))
        }
    }
}

impl PacketCarTelemetryData {
    /// Decodes the packet from the start of `b`; fails only when `b` is
    /// shorter than the packet.
    pub fn decode(b: &[u8]) -> (r: Result<PacketCarTelemetryData, TelemetryError>)
        ensures
            r is Ok <==> PACKET_CAR_TELEMETRY_DATA_SIZE <= b.len(),
            r matches Ok(p) ==> packet_car_telemetry_data_at(b@, 0, p),
            r matches Err(e) ==> e.kind == TelemetryErrorKind::DecodeError,
    {
        if b.len() < PACKET_CAR_TELEMETRY_DATA_SIZE {
            Err(TelemetryError::new(TelemetryErrorKind::DecodeError))
        } else {
            Ok(read_packet_car_telemetry_data(b, 0))
        }
    }
}

impl PacketLobbyInfoData {
    /// Decodes the packet from the start of `b`; fails only when `b` is
    /// shorter than the packet.
    pub fn decode(b: &[u8]) -> (r: Result<PacketLobbyInfoData, TelemetryError>)
        ensures
            r is Ok <==> PACKET_LOBBY_INFO_DATA_SIZE <= b.len(),
            r matches Ok(p) ==> packet_lobby_info_data_at(b@, 0, p),
            r matches Err(e) ==> e.kind == TelemetryErrorKind::DecodeError,
    {
        if b.len() < PACKET_LOBBY_INFO_DATA_SIZE {
            Err(TelemetryError::new(TelemetryErrorKind::DecodeError))
        } else {
            Ok(read_packet_lobby_info_data(b, 0))
        }
    }
}

impl PacketCarDamageData {
    /// Decodes the packet from the start of `b`; fails only when `b` is
    /// shorter than the packet.
    pub fn decode(b: &[u8]) -> (r: Result<PacketCarDamageData, TelemetryError>)
        ensures
            r is Ok <==> PACKET_CAR_DAMAGE_DATA_SIZE <= b.len(),
            r matches Ok(p) ==> packet_car_damage_data_at(b@, 0, p),
            r matches Err(e) ==> e.kind == TelemetryErrorKind::DecodeError,
    {
        if b.len() < PACKET_CAR_DAMAGE_DATA_SIZE {
            Err(TelemetryError::new(TelemetryErrorKind::DecodeError))
        } else {
            Ok(read_packet_car_damage_data(b, 0))
        }
    }
}

impl PacketSessionHistoryData {
    /// Decodes the packet from the start of `b`; fails only when `b` is
    /// shorter than the packet.
    pub fn decode(b: &[u8]) -> (r: Result<PacketSessionHistoryData, TelemetryError>)
        ensures
            r is Ok <==> PACKET_SESSION_HISTORY_DATA_SIZE <= b.len(),
            r matches Ok(p) ==> packet_session_history_data_at(b@, 0, p),
            r matches Err(e) ==> e.kind == TelemetryErrorKind::DecodeError,
    {
        if b.len() < PACKET_SESSION_HISTORY_DATA_SIZE {
            Err(TelemetryError::new(TelemetryErrorKind::DecodeError))
        } else {
            Ok(read_packet_session_history_data(b, 0))
        }
    }
}

} // verus!
