//! The dispatch table: which layout a packet id selects, and the decoding of a
//! datagram into the record of its category.
use crate::errors::{TelemetryError, TelemetryErrorKind};
use crate::event::{event_packet_complete, names_payload_event, packet_event_data_at, PacketEventData};
use crate::telemetry::{
    packet_car_damage_data_at, packet_car_setup_data_at, packet_car_status_data_at,
    packet_car_telemetry_data_at, packet_final_classification_data_at, packet_lap_data_at,
    packet_lobby_info_data_at, packet_motion_data_at, packet_participants_data_at,
    packet_session_data_at, packet_session_history_data_at, PacketCarDamageData,
    PacketCarSetupData, PacketCarStatusData, PacketCarTelemetryData,
    PacketFinalClassificationData, PacketLapData, PacketLobbyInfoData, PacketMotionData,
    PacketParticipantsData, PacketSessionData, PacketSessionHistoryData,
    PACKET_CAR_DAMAGE_DATA_SIZE, PACKET_CAR_SETUP_DATA_SIZE, PACKET_CAR_STATUS_DATA_SIZE,
    PACKET_CAR_TELEMETRY_DATA_SIZE, PACKET_FINAL_CLASSIFICATION_DATA_SIZE, PACKET_LAP_DATA_SIZE,
    PACKET_LOBBY_INFO_DATA_SIZE, PACKET_MOTION_DATA_SIZE, PACKET_PARTICIPANTS_DATA_SIZE,
    PACKET_SESSION_DATA_SIZE, PACKET_SESSION_HISTORY_DATA_SIZE,
};
use vstd::prelude::*;

verus! {

/// The categories of packets, one per packet id.
#[derive(Debug, Clone, Copy, PartialEq, Eq, Structural)]
pub enum PacketCategory {
    Motion,
    Session,
    LapData,
    Event,
    Participants,
    CarSetups,
    CarTelemetry,
    CarStatus,
    FinalClassification,
    LobbyInfo,
    CarDamage,
    SessionHistory,
}

/// The category that a packet id routes to; ids above 11 route nowhere.
pub open spec fn category_of(id: u8) -> Option<PacketCategory> {
    match id {
        0 => Some(PacketCategory::Motion),
        1 => Some(PacketCategory::Session),
        2 => Some(PacketCategory::LapData),
        3 => Some(PacketCategory::Event),
        4 => Some(PacketCategory::Participants),
        5 => Some(PacketCategory::CarSetups),
        6 => Some(PacketCategory::CarTelemetry),
        7 => Some(PacketCategory::CarStatus),
        8 => Some(PacketCategory::FinalClassification),
        9 => Some(PacketCategory::LobbyInfo),
        10 => Some(PacketCategory::CarDamage),
        11 => Some(PacketCategory::SessionHistory),
        _ => None,
    }
}

impl PacketCategory {
    /// The packet id of the category.
    pub open spec fn id(self) -> u8 {
        match self {
            PacketCategory::Motion => 0,
            PacketCategory::Session => 1,
            PacketCategory::LapData => 2,
            PacketCategory::Event => 3,
            PacketCategory::Participants => 4,
            PacketCategory::CarSetups => 5,
            PacketCategory::CarTelemetry => 6,
            PacketCategory::CarStatus => 7,
            PacketCategory::FinalClassification => 8,
            PacketCategory::LobbyInfo => 9,
            PacketCategory::CarDamage => 10,
            PacketCategory::SessionHistory => 11,
        }
    }

    /// Bytes of the category's fixed layout; an event packet has a layout
    /// per event code instead.
    pub open spec fn packet_size(self) -> nat {
        match self {
            PacketCategory::Motion => PACKET_MOTION_DATA_SIZE as nat,
            PacketCategory::Session => PACKET_SESSION_DATA_SIZE as nat,
            PacketCategory::LapData => PACKET_LAP_DATA_SIZE as nat,
            PacketCategory::Event => 0,
            PacketCategory::Participants => PACKET_PARTICIPANTS_DATA_SIZE as nat,
            PacketCategory::CarSetups => PACKET_CAR_SETUP_DATA_SIZE as nat,
            PacketCategory::CarTelemetry => PACKET_CAR_TELEMETRY_DATA_SIZE as nat,
            PacketCategory::CarStatus => PACKET_CAR_STATUS_DATA_SIZE as nat,
            PacketCategory::FinalClassification => PACKET_FINAL_CLASSIFICATION_DATA_SIZE as nat,
            PacketCategory::LobbyInfo => PACKET_LOBBY_INFO_DATA_SIZE as nat,
            PacketCategory::CarDamage => PACKET_CAR_DAMAGE_DATA_SIZE as nat,
            PacketCategory::SessionHistory => PACKET_SESSION_HISTORY_DATA_SIZE as nat,
        }
    }

    /// Routes a packet id to its category.
    pub fn from_packet_id(id: u8) -> (r: Result<PacketCategory, TelemetryError>)
        ensures
            r is Ok <==> category_of(id) is Some,
            r matches Ok(c) ==> category_of(id) == Some(c),
            r matches Err(e) ==> e.kind == TelemetryErrorKind::UnroutableCategory,
    {
        match id {
            0 => Ok(PacketCategory::Motion),
            1 => Ok(PacketCategory::Session),
            2 => Ok(PacketCategory::LapData),
            3 => Ok(PacketCategory::Event),
            4 => Ok(PacketCategory::Participants),
            5 => Ok(PacketCategory::CarSetups),
            6 => Ok(PacketCategory::CarTelemetry),
            7 => Ok(PacketCategory::CarStatus),
            8 => Ok(PacketCategory::FinalClassification),
            9 => Ok(PacketCategory::LobbyInfo),
            10 => Ok(PacketCategory::CarDamage),
            11 => Ok(PacketCategory::SessionHistory),
            _ => Err(TelemetryError::new(TelemetryErrorKind::UnroutableCategory)),
        }
    }

    pub fn packet_id(&self) -> (r: u8)
        ensures
            r == self.id(),
    {
        match self {
            PacketCategory::Motion => 0,
            PacketCategory::Session => 1,
            PacketCategory::LapData => 2,
            PacketCategory::Event => 3,
            PacketCategory::Participants => 4,
            PacketCategory::CarSetups => 5,
            PacketCategory::CarTelemetry => 6,
            PacketCategory::CarStatus => 7,
            PacketCategory::FinalClassification => 8,
            PacketCategory::LobbyInfo => 9,
            PacketCategory::CarDamage => 10,
            PacketCategory::SessionHistory => 11,
        }
    }
}

/// A decoded packet, one variant per category.
#[derive(Debug, PartialEq)]
pub enum TelemetryTypes {
    CarStatus(PacketCarStatusData),
    Motion(PacketMotionData),
    FinalClassification(PacketFinalClassificationData),
    Session(PacketSessionData),
    LapData(PacketLapData),
    Participants(PacketParticipantsData),
    CarSetup(PacketCarSetupData),
    CarTelemetry(PacketCarTelemetryData),
    LobbyInfo(PacketLobbyInfoData),
    CarDamage(PacketCarDamageData),
    SessionHistory(PacketSessionHistoryData),
    Event(PacketEventData),
}

impl TelemetryTypes {
    /// The category of the record.
    pub open spec fn category(self) -> PacketCategory {
        match self {
            TelemetryTypes::CarStatus(_) => PacketCategory::CarStatus,
            TelemetryTypes::Motion(_) => PacketCategory::Motion,
            TelemetryTypes::FinalClassification(_) => PacketCategory::FinalClassification,
            TelemetryTypes::Session(_) => PacketCategory::Session,
            TelemetryTypes::LapData(_) => PacketCategory::LapData,
            TelemetryTypes::Participants(_) => PacketCategory::Participants,
            TelemetryTypes::CarSetup(_) => PacketCategory::CarSetups,
            TelemetryTypes::CarTelemetry(_) => PacketCategory::CarTelemetry,
            TelemetryTypes::LobbyInfo(_) => PacketCategory::LobbyInfo,
            TelemetryTypes::CarDamage(_) => PacketCategory::CarDamage,
            TelemetryTypes::SessionHistory(_) => PacketCategory::SessionHistory,
            TelemetryTypes::Event(_) => PacketCategory::Event,
        }
    }

    /// The record is what the datagram `b` holds, in its category's layout.
    pub open spec fn decoded_from(self, b: Seq<u8>) -> bool {
        match self {
            TelemetryTypes::CarStatus(p) => packet_car_status_data_at(b, 0, p),
            TelemetryTypes::Motion(p) => packet_motion_data_at(b, 0, p),
            TelemetryTypes::FinalClassification(p) => packet_final_classification_data_at(b, 0, p),
            TelemetryTypes::Session(p) => packet_session_data_at(b, 0, p),
            TelemetryTypes::LapData(p) => packet_lap_data_at(b, 0, p),
            TelemetryTypes::Participants(p) => packet_participants_data_at(b, 0, p),
            TelemetryTypes::CarSetup(p) => packet_car_setup_data_at(b, 0, p),
            TelemetryTypes::CarTelemetry(p) => packet_car_telemetry_data_at(b, 0, p),
            TelemetryTypes::LobbyInfo(p) => packet_lobby_info_data_at(b, 0, p),
            TelemetryTypes::CarDamage(p) => packet_car_damage_data_at(b, 0, p),
            TelemetryTypes::SessionHistory(p) => packet_session_history_data_at(b, 0, p),
            TelemetryTypes::Event(p) => packet_event_data_at(b, 0, p),
        }
    }
}

/// The datagram `b` holds every byte that decoding it as category `c` reads.
pub open spec fn decodable(c: PacketCategory, b: Seq<u8>) -> bool {
    if c is Event {
        event_packet_complete(b)
    } else {
        c.packet_size() <= b.len()
    }
}

/// Decoding `b` as category `c` gives a record: it is long enough and, for an
/// event, names an event that carries a payload.
pub open spec fn yields_record(c: PacketCategory, b: Seq<u8>) -> bool {
    decodable(c, b) && (c is Event ==> names_payload_event(b))
}

/// `r` is the outcome of decoding the datagram `b` as category `c`.
pub open spec fn decode_outcome(
    c: PacketCategory,
    b: Seq<u8>,
    r: Result<Option<TelemetryTypes>, TelemetryError>,
) -> bool {
    &&& r is Ok <==> decodable(c, b)
    &&& r matches Err(e) ==> e.kind == TelemetryErrorKind::DecodeError
    &&& r matches Ok(o) ==> (o is Some <==> yields_record(c, b))
    &&& r matches Ok(Some(t)) ==> t.category() == c && t.decoded_from(b)
}

/// Decodes the datagram `b` with the layout of category `c`.
pub fn decode_packet(c: PacketCategory, b: &[u8]) -> (r: Result<
    Option<TelemetryTypes>,
    TelemetryError,
>)
    ensures
        decode_outcome(c, b@, r),
{
    match c {
        PacketCategory::Motion => match PacketMotionData::decode(b) {
            Ok(p) => Ok(Some(TelemetryTypes::Motion(p))),
            Err(e) => Err(e),
        },
        PacketCategory::Session => match PacketSessionData::decode(b) {
            Ok(p) => Ok(Some(TelemetryTypes::Session(p))),
            Err(e) => Err(e),
        },
        PacketCategory::LapData => match PacketLapData::decode(b) {
            Ok(p) => Ok(Some(TelemetryTypes::LapData(p))),
            Err(e) => Err(e),
        },
        PacketCategory::Event => match PacketEventData::decode(b) {
            Ok(Some(p)) => Ok(Some(TelemetryTypes::Event(p))),
            Ok(None) => Ok(None),
            Err(e) => Err(e),
        },
        PacketCategory::Participants => match PacketParticipantsData::decode(b) {
            Ok(p) => Ok(Some(TelemetryTypes::Participants(p))),
            Err(e) => Err(e),
        },
        PacketCategory::CarSetups => match PacketCarSetupData::decode(b) {
            Ok(p) => Ok(Some(TelemetryTypes::CarSetup(p))),
            Err(e) => Err(e),
        },
        PacketCategory::CarTelemetry => match PacketCarTelemetryData::decode(b) {
            Ok(p) => Ok(Some(TelemetryTypes::CarTelemetry(p))),
            Err(e) => Err(e),
        },
        PacketCategory::CarStatus => match PacketCarStatusData::decode(b) {
            Ok(p) => Ok(Some(TelemetryTypes::CarStatus(p))),
            Err(e) => Err(e),
        },
        PacketCategory::FinalClassification => match PacketFinalClassificationData::decode(b) {
            Ok(p) => Ok(Some(TelemetryTypes::FinalClassification(p))),
            Err(e) => Err(e),
        },
        PacketCategory::LobbyInfo => match PacketLobbyInfoData::decode(b) {
            Ok(p) => Ok(Some(TelemetryTypes::LobbyInfo(p))),
            Err(e) => Err(e),
        },
        PacketCategory::CarDamage => match PacketCarDamageData::decode(b) {
            Ok(p) => Ok(Some(TelemetryTypes::CarDamage(p))),
            Err(e) => Err(e),
        },
        PacketCategory::SessionHistory => match PacketSessionHistoryData::decode(b) {
            Ok(p) => Ok(Some(TelemetryTypes::SessionHistory(p))),
            Err(e) => Err(e),
        },
    }
}

} // verus!
