//! The event packet: a four-character code followed by a payload whose
//! layout the code selects.
use crate::errors::{TelemetryError, TelemetryErrorKind};
use crate::telemetry::{
    event_buttons_at, event_drive_through_penalty_served_at, event_fastest_lap_at,
    event_flashback_at, event_penalty_at, event_race_winner_at, event_retirement_at,
    event_speed_trap_at, event_start_lights_at, event_stop_go_penalty_served_at,
    event_team_mate_in_pits_at, packet_header_at, read_event_buttons,
    read_event_drive_through_penalty_served, read_event_fastest_lap, read_event_flashback,
    read_event_penalty, read_event_race_winner, read_event_retirement, read_event_speed_trap,
    read_event_start_lights, read_event_stop_go_penalty_served, read_event_team_mate_in_pits,
    read_packet_header, EventButtons, EventDriveThroughPenaltyServed, EventFastestLap,
    EventFlashback, EventPenalty, EventRaceWinner, EventRetirement, EventSpeedTrap,
    EventStartLights, EventStopGoPenaltyServed, EventTeamMateInPits, PacketHeader,
    EVENT_BUTTONS_SIZE, EVENT_DRIVE_THROUGH_PENALTY_SERVED_SIZE, EVENT_FASTEST_LAP_SIZE,
    EVENT_FLASHBACK_SIZE, EVENT_PENALTY_SIZE, EVENT_RACE_WINNER_SIZE, EVENT_RETIREMENT_SIZE,
    EVENT_SPEED_TRAP_SIZE, EVENT_START_LIGHTS_SIZE, EVENT_STOP_GO_PENALTY_SERVED_SIZE,
    EVENT_TEAM_MATE_IN_PITS_SIZE,
};
use crate::wire::read_char;
use vstd::prelude::*;

verus! {

/// Bytes before the payload of an event packet: the header and the code.
pub const EVENT_PREFIX_SIZE: usize = 28;

/// The event codes the protocol defines.
#[derive(Debug, Clone, Copy, PartialEq, Eq, Structural)]
pub enum EventCode {
    /// `SSTA`: the session started.
    SessionStarted,
    /// `SEND`: the session ended.
    SessionEnded,
    /// `FTLP`: a driver set the fastest lap.
    FastestLap,
    /// `RTMT`: a driver retired.
    Retirement,
    /// `DRSE`: DRS was enabled.
    DrsEnabled,
    /// `DRSD`: DRS was disabled.
    DrsDisabled,
    /// `TMPT`: the team mate is in the pits.
    TeamMateInPits,
    /// `CHQF`: the chequered flag was waved.
    ChequeredFlag,
    /// `RCWN`: the race winner is known.
    RaceWinner,
    /// `PENA`: a penalty was issued.
    Penalty,
    /// `SPTP`: a speed trap was triggered.
    SpeedTrap,
    /// `STLG`: the start lights changed.
    StartLights,
    /// `LGOT`: the lights went out.
    LightsOut,
    /// `DTSV`: a drive through penalty was served.
    DriveThroughServed,
    /// `SGSV`: a stop go penalty was served.
    StopGoServed,
    /// `FLBK`: a flashback was activated.
    Flashback,
    /// `BUTN`: the button status changed.
    Buttons,
}

/// `c` is the four characters `c0 c1 c2 c3`.
pub open spec fn spells(c: Seq<char>, c0: char, c1: char, c2: char, c3: char) -> bool {
    c.len() == 4 && c[0] == c0 && c[1] == c1 && c[2] == c2 && c[3] == c3
}

/// The event that a four-character code names, if any.
pub open spec fn event_code_of(c: Seq<char>) -> Option<EventCode> {
    if spells(c, 'S', 'S', 'T', 'A') {
        Some(EventCode::SessionStarted)
    } else if spells(c, 'S', 'E', 'N', 'D') {
        Some(EventCode::SessionEnded)
    } else if spells(c, 'F', 'T', 'L', 'P') {
        Some(EventCode::FastestLap)
    } else if spells(c, 'R', 'T', 'M', 'T') {
        Some(EventCode::Retirement)
    } else if spells(c, 'D', 'R', 'S', 'E') {
        Some(EventCode::DrsEnabled)
    } else if spells(c, 'D', 'R', 'S', 'D') {
        Some(EventCode::DrsDisabled)
    } else if spells(c, 'T', 'M', 'P', 'T') {
        Some(EventCode::TeamMateInPits)
    } else if spells(c, 'C', 'H', 'Q', 'F') {
        Some(EventCode::ChequeredFlag)
    } else if spells(c, 'R', 'C', 'W', 'N') {
        Some(EventCode::RaceWinner)
    } else if spells(c, 'P', 'E', 'N', 'A') {
        Some(EventCode::Penalty)
    } else if spells(c, 'S', 'P', 'T', 'P') {
        Some(EventCode::SpeedTrap)
    } else if spells(c, 'S', 'T', 'L', 'G') {
        Some(EventCode::StartLights)
    } else if spells(c, 'L', 'G', 'O', 'T') {
        Some(EventCode::LightsOut)
    } else if spells(c, 'D', 'T', 'S', 'V') {
        Some(EventCode::DriveThroughServed)
    } else if spells(c, 'S', 'G', 'S', 'V') {
        Some(EventCode::StopGoServed)
    } else if spells(c, 'F', 'L', 'B', 'K') {
        Some(EventCode::Flashback)
    } else if spells(c, 'B', 'U', 'T', 'N') {
        Some(EventCode::Buttons)
    } else {
        None
    }
}

/// The code stored in an event packet `b`, one character per byte.
pub open spec fn event_string_code_at(b: Seq<u8>) -> Seq<char> {
    seq![b[24] as char, b[25] as char, b[26] as char, b[27] as char]
}

impl EventCode {
    /// Whether the event carries a payload; the six that do not are only
    /// markers of the session's course.
    pub open spec fn has_payload(self) -> bool {
        !(self is SessionStarted || self is SessionEnded || self is DrsEnabled
            || self is DrsDisabled || self is ChequeredFlag || self is LightsOut)
    }

    /// Bytes of the payload that follows the code.
    pub open spec fn spec_payload_size(self) -> nat {
        match self {
            EventCode::FastestLap => EVENT_FASTEST_LAP_SIZE as nat,
            EventCode::Retirement => EVENT_RETIREMENT_SIZE as nat,
            EventCode::TeamMateInPits => EVENT_TEAM_MATE_IN_PITS_SIZE as nat,
            EventCode::RaceWinner => EVENT_RACE_WINNER_SIZE as nat,
            EventCode::Penalty => EVENT_PENALTY_SIZE as nat,
            EventCode::SpeedTrap => EVENT_SPEED_TRAP_SIZE as nat,
            EventCode::StartLights => EVENT_START_LIGHTS_SIZE as nat,
            EventCode::DriveThroughServed => EVENT_DRIVE_THROUGH_PENALTY_SERVED_SIZE as nat,
            EventCode::StopGoServed => EVENT_STOP_GO_PENALTY_SERVED_SIZE as nat,
            EventCode::Flashback => EVENT_FLASHBACK_SIZE as nat,
            EventCode::Buttons => EVENT_BUTTONS_SIZE as nat,
            _ => 0,
        }
    }

    /// Looks a four-character code up.
    pub fn from_chars(c: &[char; 4]) -> (r: Option<EventCode>)
        ensures
            r == event_code_of(c@),
    {
        let (c0, c1, c2, c3) = (c[0], c[1], c[2], c[3]);
        if c0 == 'S' && c1 == 'S' && c2 == 'T' && c3 == 'A' {
            Some(EventCode::SessionStarted)
        } else if c0 == 'S' && c1 == 'E' && c2 == 'N' && c3 == 'D' {
            Some(EventCode::SessionEnded)
        } else if c0 == 'F' && c1 == 'T' && c2 == 'L' && c3 == 'P' {
            Some(EventCode::FastestLap)
        } else if c0 == 'R' && c1 == 'T' && c2 == 'M' && c3 == 'T' {
            Some(EventCode::Retirement)
        } else if c0 == 'D' && c1 == 'R' && c2 == 'S' && c3 == 'E' {
            Some(EventCode::DrsEnabled)
        } else if c0 == 'D' && c1 == 'R' && c2 == 'S' && c3 == 'D' {
            Some(EventCode::DrsDisabled)
        } else if c0 == 'T' && c1 == 'M' && c2 == 'P' && c3 == 'T' {
            Some(EventCode::TeamMateInPits)
        } else if c0 == 'C' && c1 == 'H' && c2 == 'Q' && c3 == 'F' {
            Some(EventCode::ChequeredFlag)
        } else if c0 == 'R' && c1 == 'C' && c2 == 'W' && c3 == 'N' {
            Some(EventCode::RaceWinner)
        } else if c0 == 'P' && c1 == 'E' && c2 == 'N' && c3 == 'A' {
            Some(EventCode::Penalty)
        } else if c0 == 'S' && c1 == 'P' && c2 == 'T' && c3 == 'P' {
            Some(EventCode::SpeedTrap)
        } else if c0 == 'S' && c1 == 'T' && c2 == 'L' && c3 == 'G' {
            Some(EventCode::StartLights)
        } else if c0 == 'L' && c1 == 'G' && c2 == 'O' && c3 == 'T' {
            Some(EventCode::LightsOut)
        } else if c0 == 'D' && c1 == 'T' && c2 == 'S' && c3 == 'V' {
            Some(EventCode::DriveThroughServed)
        } else if c0 == 'S' && c1 == 'G' && c2 == 'S' && c3 == 'V' {
            Some(EventCode::StopGoServed)
        } else if c0 == 'F' && c1 == 'L' && c2 == 'B' && c3 == 'K' {
            Some(EventCode::Flashback)
        } else if c0 == 'B' && c1 == 'U' && c2 == 'T' && c3 == 'N' {
            Some(EventCode::Buttons)
        } else {
            None
        }
    }

    pub fn carries_payload(&self) -> (r: bool)
        ensures
            r == self.has_payload(),
    {
        match self {
            EventCode::SessionStarted | EventCode::SessionEnded | EventCode::DrsEnabled
            | EventCode::DrsDisabled | EventCode::ChequeredFlag | EventCode::LightsOut => false,
            _ => true,
        }
    }

    pub fn payload_size(&self) -> (r: usize)
        ensures
            r == self.spec_payload_size(),
    {
        match self {
            EventCode::FastestLap => EVENT_FASTEST_LAP_SIZE,
            EventCode::Retirement => EVENT_RETIREMENT_SIZE,
            EventCode::TeamMateInPits => EVENT_TEAM_MATE_IN_PITS_SIZE,
            EventCode::RaceWinner => EVENT_RACE_WINNER_SIZE,
            EventCode::Penalty => EVENT_PENALTY_SIZE,
            EventCode::SpeedTrap => EVENT_SPEED_TRAP_SIZE,
            EventCode::StartLights => EVENT_START_LIGHTS_SIZE,
            EventCode::DriveThroughServed => EVENT_DRIVE_THROUGH_PENALTY_SERVED_SIZE,
            EventCode::StopGoServed => EVENT_STOP_GO_PENALTY_SERVED_SIZE,
            EventCode::Flashback => EVENT_FLASHBACK_SIZE,
            EventCode::Buttons => EVENT_BUTTONS_SIZE,
            _ => 0,
        }
    }
}

/// The payload of an event, one variant per event that carries one.
#[derive(Debug, PartialEq)]
pub enum EventDataDetails {
    FastestLap(EventFastestLap),
    Retirement(EventRetirement),
    TeamMateInPits(EventTeamMateInPits),
    RaceWinner(EventRaceWinner),
    Penalty(EventPenalty),
    SpeedTrap(EventSpeedTrap),
    StartLights(EventStartLights),
    DriveThroughPenaltyServed(EventDriveThroughPenaltyServed),
    StopGoPenaltyServed(EventStopGoPenaltyServed),
    Flashback(EventFlashback),
    Buttons(EventButtons),
}

impl EventDataDetails {
    /// The event whose payload this is.
    pub open spec fn code(self) -> EventCode {
        match self {
            EventDataDetails::FastestLap(_) => EventCode::FastestLap,
            EventDataDetails::Retirement(_) => EventCode::Retirement,
            EventDataDetails::TeamMateInPits(_) => EventCode::TeamMateInPits,
            EventDataDetails::RaceWinner(_) => EventCode::RaceWinner,
            EventDataDetails::Penalty(_) => EventCode::Penalty,
            EventDataDetails::SpeedTrap(_) => EventCode::SpeedTrap,
            EventDataDetails::StartLights(_) => EventCode::StartLights,
            EventDataDetails::DriveThroughPenaltyServed(_) => EventCode::DriveThroughServed,
            EventDataDetails::StopGoPenaltyServed(_) => EventCode::StopGoServed,
            EventDataDetails::Flashback(_) => EventCode::Flashback,
            EventDataDetails::Buttons(_) => EventCode::Buttons,
        }
    }
}

/// `d` is the payload of event `c` that the bytes of `b` from `off` on hold.
pub open spec fn event_details_at(b: Seq<u8>, off: int, c: EventCode, d: EventDataDetails) -> bool {
    match c {
        EventCode::FastestLap => d matches EventDataDetails::FastestLap(x) && event_fastest_lap_at(
            b,
            off,
            x,
        ),
        EventCode::Retirement => d matches EventDataDetails::Retirement(x) && event_retirement_at(
            b,
            off,
            x,
        ),
        EventCode::TeamMateInPits => d matches EventDataDetails::TeamMateInPits(x)
            && event_team_mate_in_pits_at(b, off, x),
        EventCode::RaceWinner => d matches EventDataDetails::RaceWinner(x) && event_race_winner_at(
            b,
            off,
            x,
        ),
        EventCode::Penalty => d matches EventDataDetails::Penalty(x) && event_penalty_at(b, off, x),
        EventCode::SpeedTrap => d matches EventDataDetails::SpeedTrap(x) && event_speed_trap_at(
            b,
            off,
            x,
        ),
        EventCode::StartLights => d matches EventDataDetails::StartLights(x)
            && event_start_lights_at(b, off, x),
        EventCode::DriveThroughServed => d matches EventDataDetails::DriveThroughPenaltyServed(x)
            && event_drive_through_penalty_served_at(b, off, x),
        EventCode::StopGoServed => d matches EventDataDetails::StopGoPenaltyServed(x)
            && event_stop_go_penalty_served_at(b, off, x),
        EventCode::Flashback => d matches EventDataDetails::Flashback(x) && event_flashback_at(
            b,
            off,
            x,
        ),
        EventCode::Buttons => d matches EventDataDetails::Buttons(x) && event_buttons_at(b, off, x),
        _ => false,
    }
}

/// Decodes the payload of event `c` from `b[off..]`.
pub fn read_event_details(b: &[u8], off: usize, c: EventCode) -> (d: EventDataDetails)
    requires
        c.has_payload(),
        off + c.spec_payload_size() <= b.len(),
    ensures
        event_details_at(b@, off as int, c, d),
{
    match c {
        EventCode::FastestLap => EventDataDetails::FastestLap(read_event_fastest_lap(b, off)),
        EventCode::Retirement => EventDataDetails::Retirement(read_event_retirement(b, off)),
        EventCode::TeamMateInPits => EventDataDetails::TeamMateInPits(
            read_event_team_mate_in_pits(b, off),
        ),
        EventCode::RaceWinner => EventDataDetails::RaceWinner(read_event_race_winner(b, off)),
        EventCode::Penalty => EventDataDetails::Penalty(read_event_penalty(b, off)),
        EventCode::SpeedTrap => EventDataDetails::SpeedTrap(read_event_speed_trap(b, off)),
        EventCode::StartLights => EventDataDetails::StartLights(read_event_start_lights(b, off)),
        EventCode::DriveThroughServed => EventDataDetails::DriveThroughPenaltyServed(
            read_event_drive_through_penalty_served(b, off),
        ),
        EventCode::StopGoServed => EventDataDetails::StopGoPenaltyServed(
            read_event_stop_go_penalty_served(b, off),
        ),
        EventCode::Flashback => EventDataDetails::Flashback(read_event_flashback(b, off)),
        _ => EventDataDetails::Buttons(read_event_buttons(b, off)),
    }
}

/// Event packet: a code naming what happened, and its payload.
#[derive(Debug, PartialEq)]
pub struct PacketEventData {
    /// Header
    pub header: PacketHeader,
    /// Event string code
    pub event_string_code: [char; 4],
    /// Event details, laid out according to the code
    pub event_details: EventDataDetails,
}

/// `p` is the event packet that the bytes of `b` from `off` on hold.
pub open spec fn packet_event_data_at(b: Seq<u8>, off: int, p: PacketEventData) -> bool {
    &&& packet_header_at(b, off, p.header)
    &&& p.event_string_code@ == seq![
        b[off + 24] as char,
        b[off + 25] as char,
        b[off + 26] as char,
        b[off + 27] as char,
    ]
    &&& event_code_of(p.event_string_code@) matches Some(c)
    &&& event_details_at(b, off + EVENT_PREFIX_SIZE, c, p.event_details)
}

/// The event named by the code of the event packet `b`, if any.
pub open spec fn event_code_in(b: Seq<u8>) -> Option<EventCode> {
    event_code_of(event_string_code_at(b))
}

/// The event packet `b` names an event with a payload.
pub open spec fn names_payload_event(b: Seq<u8>) -> bool {
    event_code_in(b) matches Some(c) && c.has_payload()
}

/// The event packet `b` holds all the bytes that decoding it reads.
pub open spec fn event_packet_complete(b: Seq<u8>) -> bool {
    &&& EVENT_PREFIX_SIZE <= b.len()
    &&& names_payload_event(b) ==> EVENT_PREFIX_SIZE + event_code_in(b)->0.spec_payload_size()
        <= b.len()
}

impl PacketEventData {
    /// Decodes an event packet from the start of `b`. An event without a
    /// payload, or with an unknown code, decodes to `None`.
    pub fn decode(b: &[u8]) -> (r: Result<Option<PacketEventData>, TelemetryError>)
        ensures
            r is Ok <==> event_packet_complete(b@),
            r matches Err(e) ==> e.kind == TelemetryErrorKind::DecodeError,
            r matches Ok(o) ==> (o is Some <==> names_payload_event(b@)),
            r matches Ok(Some(p)) ==> packet_event_data_at(b@, 0, p),
    {
        if b.len() < EVENT_PREFIX_SIZE {
            return Err(TelemetryError::new(TelemetryErrorKind::DecodeError));
        }
        let code: [char; 4] = [read_char(b, 24), read_char(b, 25), read_char(b, 26), read_char(b, 27)];
        assert(code@ =~= event_string_code_at(b@));
        match EventCode::from_chars(&code) {
            None => Ok(None),
            Some(c) => {
                if !c.carries_payload() {
                    Ok(None)
                } else if b.len() < EVENT_PREFIX_SIZE + c.payload_size() {
                    Err(TelemetryError::new(TelemetryErrorKind::DecodeError))
                } else {
                    let header = read_packet_header(b, 0);
                    let event_details = read_event_details(b, EVENT_PREFIX_SIZE, c);
                    Ok(Some(PacketEventData { header, event_string_code: code, event_details }))
                }
            },
        }
    }
}

} // verus!
