//! Decoding of the racing game's UDP telemetry: the builder that chooses the
//! packet categories to record, and the dispatch of one datagram into the
//! record of its category.
pub mod dispatch;
pub mod errors;
pub mod encode;
pub mod event;
pub mod laws;
pub mod telemetry;
pub mod wire;

pub use crate::errors::{TelemetryError, TelemetryErrorKind};

use crate::dispatch::{
    category_of, decode_outcome, decode_packet, yields_record, PacketCategory, TelemetryTypes,
};
use crate::telemetry::{PacketHeader, PACKET_HEADER_SIZE};
use vstd::prelude::*;

verus! {

/// Telemetry object: the endpoint to listen on and the packet ids to record.
pub struct Telemetry {
    endpoint: String,
    data: Vec<u8>,
}

impl Telemetry {
    /// The packet ids that are decoded and forwarded.
    pub closed spec fn subscription(&self) -> Set<u8> {
        self.data@.to_set()
    }

    /// The local address to listen on.
    pub closed spec fn spec_endpoint(&self) -> Seq<char> {
        self.endpoint@
    }

    pub fn endpoint(&self) -> (r: &String)
        ensures
            r@ == self.spec_endpoint(),
    {
        &self.endpoint
    }

    /// Whether packets with this id are wanted.
    pub fn is_wanted(&self, packet_id: u8) -> (r: bool)
        ensures
            r == self.subscription().contains(packet_id),
    {
        let mut k: usize = 0;
        while k < self.data.len()
            invariant
                k <= self.data@.len(),
                forall|j: int| 0 <= j < k ==> self.data@[j] != packet_id,
            decreases self.data@.len() - k,
        {
            if self.data[k] == packet_id {
                assert(self.data@.contains(packet_id));
                return true;
            }
            k = k + 1;
        }
        false
    }

    /// The datagram `b` is forwarded: it holds a header whose packet id is
    /// wanted, and decodes to a record of that id's category.
    pub open spec fn forwards(&self, b: Seq<u8>) -> bool {
        &&& PACKET_HEADER_SIZE <= b.len()
        &&& self.subscription().contains(b[5])
        &&& category_of(b[5]) matches Some(c) && yields_record(c, b)
    }

    /// Decodes one datagram, reporting why nothing came of it. A datagram
    /// whose packet id is not wanted, or routes nowhere, gives `Ok(None)`
    /// after the header alone has been read.
    pub fn try_dispatch(&self, b: &[u8]) -> (r: Result<Option<TelemetryTypes>, TelemetryError>)
        ensures
            b@.len() < PACKET_HEADER_SIZE <==> (r matches Err(e) && e.kind
                == TelemetryErrorKind::MalformedHeader),
            PACKET_HEADER_SIZE <= b@.len() && !self.subscription().contains(b@[5]) ==> r matches Ok(
                None,
            ),
            PACKET_HEADER_SIZE <= b@.len() && category_of(b@[5]) is None ==> r matches Ok(None),
            PACKET_HEADER_SIZE <= b@.len() && self.subscription().contains(b@[5]) ==> (category_of(
                b@[5],
            ) matches Some(c) ==> decode_outcome(c, b@, r)),
    {
        let header = match PacketHeader::decode(b) {
            Ok(h) => h,
            Err(e) => return Err(e),
        };
        if !self.is_wanted(header.packet_id) {
            return Ok(None);
        }
        match PacketCategory::from_packet_id(header.packet_id) {
            Ok(c) => decode_packet(c, b),
            Err(_) => Ok(None),
        }
    }

    /// Decodes one datagram into the record to forward, if any; whatever is
    /// malformed, unknown or not wanted gives `None`.
    pub fn dispatch(&self, b: &[u8]) -> (r: Option<TelemetryTypes>)
        ensures
            r is Some <==> self.forwards(b@),
            r matches Some(t) ==> category_of(b@[5]) == Some(t.category()) && t.decoded_from(b@),
    {
        match self.try_dispatch(b) {
            Ok(o) => o,
            Err(_) => None,
        }
    }
}

/// The packet id that slot `k` of a builder stands for, in slot order.
spec fn slot_id(k: int) -> u8 {
    if k == 0 {
        3
    } else if k == 1 {
        7
    } else if k == 2 {
        0
    } else if k == 3 {
        8
    } else if k == 4 {
        1
    } else if k == 5 {
        2
    } else if k == 6 {
        4
    } else if k == 7 {
        5
    } else if k == 8 {
        6
    } else {
        k as u8
    }
}

/// The slot of a builder that stands for packet id `id`; 12 for none.
spec fn slot_of(id: u8) -> int {
    match id {
        3 => 0,
        7 => 1,
        0 => 2,
        8 => 3,
        1 => 4,
        2 => 5,
        4 => 6,
        5 => 7,
        6 => 8,
        9 => 9,
        10 => 10,
        11 => 11,
        _ => 12,
    }
}

/// What slot `k` of a builder that has chosen `chosen` holds.
spec fn slot_entry(chosen: Set<u8>, k: int) -> Option<u8> {
    if chosen.contains(slot_id(k)) {
        Some(slot_id(k))
    } else {
        None
    }
}

/// `Some(id)` where `chosen`.
fn slot(chosen: bool, id: u8) -> (o: Option<u8>)
    ensures
        o == (if chosen { Some(id) } else { None }),
{
    if chosen {
        Some(id)
    } else {
        None
    }
}

/// All twelve packet ids.
pub open spec fn all_packet_ids() -> Set<u8> {
    Set::new(|id: u8| id <= 11)
}

/// Telemetry object builder. Choose the data that you want to record.
pub struct TelemetryBuilder {
    endpoint: String,
    events_data: bool,
    car_status_data: bool,
    motion_data: bool,
    final_classification_data: bool,
    session_data: bool,
    lap_data: bool,
    participants_data: bool,
    car_setup_data: bool,
    car_telemetry_data: bool,
    lobby_info_data: bool,
    car_damage_data: bool,
    session_history_data: bool,
}

impl View for TelemetryBuilder {
    /// The packet ids chosen so far.
    type V = Set<u8>;

    closed spec fn view(&self) -> Set<u8> {
        Set::new(|id: u8| self.selects(id))
    }
}

impl TelemetryBuilder {
    /// Packet id `id` is chosen.
    spec fn selects(&self, id: u8) -> bool {
        ||| id == 3 && self.events_data
        ||| id == 7 && self.car_status_data
        ||| id == 0 && self.motion_data
        ||| id == 8 && self.final_classification_data
        ||| id == 1 && self.session_data
        ||| id == 2 && self.lap_data
        ||| id == 4 && self.participants_data
        ||| id == 5 && self.car_setup_data
        ||| id == 6 && self.car_telemetry_data
        ||| id == 9 && self.lobby_info_data
        ||| id == 10 && self.car_damage_data
        ||| id == 11 && self.session_history_data
    }

    /// The local address the built telemetry will listen on.
    pub closed spec fn spec_endpoint(&self) -> Seq<char> {
        self.endpoint@
    }

    pub fn new(endpoint: String) -> (r: TelemetryBuilder)
        ensures
            r@ == Set::<u8>::empty(),
            r.spec_endpoint() == endpoint@,
    {
        let r = TelemetryBuilder {
            endpoint,
            events_data: false,
            car_status_data: false,
            motion_data: false,
            final_classification_data: false,
            session_data: false,
            lap_data: false,
            participants_data: false,
            car_setup_data: false,
            car_telemetry_data: false,
            lobby_info_data: false,
            car_damage_data: false,
            session_history_data: false,
        };
        assert(r@ =~= Set::<u8>::empty());
        r
    }

    pub fn add_events_data(self) -> (r: TelemetryBuilder)
        ensures
            r@ == self@.insert(3),
            r.spec_endpoint() == self.spec_endpoint(),
    {
        let mut r = self;
        r.events_data = true;
        assert(r@ =~= self@.insert(3));
        r
    }

    pub fn add_car_status_data(self) -> (r: TelemetryBuilder)
        ensures
            r@ == self@.insert(7),
            r.spec_endpoint() == self.spec_endpoint(),
    {
        let mut r = self;
        r.car_status_data = true;
        assert(r@ =~= self@.insert(7));
        r
    }

    pub fn add_motion_data(self) -> (r: TelemetryBuilder)
        ensures
            r@ == self@.insert(0),
            r.spec_endpoint() == self.spec_endpoint(),
    {
        let mut r = self;
        r.motion_data = true;
        assert(r@ =~= self@.insert(0));
        r
    }

    pub fn add_final_classification_data(self) -> (r: TelemetryBuilder)
        ensures
            r@ == self@.insert(8),
            r.spec_endpoint() == self.spec_endpoint(),
    {
        let mut r = self;
        r.final_classification_data = true;
        assert(r@ =~= self@.insert(8));
        r
    }

    pub fn add_session_data(self) -> (r: TelemetryBuilder)
        ensures
            r@ == self@.insert(1),
            r.spec_endpoint() == self.spec_endpoint(),
    {
        let mut r = self;
        r.session_data = true;
        assert(r@ =~= self@.insert(1));
        r
    }

    pub fn add_lap_data(self) -> (r: TelemetryBuilder)
        ensures
            r@ == self@.insert(2),
            r.spec_endpoint() == self.spec_endpoint(),
    {
        let mut r = self;
        r.lap_data = true;
        assert(r@ =~= self@.insert(2));
        r
    }

    pub fn add_participant_data(self) -> (r: TelemetryBuilder)
        ensures
            r@ == self@.insert(4),
            r.spec_endpoint() == self.spec_endpoint(),
    {
        let mut r = self;
        r.participants_data = true;
        assert(r@ =~= self@.insert(4));
        r
    }

    pub fn add_car_setup_data(self) -> (r: TelemetryBuilder)
        ensures
            r@ == self@.insert(5),
            r.spec_endpoint() == self.spec_endpoint(),
    {
        let mut r = self;
        r.car_setup_data = true;
        assert(r@ =~= self@.insert(5));
        r
    }

    pub fn add_car_telemetry_data(self) -> (r: TelemetryBuilder)
        ensures
            r@ == self@.insert(6),
            r.spec_endpoint() == self.spec_endpoint(),
    {
        let mut r = self;
        r.car_telemetry_data = true;
        assert(r@ =~= self@.insert(6));
        r
    }

    pub fn add_lobby_info_data(self) -> (r: TelemetryBuilder)
        ensures
            r@ == self@.insert(9),
            r.spec_endpoint() == self.spec_endpoint(),
    {
        let mut r = self;
        r.lobby_info_data = true;
        assert(r@ =~= self@.insert(9));
        r
    }

    pub fn add_car_damage_data(self) -> (r: TelemetryBuilder)
        ensures
            r@ == self@.insert(10),
            r.spec_endpoint() == self.spec_endpoint(),
    {
        let mut r = self;
        r.car_damage_data = true;
        assert(r@ =~= self@.insert(10));
        r
    }

    pub fn add_session_history_data(self) -> (r: TelemetryBuilder)
        ensures
            r@ == self@.insert(11),
            r.spec_endpoint() == self.spec_endpoint(),
    {
        let mut r = self;
        r.session_history_data = true;
        assert(r@ =~= self@.insert(11));
        r
    }

    /// Chooses every category, the event category included.
    pub fn add_all_data(self) -> (r: TelemetryBuilder)
        ensures
            r@ == self@.union(all_packet_ids()),
            r.spec_endpoint() == self.spec_endpoint(),
    {
        let r = self.add_events_data().add_all_data_except_events();
        assert(r@ =~= self@.union(all_packet_ids()));
        r
    }

    /// Chooses every category but the event category, which stays as it was.
    pub fn add_all_data_except_events(self) -> (r: TelemetryBuilder)
        ensures
            r@ == self@.union(all_packet_ids().remove(3)),
            r.spec_endpoint() == self.spec_endpoint(),
    {
        let r = self.add_car_status_data().add_motion_data().add_final_classification_data()
            .add_session_data().add_lap_data().add_participant_data().add_car_setup_data()
            .add_car_telemetry_data().add_lobby_info_data().add_car_damage_data()
            .add_session_history_data();
        assert(r@ =~= self@.union(all_packet_ids().remove(3)));
        r
    }

    /// The chosen ids, slot by slot.
    fn as_array(&self) -> (r: [Option<u8>; 12])
        ensures
            r@[0] == (if self.events_data { Some(3u8) } else { None }),
            r@[1] == (if self.car_status_data { Some(7u8) } else { None }),
            r@[2] == (if self.motion_data { Some(0u8) } else { None }),
            r@[3] == (if self.final_classification_data { Some(8u8) } else { None }),
            r@[4] == (if self.session_data { Some(1u8) } else { None }),
            r@[5] == (if self.lap_data { Some(2u8) } else { None }),
            r@[6] == (if self.participants_data { Some(4u8) } else { None }),
            r@[7] == (if self.car_setup_data { Some(5u8) } else { None }),
            r@[8] == (if self.car_telemetry_data { Some(6u8) } else { None }),
            r@[9] == (if self.lobby_info_data { Some(9u8) } else { None }),
            r@[10] == (if self.car_damage_data { Some(10u8) } else { None }),
            r@[11] == (if self.session_history_data { Some(11u8) } else { None }),
    {
        [
            slot(self.events_data, 3),
            slot(self.car_status_data, 7),
            slot(self.motion_data, 0),
            slot(self.final_classification_data, 8),
            slot(self.session_data, 1),
            slot(self.lap_data, 2),
            slot(self.participants_data, 4),
            slot(self.car_setup_data, 5),
            slot(self.car_telemetry_data, 6),
            slot(self.lobby_info_data, 9),
            slot(self.car_damage_data, 10),
            slot(self.session_history_data, 11),
        ]
    }

    /// The telemetry object that records the chosen categories.
    pub fn build(self) -> (r: Telemetry)
        ensures
            r.subscription() == self@,
            r.spec_endpoint() == self.spec_endpoint(),
    {
        let slots = self.as_array();
        let mut data: Vec<u8> = Vec::new();
        let mut k: usize = 0;
        assert(forall|id: u8| self@.contains(id) ==> slot_of(id) < 12 && slot_id(slot_of(id)) == id);
        while k < 12
            invariant
                k <= 12,
                forall|j: int| 0 <= j < 12 ==> #[trigger] slots@[j] == slot_entry(self@, j),
                forall|id: u8| self@.contains(id) ==> slot_of(id) < 12 && slot_id(slot_of(id)) == id,
                forall|id: u8| #[trigger] data@.contains(id) <==> (self@.contains(id) && slot_of(id) < k),
            decreases 12 - k,
        {
            let ghost before = data@;
            let ghost v = slot_id(k as int);
            assert(slot_of(v) == k);
            let entry = slots[k];
            assert(entry == slot_entry(self@, k as int));
            match entry {
                Some(id) => {
                    data.push(id);
                    assert(id == v && self@.contains(v));
                },
                None => {
                    assert(!self@.contains(v));
                },
            }
            assert forall|id: u8| #[trigger]
                data@.contains(id) <==> (self@.contains(id) && slot_of(id) < k + 1) by {
                if self@.contains(id) && slot_of(id) == k {
                    assert(slot_id(slot_of(id)) == id);
                }
                if entry is Some {
                    assert(data@ == before.push(v));
                    vstd::seq_lib::lemma_seq_contains_after_push(before, v, id);
                } else {
                    assert(data@ == before);
                }
                assert(before.contains(id) <==> (self@.contains(id) && slot_of(id) < k));
            }
            k = k + 1;
        }
        let r = Telemetry { endpoint: self.endpoint, data };
        assert(r.subscription() =~= self@);
        r
    }
}

} // verus!
