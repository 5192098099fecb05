//! Properties of dispatch that hold of every datagram.
use crate::dispatch::{category_of, PacketCategory, TelemetryTypes};
use crate::event::{event_code_in, names_payload_event, EVENT_PREFIX_SIZE};
use crate::telemetry::PACKET_HEADER_SIZE;
use crate::Telemetry;
use vstd::prelude::*;

verus! {

/// A datagram whose packet id is not subscribed to is never forwarded,
/// whatever follows its header.
pub proof fn law_unsubscribed_is_dropped(t: &Telemetry, b: Seq<u8>)
    requires
        PACKET_HEADER_SIZE <= b.len(),
        !t.subscription().contains(b[5]),
    ensures
        !t.forwards(b),
{
}

/// A subscribed datagram of a fixed-layout category that is at least as long
/// as its layout is forwarded.
pub proof fn law_subscribed_complete_packet_is_forwarded(t: &Telemetry, b: Seq<u8>, c: PacketCategory)
    requires
        PACKET_HEADER_SIZE <= b.len(),
        t.subscription().contains(b[5]),
        category_of(b[5]) == Some(c),
        !(c is Event),
        c.packet_size() <= b.len(),
    ensures
        t.forwards(b),
{
}

/// A subscribed event datagram whose code names one of the events without a
/// payload is never forwarded.
pub proof fn law_zero_payload_event_is_dropped(t: &Telemetry, b: Seq<u8>)
    requires
        EVENT_PREFIX_SIZE <= b.len(),
        b[5] == 3,
        event_code_in(b) matches Some(c) && !c.has_payload(),
    ensures
        !t.forwards(b),
{
}

/// A subscribed event datagram with an unknown code is never forwarded.
pub proof fn law_unknown_event_is_dropped(t: &Telemetry, b: Seq<u8>)
    requires
        EVENT_PREFIX_SIZE <= b.len(),
        b[5] == 3,
        event_code_in(b) is None,
    ensures
        !t.forwards(b),
{
}

/// A subscribed event datagram whose code names an event with a payload, and
/// that holds the whole payload, is forwarded.
pub proof fn law_payload_event_is_forwarded(t: &Telemetry, b: Seq<u8>)
    requires
        b[5] == 3,
        t.subscription().contains(b[5]),
        event_code_in(b) matches Some(c) && c.has_payload() && EVENT_PREFIX_SIZE
            + c.spec_payload_size() <= b.len(),
    ensures
        t.forwards(b),
{
}

/// A decoded event record carries the payload of the event its code names.
pub proof fn law_event_payload_matches_code(b: Seq<u8>, r: TelemetryTypes)
    requires
        r.decoded_from(b),
        r is Event,
    ensures
        names_payload_event(b),
        event_code_in(b) == Some(r->Event_0.event_details.code()),
{
    assert(r->Event_0.event_string_code@ =~= crate::event::event_string_code_at(b));
}

} // verus!
