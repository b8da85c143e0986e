//! The event codec: from a frame's envelope (opcode, sequence number, tag) to
//! a gateway event, or to the error that says why the frame is dropped.
//!
//! Reading the payload against a record shape is serde's work; the functions
//! here take what that reading gave and decide the rest.

use vstd::prelude::*;
use crate::event_type::{event_type_of, GatewayEventType};
use crate::text::upper_of;
use crate::types::Hello;

verus! {

/// The envelope of an inbound frame: `{"op", "d", "s", "t"}`.
pub struct GatewayPayload {
    pub op: u32,
    pub d: serde_json::Value,
    pub s: Option<u64>,
    pub t: Option<String>,
}

/// Opcodes of inbound frames.
pub const OP_DISPATCH: u32 = 0;
pub const OP_HEARTBEAT: u32 = 1;
pub const OP_RECONNECT: u32 = 7;
pub const OP_INVALID_SESSION: u32 = 9;
pub const OP_HELLO: u32 = 10;
pub const OP_HEARTBEAT_ACK: u32 = 11;

/// Why a frame was dropped.
#[derive(Debug)]
pub enum DecodeError {
    /// The envelope could not be read; the raw bytes are kept for diagnostics.
    MalformedFrame(Vec<u8>),
    /// A dispatch frame whose tag names no known event type (soft).
    UnrecognizedEventType(String),
    /// A known event type whose payload does not have its shape (the frame is
    /// dropped, the session goes on).
    EventDecodeFailure { event_name: String },
    /// A Hello, Ready or InvalidSession payload that could not be read: fatal
    /// to the connection attempt.
    FatalControlDecodeFailure { event_name: String },
}

/// Which decoding a frame needs, chosen by its opcode and tag.
#[derive(Debug, Clone, Copy, PartialEq, Eq, Structural)]
pub enum FrameRoute {
    Heartbeat,
    Reconnect,
    InvalidSession,
    Hello,
    HeartbeatAck,
    Dispatch(GatewayEventType),
}

/// A decoded inbound frame, as the session manager consumes it. Domain events
/// are carried by their type only: the manager forwards them unread.
#[derive(Debug)]
pub enum GatewayEvent {
    Hello(Hello),
    Ready { session_id: String, resume_gateway_url: String },
    Resumed,
    Reconnect,
    InvalidSession(bool),
    Heartbeat,
    HeartbeatAck,
    Dispatch(GatewayEventType),
}

/// What the reading of a frame's payload gave, against the shape that the
/// frame's route expects.
#[derive(Debug)]
pub enum PayloadReading {
    /// The payload does not have the expected shape.
    Unreadable,
    /// A boolean payload.
    Flag(bool),
    /// A Hello payload.
    Hello(Hello),
    /// The fields of a Ready payload that the session keeps.
    Ready { session_id: String, resume_gateway_url: String },
    /// A payload that has the shape of its dispatch event type.
    Shaped,
}

/// The route of a control opcode; `None` for every other opcode, which is
/// read as a dispatch.
pub open spec fn control_route(op: u32) -> Option<FrameRoute> {
    if op == OP_HEARTBEAT {
        Some(FrameRoute::Heartbeat)
    } else if op == OP_RECONNECT {
        Some(FrameRoute::Reconnect)
    } else if op == OP_INVALID_SESSION {
        Some(FrameRoute::InvalidSession)
    } else if op == OP_HELLO {
        Some(FrameRoute::Hello)
    } else if op == OP_HEARTBEAT_ACK {
        Some(FrameRoute::HeartbeatAck)
    } else {
        None
    }
}

/// The tag of a frame as text; an absent tag reads as the empty string.
pub open spec fn tag_text(t: Option<String>) -> Seq<char> {
    match t {
        Some(s) => s@,
        None => Seq::empty(),
    }
}

/// The route of a frame, given its opcode and its tag once uppercased:
/// `None` when the frame is a dispatch with an unknown tag.
pub open spec fn route_of(op: u32, upper_tag: Seq<char>) -> Option<FrameRoute> {
    match control_route(op) {
        Some(r) => Some(r),
        None => match event_type_of(upper_tag) {
            Some(ty) => Some(FrameRoute::Dispatch(ty)),
            None => None,
        },
    }
}

/// The route of a frame, or `UnrecognizedEventType` with the frame's tag.
pub fn route_frame(op: u32, t: &Option<String>) -> (r: Result<FrameRoute, DecodeError>)
    ensures
        route_of(op, upper_of(tag_text(*t))) matches Some(route) ==> r == Ok::<
            FrameRoute,
            DecodeError,
        >(route),
        route_of(op, upper_of(tag_text(*t))) is None ==> (r matches Err(
            DecodeError::UnrecognizedEventType(tag),
        ) && tag@ == tag_text(*t)),
        forall|ty: GatewayEventType|
            control_route(op) is None && tag_text(*t) == ty.tag_spec() ==> r == Ok::<
                FrameRoute,
                DecodeError,
            >(FrameRoute::Dispatch(ty)),
{
    if op == OP_HEARTBEAT {
        Ok(FrameRoute::Heartbeat)
    } else if op == OP_RECONNECT {
        Ok(FrameRoute::Reconnect)
    } else if op == OP_INVALID_SESSION {
        Ok(FrameRoute::InvalidSession)
    } else if op == OP_HELLO {
        Ok(FrameRoute::Hello)
    } else if op == OP_HEARTBEAT_ACK {
        Ok(FrameRoute::HeartbeatAck)
    } else {
        let tag = match t {
            Some(s) => s.clone(),
            None => String::new(),
        };
        match GatewayEventType::from_str(tag.as_str()) {
            Some(ty) => Ok(FrameRoute::Dispatch(ty)),
            None => Err(DecodeError::UnrecognizedEventType(tag)),
        }
    }
}

/// The event that a route and the reading of its payload make, if the
/// reading fits the route. Opcodes without a payload of interest need none.
pub open spec fn event_of(route: FrameRoute, reading: PayloadReading) -> Option<GatewayEvent> {
    match route {
        FrameRoute::Heartbeat => Some(GatewayEvent::Heartbeat),
        FrameRoute::Reconnect => Some(GatewayEvent::Reconnect),
        FrameRoute::HeartbeatAck => Some(GatewayEvent::HeartbeatAck),
        FrameRoute::InvalidSession => match reading {
            PayloadReading::Flag(b) => Some(GatewayEvent::InvalidSession(b)),
            _ => None,
        },
        FrameRoute::Hello => match reading {
            PayloadReading::Hello(h) => Some(GatewayEvent::Hello(h)),
            _ => None,
        },
        FrameRoute::Dispatch(GatewayEventType::Ready) => match reading {
            PayloadReading::Ready { session_id, resume_gateway_url } => Some(
                GatewayEvent::Ready { session_id, resume_gateway_url },
            ),
            _ => None,
        },
        FrameRoute::Dispatch(GatewayEventType::Resumed) => Some(GatewayEvent::Resumed),
        FrameRoute::Dispatch(ty) => match reading {
            PayloadReading::Shaped => Some(GatewayEvent::Dispatch(ty)),
            _ => None,
        },
    }
}

/// Whether a payload that fails to read is fatal to the connection attempt.
pub open spec fn is_control_payload(route: FrameRoute) -> bool {
    route == FrameRoute::Hello || route == FrameRoute::InvalidSession || route
        == FrameRoute::Dispatch(GatewayEventType::Ready)
}

/// The name by which errors report a route.
pub open spec fn route_name(route: FrameRoute) -> Seq<char> {
    match route {
        FrameRoute::Heartbeat => "HEARTBEAT"@,
        FrameRoute::Reconnect => "RECONNECT"@,
        FrameRoute::InvalidSession => "INVALID_SESSION"@,
        FrameRoute::Hello => "HELLO"@,
        FrameRoute::HeartbeatAck => "HEARTBEAT_ACK"@,
        FrameRoute::Dispatch(ty) => ty.tag_spec(),
    }
}

/// The name by which errors report a route.
pub fn route_label(route: FrameRoute) -> (r: &'static str)
    ensures
        r@ == route_name(route),
{
    match route {
        FrameRoute::Heartbeat => "HEARTBEAT",
        FrameRoute::Reconnect => "RECONNECT",
        FrameRoute::InvalidSession => "INVALID_SESSION",
        FrameRoute::Hello => "HELLO",
        FrameRoute::HeartbeatAck => "HEARTBEAT_ACK",
        FrameRoute::Dispatch(ty) => ty.tag(),
    }
}

/// Makes the event of a frame from its route and the reading of its payload.
/// A reading that does not fit gives `FatalControlDecodeFailure` for Hello,
/// Ready and InvalidSession, and `EventDecodeFailure` for any other event,
/// each naming the event.
pub fn decode_event(route: FrameRoute, reading: PayloadReading) -> (r: Result<
    GatewayEvent,
    DecodeError,
>)
    ensures
        event_of(route, reading) matches Some(ev) ==> r == Ok::<GatewayEvent, DecodeError>(ev),
        event_of(route, reading) is None && is_control_payload(route) ==> (r matches Err(
            DecodeError::FatalControlDecodeFailure { event_name },
        ) && event_name@ == route_name(route)),
        event_of(route, reading) is None && !is_control_payload(route) ==> (r matches Err(
            DecodeError::EventDecodeFailure { event_name },
        ) && event_name@ == route_name(route)),
{
    let decoded: Option<GatewayEvent> = match route {
        FrameRoute::Heartbeat => Some(GatewayEvent::Heartbeat),
        FrameRoute::Reconnect => Some(GatewayEvent::Reconnect),
        FrameRoute::HeartbeatAck => Some(GatewayEvent::HeartbeatAck),
        FrameRoute::InvalidSession => match reading {
            PayloadReading::Flag(b) => Some(GatewayEvent::InvalidSession(b)),
            _ => None,
        },
        FrameRoute::Hello => match reading {
            PayloadReading::Hello(h) => Some(GatewayEvent::Hello(h)),
            _ => None,
        },
        FrameRoute::Dispatch(GatewayEventType::Ready) => match reading {
            PayloadReading::Ready { session_id, resume_gateway_url } => Some(
                GatewayEvent::Ready { session_id, resume_gateway_url },
            ),
            _ => None,
        },
        FrameRoute::Dispatch(GatewayEventType::Resumed) => Some(GatewayEvent::Resumed),
        FrameRoute::Dispatch(ty) => match reading {
            PayloadReading::Shaped => Some(GatewayEvent::Dispatch(ty)),
            _ => None,
        },
    };
    match decoded {
        Some(ev) => Ok(ev),
        None => {
            let name = String::from_str(route_label(route));
            let fatal = match route {
                FrameRoute::Hello => true,
                FrameRoute::InvalidSession => true,
                FrameRoute::Dispatch(GatewayEventType::Ready) => true,
                _ => false,
            };
            if fatal {
                Err(DecodeError::FatalControlDecodeFailure { event_name: name })
            } else {
                Err(DecodeError::EventDecodeFailure { event_name: name })
            }
        },
    }
}

/// The payload of a guild-create event, read first as a full guild and only
/// then as an unavailable-guild stub: at most one of the two is kept. `full`
/// and `stub` are the results of those two readings.
pub fn guild_create_payload<G, U>(full: Option<G>, stub: Option<U>) -> (r: Result<
    (Option<G>, Option<U>),
    DecodeError,
>)
    ensures
        full is Some ==> r == Ok::<(Option<G>, Option<U>), DecodeError>((full, None)),
        full is None && stub is Some ==> r == Ok::<(Option<G>, Option<U>), DecodeError>(
            (None, stub),
        ),
        full is None && stub is None ==> (r matches Err(
            DecodeError::EventDecodeFailure { event_name },
        ) && event_name@ == GatewayEventType::GuildCreate.tag_spec()),
{
    match full {
        Some(g) => Ok((Some(g), None)),
        None => match stub {
            Some(u) => Ok((None, Some(u))),
            None => Err(
                DecodeError::EventDecodeFailure {
                    event_name: String::from_str(GatewayEventType::GuildCreate.tag()),
                },
            ),
        },
    }
}

/// The tag of every dispatch event type routes back to that type, and a
/// payload read in the shape of that type makes a dispatch of that type
/// (Ready and Resumed are consumed as control events instead).
pub proof fn lemma_dispatch_round_trip(ty: GatewayEventType)
    ensures
        route_of(OP_DISPATCH, ty.tag_spec()) == Some(FrameRoute::Dispatch(ty)),
        ty != GatewayEventType::Ready && ty != GatewayEventType::Resumed ==> event_of(
            FrameRoute::Dispatch(ty),
            PayloadReading::Shaped,
        ) == Some(GatewayEvent::Dispatch(ty)),
{
    crate::event_type::lemma_tag_round_trip(ty);
}

} // verus!
