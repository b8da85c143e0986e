use discord_api::codec::{
    decode_event, guild_create_payload, route_frame, DecodeError, FrameRoute, GatewayEvent,
    PayloadReading,
};
use discord_api::event_type::GatewayEventType;
use discord_api::types::{Hello, UnavailableGuild};

#[test]
fn from_str_reads_any_case() {
    assert_eq!(
        GatewayEventType::from_str("message_create"),
        Some(GatewayEventType::MessageCreate)
    );
    assert_eq!(
        GatewayEventType::from_str("Guild_Create"),
        Some(GatewayEventType::GuildCreate)
    );
    assert_eq!(GatewayEventType::from_str("READY"), Some(GatewayEventType::Ready));
    assert_eq!(
        GatewayEventType::from_str("AUTOMODERATION_RULE_CREATE"),
        Some(GatewayEventType::AutoModerationRuleCreate)
    );
}

#[test]
fn from_str_rejects_unknown_tags() {
    assert_eq!(GatewayEventType::from_str("NOT_AN_EVENT"), None);
    assert_eq!(GatewayEventType::from_str(""), None);
    assert_eq!(GatewayEventType::from_str("MESSAGE_CREATE "), None);
}

#[test]
fn from_upper_is_exact() {
    assert_eq!(
        GatewayEventType::from_upper("WEBHOOKS_UPDATE"),
        Some(GatewayEventType::WebhooksUpdate)
    );
    assert_eq!(GatewayEventType::from_upper("webhooks_update"), None);
}

#[test]
fn tags_round_trip_through_the_table() {
    let all = [
        GatewayEventType::Ready,
        GatewayEventType::Resumed,
        GatewayEventType::ChannelPinsUpdate,
        GatewayEventType::GuildCreate,
        GatewayEventType::GuildScheduledEventUserRemove,
        GatewayEventType::MessageReactionRemoveEmoji,
        GatewayEventType::VoiceServerUpdate,
        GatewayEventType::WebhooksUpdate,
    ];
    for ty in all {
        assert_eq!(GatewayEventType::from_str(ty.tag()), Some(ty));
        assert_eq!(GatewayEventType::from_str(&ty.tag().to_lowercase()), Some(ty));
    }
}

#[test]
fn control_opcodes_route_without_a_tag() {
    assert_eq!(route_frame(1, &None).unwrap(), FrameRoute::Heartbeat);
    assert_eq!(route_frame(7, &None).unwrap(), FrameRoute::Reconnect);
    assert_eq!(route_frame(9, &None).unwrap(), FrameRoute::InvalidSession);
    assert_eq!(route_frame(10, &None).unwrap(), FrameRoute::Hello);
    assert_eq!(route_frame(11, &Some("READY".to_string())).unwrap(), FrameRoute::HeartbeatAck);
}

#[test]
fn dispatch_routes_by_tag() {
    assert_eq!(
        route_frame(0, &Some("MESSAGE_CREATE".to_string())).unwrap(),
        FrameRoute::Dispatch(GatewayEventType::MessageCreate)
    );
    assert_eq!(
        route_frame(0, &Some("typing_start".to_string())).unwrap(),
        FrameRoute::Dispatch(GatewayEventType::TypingStart)
    );
}

#[test]
fn unknown_tag_is_unrecognized() {
    match route_frame(0, &Some("SOMETHING_NEW".to_string())) {
        Err(DecodeError::UnrecognizedEventType(tag)) => assert_eq!(tag, "SOMETHING_NEW"),
        other => panic!("unexpected {:?}", other),
    }
    match route_frame(0, &None) {
        Err(DecodeError::UnrecognizedEventType(tag)) => assert_eq!(tag, ""),
        other => panic!("unexpected {:?}", other),
    }
}

#[test]
fn invalid_session_flag_decodes() {
    match decode_event(FrameRoute::InvalidSession, PayloadReading::Flag(true)) {
        Ok(GatewayEvent::InvalidSession(true)) => {}
        other => panic!("unexpected {:?}", other),
    }
    match decode_event(FrameRoute::InvalidSession, PayloadReading::Flag(false)) {
        Ok(GatewayEvent::InvalidSession(false)) => {}
        other => panic!("unexpected {:?}", other),
    }
}

#[test]
fn malformed_invalid_session_is_an_error() {
    match decode_event(FrameRoute::InvalidSession, PayloadReading::Unreadable) {
        Err(DecodeError::FatalControlDecodeFailure { event_name }) => {
            assert_eq!(event_name, "INVALID_SESSION")
        }
        other => panic!("unexpected {:?}", other),
    }
}

#[test]
fn hello_decodes_and_malformed_hello_is_fatal() {
    match decode_event(
        FrameRoute::Hello,
        PayloadReading::Hello(Hello { heartbeat_interval: 41250 }),
    ) {
        Ok(GatewayEvent::Hello(h)) => assert_eq!(h.heartbeat_interval, 41250),
        other => panic!("unexpected {:?}", other),
    }
    match decode_event(FrameRoute::Hello, PayloadReading::Shaped) {
        Err(DecodeError::FatalControlDecodeFailure { event_name }) => assert_eq!(event_name, "HELLO"),
        other => panic!("unexpected {:?}", other),
    }
}

#[test]
fn ready_keeps_session_fields() {
    let reading = PayloadReading::Ready {
        session_id: "abc".to_string(),
        resume_gateway_url: "wss://resume.example".to_string(),
    };
    match decode_event(FrameRoute::Dispatch(GatewayEventType::Ready), reading) {
        Ok(GatewayEvent::Ready { session_id, resume_gateway_url }) => {
            assert_eq!(session_id, "abc");
            assert_eq!(resume_gateway_url, "wss://resume.example");
        }
        other => panic!("unexpected {:?}", other),
    }
    match decode_event(FrameRoute::Dispatch(GatewayEventType::Ready), PayloadReading::Unreadable) {
        Err(DecodeError::FatalControlDecodeFailure { event_name }) => assert_eq!(event_name, "READY"),
        other => panic!("unexpected {:?}", other),
    }
}

#[test]
fn domain_payload_shape_decides() {
    match decode_event(FrameRoute::Dispatch(GatewayEventType::MessageCreate), PayloadReading::Shaped) {
        Ok(GatewayEvent::Dispatch(GatewayEventType::MessageCreate)) => {}
        other => panic!("unexpected {:?}", other),
    }
    match decode_event(
        FrameRoute::Dispatch(GatewayEventType::MessageCreate),
        PayloadReading::Unreadable,
    ) {
        Err(DecodeError::EventDecodeFailure { event_name }) => {
            assert_eq!(event_name, "MESSAGE_CREATE")
        }
        other => panic!("unexpected {:?}", other),
    }
    match decode_event(FrameRoute::Dispatch(GatewayEventType::Resumed), PayloadReading::Unreadable) {
        Ok(GatewayEvent::Resumed) => {}
        other => panic!("unexpected {:?}", other),
    }
    match decode_event(FrameRoute::HeartbeatAck, PayloadReading::Unreadable) {
        Ok(GatewayEvent::HeartbeatAck) => {}
        other => panic!("unexpected {:?}", other),
    }
}

fn stub() -> UnavailableGuild {
    UnavailableGuild { id: "g1".to_string(), unavailable: true }
}

#[test]
fn guild_create_prefers_full_guild() {
    let r = guild_create_payload(Some("full guild"), Some(stub())).unwrap();
    assert_eq!(r.0, Some("full guild"));
    assert!(r.1.is_none());
}

#[test]
fn guild_create_falls_back_to_stub() {
    let r = guild_create_payload::<&str, UnavailableGuild>(None, Some(stub())).unwrap();
    assert!(r.0.is_none());
    let s = r.1.unwrap();
    assert_eq!(s.id, "g1");
    assert!(s.unavailable);
}

#[test]
fn guild_create_matching_neither_fails() {
    match guild_create_payload::<&str, UnavailableGuild>(None, None) {
        Err(DecodeError::EventDecodeFailure { event_name }) => assert_eq!(event_name, "GUILD_CREATE"),
        other => panic!("unexpected {:?}", other),
    }
}
