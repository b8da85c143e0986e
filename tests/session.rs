use discord_api::codec::GatewayEvent;
use discord_api::event_type::GatewayEventType;
use discord_api::outbound::GatewaySendEvent;
use discord_api::registry::{DiscordApiRequest, SessionError, State};
use discord_api::session::{Action, BotId, ConnectionState};
use discord_api::types::Hello;

fn bot() -> BotId {
    BotId::new("token-1".to_string(), 513)
}

/// A registry with one bot whose gateway connection was opened on `wss://gw`.
fn opened() -> (State, u32) {
    let mut s = State::new();
    let acts = s.connect("node@parent:pkg:sys".to_string(), bot()).unwrap();
    let channel = match acts.as_slice() {
        [Action::ResolveGateway { channel }] => *channel,
        other => panic!("unexpected {:?}", other),
    };
    let acts = s.gateway_resolved(channel, "wss://gw".to_string());
    match acts.as_slice() {
        [Action::OpenConnection { url, channel: c }] => {
            assert_eq!(url, "wss://gw?v=9&encoding=json");
            assert_eq!(*c, channel);
        }
        other => panic!("unexpected {:?}", other),
    }
    assert_eq!(s.status_of(&bot()), ConnectionState::AwaitingHello);
    (s, channel)
}

fn hello(s: &mut State, channel: u32, interval: u64) -> Vec<Action> {
    s.handle_push(channel, GatewayEvent::Hello(Hello { heartbeat_interval: interval }), None)
}

fn ready(s: &mut State, channel: u32, seq: u64) -> Vec<Action> {
    s.handle_push(
        channel,
        GatewayEvent::Ready {
            session_id: "sess-9".to_string(),
            resume_gateway_url: "wss://resume".to_string(),
        },
        Some(seq),
    )
}

#[test]
fn connect_then_disconnect_leaves_nothing() {
    let mut s = State::new();
    let acts = s.connect("parent".to_string(), bot()).unwrap();
    let channel = match acts.as_slice() {
        [Action::ResolveGateway { channel }] => *channel,
        other => panic!("unexpected {:?}", other),
    };
    assert_eq!(s.status_of(&bot()), ConnectionState::Connecting);
    assert!(s.route(channel).is_some());
    let acts = s.disconnect(&bot());
    match acts.as_slice() {
        [Action::CloseConnection { channel: c }] => assert_eq!(*c, channel),
        other => panic!("unexpected {:?}", other),
    }
    assert_eq!(s.status_of(&bot()), ConnectionState::Disconnected);
    assert!(s.route(channel).is_none());
    assert!(s.bots().is_empty());
}

#[test]
fn connect_twice_is_refused() {
    let mut s = State::new();
    assert!(s.connect("p".to_string(), bot()).is_ok());
    assert_eq!(s.connect("p".to_string(), bot()).unwrap_err(), SessionError::AlreadyConnected);
    assert_eq!(s.bots().len(), 1);
    let other = BotId::new("token-1".to_string(), 1);
    assert!(s.connect("p".to_string(), other).is_ok());
    assert_eq!(s.bots().len(), 2);
    assert_ne!(s.bots()[0].ws_client_channel, s.bots()[1].ws_client_channel);
}

#[test]
fn disconnect_of_unknown_bot_does_nothing() {
    let mut s = State::new();
    assert!(s.disconnect(&bot()).is_empty());
}

#[test]
fn hello_identifies_and_arms_heartbeat() {
    let (mut s, channel) = opened();
    let acts = hello(&mut s, channel, 41250);
    let timer = match acts.as_slice() {
        [Action::ArmHeartbeat { bot: b, interval, timer }, Action::Send { channel: c, event: GatewaySendEvent::Identify { token, intents, .. } }] =>
        {
            assert_eq!(b.token, "token-1");
            assert_eq!(*interval, 41250);
            assert_eq!(*c, channel);
            assert_eq!(token, "token-1");
            assert_eq!(*intents, 513);
            *timer
        }
        other => panic!("unexpected {:?}", other),
    };
    assert_eq!(s.status_of(&bot()), ConnectionState::Identifying);
    let acts = s.heartbeat_tick(&bot(), timer);
    match acts.as_slice() {
        [Action::Send { event: GatewaySendEvent::Heartbeat { seq }, .. }, Action::ArmHeartbeat { interval, timer: t, .. }] =>
        {
            assert_eq!(*seq, None);
            assert_eq!(*interval, 41250);
            assert_eq!(*t, timer);
        }
        other => panic!("unexpected {:?}", other),
    }
    let wire = match &acts[0] {
        Action::Send { event, .. } => event.to_json_bytes(),
        _ => unreachable!(),
    };
    assert_eq!(String::from_utf8(wire).unwrap(), "{\"op\":1,\"d\":null}");
}

#[test]
fn stale_heartbeat_tick_is_ignored() {
    let (mut s, channel) = opened();
    let acts = hello(&mut s, channel, 1000);
    let timer = match &acts[0] {
        Action::ArmHeartbeat { timer, .. } => *timer,
        other => panic!("unexpected {:?}", other),
    };
    assert!(s.heartbeat_tick(&bot(), timer + 1).is_empty());
    s.disconnect(&bot());
    assert!(s.heartbeat_tick(&bot(), timer).is_empty());
}

#[test]
fn ready_stores_session_and_forwards() {
    let (mut s, channel) = opened();
    hello(&mut s, channel, 1000);
    let acts = ready(&mut s, channel, 1);
    match acts.as_slice() {
        [Action::ForwardToParent { parent }] => assert_eq!(parent, "node@parent:pkg:sys"),
        other => panic!("unexpected {:?}", other),
    }
    let b = &s.bots()[0];
    assert!(b.gateway_connection_open);
    assert_eq!(b.session_id, "sess-9");
    assert_eq!(b.resume_gateway_url.as_deref(), Some("wss://resume"));
    assert_eq!(b.heartbeat_sequence, Some(1));
    assert_eq!(b.status, ConnectionState::SteadyState);
}

#[test]
fn domain_events_update_sequence_and_forward() {
    let (mut s, channel) = opened();
    hello(&mut s, channel, 1000);
    ready(&mut s, channel, 1);
    let acts = s.handle_push(channel, GatewayEvent::Dispatch(GatewayEventType::MessageCreate), Some(42));
    assert!(matches!(acts.as_slice(), [Action::ForwardToParent { .. }]));
    assert_eq!(s.bots()[0].heartbeat_sequence, Some(42));
    let acts = s.handle_push(channel, GatewayEvent::HeartbeatAck, None);
    assert!(acts.is_empty());
    assert_eq!(s.bots()[0].heartbeat_sequence, Some(42));
}

#[test]
fn reconnect_resumes_on_resume_url() {
    let (mut s, channel) = opened();
    hello(&mut s, channel, 1000);
    ready(&mut s, channel, 1);
    s.handle_push(channel, GatewayEvent::Dispatch(GatewayEventType::TypingStart), Some(42));
    let acts = s.handle_push(channel, GatewayEvent::Reconnect, None);
    match acts.as_slice() {
        [Action::OpenConnection { url, channel: c }, Action::Send { channel: c2, event: GatewaySendEvent::Resume { token, session_id, seq } }] =>
        {
            assert_eq!(url, "wss://resume?v=9&encoding=json");
            assert_eq!(*c, channel);
            assert_eq!(*c2, channel);
            assert_eq!(token, "token-1");
            assert_eq!(session_id, "sess-9");
            assert_eq!(*seq, 42);
        }
        other => panic!("unexpected {:?}", other),
    }
    assert_eq!(s.status_of(&bot()), ConnectionState::Reconnecting { resumable: true });
    let acts = s.handle_push(channel, GatewayEvent::Resumed, None);
    assert!(acts.is_empty());
    assert_eq!(s.status_of(&bot()), ConnectionState::SteadyState);
}

#[test]
fn non_resumable_invalid_session_reidentifies() {
    let (mut s, channel) = opened();
    hello(&mut s, channel, 1000);
    let acts = s.handle_push(channel, GatewayEvent::InvalidSession(false), None);
    match acts.as_slice() {
        [Action::ArmHeartbeat { interval, .. }, Action::Send { event: GatewaySendEvent::Identify { token, .. }, .. }] =>
        {
            assert_eq!(*interval, 1000);
            assert_eq!(token, "token-1");
        }
        other => panic!("unexpected {:?}", other),
    }
    let b = &s.bots()[0];
    assert!(b.resume_gateway_url.is_none());
    assert_eq!(b.session_id, "");
    assert_eq!(b.status, ConnectionState::Identifying);
}

#[test]
fn resumable_invalid_session_resumes() {
    let (mut s, channel) = opened();
    hello(&mut s, channel, 1000);
    let acts = s.handle_push(channel, GatewayEvent::InvalidSession(true), Some(5));
    match acts.as_slice() {
        [Action::Send { event: GatewaySendEvent::Resume { seq, .. }, .. }] => assert_eq!(*seq, 5),
        other => panic!("unexpected {:?}", other),
    }
    assert_eq!(s.status_of(&bot()), ConnectionState::Reconnecting { resumable: true });
}

#[test]
fn close_of_unrouted_channel_is_a_no_op() {
    let (mut s, channel) = opened();
    let acts = s.handle_close(channel + 100);
    assert!(acts.is_empty());
    assert_eq!(s.status_of(&bot()), ConnectionState::AwaitingHello);
    let mut empty = State::new();
    assert!(empty.handle_close(0).is_empty());
    assert!(empty.bots().is_empty());
}

#[test]
fn close_resets_and_reopens_then_hello_resumes() {
    let (mut s, channel) = opened();
    hello(&mut s, channel, 1000);
    ready(&mut s, channel, 7);
    let acts = s.handle_close(channel);
    match acts.as_slice() {
        [Action::OpenConnection { url, channel: c }] => {
            assert_eq!(url, "wss://gw?v=9&encoding=json");
            assert_eq!(*c, channel);
        }
        other => panic!("unexpected {:?}", other),
    }
    let b = &s.bots()[0];
    assert!(!b.gateway_connection_open);
    assert_eq!(b.heartbeat_interval, 0);
    assert_eq!(b.heartbeat_sequence, None);
    assert_eq!(b.session_id, "");
    assert_eq!(b.resume_gateway_url.as_deref(), Some("wss://resume"));
    let acts = hello(&mut s, channel, 1000);
    match acts.as_slice() {
        [Action::OpenConnection { url, .. }, Action::Send { event: GatewaySendEvent::Resume { seq, .. }, .. }] =>
        {
            assert_eq!(url, "wss://resume?v=9&encoding=json");
            assert_eq!(*seq, 0);
        }
        other => panic!("unexpected {:?}", other),
    }
    let acts = hello(&mut s, channel, 2000);
    assert!(matches!(acts.as_slice(), [Action::ArmHeartbeat { interval: 2000, .. }]));
}

#[test]
fn frames_on_unrouted_channels_are_dropped() {
    let (mut s, channel) = opened();
    let acts = s.handle_push(channel + 1, GatewayEvent::Hello(Hello { heartbeat_interval: 5 }), Some(3));
    assert!(acts.is_empty());
    assert_eq!(s.bots()[0].heartbeat_sequence, None);
}

#[test]
fn send_needs_a_live_connection() {
    let (mut s, channel) = opened();
    let ev = GatewaySendEvent::Heartbeat { seq: Some(1) };
    assert_eq!(s.send(&bot(), ev).unwrap_err(), SessionError::NotConnected);
    hello(&mut s, channel, 1000);
    let ev = GatewaySendEvent::UpdateVoiceState {
        guild_id: "g".to_string(),
        channel_id: None,
        self_mute: true,
        self_deaf: false,
    };
    let acts = s.send(&bot(), ev).unwrap();
    assert!(matches!(acts.as_slice(), [Action::Send { channel: c, event: GatewaySendEvent::UpdateVoiceState { .. } }] if *c == channel));
}

#[test]
fn api_requests_dispatch() {
    let mut s = State::new();
    let acts = s
        .handle_api_request("p".to_string(), DiscordApiRequest::Connect(bot()))
        .unwrap();
    assert!(matches!(acts.as_slice(), [Action::ResolveGateway { .. }]));
    let r = s.handle_api_request(
        "p".to_string(),
        DiscordApiRequest::Gateway { bot: bot(), event: GatewaySendEvent::Heartbeat { seq: None } },
    );
    assert_eq!(r.unwrap_err(), SessionError::NotConnected);
    let acts = s
        .handle_api_request("p".to_string(), DiscordApiRequest::Disconnect(bot()))
        .unwrap();
    assert!(matches!(acts.as_slice(), [Action::CloseConnection { .. }]));
    assert_eq!(s.status_of(&bot()), ConnectionState::Disconnected);
}

#[test]
fn abandoned_connect_can_be_retried() {
    let mut s = State::new();
    let acts = s.connect("p".to_string(), bot()).unwrap();
    let channel = match acts.as_slice() {
        [Action::ResolveGateway { channel }] => *channel,
        other => panic!("unexpected {:?}", other),
    };
    s.abandon_connect(channel);
    assert_eq!(s.status_of(&bot()), ConnectionState::Disconnected);
    assert!(s.connect("p".to_string(), bot()).is_ok());
}
