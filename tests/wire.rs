use discord_api::outbound::GatewaySendEvent;
use discord_api::types::{
    ApplicationCommandOptionType, ApplicationCommandType, GatewayActivity, GatewayActivityEmoji,
    GatewayActivityParty, GatewayActivityTimestamps, GatewayPresenceUpdate,
};

fn text(e: &GatewaySendEvent) -> String {
    String::from_utf8(e.to_json_bytes()).unwrap()
}

#[test]
fn heartbeat_wire() {
    assert_eq!(text(&GatewaySendEvent::Heartbeat { seq: None }), "{\"op\":1,\"d\":null}");
    assert_eq!(text(&GatewaySendEvent::Heartbeat { seq: Some(42) }), "{\"op\":1,\"d\":42}");
    assert_eq!(
        text(&GatewaySendEvent::Heartbeat { seq: Some(u64::MAX) }),
        "{\"op\":1,\"d\":18446744073709551615}"
    );
}

#[test]
fn resume_wire_escapes_strings() {
    let e = GatewaySendEvent::Resume {
        token: "a\"b\\c".to_string(),
        session_id: "line\nbreak".to_string(),
        seq: 0,
    };
    assert_eq!(
        text(&e),
        "{\"op\":6,\"d\":{\"token\":\"a\\\"b\\\\c\",\"session_id\":\"line\\nbreak\",\"seq\":0}}"
    );
}

#[test]
fn identify_wire_fills_defaults() {
    let e = GatewaySendEvent::identify("tok".to_string(), 513);
    assert_eq!(
        text(&e),
        "{\"op\":2,\"d\":{\"token\":\"tok\",\"properties\":{\"os\":\"kinode\",\"browser\":\"kinode\",\"device\":\"kinode\"},\"compress\":false,\"large_threshold\":50,\"shard\":[0,1],\"presence\":null,\"guild_subscriptions\":null,\"intents\":513}}"
    );
}

#[test]
fn identify_wire_largest_intents() {
    let e = GatewaySendEvent::identify("t".to_string(), u128::MAX);
    assert!(text(&e).ends_with(",\"intents\":340282366920938463463374607431768211455}}"));
}

#[test]
fn request_guild_members_wire() {
    let e = GatewaySendEvent::RequestGuildMembers {
        guild_id: "41771983444115456".to_string(),
        query: Some("".to_string()),
        limit: 0,
        presences: None,
        user_ids: Some(vec!["1".to_string(), "2".to_string()]),
        nonce: "n".to_string(),
    };
    assert_eq!(
        text(&e),
        "{\"op\":8,\"d\":{\"guild_id\":\"41771983444115456\",\"query\":\"\",\"limit\":0,\"presences\":null,\"user_ids\":[\"1\",\"2\"],\"nonce\":\"n\"}}"
    );
    let e = GatewaySendEvent::RequestGuildMembers {
        guild_id: "g".to_string(),
        query: None,
        limit: 10,
        presences: Some(true),
        user_ids: Some(vec![]),
        nonce: "".to_string(),
    };
    assert_eq!(
        text(&e),
        "{\"op\":8,\"d\":{\"guild_id\":\"g\",\"query\":null,\"limit\":10,\"presences\":true,\"user_ids\":[],\"nonce\":\"\"}}"
    );
}

#[test]
fn update_voice_state_wire() {
    let e = GatewaySendEvent::UpdateVoiceState {
        guild_id: "g".to_string(),
        channel_id: Some("c".to_string()),
        self_mute: false,
        self_deaf: true,
    };
    assert_eq!(
        text(&e),
        "{\"op\":4,\"d\":{\"guild_id\":\"g\",\"channel_id\":\"c\",\"self_mute\":false,\"self_deaf\":true}}"
    );
}

fn activity() -> GatewayActivity {
    GatewayActivity {
        name: "game".to_string(),
        activity_type: 0,
        url: None,
        created_at: 1700000000,
        timestamps: Some(GatewayActivityTimestamps { start: Some(1), end: None }),
        application_id: None,
        details: None,
        state: Some("playing".to_string()),
        emoji: Some(GatewayActivityEmoji { name: "x".to_string(), id: None, animated: Some(false) }),
        party: Some(GatewayActivityParty { id: None, size: Some([2, 4]) }),
        assets: None,
        secrets: None,
        instance: None,
        flags: Some(3),
    }
}

#[test]
fn update_presence_wire() {
    let e = GatewaySendEvent::UpdatePresence {
        since: None,
        activities: Some(vec![activity(), activity()]),
        status: "online".to_string(),
        afk: false,
    };
    let one = "{\"name\":\"game\",\"type\":0,\"url\":null,\"created_at\":1700000000,\"timestamps\":{\"start\":1,\"end\":null},\"application_id\":null,\"details\":null,\"state\":\"playing\",\"emoji\":{\"name\":\"x\",\"id\":null,\"animated\":false},\"party\":{\"id\":null,\"size\":[2,4]},\"assets\":null,\"secrets\":null,\"instance\":null,\"flags\":3}";
    assert_eq!(
        text(&e),
        format!(
            "{{\"op\":3,\"d\":{{\"since\":null,\"activities\":[{},{}],\"status\":\"online\",\"afk\":false}}}}",
            one, one
        )
    );
}

#[test]
fn identify_with_presence_wire() {
    let e = GatewaySendEvent::Identify {
        token: "t".to_string(),
        properties: discord_api::types::GatewayIdentifyProperties {
            os: "linux".to_string(),
            browser: "b".to_string(),
            device: "d".to_string(),
        },
        compress: Some(true),
        large_threshold: Some(250),
        shard: Some([1, 2]),
        presence: Some(GatewayPresenceUpdate {
            since: Some(5),
            activities: None,
            status: "idle".to_string(),
            afk: true,
        }),
        guild_subscriptions: Some(false),
        intents: 0,
    };
    assert_eq!(
        text(&e),
        "{\"op\":2,\"d\":{\"token\":\"t\",\"properties\":{\"os\":\"linux\",\"browser\":\"b\",\"device\":\"d\"},\"compress\":true,\"large_threshold\":250,\"shard\":[1,2],\"presence\":{\"since\":5,\"activities\":null,\"status\":\"idle\",\"afk\":true},\"guild_subscriptions\":false,\"intents\":0}}"
    );
}

#[test]
fn option_type_codes() {
    assert_eq!(ApplicationCommandOptionType::SubCommand.as_u8(), 1);
    assert_eq!(ApplicationCommandOptionType::String.as_u8(), 3);
    assert_eq!(ApplicationCommandOptionType::Attachment.as_u8(), 11);
    assert_eq!(ApplicationCommandType::ChatInput.as_u8(), 1);
    assert_eq!(ApplicationCommandType::Message.as_u8(), 3);
}
