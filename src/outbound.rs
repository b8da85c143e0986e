//! Outbound gateway messages and their JSON wire form `{"op": .., "d": ..}`.

use vstd::prelude::*;
use vstd::seq_lib::lemma_concat_associative;
use crate::json::{
    jbool, jlist, jnum, jopt_bool, jopt_num, jopt_pair, jopt_str, joined, jpair, jstr, jstr_list,
    lemma_joined_push, lit, push_bool, push_jstr, push_lit, push_num, push_opt_bool, push_opt_num,
    push_opt_pair, push_opt_str, push_pair, push_str_list,
};
use crate::types::{
    GatewayActivity, GatewayActivityAssets, GatewayActivityEmoji, GatewayActivityParty,
    GatewayActivitySecrets, GatewayActivityTimestamps, GatewayIdentifyProperties,
    GatewayPresenceUpdate,
};

verus! {

/// A message that the client sends on the gateway.
#[derive(Debug)]
pub enum GatewaySendEvent {
    Identify {
        token: String,
        properties: GatewayIdentifyProperties,
        compress: Option<bool>,
        large_threshold: Option<u64>,
        shard: Option<[u64; 2]>,
        presence: Option<GatewayPresenceUpdate>,
        guild_subscriptions: Option<bool>,
        intents: u128,
    },
    Resume { token: String, session_id: String, seq: u64 },
    Heartbeat { seq: Option<u64> },
    RequestGuildMembers {
        guild_id: String,
        query: Option<String>,
        limit: u64,
        presences: Option<bool>,
        user_ids: Option<Vec<String>>,
        nonce: String,
    },
    UpdateVoiceState {
        guild_id: String,
        channel_id: Option<String>,
        self_mute: bool,
        self_deaf: bool,
    },
    UpdatePresence {
        since: Option<u64>,
        activities: Option<Vec<GatewayActivity>>,
        status: String,
        afk: bool,
    },
}

/// The name this client gives for its operating system, browser and device
/// when it identifies.
pub const CLIENT_NAME: &'static str = "kinode";

/// What the session manager needs to know of an outbound message.
pub enum Outbound {
    /// An Identify with the client's own properties and no optional field set.
    Identify { token: Seq<char>, intents: u128 },
    Resume { token: Seq<char>, session_id: Seq<char>, seq: u64 },
    Heartbeat { seq: Option<u64> },
    /// Any other message, as it is.
    Other(GatewaySendEvent),
}

/// Whether identify properties are the client's own.
pub open spec fn is_client_properties(p: GatewayIdentifyProperties) -> bool {
    p.os@ == CLIENT_NAME@ && p.browser@ == CLIENT_NAME@ && p.device@ == CLIENT_NAME@
}

impl GatewaySendEvent {
    /// The message as the session manager sees it.
    pub open spec fn outbound(self) -> Outbound {
        match self {
            GatewaySendEvent::Identify {
                token,
                properties,
                compress,
                large_threshold,
                shard,
                presence,
                guild_subscriptions,
                intents,
            } => if is_client_properties(properties) && compress is None && large_threshold is None
                && shard is None && presence is None && guild_subscriptions is None {
                Outbound::Identify { token: token@, intents }
            } else {
                Outbound::Other(self)
            },
            GatewaySendEvent::Resume { token, session_id, seq } => Outbound::Resume {
                token: token@,
                session_id: session_id@,
                seq,
            },
            GatewaySendEvent::Heartbeat { seq } => Outbound::Heartbeat { seq },
            _ => Outbound::Other(self),
        }
    }

    /// The Identify message of a bot: its credentials and capabilities, with
    /// the client's own properties.
    pub fn identify(token: String, intents: u128) -> (r: GatewaySendEvent)
        ensures
            r.outbound() == (Outbound::Identify { token: token@, intents }),
    {
        GatewaySendEvent::Identify {
            token,
            properties: GatewayIdentifyProperties {
                os: String::from_str(CLIENT_NAME),
                browser: String::from_str(CLIENT_NAME),
                device: String::from_str(CLIENT_NAME),
            },
            compress: None,
            large_threshold: None,
            shard: None,
            presence: None,
            guild_subscriptions: None,
            intents,
        }
    }
}

impl GatewayIdentifyProperties {
    /// The JSON object of the record, fields in declaration order.
    #[verifier::opaque]
    pub open spec fn json(self) -> Seq<u8> {
        lit("{\"os\":")
            + jstr(self.os)
            + lit(",\"browser\":")
            + jstr(self.browser)
            + lit(",\"device\":")
            + jstr(self.device)
            + lit("}")
    }

    pub fn write_json(&self, out: &mut Vec<u8>)
        ensures
            final(out)@ == old(out)@ + self.json(),
    {
        push_lit(out, "{\"os\":");
        push_jstr(out, &self.os);
        push_lit(out, ",\"browser\":");
        push_jstr(out, &self.browser);
        push_lit(out, ",\"device\":");
        push_jstr(out, &self.device);
        push_lit(out, "}");
        reveal(GatewayIdentifyProperties::json);
        assert(out@ =~= old(out)@ + self.json());
    }
}

impl GatewayActivityTimestamps {
    /// The JSON object of the record, fields in declaration order.
    #[verifier::opaque]
    pub open spec fn json(self) -> Seq<u8> {
        lit("{\"start\":")
            + jopt_num(self.start)
            + lit(",\"end\":")
            + jopt_num(self.end)
            + lit("}")
    }

    pub fn write_json(&self, out: &mut Vec<u8>)
        ensures
            final(out)@ == old(out)@ + self.json(),
    {
        push_lit(out, "{\"start\":");
        push_opt_num(out, self.start);
        push_lit(out, ",\"end\":");
        push_opt_num(out, self.end);
        push_lit(out, "}");
        reveal(GatewayActivityTimestamps::json);
        assert(out@ =~= old(out)@ + self.json());
    }
}

impl GatewayActivityEmoji {
    /// The JSON object of the record, fields in declaration order.
    #[verifier::opaque]
    pub open spec fn json(self) -> Seq<u8> {
        lit("{\"name\":")
            + jstr(self.name)
            + lit(",\"id\":")
            + jopt_num(self.id)
            + lit(",\"animated\":")
            + jopt_bool(self.animated)
            + lit("}")
    }

    pub fn write_json(&self, out: &mut Vec<u8>)
        ensures
            final(out)@ == old(out)@ + self.json(),
    {
        push_lit(out, "{\"name\":");
        push_jstr(out, &self.name);
        push_lit(out, ",\"id\":");
        push_opt_num(out, self.id);
        push_lit(out, ",\"animated\":");
        push_opt_bool(out, self.animated);
        push_lit(out, "}");
        reveal(GatewayActivityEmoji::json);
        assert(out@ =~= old(out)@ + self.json());
    }
}

impl GatewayActivityParty {
    /// The JSON object of the record, fields in declaration order.
    #[verifier::opaque]
    pub open spec fn json(self) -> Seq<u8> {
        lit("{\"id\":")
            + jopt_str(self.id)
            + lit(",\"size\":")
            + jopt_pair(self.size)
            + lit("}")
    }

    pub fn write_json(&self, out: &mut Vec<u8>)
        ensures
            final(out)@ == old(out)@ + self.json(),
    {
        push_lit(out, "{\"id\":");
        push_opt_str(out, &self.id);
        push_lit(out, ",\"size\":");
        push_opt_pair(out, self.size);
        push_lit(out, "}");
        reveal(GatewayActivityParty::json);
        assert(out@ =~= old(out)@ + self.json());
    }
}

impl GatewayActivityAssets {
    /// The JSON object of the record, fields in declaration order.
    #[verifier::opaque]
    pub open spec fn json(self) -> Seq<u8> {
        lit("{\"large_image\":")
            + jopt_str(self.large_image)
            + lit(",\"large_text\":")
            + jopt_str(self.large_text)
            + lit(",\"small_image\":")
            + jopt_str(self.small_image)
            + lit(",\"small_text\":")
            + jopt_str(self.small_text)
            + lit("}")
    }

    pub fn write_json(&self, out: &mut Vec<u8>)
        ensures
            final(out)@ == old(out)@ + self.json(),
    {
        push_lit(out, "{\"large_image\":");
        push_opt_str(out, &self.large_image);
        push_lit(out, ",\"large_text\":");
        push_opt_str(out, &self.large_text);
        push_lit(out, ",\"small_image\":");
        push_opt_str(out, &self.small_image);
        push_lit(out, ",\"small_text\":");
        push_opt_str(out, &self.small_text);
        push_lit(out, "}");
        reveal(GatewayActivityAssets::json);
        assert(out@ =~= old(out)@ + self.json());
    }
}

impl GatewayActivitySecrets {
    /// The JSON object of the record, fields in declaration order.
    #[verifier::opaque]
    pub open spec fn json(self) -> Seq<u8> {
        lit("{\"join\":")
            + jopt_str(self.join)
            + lit(",\"spectate\":")
            + jopt_str(self.spectate)
            + lit(",\"match_\":")
            + jopt_str(self.match_)
            + lit("}")
    }

    pub fn write_json(&self, out: &mut Vec<u8>)
        ensures
            final(out)@ == old(out)@ + self.json(),
    {
        push_lit(out, "{\"join\":");
        push_opt_str(out, &self.join);
        push_lit(out, ",\"spectate\":");
        push_opt_str(out, &self.spectate);
        push_lit(out, ",\"match_\":");
        push_opt_str(out, &self.match_);
        push_lit(out, "}");
        reveal(GatewayActivitySecrets::json);
        assert(out@ =~= old(out)@ + self.json());
    }
}

pub open spec fn jopt_timestamps(o: Option<GatewayActivityTimestamps>) -> Seq<u8> {
    match o {
        Some(v) => v.json(),
        None => lit("null"),
    }
}

pub open spec fn jopt_emoji(o: Option<GatewayActivityEmoji>) -> Seq<u8> {
    match o {
        Some(v) => v.json(),
        None => lit("null"),
    }
}

pub open spec fn jopt_party(o: Option<GatewayActivityParty>) -> Seq<u8> {
    match o {
        Some(v) => v.json(),
        None => lit("null"),
    }
}

pub open spec fn jopt_assets(o: Option<GatewayActivityAssets>) -> Seq<u8> {
    match o {
        Some(v) => v.json(),
        None => lit("null"),
    }
}

pub open spec fn jopt_secrets(o: Option<GatewayActivitySecrets>) -> Seq<u8> {
    match o {
        Some(v) => v.json(),
        None => lit("null"),
    }
}

impl GatewayActivity {
    /// The JSON object of the record, fields in declaration order.
    #[verifier::opaque]
    pub open spec fn json(self) -> Seq<u8> {
        lit("{\"name\":")
            + jstr(self.name)
            + lit(",\"type\":")
            + jnum(self.activity_type as u128)
            + lit(",\"url\":")
            + jopt_str(self.url)
            + lit(",\"created_at\":")
            + jnum(self.created_at as u128)
            + lit(",\"timestamps\":")
            + jopt_timestamps(self.timestamps)
            + lit(",\"application_id\":")
            + jopt_num(self.application_id)
            + lit(",\"details\":")
            + jopt_str(self.details)
            + lit(",\"state\":")
            + jopt_str(self.state)
            + lit(",\"emoji\":")
            + jopt_emoji(self.emoji)
            + lit(",\"party\":")
            + jopt_party(self.party)
            + lit(",\"assets\":")
            + jopt_assets(self.assets)
            + lit(",\"secrets\":")
            + jopt_secrets(self.secrets)
            + lit(",\"instance\":")
            + jopt_bool(self.instance)
            + lit(",\"flags\":")
            + jopt_num(self.flags)
            + lit("}")
    }

    pub fn write_json(&self, out: &mut Vec<u8>)
        ensures
            final(out)@ == old(out)@ + self.json(),
    {
        push_lit(out, "{\"name\":");
        let ghost mut acc = lit("{\"name\":");
        push_jstr(out, &self.name);
        proof {
            lemma_concat_associative(old(out)@, acc, jstr(self.name));
            acc = acc + jstr(self.name);
        }
        push_lit(out, ",\"type\":");
        proof {
            lemma_concat_associative(old(out)@, acc, lit(",\"type\":"));
            acc = acc + lit(",\"type\":");
        }
        push_num(out, self.activity_type as u128);
        proof {
            lemma_concat_associative(old(out)@, acc, jnum(self.activity_type as u128));
            acc = acc + jnum(self.activity_type as u128);
        }
        push_lit(out, ",\"url\":");
        proof {
            lemma_concat_associative(old(out)@, acc, lit(",\"url\":"));
            acc = acc + lit(",\"url\":");
        }
        push_opt_str(out, &self.url);
        proof {
            lemma_concat_associative(old(out)@, acc, jopt_str(self.url));
            acc = acc + jopt_str(self.url);
        }
        push_lit(out, ",\"created_at\":");
        proof {
            lemma_concat_associative(old(out)@, acc, lit(",\"created_at\":"));
            acc = acc + lit(",\"created_at\":");
        }
        push_num(out, self.created_at as u128);
        proof {
            lemma_concat_associative(old(out)@, acc, jnum(self.created_at as u128));
            acc = acc + jnum(self.created_at as u128);
        }
        push_lit(out, ",\"timestamps\":");
        proof {
            lemma_concat_associative(old(out)@, acc, lit(",\"timestamps\":"));
            acc = acc + lit(",\"timestamps\":");
        }
        match &self.timestamps {
            Some(v) => v.write_json(out),
            None => push_lit(out, "null"),
        }
        proof {
            lemma_concat_associative(old(out)@, acc, jopt_timestamps(self.timestamps));
            acc = acc + jopt_timestamps(self.timestamps);
        }
        push_lit(out, ",\"application_id\":");
        proof {
            lemma_concat_associative(old(out)@, acc, lit(",\"application_id\":"));
            acc = acc + lit(",\"application_id\":");
        }
        push_opt_num(out, self.application_id);
        proof {
            lemma_concat_associative(old(out)@, acc, jopt_num(self.application_id));
            acc = acc + jopt_num(self.application_id);
        }
        push_lit(out, ",\"details\":");
        proof {
            lemma_concat_associative(old(out)@, acc, lit(",\"details\":"));
            acc = acc + lit(",\"details\":");
        }
        push_opt_str(out, &self.details);
        proof {
            lemma_concat_associative(old(out)@, acc, jopt_str(self.details));
            acc = acc + jopt_str(self.details);
        }
        push_lit(out, ",\"state\":");
        proof {
            lemma_concat_associative(old(out)@, acc, lit(",\"state\":"));
            acc = acc + lit(",\"state\":");
        }
        push_opt_str(out, &self.state);
        proof {
            lemma_concat_associative(old(out)@, acc, jopt_str(self.state));
            acc = acc + jopt_str(self.state);
        }
        push_lit(out, ",\"emoji\":");
        proof {
            lemma_concat_associative(old(out)@, acc, lit(",\"emoji\":"));
            acc = acc + lit(",\"emoji\":");
        }
        match &self.emoji {
            Some(v) => v.write_json(out),
            None => push_lit(out, "null"),
        }
        proof {
            lemma_concat_associative(old(out)@, acc, jopt_emoji(self.emoji));
            acc = acc + jopt_emoji(self.emoji);
        }
        push_lit(out, ",\"party\":");
        proof {
            lemma_concat_associative(old(out)@, acc, lit(",\"party\":"));
            acc = acc + lit(",\"party\":");
        }
        match &self.party {
            Some(v) => v.write_json(out),
            None => push_lit(out, "null"),
        }
        proof {
            lemma_concat_associative(old(out)@, acc, jopt_party(self.party));
            acc = acc + jopt_party(self.party);
        }
        push_lit(out, ",\"assets\":");
        proof {
            lemma_concat_associative(old(out)@, acc, lit(",\"assets\":"));
            acc = acc + lit(",\"assets\":");
        }
        match &self.assets {
            Some(v) => v.write_json(out),
            None => push_lit(out, "null"),
        }
        proof {
            lemma_concat_associative(old(out)@, acc, jopt_assets(self.assets));
            acc = acc + jopt_assets(self.assets);
        }
        push_lit(out, ",\"secrets\":");
        proof {
            lemma_concat_associative(old(out)@, acc, lit(",\"secrets\":"));
            acc = acc + lit(",\"secrets\":");
        }
        match &self.secrets {
            Some(v) => v.write_json(out),
            None => push_lit(out, "null"),
        }
        proof {
            lemma_concat_associative(old(out)@, acc, jopt_secrets(self.secrets));
            acc = acc + jopt_secrets(self.secrets);
        }
        push_lit(out, ",\"instance\":");
        proof {
            lemma_concat_associative(old(out)@, acc, lit(",\"instance\":"));
            acc = acc + lit(",\"instance\":");
        }
        push_opt_bool(out, self.instance);
        proof {
            lemma_concat_associative(old(out)@, acc, jopt_bool(self.instance));
            acc = acc + jopt_bool(self.instance);
        }
        push_lit(out, ",\"flags\":");
        proof {
            lemma_concat_associative(old(out)@, acc, lit(",\"flags\":"));
            acc = acc + lit(",\"flags\":");
        }
        push_opt_num(out, self.flags);
        proof {
            lemma_concat_associative(old(out)@, acc, jopt_num(self.flags));
            acc = acc + jopt_num(self.flags);
        }
        push_lit(out, "}");
        proof {
            lemma_concat_associative(old(out)@, acc, lit("}"));
            acc = acc + lit("}");
        }
        assert(acc == self.json()) by {
            reveal(GatewayActivity::json);
        }
    }
}

impl GatewayPresenceUpdate {
    /// The JSON object of the record, fields in declaration order.
    #[verifier::opaque]
    pub open spec fn json(self) -> Seq<u8> {
        lit("{\"since\":")
            + jopt_num(self.since)
            + lit(",\"activities\":")
            + jopt_activities(self.activities)
            + lit(",\"status\":")
            + jstr(self.status)
            + lit(",\"afk\":")
            + jbool(self.afk)
            + lit("}")
    }

    pub fn write_json(&self, out: &mut Vec<u8>)
        ensures
            final(out)@ == old(out)@ + self.json(),
    {
        push_lit(out, "{\"since\":");
        push_opt_num(out, self.since);
        push_lit(out, ",\"activities\":");
        push_opt_activities(out, &self.activities);
        push_lit(out, ",\"status\":");
        push_jstr(out, &self.status);
        push_lit(out, ",\"afk\":");
        push_bool(out, self.afk);
        push_lit(out, "}");
        reveal(GatewayPresenceUpdate::json);
        assert(out@ =~= old(out)@ + self.json());
    }
}

/// An optional list of activities.
pub open spec fn jopt_activities(o: Option<Vec<GatewayActivity>>) -> Seq<u8> {
    match o {
        Some(v) => jlist(v@.map_values(|a: GatewayActivity| a.json())),
        None => lit("null"),
    }
}

pub fn push_opt_activities(out: &mut Vec<u8>, o: &Option<Vec<GatewayActivity>>)
    ensures
        final(out)@ == old(out)@ + jopt_activities(*o),
{
    match o {
        None => push_lit(out, "null"),
        Some(v) => {
            let ghost items = v@.map_values(|a: GatewayActivity| a.json());
            push_lit(out, "[");
            let ghost start = out@;
            let mut i: usize = 0;
            while i < v.len()
                invariant
                    i <= v@.len(),
                    items == v@.map_values(|a: GatewayActivity| a.json()),
                    start == old(out)@ + lit("["),
                    out@ == start + joined(items.take(i as int)),
                decreases v@.len() - i,
            {
                proof {
                    assert(items.take(i + 1) =~= items.take(i as int).push(items[i as int]));
                    lemma_joined_push(items.take(i as int), items[i as int]);
                }
                if i > 0 {
                    push_lit(out, ",");
                }
                v[i].write_json(out);
                proof {
                    if i == 0 {
                        assert(items.take(0) =~= Seq::<Seq<u8>>::empty());
                        assert(out@ =~= start + joined(items.take(1)));
                    } else {
                        assert(out@ =~= start + joined(items.take(i + 1)));
                    }
                }
                i = i + 1;
            }
            push_lit(out, "]");
            assert(items.take(v@.len() as int) =~= items);
            assert(out@ =~= old(out)@ + jopt_activities(*o));
        },
    }
}

impl GatewaySendEvent {
    /// The message on the wire: `{"op":<opcode>,"d":<payload>}`. Identify
    /// fills in its defaults: no compression, a large threshold of 50 and the
    /// single shard `[0,1]`.
    pub open spec fn wire(self) -> Seq<u8> {
        match self {
            GatewaySendEvent::Identify {
                token,
                properties,
                compress,
                large_threshold,
                shard,
                presence,
                guild_subscriptions,
                intents,
            } => lit("{\"op\":2,\"d\":{\"token\":") + jstr(token) + lit(",\"properties\":")
                + properties.json() + lit(",\"compress\":") + jbool(
                match compress {
                    Some(c) => c,
                    None => false,
                },
            ) + lit(",\"large_threshold\":") + (match large_threshold {
                Some(n) => jnum(n as u128),
                None => jnum(50),
            }) + lit(",\"shard\":") + (match shard {
                Some(p) => jpair(p),
                None => lit("[0,1]"),
            }) + lit(",\"presence\":") + (match presence {
                Some(p) => p.json(),
                None => lit("null"),
            }) + lit(",\"guild_subscriptions\":") + jopt_bool(guild_subscriptions) + lit(
                ",\"intents\":",
            ) + jnum(intents) + lit("}}"),
            GatewaySendEvent::Resume { token, session_id, seq } => lit(
                "{\"op\":6,\"d\":{\"token\":",
            ) + jstr(token) + lit(",\"session_id\":") + jstr(session_id) + lit(",\"seq\":") + jnum(
                seq as u128,
            ) + lit("}}"),
            GatewaySendEvent::Heartbeat { seq } => lit("{\"op\":1,\"d\":") + jopt_num(seq) + lit(
                "}",
            ),
            GatewaySendEvent::RequestGuildMembers {
                guild_id,
                query,
                limit,
                presences,
                user_ids,
                nonce,
            } => lit("{\"op\":8,\"d\":{\"guild_id\":") + jstr(guild_id) + lit(",\"query\":")
                + jopt_str(query) + lit(",\"limit\":") + jnum(limit as u128) + lit(",\"presences\":")
                + jopt_bool(presences) + lit(",\"user_ids\":") + (match user_ids {
                Some(v) => jstr_list(v@),
                None => lit("null"),
            }) + lit(",\"nonce\":") + jstr(nonce) + lit("}}"),
            GatewaySendEvent::UpdateVoiceState { guild_id, channel_id, self_mute, self_deaf } => lit(
                "{\"op\":4,\"d\":{\"guild_id\":",
            ) + jstr(guild_id) + lit(",\"channel_id\":") + jopt_str(channel_id) + lit(
                ",\"self_mute\":",
            ) + jbool(self_mute) + lit(",\"self_deaf\":") + jbool(self_deaf) + lit("}}"),
            GatewaySendEvent::UpdatePresence { since, activities, status, afk } => lit(
                "{\"op\":3,\"d\":{\"since\":",
            ) + jopt_num(since) + lit(",\"activities\":") + jopt_activities(activities) + lit(
                ",\"status\":",
            ) + jstr(status) + lit(",\"afk\":") + jbool(afk) + lit("}}"),
        }
    }

    /// The message on the wire, as UTF-8 bytes.
    pub fn to_json_bytes(&self) -> (r: Vec<u8>)
        ensures
            r@ == self.wire(),
    {
        let mut out: Vec<u8> = Vec::new();
        match self {
            GatewaySendEvent::Identify {
                token,
                properties,
                compress,
                large_threshold,
                shard,
                presence,
                guild_subscriptions,
                intents,
            } => {
                push_lit(&mut out, "{\"op\":2,\"d\":{\"token\":");
                push_jstr(&mut out, token);
                push_lit(&mut out, ",\"properties\":");
                properties.write_json(&mut out);
                push_lit(&mut out, ",\"compress\":");
                push_bool(
                    &mut out,
                    match compress {
                        Some(c) => *c,
                        None => false,
                    },
                );
                push_lit(&mut out, ",\"large_threshold\":");
                match large_threshold {
                    Some(n) => push_num(&mut out, *n as u128),
                    None => push_num(&mut out, 50),
                }
                push_lit(&mut out, ",\"shard\":");
                match shard {
                    Some(p) => push_pair(&mut out, *p),
                    None => push_lit(&mut out, "[0,1]"),
                }
                push_lit(&mut out, ",\"presence\":");
                match presence {
                    Some(p) => p.write_json(&mut out),
                    None => push_lit(&mut out, "null"),
                }
                push_lit(&mut out, ",\"guild_subscriptions\":");
                push_opt_bool(&mut out, *guild_subscriptions);
                push_lit(&mut out, ",\"intents\":");
                push_num(&mut out, *intents);
                push_lit(&mut out, "}}");
            },
            GatewaySendEvent::Resume { token, session_id, seq } => {
                push_lit(&mut out, "{\"op\":6,\"d\":{\"token\":");
                push_jstr(&mut out, token);
                push_lit(&mut out, ",\"session_id\":");
                push_jstr(&mut out, session_id);
                push_lit(&mut out, ",\"seq\":");
                push_num(&mut out, *seq as u128);
                push_lit(&mut out, "}}");
            },
            GatewaySendEvent::Heartbeat { seq } => {
                push_lit(&mut out, "{\"op\":1,\"d\":");
                push_opt_num(&mut out, *seq);
                push_lit(&mut out, "}");
            },
            GatewaySendEvent::RequestGuildMembers {
                guild_id,
                query,
                limit,
                presences,
                user_ids,
                nonce,
            } => {
                push_lit(&mut out, "{\"op\":8,\"d\":{\"guild_id\":");
                push_jstr(&mut out, guild_id);
                push_lit(&mut out, ",\"query\":");
                push_opt_str(&mut out, query);
                push_lit(&mut out, ",\"limit\":");
                push_num(&mut out, *limit as u128);
                push_lit(&mut out, ",\"presences\":");
                push_opt_bool(&mut out, *presences);
                push_lit(&mut out, ",\"user_ids\":");
                match user_ids {
                    Some(v) => push_str_list(&mut out, v),
                    None => push_lit(&mut out, "null"),
                }
                push_lit(&mut out, ",\"nonce\":");
                push_jstr(&mut out, nonce);
                push_lit(&mut out, "}}");
            },
            GatewaySendEvent::UpdateVoiceState { guild_id, channel_id, self_mute, self_deaf } => {
                push_lit(&mut out, "{\"op\":4,\"d\":{\"guild_id\":");
                push_jstr(&mut out, guild_id);
                push_lit(&mut out, ",\"channel_id\":");
                push_opt_str(&mut out, channel_id);
                push_lit(&mut out, ",\"self_mute\":");
                push_bool(&mut out, *self_mute);
                push_lit(&mut out, ",\"self_deaf\":");
                push_bool(&mut out, *self_deaf);
                push_lit(&mut out, "}}");
            },
            GatewaySendEvent::UpdatePresence { since, activities, status, afk } => {
                push_lit(&mut out, "{\"op\":3,\"d\":{\"since\":");
                push_opt_num(&mut out, *since);
                push_lit(&mut out, ",\"activities\":");
                push_opt_activities(&mut out, activities);
                push_lit(&mut out, ",\"status\":");
                push_jstr(&mut out, status);
                push_lit(&mut out, ",\"afk\":");
                push_bool(&mut out, *afk);
                push_lit(&mut out, "}}");
            },
        }
        assert(out@ =~= self.wire());
        out
    }
}

} // verus!
