//! One bot's gateway session: its record, and the state machine that reacts
//! to decoded events, heartbeat ticks and transport closes with the effects
//! the caller must carry out.

use vstd::prelude::*;
use crate::codec::GatewayEvent;
use crate::outbound::{GatewaySendEvent, Outbound};
use crate::types::{Hello, DISCORD_GATEWAY, GATEWAY_PARAMS};

verus! {

/// The identity of a bot connection: its credential token and its intents.
#[derive(Debug)]
pub struct BotId {
    pub token: String,
    pub intents: u128,
}

impl View for BotId {
    type V = (Seq<char>, u128);

    open spec fn view(&self) -> (Seq<char>, u128) {
        (self.token@, self.intents)
    }
}

impl BotId {
    pub fn new(token: String, intents: u128) -> (r: Self)
        ensures
            r.token == token,
            r.intents == intents,
    {
        Self { token, intents }
    }
}

/// Where a session stands in its connection lifecycle.
#[derive(Debug, Clone, Copy, PartialEq, Eq, Structural)]
pub enum ConnectionState {
    Disconnected,
    Connecting,
    AwaitingHello,
    Identifying,
    SteadyState,
    Reconnecting { resumable: bool },
}

/// Whether a session in this state holds a live gateway connection, on which
/// heartbeats are due.
pub open spec fn is_live(s: ConnectionState) -> bool {
    s == ConnectionState::Identifying || s == ConnectionState::SteadyState
        || s is Reconnecting
}

/// The record of one bot's session.
#[derive(Debug)]
pub struct Bot {
    /// The address of the process that owns the bot, where its events go.
    pub parent: String,
    pub gateway_connection_open: bool,
    pub resume_gateway_url: Option<String>,
    pub token: String,
    pub heartbeat_interval: u64,
    /// The last sequence number received, if any.
    pub heartbeat_sequence: Option<u64>,
    pub intents: u128,
    pub session_id: String,
    pub ws_client_channel: u32,
    pub status: ConnectionState,
    /// The handle of the heartbeat timer armed last; a tick with another
    /// handle is stale.
    pub heartbeat_timer: u64,
}

/// The model of a session record.
pub struct SessionView {
    pub parent: Seq<char>,
    pub open: bool,
    pub resume_url: Option<Seq<char>>,
    pub token: Seq<char>,
    pub interval: u64,
    pub sequence: Option<u64>,
    pub intents: u128,
    pub session_id: Seq<char>,
    pub channel: u32,
    pub status: ConnectionState,
    pub timer: u64,
}

impl SessionView {
    pub open spec fn id(self) -> (Seq<char>, u128) {
        (self.token, self.intents)
    }
}

pub open spec fn opt_view(o: Option<String>) -> Option<Seq<char>> {
    match o {
        Some(s) => Some(s@),
        None => None,
    }
}

impl View for Bot {
    type V = SessionView;

    open spec fn view(&self) -> SessionView {
        SessionView {
            parent: self.parent@,
            open: self.gateway_connection_open,
            resume_url: opt_view(self.resume_gateway_url),
            token: self.token@,
            interval: self.heartbeat_interval,
            sequence: self.heartbeat_sequence,
            intents: self.intents,
            session_id: self.session_id@,
            channel: self.ws_client_channel,
            status: self.status,
            timer: self.heartbeat_timer,
        }
    }
}

/// What the session manager asks its caller to do.
#[derive(Debug)]
pub enum Action {
    /// Ask the HTTP collaborator for the gateway endpoint of a new session.
    ResolveGateway { channel: u32 },
    /// Open a transport connection on a channel.
    OpenConnection { url: String, channel: u32 },
    /// Close the transport connection of a channel.
    CloseConnection { channel: u32 },
    /// Push a message on a channel.
    Send { channel: u32, event: GatewaySendEvent },
    /// Fire a heartbeat tick for a bot, carrying the timer handle, after the
    /// interval.
    ArmHeartbeat { bot: BotId, interval: u64, timer: u64 },
    /// Forward the event being handled to the bot's owner.
    ForwardToParent { parent: String },
}

/// The model of an action.
pub enum Effect {
    ResolveGateway(u32),
    Open(Seq<char>, u32),
    Close(u32),
    Send(u32, Outbound),
    Arm((Seq<char>, u128), u64, u64),
    Forward(Seq<char>),
}

impl View for Action {
    type V = Effect;

    open spec fn view(&self) -> Effect {
        match self {
            Action::ResolveGateway { channel } => Effect::ResolveGateway(*channel),
            Action::OpenConnection { url, channel } => Effect::Open(url@, *channel),
            Action::CloseConnection { channel } => Effect::Close(*channel),
            Action::Send { channel, event } => Effect::Send(*channel, event.outbound()),
            Action::ArmHeartbeat { bot, interval, timer } => Effect::Arm(bot@, *interval, *timer),
            Action::ForwardToParent { parent } => Effect::Forward(parent@),
        }
    }
}

/// The effects of a list of actions, in order.
pub open spec fn effects(v: Vec<Action>) -> Seq<Effect> {
    v@.map_values(|a: Action| a@)
}

/// The sequence number that a Resume carries: the last one received, or 0.
pub open spec fn seq_or_zero(s: Option<u64>) -> u64 {
    match s {
        Some(n) => n,
        None => 0,
    }
}

/// The handle of the next timer after `t`.
pub open spec fn next_timer(t: u64) -> u64 {
    if t == u64::MAX {
        0
    } else {
        (t + 1) as u64
    }
}

/// The Resume message of a session.
pub open spec fn resume_effect(b: SessionView) -> Effect {
    Effect::Send(
        b.channel,
        Outbound::Resume { token: b.token, session_id: b.session_id, seq: seq_or_zero(b.sequence) },
    )
}

/// The Heartbeat message of a session.
pub open spec fn heartbeat_effect(b: SessionView) -> Effect {
    Effect::Send(b.channel, Outbound::Heartbeat { seq: b.sequence })
}

/// Where a session reopens after a server-requested reconnect: its resume
/// URL with the protocol parameters, or else the default gateway.
pub open spec fn reconnect_url(b: SessionView) -> Seq<char> {
    match b.resume_url {
        Some(u) => u + GATEWAY_PARAMS@,
        None => DISCORD_GATEWAY@,
    }
}

/// Identify with a heartbeat interval: store it, arm a fresh heartbeat timer
/// and send Identify.
pub open spec fn identify_spec(b: SessionView, interval: u64) -> (SessionView, Seq<Effect>) {
    let nb = SessionView {
        interval,
        timer: next_timer(b.timer),
        status: ConnectionState::Identifying,
        ..b
    };
    (
        nb,
        seq![
            Effect::Arm(b.id(), interval, nb.timer),
            Effect::Send(b.channel, Outbound::Identify { token: b.token, intents: b.intents }),
        ],
    )
}

/// The reaction of a session to a decoded event.
pub open spec fn on_event_spec(b: SessionView, ev: GatewayEvent) -> (SessionView, Seq<Effect>) {
    let none = Seq::<Effect>::empty();
    match ev {
        GatewayEvent::Hello(h) => match b.status {
            ConnectionState::AwaitingHello => match b.resume_url {
                Some(u) => (
                    SessionView { status: ConnectionState::Reconnecting { resumable: true }, ..b },
                    seq![Effect::Open(u + GATEWAY_PARAMS@, b.channel), resume_effect(b)],
                ),
                None => identify_spec(b, h.heartbeat_interval),
            },
            ConnectionState::Reconnecting { .. } => {
                let nb = SessionView {
                    interval: h.heartbeat_interval,
                    timer: next_timer(b.timer),
                    ..b
                };
                (nb, seq![Effect::Arm(b.id(), h.heartbeat_interval, nb.timer)])
            },
            _ => (b, none),
        },
        GatewayEvent::Ready { session_id, resume_gateway_url } => if b.status
            == ConnectionState::Identifying || b.status is Reconnecting {
            (
                SessionView {
                    session_id: session_id@,
                    resume_url: Some(resume_gateway_url@),
                    open: true,
                    status: ConnectionState::SteadyState,
                    ..b
                },
                seq![Effect::Forward(b.parent)],
            )
        } else {
            (b, none)
        },
        GatewayEvent::Resumed => if b.status is Reconnecting {
            (SessionView { open: true, status: ConnectionState::SteadyState, ..b }, none)
        } else {
            (b, none)
        },
        GatewayEvent::Reconnect => if b.status == ConnectionState::SteadyState {
            (
                SessionView { status: ConnectionState::Reconnecting { resumable: true }, ..b },
                seq![Effect::Open(reconnect_url(b), b.channel), resume_effect(b)],
            )
        } else {
            (b, none)
        },
        GatewayEvent::InvalidSession(resumable) => if b.status == ConnectionState::Identifying
            || b.status is Reconnecting {
            if resumable {
                (
                    SessionView { status: ConnectionState::Reconnecting { resumable: true }, ..b },
                    seq![resume_effect(b)],
                )
            } else {
                identify_spec(
                    SessionView { resume_url: None, session_id: Seq::empty(), ..b },
                    b.interval,
                )
            }
        } else {
            (b, none)
        },
        GatewayEvent::Heartbeat => if is_live(b.status) {
            (b, seq![heartbeat_effect(b)])
        } else {
            (b, none)
        },
        GatewayEvent::HeartbeatAck => (b, none),
        GatewayEvent::Dispatch(_) => (b, seq![Effect::Forward(b.parent)]),
    }
}

/// The session after a frame's sequence number, if it has one, is recorded.
pub open spec fn with_sequence(b: SessionView, seq: Option<u64>) -> SessionView {
    match seq {
        Some(n) => SessionView { sequence: Some(n), ..b },
        None => b,
    }
}

/// The reaction of a session to a heartbeat tick carrying timer handle
/// `timer`: only the timer armed last, on a live session, sends.
pub open spec fn tick_spec(b: SessionView, timer: u64) -> Seq<Effect> {
    if timer == b.timer && b.interval > 0 && is_live(b.status) {
        seq![heartbeat_effect(b), Effect::Arm(b.id(), b.interval, b.timer)]
    } else {
        Seq::empty()
    }
}

/// The reaction of a session to the close of its transport connection:
/// forget the connection but keep the resume URL, and reopen on the gateway.
pub open spec fn close_spec(b: SessionView, gateway_url: Seq<char>) -> (SessionView, Seq<Effect>) {
    (
        SessionView {
            open: false,
            interval: 0,
            sequence: None,
            session_id: Seq::empty(),
            status: ConnectionState::AwaitingHello,
            ..b
        },
        seq![Effect::Open(gateway_url + GATEWAY_PARAMS@, b.channel)],
    )
}

/// A copy of an optional string.
fn clone_opt(o: &Option<String>) -> (r: Option<String>)
    ensures
        opt_view(r) == opt_view(*o),
{
    match o {
        Some(s) => Some(s.clone()),
        None => None,
    }
}

/// A string with the protocol parameters appended.
pub fn with_params(url: &str) -> (r: String)
    ensures
        r@ == url@ + GATEWAY_PARAMS@,
{
    let s = String::from_str(url);
    s.concat(GATEWAY_PARAMS)
}

impl Bot {
    /// The record of a bot that has just asked to connect.
    pub fn new(parent: String, id: BotId, channel: u32) -> (r: Bot)
        ensures
            r@ == new_session(parent@, id@, channel),
    {
        Bot {
            parent,
            gateway_connection_open: false,
            resume_gateway_url: None,
            token: id.token,
            heartbeat_interval: 0,
            heartbeat_sequence: None,
            intents: id.intents,
            session_id: String::new(),
            ws_client_channel: channel,
            status: ConnectionState::Connecting,
            heartbeat_timer: 0,
        }
    }

    pub fn id(&self) -> (r: BotId)
        ensures
            r@ == self@.id(),
    {
        BotId { token: self.token.clone(), intents: self.intents }
    }

    fn resume_message(&self) -> (r: Action)
        ensures
            r@ == resume_effect(self@),
    {
        let seq = match self.heartbeat_sequence {
            Some(n) => n,
            None => 0,
        };
        Action::Send {
            channel: self.ws_client_channel,
            event: GatewaySendEvent::Resume {
                token: self.token.clone(),
                session_id: self.session_id.clone(),
                seq,
            },
        }
    }

    fn heartbeat_message(&self) -> (r: Action)
        ensures
            r@ == heartbeat_effect(self@),
    {
        Action::Send {
            channel: self.ws_client_channel,
            event: GatewaySendEvent::Heartbeat { seq: self.heartbeat_sequence },
        }
    }

    fn advance_timer(&mut self)
        ensures
            final(self)@ == (SessionView { timer: next_timer(old(self)@.timer), ..old(self)@ }),
    {
        if self.heartbeat_timer == u64::MAX {
            self.heartbeat_timer = 0;
        } else {
            self.heartbeat_timer = self.heartbeat_timer + 1;
        }
    }

    /// Stores the heartbeat interval, arms a fresh heartbeat timer and sends
    /// Identify.
    pub fn send_identify(&mut self, interval: u64) -> (r: Vec<Action>)
        ensures
            (final(self)@, effects(r)) == identify_spec(old(self)@, interval),
    {
        self.heartbeat_interval = interval;
        self.advance_timer();
        self.status = ConnectionState::Identifying;
        let mut r: Vec<Action> = Vec::new();
        r.push(Action::ArmHeartbeat { bot: self.id(), interval, timer: self.heartbeat_timer });
        r.push(
            Action::Send {
                channel: self.ws_client_channel,
                event: GatewaySendEvent::identify(self.token.clone(), self.intents),
            },
        );
        proof {
            let (nb, e) = identify_spec(old(self)@, interval);
            assert(self@ == nb);
            assert(effects(r) =~= e);
        }
        r
    }

    /// Reacts to a decoded event.
    pub fn handle_gateway_event(&mut self, event: GatewayEvent) -> (r: Vec<Action>)
        ensures
            (final(self)@, effects(r)) == on_event_spec(old(self)@, event),
    {
        let ghost ev = event;
        let mut r: Vec<Action> = Vec::new();
        match event {
            GatewayEvent::Hello(h) => {
                match self.status {
                    ConnectionState::AwaitingHello => {
                        match clone_opt(&self.resume_gateway_url) {
                            Some(u) => {
                                r.push(
                                    Action::OpenConnection {
                                        url: with_params(u.as_str()),
                                        channel: self.ws_client_channel,
                                    },
                                );
                                r.push(self.resume_message());
                                self.status = ConnectionState::Reconnecting { resumable: true };
                            },
                            None => {
                                r = self.send_identify(h.heartbeat_interval);
                            },
                        }
                    },
                    ConnectionState::Reconnecting { .. } => {
                        self.heartbeat_interval = h.heartbeat_interval;
                        self.advance_timer();
                        r.push(
                            Action::ArmHeartbeat {
                                bot: self.id(),
                                interval: h.heartbeat_interval,
                                timer: self.heartbeat_timer,
                            },
                        );
                    },
                    _ => {},
                }
            },
            GatewayEvent::Ready { session_id, resume_gateway_url } => {
                if self.status == ConnectionState::Identifying || matches!(
                    self.status,
                    ConnectionState::Reconnecting { .. }
                ) {
                    self.session_id = session_id;
                    self.resume_gateway_url = Some(resume_gateway_url);
                    self.gateway_connection_open = true;
                    self.status = ConnectionState::SteadyState;
                    r.push(Action::ForwardToParent { parent: self.parent.clone() });
                }
            },
            GatewayEvent::Resumed => {
                if matches!(self.status, ConnectionState::Reconnecting { .. }) {
                    self.gateway_connection_open = true;
                    self.status = ConnectionState::SteadyState;
                }
            },
            GatewayEvent::Reconnect => {
                if self.status == ConnectionState::SteadyState {
                    let url = match &self.resume_gateway_url {
                        Some(u) => with_params(u.as_str()),
                        None => String::from_str(DISCORD_GATEWAY),
                    };
                    r.push(Action::OpenConnection { url, channel: self.ws_client_channel });
                    r.push(self.resume_message());
                    self.status = ConnectionState::Reconnecting { resumable: true };
                }
            },
            GatewayEvent::InvalidSession(resumable) => {
                if self.status == ConnectionState::Identifying || matches!(
                    self.status,
                    ConnectionState::Reconnecting { .. }
                ) {
                    if resumable {
                        r.push(self.resume_message());
                        self.status = ConnectionState::Reconnecting { resumable: true };
                    } else {
                        self.resume_gateway_url = None;
                        self.session_id = String::new();
                        let interval = self.heartbeat_interval;
                        r = self.send_identify(interval);
                    }
                }
            },
            GatewayEvent::Heartbeat => {
                if self.status == ConnectionState::Identifying || self.status
                    == ConnectionState::SteadyState || matches!(
                    self.status,
                    ConnectionState::Reconnecting { .. }
                ) {
                    r.push(self.heartbeat_message());
                }
            },
            GatewayEvent::HeartbeatAck => {},
            GatewayEvent::Dispatch(_) => {
                r.push(Action::ForwardToParent { parent: self.parent.clone() });
            },
        }
        proof {
            let (nb, e) = on_event_spec(old(self)@, ev);
            assert(self@ == nb);
            assert(effects(r) =~= e);
        }
        r
    }

    /// Reacts to a heartbeat tick carrying a timer handle.
    pub fn heartbeat_tick(&self, timer: u64) -> (r: Vec<Action>)
        ensures
            effects(r) == tick_spec(self@, timer),
    {
        let mut r: Vec<Action> = Vec::new();
        let live = self.status == ConnectionState::Identifying || self.status
            == ConnectionState::SteadyState || matches!(
            self.status,
            ConnectionState::Reconnecting { .. }
        );
        if timer == self.heartbeat_timer && self.heartbeat_interval > 0 && live {
            r.push(self.heartbeat_message());
            r.push(
                Action::ArmHeartbeat {
                    bot: self.id(),
                    interval: self.heartbeat_interval,
                    timer: self.heartbeat_timer,
                },
            );
        }
        assert(effects(r) =~= tick_spec(self@, timer));
        r
    }

    /// Reacts to the close of the transport connection.
    pub fn handle_close(&mut self, gateway_url: &str) -> (r: Vec<Action>)
        ensures
            (final(self)@, effects(r)) == close_spec(old(self)@, gateway_url@),
    {
        self.gateway_connection_open = false;
        self.heartbeat_interval = 0;
        self.heartbeat_sequence = None;
        self.session_id = String::new();
        self.status = ConnectionState::AwaitingHello;
        let mut r: Vec<Action> = Vec::new();
        r.push(
            Action::OpenConnection {
                url: with_params(gateway_url),
                channel: self.ws_client_channel,
            },
        );
        proof {
            let (nb, e) = close_spec(old(self)@, gateway_url@);
            assert(self@ == nb);
            assert(effects(r) =~= e);
        }
        r
    }
}

/// The record of a bot that has just asked to connect: nothing known yet of
/// its gateway session.
pub open spec fn new_session(parent: Seq<char>, id: (Seq<char>, u128), channel: u32) -> SessionView {
    SessionView {
        parent,
        open: false,
        resume_url: None,
        token: id.0,
        interval: 0,
        sequence: None,
        intents: id.1,
        session_id: Seq::empty(),
        channel,
        status: ConnectionState::Connecting,
        timer: 0,
    }
}

/// A first Hello, with no resume URL recorded, makes the session identify:
/// the first message it sends is Identify, and a heartbeat timer is armed at
/// the Hello's interval. When that timer fires, exactly one Heartbeat goes
/// out, carrying the last sequence number received (none on a fresh
/// session), and the timer is armed again at the same interval.
pub proof fn lemma_hello_identifies(b: SessionView, h: Hello)
    requires
        b.status == ConnectionState::AwaitingHello,
        b.resume_url is None,
        h.heartbeat_interval > 0,
    ensures
        ({
            let (nb, e) = on_event_spec(b, GatewayEvent::Hello(h));
            &&& nb.status == ConnectionState::Identifying
            &&& e == seq![
                Effect::Arm(b.id(), h.heartbeat_interval, nb.timer),
                Effect::Send(b.channel, Outbound::Identify { token: b.token, intents: b.intents }),
            ]
            &&& tick_spec(nb, nb.timer) == seq![
                Effect::Send(b.channel, Outbound::Heartbeat { seq: b.sequence }),
                Effect::Arm(b.id(), h.heartbeat_interval, nb.timer),
            ]
        }),
{
}

/// A fresh session has received no sequence number.
pub proof fn lemma_new_session_has_no_sequence(
    parent: Seq<char>,
    id: (Seq<char>, u128),
    channel: u32,
)
    ensures
        new_session(parent, id, channel).sequence is None,
{
}

/// A server-requested reconnect in steady state reopens the connection on the
/// recorded resume URL, with the protocol parameters, and then sends Resume
/// with the session token and the last sequence number received.
pub proof fn lemma_reconnect_resumes(b: SessionView, url: Seq<char>, seq: u64)
    requires
        b.status == ConnectionState::SteadyState,
        b.resume_url == Some(url),
        b.sequence == Some(seq),
    ensures
        ({
            let (nb, e) = on_event_spec(b, GatewayEvent::Reconnect);
            &&& nb.status == ConnectionState::Reconnecting { resumable: true }
            &&& e == seq![
                Effect::Open(url + GATEWAY_PARAMS@, b.channel),
                Effect::Send(
                    b.channel,
                    Outbound::Resume { token: b.token, session_id: b.session_id, seq },
                ),
            ]
        }),
{
}

/// A non-resumable invalid session while identifying forgets the resume URL
/// and the session token, and the next message is a fresh Identify.
pub proof fn lemma_invalid_session_reidentifies(b: SessionView)
    requires
        b.status == ConnectionState::Identifying,
    ensures
        ({
            let (nb, e) = on_event_spec(b, GatewayEvent::InvalidSession(false));
            &&& nb.resume_url is None
            &&& nb.session_id.len() == 0
            &&& nb.status == ConnectionState::Identifying
            &&& e == seq![
                Effect::Arm(b.id(), b.interval, nb.timer),
                Effect::Send(b.channel, Outbound::Identify { token: b.token, intents: b.intents }),
            ]
        }),
{
}

} // verus!
