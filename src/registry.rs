//! The session registry: every bot's session record, keyed by the bot's
//! identity, and the route from a transport channel back to its session.

use vstd::prelude::*;
use crate::codec::GatewayEvent;
use crate::outbound::GatewaySendEvent;
use crate::session::{
    close_spec, effects, is_live, new_session, on_event_spec, tick_spec, with_params,
    with_sequence, Action, Bot, BotId, ConnectionState, Effect, SessionView,
};
use crate::types::GATEWAY_PARAMS;

verus! {

/// A control request from a bot's owner.
#[derive(Debug)]
pub enum DiscordApiRequest {
    /// Connect a bot to the gateway.
    Connect(BotId),
    /// Disconnect a bot from the gateway.
    Disconnect(BotId),
    /// Send a message on a bot's gateway connection.
    Gateway { bot: BotId, event: GatewaySendEvent },
}

/// Why a control request was refused.
#[derive(Debug, Clone, Copy, PartialEq, Eq, Structural)]
pub enum SessionError {
    /// The bot already has a session.
    AlreadyConnected,
    /// Every channel identifier has been handed out.
    ChannelsExhausted,
    /// The bot has no live gateway connection.
    NotConnected,
}

/// All sessions of the process. Each record holds its own channel, so the
/// route from a channel to a session is one entry per record, made and
/// dropped with it. Only the methods below change a registry, and each keeps
/// it well formed.
#[derive(Debug)]
pub struct State {
    /// The gateway URL resolved last.
    gateway_url: String,
    bots: Vec<Bot>,
    /// The channel identifier that the next session gets.
    next_channel: u32,
}

/// The model of the registry.
pub struct StateView {
    pub gateway_url: Seq<char>,
    pub bots: Seq<SessionView>,
    pub next_channel: u32,
}

impl View for State {
    type V = StateView;

    closed spec fn view(&self) -> StateView {
        StateView {
            gateway_url: self.gateway_url@,
            bots: self.bots@.map_values(|b: Bot| b@),
            next_channel: self.next_channel,
        }
    }
}

impl StateView {
    /// Identities and channels are unique, and every channel was handed out.
    pub open spec fn wf(self) -> bool {
        &&& forall|i: int, j: int|
            0 <= i < j < self.bots.len() ==> #[trigger] self.bots[i].id() != #[trigger] self.bots[j].id()
        &&& forall|i: int, j: int|
            0 <= i < j < self.bots.len() ==> #[trigger] self.bots[i].channel
                != #[trigger] self.bots[j].channel
        &&& forall|i: int| 0 <= i < self.bots.len() ==> #[trigger] self.bots[i].channel < self.next_channel
    }

    pub open spec fn has_bot(self, id: (Seq<char>, u128)) -> bool {
        exists|i: int| 0 <= i < self.bots.len() && #[trigger] self.bots[i].id() == id
    }

    /// The position of a bot's record.
    pub open spec fn bot_index(self, id: (Seq<char>, u128)) -> int {
        choose|i: int| 0 <= i < self.bots.len() && #[trigger] self.bots[i].id() == id
    }

    pub open spec fn has_route(self, channel: u32) -> bool {
        exists|i: int| 0 <= i < self.bots.len() && #[trigger] self.bots[i].channel == channel
    }

    /// The position of the record that a channel routes to.
    pub open spec fn route_index(self, channel: u32) -> int {
        choose|i: int| 0 <= i < self.bots.len() && #[trigger] self.bots[i].channel == channel
    }

    /// The identity that a channel routes to.
    pub open spec fn route(self, channel: u32) -> Option<(Seq<char>, u128)> {
        if self.has_route(channel) {
            Some(self.bots[self.route_index(channel)].id())
        } else {
            None
        }
    }

    /// The state of a bot's session; `Disconnected` when it has none.
    pub open spec fn status(self, id: (Seq<char>, u128)) -> ConnectionState {
        if self.has_bot(id) {
            self.bots[self.bot_index(id)].status
        } else {
            ConnectionState::Disconnected
        }
    }

    /// The registry with the record at position `i` replaced.
    pub open spec fn with_bot(self, i: int, b: SessionView) -> StateView {
        StateView { bots: self.bots.update(i, b), ..self }
    }
}

/// Connect: a new record in `Connecting` on a fresh channel, and a request
/// for the gateway endpoint. A bot that has a session already is refused.
pub open spec fn connect_spec(s: StateView, parent: Seq<char>, id: (Seq<char>, u128)) -> (
    StateView,
    Result<Seq<Effect>, SessionError>,
) {
    if s.has_bot(id) {
        (s, Err(SessionError::AlreadyConnected))
    } else if s.next_channel == u32::MAX {
        (s, Err(SessionError::ChannelsExhausted))
    } else {
        (
            StateView {
                bots: s.bots.push(new_session(parent, id, s.next_channel)),
                next_channel: (s.next_channel + 1) as u32,
                ..s
            },
            Ok(seq![Effect::ResolveGateway(s.next_channel)]),
        )
    }
}

/// The gateway endpoint of a connecting session is known: remember it and
/// open the connection, then await Hello.
pub open spec fn resolved_spec(s: StateView, channel: u32, url: Seq<char>) -> (
    StateView,
    Seq<Effect>,
) {
    if s.has_route(channel) && s.bots[s.route_index(channel)].status
        == ConnectionState::Connecting {
        let i = s.route_index(channel);
        (
            StateView {
                gateway_url: url,
                bots: s.bots.update(
                    i,
                    SessionView { status: ConnectionState::AwaitingHello, ..s.bots[i] },
                ),
                ..s
            },
            seq![Effect::Open(url + GATEWAY_PARAMS@, channel)],
        )
    } else {
        (s, Seq::empty())
    }
}

/// A connecting session whose endpoint or connection could not be had is
/// dropped, so that the bot may connect again.
pub open spec fn abandon_spec(s: StateView, channel: u32) -> StateView {
    if s.has_route(channel) && s.bots[s.route_index(channel)].status
        == ConnectionState::Connecting {
        StateView { bots: s.bots.remove(s.route_index(channel)), ..s }
    } else {
        s
    }
}

/// Disconnect: close the bot's channel and drop its record with its route.
pub open spec fn disconnect_spec(s: StateView, id: (Seq<char>, u128)) -> (StateView, Seq<Effect>) {
    if s.has_bot(id) {
        let i = s.bot_index(id);
        (StateView { bots: s.bots.remove(i), ..s }, seq![Effect::Close(s.bots[i].channel)])
    } else {
        (s, Seq::empty())
    }
}

/// A decoded frame on a channel: the session it routes to records the
/// sequence number and reacts to the event. Frames on unrouted channels are
/// dropped.
pub open spec fn push_spec(s: StateView, channel: u32, ev: GatewayEvent, seq: Option<u64>) -> (
    StateView,
    Seq<Effect>,
) {
    if s.has_route(channel) {
        let i = s.route_index(channel);
        let (nb, e) = on_event_spec(with_sequence(s.bots[i], seq), ev);
        (s.with_bot(i, nb), e)
    } else {
        (s, Seq::empty())
    }
}

/// The close of a channel's connection: the session it routes to resets and
/// reopens on the gateway. Closes of unrouted channels are ignored.
pub open spec fn transport_close_spec(s: StateView, channel: u32) -> (StateView, Seq<Effect>) {
    if s.has_route(channel) {
        let i = s.route_index(channel);
        let (nb, e) = close_spec(s.bots[i], s.gateway_url);
        (s.with_bot(i, nb), e)
    } else {
        (s, Seq::empty())
    }
}

/// A heartbeat tick for a bot; a bot without a session ignores it.
pub open spec fn registry_tick_spec(s: StateView, id: (Seq<char>, u128), timer: u64) -> Seq<
    Effect,
> {
    if s.has_bot(id) {
        tick_spec(s.bots[s.bot_index(id)], timer)
    } else {
        Seq::empty()
    }
}

/// Positions in the registry are unique for identities and channels.
proof fn lemma_unique_index(s: StateView, i: int)
    requires
        s.wf(),
        0 <= i < s.bots.len(),
    ensures
        s.has_bot(s.bots[i].id()),
        s.bot_index(s.bots[i].id()) == i,
        s.has_route(s.bots[i].channel),
        s.route_index(s.bots[i].channel) == i,
{
    let id = s.bots[i].id();
    assert(s.bots[i].id() == id);
    let j = s.bot_index(id);
    if j != i {
        if j < i {
            assert(s.bots[j].id() != s.bots[i].id());
        } else {
            assert(s.bots[i].id() != s.bots[j].id());
        }
    }
    let ch = s.bots[i].channel;
    assert(s.bots[i].channel == ch);
    let k = s.route_index(ch);
    if k != i {
        if k < i {
            assert(s.bots[k].channel != s.bots[i].channel);
        } else {
            assert(s.bots[i].channel != s.bots[k].channel);
        }
    }
}

/// Replacing a record by one with the same identity and channel keeps the
/// registry well formed.
proof fn lemma_update_wf(s: StateView, i: int, b: SessionView)
    requires
        s.wf(),
        0 <= i < s.bots.len(),
        b.id() == s.bots[i].id(),
        b.channel == s.bots[i].channel,
    ensures
        s.with_bot(i, b).wf(),
{
    let t = s.with_bot(i, b);
    assert forall|k: int| 0 <= k < t.bots.len() implies #[trigger] t.bots[k].id() == s.bots[k].id()
        && t.bots[k].channel == s.bots[k].channel by {}
}

/// Removing a record keeps the registry well formed.
proof fn lemma_remove_wf(s: StateView, i: int)
    requires
        s.wf(),
        0 <= i < s.bots.len(),
    ensures
        (StateView { bots: s.bots.remove(i), ..s }).wf(),
{
    let t = StateView { bots: s.bots.remove(i), ..s };
    assert forall|a: int, b: int| 0 <= a < b < t.bots.len() implies #[trigger] t.bots[a].id()
        != #[trigger] t.bots[b].id() && t.bots[a].channel != t.bots[b].channel by {
        let a2 = if a < i { a } else { a + 1 };
        let b2 = if b < i { b } else { b + 1 };
        assert(t.bots[a] == s.bots[a2]);
        assert(t.bots[b] == s.bots[b2]);
        assert(s.bots[a2].id() != s.bots[b2].id());
        assert(s.bots[a2].channel != s.bots[b2].channel);
    }
    assert forall|a: int| 0 <= a < t.bots.len() implies #[trigger] t.bots[a].channel
        < t.next_channel by {
        let a2 = if a < i { a } else { a + 1 };
        assert(t.bots[a] == s.bots[a2]);
    }
}

impl State {
    /// An empty registry; the gateway URL is learnt at the first connect.
    pub fn new() -> (r: State)
        ensures
            r@.wf(),
            r@.bots.len() == 0,
            r@.next_channel == 0,
            r@.gateway_url.len() == 0,
    {
        let r = State { gateway_url: String::new(), bots: Vec::new(), next_channel: 0 };
        assert(r@.bots =~= Seq::<SessionView>::empty());
        r
    }

    /// The session records.
    pub fn bots(&self) -> (r: &Vec<Bot>)
        ensures
            r@.map_values(|b: Bot| b@) == self@.bots,
    {
        &self.bots
    }

    /// The gateway URL resolved last.
    pub fn gateway_url(&self) -> (r: &String)
        ensures
            r@ == self@.gateway_url,
    {
        &self.gateway_url
    }

    /// The position of a bot's record, if it has one.
    pub fn find_bot(&self, id: &BotId) -> (r: Option<usize>)
        requires
            self@.wf(),
        ensures
            r is None <==> !self@.has_bot(id@),
            r matches Some(i) ==> i == self@.bot_index(id@) && i < self@.bots.len(),
    {
        let mut i: usize = 0;
        while i < self.bots.len()
            invariant
                self@.wf(),
                i <= self.bots@.len(),
                forall|k: int| 0 <= k < i ==> (#[trigger] self@.bots[k]).id() != id@,
            decreases self.bots@.len() - i,
        {
            let b = &self.bots[i];
            if b.intents == id.intents && b.token == id.token {
                proof {
                    assert(self@.bots[i as int] == b@);
                    lemma_unique_index(self@, i as int);
                }
                return Some(i);
            }
            assert(self@.bots[i as int] == b@);
            i = i + 1;
        }
        assert(!self@.has_bot(id@)) by {
            if self@.has_bot(id@) {
                let k = choose|k: int| 0 <= k < self@.bots.len() && #[trigger] self@.bots[k].id() == id@;
                assert(self@.bots[k].id() != id@);
            }
        }
        None
    }

    /// The position of the record that a channel routes to, if any.
    pub fn find_channel(&self, channel: u32) -> (r: Option<usize>)
        requires
            self@.wf(),
        ensures
            r is None <==> !self@.has_route(channel),
            r matches Some(i) ==> i == self@.route_index(channel) && i < self@.bots.len(),
    {
        let mut i: usize = 0;
        while i < self.bots.len()
            invariant
                self@.wf(),
                i <= self.bots@.len(),
                forall|k: int| 0 <= k < i ==> (#[trigger] self@.bots[k]).channel != channel,
            decreases self.bots@.len() - i,
        {
            if self.bots[i].ws_client_channel == channel {
                proof {
                    lemma_unique_index(self@, i as int);
                }
                return Some(i);
            }
            i = i + 1;
        }
        assert(!self@.has_route(channel)) by {
            if self@.has_route(channel) {
                let k = choose|k: int|
                    0 <= k < self@.bots.len() && #[trigger] self@.bots[k].channel == channel;
                assert(self@.bots[k].channel != channel);
            }
        }
        None
    }

    /// The identity that a channel routes to.
    pub fn route(&self, channel: u32) -> (r: Option<BotId>)
        requires
            self@.wf(),
        ensures
            r matches Some(id) ==> self@.route(channel) == Some(id@),
            r is None ==> self@.route(channel) is None,
    {
        match self.find_channel(channel) {
            Some(i) => Some(self.bots[i].id()),
            None => None,
        }
    }

    /// The state of a bot's session.
    pub fn status_of(&self, id: &BotId) -> (r: ConnectionState)
        requires
            self@.wf(),
        ensures
            r == self@.status(id@),
    {
        match self.find_bot(id) {
            Some(i) => self.bots[i].status,
            None => ConnectionState::Disconnected,
        }
    }

    /// Takes out the record at position `i`.
    fn take(&mut self, i: usize) -> (b: Bot)
        requires
            i < old(self).bots@.len(),
        ensures
            b@ == old(self)@.bots[i as int],
            final(self)@ == (StateView { bots: old(self)@.bots.remove(i as int), ..old(self)@ }),
    {
        let b = self.bots.remove(i);
        assert(self@.bots =~= old(self)@.bots.remove(i as int));
        b
    }

    /// Puts a record back at position `i`, where `take` took it out.
    fn restore(&mut self, i: usize, b: Bot, ghost_old: Ghost<StateView>)
        requires
            0 <= i < ghost_old@.bots.len(),
            old(self)@ == (StateView { bots: ghost_old@.bots.remove(i as int), ..ghost_old@ }),
        ensures
            final(self)@ == ghost_old@.with_bot(i as int, b@),
    {
        let ghost before = self.bots@;
        assert(self.bots@.len() == self@.bots.len());
        self.bots.insert(i, b);
        assert forall|k: int| 0 <= k < self@.bots.len() implies #[trigger] self@.bots[k]
            == ghost_old@.bots.update(i as int, b@)[k] by {
            if k < i {
                assert(self.bots@[k] == before[k]);
                assert(old(self)@.bots[k] == before[k]@);
            } else if k > i {
                assert(self.bots@[k] == before[k - 1]);
                assert(old(self)@.bots[k - 1] == before[k - 1]@);
            }
        }
        assert(self@.bots =~= ghost_old@.bots.update(i as int, b@));
    }

    /// Registers a bot that asks to connect; the caller then resolves the
    /// gateway endpoint and reports it with `gateway_resolved`.
    pub fn connect(&mut self, parent: String, id: BotId) -> (r: Result<Vec<Action>, SessionError>)
        requires
            old(self)@.wf(),
        ensures
            final(self)@.wf(),
            final(self)@ == connect_spec(old(self)@, parent@, id@).0,
            match (r, connect_spec(old(self)@, parent@, id@).1) {
                (Ok(acts), Ok(e)) => effects(acts) == e,
                (Err(x), Err(y)) => x == y,
                _ => false,
            },
    {
        if self.find_bot(&id).is_some() {
            return Err(SessionError::AlreadyConnected);
        }
        if self.next_channel == u32::MAX {
            return Err(SessionError::ChannelsExhausted);
        }
        let channel = self.next_channel;
        let ghost pv = parent@;
        let ghost idv = id@;
        let bot = Bot::new(parent, id, channel);
        self.bots.push(bot);
        self.next_channel = channel + 1;
        let mut acts: Vec<Action> = Vec::new();
        acts.push(Action::ResolveGateway { channel });
        proof {
            let (t, e) = connect_spec(old(self)@, pv, idv);
            assert(self@.bots =~= t.bots);
            assert(effects(acts) =~= e.unwrap());
            lemma_connect_wf(old(self)@, pv, idv);
        }
        Ok(acts)
    }

    /// The gateway endpoint for a connecting session's channel was resolved.
    pub fn gateway_resolved(&mut self, channel: u32, url: String) -> (r: Vec<Action>)
        requires
            old(self)@.wf(),
        ensures
            final(self)@.wf(),
            (final(self)@, effects(r)) == resolved_spec(old(self)@, channel, url@),
    {
        let mut r: Vec<Action> = Vec::new();
        match self.find_channel(channel) {
            Some(i) => {
                if self.bots[i].status == ConnectionState::Connecting {
                    let open = Action::OpenConnection { url: with_params(url.as_str()), channel };
                    let ghost s0 = self@;
                    let mut b = self.take(i);
                    b.status = ConnectionState::AwaitingHello;
                    self.restore(i, b, Ghost(s0));
                    self.gateway_url = url;
                    r.push(open);
                    proof {
                        let (t, e) = resolved_spec(old(self)@, channel, url@);
                        assert(self@.bots =~= t.bots);
                        assert(effects(r) =~= e);
                        lemma_unique_index(old(self)@, i as int);
                        lemma_update_wf(old(self)@, i as int, t.bots[i as int]);
                        assert(old(self)@.with_bot(i as int, t.bots[i as int]).bots =~= t.bots);
                    }
                }
            },
            None => {},
        }
        assert(effects(r) =~= resolved_spec(old(self)@, channel, url@).1);
        r
    }

    /// Drops a connecting session whose endpoint or connection could not be
    /// had; the caller reports the failure to whoever asked to connect.
    pub fn abandon_connect(&mut self, channel: u32)
        requires
            old(self)@.wf(),
        ensures
            final(self)@.wf(),
            final(self)@ == abandon_spec(old(self)@, channel),
    {
        match self.find_channel(channel) {
            Some(i) => {
                if self.bots[i].status == ConnectionState::Connecting {
                    let _ = self.take(i);
                    proof {
                        lemma_remove_wf(old(self)@, i as int);
                    }
                }
            },
            None => {},
        }
    }

    /// Disconnects a bot: its channel is closed, its record and route removed.
    pub fn disconnect(&mut self, id: &BotId) -> (r: Vec<Action>)
        requires
            old(self)@.wf(),
        ensures
            final(self)@.wf(),
            (final(self)@, effects(r)) == disconnect_spec(old(self)@, id@),
    {
        let mut r: Vec<Action> = Vec::new();
        match self.find_bot(id) {
            Some(i) => {
                let b = self.take(i);
                r.push(Action::CloseConnection { channel: b.ws_client_channel });
                proof {
                    lemma_remove_wf(old(self)@, i as int);
                }
            },
            None => {},
        }
        assert(effects(r) =~= disconnect_spec(old(self)@, id@).1);
        r
    }

    /// Handles a decoded frame that arrived on a channel.
    pub fn handle_push(&mut self, channel: u32, event: GatewayEvent, seq: Option<u64>) -> (r: Vec<
        Action,
    >)
        requires
            old(self)@.wf(),
        ensures
            final(self)@.wf(),
            (final(self)@, effects(r)) == push_spec(old(self)@, channel, event, seq),
    {
        match self.find_channel(channel) {
            Some(i) => {
                let mut b = self.take(i);
                if let Some(n) = seq {
                    b.heartbeat_sequence = Some(n);
                }
                let ghost b1 = b@;
                assert(b1 == with_sequence(old(self)@.bots[i as int], seq));
                let r = b.handle_gateway_event(event);
                self.restore(i, b, Ghost(old(self)@));
                proof {
                    let (nb, e) = on_event_spec(b1, event);
                    assert(self@.bots =~= old(self)@.bots.update(i as int, nb));
                    lemma_unique_index(old(self)@, i as int);
                    lemma_update_wf(old(self)@, i as int, nb);
                }
                r
            },
            None => {
                let r: Vec<Action> = Vec::new();
                assert(effects(r) =~= Seq::<Effect>::empty());
                r
            },
        }
    }

    /// Handles the close of a channel's transport connection.
    pub fn handle_close(&mut self, channel: u32) -> (r: Vec<Action>)
        requires
            old(self)@.wf(),
        ensures
            final(self)@.wf(),
            (final(self)@, effects(r)) == transport_close_spec(old(self)@, channel),
            !old(self)@.has_route(channel) ==> final(self)@ == old(self)@ && r@.len() == 0,
    {
        match self.find_channel(channel) {
            Some(i) => {
                let mut b = self.take(i);
                let r = b.handle_close(self.gateway_url.as_str());
                self.restore(i, b, Ghost(old(self)@));
                proof {
                    let (nb, e) = close_spec(old(self)@.bots[i as int], old(self)@.gateway_url);
                    assert(self@.bots =~= old(self)@.bots.update(i as int, nb));
                    lemma_unique_index(old(self)@, i as int);
                    lemma_update_wf(old(self)@, i as int, nb);
                }
                r
            },
            None => {
                let r: Vec<Action> = Vec::new();
                assert(effects(r) =~= Seq::<Effect>::empty());
                r
            },
        }
    }

    /// Handles a heartbeat tick for a bot.
    pub fn heartbeat_tick(&self, id: &BotId, timer: u64) -> (r: Vec<Action>)
        requires
            self@.wf(),
        ensures
            effects(r) == registry_tick_spec(self@, id@, timer),
    {
        match self.find_bot(id) {
            Some(i) => self.bots[i].heartbeat_tick(timer),
            None => {
                let r: Vec<Action> = Vec::new();
                assert(effects(r) =~= Seq::<Effect>::empty());
                r
            },
        }
    }

    /// Sends a message for a bot on its live gateway connection.
    pub fn send(&self, id: &BotId, event: GatewaySendEvent) -> (r: Result<Vec<Action>, SessionError>)
        requires
            self@.wf(),
        ensures
            self@.has_bot(id@) && is_live(self@.status(id@)) ==> (r matches Ok(acts) && effects(acts)
                == seq![Effect::Send(self@.bots[self@.bot_index(id@)].channel, event.outbound())]),
            !(self@.has_bot(id@) && is_live(self@.status(id@))) ==> r == Err::<Vec<Action>, SessionError>(
                SessionError::NotConnected,
            ),
    {
        match self.find_bot(id) {
            Some(i) => {
                let st = self.bots[i].status;
                if st == ConnectionState::Identifying || st == ConnectionState::SteadyState
                    || matches!(st, ConnectionState::Reconnecting { .. }) {
                    let ghost ev = event;
                    let mut r: Vec<Action> = Vec::new();
                    r.push(Action::Send { channel: self.bots[i].ws_client_channel, event });
                    assert(effects(r) =~= seq![Effect::Send(self@.bots[i as int].channel, ev.outbound())]);
                    Ok(r)
                } else {
                    Err(SessionError::NotConnected)
                }
            },
            None => Err(SessionError::NotConnected),
        }
    }

    /// Handles a control request from the process at `parent`.
    pub fn handle_api_request(&mut self, parent: String, req: DiscordApiRequest) -> (r: Result<
        Vec<Action>,
        SessionError,
    >)
        requires
            old(self)@.wf(),
        ensures
            final(self)@.wf(),
            match req {
                DiscordApiRequest::Connect(id) => {
                    let (t, res) = connect_spec(old(self)@, parent@, id@);
                    &&& final(self)@ == t
                    &&& match (r, res) {
                        (Ok(acts), Ok(e)) => effects(acts) == e,
                        (Err(x), Err(y)) => x == y,
                        _ => false,
                    }
                },
                DiscordApiRequest::Disconnect(id) => {
                    let (t, e) = disconnect_spec(old(self)@, id@);
                    &&& final(self)@ == t
                    &&& r matches Ok(acts) && effects(acts) == e
                },
                DiscordApiRequest::Gateway { bot, event } => {
                    &&& final(self)@ == old(self)@
                    &&& old(self)@.has_bot(bot@) && is_live(old(self)@.status(bot@)) ==> (r matches Ok(
                        acts,
                    ) && effects(acts) == seq![
                        Effect::Send(
                            old(self)@.bots[old(self)@.bot_index(bot@)].channel,
                            event.outbound(),
                        ),
                    ])
                    &&& !(old(self)@.has_bot(bot@) && is_live(old(self)@.status(bot@))) ==> r
                        == Err::<Vec<Action>, SessionError>(SessionError::NotConnected)
                },
            },
    {
        match req {
            DiscordApiRequest::Connect(id) => self.connect(parent, id),
            DiscordApiRequest::Disconnect(id) => Ok(self.disconnect(&id)),
            DiscordApiRequest::Gateway { bot, event } => self.send(&bot, event),
        }
    }
}

/// Connecting keeps the registry well formed.
pub proof fn lemma_connect_wf(s: StateView, parent: Seq<char>, id: (Seq<char>, u128))
    requires
        s.wf(),
    ensures
        connect_spec(s, parent, id).0.wf(),
{
    let t = connect_spec(s, parent, id).0;
    if !s.has_bot(id) && s.next_channel != u32::MAX {
        assert forall|i: int, j: int| 0 <= i < j < t.bots.len() implies #[trigger] t.bots[i].id()
            != #[trigger] t.bots[j].id() && t.bots[i].channel != t.bots[j].channel by {
            if j == s.bots.len() {
                assert(s.bots[i].id() == t.bots[i].id());
                assert(s.bots[i].channel < s.next_channel);
            }
        }
    }
}

/// Connect followed by Disconnect of the same bot, before any Hello, leaves
/// no session and no route for that bot, whatever the registry held before.
pub proof fn lemma_connect_then_disconnect(s: StateView, parent: Seq<char>, id: (Seq<char>, u128))
    requires
        s.wf(),
    ensures
        ({
            let s1 = connect_spec(s, parent, id).0;
            let s2 = disconnect_spec(s1, id).0;
            &&& !s2.has_bot(id)
            &&& forall|c: int| 0 <= c < s2.bots.len() ==> #[trigger] s2.bots[c].id() != id
        }),
{
    lemma_connect_wf(s, parent, id);
    let s1 = connect_spec(s, parent, id).0;
    let s2 = disconnect_spec(s1, id).0;
    if s1.has_bot(id) {
        let i = s1.bot_index(id);
        assert forall|c: int| 0 <= c < s2.bots.len() implies #[trigger] s2.bots[c].id() != id by {
            let c2 = if c < i { c } else { c + 1 };
            assert(s2.bots[c] == s1.bots[c2]);
            if c2 < i {
                assert(s1.bots[c2].id() != s1.bots[i].id());
            } else {
                assert(s1.bots[i].id() != s1.bots[c2].id());
            }
        }
    } else {
        assert forall|c: int| 0 <= c < s2.bots.len() implies #[trigger] s2.bots[c].id() != id by {
            if s2.bots[c].id() == id {
                assert(s1.has_bot(id));
            }
        }
    }
}

/// The close of a channel that routes to no session changes nothing and asks
/// for nothing: in particular no new connection is opened.
pub proof fn lemma_close_unrouted_is_noop(s: StateView, channel: u32)
    requires
        !s.has_route(channel),
    ensures
        transport_close_spec(s, channel) == (s, Seq::<Effect>::empty()),
{
}

} // verus!
