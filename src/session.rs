//! The session engine: connection lifecycle, the local cache of both
//! relations, and dispatch of user commands.
//!
//! Every connection attempt gets a number. Callbacks of a connection carry the
//! number of the attempt that opened it, and callbacks of a superseded attempt
//! are ignored, so a connection registers its subscription at most once and a
//! stale connection never touches the cache.
use vstd::prelude::*;
use vstd::string::*;
use crate::model::{Identity, Message, MessageView, User, UserView, option_string_view};
use crate::users::{UserCache, resolve_spec};
use crate::buffer::{DisplayBuffer, DisplayEntry, EntryView, insert_entry, sorted_by_sent, lemma_insert_keeps_sorted};
use crate::command::{Action, ActionView, route_input, route_spec, option_action_view};

verus! {

/// Where the session stands.
#[derive(Clone, Copy, Debug, PartialEq, Eq, Structural)]
pub enum Phase {
    /// No connection, and none being opened.
    Idle,
    /// A connection is being opened and has not yet reported its identity.
    Connecting,
    /// The connection is live under this identity.
    Connected(Identity),
}

/// What the host needs to open a connection.
#[derive(Clone, Debug)]
pub struct ConnectRequest {
    /// The number of this attempt; the connection's callbacks report it back.
    pub attempt: u64,
    /// The stored session token, if there is one; without it the backend hands out a new identity.
    pub token: Option<String>,
}

/// What a `ConnectRequest` says.
pub struct ConnectRequestView {
    pub attempt: u64,
    pub token: Option<Seq<char>>,
}

impl View for ConnectRequest {
    type V = ConnectRequestView;

    open spec fn view(&self) -> ConnectRequestView {
        ConnectRequestView { attempt: self.attempt, token: option_string_view(self.token) }
    }
}

/// The whole state of a session, as mathematics.
pub struct ClientView {
    pub token: Option<Seq<char>>,
    pub desired_name: Option<Seq<char>>,
    pub attempt: u64,
    pub phase: Phase,
    pub users: Map<Identity, Option<Seq<char>>>,
    pub buffer: Seq<EntryView>,
}

/// The invariant of a session: the buffer is ordered by sending time, a
/// desired name is never empty, and no connection is opened without one.
pub open spec fn client_inv(c: ClientView) -> bool {
    &&& sorted_by_sent(c.buffer)
    &&& (c.desired_name matches Some(n) ==> n.len() > 0)
    &&& (c.phase != Phase::Idle ==> c.desired_name is Some)
}

pub open spec fn is_connected_spec(c: ClientView) -> bool {
    c.phase is Connected
}

/// Whether a callback of attempt `attempt` concerns the live connection.
pub open spec fn is_live(c: ClientView, attempt: u64) -> bool {
    c.phase is Connected && c.attempt == attempt
}

/// Whether a lifecycle callback of attempt `attempt` concerns the current attempt.
pub open spec fn is_current(c: ClientView, attempt: u64) -> bool {
    c.phase != Phase::Idle && c.attempt == attempt
}

/// `c` with both relations and the buffer emptied.
pub open spec fn cleared(c: ClientView, phase: Phase) -> ClientView {
    ClientView {
        phase,
        users: Map::empty(),
        buffer: Seq::empty(),
        ..c
    }
}

pub open spec fn set_desired_name_spec(c: ClientView, name: Seq<char>) -> ClientView {
    if name.len() > 0 {
        ClientView { desired_name: Some(name), ..c }
    } else {
        c
    }
}

/// A connect with a desired name starts a new attempt and drops what the
/// previous one had cached; without a desired name it does nothing.
pub open spec fn connect_spec(c: ClientView) -> (ClientView, Option<ConnectRequestView>)
    recommends
        c.attempt < u64::MAX,
{
    if c.desired_name is Some {
        let next = (c.attempt + 1) as u64;
        (
            cleared(ClientView { attempt: next, ..c }, Phase::Connecting),
            Some(ConnectRequestView { attempt: next, token: c.token }),
        )
    } else {
        (c, None)
    }
}

/// The current attempt succeeded: subscribe, keep the token, and ask for the
/// desired name. Any other success report is ignored.
pub open spec fn connected_spec(c: ClientView, attempt: u64, id: Identity, token: Seq<char>) -> (
    ClientView,
    Seq<ActionView>,
) {
    if c.phase == Phase::Connecting && c.attempt == attempt {
        (
            ClientView { phase: Phase::Connected(id), token: Some(token), ..c },
            seq![
                ActionView::Subscribe,
                ActionView::StoreToken(token),
                ActionView::SetName(c.desired_name->Some_0),
            ],
        )
    } else {
        (c, Seq::empty())
    }
}

/// The current attempt failed or its connection closed: clear the cache, keep the token.
pub open spec fn disconnected_spec(c: ClientView, attempt: u64) -> ClientView {
    if is_current(c, attempt) {
        cleared(c, Phase::Idle)
    } else {
        c
    }
}

pub open spec fn user_inserted_spec(c: ClientView, attempt: u64, u: UserView) -> ClientView {
    if is_live(c, attempt) {
        ClientView { users: c.users.insert(u.identity, u.name), ..c }
    } else {
        c
    }
}

pub open spec fn user_updated_spec(
    c: ClientView,
    attempt: u64,
    before: UserView,
    after: UserView,
) -> ClientView {
    if is_live(c, attempt) {
        ClientView { users: c.users.remove(before.identity).insert(after.identity, after.name), ..c }
    } else {
        c
    }
}

pub open spec fn user_deleted_spec(c: ClientView, attempt: u64, u: UserView) -> ClientView {
    if is_live(c, attempt) {
        ClientView { users: c.users.remove(u.identity), ..c }
    } else {
        c
    }
}

/// The display entry for `m`, with its sender resolved against `users`.
pub open spec fn enrich(users: Map<Identity, Option<Seq<char>>>, m: MessageView) -> EntryView {
    EntryView { message: m, sender_name: resolve_spec(users, m.sender) }
}

pub open spec fn message_inserted_spec(c: ClientView, attempt: u64, m: MessageView) -> ClientView {
    if is_live(c, attempt) {
        ClientView { buffer: insert_entry(c.buffer, enrich(c.users, m)), ..c }
    } else {
        c
    }
}

/// The remote call that input `raw` asks for: none while not connected.
pub open spec fn submit_spec(c: ClientView, raw: Seq<char>) -> Option<ActionView> {
    if is_connected_spec(c) {
        route_spec(raw)
    } else {
        None
    }
}

/// One chat session against the backend.
pub struct ChatClient {
    token: Option<String>,
    desired_name: Option<String>,
    attempt: u64,
    phase: Phase,
    users: UserCache,
    buffer: DisplayBuffer,
}

impl View for ChatClient {
    type V = ClientView;

    closed spec fn view(&self) -> ClientView {
        ClientView {
            token: option_string_view(self.token),
            desired_name: option_string_view(self.desired_name),
            attempt: self.attempt,
            phase: self.phase,
            users: self.users.view(),
            buffer: self.buffer.view(),
        }
    }
}

impl ChatClient {
    pub closed spec fn well_formed(&self) -> bool {
        self.users.well_formed() && client_inv(self@)
    }

    /// What a well-formed session satisfies.
    pub proof fn lemma_well_formed(&self)
        requires
            self.well_formed(),
        ensures
            client_inv(self@),
    {
    }

    /// A session with nothing cached, holding the token read from the credential store.
    pub fn new(stored_token: Option<String>) -> (r: ChatClient)
        ensures
            r.well_formed(),
            r@ == (ClientView {
                token: option_string_view(stored_token),
                desired_name: None,
                attempt: 0,
                phase: Phase::Idle,
                users: Map::empty(),
                buffer: Seq::empty(),
            }),
    {
        ChatClient {
            token: stored_token,
            desired_name: None,
            attempt: 0,
            phase: Phase::Idle,
            users: UserCache::new(),
            buffer: DisplayBuffer::new(),
        }
    }

    /// Sets the name to ask for on the next connect; an empty name is ignored.
    pub fn set_desired_name(&mut self, name: String)
        requires
            old(self).well_formed(),
        ensures
            final(self).well_formed(),
            final(self)@ == set_desired_name_spec(old(self)@, name@),
    {
        if name.as_str().unicode_len() > 0 {
            self.desired_name = Some(name);
        }
    }

    /// Starts a new connection attempt, superseding any earlier one, and says
    /// what to connect with; `None` when no name has been chosen yet.
    pub fn connect(&mut self) -> (r: Option<ConnectRequest>)
        requires
            old(self).well_formed(),
            old(self)@.attempt < u64::MAX,
        ensures
            final(self).well_formed(),
            final(self)@ == connect_spec(old(self)@).0,
            match r {
                Some(q) => connect_spec(old(self)@).1 == Some(q@),
                None => connect_spec(old(self)@).1 is None,
            },
    {
        if self.desired_name.is_none() {
            return None;
        }
        self.attempt = self.attempt + 1;
        self.phase = Phase::Connecting;
        self.users.clear();
        self.buffer.clear();
        Some(ConnectRequest { attempt: self.attempt, token: self.token.clone() })
    }

    /// The connection of attempt `attempt` is up under `identity`, with session token `token`.
    pub fn on_connected(&mut self, attempt: u64, identity: Identity, token: String) -> (r: Vec<
        Action,
    >)
        requires
            old(self).well_formed(),
        ensures
            final(self).well_formed(),
            final(self)@ == connected_spec(old(self)@, attempt, identity, token@).0,
            r@.map_values(|a: Action| a@) == connected_spec(
                old(self)@,
                attempt,
                identity,
                token@,
            ).1,
    {
        let mut actions: Vec<Action> = Vec::new();
        if self.phase == Phase::Connecting && self.attempt == attempt {
            let name = match &self.desired_name {
                Some(n) => n.clone(),
                None => String::new(),
            };
            actions.push(Action::Subscribe);
            actions.push(Action::StoreToken(token.clone()));
            actions.push(Action::SetName(name));
            self.phase = Phase::Connected(identity);
            self.token = Some(token);
            assert(actions@.map_values(|a: Action| a@) =~= connected_spec(
                old(self)@,
                attempt,
                identity,
                token@,
            ).1);
        } else {
            assert(actions@.map_values(|a: Action| a@) =~= Seq::<ActionView>::empty());
        }
        actions
    }

    /// Attempt `attempt` failed, or its connection closed.
    pub fn on_disconnected(&mut self, attempt: u64)
        requires
            old(self).well_formed(),
        ensures
            final(self).well_formed(),
            final(self)@ == disconnected_spec(old(self)@, attempt),
    {
        if self.phase != Phase::Idle && self.attempt == attempt {
            self.phase = Phase::Idle;
            self.users.clear();
            self.buffer.clear();
        }
    }

    fn live(&self, attempt: u64) -> (r: bool)
        ensures
            r == is_live(self@, attempt),
    {
        match self.phase {
            Phase::Connected(_) => self.attempt == attempt,
            _ => false,
        }
    }

    /// A row was inserted into `user`.
    pub fn on_user_inserted(&mut self, attempt: u64, user: User)
        requires
            old(self).well_formed(),
        ensures
            final(self).well_formed(),
            final(self)@ == user_inserted_spec(old(self)@, attempt, user@),
    {
        if self.live(attempt) {
            self.users.upsert(user);
        }
    }

    /// A row of `user` was replaced.
    pub fn on_user_updated(&mut self, attempt: u64, before: User, after: User)
        requires
            old(self).well_formed(),
        ensures
            final(self).well_formed(),
            final(self)@ == user_updated_spec(old(self)@, attempt, before@, after@),
    {
        if self.live(attempt) {
            self.users.remove(before.identity);
            self.users.upsert(after);
        }
    }

    /// A row was deleted from `user`.
    pub fn on_user_deleted(&mut self, attempt: u64, user: User)
        requires
            old(self).well_formed(),
        ensures
            final(self).well_formed(),
            final(self)@ == user_deleted_spec(old(self)@, attempt, user@),
    {
        if self.live(attempt) {
            self.users.remove(user.identity);
        }
    }

    /// A row was inserted into `message`: resolve its sender now and place it on display.
    pub fn on_message_inserted(&mut self, attempt: u64, message: Message)
        requires
            old(self).well_formed(),
        ensures
            final(self).well_formed(),
            final(self)@ == message_inserted_spec(old(self)@, attempt, message@),
    {
        if self.live(attempt) {
            let name = self.users.resolve(message.sender);
            let entry = DisplayEntry { message, sender_name: name };
            proof {
                lemma_insert_keeps_sorted(self.buffer.view(), entry@);
            }
            self.buffer.insert(entry);
        }
    }

    /// The remote call that the user's input asks for, if any.
    pub fn submit(&self, raw: &str) -> (r: Option<Action>)
        ensures
            option_action_view(r) == submit_spec(self@, raw@),
    {
        match self.phase {
            Phase::Connected(_) => route_input(raw),
            _ => None,
        }
    }

    /// Whether a connection is live.
    pub fn is_connected(&self) -> (r: bool)
        ensures
            r == is_connected_spec(self@),
    {
        match self.phase {
            Phase::Connected(_) => true,
            _ => false,
        }
    }

    /// The identity of the live connection, if any.
    pub fn identity(&self) -> (r: Option<Identity>)
        ensures
            r == (match self@.phase {
                Phase::Connected(id) => Some(id),
                _ => None,
            }),
    {
        match self.phase {
            Phase::Connected(id) => Some(id),
            _ => None,
        }
    }

    /// Where the session stands.
    pub fn phase(&self) -> (r: Phase)
        ensures
            r == self@.phase,
    {
        self.phase
    }

    /// The number of the latest connection attempt.
    pub fn attempt(&self) -> (r: u64)
        ensures
            r == self@.attempt,
    {
        self.attempt
    }

    /// The session token held for the next connect.
    pub fn stored_token(&self) -> (r: &Option<String>)
        ensures
            option_string_view(*r) == self@.token,
    {
        &self.token
    }

    /// The name to ask for on connect.
    pub fn desired_name(&self) -> (r: &Option<String>)
        ensures
            option_string_view(*r) == self@.desired_name,
    {
        &self.desired_name
    }

    /// The messages on display, ordered by sending time.
    pub fn display_buffer(&self) -> (r: &Vec<DisplayEntry>)
        ensures
            r@.map_values(|e: DisplayEntry| e@) == self@.buffer,
    {
        self.buffer.entries()
    }

    /// Whether no user row is cached.
    pub fn users_empty(&self) -> (r: bool)
        requires
            self.well_formed(),
        ensures
            r == (self@.users == Map::<Identity, Option<Seq<char>>>::empty()),
    {
        self.users.is_empty()
    }

    /// The name that `id` resolves to against the cached user rows.
    pub fn resolve(&self, id: Identity) -> (r: String)
        requires
            self.well_formed(),
        ensures
            r@ == resolve_spec(self@.users, id),
    {
        self.users.resolve(id)
    }
}

} // verus!
