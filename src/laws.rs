//! Properties of the session engine that relate several of its operations.
use vstd::prelude::*;
use crate::model::{Identity, MessageView, UserView};
use crate::users::unknown_label;
use crate::buffer::{EntryView, insert_pos, lemma_insert_keeps_sorted, lemma_insert_pos, sorted_by_sent};
use crate::command::ActionView;
use crate::session::{
    ClientView, ConnectRequestView, Phase, client_inv, connect_spec, connected_spec, disconnected_spec,
    enrich, is_connected_spec, is_current, is_live, message_inserted_spec, user_deleted_spec,
    user_inserted_spec, user_updated_spec,
};

verus! {

/// An insert event on one of the two relations.
pub enum InsertEvent {
    User(UserView),
    Message(MessageView),
}

pub open spec fn apply_insert(c: ClientView, attempt: u64, e: InsertEvent) -> ClientView {
    match e {
        InsertEvent::User(u) => user_inserted_spec(c, attempt, u),
        InsertEvent::Message(m) => message_inserted_spec(c, attempt, m),
    }
}

/// The session after the events `es`, in order.
pub open spec fn apply_inserts(c: ClientView, attempt: u64, es: Seq<InsertEvent>) -> ClientView
    decreases es.len(),
{
    if es.len() == 0 {
        c
    } else {
        apply_insert(apply_inserts(c, attempt, es.drop_last()), attempt, es.last())
    }
}

proof fn lemma_apply_inserts_inv(c: ClientView, attempt: u64, es: Seq<InsertEvent>)
    requires
        client_inv(c),
    ensures
        client_inv(apply_inserts(c, attempt, es)),
    decreases es.len(),
{
    if es.len() > 0 {
        let p = apply_inserts(c, attempt, es.drop_last());
        lemma_apply_inserts_inv(c, attempt, es.drop_last());
        if let InsertEvent::Message(m) = es.last() {
            lemma_insert_keeps_sorted(p.buffer, enrich(p.users, m));
        }
    }
}

/// Whatever user and message inserts arrive, the display buffer is ordered by
/// sending time after each of them.
pub proof fn lemma_inserts_keep_buffer_sorted(c: ClientView, attempt: u64, es: Seq<InsertEvent>)
    requires
        client_inv(c),
    ensures
        forall|k: int|
            0 <= k <= es.len() ==> sorted_by_sent(
                #[trigger] apply_inserts(c, attempt, es.take(k)).buffer,
            ),
{
    assert forall|k: int| 0 <= k <= es.len() implies sorted_by_sent(
        #[trigger] apply_inserts(c, attempt, es.take(k)).buffer,
    ) by {
        lemma_apply_inserts_inv(c, attempt, es.take(k));
    }
}

/// A connection's success is acted on once: the first report for the current
/// attempt subscribes exactly once, and any later success report, of that
/// attempt or another, issues nothing and changes nothing.
pub proof fn lemma_connect_success_acted_on_once(
    c: ClientView,
    attempt: u64,
    id: Identity,
    token: Seq<char>,
    attempt2: u64,
    id2: Identity,
    token2: Seq<char>,
)
    requires
        client_inv(c),
        c.phase == Phase::Connecting,
        c.attempt == attempt,
    ensures
        ({
            let (c1, a1) = connected_spec(c, attempt, id, token);
            let (c2, a2) = connected_spec(c1, attempt2, id2, token2);
            &&& a1.len() == 3
            &&& a1[0] == ActionView::Subscribe
            &&& forall|i: int| 1 <= i < a1.len() ==> !(a1[i] is Subscribe)
            &&& c2 == c1
            &&& a2 == Seq::<ActionView>::empty()
        }),
{
}

/// A message whose sender has no user row is shown under the label "unknown".
pub proof fn lemma_unresolved_sender_is_unknown(c: ClientView, attempt: u64, m: MessageView)
    requires
        is_live(c, attempt),
        !c.users.contains_key(m.sender),
    ensures
        ({
            let b = message_inserted_spec(c, attempt, m).buffer;
            let p = insert_pos(c.buffer, m.sent) as int;
            &&& 0 <= p < b.len()
            &&& b[p].message == m
            &&& b[p].sender_name == unknown_label()
            &&& b[p].sender_name.len() > 0
        }),
{
    lemma_insert_pos(c.buffer, m.sent);
}

/// A displayed message keeps the sender name it resolved to when it arrived,
/// whatever later happens to its sender's user row.
pub proof fn lemma_sender_name_snapshot(
    c: ClientView,
    attempt: u64,
    m: MessageView,
    before: UserView,
    after: UserView,
    attempt2: u64,
)
    requires
        is_live(c, attempt),
    ensures
        ({
            let c1 = message_inserted_spec(c, attempt, m);
            let p = insert_pos(c.buffer, m.sent) as int;
            &&& c1.buffer[p] == enrich(c.users, m)
            &&& user_updated_spec(c1, attempt2, before, after).buffer == c1.buffer
            &&& user_inserted_spec(c1, attempt2, after).buffer == c1.buffer
            &&& user_deleted_spec(c1, attempt2, before).buffer == c1.buffer
        }),
{
    lemma_insert_pos(c.buffer, m.sent);
}

/// A disconnect of the current attempt leaves the session unconnected with
/// nothing cached, keeps the stored token, and the next connect offers it.
pub proof fn lemma_disconnect_resets(c: ClientView, attempt: u64)
    requires
        client_inv(c),
        is_current(c, attempt),
        c.attempt < u64::MAX,
    ensures
        ({
            let d = disconnected_spec(c, attempt);
            &&& !is_connected_spec(d)
            &&& d.buffer == Seq::<EntryView>::empty()
            &&& d.users == Map::<Identity, Option<Seq<char>>>::empty()
            &&& d.token == c.token
            &&& connect_spec(d).1 == Some(
                ConnectRequestView { attempt: (c.attempt + 1) as u64, token: c.token },
            )
        }),
{
}

} // verus!
