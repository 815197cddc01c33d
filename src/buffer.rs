//! The display buffer: messages with the sender names they resolved to,
//! ordered by sending time, ties kept in order of arrival.
use vstd::prelude::*;
use crate::model::{Message, MessageView};

verus! {

/// A message together with the sender name it resolved to when it arrived.
#[derive(Clone, Debug)]
pub struct DisplayEntry {
    pub message: Message,
    pub sender_name: String,
}

/// What a `DisplayEntry` says.
pub struct EntryView {
    pub message: MessageView,
    pub sender_name: Seq<char>,
}

impl View for DisplayEntry {
    type V = EntryView;

    open spec fn view(&self) -> EntryView {
        EntryView { message: self.message@, sender_name: self.sender_name@ }
    }
}

/// Entries are in non-decreasing order of sending time.
pub open spec fn sorted_by_sent(b: Seq<EntryView>) -> bool {
    forall|i: int, j: int| 0 <= i <= j < b.len() ==> b[i].message.sent <= b[j].message.sent
}

/// Where an entry sent at `t` goes: just after the last entry sent no later than `t`.
pub open spec fn insert_pos(b: Seq<EntryView>, t: i64) -> nat
    decreases b.len(),
{
    if b.len() == 0 {
        0
    } else if b.last().message.sent <= t {
        b.len()
    } else {
        insert_pos(b.drop_last(), t)
    }
}

/// The buffer `b` with `e` placed after every entry sent no later than it.
pub open spec fn insert_entry(b: Seq<EntryView>, e: EntryView) -> Seq<EntryView> {
    b.insert(insert_pos(b, e.message.sent) as int, e)
}

/// Every entry before the insert position is sent no later than `t` (when the
/// buffer is ordered), and every entry from it on is sent later.
pub proof fn lemma_insert_pos(b: Seq<EntryView>, t: i64)
    ensures
        insert_pos(b, t) <= b.len(),
        forall|j: int| insert_pos(b, t) <= j < b.len() ==> b[j].message.sent > t,
        sorted_by_sent(b) ==> forall|j: int| 0 <= j < insert_pos(b, t) ==> b[j].message.sent <= t,
    decreases b.len(),
{
    if b.len() > 0 && b.last().message.sent > t {
        lemma_insert_pos(b.drop_last(), t);
        assert(forall|j: int| 0 <= j < b.len() - 1 ==> b.drop_last()[j] == b[j]);
    }
}

/// Placing an entry keeps the buffer ordered by sending time.
pub proof fn lemma_insert_keeps_sorted(b: Seq<EntryView>, e: EntryView)
    requires
        sorted_by_sent(b),
    ensures
        sorted_by_sent(insert_entry(b, e)),
        insert_entry(b, e).len() == b.len() + 1,
{
    let p = insert_pos(b, e.message.sent) as int;
    lemma_insert_pos(b, e.message.sent);
    let r = insert_entry(b, e);
    assert forall|i: int, j: int| 0 <= i <= j < r.len() implies r[i].message.sent
        <= r[j].message.sent by {
        let a = if i < p { i } else if i == p { -1 } else { i - 1 };
        let c = if j < p { j } else if j == p { -1 } else { j - 1 };
        if i == p && j == p {
        } else if i == p {
            assert(r[j] == b[c]);
        } else if j == p {
            assert(r[i] == b[a]);
        } else {
            assert(r[i] == b[a]);
            assert(r[j] == b[c]);
        }
    }
}

/// The messages on display, ordered by sending time.
pub struct DisplayBuffer {
    entries: Vec<DisplayEntry>,
}

impl DisplayBuffer {
    pub closed spec fn view(&self) -> Seq<EntryView> {
        self.entries@.map_values(|e: DisplayEntry| e@)
    }

    /// An empty buffer.
    pub fn new() -> (r: DisplayBuffer)
        ensures
            r.view() == Seq::<EntryView>::empty(),
    {
        let r = DisplayBuffer { entries: Vec::new() };
        assert(r.view() =~= Seq::<EntryView>::empty());
        r
    }

    /// Places `entry` after every entry sent no later than it.
    pub fn insert(&mut self, entry: DisplayEntry)
        ensures
            final(self).view() == insert_entry(old(self).view(), entry@),
    {
        let t = entry.message.sent;
        let ghost b = self.view();
        let mut i: usize = self.entries.len();
        assert(b.subrange(0, i as int) =~= b);
        while i > 0 && self.entries[i - 1].message.sent > t
            invariant
                i <= self.entries@.len(),
                b == self.view(),
                insert_pos(b, t) == insert_pos(b.subrange(0, i as int), t),
            decreases i,
        {
            proof {
                let s = b.subrange(0, i as int);
                assert(s.drop_last() =~= b.subrange(0, i - 1));
            }
            i = i - 1;
        }
        proof {
            let s = b.subrange(0, i as int);
            if i > 0 {
                assert(s.last() == b[i - 1]);
            }
            assert(insert_pos(s, t) == i);
        }
        self.entries.insert(i, entry);
        assert(self.view() =~= b.insert(i as int, entry@));
    }

    /// Drops every entry.
    pub fn clear(&mut self)
        ensures
            final(self).view() == Seq::<EntryView>::empty(),
    {
        self.entries = Vec::new();
        assert(self.view() =~= Seq::<EntryView>::empty());
    }

    /// The entries, in display order.
    pub fn entries(&self) -> (r: &Vec<DisplayEntry>)
        ensures
            r@.map_values(|e: DisplayEntry| e@) == self.view(),
    {
        &self.entries
    }
}

} // verus!
