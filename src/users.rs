//! The local copy of the `user` relation and the identity resolver.
use vstd::prelude::*;
use crate::model::{Identity, User, option_string_view};

verus! {

/// The label shown for a sender whose identity has no user row, or whose row has no name.
pub open spec fn unknown_label() -> Seq<char> {
    seq!['u', 'n', 'k', 'n', 'o', 'w', 'n']
}

/// The name that `id` resolves to against the user mapping `users`.
pub open spec fn resolve_spec(users: Map<Identity, Option<Seq<char>>>, id: Identity) -> Seq<char> {
    if users.contains_key(id) && users[id] is Some {
        users[id]->Some_0
    } else {
        unknown_label()
    }
}

/// The user relation as held locally: one row per identity.
pub struct UserCache {
    rows: Vec<User>,
}

pub open spec fn rows_unique(rows: Seq<User>) -> bool {
    forall|i: int, j: int|
        0 <= i < rows.len() && 0 <= j < rows.len() && i != j ==> rows[i].identity
            != rows[j].identity
}

pub open spec fn rows_have(rows: Seq<User>, id: Identity) -> bool {
    exists|i: int| 0 <= i < rows.len() && rows[i].identity == id
}

/// The mapping from identity to optional display name that a list of rows holds.
pub open spec fn rows_map(rows: Seq<User>) -> Map<Identity, Option<Seq<char>>> {
    Map::new(
        |id: Identity| rows_have(rows, id),
        |id: Identity|
            option_string_view(
                rows[choose|i: int| 0 <= i < rows.len() && rows[i].identity == id].name,
            ),
    )
}

proof fn lemma_rows_map_at(rows: Seq<User>, k: int)
    requires
        rows_unique(rows),
        0 <= k < rows.len(),
    ensures
        rows_map(rows).contains_key(rows[k].identity),
        rows_map(rows)[rows[k].identity] == option_string_view(rows[k].name),
{
    let id = rows[k].identity;
    assert(rows_have(rows, id));
    let c = choose|i: int| 0 <= i < rows.len() && rows[i].identity == id;
    assert(c == k);
}

proof fn lemma_rows_map_push(rows: Seq<User>, u: User)
    requires
        rows_unique(rows),
        !rows_have(rows, u.identity),
    ensures
        rows_unique(rows.push(u)),
        rows_map(rows.push(u)) == rows_map(rows).insert(u.identity, option_string_view(u.name)),
{
    let r2 = rows.push(u);
    assert(rows_unique(r2)) by {
        assert forall|i: int, j: int|
            0 <= i < r2.len() && 0 <= j < r2.len() && i != j implies r2[i].identity
            != r2[j].identity by {
            if i < rows.len() && j < rows.len() {
            } else if i < rows.len() {
                assert(r2[i] == rows[i]);
            } else {
                assert(r2[j] == rows[j]);
            }
        }
    }
    let m = rows_map(rows).insert(u.identity, option_string_view(u.name));
    assert forall|id: Identity| #[trigger] rows_have(r2, id) == m.contains_key(id) by {
        if rows_have(r2, id) && id != u.identity {
            let i = choose|i: int| 0 <= i < r2.len() && r2[i].identity == id;
            assert(rows[i].identity == id);
        }
        if rows_have(rows, id) {
            let i = choose|i: int| 0 <= i < rows.len() && rows[i].identity == id;
            assert(r2[i].identity == id);
        }
        if id == u.identity {
            assert(r2[rows.len() as int].identity == id);
        }
    }
    assert forall|id: Identity| #[trigger] m.contains_key(id) implies rows_map(r2)[id] == m[id] by {
        if id == u.identity {
            lemma_rows_map_at(r2, rows.len() as int);
        } else {
            let i = choose|i: int| 0 <= i < rows.len() && rows[i].identity == id;
            lemma_rows_map_at(rows, i);
            assert(r2[i] == rows[i]);
            lemma_rows_map_at(r2, i);
        }
    }
    assert(rows_map(r2) =~= m);
}

proof fn lemma_rows_map_update(rows: Seq<User>, k: int, u: User)
    requires
        rows_unique(rows),
        0 <= k < rows.len(),
        rows[k].identity == u.identity,
    ensures
        rows_unique(rows.update(k, u)),
        rows_map(rows.update(k, u)) == rows_map(rows).insert(u.identity, option_string_view(u.name)),
{
    let r2 = rows.update(k, u);
    assert(rows_unique(r2)) by {
        assert forall|i: int, j: int|
            0 <= i < r2.len() && 0 <= j < r2.len() && i != j implies r2[i].identity
            != r2[j].identity by {
            assert(r2[i].identity == rows[i].identity);
            assert(r2[j].identity == rows[j].identity);
        }
    }
    let m = rows_map(rows).insert(u.identity, option_string_view(u.name));
    lemma_rows_map_at(rows, k);
    assert forall|id: Identity| #[trigger] rows_have(r2, id) == m.contains_key(id) by {
        if rows_have(r2, id) {
            let i = choose|i: int| 0 <= i < r2.len() && r2[i].identity == id;
            assert(rows[i].identity == id);
        }
        if rows_have(rows, id) {
            let i = choose|i: int| 0 <= i < rows.len() && rows[i].identity == id;
            assert(r2[i].identity == id);
        }
    }
    assert forall|id: Identity| #[trigger] m.contains_key(id) implies rows_map(r2)[id] == m[id] by {
        if id == u.identity {
            lemma_rows_map_at(r2, k);
        } else {
            let i = choose|i: int| 0 <= i < rows.len() && rows[i].identity == id;
            lemma_rows_map_at(rows, i);
            assert(r2[i] == rows[i]);
            lemma_rows_map_at(r2, i);
        }
    }
    assert(rows_map(r2) =~= m);
}

proof fn lemma_rows_map_remove(rows: Seq<User>, k: int)
    requires
        rows_unique(rows),
        0 <= k < rows.len(),
    ensures
        rows_unique(rows.remove(k)),
        rows_map(rows.remove(k)) == rows_map(rows).remove(rows[k].identity),
{
    let r2 = rows.remove(k);
    let gone = rows[k].identity;
    assert forall|i: int| 0 <= i < r2.len() implies #[trigger] r2[i] == rows[if i < k {
        i
    } else {
        i + 1
    }] by {}
    assert(rows_unique(r2)) by {
        assert forall|i: int, j: int|
            0 <= i < r2.len() && 0 <= j < r2.len() && i != j implies r2[i].identity
            != r2[j].identity by {
            let a = if i < k { i } else { i + 1 };
            let b = if j < k { j } else { j + 1 };
            assert(r2[i] == rows[a]);
            assert(r2[j] == rows[b]);
        }
    }
    let m = rows_map(rows).remove(gone);
    assert forall|id: Identity| #[trigger] rows_have(r2, id) == m.contains_key(id) by {
        if rows_have(r2, id) {
            let i = choose|i: int| 0 <= i < r2.len() && r2[i].identity == id;
            let a = if i < k { i } else { i + 1 };
            assert(r2[i] == rows[a]);
            assert(rows_have(rows, id));
            assert(a != k);
        }
        if rows_have(rows, id) && id != gone {
            let a = choose|i: int| 0 <= i < rows.len() && rows[i].identity == id;
            assert(a != k);
            let i = if a < k { a } else { a - 1 };
            assert(r2[i] == rows[a]);
            assert(r2[i].identity == id);
        }
    }
    assert forall|id: Identity| #[trigger] m.contains_key(id) implies rows_map(r2)[id] == m[id] by {
        let a = choose|i: int| 0 <= i < rows.len() && rows[i].identity == id;
        assert(a != k);
        lemma_rows_map_at(rows, a);
        let i = if a < k { a } else { a - 1 };
        assert(r2[i] == rows[a]);
        lemma_rows_map_at(r2, i);
    }
    assert(rows_map(r2) =~= m);
}

impl UserCache {
    /// The cache as a mapping from identity to optional display name.
    pub closed spec fn view(&self) -> Map<Identity, Option<Seq<char>>> {
        rows_map(self.rows@)
    }

    pub closed spec fn well_formed(&self) -> bool {
        rows_unique(self.rows@)
    }

    /// An empty cache.
    pub fn new() -> (r: UserCache)
        ensures
            r.well_formed(),
            r.view() == Map::<Identity, Option<Seq<char>>>::empty(),
    {
        let r = UserCache { rows: Vec::new() };
        assert(r.view() =~= Map::<Identity, Option<Seq<char>>>::empty());
        r
    }

    /// The position of the row for `id`, if there is one.
    fn find(&self, id: Identity) -> (r: Option<usize>)
        requires
            self.well_formed(),
        ensures
            match r {
                Some(k) => k < self.rows@.len() && self.rows@[k as int].identity == id,
                None => !rows_have(self.rows@, id),
            },
    {
        let mut i: usize = 0;
        while i < self.rows.len()
            invariant
                i <= self.rows@.len(),
                forall|j: int| 0 <= j < i ==> self.rows@[j].identity != id,
            decreases self.rows@.len() - i,
        {
            if self.rows[i].identity == id {
                return Some(i);
            }
            i = i + 1;
        }
        None
    }

    /// Records the row `user`, replacing any row with the same identity.
    pub fn upsert(&mut self, user: User)
        requires
            old(self).well_formed(),
        ensures
            final(self).well_formed(),
            final(self).view() == old(self).view().insert(
                user.identity,
                option_string_view(user.name),
            ),
    {
        match self.find(user.identity) {
            Some(k) => {
                proof {
                    lemma_rows_map_update(self.rows@, k as int, user);
                }
                self.rows.set(k, user);
            },
            None => {
                proof {
                    lemma_rows_map_push(self.rows@, user);
                }
                self.rows.push(user);
            },
        }
    }

    /// Drops the row for `id`, if there is one.
    pub fn remove(&mut self, id: Identity)
        requires
            old(self).well_formed(),
        ensures
            final(self).well_formed(),
            final(self).view() == old(self).view().remove(id),
    {
        match self.find(id) {
            Some(k) => {
                proof {
                    lemma_rows_map_remove(self.rows@, k as int);
                }
                self.rows.remove(k);
            },
            None => {
                assert(self.view() =~= self.view().remove(id));
            },
        }
    }

    /// Drops every row.
    pub fn clear(&mut self)
        ensures
            final(self).well_formed(),
            final(self).view() == Map::<Identity, Option<Seq<char>>>::empty(),
    {
        self.rows = Vec::new();
        assert(self.view() =~= Map::<Identity, Option<Seq<char>>>::empty());
    }

    /// Whether the cache holds no user.
    pub fn is_empty(&self) -> (r: bool)
        requires
            self.well_formed(),
        ensures
            r == (self.view() == Map::<Identity, Option<Seq<char>>>::empty()),
    {
        proof {
            if self.rows@.len() > 0 {
                lemma_rows_map_at(self.rows@, 0);
                assert(!Map::<Identity, Option<Seq<char>>>::empty().contains_key(self.rows@[0].identity));
            } else {
                assert(self.view() =~= Map::<Identity, Option<Seq<char>>>::empty());
            }
        }
        self.rows.len() == 0
    }

    /// The display name that `id` resolves to: the user's name where the cache
    /// holds a row for `id` with a name, and "unknown" otherwise.
    pub fn resolve(&self, id: Identity) -> (r: String)
        requires
            self.well_formed(),
        ensures
            r@ == resolve_spec(self.view(), id),
            !self.view().contains_key(id) ==> r@ == unknown_label(),
    {
        match self.find(id) {
            Some(k) => {
                proof {
                    lemma_rows_map_at(self.rows@, k as int);
                }
                match &self.rows[k].name {
                    Some(n) => n.clone(),
                    None => unknown(),
                }
            },
            None => unknown(),
        }
    }
}

/// A fresh copy of the fallback label.
fn unknown() -> (r: String)
    ensures
        r@ == unknown_label(),
{
    proof {
        reveal_strlit("unknown");
    }
    let r = String::from_str("unknown");
    assert(r@ =~= unknown_label());
    r
}

} // verus!
