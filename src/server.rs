//! The coordinator: the registry of connected sessions. It hands out session
//! ids, keeps for each session the lines that are waiting to be written to
//! it, and fans every message out to all sessions registered at that moment.
//! Every request runs to completion before the next, so broadcasts reach all
//! sessions in one total order.

use vstd::prelude::*;
use crate::protocol::{format_line, line_spec, opt_view};

verus! {

/// Removes the session `id` from a registry model; the others keep their order.
pub open spec fn without(m: Seq<(u64, Seq<Seq<char>>)>, id: u64) -> Seq<(u64, Seq<Seq<char>>)>
    decreases m.len(),
{
    if m.len() == 0 {
        m
    } else {
        let rest = without(m.drop_last(), id);
        if m.last().0 == id {
            rest
        } else {
            rest.push(m.last())
        }
    }
}

/// After removal the session `id` is no longer registered.
pub proof fn lemma_without_removes(m: Seq<(u64, Seq<Seq<char>>)>, id: u64)
    ensures
        !registered(without(m, id), id),
    decreases m.len(),
{
    if m.len() > 0 {
        lemma_without_removes(m.drop_last(), id);
        let rest = without(m.drop_last(), id);
        if m.last().0 != id {
            assert forall|i: int| 0 <= i < rest.len() + 1 implies rest.push(m.last())[i].0
                != id by {
                if i < rest.len() {
                    assert(rest.push(m.last())[i] == rest[i]);
                }
            }
        }
    }
}

/// Removing a session that is not registered changes nothing.
pub proof fn lemma_without_absent(m: Seq<(u64, Seq<Seq<char>>)>, id: u64)
    requires
        !registered(m, id),
    ensures
        without(m, id) == m,
    decreases m.len(),
{
    if m.len() > 0 {
        assert(!registered(m.drop_last(), id)) by {
            assert forall|i: int| 0 <= i < m.len() - 1 implies m.drop_last()[i].0 != id by {
                assert(m.drop_last()[i] == m[i]);
            }
        }
        lemma_without_absent(m.drop_last(), id);
        assert(m.drop_last().push(m.last()) =~= m);
    }
}

/// Disconnecting a session twice leaves the registry as disconnecting it once.
pub proof fn lemma_disconnect_idempotent(m: Seq<(u64, Seq<Seq<char>>)>, id: u64)
    ensures
        without(without(m, id), id) == without(m, id),
    decreases m.len(),
{
    if m.len() > 0 {
        lemma_disconnect_idempotent(m.drop_last(), id);
        let rest = without(m.drop_last(), id);
        if m.last().0 != id {
            assert(rest.push(m.last()).drop_last() =~= rest);
        }
    }
}

/// Two broadcasts accepted one after the other reach every session in that
/// order: each mailbox ends with the first line followed by the second.
pub proof fn lemma_broadcast_order(m: Seq<(u64, Seq<Seq<char>>)>, a: Seq<char>, b: Seq<char>)
    ensures
        broadcast(broadcast(m, a), b).len() == m.len(),
        forall|i: int|
            0 <= i < m.len() ==> {
                let r = #[trigger] broadcast(broadcast(m, a), b)[i];
                &&& r.0 == m[i].0
                &&& r.1 == m[i].1 + seq![a, b]
                &&& r.1[m[i].1.len() as int] == a
                &&& r.1[m[i].1.len() as int + 1] == b
            },
{
    assert forall|i: int| 0 <= i < m.len() implies broadcast(broadcast(m, a), b)[i].1 == m[i].1
        + seq![a, b] by {
        assert(m[i].1.push(a).push(b) =~= m[i].1 + seq![a, b]);
    }
}

/// Every session of a registry model with `line` added to its mailbox.
pub open spec fn broadcast(m: Seq<(u64, Seq<Seq<char>>)>, line: Seq<char>) -> Seq<
    (u64, Seq<Seq<char>>),
> {
    Seq::new(m.len(), |i: int| (m[i].0, m[i].1.push(line)))
}

/// Whether the session `id` is in a registry model.
pub open spec fn registered(m: Seq<(u64, Seq<Seq<char>>)>, id: u64) -> bool {
    exists|i: int| 0 <= i < m.len() && m[i].0 == id
}

/// The lines waiting for session `id` (none when it is not registered).
pub open spec fn mailbox(m: Seq<(u64, Seq<Seq<char>>)>, id: u64) -> Seq<Seq<char>> {
    if registered(m, id) {
        m[choose|i: int| 0 <= i < m.len() && m[i].0 == id].1
    } else {
        Seq::empty()
    }
}

/// A registry model with the mailbox of session `id` emptied.
pub open spec fn cleared(m: Seq<(u64, Seq<Seq<char>>)>, id: u64) -> Seq<(u64, Seq<Seq<char>>)> {
    Seq::new(m.len(), |i: int| if m[i].0 == id { (id, Seq::empty()) } else { m[i] })
}

/// The ids of a registry model, in order of registration.
pub open spec fn ids(m: Seq<(u64, Seq<Seq<char>>)>) -> Seq<u64> {
    m.map_values(|e: (u64, Seq<Seq<char>>)| e.0)
}

/// One registered session: its id and the lines not yet written to it.
/// The session's display name is not kept here: it travels with each
/// message, and the coordinator reads it only to format that message's line.
pub struct Entry {
    id: u64,
    pending: Vec<String>,
}

impl View for Entry {
    type V = (u64, Seq<Seq<char>>);

    closed spec fn view(&self) -> (u64, Seq<Seq<char>>) {
        (self.id, self.pending@.map_values(|s: String| s@))
    }
}

/// The session registry.
pub struct ChatServer {
    entries: Vec<Entry>,
    next_id: u64,
}

impl View for ChatServer {
    type V = Seq<(u64, Seq<Seq<char>>)>;

    /// The registered sessions in order of registration, each with its mailbox.
    closed spec fn view(&self) -> Seq<(u64, Seq<Seq<char>>)> {
        self.entries@.map_values(|e: Entry| e@)
    }
}

impl ChatServer {
    /// The id that the next `join` hands out. Ids start at 1: 0 is never
    /// issued, so it can stand for a session that has no id yet.
    pub closed spec fn issued(&self) -> nat {
        self.next_id as nat
    }

    /// Ids are at least 1, increase in order of registration and stay below
    /// the next id.
    pub closed spec fn wf(&self) -> bool {
        &&& self.next_id >= 1
        &&& forall|i: int| 0 <= i < self.entries@.len() ==> self.entries@[i].id >= 1
        &&& forall|i: int, j: int|
            0 <= i < j < self.entries@.len() ==> self.entries@[i].id < self.entries@[j].id
        &&& forall|i: int| 0 <= i < self.entries@.len() ==> self.entries@[i].id < self.next_id
    }

    /// An empty registry.
    pub fn new() -> (s: ChatServer)
        ensures
            s.wf(),
            s@ == Seq::<(u64, Seq<Seq<char>>)>::empty(),
            s.issued() == 1,
    {
        let s = ChatServer { entries: Vec::new(), next_id: 1 };
        assert(s@ =~= Seq::<(u64, Seq<Seq<char>>)>::empty());
        s
    }

    /// Registers a new session with an empty mailbox and returns its id,
    /// which is never 0. `None` when every id has been handed out.
    pub fn join(&mut self) -> (r: Option<u64>)
        requires
            old(self).wf(),
        ensures
            final(self).wf(),
            r != Some(0u64),
            old(self).issued() < u64::MAX ==> {
                &&& r == Some(old(self).issued() as u64)
                &&& !registered(old(self)@, old(self).issued() as u64)
                &&& final(self)@ == old(self)@.push(
                    (old(self).issued() as u64, Seq::<Seq<char>>::empty()),
                )
                &&& final(self).issued() == old(self).issued() + 1
            },
            old(self).issued() >= u64::MAX ==> r is None && final(self)@ == old(self)@
                && final(self).issued() == old(self).issued(),
    {
        if self.next_id == u64::MAX {
            return None;
        }
        let id = self.next_id;
        let ghost before = self@;
        let e = Entry { id, pending: Vec::new() };
        assert(e@ == (id, Seq::<Seq<char>>::empty())) by {
            assert(e.pending@.map_values(|s: String| s@) =~= Seq::<Seq<char>>::empty());
        }
        self.entries.push(e);
        self.next_id = id + 1;
        assert(self@ =~= before.push((id, Seq::<Seq<char>>::empty())));
        Some(id)
    }

    /// Removes the session `id`; nothing happens when it is not registered.
    pub fn disconnect(&mut self, id: u64)
        requires
            old(self).wf(),
        ensures
            final(self).wf(),
            final(self)@ == without(old(self)@, id),
            !registered(final(self)@, id),
            final(self).issued() == old(self).issued(),
    {
        let mut rest: Vec<Entry> = Vec::new();
        std::mem::swap(&mut self.entries, &mut rest);
        let ghost orig = rest@;
        let ghost om = orig.map_values(|e: Entry| e@);
        let n = rest.len();
        let mut k: usize = 0;
        assert(self@ =~= without(om.subrange(0, 0), id));
        while k < n
            invariant
                n == orig.len(),
                k <= n,
                rest@ == orig.subrange(k as int, n as int),
                self.next_id == old(self).next_id,
                om == orig.map_values(|e: Entry| e@),
                self@ == without(om.subrange(0, k as int), id),
                forall|i: int, j: int|
                    0 <= i < j < orig.len() ==> orig[i].id < orig[j].id,
                forall|i: int| 0 <= i < orig.len() ==> orig[i].id < self.next_id,
                forall|i: int| 0 <= i < orig.len() ==> orig[i].id >= 1,
                forall|i: int| 0 <= i < self.entries@.len() ==> self.entries@[i].id >= 1,
                self.next_id >= 1,
                forall|i: int, j: int|
                    0 <= i < j < self.entries@.len() ==> self.entries@[i].id
                        < self.entries@[j].id,
                forall|i: int| 0 <= i < self.entries@.len() ==> self.entries@[i].id < self.next_id,
                k < n ==> forall|i: int|
                    0 <= i < self.entries@.len() ==> self.entries@[i].id < orig[k as int].id,
            decreases n - k,
        {
            let ghost before = self@;
            let e = rest.remove(0);
            assert(e == orig[k as int]);
            assert(om.subrange(0, k + 1).drop_last() =~= om.subrange(0, k as int));
            if e.id != id {
                self.entries.push(e);
                assert(self@ =~= before.push(om[k as int]));
            }
            k = k + 1;
        }
        assert(om.subrange(0, n as int) =~= om);
        proof {
            lemma_without_removes(om, id);
        }
    }

    /// Adds the line for a message to the mailbox of every registered session,
    /// the sender's included: `session_id` names the sender, who gets no
    /// different treatment.
    pub fn client_message(&mut self, session_id: u64, text: &str, name: &Option<String>)
        requires
            old(self).wf(),
        ensures
            final(self).wf(),
            final(self)@ == broadcast(
                old(self)@,
                line_spec(opt_view(name), text@),
            ),
            final(self).issued() == old(self).issued(),
    {
        let line = format_line(name, text);
        let ghost orig = self.entries@;
        let ghost om = self@;
        let ghost want = broadcast(om, line@);
        let n = self.entries.len();
        let mut i: usize = 0;
        while i < n
            invariant
                n == orig.len(),
                i <= n,
                om == orig.map_values(|e: Entry| e@),
                want == broadcast(om, line@),
                self.entries@.len() == n,
                self.next_id == old(self).next_id,
                forall|j: int| 0 <= j < n ==> self.entries@[j].id == orig[j].id,
                forall|a: int, b: int| 0 <= a < b < n ==> orig[a].id < orig[b].id,
                forall|a: int| 0 <= a < n ==> orig[a].id < self.next_id,
                forall|a: int| 0 <= a < n ==> orig[a].id >= 1,
                forall|j: int| 0 <= j < i ==> self.entries@[j]@ == want[j],
                forall|j: int| i <= j < n ==> self.entries@[j] == orig[j],
            decreases n - i,
        {
            let mut e = self.entries.remove(i);
            let ghost pe = e.pending@;
            e.pending.push(line.clone());
            assert(e.pending@.map_values(|s: String| s@) =~= pe.map_values(|s: String| s@).push(
                line@,
            ));
            self.entries.insert(i, e);
            i = i + 1;
        }
        assert forall|a: int, b: int| 0 <= a < b < n implies self.entries@[a].id
            < self.entries@[b].id by {
            assert(self.entries@[a].id == orig[a].id);
            assert(self.entries@[b].id == orig[b].id);
        }
        assert forall|a: int| 0 <= a < n implies self.entries@[a].id < self.next_id
            && self.entries@[a].id >= 1 by {
            assert(self.entries@[a].id == orig[a].id);
        }
        assert(self@ =~= want);
    }

    /// Hands out the lines waiting for session `id` and empties its mailbox.
    pub fn take_pending(&mut self, id: u64) -> (r: Vec<String>)
        requires
            old(self).wf(),
        ensures
            final(self).wf(),
            r@.map_values(|s: String| s@) == mailbox(old(self)@, id),
            final(self)@ == cleared(old(self)@, id),
            final(self).issued() == old(self).issued(),
    {
        let n = self.entries.len();
        let mut i: usize = 0;
        while i < n && self.entries[i].id != id
            invariant
                n == self.entries@.len(),
                i <= n,
                forall|j: int| 0 <= j < i ==> self.entries@[j].id != id,
            decreases n - i,
        {
            i = i + 1;
        }
        let ghost om = self@;
        if i == n {
            assert(!registered(om, id));
            assert(self@ =~= cleared(om, id));
            let out: Vec<String> = Vec::new();
            assert(out@.map_values(|s: String| s@) =~= Seq::<Seq<char>>::empty());
            return out;
        }
        assert(om[i as int].0 == id);
        assert(forall|j: int| 0 <= j < n && om[j].0 == id ==> j == i);
        let mut e = self.entries.remove(i);
        let mut out: Vec<String> = Vec::new();
        std::mem::swap(&mut e.pending, &mut out);
        assert(e@ == (id, Seq::<Seq<char>>::empty())) by {
            assert(e.pending@.map_values(|s: String| s@) =~= Seq::<Seq<char>>::empty());
        }
        self.entries.insert(i, e);
        assert(self@ =~= cleared(om, id));
        out
    }

    /// The registered ids, in order of registration.
    pub fn session_ids(&self) -> (r: Vec<u64>)
        ensures
            r@ == ids(self@),
    {
        let n = self.entries.len();
        let mut r: Vec<u64> = Vec::new();
        let mut i: usize = 0;
        while i < n
            invariant
                n == self.entries@.len(),
                i <= n,
                r@ == ids(self@).subrange(0, i as int),
            decreases n - i,
        {
            r.push(self.entries[i].id);
            i = i + 1;
            assert(r@ =~= ids(self@).subrange(0, i as int));
        }
        assert(ids(self@).subrange(0, n as int) =~= ids(self@));
        r
    }

    /// Id 0, the mark of a session that has no id, is never registered, so a
    /// `Disconnect` for it leaves the registry as it is.
    pub proof fn lemma_unassigned_not_registered(&self)
        requires
            self.wf(),
        ensures
            !registered(self@, 0),
            without(self@, 0) == self@,
    {
        assert forall|i: int| 0 <= i < self@.len() implies self@[i].0 != 0 by {
            assert(self@[i].0 == self.entries@[i].id);
        }
        lemma_without_absent(self@, 0);
    }

    /// Registered ids are pairwise distinct: no two live sessions share one.
    pub proof fn lemma_ids_distinct(&self)
        requires
            self.wf(),
        ensures
            forall|i: int, j: int|
                0 <= i < self@.len() && 0 <= j < self@.len() && i != j ==> self@[i].0
                    != self@[j].0,
    {
    }
}

} // verus!
