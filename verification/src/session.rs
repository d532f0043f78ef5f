//! Playback sessions and the table that holds them by file name.

use vstd::prelude::*;
use crate::message::SenderId;
use crate::path::str_eq;

verus! {

/// The record of one active playback of a named file.
#[derive(Clone, Debug, PartialEq, Eq)]
pub struct ActiveFile {
    /// The handle of one sender per output channel, in channel order.
    pub senders: Vec<SenderId>,
    /// Whether the decoder worker has enqueued the final sample.
    pub buffered: bool,
    /// The tag of this activation.
    pub epoch: u32,
}

/// A session as a mathematical value.
pub struct Session {
    pub senders: Seq<SenderId>,
    pub buffered: bool,
    pub epoch: u32,
}

impl View for ActiveFile {
    type V = Session;

    open spec fn view(&self) -> Session {
        Session { senders: self.senders@, buffered: self.buffered, epoch: self.epoch }
    }
}

/// The session table as a mathematical value: names with their sessions, in
/// the order in which the sessions were created.
pub type Entries = Seq<(Seq<char>, Session)>;

/// The mathematical value of a stored table.
pub open spec fn entries(v: Seq<(String, ActiveFile)>) -> Entries {
    Seq::new(v.len(), |i: int| (v[i].0@, v[i].1@))
}

/// Position of the first entry under `name`, or `t.len()` if there is none.
pub open spec fn position(t: Entries, name: Seq<char>) -> int
    decreases t.len(),
{
    if t.len() == 0 || t[0].0 == name {
        0
    } else {
        1 + position(t.drop_first(), name)
    }
}

/// Whether the table holds a session under `name`.
pub open spec fn holds(t: Entries, name: Seq<char>) -> bool {
    position(t, name) < t.len()
}

/// The session under `name`, where the table holds one.
pub open spec fn session(t: Entries, name: Seq<char>) -> Session {
    t[position(t, name)].1
}

/// The table without the session under `name`.
pub open spec fn without(t: Entries, name: Seq<char>) -> Entries {
    if holds(t, name) {
        t.remove(position(t, name))
    } else {
        t
    }
}

/// The table with `s` as the one session under `name`.
pub open spec fn with(t: Entries, name: Seq<char>, s: Session) -> Entries {
    without(t, name).push((name, s))
}

/// Position of the last entry one of whose senders is `id`, or -1 if there is none.
pub open spec fn owner_position(t: Entries, id: SenderId) -> int
    decreases t.len(),
{
    if t.len() == 0 {
        -1
    } else if t.last().1.senders.contains(id) {
        t.len() - 1
    } else {
        owner_position(t.drop_last(), id)
    }
}

/// The name of the session that owns sender `id`, if any does.
pub open spec fn owner(t: Entries, id: SenderId) -> Option<Seq<char>> {
    if owner_position(t, id) >= 0 {
        Some(t[owner_position(t, id)].0)
    } else {
        None
    }
}

/// No two entries stand under one name.
pub open spec fn distinct_names(t: Entries) -> bool {
    forall|i: int, j: int| 0 <= i < j < t.len() ==> (#[trigger] t[i]).0 != (#[trigger] t[j]).0
}

pub proof fn lemma_position(t: Entries, name: Seq<char>)
    ensures
        0 <= position(t, name) <= t.len(),
        holds(t, name) ==> t[position(t, name)].0 == name,
        forall|j: int| 0 <= j < position(t, name) ==> (#[trigger] t[j]).0 != name,
    decreases t.len(),
{
    if !(t.len() == 0 || t[0].0 == name) {
        let rest = t.drop_first();
        lemma_position(rest, name);
        assert forall|j: int| 0 <= j < position(t, name) implies (#[trigger] t[j]).0 != name by {
            if j > 0 {
                assert(t[j] == rest[j - 1]);
            }
        }
    }
}

/// The first position under a name is the one before which the name does not
/// occur and at which, if inside the table, it does.
pub proof fn lemma_position_unique(t: Entries, name: Seq<char>, k: int)
    requires
        0 <= k <= t.len(),
        forall|j: int| 0 <= j < k ==> (#[trigger] t[j]).0 != name,
        k < t.len() ==> t[k].0 == name,
    ensures
        position(t, name) == k,
{
    lemma_position(t, name);
    let p = position(t, name);
    if p < k {
        assert(t[p].0 != name);
    } else if k < p {
        assert(t[k].0 != name);
    }
}

pub proof fn lemma_owner_position(t: Entries, id: SenderId)
    ensures
        -1 <= owner_position(t, id) < t.len(),
        owner_position(t, id) >= 0 ==> t[owner_position(t, id)].1.senders.contains(id),
        forall|j: int|
            owner_position(t, id) < j < t.len() ==> !(#[trigger] t[j]).1.senders.contains(id),
    decreases t.len(),
{
    if t.len() != 0 && !t.last().1.senders.contains(id) {
        let rest = t.drop_last();
        lemma_owner_position(rest, id);
        assert forall|j: int| owner_position(t, id) < j < t.len() implies !(#[trigger] t[j]).1.senders.contains(
            id,
        ) by {
            if j < t.len() - 1 {
                assert(t[j] == rest[j]);
            }
        }
    }
}

pub proof fn lemma_owner_position_unique(t: Entries, id: SenderId, k: int)
    requires
        -1 <= k < t.len(),
        k >= 0 ==> t[k].1.senders.contains(id),
        forall|j: int| k < j < t.len() ==> !(#[trigger] t[j]).1.senders.contains(id),
    ensures
        owner_position(t, id) == k,
{
    lemma_owner_position(t, id);
    let p = owner_position(t, id);
    if p < k {
        assert(!t[k].1.senders.contains(id));
    } else if k < p {
        assert(!t[p].1.senders.contains(id));
    }
}

/// Where one session alone holds a sender, that session is its owner.
pub proof fn law_sole_holder_is_owner(t: Entries, id: SenderId, i: int)
    requires
        0 <= i < t.len(),
        t[i].1.senders.contains(id),
        forall|j: int| 0 <= j < t.len() && j != i ==> !(#[trigger] t[j]).1.senders.contains(id),
    ensures
        owner(t, id) == Some(t[i].0),
{
    lemma_owner_position_unique(t, id, i);
}

/// The session that owns a sender stands in the table under its name.
pub proof fn lemma_owner_holds(t: Entries, id: SenderId)
    ensures
        owner(t, id) matches Some(name) ==> holds(t, name),
{
    lemma_owner_position(t, id);
    if owner_position(t, id) >= 0 {
        lemma_position(t, t[owner_position(t, id)].0);
    }
}

/// After a session is put under a name, the table holds one there.
pub proof fn lemma_with_holds(t: Entries, name: Seq<char>, s: Session)
    ensures
        holds(with(t, name, s), name),
{
    let w = with(t, name, s);
    lemma_position(w, name);
    assert(w[w.len() - 1].0 == name);
}

/// A table holds a session under a name exactly if one of its entries
/// carries the name.
pub proof fn lemma_holds(t: Entries, name: Seq<char>)
    ensures
        holds(t, name) <==> exists|i: int| 0 <= i < t.len() && (#[trigger] t[i]).0 == name,
{
    lemma_position(t, name);
    if holds(t, name) {
        assert(t[position(t, name)].0 == name);
    }
}

/// What a table with distinct names holds after a session is taken out.
pub proof fn lemma_without(t: Entries, gone: Seq<char>, name: Seq<char>)
    requires
        distinct_names(t),
    ensures
        distinct_names(without(t, gone)),
        holds(without(t, gone), name) == (name != gone && holds(t, name)),
        name != gone && holds(t, name) ==> session(without(t, gone), name) == session(t, name),
{
    let w = without(t, gone);
    lemma_position(t, gone);
    lemma_position(t, name);
    lemma_holds(w, name);
    lemma_holds(t, name);
    if holds(t, gone) {
        let p = position(t, gone);
        assert forall|i: int| 0 <= i < w.len() implies #[trigger] w[i] == t[if i < p {
            i
        } else {
            i + 1
        }] by {}
        if name != gone && holds(t, name) {
            let q = position(t, name);
            let k = if q < p {
                q
            } else {
                q - 1
            };
            assert(w[k] == t[q]);
            assert forall|j: int| 0 <= j < k implies (#[trigger] w[j]).0 != name by {
                assert(w[j] == t[if j < p {
                    j
                } else {
                    j + 1
                }]);
            }
            lemma_position_unique(w, name, k);
        }
        if holds(w, name) {
            let i = choose|i: int| 0 <= i < w.len() && (#[trigger] w[i]).0 == name;
            let k = if i < p {
                i
            } else {
                i + 1
            };
            assert(t[k].0 == name);
            if name == gone {
                assert(t[p].0 == t[k].0);
            }
        }
    }
}

/// What a table with distinct names holds after a session is put in.
pub proof fn lemma_with(t: Entries, put: Seq<char>, s: Session, name: Seq<char>)
    requires
        distinct_names(t),
    ensures
        distinct_names(with(t, put, s)),
        holds(with(t, put, s), name) == (name == put || holds(t, name)),
        session(with(t, put, s), put) == s,
        name != put && holds(t, name) ==> session(with(t, put, s), name) == session(t, name),
{
    let w = without(t, put);
    let v = with(t, put, s);
    lemma_without(t, put, put);
    lemma_without(t, put, name);
    lemma_holds(w, put);
    lemma_holds(w, name);
    lemma_holds(v, name);
    lemma_position(w, name);
    lemma_position(w, put);
    assert(v[w.len() as int].0 == put);
    assert forall|i: int| 0 <= i < w.len() implies #[trigger] v[i] == w[i] by {}
    assert forall|i: int| 0 <= i < w.len() implies (#[trigger] v[i]).0 != put by {
        assert(v[i] == w[i]);
    }
    lemma_position_unique(v, put, w.len() as int);
    if name != put && holds(t, name) {
        let q = position(w, name);
        assert forall|j: int| 0 <= j < q implies (#[trigger] v[j]).0 != name by {
            assert(v[j] == w[j]);
        }
        assert(v[q] == w[q]);
        lemma_position_unique(v, name, q);
    }
    if holds(v, name) && name != put {
        let i = choose|i: int| 0 <= i < v.len() && (#[trigger] v[i]).0 == name;
        assert(v[i] == w[i]);
    }
}

/// Whether `id` is one of `senders`.
pub fn has_sender(senders: &Vec<SenderId>, id: SenderId) -> (r: bool)
    ensures
        r == senders@.contains(id),
{
    let mut i: usize = 0;
    while i < senders.len()
        invariant
            0 <= i <= senders@.len(),
            forall|j: int| 0 <= j < i ==> senders@[j] != id,
        decreases senders@.len() - i,
    {
        if senders[i] == id {
            return true;
        }
        i += 1;
    }
    false
}

/// The position of the first session under `name` in a stored table.
pub fn find(table: &Vec<(String, ActiveFile)>, name: &str) -> (r: Option<usize>)
    ensures
        r is Some <==> holds(entries(table@), name@),
        r matches Some(i) ==> i == position(entries(table@), name@) && i < table@.len(),
{
    let ghost t = entries(table@);
    let mut i: usize = 0;
    while i < table.len()
        invariant
            t == entries(table@),
            0 <= i <= table@.len(),
            forall|j: int| 0 <= j < i ==> (#[trigger] t[j]).0 != name@,
        decreases table@.len() - i,
    {
        if str_eq(table[i].0.as_str(), name) {
            proof {
                lemma_position_unique(t, name@, i as int);
            }
            return Some(i);
        }
        i += 1;
    }
    proof {
        lemma_position_unique(t, name@, i as int);
    }
    None
}

} // verus!
