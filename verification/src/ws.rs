//! The broadcast hub: the registry of live subscribers and the fan-out of
//! serialized observations to their delivery channels.
//!
//! Each subscriber is a strictly increasing handle paired with the sending
//! end of an unbounded channel, so handing a payload to a subscriber never
//! blocks the publisher; a send to a subscriber whose receiving end is gone
//! is deliberately ignored.

use vstd::prelude::*;
use tokio::sync::mpsc::UnboundedSender;

verus! {

/// tokio's unbounded-channel sender, the delivery end held for each
/// subscriber; declared so the registry can store it.
#[verifier::external_type_specification]
#[verifier::external_body]
#[verifier::reject_recursive_types(T)]
pub struct ExUnboundedSender<T>(UnboundedSender<T>);

/// The live-subscriber registry.
#[derive(Debug)]
pub struct Hub {
    pub next_id: u64,
    pub clients: Vec<(u64, UnboundedSender<String>)>,
}

/// The registry with every entry for `id` removed.
pub open spec fn without(s: Seq<(u64, UnboundedSender<String>)>, id: u64) -> Seq<
    (u64, UnboundedSender<String>),
>
    decreases s.len(),
{
    if s.len() == 0 {
        s
    } else if s[0].0 == id {
        without(s.drop_first(), id)
    } else {
        seq![s[0]] + without(s.drop_first(), id)
    }
}

proof fn lemma_without_no_match(s: Seq<(u64, UnboundedSender<String>)>, id: u64)
    requires
        forall|j: int| 0 <= j < s.len() ==> s[j].0 != id,
    ensures
        without(s, id) == s,
    decreases s.len(),
{
    if s.len() == 0 {
    } else {
        assert(s[0].0 != id);
        lemma_without_no_match(s.drop_first(), id);
        assert(seq![s[0]] + s.drop_first() =~= s);
    }
}

proof fn lemma_without_match_at(s: Seq<(u64, UnboundedSender<String>)>, id: u64, i: int)
    requires
        0 <= i < s.len(),
        s[i].0 == id,
        forall|j: int| 0 <= j < s.len() && j != i ==> s[j].0 != id,
    ensures
        without(s, id) == s.remove(i),
    decreases s.len(),
{
    if i == 0 {
        assert(forall|j: int| 0 <= j < s.drop_first().len() ==> s.drop_first()[j] == s[j + 1]);
        lemma_without_no_match(s.drop_first(), id);
        assert(s.remove(0) =~= s.drop_first());
    } else {
        assert(s[0].0 != id);
        assert(s.drop_first()[i - 1] == s[i]);
        assert(forall|j: int| 0 <= j < s.drop_first().len() ==> s.drop_first()[j] == s[j + 1]);
        lemma_without_match_at(s.drop_first(), id, i - 1);
        assert(seq![s[0]] + s.drop_first().remove(i - 1) =~= s.remove(i));
    }
}

impl Hub {
    /// Registered handles, in registration order.
    pub open spec fn handles(&self) -> Seq<u64> {
        self.clients@.map(|i: int, p: (u64, UnboundedSender<String>)| p.0)
    }

    /// Well-formed: handles strictly increase along the registry — so a
    /// handle is never reused while the process runs — and every handle was
    /// allocated below `next_id`.
    pub open spec fn wf(&self) -> bool {
        &&& forall|i: int, j: int|
            0 <= i < j < self.clients@.len() ==> self.clients@[i].0 < self.clients@[j].0
        &&& forall|i: int| 0 <= i < self.clients@.len() ==> self.clients@[i].0 < self.next_id
    }

    /// An empty hub; handles start at 1.
    pub fn new() -> (h: Hub)
        ensures
            h.wf(),
            h.clients@.len() == 0,
            h.next_id == 1,
    {
        Hub { next_id: 1, clients: Vec::new() }
    }

    /// Registers a delivery channel under a fresh handle, which is returned;
    /// the registry grows by exactly this one entry.
    pub fn add_client(&mut self, tx: UnboundedSender<String>) -> (id: u64)
        requires
            old(self).wf(),
            old(self).next_id < u64::MAX,
        ensures
            final(self).wf(),
            id == old(self).next_id,
            !old(self).handles().contains(id),
            final(self).clients@ == old(self).clients@.push((id, tx)),
            final(self).next_id == old(self).next_id + 1,
    {
        let id = self.next_id;
        self.next_id = self.next_id + 1;
        self.clients.push((id, tx));
        id
    }

    /// Removes the client with this handle; a no-op (not an error) when the
    /// handle is unknown or already removed.
    pub fn remove_client(&mut self, id: u64)
        requires
            old(self).wf(),
        ensures
            final(self).wf(),
            final(self).next_id == old(self).next_id,
            final(self).clients@ == without(old(self).clients@, id),
            !final(self).handles().contains(id),
    {
        let n = self.clients.len();
        let mut i: usize = 0;
        while i < n
            invariant
                *self == *old(self),
                old(self).wf(),
                n == self.clients@.len(),
                0 <= i <= n,
                forall|j: int| 0 <= j < i ==> self.clients@[j].0 != id,
            decreases n - i,
        {
            if self.clients[i].0 == id {
                proof {
                    assert(forall|j: int|
                        0 <= j < self.clients@.len() && j != i ==> self.clients@[j].0 != id);
                    lemma_without_match_at(self.clients@, id, i as int);
                }
                self.clients.remove(i);
                proof {
                    assert(forall|j: int|
                        0 <= j < self.handles().len() ==> self.handles()[j] == self.clients@[j].0);
                    assert(forall|j: int|
                        0 <= j < self.clients@.len() ==> self.clients@[j].0 != id);
                }
                return ;
            }
            i += 1;
        }
        proof {
            lemma_without_no_match(self.clients@, id);
            assert(forall|j: int|
                0 <= j < self.handles().len() ==> self.handles()[j] == self.clients@[j].0);
        }
    }

    /// Hands the serialized payload to every registered subscriber's
    /// channel, in registry order. Never blocks (the channels are
    /// unbounded) and never fails: a subscriber whose receiving end is
    /// already gone is skipped silently.
    pub fn broadcast_json(&self, text: &String) {
        let n = self.clients.len();
        let mut i: usize = 0;
        while i < n
            invariant
                n == self.clients@.len(),
                0 <= i <= n,
            decreases n - i,
        {
            let _delivered = send_to_client(&self.clients[i].1, text.clone());
            i += 1;
        }
    }
}

/// Relies on `tokio::sync::mpsc::UnboundedSender::send`: hands the message
/// to the channel without ever blocking; it fails only when the receiving
/// end has been dropped, which the broadcast deliberately ignores. The
/// outcome depends on the receiver's state, so nothing is promised of it.
#[verifier::external_body]
fn send_to_client(tx: &UnboundedSender<String>, text: String) -> (delivered: bool) {
    tx.send(text).is_ok()
}

} // verus!
