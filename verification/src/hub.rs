//! The broadcast hub: fans each produced snapshot out to every subscribed
//! session without head-of-line blocking.
//!
//! Every subscriber owns a single slot holding at most one pending
//! snapshot.  Publishing overwrites every slot: a slow consumer silently
//! misses intermediate snapshots rather than stalling the producer or the
//! other consumers ("latest wins").  A subscriber sees snapshots published
//! strictly after its subscription and never a replay of history.

use vstd::prelude::*;
use vstd::pervasive::VecAdditionalExecFns;

use crate::data::{WsData, WsDataView};

verus! {

/// One subscriber's slot: its session id and the snapshot it has not yet
/// consumed, if any.
pub ghost struct SlotView {
    pub id: u32,
    pub pending: Option<WsDataView>,
}

/// Well-formedness of a hub: no session subscribes twice.
pub open spec fn hub_wf(s: Seq<SlotView>) -> bool {
    forall|i: int, j: int| 0 <= i < s.len() && 0 <= j < s.len() && i != j ==> #[trigger] s[i].id
        != #[trigger] s[j].id
}

/// Whether the session with this id holds a slot.
pub open spec fn subscribed(s: Seq<SlotView>, id: u32) -> bool {
    exists|i: int| 0 <= i < s.len() && (#[trigger] s[i]).id == id
}

/// The index of this id's slot, when it is subscribed.
pub open spec fn slot_index(s: Seq<SlotView>, id: u32) -> int {
    choose|i: int| 0 <= i < s.len() && (#[trigger] s[i]).id == id
}

/// What publishing does, as a value: every slot is overwritten with the new
/// snapshot, whether or not something was still pending in it.
pub open spec fn spec_publish(s: Seq<SlotView>, d: WsDataView) -> Seq<SlotView> {
    Seq::new(s.len(), |i: int| SlotView { id: s[i].id, pending: Some(d) })
}

/// Distributes each snapshot to the slots of all currently-subscribed
/// sessions; the backpressure policy is capacity one, latest wins.
pub struct BroadcastHub {
    slots: Vec<(u32, Option<WsData>)>,
}

impl View for BroadcastHub {
    type V = Seq<SlotView>;

    closed spec fn view(&self) -> Seq<SlotView> {
        self.slots@.map_values(
            |s: (u32, Option<WsData>)| SlotView {
                id: s.0,
                pending: match s.1 {
                    Some(d) => Some(d@),
                    None => None,
                },
            },
        )
    }
}

impl BroadcastHub {
    /// A hub with no subscribers.
    pub fn new() -> (r: Self)
        ensures
            r@ == Seq::<SlotView>::empty(),
            hub_wf(r@),
    {
        let r = BroadcastHub { slots: Vec::new() };
        proof {
            assert(r@ =~= Seq::<SlotView>::empty());
        }
        r
    }

    /// Whether this id already holds a slot.
    pub fn is_subscribed(&self, id: u32) -> (r: bool)
        ensures
            r == subscribed(self@, id),
    {
        let mut i: usize = 0;
        let n = self.slots.len();
        while i < n
            invariant
                n == self.slots.len(),
                i <= n,
                forall|k: int| 0 <= k < i ==> (#[trigger] self@[k]).id != id,
            decreases n - i,
        {
            if self.slots[i].0 == id {
                assert(self@[i as int].id == id);
                return true;
            }
            i = i + 1;
        }
        false
    }

    /// Adds an empty slot for a new session.  The slot starts with nothing
    /// pending: a subscriber observes only snapshots published strictly
    /// after its subscription, never a replay of history.
    pub fn subscribe(&mut self, id: u32)
        requires
            hub_wf(old(self)@),
            !subscribed(old(self)@, id),
        ensures
            hub_wf(final(self)@),
            final(self)@ == old(self)@.push(SlotView { id, pending: None }),
    {
        self.slots.push((id, None));
        proof {
            assert(final(self)@ =~= old(self)@.push(SlotView { id, pending: None }));
        }
    }

    /// Removes this id's slot, if any; idempotent.
    pub fn unsubscribe(&mut self, id: u32)
        requires
            hub_wf(old(self)@),
        ensures
            hub_wf(final(self)@),
            !subscribed(old(self)@, id) ==> final(self)@ == old(self)@,
            subscribed(old(self)@, id) ==> final(self)@ == old(self)@.remove(
                slot_index(old(self)@, id),
            ),
    {
        let mut i: usize = 0;
        let n = self.slots.len();
        while i < n
            invariant
                n == self.slots.len(),
                i <= n,
                self@ == old(self)@,
                hub_wf(self@),
                forall|k: int| 0 <= k < i ==> (#[trigger] self@[k]).id != id,
            decreases n - i,
        {
            if self.slots[i].0 == id {
                proof {
                    assert(self@[i as int].id == id);
                    assert(subscribed(self@, id));
                    assert(slot_index(self@, id) == i) by {
                        let j = slot_index(self@, id);
                        assert(0 <= j < self@.len() && self@[j].id == id);
                        assert(self@[i as int].id == id);
                    }
                }
                let ghost before = self@;
                self.slots.remove(i);
                proof {
                    assert(self@ =~= before.remove(i as int));
                }
                return ;
            }
            i = i + 1;
        }
    }

    /// Hands the snapshot to every currently-subscribed session, overwriting
    /// whatever was still pending: a snapshot is never queued twice for a
    /// slot, the slow consumer just loses the stale one, and the publisher
    /// never waits.
    pub fn publish(&mut self, snap: &WsData)
        ensures
            final(self)@ == spec_publish(old(self)@, snap@),
            hub_wf(old(self)@) ==> hub_wf(final(self)@),
            forall|id: u32| subscribed(final(self)@, id) == subscribed(old(self)@, id),
    {
        let ghost orig: Seq<(u32, Option<WsData>)> = self.slots@;
        let mut i: usize = 0;
        let n = self.slots.len();
        while i < n
            invariant
                n == self.slots.len(),
                i <= n,
                self.slots@.len() == orig.len(),
                forall|k: int| 0 <= k < i ==> (#[trigger] self.slots@[k]).0 == orig[k].0,
                forall|k: int| 0 <= k < i ==> (#[trigger] self.slots@[k]).1.is_some()
                    && self.slots@[k].1.unwrap()@ == snap@,
                forall|k: int| i <= k < n ==> (#[trigger] self.slots@[k]) == orig[k],
            decreases n - i,
        {
            let id_k: u32 = self.slots[i].0;
            self.slots.set(i, (id_k, Some(snap.clone())));
            i = i + 1;
        }
        proof {
            assert(self@ =~= spec_publish(old(self)@, snap@));
            assert forall|id: u32| subscribed(self@, id) == subscribed(old(self)@, id) by {
                if subscribed(old(self)@, id) {
                    let j = choose|j: int|
                        0 <= j < old(self)@.len() && (#[trigger] old(self)@[j]).id == id;
                    assert(self@[j].id == id);
                }
                if subscribed(self@, id) {
                    let j = choose|j: int| 0 <= j < self@.len() && (#[trigger] self@[j]).id == id;
                    assert(old(self)@[j].id == id);
                }
            }
        }
    }

    /// Takes the snapshot pending for this session, if any, leaving its
    /// slot empty.  `None` means either nothing new was published since the
    /// last take, or the session holds no slot at all.
    pub fn recv(&mut self, id: u32) -> (r: Option<WsData>)
        requires
            hub_wf(old(self)@),
        ensures
            hub_wf(final(self)@),
            !subscribed(old(self)@, id) ==> final(self)@ == old(self)@ && r.is_none(),
            subscribed(old(self)@, id) ==> {
                let j = slot_index(old(self)@, id);
                &&& final(self)@.len() == old(self)@.len()
                &&& forall|k: int|
                    0 <= k < old(self)@.len() && k != j ==> #[trigger] final(self)@[k] == old(
                        self,
                    )@[k]
                &&& final(self)@[j] == (SlotView { id, pending: None })
                &&& match r {
                    Some(d) => old(self)@[j].pending == Some(d@),
                    None => old(self)@[j].pending is None,
                }
            },
    {
        let mut i: usize = 0;
        let n = self.slots.len();
        while i < n
            invariant
                n == self.slots.len(),
                i <= n,
                self@ == old(self)@,
                hub_wf(self@),
                forall|k: int| 0 <= k < i ==> (#[trigger] self@[k]).id != id,
            decreases n - i,
        {
            if self.slots[i].0 == id {
                proof {
                    assert(self@[i as int].id == id);
                    assert(subscribed(self@, id));
                    assert(slot_index(self@, id) == i) by {
                        let j = slot_index(self@, id);
                        assert(0 <= j < self@.len() && self@[j].id == id);
                        assert(self@[i as int].id == id);
                    }
                }
                let taken: Option<WsData> = match &self.slots[i].1 {
                    Some(d) => Some(d.clone()),
                    None => None,
                };
                let ghost before = self@;
                self.slots.set(i, (id, None));
                proof {
                    assert(self@[i as int] == (SlotView { id, pending: None }));
                    assert(forall|k: int|
                        0 <= k < before.len() && k != i ==> #[trigger] self@[k] == before[k]);
                }
                return taken;
            }
            i = i + 1;
        }
        None
    }
}

/// Latest wins: publishing a second snapshot before a slot is drained
/// overwrites the first, so every slot holds exactly the newest snapshot —
/// never two — and a hub that published twice is indistinguishable from one
/// that published only the newer snapshot.
pub proof fn lemma_latest_wins(s: Seq<SlotView>, first: WsDataView, second: WsDataView)
    ensures
        spec_publish(spec_publish(s, first), second) == spec_publish(s, second),
        forall|i: int| 0 <= i < s.len() ==> (#[trigger] spec_publish(s, second)[i]).pending
            == Some(second),
{
    assert(spec_publish(spec_publish(s, first), second) =~= spec_publish(s, second));
}

} // verus!
