//! The session registry: the set of connected client identities and their
//! display names.
//!
//! Ids are assigned once per connection, monotonically and never reused
//! within the process lifetime; id 0 is reserved to mean "no target /
//! broadcast".  A fresh session starts under the default name
//! `Unknown-<id>`.  An id present in the registry denotes a live session
//! still attempting delivery; removal is the terminal signal its writer
//! task watches for.

use vstd::prelude::*;
use vstd::hash_map::HashMapWithView;
use vstd::string::StringExecFns;

verus! {

broadcast use vstd::std_specs::hash::axiom_u32_obeys_hash_table_key_model;

/// The character for one decimal digit value.
pub open spec fn digit_char(d: nat) -> char {
    if d == 0 {
        '0'
    } else if d == 1 {
        '1'
    } else if d == 2 {
        '2'
    } else if d == 3 {
        '3'
    } else if d == 4 {
        '4'
    } else if d == 5 {
        '5'
    } else if d == 6 {
        '6'
    } else if d == 7 {
        '7'
    } else if d == 8 {
        '8'
    } else {
        '9'
    }
}

/// The decimal rendering of a natural number, most significant digit first,
/// without leading zeros (zero itself renders as "0").
pub open spec fn dec_digits(n: nat) -> Seq<char>
    decreases n,
{
    if n < 10 {
        seq![digit_char(n)]
    } else {
        dec_digits(n / 10).push(digit_char(n % 10))
    }
}

/// The default display name a session carries until its first rename.
pub open spec fn default_name_of(id: u32) -> Seq<char> {
    "Unknown-"@ + dec_digits(id as nat)
}

/// Appends the decimal rendering of `n` to `s`.
fn push_dec_digits(s: &mut String, n: u32)
    ensures
        final(s)@ == old(s)@ + dec_digits(n as nat),
    decreases n,
{
    if n >= 10 {
        push_dec_digits(s, n / 10);
    }
    let d: u32 = n % 10;
    let lit: &str = if d == 0 {
        "0"
    } else if d == 1 {
        "1"
    } else if d == 2 {
        "2"
    } else if d == 3 {
        "3"
    } else if d == 4 {
        "4"
    } else if d == 5 {
        "5"
    } else if d == 6 {
        "6"
    } else if d == 7 {
        "7"
    } else if d == 8 {
        "8"
    } else {
        "9"
    };
    proof {
        reveal_strlit("0");
        reveal_strlit("1");
        reveal_strlit("2");
        reveal_strlit("3");
        reveal_strlit("4");
        reveal_strlit("5");
        reveal_strlit("6");
        reveal_strlit("7");
        reveal_strlit("8");
        reveal_strlit("9");
        assert(lit@ =~= seq![digit_char((n % 10) as nat)]);
    }
    s.append(lit);
    proof {
        if n >= 10 {
            assert(old(s)@ + dec_digits((n / 10) as nat) + lit@ =~= old(s)@ + dec_digits(
                n as nat,
            ));
        } else {
            assert(old(s)@ + lit@ =~= old(s)@ + dec_digits(n as nat));
        }
    }
}

/// Builds the default display name `Unknown-<id>`.
pub fn default_name(id: u32) -> (s: String)
    ensures
        s@ == default_name_of(id),
{
    let mut s = String::from_str("Unknown-");
    push_dec_digits(&mut s, id);
    s
}

/// The registry as it stands: the id counter and the map from live session
/// ids to their current display names.
pub ghost struct RegistryView {
    pub next_id: u32,
    pub names: Map<u32, Seq<char>>,
}

impl RegistryView {
    /// Well-formedness: every registered id was assigned (nonzero, at most
    /// the counter), and there are no more sessions than assigned ids.
    pub open spec fn wf(self) -> bool {
        &&& self.names.dom().finite()
        &&& forall|id: u32| #[trigger]
            self.names.dom().contains(id) ==> 1 <= id && id <= self.next_id
        &&& self.names.dom().len() <= self.next_id
    }
}

/// Owns the connected sessions: assigns identity on connect, tracks display
/// names, and answers the liveness queries the snapshot producer uses.
pub struct SessionRegistry {
    next_client_id: u32,
    users: HashMapWithView<u32, String>,
}

impl View for SessionRegistry {
    type V = RegistryView;

    closed spec fn view(&self) -> RegistryView {
        RegistryView {
            next_id: self.next_client_id,
            names: Map::new(
                |id: u32| self.users@.contains_key(id),
                |id: u32| self.users@[id]@,
            ),
        }
    }
}

impl SessionRegistry {
    /// An empty registry; the first session will get id 1.
    pub fn new() -> (r: Self)
        ensures
            r@.wf(),
            r@.next_id == 0,
            r@.names == Map::<u32, Seq<char>>::empty(),
    {
        let r = SessionRegistry { next_client_id: 0, users: HashMapWithView::new() };
        proof {
            assert(r@.names =~= Map::<u32, Seq<char>>::empty());
        }
        r
    }

    /// Whether the id space is exhausted, in which case no further session
    /// can register.  Ids are never reused, so this is reached only after
    /// four billion connects in one process lifetime.
    pub fn at_capacity(&self) -> (r: bool)
        ensures
            r == (self@.next_id == u32::MAX),
    {
        self.next_client_id == u32::MAX
    }

    /// Allocates the next id, inserts the default name, and returns the id.
    /// The id is fresh: it has never been in the registry before.
    pub fn register(&mut self) -> (id: u32)
        requires
            old(self)@.wf(),
            old(self)@.next_id < u32::MAX,
        ensures
            final(self)@.wf(),
            id == old(self)@.next_id + 1,
            final(self)@.next_id == id,
            !old(self)@.names.dom().contains(id),
            final(self)@.names == old(self)@.names.insert(id, default_name_of(id)),
            final(self)@ == spec_connect(old(self)@),
    {
        self.next_client_id = self.next_client_id + 1;
        let id = self.next_client_id;
        let name = default_name(id);
        self.users.insert(id, name);
        proof {
            assert(final(self)@.names =~= old(self)@.names.insert(id, default_name_of(id)));
        }
        id
    }

    /// Overwrites the display name of a registered session; a no-op when the
    /// id is absent (the session is already gone).  Reports whether the name
    /// actually changed, for observability; absence is not a failure.
    pub fn rename(&mut self, id: u32, new_name: String) -> (changed: bool)
        requires
            old(self)@.wf(),
        ensures
            final(self)@.wf(),
            final(self)@.next_id == old(self)@.next_id,
            !old(self)@.names.dom().contains(id) ==> final(self)@.names == old(self)@.names
                && !changed,
            old(self)@.names.dom().contains(id) ==> final(self)@.names == old(
                self,
            )@.names.insert(id, new_name@) && changed == (old(self)@.names[id] != new_name@),
    {
        let changed: bool = match self.users.get(&id) {
            Some(prev) => !(*prev == new_name),
            None => {
                return false;
            },
        };
        self.users.insert(id, new_name);
        proof {
            assert(final(self)@.names =~= old(self)@.names.insert(id, new_name@));
            assert(final(self)@.names.dom() =~= old(self)@.names.dom());
        }
        changed
    }

    /// The current display name of a session; `None` signals that the
    /// session is no longer registered — the terminal condition a writer
    /// uses to end its loop, not an error.
    pub fn lookup_name(&self, id: u32) -> (r: Option<String>)
        ensures
            match r {
                Some(name) => self@.names.dom().contains(id) && name@ == self@.names[id],
                None => !self@.names.dom().contains(id),
            },
    {
        match self.users.get(&id) {
            Some(name) => Some(name.clone()),
            None => None,
        }
    }

    /// Removes a session; idempotent, so the teardown path may run it
    /// regardless of which side of the connection ended first.
    pub fn unregister(&mut self, id: u32)
        requires
            old(self)@.wf(),
        ensures
            final(self)@.wf(),
            final(self)@.next_id == old(self)@.next_id,
            final(self)@.names == old(self)@.names.remove(id),
            final(self)@ == spec_disconnect(old(self)@, id),
    {
        self.users.remove(&id);
        proof {
            assert(final(self)@.names =~= old(self)@.names.remove(id));
        }
    }

    /// How many sessions are registered.
    pub fn count(&self) -> (n: u32)
        requires
            self@.wf(),
        ensures
            n == self@.names.dom().len(),
    {
        proof {
            assert(self.users@.dom() =~= self@.names.dom());
        }
        let n: usize = self.users.len();
        n as u32
    }

    /// Whether no session is registered; the snapshot producer idles longer
    /// when this holds.
    pub fn is_empty(&self) -> (r: bool)
        requires
            self@.wf(),
        ensures
            r == (self@.names.dom().len() == 0),
    {
        proof {
            assert(self.users@.dom() =~= self@.names.dom());
        }
        self.users.is_empty()
    }
}

/// One lifecycle event on the registry: a client connecting, or the session
/// with the given id tearing down.
pub enum RegistryEvent {
    Connect,
    Disconnect(u32),
}

/// What `register` does to the registry, as a value.
pub open spec fn spec_connect(m: RegistryView) -> RegistryView
    recommends
        m.next_id < u32::MAX,
{
    let id = (m.next_id + 1) as u32;
    RegistryView { next_id: id, names: m.names.insert(id, default_name_of(id)) }
}

/// What `unregister` does to the registry, as a value.
pub open spec fn spec_disconnect(m: RegistryView, id: u32) -> RegistryView {
    RegistryView { next_id: m.next_id, names: m.names.remove(id) }
}

/// One event applied to the registry.
pub open spec fn apply_event(m: RegistryView, e: RegistryEvent) -> RegistryView {
    match e {
        RegistryEvent::Connect => spec_connect(m),
        RegistryEvent::Disconnect(id) => spec_disconnect(m, id),
    }
}

/// A whole sequence of events applied in order.
pub open spec fn apply_events(m: RegistryView, es: Seq<RegistryEvent>) -> RegistryView
    decreases es.len(),
{
    if es.len() == 0 {
        m
    } else {
        apply_event(apply_events(m, es.drop_last()), es.last())
    }
}

/// How many connect events a sequence holds.
pub open spec fn num_connects(es: Seq<RegistryEvent>) -> int
    decreases es.len(),
{
    if es.len() == 0 {
        0int
    } else {
        num_connects(es.drop_last()) + match es.last() {
            RegistryEvent::Connect => 1int,
            RegistryEvent::Disconnect(_) => 0int,
        }
    }
}

/// How many disconnect events of a sequence hit a session that was still
/// registered when they arrived.  A disconnect of an id already gone is a
/// no-op: teardown is idempotent.
pub open spec fn num_effective_disconnects(m: RegistryView, es: Seq<RegistryEvent>) -> int
    decreases es.len(),
{
    if es.len() == 0 {
        0int
    } else {
        num_effective_disconnects(m, es.drop_last()) + match es.last() {
            RegistryEvent::Disconnect(id) => if apply_events(
                m,
                es.drop_last(),
            ).names.dom().contains(id) {
                1int
            } else {
                0int
            },
            RegistryEvent::Connect => 0int,
        }
    }
}

/// Connect events are never negative in number, and each step adds at most
/// one.
proof fn lemma_num_connects_bounds(es: Seq<RegistryEvent>)
    ensures
        0 <= num_connects(es) <= es.len(),
    decreases es.len(),
{
    if es.len() > 0 {
        lemma_num_connects_bounds(es.drop_last());
    }
}

/// For every sequence of connects and disconnects applied to a well-formed
/// registry, the number of registered sessions is exactly the starting
/// number, plus the connects, minus the disconnects that named a session
/// still registered at that moment.  In particular no connect ever reuses
/// or overwrites an id, and the id counter advances once per connect.
pub proof fn lemma_count_tracks_events(m: RegistryView, es: Seq<RegistryEvent>)
    requires
        m.wf(),
        m.next_id + num_connects(es) <= u32::MAX,
    ensures
        apply_events(m, es).wf(),
        apply_events(m, es).next_id == m.next_id + num_connects(es),
        apply_events(m, es).names.dom().len() == m.names.dom().len() + num_connects(es)
            - num_effective_disconnects(m, es),
    decreases es.len(),
{
    if es.len() > 0 {
        let prefix = es.drop_last();
        lemma_num_connects_bounds(prefix);
        lemma_num_connects_bounds(es);
        lemma_count_tracks_events(m, prefix);
        let prev = apply_events(m, prefix);
        match es.last() {
            RegistryEvent::Connect => {
                let id = (prev.next_id + 1) as u32;
                assert(!prev.names.dom().contains(id));
            },
            RegistryEvent::Disconnect(id) => {
                assert(apply_events(m, es).names.dom() =~= prev.names.dom().remove(id));
            },
        }
    }
}

} // verus!
