//! The per-worker pool of upstream connections.
//!
//! The pool remembers, for each connect target, whether a dial is under way
//! or a connection is live. Every request for a target asks the pool what to
//! do; whoever dials reports back how the dial ended. Because a target is
//! marked before the dial starts, requests that arrive meanwhile never start
//! a second dial.

use vstd::prelude::*;
use crate::domain::Domain;
use crate::names::NameMap;

verus! {

/// What the pool holds for one connect target.
pub enum Slot<C> {
    /// A dial to the target is under way.
    Dialing,
    /// The connection to the target.
    Live(C),
}

/// What a request has to do next.
#[derive(Clone, Copy, Debug, PartialEq, Eq)]
pub enum PoolAction {
    /// A connection is live: send the request through it.
    Forward,
    /// Nothing is held for the target: dial, then report the outcome.
    Dial,
    /// Somebody else is dialing: wait for the outcome and ask again.
    Wait,
}

/// Whether a connection to `target` is live.
pub open spec fn is_live<C>(slots: Map<Seq<char>, Slot<C>>, target: Seq<char>) -> bool {
    slots.contains_key(target) && slots[target] is Live
}

/// Whether a dial to `target` is under way.
pub open spec fn is_dialing<C>(slots: Map<Seq<char>, Slot<C>>, target: Seq<char>) -> bool {
    slots.contains_key(target) && slots[target] is Dialing
}

/// What a request for `target` is told to do.
pub open spec fn answer<C>(slots: Map<Seq<char>, Slot<C>>, target: Seq<char>) -> PoolAction {
    if is_live(slots, target) {
        PoolAction::Forward
    } else if is_dialing(slots, target) {
        PoolAction::Wait
    } else {
        PoolAction::Dial
    }
}

/// The pool after a request for `target`: a target for which nothing was
/// held is now being dialed.
pub open spec fn requested<C>(slots: Map<Seq<char>, Slot<C>>, target: Seq<char>) -> Map<
    Seq<char>,
    Slot<C>,
> {
    if slots.contains_key(target) {
        slots
    } else {
        slots.insert(target, Slot::Dialing)
    }
}

/// The pool after a dial to `target` ended with the connection `conn`.
pub open spec fn connected<C>(slots: Map<Seq<char>, Slot<C>>, target: Seq<char>, conn: C) -> Map<
    Seq<char>,
    Slot<C>,
> {
    if is_dialing(slots, target) {
        slots.insert(target, Slot::Live(conn))
    } else {
        slots
    }
}

/// The pool after a dial to `target` failed.
pub open spec fn dial_lost<C>(slots: Map<Seq<char>, Slot<C>>, target: Seq<char>) -> Map<
    Seq<char>,
    Slot<C>,
> {
    if is_dialing(slots, target) {
        slots.remove(target)
    } else {
        slots
    }
}

/// The pool after the connection to `target` ended.
pub open spec fn released<C>(slots: Map<Seq<char>, Slot<C>>, target: Seq<char>) -> Map<
    Seq<char>,
    Slot<C>,
> {
    if is_live(slots, target) {
        slots.remove(target)
    } else {
        slots
    }
}

/// While a dial to a target is under way, no further request for that target
/// is told to dial: it waits, however many requests come.
pub proof fn lemma_one_dial_in_flight<C>(slots: Map<Seq<char>, Slot<C>>, target: Seq<char>)
    requires
        answer(slots, target) == PoolAction::Dial,
    ensures
        answer(requested(slots, target), target) == PoolAction::Wait,
        requested(requested(slots, target), target) == requested(slots, target),
{
}

/// Once the dial has ended with a connection, every request for the target
/// is forwarded through that connection, and none dials.
pub proof fn lemma_forward_after_connect<C>(
    slots: Map<Seq<char>, Slot<C>>,
    target: Seq<char>,
    conn: C,
)
    requires
        is_dialing(slots, target),
    ensures
        answer(connected(slots, target, conn), target) == PoolAction::Forward,
        connected(slots, target, conn)[target] == Slot::Live(conn),
        requested(connected(slots, target, conn), target) == connected(slots, target, conn),
{
}

/// Two requests for a target that nothing is held for cause one dial: the
/// first is told to dial, the second to wait, and once the dial has ended
/// with a connection both are told to forward, through that one connection,
/// while the pool holds the target once.
pub proof fn lemma_two_requests_one_dial<C>(slots: Map<Seq<char>, Slot<C>>, target: Seq<char>, conn: C)
    requires
        !slots.contains_key(target),
    ensures
        answer(slots, target) == PoolAction::Dial,
        answer(requested(slots, target), target) == PoolAction::Wait,
        requested(requested(slots, target), target) == requested(slots, target),
        ({
            let open = connected(requested(slots, target), target, conn);
            &&& open == slots.insert(target, Slot::Live(conn))
            &&& answer(open, target) == PoolAction::Forward
            &&& requested(open, target) == open
            &&& answer(requested(open, target), target) == PoolAction::Forward
        }),
{
    assert(slots.insert(target, Slot::<C>::Dialing).insert(target, Slot::Live(conn))
        =~= slots.insert(target, Slot::Live(conn)));
}

/// After a failed dial nothing is held for the target, so the next request
/// dials again.
pub proof fn lemma_dial_again_after_failure<C>(slots: Map<Seq<char>, Slot<C>>, target: Seq<char>)
    requires
        is_dialing(slots, target),
    ensures
        !dial_lost(slots, target).contains_key(target),
        answer(dial_lost(slots, target), target) == PoolAction::Dial,
{
}

/// After a connection has ended nothing is held for its target, so the next
/// request dials again.
pub proof fn lemma_dial_again_after_release<C>(slots: Map<Seq<char>, Slot<C>>, target: Seq<char>)
    requires
        is_live(slots, target),
    ensures
        !released(slots, target).contains_key(target),
        answer(released(slots, target), target) == PoolAction::Dial,
{
}

/// What happens for one target leaves every other target as it was.
pub proof fn lemma_other_targets_untouched<C>(
    slots: Map<Seq<char>, Slot<C>>,
    target: Seq<char>,
    other: Seq<char>,
    conn: C,
)
    requires
        other != target,
    ensures
        answer(requested(slots, target), other) == answer(slots, other),
        answer(connected(slots, target, conn), other) == answer(slots, other),
        answer(dial_lost(slots, target), other) == answer(slots, other),
        answer(released(slots, target), other) == answer(slots, other),
{
}

/// The upstream connections of one worker, by connect target.
pub struct ConnectPool<C> {
    slots: NameMap<Slot<C>>,
}

impl<C> ConnectPool<C> {
    /// The targets the pool holds something for, in the order they came.
    pub closed spec fn held(&self) -> Seq<Seq<char>> {
        self.slots.names()
    }

    /// The pool as a mapping from connect target to what is held for it.
    pub closed spec fn view(&self) -> Map<Seq<char>, Slot<C>> {
        self.slots@
    }

    /// The targets of the mapping are exactly the targets held. As every
    /// operation leaves `held` without a target that occurs twice, there is at
    /// most one connection, or one dial, per target.
    pub proof fn lemma_held_targets(&self)
        ensures
            self@.dom() == self.held().to_set(),
    {
        self.slots.lemma_names();
    }

    /// A pool that holds nothing.
    pub fn new() -> (pool: Self)
        ensures
            pool@ == Map::<Seq<char>, Slot<C>>::empty(),
            pool.held().no_duplicates(),
    {
        ConnectPool { slots: NameMap::new() }
    }

    /// The number of targets the pool holds something for.
    pub fn len(&self) -> (n: usize)
        ensures
            n == self.held().len(),
            n == self@.dom().len(),
            self@.dom().finite(),
            self.held().no_duplicates(),
    {
        self.slots.len()
    }

    /// A request for `target` arrives. Where nothing is held for the target,
    /// the target is marked as being dialed and the caller is told to dial;
    /// otherwise the pool stays as it is.
    pub fn request(&mut self, target: &str) -> (action: PoolAction)
        ensures
            action == answer(old(self)@, target@),
            final(self)@ == requested(old(self)@, target@),
            final(self).held().no_duplicates(),
    {
        let known = match self.slots.get(target) {
            Some(Slot::Live(_)) => Some(PoolAction::Forward),
            Some(Slot::Dialing) => Some(PoolAction::Wait),
            None => None,
        };
        match known {
            Some(action) => {
                self.slots.names_are_distinct();
                action
            },
            None => {
                let _ = self.slots.insert(target, Slot::Dialing);
                PoolAction::Dial
            },
        }
    }

    /// The live connection to `target`, if there is one.
    pub fn connection(&self, target: &str) -> (conn: Option<&C>)
        ensures
            match conn {
                Some(c) => self@.contains_key(target@) && self@[target@] == Slot::Live(*c),
                None => !is_live(self@, target@),
            },
    {
        match self.slots.get(target) {
            Some(Slot::Live(c)) => Some(c),
            _ => None,
        }
    }

    /// The dial to `target` ended with a connection. Where the pool was
    /// waiting for it, the connection is installed; otherwise the pool stays
    /// as it is and the connection is handed back.
    pub fn dial_succeeded(&mut self, target: &str, conn: C) -> (refused: Option<C>)
        ensures
            final(self)@ == connected(old(self)@, target@, conn),
            refused == if is_dialing(old(self)@, target@) {
                None
            } else {
                Some(conn)
            },
            final(self).held().no_duplicates(),
    {
        let dialing = match self.slots.get(target) {
            Some(Slot::Dialing) => true,
            _ => false,
        };
        if dialing {
            let _ = self.slots.insert(target, Slot::Live(conn));
            None
        } else {
            self.slots.names_are_distinct();
            Some(conn)
        }
    }

    /// The dial to `target` failed. The mark for the target is taken away, so
    /// that the next request dials again; a live connection is left alone.
    /// Says whether a mark was there.
    pub fn dial_failed(&mut self, target: &str) -> (was_dialing: bool)
        ensures
            was_dialing == is_dialing(old(self)@, target@),
            final(self)@ == dial_lost(old(self)@, target@),
            final(self).held().no_duplicates(),
    {
        let dialing = match self.slots.get(target) {
            Some(Slot::Dialing) => true,
            _ => false,
        };
        if dialing {
            let _ = self.slots.remove(target);
        } else {
            self.slots.names_are_distinct();
        }
        dialing
    }

    /// The connection to `target` has ended. It leaves the pool and is handed
    /// to the caller to be closed; a dial under way is left alone.
    pub fn release(&mut self, target: &str) -> (conn: Option<C>)
        ensures
            final(self)@ == released(old(self)@, target@),
            match conn {
                Some(c) => old(self)@.contains_key(target@) && old(self)@[target@] == Slot::Live(c),
                None => !is_live(old(self)@, target@),
            },
            final(self).held().no_duplicates(),
    {
        let live = match self.slots.get(target) {
            Some(Slot::Live(_)) => true,
            _ => false,
        };
        if live {
            match self.slots.remove(target) {
                Some(Slot::Live(c)) => Some(c),
                _ => None,
            }
        } else {
            self.slots.names_are_distinct();
            None
        }
    }
}

/// A request that is to go to the upstream `proxy_pass` asks the pool, under
/// the connect target of the upstream, what it has to do: forward through
/// the live connection, wait for the dial that is under way, or dial. In the
/// last case the target is marked, so that requests which arrive before the
/// dial has ended do not dial again.
pub fn handle_endpoint_connection<C>(connect_pool: &mut ConnectPool<C>, proxy_pass: &Domain) -> (action:
    PoolAction)
    ensures
        action == answer(old(connect_pool)@, proxy_pass@.connect_target()),
        final(connect_pool)@ == requested(old(connect_pool)@, proxy_pass@.connect_target()),
        final(connect_pool).held().no_duplicates(),
{
    let target = proxy_pass.resolve();
    connect_pool.request(target.as_str())
}

} // verus!
