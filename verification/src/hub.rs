//! Fan-out hub: the process-wide registry of live subscriber handles, one
//! set per channel.
//!
//! Membership is held in dashmap's concurrent sets, so subscribe and
//! unsubscribe from many connections need no global lock; the sets are used
//! here through trusted wrappers whose contents are named by `dash_handles`.
//! A handle is an identity: one number per live connection.

use vstd::prelude::*;

verus! {

#[verifier::external_type_specification]
#[verifier::external_body]
#[verifier::reject_recursive_types(K)]
#[verifier::reject_recursive_types(S)]
pub struct ExDashSet<K, S>(dashmap::DashSet<K, S>);

/// The members a concurrent handle set holds.
pub uninterp spec fn dash_handles(s: dashmap::DashSet<u64>) -> Set<u64>;

/// Relies on dashmap::DashSet::new: a newly made set is empty.
#[verifier::external_body]
fn dash_new() -> (s: dashmap::DashSet<u64>)
    ensures
        dash_handles(s) == Set::<u64>::empty(),
{
    dashmap::DashSet::new()
}

/// Relies on dashmap::DashSet::insert: the value joins the set, and the call
/// reports whether it was absent before.
#[verifier::external_body]
fn dash_insert(s: &mut dashmap::DashSet<u64>, h: u64) -> (r: bool)
    ensures
        dash_handles(*final(s)) == dash_handles(*old(s)).insert(h),
        r == !dash_handles(*old(s)).contains(h),
{
    s.insert(h)
}

/// Relies on dashmap::DashSet::remove: the value leaves the set, and the call
/// reports whether it was present.
#[verifier::external_body]
fn dash_remove(s: &mut dashmap::DashSet<u64>, h: u64) -> (r: bool)
    ensures
        dash_handles(*final(s)) == dash_handles(*old(s)).remove(h),
        r == dash_handles(*old(s)).contains(h),
{
    s.remove(&h).is_some()
}

/// Relies on dashmap::DashSet::contains: membership in the set.
#[verifier::external_body]
fn dash_contains(s: &dashmap::DashSet<u64>, h: u64) -> (r: bool)
    ensures
        r == dash_handles(*s).contains(h),
{
    s.contains(&h)
}

/// Relies on dashmap::DashSet::iter: iteration visits each member exactly
/// once, in no promised order.
#[verifier::external_body]
fn dash_items(s: &dashmap::DashSet<u64>) -> (r: Vec<u64>)
    ensures
        r@.to_set() == dash_handles(*s),
        r@.no_duplicates(),
{
    s.iter().map(|x| *x.key()).collect()
}

/// The live subscriber handles of one channel.
pub struct SubscriberSet {
    inner: dashmap::DashSet<u64>,
}

impl View for SubscriberSet {
    type V = Set<u64>;

    closed spec fn view(&self) -> Set<u64> {
        dash_handles(self.inner)
    }
}

impl SubscriberSet {
    /// An empty subscriber set.
    pub fn new() -> (s: Self)
        ensures
            s@ == Set::<u64>::empty(),
    {
        SubscriberSet { inner: dash_new() }
    }

    /// Add a handle; adding a present handle changes nothing.
    pub fn subscribe(&mut self, h: u64) -> (newly: bool)
        ensures
            final(self)@ == old(self)@.insert(h),
            newly == !old(self)@.contains(h),
    {
        dash_insert(&mut self.inner, h)
    }

    /// Remove a handle; removing an absent handle changes nothing.
    pub fn unsubscribe(&mut self, h: u64) -> (was_there: bool)
        ensures
            final(self)@ == old(self)@.remove(h),
            was_there == old(self)@.contains(h),
    {
        dash_remove(&mut self.inner, h)
    }

    /// Whether a handle is subscribed.
    pub fn contains(&self, h: u64) -> (r: bool)
        ensures
            r == self@.contains(h),
    {
        dash_contains(&self.inner, h)
    }

    /// The handles to deliver one event to: every current member, each once,
    /// in no promised order.
    pub fn members(&self) -> (r: Vec<u64>)
        ensures
            r@.to_set() == self@,
            r@.no_duplicates(),
    {
        dash_items(&self.inner)
    }
}

/// Subscribing is idempotent: a second subscribe of the same handle leaves
/// the set exactly as the first did, with the handle present once.
pub proof fn lemma_subscribe_idempotent(s: Set<u64>, h: u64)
    ensures
        s.insert(h).insert(h) == s.insert(h),
        s.insert(h).contains(h),
{
    assert(s.insert(h).insert(h) =~= s.insert(h));
}

/// Unsubscribing an absent handle is a no-op, so subscribe followed by
/// unsubscribe leaves a set that never held the handle unchanged.
pub proof fn lemma_unsubscribe_absent_noop(s: Set<u64>, h: u64)
    requires
        !s.contains(h),
    ensures
        s.remove(h) == s,
        s.insert(h).remove(h) == s,
{
    assert(s.remove(h) =~= s);
    assert(s.insert(h).remove(h) =~= s);
}

/// First channel with the given name.
pub open spec fn spec_channel_index(names: Seq<Seq<char>>, name: Seq<char>) -> Option<int>
    decreases names.len(),
{
    if names.len() == 0 {
        None
    } else if names[0] == name {
        Some(0)
    } else {
        match spec_channel_index(names.drop_first(), name) {
            Some(j) => Some(j + 1),
            None => None,
        }
    }
}

/// The fan-out hub: a fixed list of channels, each with its subscriber set.
pub struct Hub {
    pub names: Vec<String>,
    pub sets: Vec<SubscriberSet>,
}

impl Hub {
    /// One subscriber set per named channel.
    pub open spec fn wf(&self) -> bool {
        self.sets@.len() == self.names@.len()
    }

    /// The channel names, as text.
    pub open spec fn names_view(&self) -> Seq<Seq<char>> {
        self.names@.map_values(|n: String| n@)
    }

    /// The subscriber sets, channel by channel.
    pub open spec fn sets_view(&self) -> Seq<Set<u64>> {
        self.sets@.map_values(|s: SubscriberSet| s@)
    }

    /// A hub over the given channels, all without subscribers.
    pub fn new(names: Vec<String>) -> (h: Hub)
        ensures
            h.wf(),
            h.names_view() == names@.map_values(|n: String| n@),
            h.sets_view().len() == names@.len(),
            forall|c: int| 0 <= c < names@.len() ==> h.sets_view()[c] == Set::<u64>::empty(),
    {
        let mut sets: Vec<SubscriberSet> = Vec::new();
        let mut i: usize = 0;
        while i < names.len()
            invariant
                0 <= i <= names@.len(),
                sets@.len() == i,
                forall|c: int| 0 <= c < i ==> (#[trigger] sets@[c])@ == Set::<u64>::empty(),
            decreases names@.len() - i,
        {
            sets.push(SubscriberSet::new());
            i += 1;
        }
        Hub { names, sets }
    }

    /// How many channels the hub serves.
    pub fn channel_count(&self) -> (r: usize)
        ensures
            r == self.names@.len(),
    {
        self.names.len()
    }

    /// The index of a named channel, if the hub serves it.
    pub fn channel_index(&self, name: &str) -> (r: Option<usize>)
        ensures
            match r {
                Some(i) => spec_channel_index(self.names_view(), name@) == Some(i as int),
                None => spec_channel_index(self.names_view(), name@) is None,
            },
    {
        let mut i: usize = 0;
        proof {
            assert(self.names_view().skip(0) =~= self.names_view());
        }
        while i < self.names.len()
            invariant
                0 <= i <= self.names@.len(),
                (match spec_channel_index(self.names_view().skip(i as int), name@) {
                    Some(j) => spec_channel_index(self.names_view(), name@) == Some(j + i),
                    None => spec_channel_index(self.names_view(), name@) is None,
                }),
            decreases self.names@.len() - i,
        {
            proof {
                assert(self.names_view().skip(i as int).drop_first() =~= self.names_view().skip(
                    i + 1,
                ));
                assert(self.names_view().skip(i as int)[0] == self.names@[i as int]@);
            }
            if crate::text::str_eq(self.names[i].as_str(), name) {
                return Some(i);
            }
            i += 1;
        }
        proof {
            assert(self.names_view().skip(i as int) =~= Seq::<Seq<char>>::empty());
        }
        None
    }

    /// Add a handle to one channel's subscriber set.
    pub fn subscribe(&mut self, ch: usize, h: u64)
        requires
            old(self).wf(),
            ch < old(self).names@.len(),
        ensures
            final(self).wf(),
            final(self).names@ == old(self).names@,
            final(self).sets_view() == old(self).sets_view().update(
                ch as int,
                old(self).sets_view()[ch as int].insert(h),
            ),
    {
        let ghost before = self.sets_view();
        let mut s = self.sets.remove(ch);
        s.subscribe(h);
        self.sets.insert(ch, s);
        proof {
            assert(self.sets_view() =~= before.update(ch as int, before[ch as int].insert(h)));
        }
    }

    /// Remove a handle from one channel's subscriber set.
    pub fn unsubscribe(&mut self, ch: usize, h: u64)
        requires
            old(self).wf(),
            ch < old(self).names@.len(),
        ensures
            final(self).wf(),
            final(self).names@ == old(self).names@,
            final(self).sets_view() == old(self).sets_view().update(
                ch as int,
                old(self).sets_view()[ch as int].remove(h),
            ),
    {
        let ghost before = self.sets_view();
        let mut s = self.sets.remove(ch);
        s.unsubscribe(h);
        self.sets.insert(ch, s);
        proof {
            assert(self.sets_view() =~= before.update(ch as int, before[ch as int].remove(h)));
        }
    }

    /// Whether a handle is subscribed to a channel.
    pub fn is_subscribed(&self, ch: usize, h: u64) -> (r: bool)
        requires
            self.wf(),
            ch < self.names@.len(),
        ensures
            r == self.sets_view()[ch as int].contains(h),
    {
        self.sets[ch].contains(h)
    }

    /// The handles one dispatched event goes to: every handle subscribed to
    /// the channel at this moment, each once, in no promised order.
    pub fn dispatch_targets(&self, ch: usize) -> (r: Vec<u64>)
        requires
            self.wf(),
            ch < self.names@.len(),
        ensures
            r@.to_set() == self.sets_view()[ch as int],
            r@.no_duplicates(),
    {
        self.sets[ch].members()
    }
}


/// At the hub, subscribing a handle to a channel twice leaves the channel's
/// set exactly as one subscribe does, and unsubscribing a handle that is not
/// subscribed leaves every channel unchanged.
pub proof fn lemma_hub_membership_idempotent(sets: Seq<Set<u64>>, ch: int, h: u64)
    requires
        0 <= ch < sets.len(),
    ensures
        sets.update(ch, sets[ch].insert(h)).update(
            ch,
            sets.update(ch, sets[ch].insert(h))[ch].insert(h),
        ) == sets.update(ch, sets[ch].insert(h)),
        !sets[ch].contains(h) ==> sets.update(ch, sets[ch].remove(h)) == sets,
{
    let once = sets.update(ch, sets[ch].insert(h));
    assert(once[ch].insert(h) =~= once[ch]);
    assert(once.update(ch, once[ch].insert(h)) =~= once);
    if !sets[ch].contains(h) {
        assert(sets[ch].remove(h) =~= sets[ch]);
        assert(sets.update(ch, sets[ch].remove(h)) =~= sets);
    }
}

} // verus!
