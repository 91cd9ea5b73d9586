use vstd::prelude::*;

use crate::bus::Bus;
use crate::payload::{bytes_copy_from_slice, bytes_from_vec, bytes_view};
use crate::sub::Sub;
use crate::version::{next_version, VersionCounter};

verus! {

broadcast use crate::bus::view_is_channels;

/// Saturating successor for ownership counts: they clamp at `usize::MAX`
/// rather than wrapping.
pub open spec fn sat_inc(n: usize) -> usize {
    if n < usize::MAX {
        (n + 1) as usize
    } else {
        usize::MAX
    }
}

/// Saturating predecessor for ownership counts.
pub open spec fn sat_dec(n: usize) -> usize {
    if n > 0 {
        (n - 1) as usize
    } else {
        0
    }
}

/// The count after `k` saturating decrements.
pub open spec fn sat_dec_times(n: usize, k: nat) -> usize
    decreases k,
{
    if k == 0 {
        n
    } else {
        sat_dec(sat_dec_times(n, (k - 1) as nat))
    }
}

/// Each release decrements the count by exactly one until it reaches zero,
/// where it stays.
pub proof fn lemma_sat_dec_times(n: usize, k: nat)
    ensures
        sat_dec_times(n, k) == if n >= k {
            (n - k) as usize
        } else {
            0usize
        },
    decreases k,
{
    if k > 0 {
        lemma_sat_dec_times(n, (k - 1) as nat);
    }
}

/// Dropping every subscriber of a topic drives its subscriber count to zero:
/// releasing as many subscriber handles as the topic has live receivers
/// leaves none.
pub proof fn lemma_release_all_drives_to_zero(n: usize)
    ensures
        sat_dec_times(n, n as nat) == 0,
{
    lemma_sat_dec_times(n, n as nat);
}

/// The state a bus keeps for one topic: the single current value, its version
/// counter, the immutable name, and the ownership accounting that drives
/// subscriber-count queries and disconnection detection.
///
/// `receivers` counts the live subscriber handles bound to this slot.
/// `registered` records whether the bus's registry still owns the topic, and
/// `cached_refs` counts the subscribers currently holding a cached strong
/// reference to it; together they play the role of the topic's strong
/// ownership count, while a handle's `(index, name)` pair plays the role of a
/// weak reference that can no longer be resolved once both are gone.
pub struct TopicState<T> {
    /// Immutable topic name, set at creation.
    pub name: String,
    /// The latest published value, `None` before any publish.
    pub slot: Option<T>,
    /// Saturating version counter, advanced on every publish.
    pub version: VersionCounter,
    /// Number of live subscriber handles bound to this slot.
    pub receivers: usize,
    /// Whether the registry still holds this topic under its name.
    pub registered: bool,
    /// Number of subscribers holding a cached strong reference.
    pub cached_refs: usize,
}

/// The state after publishing `m`: the slot holds `m` and the version has
/// advanced by the saturating increment; nothing else changes.
pub open spec fn published<T>(pre: TopicState<T>, m: T) -> TopicState<T> {
    TopicState {
        slot: Some(m),
        version: VersionCounter { value: next_version(pre.version.value) },
        ..pre
    }
}

/// The state after the registry gives up its ownership of the topic.
pub open spec fn unregistered<T>(pre: TopicState<T>) -> TopicState<T> {
    TopicState { registered: false, ..pre }
}

/// The state after one more subscriber binds to the slot: it gains a live
/// receiver and starts out holding a cached strong reference.
pub open spec fn subscribed<T>(pre: TopicState<T>) -> TopicState<T> {
    TopicState { receivers: sat_inc(pre.receivers), cached_refs: sat_inc(pre.cached_refs), ..pre }
}

/// The state with its version counter overwritten.
pub open spec fn with_version<T>(pre: TopicState<T>, v: u64) -> TopicState<T> {
    TopicState { version: VersionCounter { value: v }, ..pre }
}

/// The handle's `(index, name)` pair points at a slot of the given sequence
/// whose name matches: the weak reference can still be followed to its state.
pub open spec fn resolves<T>(s: Seq<TopicState<T>>, key: Seq<char>, idx: int) -> bool {
    0 <= idx < s.len() && s[idx].name@ == key
}

/// The topic at `idx` still has a strong owner (the registry, or at least one
/// subscriber's cached reference), so a weak reference can be upgraded.
pub open spec fn upgradable<T>(s: Seq<TopicState<T>>, key: Seq<char>, idx: int) -> bool {
    resolves(s, key, idx) && (s[idx].registered || s[idx].cached_refs > 0)
}

/// A non-owning handle to a topic of one bus.
///
/// The handle names the topic and remembers which slot of the bus holds its
/// state; it keeps nothing alive by itself. All operations that read or write
/// the topic's state take the owning [`crate::bus::Bus`] as an argument.
#[derive(Debug, Clone)]
pub struct Topic {
    /// Immutable copy of the topic's name.
    pub name: String,
    /// The slot of the owning bus that holds the topic's state.
    pub index: usize,
}

impl Topic {
    /// The topic name this handle was created for.
    pub open spec fn key(self) -> Seq<char> {
        self.name@
    }

    /// The slot of the owning bus that holds this topic's state.
    pub open spec fn idx(self) -> int {
        self.index as int
    }

    /// Returns the topic name.
    pub fn name(&self) -> (r: &str)
        ensures
            r@ == self.key(),
    {
        self.name.as_str()
    }

    /// True when this handle still points at its topic's slot in `bus`.
    pub open spec fn resolves_in<T>(self, bus: Bus<T>) -> bool {
        resolves(bus@, self.key(), self.idx())
    }

    /// Publishes a message to this topic: the slot is overwritten with the
    /// message (replacing, not queuing, any unread prior value) and the
    /// version advances by the saturating increment. Publishing with zero
    /// subscribers is not an error; the state still updates for any later
    /// subscriber. On a handle whose topic is gone, nothing changes.
    pub fn publish<T: Clone>(&self, bus: &mut Bus<T>, message: T)
        requires
            old(bus).wf(),
        ensures
            final(bus).wf(),
            self.resolves_in(*old(bus)) ==> final(bus)@ == old(bus)@.update(
                self.idx(),
                published(old(bus)@[self.idx()], message),
            ),
            !self.resolves_in(*old(bus)) ==> final(bus)@ == old(bus)@,
    {
        if self.index < bus.channels.len() {
            if bus.channels[self.index].name == self.name {
                bus.channels[self.index].slot = Some(message);
                bus.channels[self.index].version.increment();
                proof {
                    assert(bus@ =~= old(bus)@.update(
                        self.idx(),
                        published(old(bus)@[self.idx()], message),
                    ));
                }
            }
        }
    }

    /// Creates a new subscriber bound to this topic's slot, capturing the
    /// current version as the subscriber's initial cursor: a fresh subscriber
    /// has not "seen" the current value, and a non-blocking read must observe
    /// a strictly newer version before it succeeds. On a handle whose topic is
    /// gone, the returned subscriber is already disconnected.
    pub fn subscribe<T: Clone>(&self, bus: &mut Bus<T>) -> (s: Sub)
        requires
            old(bus).wf(),
        ensures
            final(bus).wf(),
            s.key() == self.key(),
            s.idx() == self.idx(),
            self.resolves_in(*old(bus)) ==> {
                &&& final(bus)@ == old(bus)@.update(
                    self.idx(),
                    subscribed(old(bus)@[self.idx()]),
                )
                &&& s.cursor() == old(bus)@[self.idx()].version.value
                &&& s.is_cached()
            },
            !self.resolves_in(*old(bus)) ==> final(bus)@ == old(bus)@ && !s.is_cached()
                && s.cursor() == 0,
    {
        if self.index < bus.channels.len() && bus.channels[self.index].name == self.name {
            let version = bus.channels[self.index].version.get();
            let receivers = bus.channels[self.index].receivers;
            let cached_refs = bus.channels[self.index].cached_refs;
            bus.channels[self.index].receivers = receivers.saturating_add(1);
            bus.channels[self.index].cached_refs = cached_refs.saturating_add(1);
            Sub {
                topic_name: self.name.clone(),
                index: self.index,
                last_seen_version: version,
                cached: true,
            }
        } else {
            Sub {
                topic_name: self.name.clone(),
                index: self.index,
                last_seen_version: 0,
                cached: false,
            }
        }
    }

    /// Returns the number of live subscribers of this topic, or zero when the
    /// topic is gone.
    pub fn subscriber_count<T: Clone>(&self, bus: &Bus<T>) -> (n: usize)
        ensures
            self.resolves_in(*bus) ==> n == bus@[self.idx()].receivers,
            !self.resolves_in(*bus) ==> n == 0,
    {
        if self.index < bus.channels.len() && bus.channels[self.index].name == self.name {
            bus.channels[self.index].receivers
        } else {
            0
        }
    }

    /// True if the topic has any live subscribers.
    pub fn has_subscribers<T: Clone>(&self, bus: &Bus<T>) -> (r: bool)
        ensures
            self.resolves_in(*bus) ==> r == (bus@[self.idx()].receivers > 0),
            !self.resolves_in(*bus) ==> r == false,
    {
        self.subscriber_count(bus) > 0
    }

    /// Publishes a byte slice to this topic, copied into a fresh byte buffer.
    /// Only the construction of the payload differs from [`Topic::publish`];
    /// the delivery semantics are identical.
    pub fn publish_slice(&self, bus: &mut Bus<bytes::Bytes>, data: &[u8])
        requires
            old(bus).wf(),
        ensures
            final(bus).wf(),
            self.resolves_in(*old(bus)) ==> exists|m: bytes::Bytes|
                #[trigger] bytes_view(m) == data@ && final(bus)@ == old(bus)@.update(
                    self.idx(),
                    published(old(bus)@[self.idx()], m),
                ),
            !self.resolves_in(*old(bus)) ==> final(bus)@ == old(bus)@,
    {
        let message = bytes_copy_from_slice(data);
        self.publish(bus, message);
    }

    /// Publishes a vector of bytes to this topic, moved into a byte buffer
    /// without copying.
    pub fn publish_vec(&self, bus: &mut Bus<bytes::Bytes>, data: Vec<u8>)
        requires
            old(bus).wf(),
        ensures
            final(bus).wf(),
            self.resolves_in(*old(bus)) ==> exists|m: bytes::Bytes|
                #[trigger] bytes_view(m) == data@ && final(bus)@ == old(bus)@.update(
                    self.idx(),
                    published(old(bus)@[self.idx()], m),
                ),
            !self.resolves_in(*old(bus)) ==> final(bus)@ == old(bus)@,
    {
        let message = bytes_from_vec(data);
        self.publish(bus, message);
    }

    /// Overwrites the topic's version counter, to reach version values (such
    /// as the saturation plateau) that publishing alone cannot reach in a
    /// test's lifetime.
    pub fn set_version_for_test<T: Clone>(&self, bus: &mut Bus<T>, version: u64)
        requires
            old(bus).wf(),
        ensures
            final(bus).wf(),
            self.resolves_in(*old(bus)) ==> final(bus)@ == old(bus)@.update(
                self.idx(),
                with_version(old(bus)@[self.idx()], version),
            ),
            !self.resolves_in(*old(bus)) ==> final(bus)@ == old(bus)@,
    {
        if self.index < bus.channels.len() && bus.channels[self.index].name == self.name {
            bus.channels[self.index].version.set(version);
        }
    }
}

/// The state after publishing each message of `ms` in order, with no
/// intervening reads.
pub open spec fn published_all<T>(pre: TopicState<T>, ms: Seq<T>) -> TopicState<T>
    decreases ms.len(),
{
    if ms.len() == 0 {
        pre
    } else {
        published_all(published(pre, ms.first()), ms.drop_first())
    }
}

/// Latest-only delivery: after any non-empty sequence of publishes to a topic
/// with no intervening reads, the slot holds exactly the *last* published
/// value, never an earlier one — so the next successful read of any
/// subscriber returns that last value.
pub proof fn lemma_latest_only_delivery<T>(pre: TopicState<T>, ms: Seq<T>)
    requires
        ms.len() > 0,
    ensures
        published_all(pre, ms).slot == Some(ms.last()),
    decreases ms.len(),
{
    if ms.len() == 1 {
        assert(published_all(published(pre, ms.first()), ms.drop_first()) == published(
            pre,
            ms.first(),
        ));
    } else {
        lemma_latest_only_delivery(published(pre, ms.first()), ms.drop_first());
        assert(ms.drop_first().last() == ms.last());
    }
}

/// Subscriber accounting is exact away from the saturation bound: a new
/// subscription followed by its release restores the topic's receiver and
/// cached-reference counts.
pub proof fn lemma_subscribe_release_round_trip<T>(c: TopicState<T>)
    requires
        c.receivers < usize::MAX,
        c.cached_refs < usize::MAX,
    ensures
        crate::sub::sub_dropped(subscribed(c), true) == c,
{
}

} // verus!
