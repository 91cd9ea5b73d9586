use vstd::prelude::*;

use crate::payload::{bytes_copy_from_slice, bytes_from_vec, bytes_view};
use crate::sub::Sub;
use crate::topic::{published, subscribed, unregistered, Topic, TopicState};
use crate::version::VersionCounter;

verus! {

/// A publish-subscribe message broker with latest-only delivery.
///
/// The bus owns the state of every topic it has ever created, in an
/// append-only sequence of slots. A slot stays in place for its whole life,
/// so a handle's index remains meaningful even after the registry has given
/// the topic up; whether the topic is still *registered* (and so visible to
/// lookups, counts and names) is recorded per slot.
pub struct Bus<T> {
    pub(crate) channels: Vec<TopicState<T>>,
}

impl<T> View for Bus<T> {
    type V = Seq<TopicState<T>>;

    closed spec fn view(&self) -> Seq<TopicState<T>> {
        self.channels@
    }
}

/// The bus's mathematical model is exactly its sequence of topic slots.
pub(crate) broadcast proof fn view_is_channels<T>(bus: Bus<T>)
    ensures
        #[trigger] bus@ == bus.channels@,
{
}

/// The slot at `i` is registered under `key`.
pub open spec fn registered_at<T>(s: Seq<TopicState<T>>, key: Seq<char>, i: int) -> bool {
    0 <= i < s.len() && s[i].registered && s[i].name@ == key
}

/// Some slot is registered under `key`.
pub open spec fn has_registered<T>(s: Seq<TopicState<T>>, key: Seq<char>) -> bool {
    exists|i: int| registered_at(s, key, i)
}

/// What publishing `m` under `key` does to the bus model: the topic
/// registered under `key` has its slot overwritten with `m` and its version
/// advanced by the saturating increment, or, when no topic is registered
/// under `key`, a fresh registered topic holding `m` at version one is
/// appended.
pub open spec fn publish_post<T>(
    pre: Seq<TopicState<T>>,
    post: Seq<TopicState<T>>,
    key: Seq<char>,
    m: T,
) -> bool {
    if has_registered(pre, key) {
        forall|i: int|
            #[trigger] registered_at(pre, key, i) ==> post == pre.update(i, published(pre[i], m))
    } else {
        &&& post.len() == pre.len() + 1
        &&& forall|j: int| 0 <= j < pre.len() ==> post[j] == pre[j]
        &&& post.last().name@ == key
        &&& post.last().slot == Some(m)
        &&& post.last().version.value == 1
        &&& post.last().receivers == 0
        &&& post.last().registered
        &&& post.last().cached_refs == 0
    }
}

/// Number of registered topics with no live subscribers: the topics a cleanup
/// sweep removes.
pub open spec fn count_unused<T>(s: Seq<TopicState<T>>) -> nat
    decreases s.len(),
{
    if s.len() == 0 {
        0
    } else {
        count_unused(s.drop_last()) + (if s.last().registered && s.last().receivers == 0 {
            1nat
        } else {
            0nat
        })
    }
}

/// The names of the registered topics, in slot order.
pub open spec fn registered_names<T>(s: Seq<TopicState<T>>) -> Seq<Seq<char>>
    decreases s.len(),
{
    if s.len() == 0 {
        Seq::empty()
    } else if s.last().registered {
        registered_names(s.drop_last()).push(s.last().name@)
    } else {
        registered_names(s.drop_last())
    }
}

/// Number of registered topics in the sequence.
pub open spec fn count_registered<T>(s: Seq<TopicState<T>>) -> nat
    decreases s.len(),
{
    if s.len() == 0 {
        0
    } else {
        count_registered(s.drop_last()) + (if s.last().registered {
            1nat
        } else {
            0nat
        })
    }
}

/// At most one slot is registered under any given name.
pub open spec fn names_unique<T>(s: Seq<TopicState<T>>) -> bool {
    forall|i: int, j: int|
        0 <= i < j < s.len() && s[i].registered && s[j].registered ==> s[i].name@ != s[j].name@
}

/// The registry's create-or-get guarantee: under unique registered names,
/// all lookups of one name reach the same slot, so no two callers can ever
/// end up with distinct topics for the same name.
pub proof fn lemma_registered_at_unique<T>(s: Seq<TopicState<T>>, key: Seq<char>, i: int, j: int)
    requires
        names_unique(s),
        registered_at(s, key, i),
        registered_at(s, key, j),
    ensures
        i == j,
{
}

impl<T> Bus<T> where T: Clone {
    /// At most one slot is registered under any given name.
    pub open spec fn wf(self) -> bool {
        names_unique(self@)
    }

    /// Creates a new Bus with default settings.
    pub fn new() -> (bus: Self)
        ensures
            bus@ =~= Seq::<TopicState<T>>::empty(),
            bus.wf(),
    {
        Bus { channels: Vec::new() }
    }

    /// Creates a Bus with the given initial capacity for topic storage.
    ///
    /// The capacity is a sizing hint only; it does not change behaviour.
    pub fn with_capacity(capacity: usize) -> (bus: Self)
        ensures
            bus@ =~= Seq::<TopicState<T>>::empty(),
            bus.wf(),
    {
        Bus { channels: Vec::with_capacity(capacity) }
    }

    /// Creates a Bus sized for high throughput scenarios (many topics).
    pub fn high_throughput() -> (bus: Self)
        ensures
            bus@ =~= Seq::<TopicState<T>>::empty(),
            bus.wf(),
    {
        Self::with_capacity(64)
    }

    /// Creates a Bus sized for low latency scenarios (few topics).
    pub fn low_latency() -> (bus: Self)
        ensures
            bus@ =~= Seq::<TopicState<T>>::empty(),
            bus.wf(),
    {
        Self::with_capacity(8)
    }

    /// Finds the slot registered under `key`, if any.
    fn find_registered(&self, key: &String) -> (r: Option<usize>)
        ensures
            match r {
                Some(i) => registered_at(self@, key@, i as int),
                None => !has_registered(self@, key@),
            },
    {
        let mut i: usize = 0;
        while i < self.channels.len()
            invariant
                i <= self.channels.len(),
                forall|j: int| 0 <= j < i ==> !registered_at(self@, key@, j),
            decreases self.channels.len() - i,
        {
            if self.channels[i].registered && self.channels[i].name == *key {
                return Some(i);
            }
            i = i + 1;
        }
        None
    }

    /// Gets the existing topic registered under `name`, or atomically installs
    /// a freshly constructed one and returns a handle to it. Never fails.
    pub fn topic(&mut self, name: &str) -> (t: Topic)
        requires
            old(self).wf(),
        ensures
            final(self).wf(),
            t.key() == name@,
            registered_at(final(self)@, name@, t.idx()),
            has_registered(old(self)@, name@) ==> final(self)@ == old(self)@ && registered_at(
                old(self)@,
                name@,
                t.idx(),
            ),
            !has_registered(old(self)@, name@) ==> {
                &&& t.idx() == old(self)@.len()
                &&& final(self)@.len() == old(self)@.len() + 1
                &&& forall|j: int| 0 <= j < old(self)@.len() ==> final(self)@[j] == old(self)@[j]
                &&& final(self)@.last().name@ == name@
                &&& final(self)@.last().slot is None
                &&& final(self)@.last().version.value == 0
                &&& final(self)@.last().receivers == 0
                &&& final(self)@.last().registered
                &&& final(self)@.last().cached_refs == 0
            },
    {
        let key: String = name.to_owned();
        match self.find_registered(&key) {
            Some(i) => Topic { name: key, index: i },
            None => {
                let idx = self.channels.len();
                let state = TopicState {
                    name: key.clone(),
                    slot: None,
                    version: VersionCounter::new(),
                    receivers: 0,
                    registered: true,
                    cached_refs: 0,
                };
                self.channels.push(state);
                proof {
                    assert forall|i: int, j: int|
                        0 <= i < j < self@.len() && self@[i].registered
                            && self@[j].registered implies self@[i].name@ != self@[j].name@ by {
                        if j == self@.len() - 1 {
                            assert(!registered_at(old(self)@, key@, i));
                        }
                    }
                }
                Topic { name: key, index: idx }
            },
        }
    }

    /// Publishes a message to the topic registered under `topic_name`,
    /// creating the topic first if it is absent. A topic created this way has
    /// zero subscribers and is eligible for a later cleanup sweep; the value
    /// and version persist for any later subscriber.
    pub fn publish(&mut self, topic_name: &str, message: T)
        requires
            old(self).wf(),
        ensures
            final(self).wf(),
            publish_post(old(self)@, final(self)@, topic_name@, message),
    {
        let ghost pre = self@;
        let t = self.topic(topic_name);
        let ghost mid = self@;
        t.publish(self, message);
        proof {
            if has_registered(pre, topic_name@) {
                assert(registered_at(pre, topic_name@, t.idx()) && self@ == pre.update(
                    t.idx(),
                    published(pre[t.idx()], message),
                ));
            } else {
                assert(self@ == mid.update(t.idx(), published(mid[t.idx()], message)));
                assert(self@.last() == published(mid[t.idx()], message));
            }
        }
    }

    /// Creates a subscriber for the topic registered under `topic_name`,
    /// creating the topic first if it is absent.
    pub fn subscribe(&mut self, topic_name: &str) -> (s: Sub)
        requires
            old(self).wf(),
        ensures
            final(self).wf(),
            s.key() == topic_name@,
            s.is_cached(),
            has_registered(old(self)@, topic_name@) ==> forall|i: int|
                #[trigger] registered_at(old(self)@, topic_name@, i) ==> final(self)@ == old(
                    self,
                )@.update(i, subscribed(old(self)@[i])) && s.idx() == i && s.cursor() == old(
                    self,
                )@[i].version.value,
            !has_registered(old(self)@, topic_name@) ==> {
                &&& final(self)@.len() == old(self)@.len() + 1
                &&& forall|j: int| 0 <= j < old(self)@.len() ==> final(self)@[j] == old(self)@[j]
                &&& final(self)@.last().name@ == topic_name@
                &&& final(self)@.last().slot is None
                &&& final(self)@.last().version.value == 0
                &&& final(self)@.last().receivers == 1
                &&& final(self)@.last().registered
                &&& final(self)@.last().cached_refs == 1
                &&& s.idx() == old(self)@.len()
                &&& s.cursor() == 0
            },
    {
        let ghost pre = self@;
        let t = self.topic(topic_name);
        let ghost mid = self@;
        let s = t.subscribe(self);
        proof {
            if has_registered(pre, topic_name@) {
                assert(registered_at(pre, topic_name@, t.idx()) && self@ == pre.update(
                    t.idx(),
                    subscribed(pre[t.idx()]),
                ) && s.idx() == t.idx() && s.cursor() == pre[t.idx()].version.value);
            } else {
                assert(self@ == mid.update(t.idx(), subscribed(mid[t.idx()])));
                assert(self@.last() == subscribed(mid[t.idx()]));
            }
        }
        s
    }

    /// Unconditionally removes the registry's entry for `topic_name`,
    /// returning the subscriber count observed at removal time, or `None` if
    /// no topic was registered under that name. Removal only gives up the
    /// registry's own ownership: subscribers that still hold a cached strong
    /// reference keep the topic alive until they release it on their own.
    pub fn remove_topic(&mut self, topic_name: &str) -> (r: Option<usize>)
        requires
            old(self).wf(),
        ensures
            final(self).wf(),
            !has_registered(old(self)@, topic_name@) ==> r is None && final(self)@ == old(self)@,
            has_registered(old(self)@, topic_name@) ==> forall|i: int|
                #[trigger] registered_at(old(self)@, topic_name@, i) ==> final(self)@ == old(
                    self,
                )@.update(i, unregistered(old(self)@[i])) && r == Some(old(self)@[i].receivers),
    {
        let key: String = topic_name.to_owned();
        match self.find_registered(&key) {
            None => None,
            Some(i) => {
                let count = self.channels[i].receivers;
                self.channels[i].registered = false;
                proof {
                    assert(self@ =~= old(self)@.update(
                        i as int,
                        unregistered(old(self)@[i as int]),
                    ));
                }
                Some(count)
            },
        }
    }

    /// Returns the names of all registered topics, in no guaranteed order.
    pub fn topic_names(&self) -> (names: Vec<String>)
        ensures
            names@.map_values(|n: String| n@) == registered_names(self@),
    {
        let mut names: Vec<String> = Vec::new();
        let mut i: usize = 0;
        while i < self.channels.len()
            invariant
                i <= self.channels.len(),
                names@.map_values(|n: String| n@) == registered_names(self@.take(i as int)),
            decreases self.channels.len() - i,
        {
            let ghost prior = names@;
            proof {
                assert(self@.take(i + 1).drop_last() =~= self@.take(i as int));
                assert(self@.take(i + 1).last() == self@[i as int]);
            }
            if self.channels[i].registered {
                names.push(self.channels[i].name.clone());
                proof {
                    assert(names@.map_values(|n: String| n@) =~= prior.map_values(
                        |n: String| n@,
                    ).push(self@[i as int].name@));
                }
            }
            i = i + 1;
        }
        proof {
            assert(self@.take(self@.len() as int) =~= self@);
        }
        names
    }

    /// Removes every registered topic whose live subscriber count is zero at
    /// sweep time, and returns how many were removed. Topics with at least
    /// one subscriber are never removed by the sweep.
    pub fn cleanup_unused_topics(&mut self) -> (removed: usize)
        requires
            old(self).wf(),
        ensures
            final(self).wf(),
            final(self)@.len() == old(self)@.len(),
            forall|j: int|
                0 <= j < old(self)@.len() ==> final(self)@[j] == (if old(self)@[j].registered
                    && old(self)@[j].receivers == 0 {
                    unregistered(old(self)@[j])
                } else {
                    old(self)@[j]
                }),
            removed == count_unused(old(self)@),
    {
        let mut removed: usize = 0;
        let mut i: usize = 0;
        while i < self.channels.len()
            invariant
                i <= self.channels.len(),
                self@.len() == old(self)@.len(),
                forall|j: int| i <= j < self@.len() ==> self@[j] == old(self)@[j],
                forall|j: int|
                    0 <= j < i ==> self@[j] == (if old(self)@[j].registered
                        && old(self)@[j].receivers == 0 {
                        unregistered(old(self)@[j])
                    } else {
                        old(self)@[j]
                    }),
                removed == count_unused(old(self)@.take(i as int)),
                removed <= i,
            decreases self.channels.len() - i,
        {
            proof {
                assert(old(self)@.take(i + 1).drop_last() =~= old(self)@.take(i as int));
                assert(old(self)@.take(i + 1).last() == old(self)@[i as int]);
            }
            if self.channels[i].registered && self.channels[i].receivers == 0 {
                self.channels[i].registered = false;
                removed = removed.saturating_add(1);
            }
            i = i + 1;
        }
        proof {
            assert(old(self)@.take(old(self)@.len() as int) =~= old(self)@);
        }
        removed
    }

    /// Returns the number of registered topics.
    pub fn topic_count(&self) -> (n: usize)
        ensures
            n == count_registered(self@),
    {
        let mut n: usize = 0;
        let mut i: usize = 0;
        while i < self.channels.len()
            invariant
                i <= self.channels.len(),
                n == count_registered(self@.take(i as int)),
                n <= i,
            decreases self.channels.len() - i,
        {
            proof {
                assert(self@.take(i + 1).drop_last() =~= self@.take(i as int));
                assert(self@.take(i + 1).last() == self@[i as int]);
            }
            if self.channels[i].registered {
                n = n + 1;
            }
            i = i + 1;
        }
        proof {
            assert(self@.take(self@.len() as int) =~= self@);
        }
        n
    }
}

/// Byte-buffer publishing helpers for byte-payload buses. Only the
/// construction of the payload differs from [`Bus::publish`]; the delivery
/// semantics are identical.
impl Bus<bytes::Bytes> {
    /// Publishes a byte slice, copied into a fresh byte buffer.
    pub fn publish_slice(&mut self, topic_name: &str, data: &[u8])
        requires
            old(self).wf(),
        ensures
            final(self).wf(),
            exists|m: bytes::Bytes|
                #[trigger] bytes_view(m) == data@ && publish_post(
                    old(self)@,
                    final(self)@,
                    topic_name@,
                    m,
                ),
    {
        let message = bytes_copy_from_slice(data);
        self.publish(topic_name, message);
    }

    /// Publishes a vector of bytes, moved into a byte buffer without copying.
    pub fn publish_vec(&mut self, topic_name: &str, data: Vec<u8>)
        requires
            old(self).wf(),
        ensures
            final(self).wf(),
            exists|m: bytes::Bytes|
                #[trigger] bytes_view(m) == data@ && publish_post(
                    old(self)@,
                    final(self)@,
                    topic_name@,
                    m,
                ),
    {
        let message = bytes_from_vec(data);
        self.publish(topic_name, message);
    }
}

impl<T> Default for Bus<T> where T: Clone {
    /// An empty bus, the same as [`Bus::new`].
    fn default() -> (bus: Self)
        ensures
            bus@ =~= Seq::<TopicState<T>>::empty(),
            bus.wf(),
    {
        Self::new()
    }
}

} // verus!
