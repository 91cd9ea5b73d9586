use vstd::prelude::*;

use crate::bus::Bus;
use crate::error::{disconnected_error, empty_error, BusError};
use crate::topic::{resolves, sat_dec, sat_inc, upgradable, TopicState};
use crate::version::version_is_new;

verus! {

broadcast use crate::bus::view_is_channels;

/// The state after a subscriber releases its cached strong reference.
pub open spec fn cache_released<T>(pre: TopicState<T>) -> TopicState<T> {
    TopicState { cached_refs: sat_dec(pre.cached_refs), ..pre }
}

/// The state after a subscriber re-establishes a cached strong reference by
/// upgrading its weak reference.
pub open spec fn cache_added<T>(pre: TopicState<T>) -> TopicState<T> {
    TopicState { cached_refs: sat_inc(pre.cached_refs), ..pre }
}

/// The state after a subscriber handle is released: the slot loses one live
/// receiver and, if that subscriber held a cached strong reference, that
/// reference too.
pub open spec fn sub_dropped<T>(pre: TopicState<T>, was_cached: bool) -> TopicState<T> {
    TopicState {
        receivers: sat_dec(pre.receivers),
        cached_refs: if was_cached {
            sat_dec(pre.cached_refs)
        } else {
            pre.cached_refs
        },
        ..pre
    }
}

/// The subscriber can still reach a live topic. A subscriber holding a cached
/// strong reference keeps it only while someone *else* also owns the topic
/// (the registry, or another subscriber's cache); a cached reference that has
/// become the sole owner is released, the topic dies with it, and the
/// subsequent weak resolution fails. A subscriber without a cache succeeds
/// exactly when some strong owner remains to upgrade against.
pub open spec fn connected<T>(sub: Sub, s: Seq<TopicState<T>>) -> bool {
    if sub.is_cached() {
        resolves(s, sub.key(), sub.idx()) && (s[sub.idx()].registered || s[sub.idx()].cached_refs
            >= 2)
    } else {
        upgradable(s, sub.key(), sub.idx())
    }
}

/// Receives the latest messages from a topic of one bus.
///
/// A subscriber is a per-consumer cursor: it remembers which versions it has
/// already consumed (`last_seen_version`), holds a weak `(index, name)`
/// reference to its topic, and memoizes a cached strong reference (`cached`,
/// counted in the topic's `cached_refs`) so that resolving the topic does not
/// have to start from the weak reference on every call.
#[derive(Debug)]
pub struct Sub {
    /// Immutable copy of the topic's name, used for identity comparisons.
    pub topic_name: String,
    /// The slot of the owning bus that holds the topic's state.
    pub index: usize,
    /// The version value this subscriber has already consumed.
    pub last_seen_version: u64,
    /// Whether this subscriber holds a cached strong reference to its topic.
    pub cached: bool,
}

impl Sub {
    /// The name of the subscribed topic.
    pub open spec fn key(self) -> Seq<char> {
        self.topic_name@
    }

    /// The slot of the owning bus that holds the topic's state.
    pub open spec fn idx(self) -> int {
        self.index as int
    }

    /// The version value this subscriber has already consumed.
    pub open spec fn cursor(self) -> u64 {
        self.last_seen_version
    }

    /// Whether this subscriber currently holds a cached strong reference.
    pub open spec fn is_cached(self) -> bool {
        self.cached
    }

    /// Returns the name of the subscribed topic.
    pub fn topic_name(&self) -> (r: &str)
        ensures
            r@ == self.key(),
    {
        self.topic_name.as_str()
    }

    /// Resolves this subscriber's topic, maintaining the cached strong
    /// reference: a cache that has become the sole remaining owner is released
    /// first (destroying the topic), and only then is the weak reference
    /// tried afresh, so that a subscriber can never keep a removed topic
    /// alive forever and hide a real disconnection. Returns whether a live
    /// topic was reached; `false` means the subscriber is disconnected.
    pub fn get_or_refresh_topic<T: Clone>(&mut self, bus: &mut Bus<T>) -> (ok: bool)
        requires
            old(bus).wf(),
        ensures
            final(bus).wf(),
            final(self).key() == old(self).key(),
            final(self).idx() == old(self).idx(),
            final(self).cursor() == old(self).cursor(),
            ok == connected(*old(self), old(bus)@),
            ok ==> final(self).is_cached() && resolves(old(bus)@, old(self).key(), old(self).idx()),
            ok && old(self).is_cached() ==> final(bus)@ == old(bus)@ && *final(self) == *old(
                self,
            ),
            ok && !old(self).is_cached() ==> final(bus)@ == old(bus)@.update(
                old(self).idx(),
                cache_added(old(bus)@[old(self).idx()]),
            ),
            !ok ==> !final(self).is_cached(),
            !ok && old(self).is_cached() && resolves(old(bus)@, old(self).key(), old(self).idx())
                ==> final(bus)@ == old(bus)@.update(
                old(self).idx(),
                cache_released(old(bus)@[old(self).idx()]),
            ),
            !ok && !(old(self).is_cached() && resolves(old(bus)@, old(self).key(), old(self).idx()))
                ==> final(bus)@ == old(bus)@,
    {
        let resolvable = self.index < bus.channels.len() && bus.channels[self.index].name
            == self.topic_name;
        if self.cached {
            if resolvable {
                let still_registered = bus.channels[self.index].registered;
                let refs = bus.channels[self.index].cached_refs;
                if still_registered || refs >= 2 {
                    // Another owner remains: the cached reference stays valid.
                    return true;
                }
                // The cached reference is the sole remaining owner: release
                // it, which destroys the topic; the weak reference can no
                // longer be upgraded afterwards.
                bus.channels[self.index].cached_refs = refs.saturating_sub(1);
                self.cached = false;
                proof {
                    assert(bus@ =~= old(bus)@.update(
                        old(self).idx(),
                        cache_released(old(bus)@[old(self).idx()]),
                    ));
                }
                return false;
            }
            self.cached = false;
            return false;
        }
        // No cached reference: try to upgrade the weak reference afresh.
        if resolvable && (bus.channels[self.index].registered
            || bus.channels[self.index].cached_refs > 0) {
            let refs = bus.channels[self.index].cached_refs;
            bus.channels[self.index].cached_refs = refs.saturating_add(1);
            self.cached = true;
            proof {
                assert(bus@ =~= old(bus)@.update(
                    old(self).idx(),
                    cache_added(old(bus)@[old(self).idx()]),
                ));
            }
            true
        } else {
            false
        }
    }

    /// Attempts to receive a message without blocking.
    ///
    /// Succeeds, returning a copy of the current value and advancing the
    /// cursor to the live version, exactly when the live topic's version is
    /// strictly newer than the cursor (or the live version sits at the
    /// saturation plateau the cursor has not yet observed). Fails with an
    /// "empty" error when the version has not advanced, and with a
    /// "disconnected" error when the topic can no longer be resolved.
    pub fn try_get_message<T: Clone>(&mut self, bus: &mut Bus<T>) -> (r: Result<
        Option<T>,
        BusError,
    >)
        requires
            old(bus).wf(),
        ensures
            final(bus).wf(),
            final(self).key() == old(self).key(),
            final(self).idx() == old(self).idx(),
            !connected(*old(self), old(bus)@) ==> {
                &&& r == Err::<Option<T>, BusError>(disconnected_error())
                &&& final(self).cursor() == old(self).cursor()
                &&& !final(self).is_cached()
            },
            connected(*old(self), old(bus)@) && !version_is_new(
                old(bus)@[old(self).idx()].version.value,
                old(self).cursor(),
            ) ==> {
                &&& r == Err::<Option<T>, BusError>(empty_error())
                &&& final(self).cursor() == old(self).cursor()
                &&& final(self).is_cached()
            },
            connected(*old(self), old(bus)@) && version_is_new(
                old(bus)@[old(self).idx()].version.value,
                old(self).cursor(),
            ) ==> {
                &&& final(self).cursor() == old(bus)@[old(self).idx()].version.value
                &&& final(self).is_cached()
                &&& old(bus)@[old(self).idx()].slot is None ==> r == Ok::<Option<T>, BusError>(
                    None,
                )
                &&& old(bus)@[old(self).idx()].slot is Some ==> (r matches Ok(Some(m)) && cloned(
                    old(bus)@[old(self).idx()].slot->0,
                    m,
                ))
            },
            connected(*old(self), old(bus)@) && old(self).is_cached() ==> final(bus)@ == old(bus)@,
            connected(*old(self), old(bus)@) && !old(self).is_cached() ==> final(bus)@ == old(
                bus,
            )@.update(old(self).idx(), cache_added(old(bus)@[old(self).idx()])),
            !connected(*old(self), old(bus)@) && old(self).is_cached() && resolves(
                old(bus)@,
                old(self).key(),
                old(self).idx(),
            ) ==> final(bus)@ == old(bus)@.update(
                old(self).idx(),
                cache_released(old(bus)@[old(self).idx()]),
            ),
            !connected(*old(self), old(bus)@) && !(old(self).is_cached() && resolves(
                old(bus)@,
                old(self).key(),
                old(self).idx(),
            )) ==> final(bus)@ == old(bus)@,
    {
        if self.get_or_refresh_topic(bus) {
            let current = bus.channels[self.index].version.get();
            if current > self.last_seen_version || (current == u64::MAX && self.last_seen_version
                < u64::MAX) {
                self.last_seen_version = current;
                match &bus.channels[self.index].slot {
                    Some(message) => Ok(Some(message.clone())),
                    None => Ok(None),
                }
            } else {
                Err(BusError::message_queue_empty())
            }
        } else {
            Err(BusError::topic_disconnected())
        }
    }

    /// Attempts to receive a message without blocking, applying `transform`
    /// to it before returning. Cursor movement and the empty/disconnected
    /// failures are exactly as for [`Sub::try_get_message`].
    pub fn try_get_message_and_apply<T: Clone, R, F: FnOnce(&T) -> R>(
        &mut self,
        bus: &mut Bus<T>,
        transform: F,
    ) -> (r: Result<Option<R>, BusError>)
        requires
            old(bus).wf(),
            forall|t: &T| #[trigger] transform.requires((t,)),
        ensures
            final(bus).wf(),
            final(self).key() == old(self).key(),
            final(self).idx() == old(self).idx(),
            !connected(*old(self), old(bus)@) ==> {
                &&& r == Err::<Option<R>, BusError>(disconnected_error())
                &&& final(self).cursor() == old(self).cursor()
            },
            connected(*old(self), old(bus)@) && !version_is_new(
                old(bus)@[old(self).idx()].version.value,
                old(self).cursor(),
            ) ==> {
                &&& r == Err::<Option<R>, BusError>(empty_error())
                &&& final(self).cursor() == old(self).cursor()
            },
            connected(*old(self), old(bus)@) && version_is_new(
                old(bus)@[old(self).idx()].version.value,
                old(self).cursor(),
            ) ==> {
                &&& final(self).cursor() == old(bus)@[old(self).idx()].version.value
                &&& old(bus)@[old(self).idx()].slot is None ==> r == Ok::<Option<R>, BusError>(
                    None,
                )
                &&& old(bus)@[old(self).idx()].slot is Some ==> (r matches Ok(Some(y))
                    && exists|m: T|
                    cloned(old(bus)@[old(self).idx()].slot->0, m) && call_ensures(
                        transform,
                        (&m,),
                        y,
                    ))
            },
            connected(*old(self), old(bus)@) && old(self).is_cached() ==> final(bus)@ == old(bus)@,
            connected(*old(self), old(bus)@) && !old(self).is_cached() ==> final(bus)@ == old(
                bus,
            )@.update(old(self).idx(), cache_added(old(bus)@[old(self).idx()])),
            !connected(*old(self), old(bus)@) && old(self).is_cached() && resolves(
                old(bus)@,
                old(self).key(),
                old(self).idx(),
            ) ==> final(bus)@ == old(bus)@.update(
                old(self).idx(),
                cache_released(old(bus)@[old(self).idx()]),
            ),
            !connected(*old(self), old(bus)@) && !(old(self).is_cached() && resolves(
                old(bus)@,
                old(self).key(),
                old(self).idx(),
            )) ==> final(bus)@ == old(bus)@,
    {
        match self.try_get_message(bus) {
            Ok(Some(message)) => Ok(Some(transform(&message))),
            Ok(None) => Ok(None),
            Err(e) => Err(e),
        }
    }

    /// Returns the slot's current value without consulting or advancing the
    /// cursor. A peek never fails: on a topic that is gone it simply reports
    /// absence of a value.
    pub fn get_latest<T: Clone>(&self, bus: &Bus<T>) -> (r: Option<T>)
        ensures
            resolves(bus@, self.key(), self.idx()) && bus@[self.idx()].slot is None ==> r is None,
            resolves(bus@, self.key(), self.idx()) && bus@[self.idx()].slot is Some ==> (r matches
                Some(m) && cloned(bus@[self.idx()].slot->0, m)),
            !resolves(bus@, self.key(), self.idx()) ==> r is None,
    {
        if self.index < bus.channels.len() && bus.channels[self.index].name == self.topic_name {
            match &bus.channels[self.index].slot {
                Some(message) => Some(message.clone()),
                None => None,
            }
        } else {
            None
        }
    }

    /// Applies `transform` to the slot's current value without consulting or
    /// advancing the cursor; `None` when no value is available.
    pub fn get_latest_with<T: Clone, R, F: FnOnce(&T) -> R>(&self, bus: &Bus<T>, transform: F) -> (r:
        Option<R>)
        requires
            forall|t: &T| #[trigger] transform.requires((t,)),
        ensures
            resolves(bus@, self.key(), self.idx()) && bus@[self.idx()].slot is Some ==> (r matches
                Some(y) && call_ensures(transform, (&bus@[self.idx()].slot->0, ), y)),
            resolves(bus@, self.key(), self.idx()) && bus@[self.idx()].slot is None ==> r is None,
            !resolves(bus@, self.key(), self.idx()) ==> r is None,
    {
        if self.index < bus.channels.len() && bus.channels[self.index].name == self.topic_name {
            match &bus.channels[self.index].slot {
                Some(message) => Some(transform(message)),
                None => None,
            }
        } else {
            None
        }
    }

    /// True if a value is currently available to peek at.
    pub fn has_latest<T: Clone>(&self, bus: &Bus<T>) -> (r: bool)
        ensures
            r == (resolves(bus@, self.key(), self.idx()) && bus@[self.idx()].slot is Some),
    {
        if self.index < bus.channels.len() && bus.channels[self.index].name == self.topic_name {
            match &bus.channels[self.index].slot {
                Some(_) => true,
                None => false,
            }
        } else {
            false
        }
    }

    /// Releases this subscriber's handle: the topic loses one live receiver
    /// and, if this subscriber held a cached strong reference, that reference
    /// too. Dropping every subscriber of a topic this way drives its
    /// subscriber count to zero.
    pub fn unsubscribe<T: Clone>(self, bus: &mut Bus<T>)
        requires
            old(bus).wf(),
        ensures
            final(bus).wf(),
            resolves(old(bus)@, self.key(), self.idx()) ==> final(bus)@ == old(bus)@.update(
                self.idx(),
                sub_dropped(old(bus)@[self.idx()], self.is_cached()),
            ),
            !resolves(old(bus)@, self.key(), self.idx()) ==> final(bus)@ == old(bus)@,
    {
        if self.index < bus.channels.len() && bus.channels[self.index].name == self.topic_name {
            let receivers = bus.channels[self.index].receivers;
            bus.channels[self.index].receivers = receivers.saturating_sub(1);
            if self.cached {
                let refs = bus.channels[self.index].cached_refs;
                bus.channels[self.index].cached_refs = refs.saturating_sub(1);
            }
            proof {
                assert(bus@ =~= old(bus)@.update(
                    self.idx(),
                    sub_dropped(old(bus)@[self.idx()], self.is_cached()),
                ));
            }
        }
    }
}

impl PartialEq for Sub {
    /// Two subscribers are equal exactly when they name the same topic:
    /// identity is topic-scoped, not instance-scoped.
    fn eq(&self, other: &Sub) -> bool {
        self.topic_name == other.topic_name
    }
}

impl vstd::std_specs::cmp::PartialEqSpecImpl for Sub {
    open spec fn obeys_eq_spec() -> bool {
        true
    }

    open spec fn eq_spec(&self, other: &Sub) -> bool {
        self.key() == other.key()
    }
}

/// Removing a topic from the registry, then performing a non-blocking read on
/// a subscriber that holds no other strong reference to it, reports
/// "disconnected": with the registry's ownership gone, the subscriber's own
/// cached reference (if any) is the sole remaining owner, so the read
/// releases it and the topic can no longer be resolved.
/// [`Sub::try_get_message`] then returns exactly the disconnected error.
pub proof fn lemma_removed_topic_disconnects<T>(sub: Sub, s: Seq<TopicState<T>>)
    requires
        resolves(s, sub.key(), sub.idx()),
        !s[sub.idx()].registered,
        sub.is_cached() ==> s[sub.idx()].cached_refs <= 1,
        !sub.is_cached() ==> s[sub.idx()].cached_refs == 0,
    ensures
        !connected(sub, s),
{
}

/// Two subscribers obtained for the same topic name compare equal, and
/// subscribers of differently named topics compare unequal, whatever their
/// cursors or cached references hold.
pub proof fn lemma_subscriber_equality(a: Sub, b: Sub)
    ensures
        vstd::std_specs::cmp::PartialEqSpec::eq_spec(&a, &b) <==> a.key() == b.key(),
{
}

/// Outcome of one round of the blocking wait loop, decided from the result of
/// awaiting the change notification and a snapshot of the slot's value.
pub enum WaitOutcome<T> {
    /// A value is present: deliver this copy of it.
    Message(T),
    /// The notification fired but no value has been published yet: wait again.
    KeepWaiting,
    /// The topic's writer side is gone: the wait ends with no value.
    Disconnected,
}

/// Decides one round of the blocking wait loop.
///
/// `changed_ok` is whether awaiting the change notification succeeded (`false`
/// means the writer side was dropped), and `current` is the slot's value at
/// wake-up. The caller loops while the outcome is [`WaitOutcome::KeepWaiting`].
pub fn wait_step<T: Clone>(changed_ok: bool, current: &Option<T>) -> (r: WaitOutcome<T>)
    ensures
        !changed_ok ==> r is Disconnected,
        changed_ok && current is None ==> r is KeepWaiting,
        changed_ok && current is Some ==> (r matches WaitOutcome::Message(m) && cloned(
            current->0,
            m,
        )),
{
    if !changed_ok {
        WaitOutcome::Disconnected
    } else {
        match current {
            Some(message) => WaitOutcome::Message(message.clone()),
            None => WaitOutcome::KeepWaiting,
        }
    }
}

} // verus!
