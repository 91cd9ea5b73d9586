use vstd::prelude::*;

verus! {

/// Saturating successor of a version value: versions advance by one until they
/// reach `u64::MAX` and then stay there, so an old version number can never
/// reappear as "new" through wraparound.
pub open spec fn next_version(v: u64) -> u64 {
    if v < u64::MAX {
        (v + 1) as u64
    } else {
        u64::MAX
    }
}

/// A cursor at `last_seen` considers `current` fresh when the live version has
/// advanced past the cursor, or when the live version sits at the saturation
/// plateau that the cursor has not yet observed.
pub open spec fn version_is_new(current: u64, last_seen: u64) -> bool {
    current > last_seen || (current == u64::MAX && last_seen < u64::MAX)
}

/// A monotonic counter that saturates at `u64::MAX` instead of wrapping.
///
/// Each topic embeds one of these; it is what lets a subscriber distinguish
/// "new value since I last looked" from "same value, already seen" without
/// comparing message contents.
#[derive(Debug, Clone, Copy, PartialEq, Eq, Structural)]
pub struct VersionCounter {
    /// The current version value.
    pub value: u64,
}

impl VersionCounter {
    /// A counter starting at zero.
    pub fn new() -> (c: Self)
        ensures
            c.value == 0,
    {
        VersionCounter { value: 0 }
    }

    /// The current value.
    pub fn get(&self) -> (v: u64)
        ensures
            v == self.value,
    {
        self.value
    }

    /// Overwrites the current value.
    pub fn set(&mut self, v: u64)
        ensures
            final(self).value == v,
    {
        self.value = v;
    }

    /// Advances the counter by one, unless it is already at `u64::MAX`, in
    /// which case it is left unchanged.
    pub fn increment(&mut self)
        ensures
            final(self).value == next_version(old(self).value),
    {
        if self.value < u64::MAX {
            self.value = self.value + 1;
        }
    }
}

/// Advancing any version below the maximum increases it by exactly one, and
/// advancing the maximum leaves it unchanged.
pub proof fn lemma_version_advance(v: u64)
    ensures
        v < u64::MAX ==> next_version(v) == v + 1,
        next_version(u64::MAX) == u64::MAX,
{
}

/// A subscriber that captures the current version at subscription time does
/// not consider that same version new: a non-blocking read before any further
/// publish reports "empty", never a value.
pub proof fn lemma_fresh_cursor_sees_nothing(v: u64)
    ensures
        !version_is_new(v, v),
{
}

/// A cursor still below the saturation plateau receives exactly one more
/// delivery once the live version reaches `u64::MAX`: the plateau is new for
/// such a cursor, and after the cursor advances to the plateau no further
/// publish can make the version look new again.
pub proof fn lemma_saturation_plateau(last_seen: u64)
    requires
        last_seen < u64::MAX,
    ensures
        version_is_new(u64::MAX, last_seen),
        !version_is_new(next_version(u64::MAX), u64::MAX),
{
}

/// Versions never decrease under publishing.
pub proof fn lemma_version_monotonic(v: u64)
    ensures
        next_version(v) >= v,
{
}

/// A successful non-blocking read only ever moves the cursor forward: a
/// version that passes the freshness test is strictly greater than the
/// cursor, so a subscriber never observes an already-consumed version as
/// "new" again.
pub proof fn lemma_cursor_only_moves_forward(current: u64, last_seen: u64)
    requires
        version_is_new(current, last_seen),
    ensures
        current > last_seen,
{
}

} // verus!
