//! Version bookkeeping of the broadcasting channel.
//!
//! Every value sent through the channel carries a version: the sender's count of sends
//! when it was sent. A receiver remembers the version it saw last and counts a value as
//! new only when its version is greater, so it gets each sent value at most once and
//! every value sent since its last receive is new to it.
use vstd::prelude::*;
use crate::triple::{Idx, TripleBuffer};

verus! {

/// A receiver that saw `current` reads a value of version `version`: the value is new
/// when its version is greater, and the receiver then remembers that version.
pub open spec fn observe_spec(version: u64, current: u64) -> (bool, u64) {
    if version > current {
        (true, version)
    } else {
        (false, current)
    }
}

/// Whether a value of version `version` is new to a receiver that saw `current`, and the
/// version the receiver remembers afterwards.
pub fn observe(version: u64, current: u64) -> (r: (bool, u64))
    ensures
        r == observe_spec(version, current),
{
    if version > current {
        (true, version)
    } else {
        (false, current)
    }
}

/// A sender's write: the sender's count of sends goes up by one, and the new count is
/// the version of the value written.
pub fn bump_version(current: u64) -> (r: u64)
    requires
        current < u64::MAX,
    ensures
        r == current + 1,
{
    current + 1
}

/// Reads the consumer's slot `consumer` of a channel's buffer for a receiver that saw
/// version `current`: the value, whether it is new, and the version the receiver
/// remembers afterwards.
pub fn read_versioned<'a, T>(buffer: &'a TripleBuffer<(T, u64)>, consumer: Idx, current: u64) -> (r: (&'a T, bool, u64))
    ensures
        *r.0 == buffer.element(consumer).0,
        (r.1, r.2) == observe_spec(buffer.element(consumer).1, current),
{
    let entry = buffer.get_unchecked(consumer);
    let (updated, seen) = observe(entry.1, current);
    (&entry.0, updated, seen)
}

/// A receiver counts each version as new at most once: after it observed a value, the
/// same value is not new again, and what it remembers never goes down.
pub proof fn law_observe_once(version: u64, current: u64)
    ensures
        observe_spec(version, current).1 >= current,
        observe_spec(version, current).1 >= version,
        !observe_spec(version, observe_spec(version, current).1).0,
{
}

/// A value sent after a receiver's last receive is new to it: the receiver remembers at
/// most the sender's count, and the next send carries a greater version.
pub proof fn law_send_is_new(sent: u64, seen: u64)
    requires
        seen <= sent,
        sent < u64::MAX,
    ensures
        observe_spec((sent + 1) as u64, seen).0,
        observe_spec((sent + 1) as u64, seen).1 == sent + 1,
{
}

/// What a receiver remembers never exceeds the sender's count: every version it reads
/// was given by a send, so it is at most that count.
pub proof fn law_seen_bounded(version: u64, seen: u64, sent: u64)
    requires
        version <= sent,
        seen <= sent,
    ensures
        observe_spec(version, seen).1 <= sent,
{
}

} // verus!
