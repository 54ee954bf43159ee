use vstd::prelude::*;

verus! {

/// Events drained from a bridge queue: the events that decoded, in arrival order, and
/// how many were lost, either dropped by the queue or not decodable.
#[derive(Debug, Clone, PartialEq, Eq)]
pub struct DrainedEvents<T> {
    /// The events that decoded, in the order the queue held them.
    pub events: Vec<T>,
    /// How many events were lost, saturating at `u64::MAX`.
    pub dropped: u64,
}

impl<T> Default for DrainedEvents<T> {
    fn default() -> (drained: Self)
        ensures
            drained.events@.len() == 0,
            drained.dropped == 0,
    {
        DrainedEvents { events: Vec::new(), dropped: 0 }
    }
}

/// The events that decoded, in order.
pub open spec fn decoded_events<T>(decoded: Seq<Option<T>>) -> Seq<T>
    decreases decoded.len(),
{
    if decoded.len() == 0 {
        Seq::empty()
    } else {
        let rest = decoded_events(decoded.drop_last());
        match decoded.last() {
            Some(event) => rest.push(event),
            None => rest,
        }
    }
}

/// How many events failed to decode.
pub open spec fn failed_count<T>(decoded: Seq<Option<T>>) -> nat
    decreases decoded.len(),
{
    if decoded.len() == 0 {
        0
    } else {
        failed_count(decoded.drop_last()) + if decoded.last() is None {
            1nat
        } else {
            0nat
        }
    }
}

/// `n` capped at `u64::MAX`.
pub open spec fn saturated(n: int) -> u64 {
    if n > u64::MAX {
        u64::MAX
    } else {
        n as u64
    }
}

impl<T> DrainedEvents<T> {
    /// The drained events of a queue that reported `dropped` lost events and whose
    /// entries decoded as `decoded` (`None` for an entry that did not decode): the
    /// decoded events in order, and the lost count raised by one for each entry that did
    /// not decode, saturating at `u64::MAX`.
    #[must_use]
    pub fn from_decoded(dropped: u64, decoded: Vec<Option<T>>) -> (drained: Self)
        ensures
            drained.events@ == decoded_events(decoded@),
            drained.dropped == saturated(dropped + failed_count(decoded@)),
            drained.events@ == decoded@.filter_map(|entry: Option<T>| entry),
            drained.dropped == saturated(
                dropped + decoded@.filter(|entry: Option<T>| entry is None).len(),
            ),
    {
        let ghost all = decoded@;
        let mut lost = dropped;
        let mut events: Vec<T> = Vec::new();
        let mut index: usize = 0;
        let total = decoded.len();
        for value in it: decoded.into_iter()
            invariant
                it.seq() == all,
                all.len() == total,
                index == it.index(),
                events@ == decoded_events(all.take(index as int)),
                lost == saturated(dropped + failed_count(all.take(index as int))),
        {
            proof {
                assert(all.take(index + 1).drop_last() =~= all.take(index as int));
            }
            match value {
                Some(event) => events.push(event),
                None => lost = lost.saturating_add(1),
            }
            index = index + 1;
        }
        proof {
            assert(all.take(all.len() as int) =~= all);
            lemma_drained_events_are_the_decoded_entries(all);
        }
        DrainedEvents { events, dropped: lost }
    }
}

/// Losing decode failures never loses events: the decoded events and the failures
/// together account for every entry.
pub proof fn lemma_drained_accounts_for_every_entry<T>(decoded: Seq<Option<T>>)
    ensures
        decoded_events(decoded).len() + failed_count(decoded) == decoded.len(),
    decreases decoded.len(),
{
    if decoded.len() > 0 {
        lemma_drained_accounts_for_every_entry(decoded.drop_last());
    }
}

/// The drained events are exactly the entries that decoded, in the order the queue
/// held them, and the lost count grows by exactly the entries that did not decode; so a
/// queue whose entries all decoded keeps every one of them and loses nothing more.
pub proof fn lemma_drained_events_are_the_decoded_entries<T>(decoded: Seq<Option<T>>)
    ensures
        decoded_events(decoded) == decoded.filter_map(|entry: Option<T>| entry),
        failed_count(decoded) == decoded.filter(|entry: Option<T>| entry is None).len(),
        (forall|i: int| 0 <= i < decoded.len() ==> #[trigger] decoded[i] is Some) ==> (
        decoded_events(decoded).len() == decoded.len() && failed_count(decoded) == 0),
    decreases decoded.len(),
{
    if decoded.len() > 0 {
        let rest = decoded.drop_last();
        lemma_drained_events_are_the_decoded_entries(rest);
        assert(decoded == rest.push(decoded.last()));
        rest.lemma_filter_push(decoded.last(), |entry: Option<T>| entry is None);
        if forall|i: int| 0 <= i < decoded.len() ==> #[trigger] decoded[i] is Some {
            assert forall|i: int| 0 <= i < rest.len() implies #[trigger] rest[i] is Some by {
                assert(decoded[i] is Some);
            }
            assert(decoded[decoded.len() - 1] is Some);
        }
        match decoded.last() {
            Some(event) => {
                assert(rest.filter_map(|entry: Option<T>| entry).push(event) =~= rest.filter_map(
                    |entry: Option<T>| entry,
                ) + seq![event]);
            },
            None => {},
        }
    }
}

} // verus!
