//! Short histories kept by the oracle: the recent activity log and the
//! per-asset window of prices behind the time-weighted average price.

use vstd::prelude::*;
use super::math::{fits_i128, trunc_div};
use super::types::RecentEvent;

verus! {

/// Number of entries the activity log keeps.
pub const MAX_RECENT_EVENTS: usize = 5;

/// Number of prices in the time-weighted average window.
pub const TWAP_WINDOW: usize = 10;

/// The activity log after recording `e`: newest first, and the oldest entry
/// dropped when the log grows past `MAX_RECENT_EVENTS`.
pub open spec fn logged(events: Seq<RecentEvent>, e: RecentEvent) -> Seq<RecentEvent> {
    let added = seq![e] + events;
    if added.len() > MAX_RECENT_EVENTS {
        added.drop_last()
    } else {
        added
    }
}

/// Records `e` at the front of the activity log.
pub fn log_event(events: &mut Vec<RecentEvent>, e: RecentEvent)
    ensures
        final(events)@ == logged(old(events)@, e),
{
    let ghost e0 = e;
    events.insert(0, e);
    assert(events@ =~= seq![e0] + old(events)@);
    if events.len() > MAX_RECENT_EVENTS {
        events.pop();
    }
}

/// The first `n` entries of the log (all of them when it is shorter).
pub fn last_n_events(events: &Vec<RecentEvent>, n: u32) -> (r: Vec<RecentEvent>)
    ensures
        r@ == events@.take(if n as int <= events@.len() { n as int } else { events@.len() as int }),
{
    let limit: usize = if (n as usize) <= events.len() {
        n as usize
    } else {
        events.len()
    };
    let mut r: Vec<RecentEvent> = Vec::new();
    let mut i: usize = 0;
    while i < limit
        invariant
            limit <= events@.len(),
            limit as int == (if n as int <= events@.len() { n as int } else { events@.len() as int }),
            i <= limit,
            r@ =~= events@.take(i as int),
        decreases limit - i,
    {
        r.push(events[i].clone());
        i = i + 1;
    }
    r
}

/// The price window after recording `(timestamp, price)`: the oldest entry is
/// dropped when the window grows past `TWAP_WINDOW`.
pub open spec fn twap_pushed(window: Seq<(u64, i128)>, timestamp: u64, price: i128) -> Seq<
    (u64, i128),
> {
    let added = window.push((timestamp, price));
    if added.len() > TWAP_WINDOW {
        added.drop_first()
    } else {
        added
    }
}

/// Records a price in the averaging window.
pub fn push_twap(window: &mut Vec<(u64, i128)>, timestamp: u64, price: i128)
    ensures
        final(window)@ == twap_pushed(old(window)@, timestamp, price),
{
    window.push((timestamp, price));
    if window.len() > TWAP_WINDOW {
        let ghost added = window@;
        window.remove(0);
        assert(window@ =~= added.drop_first());
    }
}

/// A copy of a price window.
pub fn copy_window(window: &Vec<(u64, i128)>) -> (r: Vec<(u64, i128)>)
    ensures
        r@ == window@,
{
    let mut r: Vec<(u64, i128)> = Vec::new();
    let mut i: usize = 0;
    while i < window.len()
        invariant
            i <= window@.len(),
            r@ =~= window@.take(i as int),
        decreases window@.len() - i,
    {
        r.push(window[i]);
        i = i + 1;
    }
    assert(window@.take(window@.len() as int) =~= window@);
    r
}

/// Sum of the prices of a window.
pub open spec fn price_sum(window: Seq<(u64, i128)>) -> int
    decreases window.len(),
{
    if window.len() == 0 {
        0
    } else {
        price_sum(window.drop_last()) + window.last().1
    }
}

/// Every running sum of the window fits in an `i128`.
pub open spec fn running_sums_fit(window: Seq<(u64, i128)>) -> bool {
    forall|k: int| 0 <= k <= window.len() ==> fits_i128(#[trigger] price_sum(window.take(k)))
}

/// The average price of a window (rounded toward zero), `None` when empty.
pub open spec fn average_price(window: Seq<(u64, i128)>) -> Option<int> {
    if window.len() == 0 {
        None
    } else {
        Some(trunc_div(price_sum(window), window.len() as int))
    }
}

/// The average of the prices in a window, rounded toward zero.
pub fn twap_average(window: &Vec<(u64, i128)>) -> (r: Option<i128>)
    requires
        running_sums_fit(window@),
    ensures
        r is Some <==> average_price(window@) is Some,
        r matches Some(v) ==> average_price(window@) == Some(v as int),
{
    let len = window.len();
    if len == 0 {
        return None;
    }
    let mut sum: i128 = 0;
    let mut i: usize = 0;
    while i < len
        invariant
            len == window@.len(),
            i <= len,
            running_sums_fit(window@),
            sum as int == price_sum(window@.take(i as int)),
        decreases len - i,
    {
        proof {
            assert(window@.take(i + 1).drop_last() =~= window@.take(i as int));
            assert(fits_i128(price_sum(window@.take(i + 1))));
        }
        sum = sum + window[i].1;
        i = i + 1;
    }
    assert(window@.take(len as int) =~= window@);
    let l: i128 = len as i128;
    Some(sum / l)
}

} // verus!
