//! Properties of the oracle that relate several operations, or that an
//! operation keeps whatever state it starts from.

use vstd::prelude::*;
use vstd::relations::sorted_by;
use vstd::seq_lib::group_to_multiset_ensures;
use crate::keyed::{not_named, has_str, distinct_names};
use super::admin::{MAX_ADMINS, two_admin_check};
use super::governance::{execute_rejection, execute_effect, mark_executed};
use super::math::{sat_add_u64, stale, exceeds_max_age, percentage_change_bps, abs, fits_i128, trunc_div};
use super::update::{
    update_rejection, updated_view, updated_entries, updated_median, has_submission, bypass_active,
    old_price_of, max_deviation, index_fold, index_price,
};
use super::buffer::{median, ranked, weighted_indices, rank_order, lemma_rank_order_total, MAX_MEDIAN_ENTRIES};
use super::history::{twap_pushed, TWAP_WINDOW, MAX_RECENT_EVENTS};
use super::prices::{read_price, removed_view, logged_view};
use super::staking::{stake_of, slashed_view, slash_rejection};
use super::state::{OracleView, EventView, PriceOracle, ADMIN_TIMELOCK};
use super::types::{Error, Ledger, PriceData, AdminAction, AssetWeight};

verus! {

/// Rolling a price floor back right after setting it restores the floor the
/// asset had before.
pub proof fn law_price_floor_rollback(
    v: OracleView,
    admin: Seq<char>,
    asset: Seq<char>,
    price_floor: i128,
)
    requires
        v.set_price_floor_outcome(admin, asset, price_floor) is Ok,
        v.price_floors.contains_key(asset),
    ensures
        ({
            let w = v.set_price_floor_outcome(admin, asset, price_floor)->Ok_0;
            &&& w.rollback_price_floor_outcome(admin, asset) is Ok
            &&& w.rollback_price_floor_outcome(admin, asset)->Ok_0.price_floors == v.price_floors
        }),
{
    let w = v.set_price_floor_outcome(admin, asset, price_floor)->Ok_0;
    assert(w.price_floors.insert(asset, w.prev_price_floors[asset]) =~= v.price_floors);
}

/// Rolling price bounds back right after setting them restores the bounds
/// the asset had before.
pub proof fn law_price_bounds_rollback(
    v: OracleView,
    admin: Seq<char>,
    asset: Seq<char>,
    min_price: i128,
    max_price: i128,
)
    requires
        v.set_price_bounds_outcome(admin, asset, min_price, max_price) is Ok,
        v.price_bounds.contains_key(asset),
    ensures
        ({
            let w = v.set_price_bounds_outcome(admin, asset, min_price, max_price)->Ok_0;
            &&& w.rollback_price_bounds_outcome(admin, asset) is Ok
            &&& w.rollback_price_bounds_outcome(admin, asset)->Ok_0.price_bounds == v.price_bounds
        }),
{
    let w = v.set_price_bounds_outcome(admin, asset, min_price, max_price)->Ok_0;
    assert(w.price_bounds.insert(asset, w.prev_price_bounds[asset]) =~= v.price_bounds);
}

/// Rolling the maximum deviation back right after setting it restores the
/// value in force before.
pub proof fn law_max_deviation_rollback(v: OracleView, admin: Seq<char>, max_deviation_bps: i128)
    requires
        v.set_max_deviation_outcome(admin, max_deviation_bps) is Ok,
        v.max_deviation_bps is Some,
    ensures
        ({
            let w = v.set_max_deviation_outcome(admin, max_deviation_bps)->Ok_0;
            &&& w.rollback_max_deviation_outcome(admin) is Ok
            &&& w.rollback_max_deviation_outcome(admin)->Ok_0.max_deviation_bps
                == v.max_deviation_bps
        }),
{
}

/// Toggling the pause twice with the same signatures restores the state.
pub proof fn law_toggle_pause_twice(v: OracleView, admin1: Seq<char>, admin2: Seq<char>)
    requires
        v.toggle_pause_outcome(admin1, admin2) is Ok,
    ensures
        ({
            let w = v.toggle_pause_outcome(admin1, admin2)->Ok_0.1;
            &&& v.toggle_pause_outcome(admin1, admin2)->Ok_0.0 == !v.paused
            &&& w.toggle_pause_outcome(admin1, admin2) is Ok
            &&& w.toggle_pause_outcome(admin1, admin2)->Ok_0.1 == v
        }),
{
    let w = v.toggle_pause_outcome(admin1, admin2)->Ok_0.1;
    assert(w.toggle_pause_outcome(admin1, admin2)->Ok_0.1 =~= v);
}

/// Registering an admin never takes the number of admins past `MAX_ADMINS`.
pub proof fn law_register_admin_within_limit(
    v: OracleView,
    admin1: Seq<char>,
    admin2: Seq<char>,
    new_admin: String,
)
    ensures
        v.register_admin_outcome(admin1, admin2, new_admin) matches Ok(w) ==> w.admins.len()
            <= MAX_ADMINS,
{
}

/// Removing an admin always leaves at least one admin.
pub proof fn law_remove_admin_keeps_an_admin(
    v: OracleView,
    admin1: Seq<char>,
    admin2: Seq<char>,
    admin_to_remove: Seq<char>,
)
    ensures
        v.remove_admin_outcome(admin1, admin2, admin_to_remove) matches Ok(w) ==> w.admins.len()
            >= 1,
{
    if v.remove_admin_outcome(admin1, admin2, admin_to_remove) is Ok {
        let keep = if admin1 != admin_to_remove {
            admin1
        } else {
            admin2
        };
        assert(v.is_admin(keep));
        let i = choose|i: int| 0 <= i < v.admins.len() && v.admins[i]@ == keep;
        v.admins.lemma_filter_contains(not_named(admin_to_remove), i);
    }
}

/// Once ownership is renounced no address is an admin and no transfer is
/// pending, so every admin-gated operation fails from then on.
pub proof fn law_renounce_locks_out(
    v: OracleView,
    admin: Seq<char>,
    a: Seq<char>,
    b: Seq<char>,
    need_init: bool,
    check_frozen: bool,
)
    requires
        v.renounce_outcome(admin) is Ok,
    ensures
        ({
            let w = v.renounce_outcome(admin)->Ok_0;
            &&& w.gate(Some(a), need_init, check_frozen) is Some
            &&& two_admin_check(w, a, b) is Some
            &&& w.pending_admin is None
        }),
{
}

/// A price written by `set_price` is stored with the write's time, and a
/// read at that time gives it back, unless reads are halted, the stored
/// entry has no time to live, or the clock is at its maximum.
pub proof fn law_read_after_set_price(
    v: OracleView,
    ledger: Ledger,
    asset: String,
    val: i128,
    ttl: u64,
)
    requires
        v.set_price_outcome(ledger, asset, val, ttl) is Ok,
    ensures
        ({
            let w = v.set_price_outcome(ledger, asset, val, ttl)->Ok_0.1;
            let pd = w.verified_prices[asset@];
            &&& w.verified_prices.contains_key(asset@)
            &&& pd.price == val
            &&& pd.timestamp == ledger.timestamp
            &&& !v.halted && pd.ttl > 0 && ledger.timestamp < u64::MAX ==> read_price(
                w,
                ledger.timestamp,
                asset@,
                true,
            ) == Ok::<PriceData, Error>(pd)
        }),
{
}

/// After an asset is removed, reading its price finds nothing.
pub proof fn law_removed_asset_not_found(v: OracleView, asset: Seq<char>, now: u64, verified: bool)
    requires
        !v.halted,
    ensures
        read_price(removed_view(v, asset), now, asset, verified) == Err::<PriceData, Error>(
            Error::AssetNotFound,
        ),
{
}

/// Unstaking what was just staked restores the relayer's stake.
pub proof fn law_stake_unstake_round_trip(
    v: OracleView,
    ledger: Ledger,
    relayer: String,
    amount: i128,
)
    requires
        v.stake_outcome(ledger, relayer, amount) is Ok,
        stake_of(v, relayer@) >= 0,
        stake_of(v, relayer@) + amount <= i128::MAX,
    ensures
        ({
            let w = v.stake_outcome(ledger, relayer, amount)->Ok_0.1;
            &&& stake_of(w, relayer@) == stake_of(v, relayer@) + amount
            &&& w.unstake_outcome(ledger, relayer, amount) is Ok
            &&& stake_of(w.unstake_outcome(ledger, relayer, amount)->Ok_0.1, relayer@) == stake_of(
                v,
                relayer@,
            )
        }),
{
}

/// A slash takes exactly the slashed amount from the relayer, never leaves
/// a negative stake, and touches no other relayer's stake.
pub proof fn law_slash_exact(v: OracleView, bad_relayer: Seq<char>, amount: i128, other: Seq<char>)
    requires
        slash_rejection(v, bad_relayer, amount) is None,
        stake_of(v, bad_relayer) >= 0,
    ensures
        stake_of(slashed_view(v, bad_relayer, amount), bad_relayer) == stake_of(v, bad_relayer)
            - amount,
        stake_of(slashed_view(v, bad_relayer, amount), bad_relayer) >= 0,
        other != bad_relayer ==> stake_of(slashed_view(v, bad_relayer, amount), other) == stake_of(
            v,
            other,
        ),
{
}

/// The activity log keeps at most `MAX_RECENT_EVENTS` entries, newest first:
/// a new entry goes in front and the others keep their order.
pub proof fn law_event_log_newest_first(events: Seq<EventView>, e: EventView)
    requires
        events.len() <= MAX_RECENT_EVENTS,
    ensures
        logged_view(events, e).len() <= MAX_RECENT_EVENTS,
        logged_view(events, e)[0] == e,
        forall|i: int|
            1 <= i < logged_view(events, e).len() ==> #[trigger] logged_view(events, e)[i]
                == events[i - 1],
{
}

/// The averaging window keeps at most `TWAP_WINDOW` prices and ends with
/// the newest one.
pub proof fn law_twap_window_bounded(window: Seq<(u64, i128)>, timestamp: u64, price: i128)
    requires
        window.len() <= TWAP_WINDOW,
    ensures
        twap_pushed(window, timestamp, price).len() <= TWAP_WINDOW,
        twap_pushed(window, timestamp, price).len() > 0,
        twap_pushed(window, timestamp, price).last() == (timestamp, price),
{
}

/// The median of a non-empty list lies between two of its elements: it is
/// at least the smallest and at most the largest.
pub proof fn law_median_within_range(s: Seq<int>)
    requires
        s.len() > 0,
    ensures
        exists|i: int| 0 <= i < s.len() && s[i] <= median(s),
        exists|j: int| 0 <= j < s.len() && median(s) <= s[j],
{
    broadcast use group_to_multiset_ensures;

    let t = s.sort();
    let leq = |x: int, y: int| x <= y;
    s.lemma_sort_ensures();
    assert(t.to_multiset().len() == s.to_multiset().len());
    assert(t.len() == s.len());
    assert(sorted_by(t, leq));
    let n = t.len();
    assert forall|a: int, b: int| 0 <= a <= b < n implies t[a] <= t[b] by {
        if a < b {
            assert(leq(t[a], t[b]));
        }
    }
    assert(t.contains(t[0]));
    assert(t.contains(t[n - 1]));
    assert(t.to_multiset().count(t[0]) > 0);
    assert(t.to_multiset().count(t[n - 1]) > 0);
    assert(s.to_multiset().count(t[0]) > 0);
    assert(s.to_multiset().count(t[n - 1]) > 0);
    assert(s.contains(t[0]));
    assert(s.contains(t[n - 1]));
}

/// When a buffer is cut down to `MAX_MEDIAN_ENTRIES` submissions, every kept
/// submission weighs at least as much as every dropped one.
pub proof fn law_truncation_keeps_heaviest(weights: Seq<u32>, i: int, j: int)
    requires
        0 <= i < MAX_MEDIAN_ENTRIES <= j < weights.len(),
    ensures
        ranked(weights)[i].1 >= ranked(weights)[j].1,
{
    broadcast use group_to_multiset_ensures;

    lemma_rank_order_total();
    weighted_indices(weights).lemma_sort_by_ensures(rank_order());
    assert(ranked(weights).to_multiset().len() == weighted_indices(weights).to_multiset().len());
    assert(ranked(weights).len() == weights.len());
    assert(sorted_by(ranked(weights), rank_order()));
    assert(rank_order()(ranked(weights)[i], ranked(weights)[j]));
}


/// A destroyed contract can never be used again. Every admin or state check
/// of a destroyed contract fails with `ContractDestroyed`. Destruction leaves
/// no admin and no tracked asset behind, so the multi-signature operations
/// (which do not look at the destroyed flag) still fail, with their own
/// errors.
pub proof fn law_destroyed_is_final(
    v: OracleView,
    u: OracleView,
    a: Option<Seq<char>>,
    need_init: bool,
    check_frozen: bool,
    admin1: Seq<char>,
    admin2: Seq<char>,
    new_admin: String,
    asset: String,
    price: i128,
    ledger: Ledger,
    ttl: u64,
)
    requires
        v.destroyed,
    ensures
        v.gate(a, need_init, check_frozen) == Some(Error::ContractDestroyed),
        v.renounce_outcome(admin1) == Err::<OracleView, Error>(Error::ContractDestroyed),
        v.transfer_admin_outcome(ledger.timestamp, admin1, new_admin) == Err::<OracleView, Error>(
            Error::ContractDestroyed,
        ),
        v.accept_admin_outcome(ledger.timestamp, new_admin) == Err::<OracleView, Error>(
            Error::ContractDestroyed,
        ),
        v.set_price_outcome(ledger, asset, price, ttl) is Err,
        v.set_price_floor_outcome(admin1, asset@, price) is Err,
        v.set_price_bounds_outcome(admin1, asset@, price, price) is Err,
        v.set_max_deviation_outcome(admin1, price) is Err,
        v.stake_outcome(ledger, new_admin, price) is Err,
        v.unstake_outcome(ledger, new_admin, price) is Err,
        update_rejection(v, ledger, admin1, asset@, price) == Some(Error::ContractDestroyed),
        PriceOracle::destroyed_view(u).destroyed,
        PriceOracle::destroyed_view(u).admins.len() == 0,
        PriceOracle::destroyed_view(u).base_currency_pairs.len() == 0,
        PriceOracle::destroyed_view(u).toggle_pause_outcome(admin1, admin2) is Err,
        PriceOracle::destroyed_view(u).register_admin_outcome(admin1, admin2, new_admin) is Err,
        PriceOracle::destroyed_view(u).remove_admin_outcome(admin1, admin2, new_admin@) is Err,
{
}

/// A provider submits at most once per asset and ledger: after an accepted
/// update whose submission the buffer kept, a second update by the same
/// provider in the same ledger is refused.
pub proof fn law_one_submission_per_ledger(
    v: OracleView,
    ledger: Ledger,
    source: String,
    asset: Seq<char>,
    price: i128,
    confidence_score: u32,
    ttl: u64,
    again: i128,
)
    requires
        update_rejection(v, ledger, source@, asset, price) is None,
        updated_median(v, ledger, source, asset, price) > 0,
        has_submission(updated_entries(v, ledger, source, asset, price), source@),
    ensures
        update_rejection(
            updated_view(v, ledger, source, asset, price, confidence_score, ttl),
            ledger,
            source@,
            asset,
            again,
        ) == (if again <= 0 {
            Some(Error::InvalidPrice)
        } else {
            Some(Error::AlreadyInitialized)
        }),
{
}

/// A proposal runs at most once: after it is executed it is marked executed,
/// and every later execution of it is refused.
pub proof fn law_execute_once(v: OracleView, ledger: Ledger, executor: Seq<char>, action_id: u64, other: Seq<char>)
    requires
        execute_rejection(v, executor, action_id) is None,
        execute_effect(v, ledger, action_id) is Ok,
    ensures
        ({
            let w = mark_executed(execute_effect(v, ledger, action_id)->Ok_0.1, ledger, action_id);
            &&& w.proposals[action_id as int].0.executed
            &&& execute_rejection(w, other, action_id) is Some
            &&& w.gate(Some(other), false, true) is None ==> execute_rejection(w, other, action_id)
                == Some(Error::ActionAlreadyExecuted)
        }),
{
}

/// An admin handover completes only for the named address and only once the
/// timelock has passed; it then leaves that address as the only admin, and
/// the transfer cannot be accepted a second time.
pub proof fn law_admin_handover(
    v: OracleView,
    started: u64,
    current_admin: Seq<char>,
    new_admin: String,
    now: u64,
    caller: String,
    later: u64,
    again: String,
)
    requires
        v.transfer_admin_outcome(started, current_admin, new_admin) is Ok,
    ensures
        ({
            let w = v.transfer_admin_outcome(started, current_admin, new_admin)->Ok_0;
            &&& caller@ != new_admin@ ==> w.accept_admin_outcome(now, caller) == Err::<
                OracleView,
                Error,
            >(Error::NotPendingAdmin)
            &&& caller@ == new_admin@ && now < sat_add_u64(started, ADMIN_TIMELOCK)
                ==> w.accept_admin_outcome(now, caller) == Err::<OracleView, Error>(
                Error::AdminTimelockNotExpired,
            )
            &&& caller@ == new_admin@ && now >= sat_add_u64(started, ADMIN_TIMELOCK) ==> ({
                let x = w.accept_admin_outcome(now, caller);
                &&& x is Ok
                &&& x->Ok_0.admins == seq![caller]
                &&& x->Ok_0.accept_admin_outcome(later, again) == Err::<OracleView, Error>(
                    Error::PendingAdminNotFound,
                )
            })
        }),
{
}

proof fn lemma_filter_out_distinct(s: Seq<String>, x: Seq<char>)
    requires
        distinct_names(s),
    ensures
        s.filter(not_named(x)).len() == s.len() - (if has_str(s, x) {
            1int
        } else {
            0int
        }),
    decreases s.len(),
{
    reveal_with_fuel(Seq::<_>::filter, 1);
    if s.len() > 0 {
        let t = s.drop_last();
        let n = s.len() - 1;
        assert forall|i: int, j: int| 0 <= i < j < t.len() implies t[i]@ != t[j]@ by {
            assert(t[i] == s[i] && t[j] == s[j]);
        }
        lemma_filter_out_distinct(t, x);
        if s[n]@ == x {
            if has_str(t, x) {
                let j = choose|j: int| 0 <= j < t.len() && t[j]@ == x;
                assert(s[j]@ == s[n]@);
            }
            assert(has_str(s, x));
        } else {
            if has_str(s, x) {
                let j = choose|j: int| 0 <= j < s.len() && s[j]@ == x;
                assert(t[j]@ == x);
            }
            if has_str(t, x) {
                let j = choose|j: int| 0 <= j < t.len() && t[j]@ == x;
                assert(s[j]@ == x);
            }
        }
    }
}

/// When the admins are distinct, removing an admin takes exactly that
/// address out: the count falls by one and it is no longer an admin.
pub proof fn law_remove_admin_count(
    v: OracleView,
    admin1: Seq<char>,
    admin2: Seq<char>,
    admin_to_remove: Seq<char>,
)
    requires
        distinct_names(v.admins),
        v.remove_admin_outcome(admin1, admin2, admin_to_remove) is Ok,
    ensures
        ({
            let w = v.remove_admin_outcome(admin1, admin2, admin_to_remove)->Ok_0;
            &&& w.admins.len() == v.admins.len() - 1
            &&& !w.is_admin(admin_to_remove)
        }),
{
    let w = v.remove_admin_outcome(admin1, admin2, admin_to_remove)->Ok_0;
    lemma_filter_out_distinct(v.admins, admin_to_remove);
    if w.is_admin(admin_to_remove) {
        let j = choose|j: int| 0 <= j < w.admins.len() && w.admins[j]@ == admin_to_remove;
        v.admins.lemma_filter_pred(not_named(admin_to_remove), j);
    }
}


/// Without an active safety bypass, an accepted relayer update respects the
/// asset's floor and bounds, and moves the price by at most the maximum
/// deviation; a price below the floor is never accepted.
pub proof fn law_update_respects_limits(
    v: OracleView,
    ledger: Ledger,
    source: Seq<char>,
    asset: Seq<char>,
    price: i128,
)
    requires
        !bypass_active(v, ledger.timestamp),
    ensures
        update_rejection(v, ledger, source, asset, price) is None ==> {
            &&& price > 0
            &&& v.price_floors.contains_key(asset) ==> price >= v.price_floors[asset]
            &&& v.price_bounds.contains_key(asset) ==> v.price_bounds[asset].min_price <= price
                <= v.price_bounds[asset].max_price
            &&& old_price_of(v, asset) > 0 && percentage_change_bps(
                old_price_of(v, asset) as int,
                price as int,
            ) is Some ==> abs(
                percentage_change_bps(old_price_of(v, asset) as int, price as int).unwrap(),
            ) <= max_deviation(v)
        },
        v.price_floors.contains_key(asset) && price < v.price_floors[asset] ==> update_rejection(
            v,
            ledger,
            source,
            asset,
            price,
        ) is Some,
{
}

/// The verified price a component of a basket is read at.
pub open spec fn component_price(v: OracleView, now: u64, c: AssetWeight) -> int {
    match read_price(v, now, c.asset@, true) {
        Ok(pd) => pd.price as int,
        Err(_) => 0,
    }
}

/// The sum of price times weight over a basket.
pub open spec fn weighted_total(v: OracleView, now: u64, cs: Seq<AssetWeight>) -> int
    decreases cs.len(),
{
    if cs.len() == 0 {
        0
    } else {
        weighted_total(v, now, cs.drop_last()) + component_price(v, now, cs.last())
            * cs.last().weight
    }
}

/// The sum of the weights of a basket.
pub open spec fn weight_total(cs: Seq<AssetWeight>) -> int
    decreases cs.len(),
{
    if cs.len() == 0 {
        0
    } else {
        weight_total(cs.drop_last()) + cs.last().weight
    }
}

/// Every component of the basket is tracked, has a positive weight and a
/// readable verified price, and every running sum of price times weight
/// fits an `i128`.
pub open spec fn basket_readable(v: OracleView, now: u64, cs: Seq<AssetWeight>) -> bool {
    &&& forall|j: int|
        #![trigger cs[j]]
        0 <= j < cs.len() ==> {
            &&& v.tracked_assets.contains(cs[j].asset@)
            &&& cs[j].weight > 0
            &&& read_price(v, now, cs[j].asset@, true) is Ok
            &&& fits_i128(component_price(v, now, cs[j]) * cs[j].weight)
        }
    &&& forall|k: int| 0 <= k <= cs.len() ==> fits_i128(#[trigger] weighted_total(v, now, cs.take(k)))
}

proof fn lemma_weight_total_positive(cs: Seq<AssetWeight>)
    requires
        forall|j: int| 0 <= j < cs.len() ==> #[trigger] cs[j].weight > 0,
    ensures
        weight_total(cs) >= cs.len(),
    decreases cs.len(),
{
    if cs.len() > 0 {
        let t = cs.drop_last();
        assert forall|j: int| 0 <= j < t.len() implies #[trigger] t[j].weight > 0 by {
            assert(t[j] == cs[j]);
        }
        lemma_weight_total_positive(t);
        assert(cs.last() == cs[cs.len() - 1]);
    }
}

proof fn lemma_index_fold_sums(v: OracleView, now: u64, cs: Seq<AssetWeight>, i: int)
    requires
        0 <= i <= cs.len(),
        basket_readable(v, now, cs),
    ensures
        index_fold(v, now, cs, i, weighted_total(v, now, cs.take(i)), weight_total(cs.take(i)))
            == Ok::<(int, int), Error>((weighted_total(v, now, cs), weight_total(cs))),
    decreases cs.len() - i,
{
    if i == cs.len() {
        assert(cs.take(i) =~= cs);
    } else {
        let c = cs[i];
        assert(cs.take(i + 1).drop_last() =~= cs.take(i));
        assert(cs.take(i + 1).last() == c);
        assert(v.tracked_assets.contains(cs[i].asset@));
        assert(fits_i128(weighted_total(v, now, cs.take(i + 1))));
        lemma_index_fold_sums(v, now, cs, i + 1);
    }
}

/// The index price of a basket whose components are all readable is the
/// weighted average of their verified prices: the sum of price times weight
/// divided (toward zero) by the sum of the weights.
pub proof fn law_index_price_is_weighted_average(v: OracleView, now: u64, cs: Seq<AssetWeight>)
    requires
        !v.halted,
        cs.len() > 0,
        basket_readable(v, now, cs),
    ensures
        weight_total(cs) > 0,
        index_price(v, now, cs) == Ok::<int, Error>(
            trunc_div(weighted_total(v, now, cs), weight_total(cs)),
        ),
{
    lemma_weight_total_positive(cs);
    assert(cs.take(0) =~= Seq::<AssetWeight>::empty());
    lemma_index_fold_sums(v, now, cs, 0);
}

/// Executing an admin proposal changes exactly the target's registration:
/// a removal leaves the target no longer an admin, a registration makes it
/// one, and every other address keeps its standing.
pub proof fn law_governance_admin_changes(v: OracleView, ledger: Ledger, action_id: u64, other: Seq<char>)
    requires
        action_id < v.proposals.len(),
        execute_effect(v, ledger, action_id) is Ok,
    ensures
        ({
            let p = v.proposals[action_id as int].0;
            let z = mark_executed(execute_effect(v, ledger, action_id)->Ok_0.1, ledger, action_id);
            &&& p.action_type == AdminAction::RemoveAdmin ==> (p.target matches Some(t) && !z.is_admin(t@)
                && (other != t@ ==> z.is_admin(other) == v.is_admin(other)))
            &&& p.action_type == AdminAction::RegisterAdmin ==> (p.target matches Some(t) && z.is_admin(t@)
                && (other != t@ ==> z.is_admin(other) == v.is_admin(other)))
        }),
{
    let p = v.proposals[action_id as int].0;
    let w = execute_effect(v, ledger, action_id)->Ok_0.1;
    if p.action_type == AdminAction::RemoveAdmin {
        let t = p.target.unwrap();
        let f = v.admins.filter(not_named(t@));
        assert(w.admins == f);
        if has_str(f, t@) {
            let j = choose|j: int| 0 <= j < f.len() && f[j]@ == t@;
            v.admins.lemma_filter_pred(not_named(t@), j);
        }
        if other != t@ {
            if has_str(v.admins, other) {
                let j = choose|j: int| 0 <= j < v.admins.len() && v.admins[j]@ == other;
                v.admins.lemma_filter_contains(not_named(t@), j);
                let k = choose|k: int| 0 <= k < f.len() && f[k] == v.admins[j];
                assert(f[k]@ == other);
            }
            if has_str(f, other) {
                let k = choose|k: int| 0 <= k < f.len() && f[k]@ == other;
                assert(f.contains(f[k]));
                v.admins.lemma_filter_contains_rev(not_named(t@), f[k]);
                let j = choose|j: int| 0 <= j < v.admins.len() && v.admins[j] == f[k];
                assert(v.admins[j]@ == other);
            }
        }
    } else if p.action_type == AdminAction::RegisterAdmin {
        let t = p.target.unwrap();
        if !v.is_admin(t@) {
            let n = v.admins.len();
            assert(w.admins[n as int] == t);
            if other != t@ {
                if has_str(v.admins, other) {
                    let j = choose|j: int| 0 <= j < v.admins.len() && v.admins[j]@ == other;
                    assert(w.admins[j] == v.admins[j]);
                }
                if has_str(w.admins, other) {
                    let j = choose|j: int| 0 <= j < w.admins.len() && w.admins[j]@ == other;
                    assert(v.admins[j] == w.admins[j]);
                }
            }
        }
    }
}

/// A rate is only ever served while it is fresh: a price read from either
/// bucket is the stored entry, its time to live has not run out, and it is
/// not older than the maximum rate age.
pub proof fn law_reads_are_fresh(v: OracleView, now: u64, asset: Seq<char>, verified: bool)
    ensures
        read_price(v, now, asset, verified) matches Ok(pd) ==> {
            let m = if verified {
                v.verified_prices
            } else {
                v.community_prices
            };
            &&& !v.halted
            &&& m.contains_key(asset) && pd == m[asset]
            &&& !stale(now, pd.timestamp, pd.ttl)
            &&& !exceeds_max_age(now, pd.timestamp)
        },
{
}

/// The averaging window records the price that was published: after an
/// accepted relayer update, and after a direct price write, the newest entry
/// of the asset's window is the new verified price at the write's time.
pub proof fn law_twap_records_published_price(
    v: OracleView,
    ledger: Ledger,
    source: String,
    asset: String,
    price: i128,
    confidence_score: u32,
    ttl: u64,
)
    ensures
        ({
            let w = updated_view(v, ledger, source, asset@, price, confidence_score, ttl);
            &&& w.twap.contains_key(asset@) && w.twap[asset@].len() > 0
            &&& w.verified_prices.contains_key(asset@)
            &&& w.twap[asset@].last() == (ledger.timestamp, w.verified_prices[asset@].price)
        }),
        v.set_price_outcome(ledger, asset, price, ttl) matches Ok((_, w)) ==> {
            &&& w.twap.contains_key(asset@) && w.twap[asset@].len() > 0
            &&& w.verified_prices.contains_key(asset@)
            &&& w.twap[asset@].last() == (ledger.timestamp, w.verified_prices[asset@].price)
        },
{
}

} // verus!
