//! The oracle's contract state and the operations on it.

use vstd::prelude::*;
use crate::keyed::{KeyedStore, has_str, not_named, contains_str, without_str};
use super::types::{
    Error, PriceData, PriceBounds, AssetMeta, AssetInfo, PriceBuffer, PriceBufferEntry,
    RecentEvent, ProposedAction, Ledger,
};

verus! {

/// Seconds a pending admin must wait before accepting the transfer.
pub const ADMIN_TIMELOCK: u64 = 86_400;

/// Default maximum price move per update, in basis points (10%).
pub const MAX_PERCENT_CHANGE_BPS: i128 = 1_000;

/// A governance proposal with the addresses whose votes it has collected.
pub struct Proposal {
    pub action: ProposedAction,
    pub voters: Vec<String>,
}

/// The whole state of the price oracle contract.
pub struct PriceOracle {
    /// `initialize` or `init_admin` has run.
    pub initialized: bool,
    /// The contract has been permanently destroyed.
    pub destroyed: bool,
    /// Registered admins.
    pub admins: Vec<String>,
    /// Address an admin transfer is pending to.
    pub pending_admin: Option<String>,
    /// Start of the pending admin transfer.
    pub pending_admin_timestamp: Option<u64>,
    /// Time of the last admin change or logged admin action.
    pub admin_update_timestamp: Option<u64>,
    /// The list of tracked assets.
    pub base_currency_pairs: Vec<String>,
    /// Per-asset "tracked" flags.
    pub tracked_assets: KeyedStore<()>,
    /// Prices written by providers and admins.
    pub verified_prices: KeyedStore<PriceData>,
    /// Prices submitted by anyone.
    pub community_prices: KeyedStore<PriceData>,
    /// Legacy per-asset price slots, only ever cleared.
    pub legacy_prices: KeyedStore<PriceData>,
    pub price_floors: KeyedStore<i128>,
    pub prev_price_floors: KeyedStore<i128>,
    pub price_bounds: KeyedStore<PriceBounds>,
    pub prev_price_bounds: KeyedStore<PriceBounds>,
    pub max_deviation_bps: Option<i128>,
    pub prev_max_deviation_bps: Option<i128>,
    pub asset_meta: KeyedStore<AssetMeta>,
    pub asset_info: KeyedStore<AssetInfo>,
    pub asset_descriptions: KeyedStore<String>,
    /// Whitelisted providers and their weights.
    pub providers: KeyedStore<u32>,
    /// The submissions of the current ledger, per asset.
    pub price_buffers: KeyedStore<PriceBuffer>,
    /// The time-weighted average window, per asset.
    pub twap: KeyedStore<Vec<(u64, i128)>>,
    /// The activity log, newest first.
    pub recent_events: Vec<RecentEvent>,
    pub paused: bool,
    pub frozen: bool,
    pub halted: bool,
    pub council: Option<String>,
    /// Expiry of the safety-check bypass.
    pub bypass_expiry: Option<u64>,
    /// The reentrancy lock of `set_price`.
    pub price_lock: bool,
    /// Proposals; a proposal's id is its position.
    pub proposals: Vec<Proposal>,
    /// Vote delegations, from owner to delegate.
    pub vote_delegates: KeyedStore<String>,
    pub min_quorum_threshold: Option<u32>,
    /// Contracts notified of price updates.
    pub subscribers: Vec<String>,
    pub slash_token: Option<String>,
    pub insurance_reserve: Option<String>,
    /// Staked collateral per relayer.
    pub provider_stakes: KeyedStore<i128>,
}

/// The submissions of a buffer as a mathematical value.
#[verifier::ext_equal]
pub struct BufferView {
    pub entries: Seq<PriceBufferEntry>,
    pub ledger_sequence: u32,
    pub decimals: u32,
    pub ttl: u64,
}

/// An activity log entry by the views of its strings.
#[verifier::ext_equal]
pub struct EventView {
    pub event_type: Seq<char>,
    pub asset: Seq<char>,
    pub price: i128,
    pub timestamp: u64,
}

/// The oracle state as a mathematical value.
#[verifier::ext_equal]
pub struct OracleView {
    pub initialized: bool,
    pub destroyed: bool,
    pub admins: Seq<String>,
    pub pending_admin: Option<String>,
    pub pending_admin_timestamp: Option<u64>,
    pub admin_update_timestamp: Option<u64>,
    pub base_currency_pairs: Seq<String>,
    pub tracked_assets: Set<Seq<char>>,
    pub verified_prices: Map<Seq<char>, PriceData>,
    pub community_prices: Map<Seq<char>, PriceData>,
    pub legacy_prices: Map<Seq<char>, PriceData>,
    pub price_floors: Map<Seq<char>, i128>,
    pub prev_price_floors: Map<Seq<char>, i128>,
    pub price_bounds: Map<Seq<char>, PriceBounds>,
    pub prev_price_bounds: Map<Seq<char>, PriceBounds>,
    pub max_deviation_bps: Option<i128>,
    pub prev_max_deviation_bps: Option<i128>,
    pub asset_meta: Map<Seq<char>, AssetMeta>,
    pub asset_info: Map<Seq<char>, AssetInfo>,
    pub asset_descriptions: Map<Seq<char>, String>,
    pub providers: Map<Seq<char>, u32>,
    pub price_buffers: Map<Seq<char>, BufferView>,
    pub twap: Map<Seq<char>, Seq<(u64, i128)>>,
    pub recent_events: Seq<EventView>,
    pub paused: bool,
    pub frozen: bool,
    pub halted: bool,
    pub council: Option<String>,
    pub bypass_expiry: Option<u64>,
    pub price_lock: bool,
    pub proposals: Seq<(ProposedAction, Seq<String>)>,
    pub vote_delegates: Map<Seq<char>, String>,
    pub min_quorum_threshold: Option<u32>,
    pub subscribers: Seq<String>,
    pub slash_token: Option<String>,
    pub insurance_reserve: Option<String>,
    pub provider_stakes: Map<Seq<char>, i128>,
}

/// The view of a buffer.
pub open spec fn buffer_view(b: PriceBuffer) -> BufferView {
    BufferView {
        entries: b.entries@,
        ledger_sequence: b.ledger_sequence,
        decimals: b.decimals,
        ttl: b.ttl,
    }
}

/// The view of an activity log entry.
pub open spec fn event_view(e: RecentEvent) -> EventView {
    EventView { event_type: e.event_type@, asset: e.asset@, price: e.price, timestamp: e.timestamp }
}

/// The view of a proposal.
pub open spec fn proposal_view(p: Proposal) -> (ProposedAction, Seq<String>) {
    (p.action, p.voters@)
}

impl View for PriceOracle {
    type V = OracleView;

    open spec fn view(&self) -> OracleView {
        OracleView {
            initialized: self.initialized,
            destroyed: self.destroyed,
            admins: self.admins@,
            pending_admin: self.pending_admin,
            pending_admin_timestamp: self.pending_admin_timestamp,
            admin_update_timestamp: self.admin_update_timestamp,
            base_currency_pairs: self.base_currency_pairs@,
            tracked_assets: self.tracked_assets@.dom(),
            verified_prices: self.verified_prices@,
            community_prices: self.community_prices@,
            legacy_prices: self.legacy_prices@,
            price_floors: self.price_floors@,
            prev_price_floors: self.prev_price_floors@,
            price_bounds: self.price_bounds@,
            prev_price_bounds: self.prev_price_bounds@,
            max_deviation_bps: self.max_deviation_bps,
            prev_max_deviation_bps: self.prev_max_deviation_bps,
            asset_meta: self.asset_meta@,
            asset_info: self.asset_info@,
            asset_descriptions: self.asset_descriptions@,
            providers: self.providers@,
            price_buffers: self.price_buffers@.map_values(|b: PriceBuffer| buffer_view(b)),
            twap: self.twap@.map_values(|w: Vec<(u64, i128)>| w@),
            recent_events: self.recent_events@.map_values(|e: RecentEvent| event_view(e)),
            paused: self.paused,
            frozen: self.frozen,
            halted: self.halted,
            council: self.council,
            bypass_expiry: self.bypass_expiry,
            price_lock: self.price_lock,
            proposals: self.proposals@.map_values(|p: Proposal| proposal_view(p)),
            vote_delegates: self.vote_delegates@,
            min_quorum_threshold: self.min_quorum_threshold,
            subscribers: self.subscribers@,
            slash_token: self.slash_token,
            insurance_reserve: self.insurance_reserve,
            provider_stakes: self.provider_stakes@,
        }
    }
}

impl OracleView {
    /// `a` is a registered admin.
    pub open spec fn is_admin(self, a: Seq<char>) -> bool {
        has_str(self.admins, a)
    }

    /// The first failing check among: not destroyed, initialized (when
    /// `need_init`), not frozen (when `check_frozen`), and `admin` registered
    /// (when given).
    pub open spec fn gate(
        self,
        admin: Option<Seq<char>>,
        need_init: bool,
        check_frozen: bool,
    ) -> Option<Error> {
        if self.destroyed {
            Some(Error::ContractDestroyed)
        } else if need_init && !self.initialized {
            Some(Error::NotInitialized)
        } else if check_frozen && self.frozen {
            Some(Error::ContractFrozen)
        } else {
            match admin {
                Some(a) => if !self.is_admin(a) {
                    Some(Error::NotAuthorized)
                } else {
                    None
                },
                None => None,
            }
        }
    }
}

/// `r` and `after` are the result and the state that `outcome` describes,
/// starting from `before`: an error leaves the state unchanged.
pub open spec fn applied(
    outcome: Result<OracleView, Error>,
    r: Result<(), Error>,
    before: OracleView,
    after: OracleView,
) -> bool {
    match outcome {
        Ok(v) => r is Ok && after =~= v,
        Err(e) => r == Err::<(), Error>(e) && after =~= before,
    }
}
/// `r` and `after` are the result and the state that `outcome` describes,
/// for an operation that returns a value with its next state.
pub open spec fn applied_value<T>(
    outcome: Result<(T, OracleView), Error>,
    r: Result<T, Error>,
    before: OracleView,
    after: OracleView,
) -> bool {
    match outcome {
        Ok((x, v)) => r == Ok::<T, Error>(x) && after =~= v,
        Err(e) => r == Err::<T, Error>(e) && after =~= before,
    }
}

impl OracleView {
    /// The state of a freshly deployed contract: nothing stored.
    pub open spec fn deployed() -> OracleView {
        OracleView {
            initialized: false,
            destroyed: false,
            admins: Seq::empty(),
            pending_admin: None,
            pending_admin_timestamp: None,
            admin_update_timestamp: None,
            base_currency_pairs: Seq::empty(),
            tracked_assets: Set::empty(),
            verified_prices: Map::empty(),
            community_prices: Map::empty(),
            legacy_prices: Map::empty(),
            price_floors: Map::empty(),
            prev_price_floors: Map::empty(),
            price_bounds: Map::empty(),
            prev_price_bounds: Map::empty(),
            max_deviation_bps: None,
            prev_max_deviation_bps: None,
            asset_meta: Map::empty(),
            asset_info: Map::empty(),
            asset_descriptions: Map::empty(),
            providers: Map::empty(),
            price_buffers: Map::empty(),
            twap: Map::empty(),
            recent_events: Seq::empty(),
            paused: false,
            frozen: false,
            halted: false,
            council: None,
            bypass_expiry: None,
            price_lock: false,
            proposals: Seq::empty(),
            vote_delegates: Map::empty(),
            min_quorum_threshold: None,
            subscribers: Seq::empty(),
            slash_token: None,
            insurance_reserve: None,
            provider_stakes: Map::empty(),
        }
    }
}

impl PriceOracle {
    /// The state of a freshly deployed contract.
    pub fn new() -> (s: Self)
        ensures
            s@ == OracleView::deployed(),
    {
        let s = PriceOracle {
            initialized: false,
            destroyed: false,
            admins: Vec::new(),
            pending_admin: None,
            pending_admin_timestamp: None,
            admin_update_timestamp: None,
            base_currency_pairs: Vec::new(),
            tracked_assets: KeyedStore::new(),
            verified_prices: KeyedStore::new(),
            community_prices: KeyedStore::new(),
            legacy_prices: KeyedStore::new(),
            price_floors: KeyedStore::new(),
            prev_price_floors: KeyedStore::new(),
            price_bounds: KeyedStore::new(),
            prev_price_bounds: KeyedStore::new(),
            max_deviation_bps: None,
            prev_max_deviation_bps: None,
            asset_meta: KeyedStore::new(),
            asset_info: KeyedStore::new(),
            asset_descriptions: KeyedStore::new(),
            providers: KeyedStore::new(),
            price_buffers: KeyedStore::new(),
            twap: KeyedStore::new(),
            recent_events: Vec::new(),
            paused: false,
            frozen: false,
            halted: false,
            council: None,
            bypass_expiry: None,
            price_lock: false,
            proposals: Vec::new(),
            vote_delegates: KeyedStore::new(),
            min_quorum_threshold: None,
            subscribers: Vec::new(),
            slash_token: None,
            insurance_reserve: None,
            provider_stakes: KeyedStore::new(),
        };
        proof {
            assert(s@.tracked_assets =~= Set::empty());
            assert(s@.price_buffers =~= Map::empty());
            assert(s@.twap =~= Map::empty());
            assert(s@.recent_events =~= Seq::empty());
            assert(s@.proposals =~= Seq::empty());
        }
        s
    }
}

impl PriceOracle {
    /// Checks the guards that `OracleView::gate` describes.
    pub(crate) fn check_gate(&self, admin: Option<&String>, need_init: bool, check_frozen: bool) -> (r: Result<
        (),
        Error,
    >)
        ensures
            r == (match self@.gate(
                match admin {
                    Some(a) => Some(a@),
                    None => None,
                },
                need_init,
                check_frozen,
            ) {
                Some(e) => Err(e),
                None => Ok(()),
            }),
    {
        if self.destroyed {
            return Err(Error::ContractDestroyed);
        }
        if need_init && !self.initialized {
            return Err(Error::NotInitialized);
        }
        if check_frozen && self.frozen {
            return Err(Error::ContractFrozen);
        }
        match admin {
            Some(a) => if !contains_str(&self.admins, a) {
                Err(Error::NotAuthorized)
            } else {
                Ok(())
            },
            None => Ok(()),
        }
    }

    /// Returns true when `user` is one of the admins.
    pub fn is_admin(&self, user: &String) -> (r: bool)
        ensures
            r == self@.is_admin(user@),
    {
        contains_str(&self.admins, user)
    }
}

} // verus!
