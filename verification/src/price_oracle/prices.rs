//! Asset tracking, price writes and price reads of the oracle.

use vstd::prelude::*;
use crate::keyed::{has_str, not_named, contains_str, without_str, named_in};
use super::math::{stale, exceeds_max_age, is_stale, is_valid};
use super::history::{log_event, push_twap, twap_pushed, running_sums_fit, average_price, twap_average};
use super::state::{PriceOracle, OracleView, EventView, BufferView, event_view, buffer_view, applied_value};
use super::types::{
    Error, Ledger, PriceData, PriceDataWithStatus, PriceEntry, PriceEntryWithStatus, AssetMeta,
    AssetInfo, PriceBuffer, RecentEvent,
};

verus! {

/// Maximum number of assets `clear_assets` accepts in one call.
pub const MAX_CLEAR_ASSETS: u32 = 20;

/// How a `set_price` call changed the stored price.
#[derive(Clone, Copy, Debug, PartialEq, Eq, Structural)]
pub enum PriceWrite {
    /// The price was unchanged; only its timestamp was refreshed.
    Refreshed,
    /// The asset had no price before.
    Added,
    /// An existing price was replaced.
    Updated,
}

/// The activity log after recording `e`, newest first, at most five entries.
pub open spec fn logged_view(events: Seq<EventView>, e: EventView) -> Seq<EventView> {
    let added = seq![e] + events;
    if added.len() > 5 {
        added.drop_last()
    } else {
        added
    }
}

/// The state after an asset is tracked: appended to the tracked list and
/// flagged, unless the list already holds it.
pub open spec fn tracked_view(v: OracleView, asset: String) -> OracleView {
    if has_str(v.base_currency_pairs, asset@) {
        v
    } else {
        OracleView {
            base_currency_pairs: v.base_currency_pairs.push(asset),
            tracked_assets: v.tracked_assets.insert(asset@),
            ..v
        }
    }
}

/// The state after an entry is added to the activity log.
pub open spec fn log_view(v: OracleView, e: EventView) -> OracleView {
    OracleView { recent_events: logged_view(v.recent_events, e), ..v }
}

/// The averaging window of `asset` after recording a price.
pub open spec fn twap_view(v: OracleView, asset: Seq<char>, timestamp: u64, price: i128) -> OracleView {
    OracleView {
        twap: v.twap.insert(
            asset,
            twap_pushed(
                if v.twap.contains_key(asset) {
                    v.twap[asset]
                } else {
                    Seq::empty()
                },
                timestamp,
                price,
            ),
        ),
        ..v
    }
}

/// A rate read: halted reads fail, a missing or stale price is not found,
/// and a price older than the maximum rate age is rejected.
pub open spec fn read_price(v: OracleView, now: u64, asset: Seq<char>, verified: bool) -> Result<
    PriceData,
    Error,
> {
    let m = if verified {
        v.verified_prices
    } else {
        v.community_prices
    };
    if v.halted {
        Err(Error::EmergencyHalted)
    } else if !m.contains_key(asset) {
        Err(Error::AssetNotFound)
    } else if exceeds_max_age(now, m[asset].timestamp) {
        Err(Error::StaleRateData)
    } else if stale(now, m[asset].timestamp, m[asset].ttl) {
        Err(Error::AssetNotFound)
    } else {
        Ok(m[asset])
    }
}

/// The batch-read entry of one asset: present when the asset is flagged as
/// tracked and has a verified price that is not stale.
pub open spec fn batch_entry(v: OracleView, now: u64, asset: Seq<char>) -> Option<PriceEntry> {
    if !v.tracked_assets.contains(asset) || !v.verified_prices.contains_key(asset) {
        None
    } else {
        let pd = v.verified_prices[asset];
        if stale(now, pd.timestamp, pd.ttl) {
            None
        } else {
            Some(PriceEntry { price: pd.price, timestamp: pd.timestamp, decimals: pd.decimals })
        }
    }
}

/// The batch-read entry with staleness of one asset.
pub open spec fn status_entry(v: OracleView, now: u64, asset: Seq<char>) -> Option<
    PriceEntryWithStatus,
> {
    if !v.verified_prices.contains_key(asset) {
        None
    } else {
        let pd = v.verified_prices[asset];
        Some(
            PriceEntryWithStatus {
                price: pd.price,
                timestamp: pd.timestamp,
                is_stale: stale(now, pd.timestamp, pd.ttl),
            },
        )
    }
}

/// The state after an asset is removed: its prices, flag, floor and bounds
/// are deleted and it leaves the tracked list.
pub open spec fn removed_view(v: OracleView, asset: Seq<char>) -> OracleView {
    OracleView {
        verified_prices: v.verified_prices.remove(asset),
        community_prices: v.community_prices.remove(asset),
        tracked_assets: v.tracked_assets.remove(asset),
        price_floors: v.price_floors.remove(asset),
        price_bounds: v.price_bounds.remove(asset),
        base_currency_pairs: v.base_currency_pairs.filter(not_named(asset)),
        ..v
    }
}

impl OracleView {
    /// What `set_price` does: how the stored price changed, with the next
    /// state. An unchanged price only has its timestamp refreshed.
    pub open spec fn set_price_outcome(self, ledger: Ledger, asset: String, val: i128, ttl: u64) -> Result<
        (PriceWrite, OracleView),
        Error,
    > {
        let now = ledger.timestamp;
        let t = tracked_view(self, asset);
        if self.destroyed {
            Err(Error::ContractDestroyed)
        } else if self.frozen {
            Err(Error::ContractFrozen)
        } else if self.price_lock {
            Err(Error::ReentrancyDetected)
        } else if val <= 0 {
            Err(Error::InvalidPrice)
        } else if self.price_floors.contains_key(asset@) && val < self.price_floors[asset@] {
            Err(Error::PriceOutOfBounds)
        } else if self.verified_prices.contains_key(asset@) && self.verified_prices[asset@].price
            == val {
            Ok(
                (
                    PriceWrite::Refreshed,
                    log_view(
                        twap_view(
                            OracleView {
                                verified_prices: t.verified_prices.insert(
                                    asset@,
                                    PriceData { timestamp: now, ..self.verified_prices[asset@] },
                                ),
                                ..t
                            },
                            asset@,
                            now,
                            val,
                        ),
                        EventView {
                            event_type: "price_updated"@,
                            asset: asset@,
                            price: val,
                            timestamp: now,
                        },
                    ),
                ),
            )
        } else {
            let is_new = !self.verified_prices.contains_key(asset@);
            Ok(
                (
                    if is_new {
                        PriceWrite::Added
                    } else {
                        PriceWrite::Updated
                    },
                    log_view(
                        twap_view(
                            OracleView {
                                verified_prices: t.verified_prices.insert(
                                    asset@,
                                    PriceData {
                                        price: val,
                                        timestamp: now,
                                        provider: ledger.contract_address,
                                        decimals: 9,
                                        confidence_score: 100,
                                        ttl,
                                    },
                                ),
                                ..t
                            },
                            asset@,
                            now,
                            val,
                        ),
                        EventView {
                            event_type: if is_new {
                                "asset_added"@
                            } else {
                                "price_updated"@
                            },
                            asset: asset@,
                            price: val,
                            timestamp: now,
                        },
                    ),
                ),
            )
        }
    }
}

impl PriceOracle {
    /// Appends `asset` to the tracked list and flags it, unless listed already.
    pub(crate) fn track_asset(&mut self, asset: &String)
        ensures
            final(self)@ == tracked_view(old(self)@, *asset),
    {
        if !contains_str(&self.base_currency_pairs, asset) {
            self.base_currency_pairs.push(asset.clone());
            self.tracked_assets.set(asset.clone(), ());
        }
    }

    /// Records an entry in the activity log.
    pub(crate) fn record_event(&mut self, event_type: String, asset: String, price: i128, timestamp: u64)
        ensures
            final(self)@ == log_view(
                old(self)@,
                EventView { event_type: event_type@, asset: asset@, price, timestamp },
            ),
    {
        let ghost ev = EventView { event_type: event_type@, asset: asset@, price, timestamp };
        let e = RecentEvent { event_type, asset, price, timestamp };
        log_event(&mut self.recent_events, e);
        proof {
            let old_views = old(self)@.recent_events;
            assert(self.recent_events@.map_values(|x: RecentEvent| event_view(x)) =~= logged_view(
                old_views,
                ev,
            ));
        }
    }

    /// Records a price in the averaging window of `asset`.
    pub(crate) fn record_twap(&mut self, asset: &String, timestamp: u64, price: i128)
        ensures
            final(self)@ == twap_view(old(self)@, asset@, timestamp, price),
    {
        let mut window: Vec<(u64, i128)> = match self.twap.get(asset) {
            Some(w) => super::history::copy_window(w),
            None => Vec::new(),
        };
        assert(window@ =~= (if old(self)@.twap.contains_key(asset@) {
            old(self)@.twap[asset@]
        } else {
            Seq::empty()
        }));
        push_twap(&mut window, timestamp, price);
        self.twap.set(asset.clone(), window);
        proof {
            assert(self.twap@.map_values(|w: Vec<(u64, i128)>| w@) =~= old(self)@.twap.insert(
                asset@,
                window@,
            ));
        }
    }

    /// Adds an asset to the tracked list; a verified price of zero is stored
    /// as a placeholder when the asset has none.
    pub fn add_asset(&mut self, ledger: &Ledger, admin: &String, asset: String) -> (r: Result<
        (),
        Error,
    >)
        ensures
            r == (match old(self)@.gate(Some(admin@), true, true) {
                Some(e) => Err(e),
                None => Ok(()),
            }),
            r is Err ==> final(self)@ == old(self)@,
            r is Ok ==> final(self)@ == log_view(
                {
                    let t = tracked_view(old(self)@, asset);
                    if t.verified_prices.contains_key(asset@) {
                        t
                    } else {
                        OracleView {
                            verified_prices: t.verified_prices.insert(
                                asset@,
                                PriceData {
                                    price: 0,
                                    timestamp: ledger.timestamp,
                                    provider: ledger.contract_address,
                                    decimals: 0,
                                    confidence_score: 0,
                                    ttl: 0,
                                },
                            ),
                            ..t
                        }
                    }
                },
                EventView {
                    event_type: "asset_added"@,
                    asset: asset@,
                    price: 0,
                    timestamp: ledger.timestamp,
                },
            ),
    {
        self.check_gate(Some(admin), true, true)?;
        self.track_asset(&asset);
        if !self.verified_prices.contains(&asset) {
            self.verified_prices.set(
                asset.clone(),
                PriceData {
                    price: 0,
                    timestamp: ledger.timestamp,
                    provider: ledger.contract_address.clone(),
                    decimals: 0,
                    confidence_score: 0,
                    ttl: 0,
                },
            );
        }
        self.record_event("asset_added".to_owned(), asset, 0, ledger.timestamp);
        Ok(())
    }

    /// Registers the native decimal precision of an asset pair.
    pub fn set_asset_decimals(
        &mut self,
        admin: &String,
        asset: String,
        base_decimals: u32,
        quote_decimals: u32,
    ) -> (r: Result<(), Error>)
        ensures
            r == (match old(self)@.gate(Some(admin@), false, true) {
                Some(e) => Err(e),
                None => Ok(()),
            }),
            r is Err ==> final(self)@ == old(self)@,
            r is Ok ==> final(self)@ == (OracleView {
                asset_meta: old(self)@.asset_meta.insert(
                    asset@,
                    AssetMeta { base_decimals, quote_decimals },
                ),
                ..old(self)@
            }),
    {
        self.check_gate(Some(admin), false, true)?;
        self.asset_meta.set(asset, AssetMeta { base_decimals, quote_decimals });
        Ok(())
    }

    /// The decimal metadata of an asset.
    pub fn get_asset_meta(&self, asset: &String) -> (r: Option<AssetMeta>)
        ensures
            r == (if self@.asset_meta.contains_key(asset@) {
                Some(self@.asset_meta[asset@])
            } else {
                None
            }),
    {
        match self.asset_meta.get(asset) {
            Some(m) => Some(*m),
            None => None,
        }
    }

    /// Sets lightweight metadata of an asset.
    pub fn set_asset_info(
        &mut self,
        admin: &String,
        asset: String,
        name: String,
        base_decimals: u32,
        quote_decimals: u32,
    ) -> (r: Result<(), Error>)
        ensures
            r == (match old(self)@.gate(Some(admin@), false, true) {
                Some(e) => Err(e),
                None => Ok(()),
            }),
            r is Err ==> final(self)@ == old(self)@,
            r is Ok ==> final(self)@ == (OracleView {
                asset_info: old(self)@.asset_info.insert(
                    asset@,
                    AssetInfo { name, base_decimals, quote_decimals },
                ),
                ..old(self)@
            }),
    {
        self.check_gate(Some(admin), false, true)?;
        self.asset_info.set(asset, AssetInfo { name, base_decimals, quote_decimals });
        Ok(())
    }

    /// The lightweight metadata of an asset.
    pub fn get_asset_info(&self, asset: &String) -> (r: Option<AssetInfo>)
        ensures
            r == (if self@.asset_info.contains_key(asset@) {
                Some(self@.asset_info[asset@])
            } else {
                None
            }),
    {
        match self.asset_info.get(asset) {
            Some(i) => Some(i.clone()),
            None => None,
        }
    }

    /// Stores a human-readable description of an asset.
    pub fn set_asset_description(&mut self, admin: &String, asset: String, description: String) -> (r:
        Result<(), Error>)
        ensures
            r == (match old(self)@.gate(Some(admin@), false, false) {
                Some(e) => Err(e),
                None => Ok(()),
            }),
            r is Err ==> final(self)@ == old(self)@,
            r is Ok ==> final(self)@ == (OracleView {
                asset_descriptions: old(self)@.asset_descriptions.insert(asset@, description),
                ..old(self)@
            }),
    {
        self.check_gate(Some(admin), false, false)?;
        self.asset_descriptions.set(asset, description);
        Ok(())
    }

    /// The description of an asset; `AssetNotFound` when none was set.
    pub fn get_asset_description(&self, asset: &String) -> (r: Result<String, Error>)
        ensures
            r == (if self@.asset_descriptions.contains_key(asset@) {
                Ok(self@.asset_descriptions[asset@])
            } else {
                Err(Error::AssetNotFound)
            }),
    {
        match self.asset_descriptions.get(asset) {
            Some(d) => Ok(d.clone()),
            None => Err(Error::AssetNotFound),
        }
    }

    /// The price of `asset` from the verified (`verified`) or the community
    /// bucket.
    pub fn get_price(&self, ledger: &Ledger, asset: &String, verified: bool) -> (r: Result<
        PriceData,
        Error,
    >)
        ensures
            r == read_price(self@, ledger.timestamp, asset@, verified),
    {
        if self.halted {
            return Err(Error::EmergencyHalted);
        }
        let found = if verified {
            self.verified_prices.get(asset)
        } else {
            self.community_prices.get(asset)
        };
        match found {
            Some(pd) => {
                let now = ledger.timestamp;
                if super::math::enforce_rate_map_max_age(now, pd.timestamp).is_err() {
                    return Err(Error::StaleRateData);
                }
                if is_stale(now, pd.timestamp, pd.ttl) {
                    return Err(Error::AssetNotFound);
                }
                Ok(pd.clone())
            },
            None => Err(Error::AssetNotFound),
        }
    }

    /// The last verified price of `asset`, marked stale when its
    /// time-to-live has run out.
    pub fn get_price_with_status(&self, ledger: &Ledger, asset: &String) -> (r: Result<
        PriceDataWithStatus,
        Error,
    >)
        ensures
            r == (if self@.halted {
                Err(Error::EmergencyHalted)
            } else if !self@.verified_prices.contains_key(asset@) {
                Err(Error::AssetNotFound)
            } else {
                Ok(
                    PriceDataWithStatus {
                        data: self@.verified_prices[asset@],
                        is_stale: stale(
                            ledger.timestamp,
                            self@.verified_prices[asset@].timestamp,
                            self@.verified_prices[asset@].ttl,
                        ),
                    },
                )
            }),
    {
        if self.halted {
            return Err(Error::EmergencyHalted);
        }
        match self.verified_prices.get(asset) {
            Some(pd) => Ok(
                PriceDataWithStatus {
                    is_stale: is_stale(ledger.timestamp, pd.timestamp, pd.ttl),
                    data: pd.clone(),
                },
            ),
            None => Err(Error::AssetNotFound),
        }
    }

    /// The verified price of `asset`, stale or not; `None` when absent.
    pub fn get_price_safe(&self, asset: &String) -> (r: Result<Option<PriceData>, Error>)
        ensures
            r == (if self@.halted {
                Err(Error::EmergencyHalted)
            } else if self@.verified_prices.contains_key(asset@) {
                Ok(Some(self@.verified_prices[asset@]))
            } else {
                Ok(None)
            }),
    {
        if self.halted {
            return Err(Error::EmergencyHalted);
        }
        match self.verified_prices.get(asset) {
            Some(pd) => Ok(Some(pd.clone())),
            None => Ok(None),
        }
    }

    /// The verified price value of `asset`.
    pub fn get_last_price(&self, ledger: &Ledger, asset: &String) -> (r: Result<i128, Error>)
        ensures
            r == (match read_price(self@, ledger.timestamp, asset@, true) {
                Ok(pd) => Ok(pd.price),
                Err(e) => Err(e),
            }),
    {
        let pd = self.get_price(ledger, asset, true)?;
        Ok(pd.price)
    }

    /// Verified prices of several assets, in order; an asset that is not
    /// flagged as tracked, has no price, or whose price is stale gives `None`.
    pub fn get_prices(&self, ledger: &Ledger, assets: &Vec<String>) -> (r: Result<
        Vec<Option<PriceEntry>>,
        Error,
    >)
        ensures
            match r {
                Err(e) => self@.halted && e == Error::EmergencyHalted,
                Ok(v) => !self@.halted && v@ == assets@.map_values(
                    |a: String| batch_entry(self@, ledger.timestamp, a@),
                ),
            },
    {
        if self.halted {
            return Err(Error::EmergencyHalted);
        }
        let now = ledger.timestamp;
        let mut result: Vec<Option<PriceEntry>> = Vec::new();
        let mut i: usize = 0;
        while i < assets.len()
            invariant
                i <= assets@.len(),
                !self@.halted,
                now == ledger.timestamp,
                result@ =~= assets@.take(i as int).map_values(
                    |a: String| batch_entry(self@, now, a@),
                ),
            decreases assets@.len() - i,
        {
            let asset = &assets[i];
            let entry = if !self.tracked_assets.contains(asset) {
                None
            } else {
                match self.verified_prices.get(asset) {
                    Some(pd) => if is_stale(now, pd.timestamp, pd.ttl) {
                        None
                    } else {
                        Some(
                            PriceEntry {
                                price: pd.price,
                                timestamp: pd.timestamp,
                                decimals: pd.decimals,
                            },
                        )
                    },
                    None => None,
                }
            };
            result.push(entry);
            proof {
                assert(assets@.take(i + 1) =~= assets@.take(i as int).push(assets@[i as int]));
            }
            i = i + 1;
        }
        assert(assets@.take(assets@.len() as int) =~= assets@);
        Ok(result)
    }

    /// Verified prices of several assets, in order, each with whether it is
    /// stale; `None` when an asset has no price.
    pub fn get_prices_with_status(&self, ledger: &Ledger, assets: &Vec<String>) -> (r: Vec<
        Option<PriceEntryWithStatus>,
    >)
        ensures
            r@ == assets@.map_values(|a: String| status_entry(self@, ledger.timestamp, a@)),
    {
        let now = ledger.timestamp;
        let mut result: Vec<Option<PriceEntryWithStatus>> = Vec::new();
        let mut i: usize = 0;
        while i < assets.len()
            invariant
                i <= assets@.len(),
                now == ledger.timestamp,
                result@ =~= assets@.take(i as int).map_values(
                    |a: String| status_entry(self@, now, a@),
                ),
            decreases assets@.len() - i,
        {
            let entry = match self.verified_prices.get(&assets[i]) {
                Some(pd) => Some(
                    PriceEntryWithStatus {
                        price: pd.price,
                        timestamp: pd.timestamp,
                        is_stale: is_stale(now, pd.timestamp, pd.ttl),
                    },
                ),
                None => None,
            };
            result.push(entry);
            proof {
                assert(assets@.take(i + 1) =~= assets@.take(i as int).push(assets@[i as int]));
            }
            i = i + 1;
        }
        assert(assets@.take(assets@.len() as int) =~= assets@);
        result
    }

    /// The tracked asset list.
    pub fn get_all_assets(&self) -> (r: Vec<String>)
        ensures
            r@ == self@.base_currency_pairs,
    {
        let r = self.base_currency_pairs.clone();
        assert(r@ =~= self.base_currency_pairs@);
        r
    }

    /// The number of tracked assets.
    pub fn get_asset_count(&self) -> (r: u32)
        requires
            self@.base_currency_pairs.len() <= u32::MAX,
        ensures
            r == self@.base_currency_pairs.len(),
    {
        self.base_currency_pairs.len() as u32
    }

    /// Writes a verified price (admin and internal use). An unchanged price
    /// only has its timestamp refreshed; otherwise the price is stored with
    /// 9 decimals, confidence 100 and the given time-to-live.
    pub fn set_price(&mut self, ledger: &Ledger, asset: String, val: i128, ttl: u64) -> (r: Result<
        PriceWrite,
        Error,
    >)
        ensures
            applied_value(old(self)@.set_price_outcome(*ledger, asset, val, ttl), r, old(self)@, final(self)@),
    {
        self.check_gate(None, false, true)?;
        if self.price_lock {
            return Err(Error::ReentrancyDetected);
        }
        if !is_valid(val) {
            return Err(Error::InvalidPrice);
        }
        let normalized = Self::normalize_price(val);
        match self.price_floors.get(&asset) {
            Some(floor) => {
                if normalized < *floor {
                    return Err(Error::PriceOutOfBounds);
                }
            },
            None => {},
        }
        let now = ledger.timestamp;
        let existing: Option<PriceData> = match self.verified_prices.get(&asset) {
            Some(pd) => Some(pd.clone()),
            None => None,
        };
        let is_new_asset = existing.is_none();
        self.track_asset(&asset);
        match existing {
            Some(current) => {
                if current.price == val {
                    let refreshed = PriceData { timestamp: now, ..current };
                    self.verified_prices.set(asset.clone(), refreshed);
                    self.record_twap(&asset, now, val);
                    self.record_event("price_updated".to_owned(), asset, val, now);
                    return Ok(PriceWrite::Refreshed);
                }
            },
            None => {},
        }
        self.verified_prices.set(
            asset.clone(),
            PriceData {
                price: normalized,
                timestamp: now,
                provider: ledger.contract_address.clone(),
                decimals: 9,
                confidence_score: 100,
                ttl,
            },
        );
        self.record_twap(&asset, now, normalized);
        if is_new_asset {
            self.record_event("asset_added".to_owned(), asset, normalized, now);
            Ok(PriceWrite::Added)
        } else {
            self.record_event("price_updated".to_owned(), asset, normalized, now);
            Ok(PriceWrite::Updated)
        }
    }

    /// Prices are stored as given: the submitted integer already carries
    /// the 9 fixed-point decimals.
    pub fn normalize_price(price: i128) -> (r: i128)
        ensures
            r == price,
    {
        price
    }

    /// Stores a community (unverified) price of a tracked asset, supplied by
    /// `source`.
    pub fn submit_community_price(
        &mut self,
        ledger: &Ledger,
        source: String,
        asset: String,
        price: i128,
        ttl: u64,
    ) -> (r: Result<(), Error>)
        ensures
            r == (if old(self)@.frozen {
                Err(Error::ContractFrozen)
            } else if !has_str(old(self)@.base_currency_pairs, asset@) {
                Err(Error::InvalidAssetSymbol)
            } else if price <= 0 {
                Err(Error::InvalidPrice)
            } else {
                Ok(())
            }),
            r is Err ==> final(self)@ == old(self)@,
            r is Ok ==> final(self)@ == log_view(
                OracleView {
                    community_prices: old(self)@.community_prices.insert(
                        asset@,
                        PriceData {
                            price,
                            timestamp: ledger.timestamp,
                            provider: source,
                            decimals: 9,
                            confidence_score: 0,
                            ttl,
                        },
                    ),
                    ..old(self)@
                },
                EventView {
                    event_type: "community_price"@,
                    asset: asset@,
                    price,
                    timestamp: ledger.timestamp,
                },
            ),
    {
        if self.frozen {
            return Err(Error::ContractFrozen);
        }
        if !contains_str(&self.base_currency_pairs, &asset) {
            return Err(Error::InvalidAssetSymbol);
        }
        if !is_valid(price) {
            return Err(Error::InvalidPrice);
        }
        let normalized = Self::normalize_price(price);
        let now = ledger.timestamp;
        self.community_prices.set(
            asset.clone(),
            PriceData {
                price: normalized,
                timestamp: now,
                provider: source,
                decimals: 9,
                confidence_score: 0,
                ttl,
            },
        );
        self.record_event("community_price".to_owned(), asset, normalized, now);
        Ok(())
    }

    /// Removes an asset that has a verified price: its prices, tracked flag,
    /// floor and bounds are deleted and it leaves the tracked list.
    pub fn remove_asset(&mut self, admin: &String, asset: &String) -> (r: Result<(), Error>)
        ensures
            r == (match old(self)@.gate(Some(admin@), false, true) {
                Some(e) => Err(e),
                None => if !old(self)@.verified_prices.contains_key(asset@) {
                    Err(Error::AssetNotFound)
                } else {
                    Ok(())
                },
            }),
            r is Err ==> final(self)@ == old(self)@,
            r is Ok ==> final(self)@ == removed_view(old(self)@, asset@),
    {
        self.check_gate(Some(admin), false, true)?;
        if !self.verified_prices.contains(asset) {
            return Err(Error::AssetNotFound);
        }
        self.verified_prices.remove(asset);
        self.community_prices.remove(asset);
        self.tracked_assets.remove(asset);
        self.price_floors.remove(asset);
        self.price_bounds.remove(asset);
        self.base_currency_pairs = without_str(&self.base_currency_pairs, asset);
        Ok(())
    }

    /// Deletes the legacy price slots of up to `MAX_CLEAR_ASSETS` assets;
    /// nothing is deleted when the batch is larger.
    pub fn clear_assets(&mut self, assets: &Vec<String>) -> (r: Result<(), Error>)
        ensures
            r == (if old(self)@.destroyed {
                Err(Error::ContractDestroyed)
            } else if assets@.len() > MAX_CLEAR_ASSETS {
                Err(Error::TooManyAssets)
            } else {
                Ok(())
            }),
            r is Err ==> final(self)@ == old(self)@,
            r is Ok ==> final(self)@ == (OracleView {
                legacy_prices: old(self)@.legacy_prices.remove_keys(named_in(assets@)),
                ..old(self)@
            }),
    {
        if self.destroyed {
            return Err(Error::ContractDestroyed);
        }
        if assets.len() > MAX_CLEAR_ASSETS as usize {
            return Err(Error::TooManyAssets);
        }
        let mut i: usize = 0;
        while i < assets.len()
            invariant
                i <= assets@.len(),
                self@ == (OracleView {
                    legacy_prices: old(self)@.legacy_prices.remove_keys(
                        named_in(assets@.take(i as int)),
                    ),
                    ..old(self)@
                }),
            decreases assets@.len() - i,
        {
            self.legacy_prices.remove(&assets[i]);
            proof {
                let before = assets@.take(i as int);
                let after = assets@.take(i + 1);
                assert(after =~= before.push(assets@[i as int]));
                assert forall|x: Seq<char>| #[trigger] has_str(after, x) <==> (has_str(before, x)
                    || x == assets@[i as int]@) by {
                    if has_str(after, x) {
                        let j = choose|j: int| 0 <= j < after.len() && #[trigger] after[j]@ == x;
                        if j < i {
                            assert(before[j]@ == x);
                        }
                    }
                    if has_str(before, x) {
                        let j = choose|j: int| 0 <= j < before.len() && #[trigger] before[j]@ == x;
                        assert(after[j]@ == x);
                    }
                    if x == assets@[i as int]@ {
                        assert(after[i as int]@ == x);
                    }
                }
                assert(named_in(after) =~= named_in(before).insert(assets@[i as int]@));
                assert(old(self)@.legacy_prices.remove_keys(named_in(after)) =~= old(
                    self,
                )@.legacy_prices.remove_keys(named_in(before)).remove(assets@[i as int]@));
            }
            i = i + 1;
        }
        assert(assets@.take(assets@.len() as int) =~= assets@);
        Ok(())
    }

    /// The current ledger sequence number.
    pub fn get_ledger_version(ledger: &Ledger) -> (r: u32)
        ensures
            r == ledger.sequence,
    {
        ledger.sequence
    }

    /// The human-readable name of the contract.
    pub fn get_contract_name() -> (r: String)
        ensures
            r@ == "StellarFlow Africa Oracle"@,
    {
        "StellarFlow Africa Oracle".to_owned()
    }

    /// Liveness check.
    pub fn ping() -> (r: String)
        ensures
            r@ == "PONG"@,
    {
        "PONG".to_owned()
    }

    /// The last `n` activity log entries (at most five exist), newest first.
    pub fn get_last_n_events(&self, n: u32) -> (r: Vec<RecentEvent>)
        ensures
            r@.map_values(|e: RecentEvent| event_view(e)) == self@.recent_events.take(
                if n as int <= self@.recent_events.len() {
                    n as int
                } else {
                    self@.recent_events.len() as int
                },
            ),
    {
        let r = super::history::last_n_events(&self.recent_events, n);
        assert(r@.map_values(|e: RecentEvent| event_view(e)) =~= self@.recent_events.take(
            if n as int <= self@.recent_events.len() {
                n as int
            } else {
                self@.recent_events.len() as int
            },
        ));
        r
    }

    /// The time-weighted average of the last recorded prices of `asset`.
    pub fn get_twap(&self, asset: &String) -> (r: Result<Option<i128>, Error>)
        requires
            !self@.halted && self@.twap.contains_key(asset@) ==> running_sums_fit(self@.twap[asset@]),
        ensures
            match r {
                Err(e) => self@.halted && e == Error::EmergencyHalted,
                Ok(o) => !self@.halted && match o {
                    None => !self@.twap.contains_key(asset@) || average_price(
                        self@.twap[asset@],
                    ) is None,
                    Some(p) => self@.twap.contains_key(asset@) && average_price(
                        self@.twap[asset@],
                    ) == Some(p as int),
                },
            },
    {
        if self.halted {
            return Err(Error::EmergencyHalted);
        }
        match self.twap.get(asset) {
            Some(w) => Ok(twap_average(w)),
            None => Ok(None),
        }
    }

    /// The buffer of `asset` for the current ledger, if it has submissions.
    pub fn get_price_buffer_data(&self, ledger: &Ledger, asset: &String) -> (r: Option<PriceBuffer>)
        ensures
            match r {
                Some(b) => self@.price_buffers.contains_key(asset@) && self@.price_buffers[asset@].ledger_sequence
                    == ledger.sequence && buffer_view(b) == self@.price_buffers[asset@]
                    && b.entries@.len() > 0,
                None => !self@.price_buffers.contains_key(asset@)
                    || self@.price_buffers[asset@].ledger_sequence != ledger.sequence
                    || self@.price_buffers[asset@].entries.len() == 0,
            },
    {
        match self.price_buffers.get(asset) {
            Some(b) => if b.ledger_sequence == ledger.sequence && b.entries.len() > 0 {
                let c = b.clone();
                assert(buffer_view(c) =~= buffer_view(*b));
                Some(c)
            } else {
                None
            },
            None => None,
        }
    }

    /// The number of submissions for `asset` in the current ledger.
    pub fn get_relayer_count(&self, ledger: &Ledger, asset: &String) -> (r: u32)
        ensures
            r == (if self@.price_buffers.contains_key(asset@)
                && self@.price_buffers[asset@].ledger_sequence == ledger.sequence {
                if self@.price_buffers[asset@].entries.len() > u32::MAX {
                    u32::MAX as int
                } else {
                    self@.price_buffers[asset@].entries.len() as int
                }
            } else {
                0
            }),
    {
        match self.price_buffers.get(asset) {
            Some(b) => if b.ledger_sequence == ledger.sequence {
                if b.entries.len() > u32::MAX as usize {
                    u32::MAX
                } else {
                    b.entries.len() as u32
                }
            } else {
                0
            },
            None => 0,
        }
    }
}

} // verus!
