//! Relayer price updates (buffered per ledger, truncated by provider weight,
//! settled at the median) and weighted index prices.

use vstd::prelude::*;
use super::math::{fits_i128, abs, percentage_change_bps, trunc_div, calculate_percentage_difference_bps};
use super::buffer::{kept_entries, median, int_seq, truncate_entries, calculate_median};
use super::prices::{read_price, log_view, twap_view};
use super::state::{PriceOracle, OracleView, BufferView, EventView, MAX_PERCENT_CHANGE_BPS};
use super::types::{Error, Ledger, PriceData, PriceBuffer, PriceBufferEntry, AssetWeight};

verus! {

/// Price moves larger than this many units are reported as anomalies.
pub const ANOMALY_THRESHOLD: u128 = 50;

/// What an accepted relayer update produced.
#[derive(Clone, Copy, Debug, PartialEq, Eq, Structural)]
pub struct UpdateOutcome {
    /// The new canonical price: the median of the kept submissions.
    pub median: i128,
    /// The size of the move from the previous price, when it exceeds
    /// `ANOMALY_THRESHOLD`.
    pub anomaly_delta: Option<u128>,
}

/// The safety-check bypass is open at `now`.
pub open spec fn bypass_active(v: OracleView, now: u64) -> bool {
    match v.bypass_expiry {
        Some(e) => now < e,
        None => false,
    }
}

/// The verified price of an asset, zero when it has none.
pub open spec fn old_price_of(v: OracleView, asset: Seq<char>) -> i128 {
    if v.verified_prices.contains_key(asset) {
        v.verified_prices[asset].price
    } else {
        0
    }
}

/// The maximum deviation in force.
pub open spec fn max_deviation(v: OracleView) -> i128 {
    match v.max_deviation_bps {
        Some(d) => d,
        None => MAX_PERCENT_CHANGE_BPS,
    }
}

/// The buffer of `asset` for ledger `sequence`: the stored one when it
/// belongs to that ledger, otherwise an empty one.
pub open spec fn current_buffer(v: OracleView, sequence: u32, asset: Seq<char>) -> BufferView {
    if v.price_buffers.contains_key(asset) && v.price_buffers[asset].ledger_sequence == sequence {
        v.price_buffers[asset]
    } else {
        BufferView { entries: Seq::empty(), ledger_sequence: sequence, decimals: 0, ttl: 0 }
    }
}

/// The weight of a provider, zero when it is not whitelisted.
pub open spec fn provider_weight(v: OracleView, p: Seq<char>) -> u32 {
    if v.providers.contains_key(p) {
        v.providers[p]
    } else {
        0
    }
}

/// The provider weight of each submission.
pub open spec fn entry_weights(v: OracleView, entries: Seq<PriceBufferEntry>) -> Seq<u32> {
    entries.map_values(|e: PriceBufferEntry| provider_weight(v, e.provider@))
}

/// Some submission comes from `p`.
pub open spec fn has_submission(entries: Seq<PriceBufferEntry>, p: Seq<char>) -> bool {
    exists|i: int| 0 <= i < entries.len() && entries[i].provider@ == p
}

/// The prices of submissions.
pub open spec fn entry_prices(entries: Seq<PriceBufferEntry>) -> Seq<i128> {
    entries.map_values(|e: PriceBufferEntry| e.price)
}

/// The first check a relayer update fails, if any.
pub open spec fn update_rejection(
    v: OracleView,
    ledger: Ledger,
    source: Seq<char>,
    asset: Seq<char>,
    price: i128,
) -> Option<Error> {
    let old = old_price_of(v, asset);
    let bypass = bypass_active(v, ledger.timestamp);
    if v.destroyed {
        Some(Error::ContractDestroyed)
    } else if !v.initialized {
        Some(Error::NotInitialized)
    } else if v.frozen {
        Some(Error::ContractFrozen)
    } else if !v.tracked_assets.contains(asset) {
        Some(Error::AssetNotFound)
    } else if price <= 0 {
        Some(Error::InvalidPrice)
    } else if !v.providers.contains_key(source) {
        Some(Error::NotAuthorized)
    } else if has_submission(current_buffer(v, ledger.sequence, asset).entries, source) {
        Some(Error::AlreadyInitialized)
    } else if old > 0 && !bypass && percentage_change_bps(old as int, price as int) is Some && abs(
        percentage_change_bps(old as int, price as int).unwrap(),
    ) > max_deviation(v) {
        Some(Error::FlashCrashDetected)
    } else if !bypass && v.price_floors.contains_key(asset) && price < v.price_floors[asset] {
        Some(Error::PriceOutOfBounds)
    } else if !bypass && v.price_bounds.contains_key(asset) && (price
        < v.price_bounds[asset].min_price || price > v.price_bounds[asset].max_price) {
        Some(Error::PriceOutOfBounds)
    } else {
        None
    }
}

/// The submissions kept after `source` submits `price`.
pub open spec fn updated_entries(
    v: OracleView,
    ledger: Ledger,
    source: String,
    asset: Seq<char>,
    price: i128,
) -> Seq<PriceBufferEntry> {
    let entries = current_buffer(v, ledger.sequence, asset).entries.push(
        PriceBufferEntry { price, provider: source, timestamp: ledger.timestamp },
    );
    kept_entries(entries, entry_weights(v, entries))
}

/// The median of the kept submissions.
pub open spec fn updated_median(
    v: OracleView,
    ledger: Ledger,
    source: String,
    asset: Seq<char>,
    price: i128,
) -> int {
    median(int_seq(entry_prices(updated_entries(v, ledger, source, asset, price))))
}

/// The anomaly reported for a move from `old` to `price`.
pub open spec fn anomaly(old: i128, price: i128) -> Option<u128> {
    if old != 0 && abs(price - old) > ANOMALY_THRESHOLD {
        Some(abs(price - old) as u128)
    } else {
        None
    }
}

/// The state after an accepted relayer update.
pub open spec fn updated_view(
    v: OracleView,
    ledger: Ledger,
    source: String,
    asset: Seq<char>,
    price: i128,
    confidence_score: u32,
    ttl: u64,
) -> OracleView {
    let m = updated_median(v, ledger, source, asset, price) as i128;
    log_view(
        twap_view(
            OracleView {
                price_buffers: v.price_buffers.insert(
                    asset,
                    BufferView {
                        entries: updated_entries(v, ledger, source, asset, price),
                        ledger_sequence: ledger.sequence,
                        decimals: 9,
                        ttl,
                    },
                ),
                verified_prices: v.verified_prices.insert(
                    asset,
                    PriceData {
                        price: m,
                        timestamp: ledger.timestamp,
                        provider: source,
                        decimals: 9,
                        confidence_score,
                        ttl,
                    },
                ),
                ..v
            },
            asset,
            ledger.timestamp,
            m,
        ),
        EventView { event_type: "price_updated"@, asset, price, timestamp: ledger.timestamp },
    )
}

/// One step of the index computation: the running weighted sum and weight
/// after the components from position `i` on, or the first error.
pub open spec fn index_fold(
    v: OracleView,
    now: u64,
    components: Seq<AssetWeight>,
    i: int,
    total_price: int,
    total_weight: int,
) -> Result<(int, int), Error>
    decreases components.len() - i,
{
    if i < 0 || i >= components.len() {
        Ok((total_price, total_weight))
    } else {
        let c = components[i];
        if !v.tracked_assets.contains(c.asset@) {
            Err(Error::AssetNotFound)
        } else if c.weight == 0 {
            Err(Error::InvalidWeight)
        } else {
            match read_price(v, now, c.asset@, true) {
                Err(e) => Err(e),
                Ok(pd) => if !fits_i128(pd.price * c.weight) {
                    Err(Error::InvalidPrice)
                } else if !fits_i128(total_price + pd.price * c.weight) {
                    Err(Error::InvalidPrice)
                } else {
                    index_fold(
                        v,
                        now,
                        components,
                        i + 1,
                        total_price + pd.price * c.weight,
                        total_weight + c.weight,
                    )
                },
            }
        }
    }
}

/// The weighted average price of a basket.
pub open spec fn index_price(v: OracleView, now: u64, components: Seq<AssetWeight>) -> Result<
    int,
    Error,
> {
    if v.halted {
        Err(Error::EmergencyHalted)
    } else if components.len() == 0 {
        Err(Error::AssetNotFound)
    } else {
        match index_fold(v, now, components, 0, 0, 0) {
            Err(e) => Err(e),
            Ok((p, w)) => if w == 0 {
                Err(Error::InvalidWeight)
            } else {
                Ok(trunc_div(p, w))
            },
        }
    }
}

impl PriceOracle {
    /// Whether a submission from `provider` is in the buffer.
    fn has_provider_submitted(entries: &Vec<PriceBufferEntry>, provider: &String) -> (r: bool)
        ensures
            r == has_submission(entries@, provider@),
    {
        let mut i: usize = 0;
        while i < entries.len()
            invariant
                i <= entries@.len(),
                forall|j: int| 0 <= j < i ==> entries@[j].provider@ != provider@,
            decreases entries@.len() - i,
        {
            if entries[i].provider == *provider {
                return true;
            }
            i = i + 1;
        }
        false
    }

    /// The first check a relayer update would fail, as `update_rejection`
    /// describes; `Ok` when the update is accepted.
    pub fn update_check(&self, ledger: &Ledger, source: &String, asset: &String, price: i128) -> (r:
        Result<(), Error>)
        ensures
            r == (match update_rejection(self@, *ledger, source@, asset@, price) {
                Some(e) => Err(e),
                None => Ok(()),
            }),
    {
        let ghost v = self@;
        self.check_gate(None, true, true)?;
        if !self.tracked_assets.contains(asset) {
            return Err(Error::AssetNotFound);
        }
        if !super::math::is_valid(price) {
            return Err(Error::InvalidPrice);
        }
        if !self.providers.contains(source) {
            return Err(Error::NotAuthorized);
        }
        let normalized = Self::normalize_price(price);
        let now = ledger.timestamp;
        let entries: Vec<PriceBufferEntry> = match self.price_buffers.get(asset) {
            Some(b) => if b.ledger_sequence == ledger.sequence {
                b.entries.clone()
            } else {
                Vec::new()
            },
            None => Vec::new(),
        };
        assert(entries@ =~= current_buffer(v, ledger.sequence, asset@).entries);
        if Self::has_provider_submitted(&entries, source) {
            return Err(Error::AlreadyInitialized);
        }
        let old_price: i128 = match self.verified_prices.get(asset) {
            Some(pd) => pd.price,
            None => 0,
        };
        let bypass_active = match self.bypass_expiry {
            Some(e) => now < e,
            None => false,
        };
        let max_deviation_bps = self.get_max_deviation_percentage();
        if old_price > 0 && !bypass_active {
            match calculate_percentage_difference_bps(old_price, normalized) {
                Some(pct) => {
                    if pct > max_deviation_bps {
                        return Err(Error::FlashCrashDetected);
                    }
                },
                None => {},
            }
        }
        if !bypass_active {
            match self.price_floors.get(asset) {
                Some(f) => {
                    if normalized < *f {
                        return Err(Error::PriceOutOfBounds);
                    }
                },
                None => {},
            }
            match self.price_bounds.get(asset) {
                Some(b) => {
                    if normalized < b.min_price || normalized > b.max_price {
                        return Err(Error::PriceOutOfBounds);
                    }
                },
                None => {},
            }
        }
        Ok(())
    }

    /// Submits a relayer price. The submission joins the asset's buffer for
    /// the current ledger (one per provider), the buffer keeps at most eleven
    /// submissions of the highest-weight providers, and the median of the
    /// kept submissions becomes the verified price.
    pub fn update_price(
        &mut self,
        ledger: &Ledger,
        source: String,
        asset: String,
        price: i128,
        confidence_score: u32,
        ttl: u64,
    ) -> (r: Result<UpdateOutcome, Error>)
        requires
            update_rejection(old(self)@, *ledger, source@, asset@, price) is None ==> fits_i128(
                price - old_price_of(old(self)@, asset@),
            ),
        ensures
            match update_rejection(old(self)@, *ledger, source@, asset@, price) {
                Some(e) => r == Err::<UpdateOutcome, Error>(e),
                None => if updated_median(old(self)@, *ledger, source, asset@, price) <= 0 {
                    r == Err::<UpdateOutcome, Error>(Error::InvalidNormalizedPrice)
                } else {
                    &&& r == Ok::<UpdateOutcome, Error>(
                        UpdateOutcome {
                            median: updated_median(old(self)@, *ledger, source, asset@, price)
                                as i128,
                            anomaly_delta: anomaly(old_price_of(old(self)@, asset@), price),
                        },
                    )
                    &&& final(self)@ == updated_view(
                        old(self)@,
                        *ledger,
                        source,
                        asset@,
                        price,
                        confidence_score,
                        ttl,
                    )
                },
            },
            r is Err ==> final(self)@ == old(self)@,
    {
        let ghost v = self@;
        self.update_check(ledger, &source, &asset, price)?;
        let normalized = Self::normalize_price(price);
        let now = ledger.timestamp;
        let mut entries: Vec<PriceBufferEntry> = match self.price_buffers.get(&asset) {
            Some(b) => if b.ledger_sequence == ledger.sequence {
                b.entries.clone()
            } else {
                Vec::new()
            },
            None => Vec::new(),
        };
        assert(entries@ =~= current_buffer(v, ledger.sequence, asset@).entries);
        let old_price: i128 = match self.verified_prices.get(&asset) {
            Some(pd) => pd.price,
            None => 0,
        };
        let anomaly_delta: Option<u128> = if old_price != 0 {
            let d: i128 = normalized - old_price;
            let a: i128 = if d < 0 {
                -d
            } else {
                d
            };
            if a as u128 > ANOMALY_THRESHOLD {
                Some(a as u128)
            } else {
                None
            }
        } else {
            None
        };
        entries.push(PriceBufferEntry { price: normalized, provider: source.clone(), timestamp: now });
        let mut weights: Vec<u32> = Vec::new();
        let mut i: usize = 0;
        while i < entries.len()
            invariant
                i <= entries@.len(),
                self@ == v,
                weights@ =~= entry_weights(v, entries@).take(i as int),
            decreases entries@.len() - i,
        {
            let w: u32 = match self.providers.get(&entries[i].provider) {
                Some(w) => *w,
                None => 0,
            };
            weights.push(w);
            i = i + 1;
        }
        assert(entry_weights(v, entries@).take(entries@.len() as int) =~= entry_weights(v, entries@));
        let kept = truncate_entries(&entries, &weights);
        assert(kept@ =~= updated_entries(v, *ledger, source, asset@, price));
        let mut prices: Vec<i128> = Vec::new();
        let mut k: usize = 0;
        while k < kept.len()
            invariant
                k <= kept@.len(),
                prices@ =~= entry_prices(kept@).take(k as int),
            decreases kept@.len() - k,
        {
            prices.push(kept[k].price);
            k = k + 1;
        }
        assert(entry_prices(kept@).take(kept@.len() as int) =~= entry_prices(kept@));
        let median_price = match calculate_median(prices) {
            Some(m) => m,
            None => normalized,
        };
        if median_price <= 0 {
            return Err(Error::InvalidNormalizedPrice);
        }
        self.price_buffers.set(
            asset.clone(),
            PriceBuffer { entries: kept, ledger_sequence: ledger.sequence, decimals: 9, ttl },
        );
        self.verified_prices.set(
            asset.clone(),
            PriceData {
                price: median_price,
                timestamp: now,
                provider: source,
                decimals: 9,
                confidence_score,
                ttl,
            },
        );
        self.record_twap(&asset, now, median_price);
        self.record_event("price_updated".to_owned(), asset, normalized, now);
        Ok(UpdateOutcome { median: median_price, anomaly_delta })
    }

    /// The weighted average verified price of a basket of tracked assets.
    pub fn get_index_price(&self, ledger: &Ledger, components: &Vec<AssetWeight>) -> (r: Result<
        i128,
        Error,
    >)
        ensures
            match index_price(self@, ledger.timestamp, components@) {
                Ok(p) => r == Ok::<i128, Error>(p as i128),
                Err(e) => r == Err::<i128, Error>(e),
            },
    {
        if self.halted {
            return Err(Error::EmergencyHalted);
        }
        if components.len() == 0 {
            return Err(Error::AssetNotFound);
        }
        let ghost v = self@;
        let now = ledger.timestamp;
        let mut total_weighted_price: i128 = 0;
        let mut total_weight: i128 = 0;
        let mut i: usize = 0;
        while i < components.len()
            invariant
                i <= components@.len(),
                components@.len() <= usize::MAX,
                0 <= total_weight <= i * 0xffff_ffff,
                self@ == v,
                !v.halted,
                now == ledger.timestamp,
                index_fold(v, now, components@, 0, 0, 0) == index_fold(
                    v,
                    now,
                    components@,
                    i as int,
                    total_weighted_price as int,
                    total_weight as int,
                ),
            decreases components@.len() - i,
        {
            let c = &components[i];
            if !self.tracked_assets.contains(&c.asset) {
                return Err(Error::AssetNotFound);
            }
            if c.weight == 0 {
                return Err(Error::InvalidWeight);
            }
            let pd = self.get_price(ledger, &c.asset, true)?;
            let weight_i128: i128 = c.weight as i128;
            let weighted = match pd.price.checked_mul(weight_i128) {
                Some(w) => w,
                None => {
                    return Err(Error::InvalidPrice);
                },
            };
            total_weighted_price = match total_weighted_price.checked_add(weighted) {
                Some(t) => t,
                None => {
                    return Err(Error::InvalidPrice);
                },
            };
            assert(total_weight + c.weight <= (i + 1) * 0xffff_ffff);
            total_weight = total_weight + c.weight as i128;
            i = i + 1;
        }
        if total_weight == 0 {
            return Err(Error::InvalidWeight);
        }
        let index_price: i128 = total_weighted_price / total_weight;
        Ok(index_price)
    }
}

} // verus!
