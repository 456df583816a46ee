//! Per-asset price floors and bounds, the maximum deviation per update, and
//! the one-step rollback of each.

use vstd::prelude::*;
use super::state::{PriceOracle, OracleView, MAX_PERCENT_CHANGE_BPS, applied};
use super::types::{Error, PriceBounds};

verus! {

impl OracleView {
    /// What `set_price_floor` does: the next state, or the error that leaves
    /// the state unchanged.
    pub open spec fn set_price_floor_outcome(self, admin: Seq<char>, asset: Seq<char>, price_floor: i128) -> Result<
        OracleView,
        Error,
    > {
        match self.gate(Some(admin), true, true) {
            Some(e) => Err(e),
            None => if price_floor <= 0 {
                Err(Error::InvalidPriceFloor)
            } else if self.price_bounds.contains_key(asset) && price_floor
                > self.price_bounds[asset].max_price {
                Err(Error::InvalidPriceFloor)
            } else {
                Ok(
                    OracleView {
                        price_floors: self.price_floors.insert(asset, price_floor),
                        prev_price_floors: if self.price_floors.contains_key(asset) {
                            self.prev_price_floors.insert(asset, self.price_floors[asset])
                        } else {
                            self.prev_price_floors
                        },
                        ..self
                    },
                )
            },
        }
    }

    /// What `rollback_price_floor` does.
    pub open spec fn rollback_price_floor_outcome(self, admin: Seq<char>, asset: Seq<char>) -> Result<
        OracleView,
        Error,
    > {
        match self.gate(Some(admin), true, true) {
            Some(e) => Err(e),
            None => if !self.prev_price_floors.contains_key(asset) {
                Err(Error::NoPreviousConfig)
            } else {
                Ok(
                    OracleView {
                        price_floors: self.price_floors.insert(asset, self.prev_price_floors[asset]),
                        prev_price_floors: self.prev_price_floors.remove(asset),
                        ..self
                    },
                )
            },
        }
    }

    /// What `set_price_bounds` does.
    pub open spec fn set_price_bounds_outcome(
        self,
        admin: Seq<char>,
        asset: Seq<char>,
        min_price: i128,
        max_price: i128,
    ) -> Result<OracleView, Error> {
        match self.gate(Some(admin), true, true) {
            Some(e) => Err(e),
            None => if min_price <= 0 || max_price <= 0 || min_price > max_price {
                Err(Error::InvalidPriceBounds)
            } else if self.price_floors.contains_key(asset) && self.price_floors[asset] > max_price {
                Err(Error::InvalidPriceBounds)
            } else {
                Ok(
                    OracleView {
                        price_bounds: self.price_bounds.insert(
                            asset,
                            PriceBounds { min_price, max_price },
                        ),
                        prev_price_bounds: if self.price_bounds.contains_key(asset) {
                            self.prev_price_bounds.insert(asset, self.price_bounds[asset])
                        } else {
                            self.prev_price_bounds
                        },
                        ..self
                    },
                )
            },
        }
    }

    /// What `rollback_price_bounds` does.
    pub open spec fn rollback_price_bounds_outcome(self, admin: Seq<char>, asset: Seq<char>) -> Result<
        OracleView,
        Error,
    > {
        match self.gate(Some(admin), true, true) {
            Some(e) => Err(e),
            None => if !self.prev_price_bounds.contains_key(asset) {
                Err(Error::NoPreviousConfig)
            } else {
                Ok(
                    OracleView {
                        price_bounds: self.price_bounds.insert(asset, self.prev_price_bounds[asset]),
                        prev_price_bounds: self.prev_price_bounds.remove(asset),
                        ..self
                    },
                )
            },
        }
    }

    /// What `set_max_deviation_percentage` does.
    pub open spec fn set_max_deviation_outcome(self, admin: Seq<char>, max_deviation_bps: i128) -> Result<
        OracleView,
        Error,
    > {
        match self.gate(Some(admin), true, true) {
            Some(e) => Err(e),
            None => if max_deviation_bps <= 0 || max_deviation_bps > 10_000 {
                Err(Error::InvalidMaxDeviation)
            } else {
                Ok(
                    OracleView {
                        max_deviation_bps: Some(max_deviation_bps),
                        prev_max_deviation_bps: match self.max_deviation_bps {
                            Some(p) => Some(p),
                            None => self.prev_max_deviation_bps,
                        },
                        ..self
                    },
                )
            },
        }
    }

    /// What `rollback_max_deviation_percentage` does.
    pub open spec fn rollback_max_deviation_outcome(self, admin: Seq<char>) -> Result<OracleView, Error> {
        match self.gate(Some(admin), true, true) {
            Some(e) => Err(e),
            None => if self.prev_max_deviation_bps is None {
                Err(Error::NoPreviousConfig)
            } else {
                Ok(
                    OracleView {
                        max_deviation_bps: self.prev_max_deviation_bps,
                        prev_max_deviation_bps: None,
                        ..self
                    },
                )
            },
        }
    }
}


impl PriceOracle {
    /// Sets an absolute floor price for an asset; the previous floor, if any,
    /// is kept for `rollback_price_floor`.
    pub fn set_price_floor(&mut self, admin: &String, asset: String, price_floor: i128) -> (r: Result<
        (),
        Error,
    >)
        ensures
            applied(old(self)@.set_price_floor_outcome(admin@, asset@, price_floor), r, old(self)@, final(self)@),
    {
        self.check_gate(Some(admin), true, true)?;
        if price_floor <= 0 {
            return Err(Error::InvalidPriceFloor);
        }
        match self.price_bounds.get(&asset) {
            Some(b) => {
                if price_floor > b.max_price {
                    return Err(Error::InvalidPriceFloor);
                }
            },
            None => {},
        }
        match self.price_floors.get(&asset) {
            Some(existing) => {
                let e = *existing;
                self.prev_price_floors.set(asset.clone(), e);
            },
            None => {},
        }
        self.price_floors.set(asset, price_floor);
        Ok(())
    }

    /// Restores the previous price floor of an asset and forgets the backup.
    pub fn rollback_price_floor(&mut self, admin: &String, asset: &String) -> (r: Result<(), Error>)
        ensures
            applied(old(self)@.rollback_price_floor_outcome(admin@, asset@), r, old(self)@, final(self)@),
    {
        self.check_gate(Some(admin), true, true)?;
        let prev = match self.prev_price_floors.get(asset) {
            Some(p) => *p,
            None => {
                return Err(Error::NoPreviousConfig);
            },
        };
        self.price_floors.set(asset.clone(), prev);
        self.prev_price_floors.remove(asset);
        Ok(())
    }

    /// The price floor of an asset, if any.
    pub fn get_price_floor(&self, asset: &String) -> (r: Option<i128>)
        ensures
            r == (if self@.price_floors.contains_key(asset@) {
                Some(self@.price_floors[asset@])
            } else {
                None
            }),
    {
        match self.price_floors.get(asset) {
            Some(f) => Some(*f),
            None => None,
        }
    }

    /// Sets the accepted price range of an asset; the previous range, if any,
    /// is kept for `rollback_price_bounds`.
    pub fn set_price_bounds(&mut self, admin: &String, asset: String, min_price: i128, max_price: i128) -> (r:
        Result<(), Error>)
        ensures
            applied(
                old(self)@.set_price_bounds_outcome(admin@, asset@, min_price, max_price),
                r,
                old(self)@,
                final(self)@,
            ),
    {
        self.check_gate(Some(admin), true, true)?;
        if min_price <= 0 || max_price <= 0 || min_price > max_price {
            return Err(Error::InvalidPriceBounds);
        }
        match self.price_floors.get(&asset) {
            Some(f) => {
                if *f > max_price {
                    return Err(Error::InvalidPriceBounds);
                }
            },
            None => {},
        }
        match self.price_bounds.get(&asset) {
            Some(existing) => {
                let e = *existing;
                self.prev_price_bounds.set(asset.clone(), e);
            },
            None => {},
        }
        self.price_bounds.set(asset, PriceBounds { min_price, max_price });
        Ok(())
    }

    /// Restores the previous price range of an asset and forgets the backup.
    pub fn rollback_price_bounds(&mut self, admin: &String, asset: &String) -> (r: Result<(), Error>)
        ensures
            applied(old(self)@.rollback_price_bounds_outcome(admin@, asset@), r, old(self)@, final(self)@),
    {
        self.check_gate(Some(admin), true, true)?;
        let prev = match self.prev_price_bounds.get(asset) {
            Some(p) => *p,
            None => {
                return Err(Error::NoPreviousConfig);
            },
        };
        self.price_bounds.set(asset.clone(), prev);
        self.prev_price_bounds.remove(asset);
        Ok(())
    }

    /// The price range of an asset, if configured.
    pub fn get_price_bounds(&self, asset: &String) -> (r: Option<PriceBounds>)
        ensures
            r == (if self@.price_bounds.contains_key(asset@) {
                Some(self@.price_bounds[asset@])
            } else {
                None
            }),
    {
        match self.price_bounds.get(asset) {
            Some(b) => Some(*b),
            None => None,
        }
    }

    /// Sets the largest accepted move per update, in basis points of the
    /// previous price; the previous value, if any, is kept for rollback.
    pub fn set_max_deviation_percentage(&mut self, admin: &String, max_deviation_bps: i128) -> (r:
        Result<(), Error>)
        ensures
            applied(
                old(self)@.set_max_deviation_outcome(admin@, max_deviation_bps),
                r,
                old(self)@,
                final(self)@,
            ),
    {
        self.check_gate(Some(admin), true, true)?;
        if max_deviation_bps <= 0 || max_deviation_bps > 10_000 {
            return Err(Error::InvalidMaxDeviation);
        }
        match self.max_deviation_bps {
            Some(p) => {
                self.prev_max_deviation_bps = Some(p);
            },
            None => {},
        }
        self.max_deviation_bps = Some(max_deviation_bps);
        Ok(())
    }

    /// Restores the previous maximum deviation and forgets the backup.
    pub fn rollback_max_deviation_percentage(&mut self, admin: &String) -> (r: Result<(), Error>)
        ensures
            applied(old(self)@.rollback_max_deviation_outcome(admin@), r, old(self)@, final(self)@),
    {
        self.check_gate(Some(admin), true, true)?;
        let prev = match self.prev_max_deviation_bps {
            Some(p) => p,
            None => {
                return Err(Error::NoPreviousConfig);
            },
        };
        self.max_deviation_bps = Some(prev);
        self.prev_max_deviation_bps = None;
        Ok(())
    }

    /// The maximum deviation in basis points, 1000 (10%) when unset.
    pub fn get_max_deviation_percentage(&self) -> (r: i128)
        ensures
            r == match self@.max_deviation_bps {
                Some(d) => d,
                None => MAX_PERCENT_CHANGE_BPS,
            },
    {
        match self.max_deviation_bps {
            Some(d) => d,
            None => MAX_PERCENT_CHANGE_BPS,
        }
    }
}

} // verus!
