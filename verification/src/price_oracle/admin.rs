//! Admin lifecycle, multi-signature controls, emergency switches and the
//! other admin-gated configuration of the oracle.

use vstd::prelude::*;
use crate::keyed::{has_str, not_named, contains_str, without_str};
use super::math::sat_add_u64;
use super::state::{PriceOracle, OracleView, ADMIN_TIMELOCK, applied, applied_value};
use super::types::{Error, Ledger, Transfer};

verus! {

/// Maximum number of registered admins.
pub const MAX_ADMINS: usize = 3;

/// Length of the safety-check bypass window, in seconds.
pub const BYPASS_WINDOW_SECONDS: u64 = 3_600;

/// The error a two-admin operation fails with, if any: the admins must be
/// distinct, both registered, and at least two admins must exist.
pub open spec fn two_admin_check(v: OracleView, a1: Seq<char>, a2: Seq<char>) -> Option<Error> {
    if a1 == a2 {
        Some(Error::MultiSigValidationFailed)
    } else if !v.is_admin(a1) || !v.is_admin(a2) {
        Some(Error::NotAuthorized)
    } else {
        None
    }
}

impl OracleView {
    /// What `transfer_admin` does at time `now`: the pending admin and the
    /// start of the transfer are recorded.
    pub open spec fn transfer_admin_outcome(self, now: u64, current_admin: Seq<char>, new_admin: String) -> Result<
        OracleView,
        Error,
    > {
        match self.gate(Some(current_admin), false, false) {
            Some(e) => Err(e),
            None => Ok(
                OracleView {
                    pending_admin: Some(new_admin),
                    pending_admin_timestamp: Some(now),
                    ..self
                },
            ),
        }
    }

    /// What `accept_admin` does at time `now`: once `ADMIN_TIMELOCK` has
    /// passed, the pending admin becomes the only admin.
    pub open spec fn accept_admin_outcome(self, now: u64, new_admin: String) -> Result<OracleView, Error> {
        if self.destroyed {
            Err(Error::ContractDestroyed)
        } else if self.pending_admin is None {
            Err(Error::PendingAdminNotFound)
        } else if self.pending_admin.unwrap()@ != new_admin@ {
            Err(Error::NotPendingAdmin)
        } else if self.pending_admin_timestamp is None {
            Err(Error::PendingAdminTimestampMissing)
        } else if now < sat_add_u64(self.pending_admin_timestamp.unwrap(), ADMIN_TIMELOCK) {
            Err(Error::AdminTimelockNotExpired)
        } else {
            Ok(
                OracleView {
                    admins: seq![new_admin],
                    admin_update_timestamp: Some(now),
                    pending_admin: None,
                    pending_admin_timestamp: None,
                    ..self
                },
            )
        }
    }

    /// What `renounce_ownership` does.
    pub open spec fn renounce_outcome(self, admin: Seq<char>) -> Result<OracleView, Error> {
        match self.gate(Some(admin), false, false) {
            Some(e) => Err(e),
            None => Ok(
                OracleView {
                    admins: Seq::empty(),
                    pending_admin: None,
                    pending_admin_timestamp: None,
                    ..self
                },
            ),
        }
    }

    /// What `toggle_pause` does: the new pause flag with the next state.
    pub open spec fn toggle_pause_outcome(self, admin1: Seq<char>, admin2: Seq<char>) -> Result<
        (bool, OracleView),
        Error,
    > {
        if self.frozen {
            Err(Error::ContractFrozen)
        } else {
            match two_admin_check(self, admin1, admin2) {
                Some(e) => Err(e),
                None => if self.admins.len() < 2 {
                    Err(Error::MultiSigValidationFailed)
                } else {
                    Ok((!self.paused, OracleView { paused: !self.paused, ..self }))
                },
            }
        }
    }

    /// What `register_admin` does; an address already registered is not
    /// added twice.
    pub open spec fn register_admin_outcome(
        self,
        admin1: Seq<char>,
        admin2: Seq<char>,
        new_admin: String,
    ) -> Result<OracleView, Error> {
        if self.frozen {
            Err(Error::ContractFrozen)
        } else {
            match two_admin_check(self, admin1, admin2) {
                Some(e) => Err(e),
                None => if self.admins.len() >= MAX_ADMINS {
                    Err(Error::MaxAdminsReached)
                } else {
                    Ok(
                        OracleView {
                            admins: if self.is_admin(new_admin@) {
                                self.admins
                            } else {
                                self.admins.push(new_admin)
                            },
                            ..self
                        },
                    )
                },
            }
        }
    }

    /// What `remove_admin` does: every registration of the address goes.
    pub open spec fn remove_admin_outcome(
        self,
        admin1: Seq<char>,
        admin2: Seq<char>,
        admin_to_remove: Seq<char>,
    ) -> Result<OracleView, Error> {
        if self.frozen {
            Err(Error::ContractFrozen)
        } else {
            match two_admin_check(self, admin1, admin2) {
                Some(e) => Err(e),
                None => if self.admins.len() <= 1 {
                    Err(Error::CannotRemoveLastAdmin)
                } else if !self.is_admin(admin_to_remove) {
                    Err(Error::NotAuthorized)
                } else {
                    Ok(OracleView { admins: self.admins.filter(not_named(admin_to_remove)), ..self })
                },
            }
        }
    }
}

impl PriceOracle {
    /// Initializes the contract with an admin and the list of tracked pairs.
    /// Can only be called once.
    pub fn initialize(&mut self, admin: String, base_currency_pairs: Vec<String>) -> (r: Result<
        (),
        Error,
    >)
        ensures
            r == (if old(self)@.destroyed {
                Err(Error::ContractDestroyed)
            } else if old(self)@.initialized || old(self)@.admins.len() > 0 {
                Err(Error::AlreadyInitialized)
            } else {
                Ok(())
            }),
            r is Err ==> final(self)@ == old(self)@,
            r is Ok ==> final(self)@ == (OracleView {
                admins: seq![admin],
                base_currency_pairs: base_currency_pairs@,
                initialized: true,
                ..old(self)@
            }),
    {
        if self.destroyed {
            return Err(Error::ContractDestroyed);
        }
        if self.initialized || self.admins.len() > 0 {
            return Err(Error::AlreadyInitialized);
        }
        self.admins = vec![admin];
        self.base_currency_pairs = base_currency_pairs;
        self.initialized = true;
        Ok(())
    }

    /// Sets the first admin of a contract that was not initialized.
    pub fn init_admin(&mut self, admin: String) -> (r: Result<(), Error>)
        ensures
            r == (if old(self)@.destroyed {
                Err(Error::ContractDestroyed)
            } else if old(self)@.initialized {
                Err(Error::AlreadyInitialized)
            } else {
                Ok(())
            }),
            r is Err ==> final(self)@ == old(self)@,
            r is Ok ==> final(self)@ == (OracleView {
                admins: seq![admin],
                initialized: true,
                ..old(self)@
            }),
    {
        if self.destroyed {
            return Err(Error::ContractDestroyed);
        }
        if self.initialized {
            return Err(Error::AlreadyInitialized);
        }
        self.admins = vec![admin];
        self.initialized = true;
        Ok(())
    }

    /// The first registered admin.
    pub fn get_admin(&self) -> (r: Result<String, Error>)
        ensures
            match r {
                Ok(a) => self@.admins.len() > 0 && a == self@.admins[0],
                Err(e) => self@.admins.len() == 0 && e == Error::AdminNotSet,
            },
    {
        if self.admins.len() == 0 {
            Err(Error::AdminNotSet)
        } else {
            Ok(self.admins[0].clone())
        }
    }

    /// Number of registered admins.
    pub fn get_admin_count(&self) -> (r: u32)
        requires
            self@.admins.len() <= u32::MAX,
        ensures
            r == self@.admins.len(),
    {
        self.admins.len() as u32
    }

    /// Starts an admin transfer by recording the pending admin and the time.
    pub fn transfer_admin(&mut self, ledger: &Ledger, current_admin: &String, new_admin: String) -> (r:
        Result<(), Error>)
        ensures
            applied(
                old(self)@.transfer_admin_outcome(ledger.timestamp, current_admin@, new_admin),
                r,
                old(self)@,
                final(self)@,
            ),
    {
        self.check_gate(Some(current_admin), false, false)?;
        self.pending_admin = Some(new_admin);
        self.pending_admin_timestamp = Some(ledger.timestamp);
        Ok(())
    }

    /// Completes a pending admin transfer once `ADMIN_TIMELOCK` has passed:
    /// `new_admin` becomes the only admin.
    pub fn accept_admin(&mut self, ledger: &Ledger, new_admin: &String) -> (r: Result<(), Error>)
        ensures
            applied(old(self)@.accept_admin_outcome(ledger.timestamp, *new_admin), r, old(self)@, final(self)@),
    {
        if self.destroyed {
            return Err(Error::ContractDestroyed);
        }
        match &self.pending_admin {
            None => {
                return Err(Error::PendingAdminNotFound);
            },
            Some(p) => {
                if *p != *new_admin {
                    return Err(Error::NotPendingAdmin);
                }
            },
        }
        let timestamp = match self.pending_admin_timestamp {
            None => {
                return Err(Error::PendingAdminTimestampMissing);
            },
            Some(t) => t,
        };
        if ledger.timestamp < timestamp.saturating_add(ADMIN_TIMELOCK) {
            return Err(Error::AdminTimelockNotExpired);
        }
        self.admins = vec![new_admin.clone()];
        self.admin_update_timestamp = Some(ledger.timestamp);
        self.pending_admin = None;
        self.pending_admin_timestamp = None;
        Ok(())
    }

    /// Permanently renounces ownership: every admin and any pending admin
    /// transfer is deleted, so no admin-only operation can succeed again.
    pub fn renounce_ownership(&mut self, admin: &String) -> (r: Result<(), Error>)
        ensures
            applied(old(self)@.renounce_outcome(admin@), r, old(self)@, final(self)@),
    {
        self.check_gate(Some(admin), false, false)?;
        self.admins = Vec::new();
        self.pending_admin = None;
        self.pending_admin_timestamp = None;
        Ok(())
    }

    /// Checks the shared conditions of the two-admin operations.
    fn check_two_admins(&self, admin1: &String, admin2: &String) -> (r: Result<(), Error>)
        ensures
            r == (match two_admin_check(self@, admin1@, admin2@) {
                Some(e) => Err(e),
                None => Ok(()),
            }),
    {
        if *admin1 == *admin2 {
            return Err(Error::MultiSigValidationFailed);
        }
        if !contains_str(&self.admins, admin1) || !contains_str(&self.admins, admin2) {
            return Err(Error::NotAuthorized);
        }
        Ok(())
    }

    /// Flips the pause state with the signatures of two distinct admins;
    /// returns the new state.
    pub fn toggle_pause(&mut self, admin1: &String, admin2: &String) -> (r: Result<bool, Error>)
        ensures
            applied_value(old(self)@.toggle_pause_outcome(admin1@, admin2@), r, old(self)@, final(self)@),
    {
        if self.frozen {
            return Err(Error::ContractFrozen);
        }
        self.check_two_admins(admin1, admin2)?;
        if self.admins.len() < 2 {
            return Err(Error::MultiSigValidationFailed);
        }
        self.paused = !self.paused;
        Ok(self.paused)
    }

    /// Registers `new_admin` with the signatures of two distinct admins, while
    /// fewer than `MAX_ADMINS` admins exist; an address already registered is
    /// not added twice.
    pub fn register_admin(&mut self, admin1: &String, admin2: &String, new_admin: String) -> (r:
        Result<(), Error>)
        ensures
            applied(
                old(self)@.register_admin_outcome(admin1@, admin2@, new_admin),
                r,
                old(self)@,
                final(self)@,
            ),
    {
        if self.frozen {
            return Err(Error::ContractFrozen);
        }
        self.check_two_admins(admin1, admin2)?;
        if self.admins.len() >= MAX_ADMINS {
            return Err(Error::MaxAdminsReached);
        }
        self.add_authorized(new_admin);
        Ok(())
    }

    /// Adds an admin unless it is already registered.
    pub(crate) fn add_authorized(&mut self, new_admin: String)
        ensures
            final(self)@ == (OracleView {
                admins: if old(self)@.is_admin(new_admin@) {
                    old(self)@.admins
                } else {
                    old(self)@.admins.push(new_admin)
                },
                ..old(self)@
            }),
    {
        if !contains_str(&self.admins, &new_admin) {
            self.admins.push(new_admin);
        }
    }

    /// Removes every registration of `admin`.
    pub(crate) fn remove_authorized(&mut self, admin: &String)
        ensures
            final(self)@ == (OracleView {
                admins: old(self)@.admins.filter(not_named(admin@)),
                ..old(self)@
            }),
    {
        self.admins = without_str(&self.admins, admin);
    }

    /// Removes `admin_to_remove` with the signatures of two distinct admins;
    /// the last admin can never be removed.
    pub fn remove_admin(&mut self, admin1: &String, admin2: &String, admin_to_remove: &String) -> (r:
        Result<(), Error>)
        ensures
            applied(
                old(self)@.remove_admin_outcome(admin1@, admin2@, admin_to_remove@),
                r,
                old(self)@,
                final(self)@,
            ),
    {
        if self.frozen {
            return Err(Error::ContractFrozen);
        }
        self.check_two_admins(admin1, admin2)?;
        if self.admins.len() <= 1 {
            return Err(Error::CannotRemoveLastAdmin);
        }
        if !contains_str(&self.admins, admin_to_remove) {
            return Err(Error::NotAuthorized);
        }
        self.remove_authorized(admin_to_remove);
        Ok(())
    }

    /// The state after the contract is destroyed: admins, tracked pairs,
    /// pending transfer, admin timestamp, activity log, pause flag and the
    /// initialized flag are wiped, and the destroyed flag is set.
    pub open spec fn destroyed_view(v: OracleView) -> OracleView {
        OracleView {
            admins: Seq::empty(),
            base_currency_pairs: Seq::empty(),
            pending_admin: None,
            pending_admin_timestamp: None,
            admin_update_timestamp: None,
            recent_events: Seq::empty(),
            initialized: false,
            paused: false,
            destroyed: true,
            ..v
        }
    }

    /// Wipes the contract state and sets the destroyed flag.
    pub(crate) fn wipe(&mut self)
        ensures
            final(self)@ == Self::destroyed_view(old(self)@),
    {
        self.admins = Vec::new();
        self.base_currency_pairs = Vec::new();
        self.pending_admin = None;
        self.pending_admin_timestamp = None;
        self.admin_update_timestamp = None;
        self.recent_events = Vec::new();
        self.initialized = false;
        self.paused = false;
        self.destroyed = true;
    }

    /// Irreversibly destroys the contract with the signatures of two distinct
    /// admins.
    pub fn self_destruct(&mut self, admin1: &String, admin2: &String) -> (r: Result<(), Error>)
        ensures
            r == (if old(self)@.destroyed {
                Err(Error::ContractDestroyed)
            } else if old(self)@.frozen {
                Err(Error::ContractFrozen)
            } else {
                match two_admin_check(old(self)@, admin1@, admin2@) {
                    Some(e) => Err(e),
                    None => if old(self)@.admins.len() < 2 {
                        Err(Error::MultiSigValidationFailed)
                    } else {
                        Ok(())
                    },
                }
            }),
            r is Err ==> final(self)@ == old(self)@,
            r is Ok ==> final(self)@ == Self::destroyed_view(old(self)@),
    {
        if self.destroyed {
            return Err(Error::ContractDestroyed);
        }
        if self.frozen {
            return Err(Error::ContractFrozen);
        }
        self.check_two_admins(admin1, admin2)?;
        if self.admins.len() < 2 {
            return Err(Error::MultiSigValidationFailed);
        }
        self.wipe();
        Ok(())
    }

    /// Sets the Community Council address that may trigger an emergency freeze.
    pub fn set_council(&mut self, ledger: &Ledger, admin: &String, council: String) -> (r: Result<
        (),
        Error,
    >)
        ensures
            r == (match old(self)@.gate(Some(admin@), false, true) {
                Some(e) => Err(e),
                None => Ok(()),
            }),
            r is Err ==> final(self)@ == old(self)@,
            r is Ok ==> final(self)@ == (OracleView {
                council: Some(council),
                admin_update_timestamp: Some(ledger.timestamp),
                ..old(self)@
            }),
    {
        self.check_gate(Some(admin), false, true)?;
        self.admin_update_timestamp = Some(ledger.timestamp);
        self.council = Some(council);
        Ok(())
    }

    /// The Community Council address, if set.
    pub fn get_council(&self) -> (r: Option<String>)
        ensures
            r == self@.council,
    {
        crate::price_oracle::types::clone_opt_string(&self.council)
    }

    /// Freezes the contract; only the Community Council may do so, once.
    pub fn emergency_freeze(&mut self, council: &String) -> (r: Result<(), Error>)
        ensures
            r == (if old(self)@.destroyed {
                Err(Error::ContractDestroyed)
            } else if old(self)@.council is None || old(self)@.council.unwrap()@ != council@ {
                Err(Error::NotAuthorized)
            } else if old(self)@.frozen {
                Err(Error::AlreadyInitialized)
            } else {
                Ok(())
            }),
            r is Err ==> final(self)@ == old(self)@,
            r is Ok ==> final(self)@ == (OracleView { frozen: true, ..old(self)@ }),
    {
        if self.destroyed {
            return Err(Error::ContractDestroyed);
        }
        match &self.council {
            None => {
                return Err(Error::NotAuthorized);
            },
            Some(c) => {
                if *c != *council {
                    return Err(Error::NotAuthorized);
                }
            },
        }
        if self.frozen {
            return Err(Error::AlreadyInitialized);
        }
        self.frozen = true;
        Ok(())
    }

    /// Whether the contract is emergency frozen.
    pub fn is_frozen(&self) -> (r: bool)
        ensures
            r == self@.frozen,
    {
        self.frozen
    }

    /// Halts or resumes every public rate read, with the signatures of two
    /// distinct admins.
    pub fn set_emergency_halt(&mut self, admin1: &String, admin2: &String, status: bool) -> (r:
        Result<(), Error>)
        ensures
            r == (if old(self)@.destroyed {
                Err(Error::ContractDestroyed)
            } else {
                match two_admin_check(old(self)@, admin1@, admin2@) {
                    Some(e) => Err(e),
                    None => Ok(()),
                }
            }),
            r is Err ==> final(self)@ == old(self)@,
            r is Ok ==> final(self)@ == (OracleView { halted: status, ..old(self)@ }),
    {
        if self.destroyed {
            return Err(Error::ContractDestroyed);
        }
        self.check_two_admins(admin1, admin2)?;
        self.halted = status;
        Ok(())
    }

    /// Whether rate reads are halted.
    pub fn is_halted(&self) -> (r: bool)
        ensures
            r == self@.halted,
    {
        self.halted
    }

    /// Opens a one-hour window in which the flash-crash, floor and bounds
    /// checks of `update_price` are skipped; returns the window's end.
    pub fn enable_bypass_safety_checks(&mut self, ledger: &Ledger, admin: &String) -> (r: Result<
        u64,
        Error,
    >)
        requires
            ledger.timestamp + BYPASS_WINDOW_SECONDS <= u64::MAX,
        ensures
            r == (match old(self)@.gate(Some(admin@), false, true) {
                Some(e) => Err(e),
                None => Ok((ledger.timestamp + BYPASS_WINDOW_SECONDS) as u64),
            }),
            r is Err ==> final(self)@ == old(self)@,
            r is Ok ==> final(self)@ == (OracleView {
                bypass_expiry: Some((ledger.timestamp + BYPASS_WINDOW_SECONDS) as u64),
                admin_update_timestamp: Some(ledger.timestamp),
                ..old(self)@
            }),
    {
        self.check_gate(Some(admin), false, true)?;
        let expiry = ledger.timestamp + BYPASS_WINDOW_SECONDS;
        self.bypass_expiry = Some(expiry);
        self.admin_update_timestamp = Some(ledger.timestamp);
        Ok(expiry)
    }

    /// Revokes the safety-check bypass immediately.
    pub fn disable_bypass_safety_checks(&mut self, ledger: &Ledger, admin: &String) -> (r: Result<
        (),
        Error,
    >)
        ensures
            r == (match old(self)@.gate(Some(admin@), false, false) {
                Some(e) => Err(e),
                None => Ok(()),
            }),
            r is Err ==> final(self)@ == old(self)@,
            r is Ok ==> final(self)@ == (OracleView {
                bypass_expiry: None,
                admin_update_timestamp: Some(ledger.timestamp),
                ..old(self)@
            }),
    {
        self.check_gate(Some(admin), false, false)?;
        self.bypass_expiry = None;
        self.admin_update_timestamp = Some(ledger.timestamp);
        Ok(())
    }

    /// The stored end of the bypass window, expired or not.
    pub fn get_bypass_safety_checks_expiry(&self) -> (r: Option<u64>)
        ensures
            r == self@.bypass_expiry,
    {
        self.bypass_expiry
    }

    /// Sets the minimum number of votes a proposal needs to execute.
    pub fn set_min_quorum_threshold(&mut self, admin: &String, threshold: u32) -> (r: Result<
        (),
        Error,
    >)
        ensures
            r == (match old(self)@.gate(Some(admin@), true, true) {
                Some(e) => Err(e),
                None => if threshold == 0 {
                    Err(Error::MultiSigValidationFailed)
                } else {
                    Ok(())
                },
            }),
            r is Err ==> final(self)@ == old(self)@,
            r is Ok ==> final(self)@ == (OracleView {
                min_quorum_threshold: Some(threshold),
                ..old(self)@
            }),
    {
        self.check_gate(Some(admin), true, true)?;
        if threshold == 0 {
            return Err(Error::MultiSigValidationFailed);
        }
        self.min_quorum_threshold = Some(threshold);
        Ok(())
    }

    /// The minimum quorum, 1 when unset.
    pub fn get_min_quorum_threshold(&self) -> (r: u32)
        ensures
            r == match self@.min_quorum_threshold {
                Some(t) => t,
                None => 1,
            },
    {
        match self.min_quorum_threshold {
            Some(t) => t,
            None => 1,
        }
    }

    /// Moves `amount` of `token` held by the contract to `to`; returns the
    /// transfer to perform.
    pub fn rescue_tokens(
        &self,
        ledger: &Ledger,
        admin: &String,
        token: String,
        to: String,
        amount: i128,
    ) -> (r: Result<Transfer, Error>)
        ensures
            match self@.gate(Some(admin@), false, true) {
                Some(e) => r == Err::<Transfer, Error>(e),
                None => if amount <= 0 {
                    r == Err::<Transfer, Error>(Error::InvalidPrice)
                } else {
                    r == Ok::<Transfer, Error>(
                        Transfer { token, from: ledger.contract_address, to, amount },
                    )
                },
            },
    {
        self.check_gate(Some(admin), false, true)?;
        if amount <= 0 {
            return Err(Error::InvalidPrice);
        }
        Ok(Transfer { token, from: ledger.contract_address.clone(), to, amount })
    }

    /// Authorizes replacing the contract code.
    pub fn upgrade(&self, admin: &String) -> (r: Result<(), Error>)
        ensures
            r == (match self@.gate(Some(admin@), false, true) {
                Some(e) => Err(e),
                None => Ok(()),
            }),
    {
        self.check_gate(Some(admin), false, true)
    }
}

} // verus!
