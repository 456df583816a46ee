//! The time-locked upgrade contract: upgrades proposed by the admin can only
//! be executed after a 48-hour delay; per-asset heartbeats record when data
//! was last refreshed; per-address nonces order admin operations.

use vstd::prelude::*;
use crate::keyed::KeyedStore;

verus! {

/// Delay between proposing and executing an upgrade, in seconds (48 hours).
pub const UPGRADE_DELAY_SECONDS: u64 = 172_800;

/// Default heartbeat interval, in seconds (5 minutes).
pub const DEFAULT_HEARTBEAT_INTERVAL: u64 = 300;

/// The admin and the stored value.
#[derive(Debug)]
pub struct ContractData {
    pub admin: String,
    pub value: u64,
}

impl Clone for ContractData {
    fn clone(&self) -> (r: Self)
        ensures
            r == *self,
    {
        ContractData { admin: self.admin.clone(), value: self.value }
    }
}

/// A proposed upgrade.
#[derive(Debug)]
pub struct PendingUpgrade {
    pub new_wasm_hash: [u8; 32],
    pub proposed_at: u64,
    pub proposer: String,
}

impl Clone for PendingUpgrade {
    fn clone(&self) -> (r: Self)
        ensures
            r == *self,
    {
        PendingUpgrade {
            new_wasm_hash: self.new_wasm_hash,
            proposed_at: self.proposed_at,
            proposer: self.proposer.clone(),
        }
    }
}

/// Errors of the upgrade contract.
#[derive(Clone, Copy, Debug, PartialEq, Eq, Structural)]
pub enum ContractError {
    AlreadyInitialized,
    NotInitialized,
    NotAdmin,
    NoPendingUpgrade,
    UpgradeTimelockNotSatisfied,
    InvalidHeartbeatInterval,
}

/// Storage key of a coordinator's nonce.
#[derive(Debug)]
pub enum NonceKey {
    Nonce(String),
}

/// The state of the upgrade contract.
pub struct TimeLockedUpgradeContract {
    pub data: Option<ContractData>,
    pub pending_upgrade: Option<PendingUpgrade>,
    /// Last heartbeat per asset.
    pub heartbeats: KeyedStore<u64>,
    pub heartbeat_interval: Option<u64>,
    /// Next expected nonce per coordinator.
    pub nonces: KeyedStore<u64>,
}

/// The upgrade contract state as a mathematical value.
#[verifier::ext_equal]
pub struct UpgradeView {
    pub data: Option<ContractData>,
    pub pending_upgrade: Option<PendingUpgrade>,
    pub heartbeats: Map<Seq<char>, u64>,
    pub heartbeat_interval: Option<u64>,
    pub nonces: Map<Seq<char>, u64>,
}

impl View for TimeLockedUpgradeContract {
    type V = UpgradeView;

    open spec fn view(&self) -> UpgradeView {
        UpgradeView {
            data: self.data,
            pending_upgrade: self.pending_upgrade,
            heartbeats: self.heartbeats@,
            heartbeat_interval: self.heartbeat_interval,
            nonces: self.nonces@,
        }
    }
}

/// The next expected nonce of a coordinator, zero when none was consumed.
pub open spec fn nonce_of(nonces: Map<Seq<char>, u64>, coordinator: Seq<char>) -> u64 {
    if nonces.contains_key(coordinator) {
        nonces[coordinator]
    } else {
        0
    }
}

/// The heartbeat interval in force.
pub open spec fn interval_of(v: UpgradeView) -> u64 {
    match v.heartbeat_interval {
        Some(i) => i,
        None => DEFAULT_HEARTBEAT_INTERVAL,
    }
}

/// Data recorded at `last` is fresh at `now` when at most one interval has
/// passed (time running backwards counts as no time).
pub open spec fn fresh(now: u64, last: u64, interval: u64) -> bool {
    (if now < last {
        0
    } else {
        now - last
    }) <= interval
}

/// The first check an admin operation fails: the contract must be
/// initialized and `caller` must be its admin.
pub open spec fn admin_rejection(v: UpgradeView, caller: Seq<char>) -> Option<ContractError> {
    match v.data {
        None => Some(ContractError::NotInitialized),
        Some(d) => if d.admin@ != caller {
            Some(ContractError::NotAdmin)
        } else {
            None
        },
    }
}

/// The time an upgrade proposed at `proposed_at` has been waiting at `now`.
pub open spec fn elapsed(now: u64, proposed_at: u64) -> u64 {
    if now < proposed_at {
        0
    } else {
        (now - proposed_at) as u64
    }
}

impl UpgradeView {
    /// What `propose_upgrade` does: the proposal replaces any pending one and
    /// the proposer's nonce is consumed.
    pub open spec fn propose_outcome(
        self,
        now: u64,
        new_wasm_hash: [u8; 32],
        proposer: String,
        nonce: u64,
    ) -> Result<UpgradeView, ContractError> {
        match admin_rejection(self, proposer@) {
            Some(e) => Err(e),
            None => Ok(
                UpgradeView {
                    pending_upgrade: Some(
                        PendingUpgrade { new_wasm_hash, proposed_at: now, proposer },
                    ),
                    nonces: self.nonces.insert(proposer@, (nonce + 1) as u64),
                    ..self
                },
            ),
        }
    }

    /// What `execute_upgrade` does: the code hash to install once the delay
    /// has passed, with the next state.
    pub open spec fn execute_outcome(self, now: u64, executor: Seq<char>, nonce: u64) -> Result<
        ([u8; 32], UpgradeView),
        ContractError,
    > {
        match admin_rejection(self, executor) {
            Some(e) => Err(e),
            None => match self.pending_upgrade {
                None => Err(ContractError::NoPendingUpgrade),
                Some(p) => if elapsed(now, p.proposed_at) < UPGRADE_DELAY_SECONDS {
                    Err(ContractError::UpgradeTimelockNotSatisfied)
                } else {
                    Ok(
                        (
                            p.new_wasm_hash,
                            UpgradeView {
                                pending_upgrade: None,
                                nonces: self.nonces.insert(executor, (nonce + 1) as u64),
                                ..self
                            },
                        ),
                    )
                },
            },
        }
    }

    /// The state with a heartbeat of `asset` recorded at `now`.
    pub open spec fn with_heartbeat(self, asset: Seq<char>, now: u64) -> UpgradeView {
        UpgradeView { heartbeats: self.heartbeats.insert(asset, now), ..self }
    }

    /// `asset` had a heartbeat within the last interval before `now`.
    pub open spec fn data_fresh(self, now: u64, asset: Seq<char>) -> bool {
        self.heartbeats.contains_key(asset) && fresh(now, self.heartbeats[asset], interval_of(self))
    }
}

/// An upgrade can be executed exactly when the 48-hour delay has passed since
/// it was proposed; it then hands back the proposed code hash.
pub proof fn law_upgrade_timelock(
    v: UpgradeView,
    proposed_at: u64,
    new_wasm_hash: [u8; 32],
    proposer: String,
    nonce: u64,
    now: u64,
)
    requires
        v.propose_outcome(proposed_at, new_wasm_hash, proposer, nonce) is Ok,
    ensures
        ({
            let w = v.propose_outcome(proposed_at, new_wasm_hash, proposer, nonce)->Ok_0;
            &&& now < proposed_at + UPGRADE_DELAY_SECONDS ==> w.execute_outcome(
                now,
                proposer@,
                (nonce + 1) as u64,
            ) == Err::<([u8; 32], UpgradeView), ContractError>(
                ContractError::UpgradeTimelockNotSatisfied,
            )
            &&& now >= proposed_at + UPGRADE_DELAY_SECONDS ==> (w.execute_outcome(
                now,
                proposer@,
                (nonce + 1) as u64,
            ) matches Ok((h, x)) && h == new_wasm_hash && x.pending_upgrade is None)
        }),
{
}

/// Right after a heartbeat the asset's data is fresh, and it stays fresh for
/// exactly one heartbeat interval.
pub proof fn law_heartbeat_freshness(v: UpgradeView, asset: Seq<char>, now: u64, later: u64)
    requires
        now <= later,
    ensures
        v.with_heartbeat(asset, now).data_fresh(now, asset),
        v.with_heartbeat(asset, now).data_fresh(later, asset) <==> later - now <= interval_of(v),
{
}

/// A consumed nonce is never expected again: the coordinator's next expected
/// nonce moves one past it, so replaying it is refused, and other
/// coordinators' nonces are unchanged.
pub proof fn law_consumed_nonce_advances(
    nonces: Map<Seq<char>, u64>,
    coordinator: Seq<char>,
    other: Seq<char>,
    incoming_nonce: u64,
)
    requires
        incoming_nonce == nonce_of(nonces, coordinator),
        incoming_nonce < u64::MAX,
    ensures
        nonce_of(nonces.insert(coordinator, (incoming_nonce + 1) as u64), coordinator)
            == incoming_nonce + 1,
        other != coordinator ==> nonce_of(
            nonces.insert(coordinator, (incoming_nonce + 1) as u64),
            other,
        ) == nonce_of(nonces, other),
        nonce_of(nonces.insert(coordinator, (incoming_nonce + 1) as u64), coordinator)
            != incoming_nonce,
{
}

/// The next expected nonce of `coordinator`.
pub fn get_nonce(nonces: &KeyedStore<u64>, coordinator: &String) -> (r: u64)
    ensures
        r == nonce_of(nonces@, coordinator@),
{
    match nonces.get(coordinator) {
        Some(n) => *n,
        None => 0,
    }
}

/// Whether `incoming_nonce` is the nonce `coordinator` is expected to give
/// next; any other nonce, a replayed one among them, is refused.
pub fn nonce_accepted(nonces: &KeyedStore<u64>, coordinator: &String, incoming_nonce: u64) -> (r: bool)
    ensures
        r == (incoming_nonce == nonce_of(nonces@, coordinator@)),
{
    get_nonce(nonces, coordinator) == incoming_nonce
}

/// Consumes the expected nonce of `coordinator`, which must be the one given.
pub fn consume_nonce(nonces: &mut KeyedStore<u64>, coordinator: &String, incoming_nonce: u64)
    requires
        incoming_nonce == nonce_of(old(nonces)@, coordinator@),
        incoming_nonce < u64::MAX,
    ensures
        final(nonces)@ == old(nonces)@.insert(coordinator@, (incoming_nonce + 1) as u64),
{
    let expected = get_nonce(nonces, coordinator);
    nonces.set(coordinator.clone(), expected + 1);
}

impl TimeLockedUpgradeContract {
    /// The state of a freshly deployed contract: nothing stored.
    pub fn new() -> (s: Self)
        ensures
            s@ == (UpgradeView {
                data: None,
                pending_upgrade: None,
                heartbeats: Map::empty(),
                heartbeat_interval: None,
                nonces: Map::empty(),
            }),
    {
        TimeLockedUpgradeContract {
            data: None,
            pending_upgrade: None,
            heartbeats: KeyedStore::new(),
            heartbeat_interval: None,
            nonces: KeyedStore::new(),
        }
    }

    /// Checks that the contract is initialized and `caller` is its admin.
    fn check_admin(&self, caller: &String) -> (r: Result<(), ContractError>)
        ensures
            r == (match admin_rejection(self@, caller@) {
                Some(e) => Err(e),
                None => Ok(()),
            }),
    {
        match &self.data {
            None => Err(ContractError::NotInitialized),
            Some(d) => if d.admin != *caller {
                Err(ContractError::NotAdmin)
            } else {
                Ok(())
            },
        }
    }

    /// Initializes the contract with an admin and a value of zero.
    pub fn initialize(&mut self, admin: String) -> (r: Result<(), ContractError>)
        ensures
            r == (if old(self)@.data is Some {
                Err(ContractError::AlreadyInitialized)
            } else {
                Ok(())
            }),
            r is Err ==> final(self)@ == old(self)@,
            r is Ok ==> final(self)@ == (UpgradeView {
                data: Some(ContractData { admin, value: 0 }),
                ..old(self)@
            }),
    {
        if self.data.is_some() {
            return Err(ContractError::AlreadyInitialized);
        }
        self.data = Some(ContractData { admin, value: 0 });
        Ok(())
    }

    /// The admin and value.
    pub fn get_data(&self) -> (r: Result<ContractData, ContractError>)
        ensures
            r == (match self@.data {
                Some(d) => Ok(d),
                None => Err(ContractError::NotInitialized),
            }),
    {
        match &self.data {
            Some(d) => Ok(d.clone()),
            None => Err(ContractError::NotInitialized),
        }
    }

    /// Proposes an upgrade to `new_wasm_hash`, starting the 48-hour delay;
    /// replaces any pending proposal.
    pub fn propose_upgrade(
        &mut self,
        now: u64,
        new_wasm_hash: [u8; 32],
        proposer: String,
        nonce: u64,
    ) -> (r: Result<(), ContractError>)
        requires
            admin_rejection(old(self)@, proposer@) is None ==> nonce == nonce_of(
                old(self)@.nonces,
                proposer@,
            ) && nonce < u64::MAX,
        ensures
            match old(self)@.propose_outcome(now, new_wasm_hash, proposer, nonce) {
                Ok(w) => r is Ok && final(self)@ == w,
                Err(e) => r == Err::<(), ContractError>(e) && final(self)@ == old(self)@,
            },
    {
        self.check_admin(&proposer)?;
        consume_nonce(&mut self.nonces, &proposer, nonce);
        self.pending_upgrade = Some(PendingUpgrade { new_wasm_hash, proposed_at: now, proposer });
        Ok(())
    }

    /// Executes the pending upgrade once 48 hours have passed since it was
    /// proposed: returns the code hash to install and clears the proposal.
    pub fn execute_upgrade(&mut self, now: u64, executor: &String, nonce: u64) -> (r: Result<
        [u8; 32],
        ContractError,
    >)
        requires
            admin_rejection(old(self)@, executor@) is None ==> nonce == nonce_of(
                old(self)@.nonces,
                executor@,
            ) && nonce < u64::MAX,
        ensures
            match old(self)@.execute_outcome(now, executor@, nonce) {
                Ok((h, w)) => r == Ok::<[u8; 32], ContractError>(h) && final(self)@ == w,
                Err(e) => r == Err::<[u8; 32], ContractError>(e) && final(self)@ == old(self)@,
            },
    {
        self.check_admin(executor)?;
        let hash = match &self.pending_upgrade {
            None => {
                return Err(ContractError::NoPendingUpgrade);
            },
            Some(p) => {
                let time_elapsed = now.saturating_sub(p.proposed_at);
                if time_elapsed < UPGRADE_DELAY_SECONDS {
                    return Err(ContractError::UpgradeTimelockNotSatisfied);
                }
                p.new_wasm_hash
            },
        };
        consume_nonce(&mut self.nonces, executor, nonce);
        self.pending_upgrade = None;
        Ok(hash)
    }

    /// Cancels the pending upgrade.
    pub fn cancel_upgrade(&mut self, canceller: &String) -> (r: Result<(), ContractError>)
        ensures
            r == (match admin_rejection(old(self)@, canceller@) {
                Some(e) => Err(e),
                None => if old(self)@.pending_upgrade is None {
                    Err(ContractError::NoPendingUpgrade)
                } else {
                    Ok(())
                },
            }),
            r is Err ==> final(self)@ == old(self)@,
            r is Ok ==> final(self)@ == (UpgradeView { pending_upgrade: None, ..old(self)@ }),
    {
        self.check_admin(canceller)?;
        if self.pending_upgrade.is_none() {
            return Err(ContractError::NoPendingUpgrade);
        }
        self.pending_upgrade = None;
        Ok(())
    }

    /// The pending upgrade, if any.
    pub fn get_pending_upgrade(&self) -> (r: Option<PendingUpgrade>)
        ensures
            r == self@.pending_upgrade,
    {
        match &self.pending_upgrade {
            Some(p) => Some(p.clone()),
            None => None,
        }
    }

    /// Seconds left before the pending upgrade may execute (0 once the delay
    /// has passed); `None` without a pending upgrade.
    pub fn get_upgrade_timelock_remaining(&self, now: u64) -> (r: Option<u64>)
        ensures
            r == (match self@.pending_upgrade {
                None => None,
                Some(p) => Some(
                    if elapsed(now, p.proposed_at) < UPGRADE_DELAY_SECONDS {
                        (UPGRADE_DELAY_SECONDS - elapsed(now, p.proposed_at)) as u64
                    } else {
                        0
                    },
                ),
            }),
    {
        match &self.pending_upgrade {
            Some(p) => {
                let time_elapsed = now.saturating_sub(p.proposed_at);
                if time_elapsed < UPGRADE_DELAY_SECONDS {
                    Some(UPGRADE_DELAY_SECONDS - time_elapsed)
                } else {
                    Some(0)
                }
            },
            None => None,
        }
    }

    /// Sets the stored value and records a heartbeat for the "VALUE" asset.
    pub fn set_value(&mut self, now: u64, value: u64, setter: &String, nonce: u64) -> (r: Result<
        (),
        ContractError,
    >)
        requires
            admin_rejection(old(self)@, setter@) is None ==> nonce == nonce_of(
                old(self)@.nonces,
                setter@,
            ) && nonce < u64::MAX,
        ensures
            r == (match admin_rejection(old(self)@, setter@) {
                Some(e) => Err(e),
                None => Ok(()),
            }),
            r is Err ==> final(self)@ == old(self)@,
            r is Ok ==> final(self)@ == (UpgradeView {
                data: Some(ContractData { value, ..old(self)@.data.unwrap() }),
                nonces: old(self)@.nonces.insert(setter@, (nonce + 1) as u64),
                heartbeats: old(self)@.heartbeats.insert("VALUE"@, now),
                ..old(self)@
            }),
    {
        self.check_admin(setter)?;
        consume_nonce(&mut self.nonces, setter, nonce);
        let admin = match &self.data {
            Some(d) => d.admin.clone(),
            None => String::new(),
        };
        self.data = Some(ContractData { admin, value });
        self.heartbeats.set("VALUE".to_owned(), now);
        Ok(())
    }

    /// Records a heartbeat for `asset` at `now`.
    pub fn update_heartbeat(&mut self, now: u64, asset: String, updater: &String) -> (r: Result<
        (),
        ContractError,
    >)
        ensures
            r == (match admin_rejection(old(self)@, updater@) {
                Some(e) => Err(e),
                None => Ok(()),
            }),
            r is Err ==> final(self)@ == old(self)@,
            r is Ok ==> final(self)@ == old(self)@.with_heartbeat(asset@, now),
    {
        self.check_admin(updater)?;
        self.heartbeats.set(asset, now);
        Ok(())
    }

    /// Whether `asset` had a heartbeat within the last interval; never-updated
    /// assets are not fresh.
    pub fn is_data_fresh(&self, now: u64, asset: &String) -> (r: bool)
        ensures
            r == self@.data_fresh(now, asset@),
    {
        match self.heartbeats.get(asset) {
            Some(last) => {
                let elapsed = now.saturating_sub(*last);
                elapsed <= self.get_heartbeat_interval()
            },
            None => false,
        }
    }

    /// The time of the last heartbeat of `asset`, if any.
    pub fn get_last_update_timestamp(&self, asset: &String) -> (r: Option<u64>)
        ensures
            r == (if self@.heartbeats.contains_key(asset@) {
                Some(self@.heartbeats[asset@])
            } else {
                None
            }),
    {
        match self.heartbeats.get(asset) {
            Some(t) => Some(*t),
            None => None,
        }
    }

    /// Sets the heartbeat interval, which must be positive.
    pub fn set_heartbeat_interval(&mut self, interval: u64, setter: &String) -> (r: Result<
        (),
        ContractError,
    >)
        ensures
            r == (match admin_rejection(old(self)@, setter@) {
                Some(e) => Err(e),
                None => if interval == 0 {
                    Err(ContractError::InvalidHeartbeatInterval)
                } else {
                    Ok(())
                },
            }),
            r is Err ==> final(self)@ == old(self)@,
            r is Ok ==> final(self)@ == (UpgradeView {
                heartbeat_interval: Some(interval),
                ..old(self)@
            }),
    {
        self.check_admin(setter)?;
        if interval == 0 {
            return Err(ContractError::InvalidHeartbeatInterval);
        }
        self.heartbeat_interval = Some(interval);
        Ok(())
    }

    /// The heartbeat interval, 300 seconds when unset.
    pub fn get_heartbeat_interval(&self) -> (r: u64)
        ensures
            r == interval_of(self@),
    {
        match self.heartbeat_interval {
            Some(i) => i,
            None => DEFAULT_HEARTBEAT_INTERVAL,
        }
    }

    /// The next expected nonce of a coordinator.
    pub fn get_coordinator_nonce(&self, coordinator: &String) -> (r: u64)
        ensures
            r == nonce_of(self@.nonces, coordinator@),
    {
        get_nonce(&self.nonces, coordinator)
    }
}

} // verus!
