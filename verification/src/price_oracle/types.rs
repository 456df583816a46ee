//! Data types of the price oracle.

use vstd::prelude::*;

verus! {

/// Errors of the price oracle.
#[derive(Copy, Clone, Debug, PartialEq, Eq, Structural)]
pub enum Error {
    /// Asset does not exist in the price oracle.
    AssetNotFound,
    /// Unauthorized caller - not a whitelisted provider or admin.
    Unauthorized,
    /// Asset symbol is not in the tracked list.
    InvalidAssetSymbol,
    /// Price must be greater than zero.
    InvalidPrice,
    /// Price change exceeds the maximum allowed deviation (flash crash protection).
    FlashCrashDetected,
    /// Caller is not authorized to perform this action.
    NotAuthorized,
    /// Contract, admin or submission already exists.
    AlreadyInitialized,
    /// Price change exceeds the allowed delta limit in a single update.
    PriceDeltaExceeded,
    /// Price is outside the configured floor or min/max bounds for the asset.
    PriceOutOfBounds,
    /// Index component weight is invalid.
    InvalidWeight,
    /// Multi-signature validation failed.
    MultiSigValidationFailed,
    /// Cannot add more admins - maximum of 3 admins allowed.
    MaxAdminsReached,
    /// Cannot remove the last admin.
    CannotRemoveLastAdmin,
    /// Reentrancy detected - the guarded operation is already executing.
    ReentrancyDetected,
    /// Action not found.
    ActionNotFound,
    /// Vote threshold not reached.
    ThresholdNotReached,
    /// Invalid action type for execution.
    InvalidActionType,
    /// Action has already been executed.
    ActionAlreadyExecuted,
    /// Action has been cancelled.
    ActionCancelled,
    /// Contract has been permanently destroyed.
    ContractDestroyed,
    /// Delegate assignment is invalid.
    InvalidDelegate,
    /// Total votes cast are below the minimum quorum.
    QuorumNotReached,
    /// No previous value has been backed up for this parameter.
    NoPreviousConfig,
    /// Contract has not been initialized yet.
    NotInitialized,
    /// Contract is emergency halted - all rate reads are blocked.
    EmergencyHalted,
    /// The stored rate is older than the maximum allowed age.
    StaleRateData,
    /// The normalized price is not strictly positive.
    InvalidNormalizedPrice,
    /// No admin is registered.
    AdminNotSet,
    /// No admin transfer is pending.
    PendingAdminNotFound,
    /// The caller is not the pending admin.
    NotPendingAdmin,
    /// The pending admin transfer has no start time.
    PendingAdminTimestampMissing,
    /// The admin transfer timelock has not expired yet.
    AdminTimelockNotExpired,
    /// Too many assets in one batch.
    TooManyAssets,
    /// The price floor is not positive or lies above the configured maximum price.
    InvalidPriceFloor,
    /// The price bounds are not positive, inverted, or below the price floor.
    InvalidPriceBounds,
    /// The maximum deviation is outside (0, 10000] basis points.
    InvalidMaxDeviation,
    /// A stake or slash amount is not positive or not a valid decimal.
    InvalidSlashAmount,
    /// No staking token is configured.
    SlashTokenNotSet,
    /// The relayer's stake is smaller than the requested amount.
    InsufficientStake,
    /// No insurance reserve is configured.
    InsuranceReserveNotSet,
    /// The contract is emergency frozen.
    ContractFrozen,
    /// The contract is already subscribed to price updates.
    AlreadySubscribed,
    /// The contract is not subscribed to price updates.
    SubscriberNotFound,
}

/// A stored price for one asset.
#[derive(Debug)]
pub struct PriceData {
    /// Price, normalized to 9 fixed-point decimals.
    pub price: i128,
    /// Ledger timestamp at which the price was written.
    pub timestamp: u64,
    /// Address that supplied the price.
    pub provider: String,
    /// Number of decimals of `price`.
    pub decimals: u32,
    /// Confidence score given with the price.
    pub confidence_score: u32,
    /// Time-to-live of the price, in seconds.
    pub ttl: u64,
}

/// A stored price together with whether its time-to-live has run out.
#[derive(Debug)]
pub struct PriceDataWithStatus {
    pub data: PriceData,
    pub is_stale: bool,
}

/// The price fields returned by batch reads.
#[derive(Clone, Copy, Debug, PartialEq, Eq, Structural)]
pub struct PriceEntry {
    pub price: i128,
    pub timestamp: u64,
    pub decimals: u32,
}

/// The price fields returned by batch reads, with staleness.
#[derive(Clone, Copy, Debug, PartialEq, Eq, Structural)]
pub struct PriceEntryWithStatus {
    pub price: i128,
    pub timestamp: u64,
    pub is_stale: bool,
}

/// Inclusive bounds on the accepted price of an asset.
#[derive(Clone, Copy, Debug, PartialEq, Eq, Structural)]
pub struct PriceBounds {
    pub min_price: i128,
    pub max_price: i128,
}

/// Native decimal precision of an asset pair.
#[derive(Clone, Copy, Debug, PartialEq, Eq, Structural)]
pub struct AssetMeta {
    pub base_decimals: u32,
    pub quote_decimals: u32,
}

/// Lightweight metadata of an asset.
#[derive(Debug)]
pub struct AssetInfo {
    pub name: String,
    pub base_decimals: u32,
    pub quote_decimals: u32,
}

/// One component of an index basket.
#[derive(Debug)]
pub struct AssetWeight {
    pub asset: String,
    pub weight: u32,
}

/// One relayer submission in the current ledger.
#[derive(Debug)]
pub struct PriceBufferEntry {
    pub price: i128,
    pub provider: String,
    pub timestamp: u64,
}

/// The relayer submissions of one asset in one ledger.
#[derive(Debug)]
pub struct PriceBuffer {
    pub entries: Vec<PriceBufferEntry>,
    pub ledger_sequence: u32,
    pub decimals: u32,
    pub ttl: u64,
}

/// An entry of the on-chain activity log.
#[derive(Debug)]
pub struct RecentEvent {
    pub event_type: String,
    pub asset: String,
    pub price: i128,
    pub timestamp: u64,
}

/// Kinds of administrative actions; the first six can be proposed and executed.
#[derive(Clone, Copy, Debug, PartialEq, Eq, Structural)]
pub enum AdminAction {
    TogglePause,
    RegisterAdmin,
    RemoveAdmin,
    SelfDestruct,
    Upgrade,
    Slash,
    Initialize,
    InitAdmin,
    AddAsset,
    TransferAdminInitiated,
    TransferAdminAccepted,
    RenounceOwnership,
    RescueTokens,
    ProposeAction,
    VoteForAction,
    CancelAction,
    SetCouncil,
    EnableBypassSafetyChecks,
    DisableBypassSafetyChecks,
    SetSlashToken,
    SetInsuranceReserve,
}

/// A governance proposal.
#[derive(Debug)]
pub struct ProposedAction {
    pub action_id: u64,
    pub action_type: AdminAction,
    pub target: Option<String>,
    pub data: String,
    pub proposed_at: u64,
    pub executed: bool,
    pub cancelled: bool,
}

/// The ledger facts an operation reads.
#[derive(Debug)]
pub struct Ledger {
    /// Ledger close time, in seconds.
    pub timestamp: u64,
    /// Ledger sequence number.
    pub sequence: u32,
    /// Address of the oracle contract itself.
    pub contract_address: String,
}

/// A token transfer the host must perform.
#[derive(Debug)]
pub struct Transfer {
    pub token: String,
    pub from: String,
    pub to: String,
    pub amount: i128,
}


impl Clone for PriceData {
    fn clone(&self) -> (r: Self)
        ensures
            r == *self,
    {
        PriceData {
            price: self.price,
            timestamp: self.timestamp,
            provider: self.provider.clone(),
            decimals: self.decimals,
            confidence_score: self.confidence_score,
            ttl: self.ttl,
        }
    }
}

impl Clone for PriceDataWithStatus {
    fn clone(&self) -> (r: Self)
        ensures
            r == *self,
    {
        PriceDataWithStatus { data: self.data.clone(), is_stale: self.is_stale }
    }
}

impl Clone for AssetInfo {
    fn clone(&self) -> (r: Self)
        ensures
            r == *self,
    {
        AssetInfo {
            name: self.name.clone(),
            base_decimals: self.base_decimals,
            quote_decimals: self.quote_decimals,
        }
    }
}

impl Clone for AssetWeight {
    fn clone(&self) -> (r: Self)
        ensures
            r == *self,
    {
        AssetWeight { asset: self.asset.clone(), weight: self.weight }
    }
}

impl Clone for PriceBufferEntry {
    fn clone(&self) -> (r: Self)
        ensures
            r == *self,
    {
        PriceBufferEntry {
            price: self.price,
            provider: self.provider.clone(),
            timestamp: self.timestamp,
        }
    }
}

impl Clone for PriceBuffer {
    fn clone(&self) -> (r: Self)
        ensures
            r.entries@ == self.entries@,
            r.ledger_sequence == self.ledger_sequence,
            r.decimals == self.decimals,
            r.ttl == self.ttl,
    {
        let entries = self.entries.clone();
        assert(entries@ =~= self.entries@);
        PriceBuffer {
            entries,
            ledger_sequence: self.ledger_sequence,
            decimals: self.decimals,
            ttl: self.ttl,
        }
    }
}

impl Clone for RecentEvent {
    fn clone(&self) -> (r: Self)
        ensures
            r == *self,
    {
        RecentEvent {
            event_type: self.event_type.clone(),
            asset: self.asset.clone(),
            price: self.price,
            timestamp: self.timestamp,
        }
    }
}

/// Copies an optional string.
pub fn clone_opt_string(s: &Option<String>) -> (r: Option<String>)
    ensures
        r == *s,
{
    match s {
        Some(x) => Some(x.clone()),
        None => None,
    }
}

impl Clone for ProposedAction {
    fn clone(&self) -> (r: Self)
        ensures
            r == *self,
    {
        ProposedAction {
            action_id: self.action_id,
            action_type: self.action_type,
            target: clone_opt_string(&self.target),
            data: self.data.clone(),
            proposed_at: self.proposed_at,
            executed: self.executed,
            cancelled: self.cancelled,
        }
    }
}

impl Clone for Ledger {
    fn clone(&self) -> (r: Self)
        ensures
            r == *self,
    {
        Ledger {
            timestamp: self.timestamp,
            sequence: self.sequence,
            contract_address: self.contract_address.clone(),
        }
    }
}

impl Clone for Transfer {
    fn clone(&self) -> (r: Self)
        ensures
            r == *self,
    {
        Transfer {
            token: self.token.clone(),
            from: self.from.clone(),
            to: self.to.clone(),
            amount: self.amount,
        }
    }
}

} // verus!
