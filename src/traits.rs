use vstd::prelude::*;

use crate::ledger::{ledger_error_at, LedgerError};

verus! {

/// The origin of the call. The smart contract can execute methods on behalf of the `caller`
/// or itself.
#[derive(Debug, Copy, Clone, PartialEq, Eq, Structural)]
pub enum Origin {
    /// The authority of the account that invoked the contract.
    Caller,
    /// The authority of the contract itself.
    Address,
}

impl Default for Origin {
    fn default() -> (r: Self)
        ensures
            r == Origin::Address,
    {
        Origin::Address
    }
}

/// The types used in the chain extension definition. The contract side and the runtime side
/// each have their own, so the gateway is agnostic of them.
pub trait Environment {
    type AccountId;
    type AssetId;
    type Balance;
}

/// A failure of a module of the runtime: the module's index and its encoded error.
#[derive(Debug, Copy, Clone, PartialEq, Eq)]
pub struct ModuleError {
    pub index: u8,
    pub error: [u8; 4],
}

/// A fault of the dispatch substrate, as reported by the runtime.
#[derive(Debug, Copy, Clone, PartialEq, Eq)]
pub enum CriticalError {
    Other,
    CannotLookup,
    BadOrigin,
    Module(ModuleError),
    ConsumerRemaining,
    NoProviders,
    TooManyConsumers,
    Token,
    Arithmetic,
    Transactional,
    Exhausted,
    Corruption,
    Unavailable,
}

/// The errors that the chain extension reports to its callers.
#[derive(Debug, Copy, Clone, PartialEq, Eq)]
pub enum Error {
    /// Only the admin can execute methods on behalf of the `caller`.
    ContractIsNotAdmin,
    /// Account balance must be greater than or equal to the transfer amount.
    BalanceLow,
    /// The account to alter does not exist.
    NoAccount,
    /// The signing account has no permission to do the operation.
    NoPermission,
    /// The given asset ID is unknown.
    Unknown,
    /// The asset ID is already taken.
    InUse,
    /// Invalid witness data given.
    BadWitness,
    /// Minimum balance should be non-zero.
    MinBalanceZero,
    /// Invalid metadata given.
    BadMetadata,
    /// No approval exists that would allow the transfer.
    Unapproved,
    /// The source account would not survive the transfer and it needs to stay alive.
    WouldDie,
    /// The asset-account already exists.
    AlreadyExists,
    /// The operation would result in funds being burned.
    WouldBurn,
    /// The asset is not live, and likely being destroyed.
    AssetNotLive,
    /// The asset status is not the expected status.
    IncorrectStatus,
    /// Unknown internal asset pallet error.
    DaoAssetPalletInternal,
    /// Critical errors which stop the execution of the chain extension on the runtime level.
    Critical(CriticalError),
}

/// Whether a ledger error has a member of its own in the taxonomy.
pub open spec fn is_business_error(e: LedgerError) -> bool {
    !matches!(e,
        LedgerError::Frozen | LedgerError::NoProvider | LedgerError::NoDeposit
        | LedgerError::LiveAsset | LedgerError::NotFrozen | LedgerError::CallbackFailed)
}

/// The taxonomy member that a ledger error is reported as.
pub open spec fn error_of_ledger(e: LedgerError) -> Error {
    match e {
        LedgerError::BalanceLow => Error::BalanceLow,
        LedgerError::NoAccount => Error::NoAccount,
        LedgerError::NoPermission => Error::NoPermission,
        LedgerError::Unknown => Error::Unknown,
        LedgerError::InUse => Error::InUse,
        LedgerError::BadWitness => Error::BadWitness,
        LedgerError::MinBalanceZero => Error::MinBalanceZero,
        LedgerError::BadMetadata => Error::BadMetadata,
        LedgerError::Unapproved => Error::Unapproved,
        LedgerError::WouldDie => Error::WouldDie,
        LedgerError::AlreadyExists => Error::AlreadyExists,
        LedgerError::WouldBurn => Error::WouldBurn,
        LedgerError::AssetNotLive => Error::AssetNotLive,
        LedgerError::IncorrectStatus => Error::IncorrectStatus,
        _ => Error::DaoAssetPalletInternal,
    }
}

/// The ledger error that a taxonomy member stands for, if it stands for one alone.
pub open spec fn ledger_of_error(e: Error) -> Option<LedgerError> {
    match e {
        Error::BalanceLow => Some(LedgerError::BalanceLow),
        Error::NoAccount => Some(LedgerError::NoAccount),
        Error::NoPermission => Some(LedgerError::NoPermission),
        Error::Unknown => Some(LedgerError::Unknown),
        Error::InUse => Some(LedgerError::InUse),
        Error::BadWitness => Some(LedgerError::BadWitness),
        Error::MinBalanceZero => Some(LedgerError::MinBalanceZero),
        Error::BadMetadata => Some(LedgerError::BadMetadata),
        Error::Unapproved => Some(LedgerError::Unapproved),
        Error::WouldDie => Some(LedgerError::WouldDie),
        Error::AlreadyExists => Some(LedgerError::AlreadyExists),
        Error::WouldBurn => Some(LedgerError::WouldBurn),
        Error::AssetNotLive => Some(LedgerError::AssetNotLive),
        Error::IncorrectStatus => Some(LedgerError::IncorrectStatus),
        _ => None,
    }
}

/// The ledger error carried by a runtime fault: a failure of the ledger's own module whose
/// payload decodes as a ledger error.
pub open spec fn ledger_error_in(ledger_index: u8, dispatch: CriticalError) -> Option<LedgerError> {
    match dispatch {
        CriticalError::Module(m) => if m.index == ledger_index {
            ledger_error_at(m.error@[0])
        } else {
            None
        },
        _ => None,
    }
}

/// The taxonomy member that a runtime fault is reported as, where `ledger_index` is the index
/// of the asset ledger's module in the runtime.
pub open spec fn error_of_critical(ledger_index: u8, dispatch: CriticalError) -> Error {
    match ledger_error_in(ledger_index, dispatch) {
        Some(e) => error_of_ledger(e),
        None => Error::Critical(dispatch),
    }
}

impl From<LedgerError> for Error {
    /// Maps a ledger error into the taxonomy; the ledger errors without a member of their own
    /// become `DaoAssetPalletInternal`.
    fn from(asset: LedgerError) -> (r: Error)
        ensures
            r == error_of_ledger(asset),
    {
        match asset {
            LedgerError::BalanceLow => Error::BalanceLow,
            LedgerError::NoAccount => Error::NoAccount,
            LedgerError::NoPermission => Error::NoPermission,
            LedgerError::Unknown => Error::Unknown,
            LedgerError::InUse => Error::InUse,
            LedgerError::BadWitness => Error::BadWitness,
            LedgerError::MinBalanceZero => Error::MinBalanceZero,
            LedgerError::BadMetadata => Error::BadMetadata,
            LedgerError::Unapproved => Error::Unapproved,
            LedgerError::WouldDie => Error::WouldDie,
            LedgerError::AlreadyExists => Error::AlreadyExists,
            LedgerError::WouldBurn => Error::WouldBurn,
            LedgerError::AssetNotLive => Error::AssetNotLive,
            LedgerError::IncorrectStatus => Error::IncorrectStatus,
            _ => Error::DaoAssetPalletInternal,
        }
    }
}

impl vstd::std_specs::convert::FromSpecImpl<LedgerError> for Error {
    open spec fn obeys_from_spec() -> bool {
        true
    }

    open spec fn from_spec(v: LedgerError) -> Error {
        error_of_ledger(v)
    }
}

impl Error {
    /// Maps a runtime fault into the taxonomy. A failure of the ledger's own module, at
    /// `ledger_index`, whose payload decodes as a ledger error is reported as that ledger
    /// error; any other fault is wrapped unchanged in `Critical`.
    pub fn from_critical(ledger_index: u8, dispatch: CriticalError) -> (r: Error)
        ensures
            r == error_of_critical(ledger_index, dispatch),
    {
        if let CriticalError::Module(module) = dispatch {
            if module.index == ledger_index {
                if let Some(asset_error) = LedgerError::decode(&module.error) {
                    return Error::from(asset_error);
                }
            }
        }
        Error::Critical(dispatch)
    }

    /// Hands out the fault of a `Critical` error, and gives any other error back.
    pub fn try_to_critical(self) -> (r: Result<CriticalError, Error>)
        ensures
            r == (match self {
                Error::Critical(c) => Ok::<CriticalError, Error>(c),
                _ => Err(self),
            }),
    {
        match self {
            Error::Critical(error) => Ok(error),
            _ => Err(self),
        }
    }
}

/// Every ledger error with a member of its own is reported as that member, and that member
/// stands for it alone; every other ledger error is reported as `DaoAssetPalletInternal`. No
/// ledger error is reported as `Critical` or as `ContractIsNotAdmin`.
pub proof fn lemma_ledger_error_round_trip(e: LedgerError)
    ensures
        is_business_error(e) ==> ledger_of_error(error_of_ledger(e)) == Some(e),
        !is_business_error(e) ==> error_of_ledger(e) == Error::DaoAssetPalletInternal,
        !(error_of_ledger(e) is Critical),
        error_of_ledger(e) != Error::ContractIsNotAdmin,
{
}

/// Two ledger errors with members of their own are reported as one member only if they are
/// the same error.
pub proof fn lemma_business_errors_distinct(a: LedgerError, b: LedgerError)
    requires
        is_business_error(a),
        is_business_error(b),
        error_of_ledger(a) == error_of_ledger(b),
    ensures
        a == b,
{
    lemma_ledger_error_round_trip(a);
    lemma_ledger_error_round_trip(b);
}

/// A failure of the ledger's own module whose payload decodes as a ledger error is reported as
/// that ledger error, never as `Critical`.
pub proof fn lemma_critical_remapped(ledger_index: u8, module: ModuleError, e: LedgerError)
    requires
        module.index == ledger_index,
        ledger_error_at(module.error@[0]) == Some(e),
    ensures
        error_of_critical(ledger_index, CriticalError::Module(module)) == error_of_ledger(e),
        !(error_of_critical(ledger_index, CriticalError::Module(module)) is Critical),
{
}

} // verus!
