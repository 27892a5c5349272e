use vstd::prelude::*;

verus! {

/// The errors of the asset ledger, in the order in which the ledger encodes them: the encoding
/// of an error is one byte, its position in this list.
#[derive(Debug, Copy, Clone, PartialEq, Eq, Structural)]
pub enum LedgerError {
    BalanceLow,
    NoAccount,
    NoPermission,
    Unknown,
    Frozen,
    InUse,
    BadWitness,
    MinBalanceZero,
    NoProvider,
    BadMetadata,
    Unapproved,
    WouldDie,
    AlreadyExists,
    NoDeposit,
    WouldBurn,
    LiveAsset,
    AssetNotLive,
    IncorrectStatus,
    NotFrozen,
    CallbackFailed,
}

/// The ledger error that the byte `b` encodes, if any.
pub open spec fn ledger_error_at(b: u8) -> Option<LedgerError> {
    if b == 0 { Some(LedgerError::BalanceLow) }
    else if b == 1 { Some(LedgerError::NoAccount) }
    else if b == 2 { Some(LedgerError::NoPermission) }
    else if b == 3 { Some(LedgerError::Unknown) }
    else if b == 4 { Some(LedgerError::Frozen) }
    else if b == 5 { Some(LedgerError::InUse) }
    else if b == 6 { Some(LedgerError::BadWitness) }
    else if b == 7 { Some(LedgerError::MinBalanceZero) }
    else if b == 8 { Some(LedgerError::NoProvider) }
    else if b == 9 { Some(LedgerError::BadMetadata) }
    else if b == 10 { Some(LedgerError::Unapproved) }
    else if b == 11 { Some(LedgerError::WouldDie) }
    else if b == 12 { Some(LedgerError::AlreadyExists) }
    else if b == 13 { Some(LedgerError::NoDeposit) }
    else if b == 14 { Some(LedgerError::WouldBurn) }
    else if b == 15 { Some(LedgerError::LiveAsset) }
    else if b == 16 { Some(LedgerError::AssetNotLive) }
    else if b == 17 { Some(LedgerError::IncorrectStatus) }
    else if b == 18 { Some(LedgerError::NotFrozen) }
    else if b == 19 { Some(LedgerError::CallbackFailed) }
    else { None }
}

/// The byte that encodes a ledger error.
pub open spec fn ledger_error_code(e: LedgerError) -> u8 {
    match e {
        LedgerError::BalanceLow => 0,
        LedgerError::NoAccount => 1,
        LedgerError::NoPermission => 2,
        LedgerError::Unknown => 3,
        LedgerError::Frozen => 4,
        LedgerError::InUse => 5,
        LedgerError::BadWitness => 6,
        LedgerError::MinBalanceZero => 7,
        LedgerError::NoProvider => 8,
        LedgerError::BadMetadata => 9,
        LedgerError::Unapproved => 10,
        LedgerError::WouldDie => 11,
        LedgerError::AlreadyExists => 12,
        LedgerError::NoDeposit => 13,
        LedgerError::WouldBurn => 14,
        LedgerError::LiveAsset => 15,
        LedgerError::AssetNotLive => 16,
        LedgerError::IncorrectStatus => 17,
        LedgerError::NotFrozen => 18,
        LedgerError::CallbackFailed => 19,
    }
}

impl LedgerError {
    /// Decodes a ledger error from the payload of a module failure. Only the first byte
    /// selects the error; the rest of the payload is not read.
    pub fn decode(payload: &[u8; 4]) -> (r: Option<LedgerError>)
        ensures
            r == ledger_error_at(payload@[0]),
    {
        let b: u8 = payload[0];
        if b == 0 { Some(LedgerError::BalanceLow) }
        else if b == 1 { Some(LedgerError::NoAccount) }
        else if b == 2 { Some(LedgerError::NoPermission) }
        else if b == 3 { Some(LedgerError::Unknown) }
        else if b == 4 { Some(LedgerError::Frozen) }
        else if b == 5 { Some(LedgerError::InUse) }
        else if b == 6 { Some(LedgerError::BadWitness) }
        else if b == 7 { Some(LedgerError::MinBalanceZero) }
        else if b == 8 { Some(LedgerError::NoProvider) }
        else if b == 9 { Some(LedgerError::BadMetadata) }
        else if b == 10 { Some(LedgerError::Unapproved) }
        else if b == 11 { Some(LedgerError::WouldDie) }
        else if b == 12 { Some(LedgerError::AlreadyExists) }
        else if b == 13 { Some(LedgerError::NoDeposit) }
        else if b == 14 { Some(LedgerError::WouldBurn) }
        else if b == 15 { Some(LedgerError::LiveAsset) }
        else if b == 16 { Some(LedgerError::AssetNotLive) }
        else if b == 17 { Some(LedgerError::IncorrectStatus) }
        else if b == 18 { Some(LedgerError::NotFrozen) }
        else if b == 19 { Some(LedgerError::CallbackFailed) }
        else { None }
    }

    /// The byte that encodes this error.
    pub fn code(&self) -> (r: u8)
        ensures
            r == ledger_error_code(*self),
    {
        match self {
            LedgerError::BalanceLow => 0,
            LedgerError::NoAccount => 1,
            LedgerError::NoPermission => 2,
            LedgerError::Unknown => 3,
            LedgerError::Frozen => 4,
            LedgerError::InUse => 5,
            LedgerError::BadWitness => 6,
            LedgerError::MinBalanceZero => 7,
            LedgerError::NoProvider => 8,
            LedgerError::BadMetadata => 9,
            LedgerError::Unapproved => 10,
            LedgerError::WouldDie => 11,
            LedgerError::AlreadyExists => 12,
            LedgerError::NoDeposit => 13,
            LedgerError::WouldBurn => 14,
            LedgerError::LiveAsset => 15,
            LedgerError::AssetNotLive => 16,
            LedgerError::IncorrectStatus => 17,
            LedgerError::NotFrozen => 18,
            LedgerError::CallbackFailed => 19,
        }
    }
}

/// Decoding the code of a ledger error gives that error back.
pub proof fn lemma_code_round_trip(e: LedgerError)
    ensures
        ledger_error_at(ledger_error_code(e)) == Some(e),
{
}

} // verus!
