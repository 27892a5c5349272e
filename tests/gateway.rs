use dao_assets_extension::ledger::LedgerError;
use dao_assets_extension::substrate::{
    CallContext, DaoAssetsExtension, Dispatch, Internal, LedgerCall, PalletDaoAssets,
};
use dao_assets_extension::traits::{CriticalError, Environment, Error, ModuleError, Origin};

struct TestEnv;

impl Environment for TestEnv {
    type AccountId = u64;
    type AssetId = u32;
    type Balance = u128;
}

const LEDGER_INDEX: u8 = 9;
const CALLER: u64 = 100;
const CONTRACT: u64 = 200;

fn ctx() -> CallContext<u64> {
    CallContext { caller: CALLER, address: CONTRACT }
}

fn refusal(e: LedgerError) -> Result<(), CriticalError> {
    Err(CriticalError::Module(ModuleError { index: LEDGER_INDEX, error: [e.code(), 0, 0, 0] }))
}

#[test]
fn default_origin_is_address() {
    assert_eq!(Origin::default(), Origin::Address);
}

#[test]
fn address_selects_executing_identity() {
    assert_eq!(ctx().select_origin(Origin::Address), Ok(CONTRACT));
    assert_eq!(ctx().origin(), CONTRACT);
}

#[test]
fn caller_selects_caller_identity() {
    assert_eq!(ctx().select_origin(Origin::Caller), Ok(CALLER));
}

#[test]
fn transfer_dispatches_under_selected_origin() {
    let ext = DaoAssetsExtension;
    let d: Dispatch<TestEnv> = ext.transfer(&ctx(), Origin::Caller, 7, 300, 50).unwrap();
    assert_eq!(d.origin, CALLER);
    assert!(matches!(d.call, LedgerCall::Transfer { id: 7, target: 300, amount: 50 }));
}

#[test]
fn transfer_over_balance_is_balance_low() {
    let ext = DaoAssetsExtension;
    let d: Dispatch<TestEnv> = ext.transfer(&ctx(), Origin::Address, 7, 300, 1_000).unwrap();
    assert_eq!(d.origin, CONTRACT);
    let r = ext.conclude(LEDGER_INDEX, refusal(LedgerError::BalanceLow));
    assert_eq!(r, Err(Error::BalanceLow));
}

#[test]
fn keep_alive_below_minimum_is_would_die() {
    let ext = DaoAssetsExtension;
    let d: Dispatch<TestEnv> = ext.transfer_keep_alive(&ctx(), Origin::Address, 7, 300, 90).unwrap();
    assert!(matches!(d.call, LedgerCall::TransferKeepAlive { id: 7, target: 300, amount: 90 }));
    assert_eq!(ext.conclude(LEDGER_INDEX, refusal(LedgerError::WouldDie)), Err(Error::WouldDie));
}

#[test]
fn keep_alive_at_minimum_succeeds() {
    let ext = DaoAssetsExtension;
    let d: Dispatch<TestEnv> = ext.transfer_keep_alive(&ctx(), Origin::Address, 7, 300, 80).unwrap();
    assert_eq!(d.origin, CONTRACT);
    assert_eq!(ext.conclude(LEDGER_INDEX, Ok(())), Ok(()));
}

#[test]
fn cancel_without_approval_is_unapproved() {
    let ext = DaoAssetsExtension;
    let d: Dispatch<TestEnv> = ext.cancel_approval(&ctx(), Origin::Caller, 7, 400).unwrap();
    assert_eq!(d.origin, CALLER);
    assert!(matches!(d.call, LedgerCall::CancelApproval { id: 7, delegate: 400 }));
    assert_eq!(ext.conclude(LEDGER_INDEX, refusal(LedgerError::Unapproved)), Err(Error::Unapproved));
}

#[test]
fn transfer_approved_runs_as_delegate() {
    let ext = DaoAssetsExtension;
    let d: Dispatch<TestEnv> =
        ext.transfer_approved(&ctx(), Origin::Address, 7, 500, 600, 30).unwrap();
    assert_eq!(d.origin, CONTRACT);
    assert!(matches!(
        d.call,
        LedgerCall::TransferApproved { id: 7, owner: 500, destination: 600, amount: 30 }
    ));
    assert_eq!(ext.conclude(LEDGER_INDEX, Ok(())), Ok(()));
}

#[test]
fn transfer_approved_over_allowance_is_unapproved() {
    let ext = DaoAssetsExtension;
    let _d: Dispatch<TestEnv> =
        ext.transfer_approved(&ctx(), Origin::Address, 7, 500, 600, 31).unwrap();
    assert_eq!(ext.conclude(LEDGER_INDEX, refusal(LedgerError::Unapproved)), Err(Error::Unapproved));
}

#[test]
fn approve_twice_adds_no_error() {
    let ext = DaoAssetsExtension;
    for _ in 0..2 {
        let d: Dispatch<TestEnv> = ext.approve_transfer(&ctx(), Origin::Caller, 7, 400, 25).unwrap();
        assert_eq!(d.origin, CALLER);
        assert!(matches!(d.call, LedgerCall::ApproveTransfer { id: 7, delegate: 400, amount: 25 }));
        assert_eq!(ext.conclude(LEDGER_INDEX, Ok(())), Ok(()));
    }
}

#[test]
fn business_errors_map_one_to_one() {
    let pairs = [
        (LedgerError::BalanceLow, Error::BalanceLow),
        (LedgerError::NoAccount, Error::NoAccount),
        (LedgerError::NoPermission, Error::NoPermission),
        (LedgerError::Unknown, Error::Unknown),
        (LedgerError::InUse, Error::InUse),
        (LedgerError::BadWitness, Error::BadWitness),
        (LedgerError::MinBalanceZero, Error::MinBalanceZero),
        (LedgerError::BadMetadata, Error::BadMetadata),
        (LedgerError::Unapproved, Error::Unapproved),
        (LedgerError::WouldDie, Error::WouldDie),
        (LedgerError::AlreadyExists, Error::AlreadyExists),
        (LedgerError::WouldBurn, Error::WouldBurn),
        (LedgerError::AssetNotLive, Error::AssetNotLive),
        (LedgerError::IncorrectStatus, Error::IncorrectStatus),
    ];
    for (l, e) in pairs {
        assert_eq!(Error::from(l), e);
    }
    for i in 0..pairs.len() {
        for j in 0..pairs.len() {
            if i != j {
                assert_ne!(Error::from(pairs[i].0), Error::from(pairs[j].0));
            }
        }
    }
}

#[test]
fn unmapped_errors_are_internal() {
    for l in [
        LedgerError::Frozen,
        LedgerError::NoProvider,
        LedgerError::NoDeposit,
        LedgerError::LiveAsset,
        LedgerError::NotFrozen,
        LedgerError::CallbackFailed,
    ] {
        assert_eq!(Error::from(l), Error::DaoAssetPalletInternal);
        let via_into: Error = l.into();
        assert_eq!(via_into, Error::DaoAssetPalletInternal);
    }
}

#[test]
fn ledger_module_fault_is_remapped() {
    let fault = CriticalError::Module(ModuleError { index: LEDGER_INDEX, error: [12, 1, 2, 3] });
    assert_eq!(Error::from_critical(LEDGER_INDEX, fault), Error::AlreadyExists);
    let fault = CriticalError::Module(ModuleError { index: LEDGER_INDEX, error: [4, 0, 0, 0] });
    assert_eq!(Error::from_critical(LEDGER_INDEX, fault), Error::DaoAssetPalletInternal);
}

#[test]
fn other_faults_stay_critical() {
    let other_module = CriticalError::Module(ModuleError { index: 3, error: [0, 0, 0, 0] });
    assert_eq!(Error::from_critical(LEDGER_INDEX, other_module), Error::Critical(other_module));
    let undecodable = CriticalError::Module(ModuleError { index: LEDGER_INDEX, error: [20, 0, 0, 0] });
    assert_eq!(Error::from_critical(LEDGER_INDEX, undecodable), Error::Critical(undecodable));
    assert_eq!(
        Error::from_critical(LEDGER_INDEX, CriticalError::BadOrigin),
        Error::Critical(CriticalError::BadOrigin)
    );
    let ext = DaoAssetsExtension;
    assert_eq!(
        ext.conclude(LEDGER_INDEX, Err(CriticalError::Exhausted)),
        Err(Error::Critical(CriticalError::Exhausted))
    );
}

#[test]
fn try_to_critical_splits_errors() {
    assert_eq!(
        Error::Critical(CriticalError::Corruption).try_to_critical(),
        Ok(CriticalError::Corruption)
    );
    assert_eq!(Error::WouldBurn.try_to_critical(), Err(Error::WouldBurn));
    assert_eq!(Error::ContractIsNotAdmin.try_to_critical(), Err(Error::ContractIsNotAdmin));
}

#[test]
fn decode_reads_first_byte() {
    assert_eq!(LedgerError::decode(&[0, 9, 9, 9]), Some(LedgerError::BalanceLow));
    assert_eq!(LedgerError::decode(&[19, 0, 0, 0]), Some(LedgerError::CallbackFailed));
    assert_eq!(LedgerError::decode(&[20, 0, 0, 0]), None);
    assert_eq!(LedgerError::decode(&[255, 0, 0, 0]), None);
    assert_eq!(LedgerError::IncorrectStatus.code(), 17);
    assert_eq!(LedgerError::decode(&[LedgerError::WouldBurn.code(), 0, 0, 0]), Some(LedgerError::WouldBurn));
}
