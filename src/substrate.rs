use vstd::prelude::*;

use crate::traits::{error_of_critical, CriticalError, Environment, Error, Origin};

verus! {

/// The asset-transfer chain extension.
#[derive(Debug, Copy, Clone, PartialEq, Eq, Default)]
pub struct DaoAssetsExtension;

/// The two identities of a request: the account that invoked the contract, and the contract
/// that is executing.
#[derive(Debug, Copy, Clone, PartialEq, Eq)]
pub struct CallContext<A> {
    pub caller: A,
    pub address: A,
}

/// One operation of the asset ledger, with its arguments but the origin.
pub enum LedgerCall<E: Environment> {
    Transfer { id: E::AssetId, target: E::AccountId, amount: E::Balance },
    TransferKeepAlive { id: E::AssetId, target: E::AccountId, amount: E::Balance },
    ApproveTransfer { id: E::AssetId, delegate: E::AccountId, amount: E::Balance },
    CancelApproval { id: E::AssetId, delegate: E::AccountId },
    TransferApproved {
        id: E::AssetId,
        owner: E::AccountId,
        destination: E::AccountId,
        amount: E::Balance,
    },
}

/// A ledger operation together with the account under whose authority it runs.
pub struct Dispatch<E: Environment> {
    pub origin: E::AccountId,
    pub call: LedgerCall<E>,
}

/// The account whose authority an operation runs under. The contract acts for the caller
/// without a check that it is the asset's admin: the ledger offers no way to read the admin,
/// so `Caller` is granted to every contract.
pub open spec fn select_origin_spec<A>(origin: Origin, ctx: CallContext<A>) -> Result<A, Error> {
    match origin {
        Origin::Caller => Ok(ctx.caller),
        Origin::Address => Ok(ctx.address),
    }
}

/// What the gateway hands to the ledger for `call` under `origin`, or the error that stops it.
pub open spec fn plan<E: Environment>(
    origin: Origin,
    ctx: CallContext<E::AccountId>,
    call: LedgerCall<E>,
) -> Result<Dispatch<E>, Error> {
    match select_origin_spec(origin, ctx) {
        Ok(account) => Ok(Dispatch { origin: account, call }),
        Err(e) => Err(e),
    }
}

/// What the gateway reports for the ledger's outcome of one dispatch.
pub open spec fn report(ledger_index: u8, outcome: Result<(), CriticalError>) -> Result<(), Error> {
    match outcome {
        Ok(()) => Ok(()),
        Err(dispatch) => Err(error_of_critical(ledger_index, dispatch)),
    }
}

/// Helpers that select the account an operation runs under.
pub trait Internal<A> {
    /// The account that invoked the contract.
    spec fn caller_account(&self) -> A;

    /// The contract's own account.
    spec fn own_account(&self) -> A;

    /// The contract's own account, as origin.
    fn origin(&self) -> (r: A)
        ensures
            r == self.own_account(),
    ;

    /// The account under whose authority an operation runs, as `origin` selects it.
    fn select_origin(&self, origin: Origin) -> (r: Result<A, Error>)
        ensures
            r == select_origin_spec(
                origin,
                CallContext { caller: self.caller_account(), address: self.own_account() },
            ),
    ;
}

impl<A: Copy> Internal<A> for CallContext<A> {
    open spec fn caller_account(&self) -> A {
        self.caller
    }

    open spec fn own_account(&self) -> A {
        self.address
    }

    fn origin(&self) -> (r: A) {
        self.address
    }

    fn select_origin(&self, origin: Origin) -> (r: Result<A, Error>) {
        match origin {
            Origin::Caller => Ok(self.caller),
            Origin::Address => Ok(self.address),
        }
    }
}

/// The operations of the asset ledger that a contract can request. Each selects the origin
/// and hands back what the ledger is to run, or the error that stops the request.
pub trait PalletDaoAssets<E: Environment> {
    /// Moves `amount` of asset `id` from the selected origin's account to `target`.
    fn transfer(
        &self,
        ctx: &CallContext<E::AccountId>,
        origin: Origin,
        id: E::AssetId,
        target: E::AccountId,
        amount: E::Balance,
    ) -> (r: Result<Dispatch<E>, Error>)
        ensures
            r == plan(origin, *ctx, LedgerCall::<E>::Transfer { id, target, amount }),
    ;

    /// Moves `amount` of asset `id` from the selected origin's account to `target`, keeping
    /// the source account alive.
    fn transfer_keep_alive(
        &self,
        ctx: &CallContext<E::AccountId>,
        origin: Origin,
        id: E::AssetId,
        target: E::AccountId,
        amount: E::Balance,
    ) -> (r: Result<Dispatch<E>, Error>)
        ensures
            r == plan(origin, *ctx, LedgerCall::<E>::TransferKeepAlive { id, target, amount }),
    ;

    /// Lets `delegate` move up to `amount` of asset `id` out of the selected origin's account.
    fn approve_transfer(
        &self,
        ctx: &CallContext<E::AccountId>,
        origin: Origin,
        id: E::AssetId,
        delegate: E::AccountId,
        amount: E::Balance,
    ) -> (r: Result<Dispatch<E>, Error>)
        ensures
            r == plan(origin, *ctx, LedgerCall::<E>::ApproveTransfer { id, delegate, amount }),
    ;

    /// Revokes the selected origin's approval of asset `id` in favour of `delegate`.
    fn cancel_approval(
        &self,
        ctx: &CallContext<E::AccountId>,
        origin: Origin,
        id: E::AssetId,
        delegate: E::AccountId,
    ) -> (r: Result<Dispatch<E>, Error>)
        ensures
            r == plan(origin, *ctx, LedgerCall::<E>::CancelApproval { id, delegate }),
    ;

    /// Moves `amount` of asset `id` from `owner` to `destination`, under an approval that
    /// `owner` gave to the selected origin.
    fn transfer_approved(
        &self,
        ctx: &CallContext<E::AccountId>,
        origin: Origin,
        id: E::AssetId,
        owner: E::AccountId,
        destination: E::AccountId,
        amount: E::Balance,
    ) -> (r: Result<Dispatch<E>, Error>)
        ensures
            r == plan(
                origin,
                *ctx,
                LedgerCall::<E>::TransferApproved { id, owner, destination, amount },
            ),
    ;
}

impl DaoAssetsExtension {
    /// Selects the origin for `call`, and pairs them for the ledger.
    fn dispatch<E: Environment>(
        &self,
        ctx: &CallContext<E::AccountId>,
        origin: Origin,
        call: LedgerCall<E>,
    ) -> (r: Result<Dispatch<E>, Error>) where E::AccountId: Copy
        ensures
            r == plan(origin, *ctx, call),
    {
        match ctx.select_origin(origin) {
            Ok(account) => Ok(Dispatch { origin: account, call }),
            Err(e) => Err(e),
        }
    }

    /// Reports the ledger's outcome of a dispatch: success stays success, and a fault is mapped
    /// into the taxonomy, where `ledger_index` is the index of the ledger's module.
    pub fn conclude(
        &self,
        ledger_index: u8,
        outcome: Result<(), CriticalError>,
    ) -> (r: Result<(), Error>)
        ensures
            r == report(ledger_index, outcome),
    {
        match outcome {
            Ok(()) => Ok(()),
            Err(dispatch) => Err(Error::from_critical(ledger_index, dispatch)),
        }
    }
}

impl<E: Environment> PalletDaoAssets<E> for DaoAssetsExtension where E::AccountId: Copy {
    fn transfer(
        &self,
        ctx: &CallContext<E::AccountId>,
        origin: Origin,
        id: E::AssetId,
        target: E::AccountId,
        amount: E::Balance,
    ) -> (r: Result<Dispatch<E>, Error>) {
        self.dispatch(ctx, origin, LedgerCall::Transfer { id, target, amount })
    }

    fn transfer_keep_alive(
        &self,
        ctx: &CallContext<E::AccountId>,
        origin: Origin,
        id: E::AssetId,
        target: E::AccountId,
        amount: E::Balance,
    ) -> (r: Result<Dispatch<E>, Error>) {
        self.dispatch(ctx, origin, LedgerCall::TransferKeepAlive { id, target, amount })
    }

    fn approve_transfer(
        &self,
        ctx: &CallContext<E::AccountId>,
        origin: Origin,
        id: E::AssetId,
        delegate: E::AccountId,
        amount: E::Balance,
    ) -> (r: Result<Dispatch<E>, Error>) {
        self.dispatch(ctx, origin, LedgerCall::ApproveTransfer { id, delegate, amount })
    }

    fn cancel_approval(
        &self,
        ctx: &CallContext<E::AccountId>,
        origin: Origin,
        id: E::AssetId,
        delegate: E::AccountId,
    ) -> (r: Result<Dispatch<E>, Error>) {
        self.dispatch(ctx, origin, LedgerCall::CancelApproval { id, delegate })
    }

    fn transfer_approved(
        &self,
        ctx: &CallContext<E::AccountId>,
        origin: Origin,
        id: E::AssetId,
        owner: E::AccountId,
        destination: E::AccountId,
        amount: E::Balance,
    ) -> (r: Result<Dispatch<E>, Error>) {
        self.dispatch(ctx, origin, LedgerCall::TransferApproved { id, owner, destination, amount })
    }
}

/// The gateway refuses no operation on its own account: every request is handed to the ledger,
/// under the caller's account for `Caller` and under the contract's for `Address`.
pub proof fn lemma_plan_never_fails<E: Environment>(
    origin: Origin,
    ctx: CallContext<E::AccountId>,
    call: LedgerCall<E>,
)
    ensures
        plan(origin, ctx, call) == Ok::<Dispatch<E>, Error>(Dispatch {
            origin: if origin == Origin::Caller { ctx.caller } else { ctx.address },
            call,
        }),
{
}

/// The gateway reports success exactly when the ledger does, and reports each refusal of the
/// ledger as the taxonomy member that the fault maps to.
pub proof fn lemma_report_follows_ledger(ledger_index: u8, outcome: Result<(), CriticalError>)
    ensures
        report(ledger_index, outcome) is Ok <==> outcome is Ok,
        outcome is Err ==> report(ledger_index, outcome) == Err::<(), Error>(
            error_of_critical(ledger_index, outcome->Err_0),
        ),
{
}

/// Approving the same transfer twice adds no error of the gateway's own: both requests are
/// handed to the ledger as the same dispatch, and each is reported as success whenever the
/// ledger accepts it.
pub proof fn lemma_approve_transfer_twice<E: Environment>(
    origin: Origin,
    ctx: CallContext<E::AccountId>,
    id: E::AssetId,
    delegate: E::AccountId,
    amount: E::Balance,
    ledger_index: u8,
    first: Result<(), CriticalError>,
    second: Result<(), CriticalError>,
)
    ensures
        plan(origin, ctx, LedgerCall::<E>::ApproveTransfer { id, delegate, amount }) is Ok,
        first is Ok ==> report(ledger_index, first) == Ok::<(), Error>(()),
        second is Ok ==> report(ledger_index, second) == Ok::<(), Error>(()),
{
    lemma_plan_never_fails(origin, ctx, LedgerCall::<E>::ApproveTransfer { id, delegate, amount });
}

} // verus!
