//! All calls that can change the vault, as one type: what holds of every call
//! and of every sequence of calls is stated over it.
use vstd::prelude::*;

use crate::address::AddressKey;
use crate::effects::Action;
use crate::errors::VaultError;
use crate::model::{Outcome, VaultModel};

verus! {

/// A call with its arguments. `caller` has authenticated; `now` is the ledger
/// clock and `on_ledger` what the vault holds of its token when the call is made.
pub enum Call {
    /// [`VaultModel::init`].
    Init {
        owner: AddressKey,
        usdc_token: AddressKey,
        initial_balance: i128,
        authorized_caller: AddressKey,
        min_deposit: i128,
        revenue_pool: Option<AddressKey>,
        max_deduct: i128,
        settlement: AddressKey,
    },
    /// [`VaultModel::deposit`].
    Deposit { caller: AddressKey, amount: i128 },
    /// [`VaultModel::deduct`].
    Deduct { caller: AddressKey, amount: i128, request_id: u64, marker: Option<Seq<char>> },
    /// [`VaultModel::batch_deduct`].
    BatchDeduct {
        caller: AddressKey,
        items: Seq<Option<(i128, u64)>>,
        markers: Seq<Option<Seq<char>>>,
    },
    /// [`VaultModel::set_authorized_caller`].
    SetAuthorizedCaller { caller: AddressKey },
    /// [`VaultModel::pause`].
    Pause { caller: AddressKey },
    /// [`VaultModel::unpause`].
    Unpause { caller: AddressKey },
    /// [`VaultModel::set_max_deduct`].
    SetMaxDeduct { caller: AddressKey, max_deduct: i128 },
    /// [`VaultModel::set_settlement`].
    SetSettlement { caller: AddressKey, settlement: AddressKey },
    /// [`VaultModel::set_reserve_cap`].
    SetReserveCap { caller: AddressKey, token: AddressKey, cap: i128 },
    /// [`VaultModel::prune`].
    Prune { caller: AddressKey, ids: Seq<Option<Seq<char>>> },
    /// [`VaultModel::set_timelock_window`].
    SetTimelockWindow { caller: AddressKey, window: u64 },
    /// [`VaultModel::set_admin`].
    SetAdmin { caller: AddressKey, new_admin: AddressKey },
    /// [`VaultModel::accept_admin`].
    AcceptAdmin,
    /// [`VaultModel::propose_pause`].
    ProposePause { caller: AddressKey, now: u64 },
    /// [`VaultModel::execute_pause`].
    ExecutePause { caller: AddressKey, now: u64 },
    /// [`VaultModel::cancel_pause`].
    CancelPause { caller: AddressKey },
    /// [`VaultModel::propose_upgrade`].
    ProposeUpgrade { caller: AddressKey, wasm_hash: [u8; 32], now: u64 },
    /// [`VaultModel::execute_upgrade`].
    ExecuteUpgrade { caller: AddressKey, now: u64 },
    /// [`VaultModel::cancel_upgrade`].
    CancelUpgrade { caller: AddressKey },
    /// [`VaultModel::propose_sweep`].
    ProposeSweep { caller: AddressKey, to: AddressKey, amount: i128, now: u64 },
    /// [`VaultModel::execute_sweep`].
    ExecuteSweep { caller: AddressKey, now: u64, on_ledger: i128 },
    /// [`VaultModel::cancel_sweep`].
    CancelSweep { caller: AddressKey },
}

/// What one step adds to the vault's holdings of `token`.
pub open spec fn flow_of(action: Action, token: AddressKey) -> int {
    match action {
        Action::TransferIn { token: moved, from: _, amount } => if moved == token {
            amount as int
        } else {
            0
        },
        Action::TransferOut { token: moved, to: _, amount } => if moved == token {
            -(amount as int)
        } else {
            0
        },
        _ => 0,
    }
}

/// What the steps together add to the vault's holdings of `token`.
pub open spec fn net_inflow(actions: Seq<Action>, token: AddressKey) -> int
    decreases actions.len(),
{
    if actions.len() == 0 {
        0
    } else {
        net_inflow(actions.drop_last(), token) + flow_of(actions.last(), token)
    }
}

/// The next state and what the steps add to the holdings of `token`.
pub open spec fn with_inflow(outcome: Outcome, token: AddressKey) -> Result<
    (VaultModel, int),
    VaultError,
> {
    match outcome {
        Ok((next, actions)) => Ok((next, net_inflow(actions, token))),
        Err(error) => Err(error),
    }
}

impl VaultModel {
    /// How a call ends: the next state and what it adds to the vault's holdings
    /// of its token, or a refusal. Pruning moves no tokens.
    #[verifier::opaque]
    pub open spec fn after(self, call: Call) -> Result<(VaultModel, int), VaultError> {
        let token = self.current().usdc_token;
        match call {
            Call::Init {
                owner,
                usdc_token,
                initial_balance,
                authorized_caller,
                min_deposit,
                revenue_pool,
                max_deduct,
                settlement,
            } => with_inflow(
                self.init(
                    owner,
                    usdc_token,
                    initial_balance,
                    authorized_caller,
                    min_deposit,
                    revenue_pool,
                    max_deduct,
                    settlement,
                ),
                token,
            ),
            Call::Deposit { caller, amount } => with_inflow(self.deposit(caller, amount), token),
            Call::Deduct { caller, amount, request_id, marker } => with_inflow(
                self.deduct(caller, amount, request_id, marker),
                token,
            ),
            Call::BatchDeduct { caller, items, markers } => with_inflow(
                self.batch_deduct(caller, items, markers),
                token,
            ),
            Call::SetAuthorizedCaller { caller } => with_inflow(
                self.set_authorized_caller(caller),
                token,
            ),
            Call::Pause { caller } => with_inflow(self.pause(caller), token),
            Call::Unpause { caller } => with_inflow(self.unpause(caller), token),
            Call::SetMaxDeduct { caller, max_deduct } => with_inflow(
                self.set_max_deduct(caller, max_deduct),
                token,
            ),
            Call::SetSettlement { caller, settlement } => with_inflow(
                self.set_settlement(caller, settlement),
                token,
            ),
            Call::SetReserveCap { caller, token: capped, cap } => with_inflow(
                self.set_reserve_cap(caller, capped, cap),
                token,
            ),
            Call::Prune { caller, ids } => match self.prune(caller, ids) {
                Ok((next, _)) => Ok((next, 0)),
                Err(error) => Err(error),
            },
            Call::SetTimelockWindow { caller, window } => with_inflow(
                self.set_timelock_window(caller, window),
                token,
            ),
            Call::SetAdmin { caller, new_admin } => with_inflow(
                self.set_admin(caller, new_admin),
                token,
            ),
            Call::AcceptAdmin => with_inflow(self.accept_admin(), token),
            Call::ProposePause { caller, now } => with_inflow(
                self.propose_pause(caller, now),
                token,
            ),
            Call::ExecutePause { caller, now } => with_inflow(
                self.execute_pause(caller, now),
                token,
            ),
            Call::CancelPause { caller } => with_inflow(self.cancel_pause(caller), token),
            Call::ProposeUpgrade { caller, wasm_hash, now } => with_inflow(
                self.propose_upgrade(caller, wasm_hash, now),
                token,
            ),
            Call::ExecuteUpgrade { caller, now } => with_inflow(
                self.execute_upgrade(caller, now),
                token,
            ),
            Call::CancelUpgrade { caller } => with_inflow(self.cancel_upgrade(caller), token),
            Call::ProposeSweep { caller, to, amount, now } => with_inflow(
                self.propose_sweep(caller, to, amount, now),
                token,
            ),
            Call::ExecuteSweep { caller, now, on_ledger } => with_inflow(
                self.execute_sweep(caller, now, on_ledger),
                token,
            ),
            Call::CancelSweep { caller } => with_inflow(self.cancel_sweep(caller), token),
        }
    }

    /// The state after a call. A refused call changes nothing.
    pub open spec fn next(self, call: Call) -> VaultModel {
        match self.after(call) {
            Ok((next, _)) => next,
            Err(_) => self,
        }
    }

    /// The state after a sequence of calls.
    pub open spec fn run(self, calls: Seq<Call>) -> VaultModel
        decreases calls.len(),
    {
        if calls.len() == 0 {
            self
        } else {
            self.run(calls.drop_last()).next(calls.last())
        }
    }
}

/// What [`VaultModel::after`] is for each call.
pub(crate) proof fn lemma_after(state: VaultModel, call: Call)
    ensures
        call matches Call::Init {
            owner,
            usdc_token,
            initial_balance,
            authorized_caller,
            min_deposit,
            revenue_pool,
            max_deduct,
            settlement,
        } ==> state.after(call) == with_inflow(
            state.init(
                owner,
                usdc_token,
                initial_balance,
                authorized_caller,
                min_deposit,
                revenue_pool,
                max_deduct,
                settlement,
            ),
            state.current().usdc_token,
        ),
        call matches Call::Deposit { caller, amount } ==> state.after(call)
            == with_inflow(state.deposit(caller, amount), state.current().usdc_token),
        call matches Call::Deduct { caller, amount, request_id, marker } ==> state.after(call)
            == with_inflow(
            state.deduct(caller, amount, request_id, marker),
            state.current().usdc_token,
        ),
        call matches Call::BatchDeduct { caller, items, markers } ==> state.after(call)
            == with_inflow(state.batch_deduct(caller, items, markers), state.current().usdc_token),
        call matches Call::SetAuthorizedCaller { caller } ==> state.after(call)
            == with_inflow(state.set_authorized_caller(caller), state.current().usdc_token),
        call matches Call::Pause { caller } ==> state.after(call)
            == with_inflow(state.pause(caller), state.current().usdc_token),
        call matches Call::Unpause { caller } ==> state.after(call)
            == with_inflow(state.unpause(caller), state.current().usdc_token),
        call matches Call::SetMaxDeduct { caller, max_deduct } ==> state.after(call)
            == with_inflow(state.set_max_deduct(caller, max_deduct), state.current().usdc_token),
        call matches Call::SetSettlement { caller, settlement } ==> state.after(call)
            == with_inflow(state.set_settlement(caller, settlement), state.current().usdc_token),
        call matches Call::SetReserveCap { caller, token, cap } ==> state.after(call)
            == with_inflow(state.set_reserve_cap(caller, token, cap), state.current().usdc_token),
        call matches Call::SetTimelockWindow { caller, window } ==> state.after(call)
            == with_inflow(state.set_timelock_window(caller, window), state.current().usdc_token),
        call matches Call::SetAdmin { caller, new_admin } ==> state.after(call)
            == with_inflow(state.set_admin(caller, new_admin), state.current().usdc_token),
        call is AcceptAdmin ==> state.after(call)
            == with_inflow(state.accept_admin(), state.current().usdc_token),
        call matches Call::ProposePause { caller, now } ==> state.after(call)
            == with_inflow(state.propose_pause(caller, now), state.current().usdc_token),
        call matches Call::ExecutePause { caller, now } ==> state.after(call)
            == with_inflow(state.execute_pause(caller, now), state.current().usdc_token),
        call matches Call::CancelPause { caller } ==> state.after(call)
            == with_inflow(state.cancel_pause(caller), state.current().usdc_token),
        call matches Call::ProposeUpgrade { caller, wasm_hash, now } ==> state.after(call)
            == with_inflow(
            state.propose_upgrade(caller, wasm_hash, now),
            state.current().usdc_token,
        ),
        call matches Call::ExecuteUpgrade { caller, now } ==> state.after(call)
            == with_inflow(state.execute_upgrade(caller, now), state.current().usdc_token),
        call matches Call::CancelUpgrade { caller } ==> state.after(call)
            == with_inflow(state.cancel_upgrade(caller), state.current().usdc_token),
        call matches Call::ProposeSweep { caller, to, amount, now } ==> state.after(call)
            == with_inflow(
            state.propose_sweep(caller, to, amount, now),
            state.current().usdc_token,
        ),
        call matches Call::ExecuteSweep { caller, now, on_ledger } ==> state.after(call)
            == with_inflow(state.execute_sweep(caller, now, on_ledger), state.current().usdc_token),
        call matches Call::CancelSweep { caller } ==> state.after(call)
            == with_inflow(state.cancel_sweep(caller), state.current().usdc_token),
        call matches Call::Prune { caller, ids } ==> state.after(call) == (match state.prune(
            caller,
            ids,
        ) {
            Ok((next, _)) => Ok::<(VaultModel, int), VaultError>((next, 0)),
            Err(error) => Err(error),
        }),
{
    reveal(VaultModel::after);
}

} // verus!
