//! What holds of the agent as a whole, over single calls and over every run of calls.

use vstd::prelude::*;

use crate::agent::RiskConfig;
use crate::error::AgentError;
use crate::host::{CallbackModel, ContextModel, PlanModel};
use crate::model::{
    committed, is_admin_call, near_deposit, ref_swap, saturating_sum, scaled_target, solver_fee,
    state_after, trade_check, AgentState, Transition, MAX_TARGET_NEAR, MIN_TARGET_NEAR,
};
use crate::near::ONE_NEAR;
use crate::text::{decimal, law_decimal_is_read_back};

verus! {

/// One call of an entry point of the agent.
pub enum Call {
    SetAuthorizedWorker { ctx: ContextModel, worker_id: Seq<u8> },
    SetLedgerContract { ctx: ContextModel, ledger_contract: Seq<char> },
    SetRiskConfig { ctx: ContextModel, config: RiskConfig },
    ExecuteTrade {
        ctx: ContextModel,
        receiver_id: Seq<char>,
        method_name: Seq<char>,
        args: Seq<char>,
        deposit: u128,
        gas: u64,
    },
    OnExecuteTrade {
        ctx: ContextModel,
        receiver_id: Seq<char>,
        balance_before: u128,
        attached_deposit: u128,
        succeeded: bool,
    },
    SwapOnRef {
        ctx: ContextModel,
        pool_id: u64,
        token_in: Seq<char>,
        token_out: Seq<char>,
        min_amount_out: Seq<char>,
        amount: Option<u128>,
    },
    ExecuteIntent {
        ctx: ContextModel,
        solver_id: Seq<char>,
        intent_payload: Seq<char>,
        amount: Option<u128>,
    },
    SolveIntent {
        ctx: ContextModel,
        target_pool: u64,
        token_out: Seq<char>,
        min_amount_out: Seq<char>,
        solver_fee_yocto: Seq<char>,
    },
    DepositToBurrow { ctx: ContextModel, amount_yocto: Seq<char> },
    WithdrawFromBurrow { ctx: ContextModel, amount_yocto: Seq<char> },
    SignCrossChainPayload {
        ctx: ContextModel,
        payload_hash: Seq<u8>,
        derivation_path: Seq<char>,
        key_version: u32,
    },
    OnSignCrossChainPayload { succeeded: bool },
    CollectFees { ctx: ContextModel },
    OnCollectFees { deposit: u128, succeeded: bool },
    ProcessFees { ctx: ContextModel },
    OnProcessFees { old_target: u128, succeeded: bool },
}

impl Call {
    /// What becomes of a call that is not a callback.
    pub open spec fn transition(self, state: AgentState) -> Option<Transition> {
        match self {
            Call::SetAuthorizedWorker { ctx, worker_id } => Some(
                state.set_authorized_worker(ctx, worker_id),
            ),
            Call::SetLedgerContract { ctx, ledger_contract } => Some(
                state.set_ledger_contract(ctx, ledger_contract),
            ),
            Call::SetRiskConfig { ctx, config } => Some(state.set_risk_config(ctx, config)),
            Call::ExecuteTrade { ctx, receiver_id, method_name, args, deposit, gas } => Some(
                state.execute_trade(ctx, receiver_id, method_name, args, deposit, gas),
            ),
            Call::SwapOnRef { ctx, pool_id, token_in, token_out, min_amount_out, amount } => Some(
                state.swap_on_ref(ctx, pool_id, token_in, token_out, min_amount_out, amount),
            ),
            Call::ExecuteIntent { ctx, solver_id, intent_payload, amount } => Some(
                state.execute_intent(ctx, solver_id, intent_payload, amount),
            ),
            Call::SolveIntent { ctx, target_pool, token_out, min_amount_out, solver_fee_yocto } =>
                Some(
                    state.solve_intent(
                        ctx,
                        target_pool,
                        token_out,
                        min_amount_out,
                        solver_fee_yocto,
                    ),
                ),
            Call::DepositToBurrow { ctx, amount_yocto } => Some(
                state.deposit_to_burrow(ctx, amount_yocto),
            ),
            Call::WithdrawFromBurrow { ctx, amount_yocto } => Some(
                state.withdraw_from_burrow(ctx, amount_yocto),
            ),
            Call::SignCrossChainPayload { ctx, payload_hash, derivation_path, key_version } => Some(
                state.sign_cross_chain_payload(ctx, payload_hash, derivation_path, key_version),
            ),
            Call::CollectFees { ctx } => Some(state.collect_fees(ctx)),
            Call::ProcessFees { ctx } => Some(state.process_fees(ctx)),
            _ => None,
        }
    }

    /// The state after a call. A check of a trade whose amounts leave 128 bits is not made.
    pub open spec fn after(self, state: AgentState) -> AgentState {
        match self {
            Call::OnExecuteTrade {
                ctx,
                receiver_id,
                balance_before,
                attached_deposit,
                succeeded,
            } => if succeeded && !state.guard_fits(receiver_id, balance_before, attached_deposit) {
                state
            } else {
                state.on_execute_trade(
                    ctx,
                    receiver_id,
                    balance_before,
                    attached_deposit,
                    succeeded,
                ).0
            },
            Call::OnSignCrossChainPayload { succeeded } => state.on_sign_cross_chain_payload(
                succeeded,
            ).0,
            Call::OnCollectFees { deposit, succeeded } => state.on_collect_fees(
                deposit,
                succeeded,
            ).0,
            Call::OnProcessFees { old_target, succeeded } => state.on_process_fees(
                old_target,
                succeeded,
            ).0,
            _ => state_after(state, self.transition(state)->0),
        }
    }

    /// An operation that moves funds or asks for a signature.
    pub open spec fn is_operation(self) -> bool {
        ||| self is ExecuteTrade
        ||| self is SwapOnRef
        ||| self is ExecuteIntent
        ||| self is SolveIntent
        ||| self is DepositToBurrow
        ||| self is WithdrawFromBurrow
        ||| self is SignCrossChainPayload
    }

    /// A call that nobody but the owner and the authorized worker may make, with its context.
    pub open spec fn restricted_context(self) -> Option<ContextModel> {
        match self {
            Call::ExecuteTrade { ctx, .. } => Some(ctx),
            Call::SwapOnRef { ctx, .. } => Some(ctx),
            Call::ExecuteIntent { ctx, .. } => Some(ctx),
            Call::DepositToBurrow { ctx, .. } => Some(ctx),
            Call::WithdrawFromBurrow { ctx, .. } => Some(ctx),
            Call::SignCrossChainPayload { ctx, .. } => Some(ctx),
            Call::CollectFees { ctx } => Some(ctx),
            Call::ProcessFees { ctx } => Some(ctx),
            _ => None,
        }
    }

    /// A call with a context, with its context.
    pub open spec fn context(self) -> Option<ContextModel> {
        match self {
            Call::SetAuthorizedWorker { ctx, .. } => Some(ctx),
            Call::SetLedgerContract { ctx, .. } => Some(ctx),
            Call::SetRiskConfig { ctx, .. } => Some(ctx),
            Call::SolveIntent { ctx, .. } => Some(ctx),
            _ => self.restricted_context(),
        }
    }
}

/// The state after calls that come one after the other.
pub open spec fn run(state: AgentState, calls: Seq<Call>) -> AgentState
    decreases calls.len(),
{
    if calls.len() == 0 {
        state
    } else {
        calls.last().after(run(state, calls.drop_last()))
    }
}

/// The target is between the floor and the ceiling.
pub open spec fn target_in_bounds(target: u128) -> bool {
    MIN_TARGET_NEAR * ONE_NEAR <= target <= MAX_TARGET_NEAR * ONE_NEAR
}

/// The callback of a fee sweep at this place of a run answers an earlier sweep of that run: it
/// brings back the target that the agent had when it asked for the sweep.
pub open spec fn answers_a_sweep(state: AgentState, calls: Seq<Call>, place: int) -> bool {
    calls[place] matches Call::OnProcessFees { old_target, .. } ==> exists|earlier: int|
        0 <= earlier < place && #[trigger] calls[earlier] is ProcessFees && calls[earlier].transition(
            run(state, calls.take(earlier)),
        )->0 is Ok && old_target == run(state, calls.take(earlier)).current_target_balance
}

/// A call that is rejected leaves the agent as it was.
pub proof fn law_rejected_call_changes_nothing(state: AgentState, call: Call)
    requires
        call.transition(state) matches Some(transition) && transition is Err,
    ensures
        call.after(state) == state,
{
}

/// No call changes the owner.
pub proof fn law_owner_is_fixed(state: AgentState, calls: Seq<Call>)
    ensures
        run(state, calls).owner_id == state.owner_id,
    decreases calls.len(),
{
    if calls.len() > 0 {
        law_owner_is_fixed(state, calls.drop_last());
    }
}

/// The worker, the ledger and the risk limits change through their setters alone, and only when
/// the owner calls these with a deposit of one yoctoNEAR.
pub proof fn law_settings_change_through_the_owner(state: AgentState, call: Call)
    ensures
        call.after(state).authorized_worker != state.authorized_worker ==> {
            &&& call matches Call::SetAuthorizedWorker { ctx, worker_id }
            &&& ctx.predecessor_account_id == state.owner_id
            &&& ctx.attached_deposit == 1
            &&& call.after(state).authorized_worker == Some(worker_id)
        },
        call.after(state).ledger_contract != state.ledger_contract ==> {
            &&& call matches Call::SetLedgerContract { ctx, ledger_contract }
            &&& ctx.predecessor_account_id == state.owner_id
            &&& ctx.attached_deposit == 1
            &&& call.after(state).ledger_contract == ledger_contract
        },
        call.after(state).risk_config != state.risk_config ==> {
            &&& call matches Call::SetRiskConfig { ctx, config }
            &&& ctx.predecessor_account_id == state.owner_id
            &&& ctx.attached_deposit == 1
            &&& call.after(state).risk_config == config
        },
{
}

/// What has been collected never becomes less.
pub proof fn law_income_never_shrinks(state: AgentState, calls: Seq<Call>)
    ensures
        state.total_collected <= run(state, calls).total_collected,
    decreases calls.len(),
{
    if calls.len() > 0 {
        law_income_never_shrinks(state, calls.drop_last());
    }
}

/// A new agent has the floor as its target.
pub proof fn law_new_agent_starts_at_the_floor(owner_id: Seq<char>, ledger_contract: Seq<char>)
    ensures
        AgentState::new(owner_id, ledger_contract).current_target_balance == MIN_TARGET_NEAR
            * ONE_NEAR,
        target_in_bounds(AgentState::new(owner_id, ledger_contract).current_target_balance),
{
}

/// The target stays between the floor and the ceiling in every run in which the callbacks of
/// fee sweeps answer sweeps of that run.
pub proof fn law_target_stays_in_bounds(state: AgentState, calls: Seq<Call>)
    requires
        target_in_bounds(state.current_target_balance),
        forall|place: int|
            0 <= place < calls.len() ==> #[trigger] answers_a_sweep(state, calls, place),
    ensures
        target_in_bounds(run(state, calls).current_target_balance),
{
    lemma_target_stays_in_bounds(state, calls, calls.len() as int);
    assert(calls.take(calls.len() as int) =~= calls);
}

/// The target is in bounds after each of the first calls of a run.
proof fn lemma_target_stays_in_bounds(state: AgentState, calls: Seq<Call>, count: int)
    requires
        0 <= count <= calls.len(),
        target_in_bounds(state.current_target_balance),
        forall|place: int|
            0 <= place < calls.len() ==> #[trigger] answers_a_sweep(state, calls, place),
    ensures
        forall|n: int|
            0 <= n <= count ==> target_in_bounds(
                run(state, #[trigger] calls.take(n)).current_target_balance,
            ),
    decreases count,
{
    if count > 0 {
        lemma_target_stays_in_bounds(state, calls, count - 1);
        let before = calls.take(count - 1);
        assert(calls.take(count).drop_last() =~= before);
        assert(calls.take(count).last() == calls[count - 1]);
        assert(answers_a_sweep(state, calls, count - 1));
    } else {
        assert(calls.take(0) =~= seq![]);
    }
}

/// The target follows the income: it is never lower for a higher one, it is the floor up to the
/// floor, the whole NEAR of the income up to the ceiling, and the ceiling from there on.
pub proof fn law_target_follows_income(income: u128, higher: u128)
    requires
        income <= higher,
    ensures
        scaled_target(income) <= scaled_target(higher),
        target_in_bounds(scaled_target(income)),
        income <= MIN_TARGET_NEAR * ONE_NEAR ==> scaled_target(income) == MIN_TARGET_NEAR
            * ONE_NEAR,
        target_in_bounds(income) ==> scaled_target(income) <= income < scaled_target(income)
            + ONE_NEAR && scaled_target(income) % ONE_NEAR == 0,
        income >= MAX_TARGET_NEAR * ONE_NEAR ==> scaled_target(income) == MAX_TARGET_NEAR
            * ONE_NEAR,
{
}

/// A fee sweep that fails takes the scaling back: the agent is as it was before it. One that
/// goes through leaves the scaled target.
pub proof fn law_failed_sweep_is_undone(state: AgentState, ctx: ContextModel)
    requires
        state.process_fees(ctx) is Ok,
    ensures
        ({
            let (after, plan) = state.process_fees(ctx)->Ok_0;
            &&& plan.callback->0.callback matches CallbackModel::ProcessFees { old_target }
            &&& after.on_process_fees(old_target, false).0 == state
            &&& after.on_process_fees(old_target, true).0 == after
            &&& after == AgentState {
                current_target_balance: scaled_target(state.total_collected),
                ..state
            }
        }),
{
    let (after, plan) = state.process_fees(ctx)->Ok_0;
    assert(after.on_process_fees(state.current_target_balance, false).0 =~= state);
}

/// Fees count once, and only when the ledger has taken them.
pub proof fn law_fees_count_when_taken(state: AgentState, ctx: ContextModel)
    requires
        state.collect_fees(ctx) is Ok,
    ensures
        ({
            let (after, plan) = state.collect_fees(ctx)->Ok_0;
            &&& after == state
            &&& plan.callback->0.callback matches CallbackModel::CollectFees { deposit }
            &&& deposit == ctx.attached_deposit
            &&& deposit > 0
            &&& after.on_collect_fees(deposit, false).0 == state
            &&& after.on_collect_fees(deposit, true).0 == AgentState {
                total_collected: saturating_sum(state.total_collected, deposit),
                ..state
            }
        }),
{
}

/// While the circuit breaker is off, no operation goes through.
pub proof fn law_breaker_halts_operations(state: AgentState, call: Call)
    requires
        !state.risk_config.circuit_breaker_enabled,
        call.is_operation(),
    ensures
        call.transition(state)->0 is Err,
        call.after(state) == state,
{
}

/// A transaction that neither the owner's account nor the worker's key has signed gets nowhere
/// with a restricted call, and is told which of the two was missing.
pub proof fn law_outsiders_are_rejected(state: AgentState, call: Call, ctx: ContextModel)
    requires
        call.restricted_context() == Some(ctx),
        ctx.signer_account_id != state.owner_id,
        state.authorized_worker != Some(ctx.signer_account_pk),
    ensures
        call.transition(state) == Some::<Transition>(
            Err(
                if state.authorized_worker is Some {
                    AgentError::NotAuthorized
                } else {
                    AgentError::NoWorkerSet
                },
            ),
        ),
        call.after(state) == state,
{
}

/// There is one worker key at a time: an accepted setting of a second key revokes the first.
/// Whatever happens between the two settings and, short of a third one, after them, a signer
/// other than the owner is authorized with the second key, refused with the first one and with
/// any other, and rejected by every restricted call without the second key.
pub proof fn law_later_worker_replaces_the_earlier(
    state: AgentState,
    first: ContextModel,
    k1: Seq<u8>,
    between: Seq<Call>,
    second: ContextModel,
    k2: Seq<u8>,
    later: Seq<Call>,
    ctx: ContextModel,
)
    requires
        k1 != k2,
        state.set_authorized_worker(first, k1) is Ok,
        run(state.set_authorized_worker(first, k1)->Ok_0.0, between).set_authorized_worker(
            second,
            k2,
        ) is Ok,
        forall|i: int| 0 <= i < later.len() ==> !(#[trigger] later[i] is SetAuthorizedWorker),
        ctx.signer_account_id != state.owner_id,
    ensures
        ({
            let with_k1 = run(state.set_authorized_worker(first, k1)->Ok_0.0, between);
            let now = run(with_k1.set_authorized_worker(second, k2)->Ok_0.0, later);
            &&& now.authorized_worker == Some(k2)
            &&& ctx.signer_account_pk == k2 ==> now.authorization(ctx) == Ok::<(), AgentError>(())
            &&& ctx.signer_account_pk == k1 ==> now.authorization(ctx) == Err::<(), AgentError>(
                AgentError::NotAuthorized,
            )
            &&& ctx.signer_account_pk != k2 ==> {
                &&& now.authorization(ctx) == Err::<(), AgentError>(AgentError::NotAuthorized)
                &&& forall|call: Call|
                    call.restricted_context() == Some(ctx) ==> #[trigger] call.transition(now)
                        == Some::<Transition>(Err(AgentError::NotAuthorized))
            }
        }),
{
    let set_k1 = state.set_authorized_worker(first, k1)->Ok_0.0;
    let with_k1 = run(set_k1, between);
    let set_k2 = with_k1.set_authorized_worker(second, k2)->Ok_0.0;
    let now = run(set_k2, later);
    law_owner_is_fixed(set_k1, between);
    law_owner_is_fixed(set_k2, later);
    lemma_worker_stays(set_k2, later);
    if ctx.signer_account_pk != k2 {
        assert forall|call: Call| call.restricted_context() == Some(ctx) implies
            #[trigger] call.transition(now) == Some::<Transition>(
            Err(AgentError::NotAuthorized),
        ) by {
            law_outsiders_are_rejected(now, call, ctx);
        }
    }
}

/// The worker stays the same without a setting.
proof fn lemma_worker_stays(state: AgentState, calls: Seq<Call>)
    requires
        forall|i: int| 0 <= i < calls.len() ==> !(#[trigger] calls[i] is SetAuthorizedWorker),
    ensures
        run(state, calls).authorized_worker == state.authorized_worker,
    decreases calls.len(),
{
    if calls.len() > 0 {
        assert forall|i: int| 0 <= i < calls.drop_last().len() implies !(
        #[trigger] calls.drop_last()[i] is SetAuthorizedWorker) by {
            assert(calls.drop_last()[i] == calls[i]);
        }
        lemma_worker_stays(state, calls.drop_last());
        assert(!(calls[calls.len() - 1] is SetAuthorizedWorker));
        law_settings_change_through_the_owner(run(state, calls.drop_last()), calls.last());
    }
}

/// Only the authorized worker gets a signature: without the worker's key nobody does, the owner
/// included.
pub proof fn law_only_the_worker_signs(
    state: AgentState,
    ctx: ContextModel,
    payload_hash: Seq<u8>,
    derivation_path: Seq<char>,
    key_version: u32,
)
    requires
        state.authorized_worker != Some(ctx.signer_account_pk),
    ensures
        state.sign_cross_chain_payload(ctx, payload_hash, derivation_path, key_version) == Err::<
            (AgentState, PlanModel),
            AgentError,
        >(
            if state.authorized_worker is Some {
                AgentError::NotAuthorized
            } else {
                AgentError::NoWorkerSet
            },
        ),
{
}

/// The agent has itself called back, and nobody else.
pub proof fn law_callbacks_go_to_the_agent(state: AgentState, call: Call, ctx: ContextModel)
    requires
        call.context() == Some(ctx),
    ensures
        call.transition(state) is Some,
        call.transition(state)->0 matches Ok((_, plan)) ==> (plan.callback is Some
            ==> plan.callback->0.receiver_id == ctx.current_account_id),
{
}

/// Every trade is checked against the balance before it: the plan of an accepted trade, swap or
/// intent ends with the check, and hands it that balance and the deposit that leaves with the
/// first call. A swap of a token other than wrapped NEAR hands it the swapped amount instead.
pub proof fn law_every_trade_is_checked(state: AgentState, call: Call, ctx: ContextModel)
    requires
        call is ExecuteTrade || call is SwapOnRef || call is ExecuteIntent || call is SolveIntent,
        call.context() == Some(ctx),
    ensures
        call.transition(state)->0 matches Ok((_, plan)) ==> {
            &&& plan.callback is Some
            &&& plan.callback->0.callback matches CallbackModel::ExecuteTrade {
                balance_before,
                attached_deposit,
                ..
            }
            &&& balance_before == ctx.account_balance
            &&& match call {
                Call::SwapOnRef { token_in, amount, .. } if token_in != "wrap.near"@ =>
                    attached_deposit == (match amount {
                        Some(amount) => amount,
                        None => ctx.attached_deposit,
                    }),
                _ => attached_deposit == plan.calls[0].deposit,
            }
        },
{
}

/// From an accepted signature request to its callback there is no second one, whatever else the
/// agent is asked to do in between.
pub proof fn law_one_signature_at_a_time(
    state: AgentState,
    ctx: ContextModel,
    payload_hash: Seq<u8>,
    derivation_path: Seq<char>,
    key_version: u32,
    calls: Seq<Call>,
    next: Call,
)
    requires
        state.sign_cross_chain_payload(ctx, payload_hash, derivation_path, key_version) is Ok,
        forall|i: int| 0 <= i < calls.len() ==> !(#[trigger] calls[i] is OnSignCrossChainPayload),
        next is SignCrossChainPayload,
    ensures
        ({
            let requested = state.sign_cross_chain_payload(
                ctx,
                payload_hash,
                derivation_path,
                key_version,
            )->Ok_0.0;
            next.transition(run(requested, calls))->0 is Err
        }),
{
    let requested = state.sign_cross_chain_payload(
        ctx,
        payload_hash,
        derivation_path,
        key_version,
    )->Ok_0.0;
    lemma_signing_stays_in_flight(requested, calls);
}

/// A pending signature stays pending until its callback.
proof fn lemma_signing_stays_in_flight(state: AgentState, calls: Seq<Call>)
    requires
        state.signing_in_flight,
        forall|i: int| 0 <= i < calls.len() ==> !(#[trigger] calls[i] is OnSignCrossChainPayload),
    ensures
        run(state, calls).signing_in_flight,
    decreases calls.len(),
{
    if calls.len() > 0 {
        assert forall|i: int| 0 <= i < calls.drop_last().len() implies !(
        #[trigger] calls.drop_last()[i] is OnSignCrossChainPayload) by {
            assert(calls.drop_last()[i] == calls[i]);
        }
        lemma_signing_stays_in_flight(state, calls.drop_last());
        assert(!(calls[calls.len() - 1] is OnSignCrossChainPayload));
    }
}

/// The callback of a signature makes room for the next one, whatever became of the first, and
/// changes nothing else.
pub proof fn law_signing_callback_makes_room(
    state: AgentState,
    succeeded: bool,
    ctx: ContextModel,
    payload_hash: Seq<u8>,
    derivation_path: Seq<char>,
    key_version: u32,
)
    requires
        state.worker_clearance(ctx) is Ok,
        ctx.attached_deposit > 0,
    ensures
        state.on_sign_cross_chain_payload(succeeded).0 == (AgentState {
            signing_in_flight: false,
            ..state
        }),
        state.on_sign_cross_chain_payload(succeeded).0.sign_cross_chain_payload(
            ctx,
            payload_hash,
            derivation_path,
            key_version,
        ) is Ok,
{
}

/// A solved intent splits the client's deposit without a rest: the fee is counted, and all that
/// remains is wrapped, swapped and checked for.
pub proof fn law_intent_splits_the_deposit(
    state: AgentState,
    ctx: ContextModel,
    target_pool: u64,
    token_out: Seq<char>,
    min_amount_out: Seq<char>,
    solver_fee_yocto: Seq<char>,
)
    requires
        state.solve_intent(ctx, target_pool, token_out, min_amount_out, solver_fee_yocto) is Ok,
    ensures
        ({
            let (after, plan) = state.solve_intent(
                ctx,
                target_pool,
                token_out,
                min_amount_out,
                solver_fee_yocto,
            )->Ok_0;
            let fee = solver_fee(solver_fee_yocto);
            let capital = plan.calls[0].deposit;
            &&& fee + capital == ctx.attached_deposit
            &&& capital > 0
            &&& after.total_collected == saturating_sum(state.total_collected, fee)
            &&& plan.calls == seq![
                near_deposit(capital),
                ref_swap(target_pool, "wrap.near"@, token_out, capital, min_amount_out),
            ]
            &&& plan.callback == Some(trade_check(ctx, "v2.ref-finance.near"@, capital))
        }),
{
}

/// A fee that a client writes in decimal is the fee that is taken.
pub proof fn law_written_fee_is_taken(fee: u128)
    ensures
        solver_fee(decimal(fee as nat)) == fee,
{
    law_decimal_is_read_back(fee);
}

/// A swap or an intent with an amount of its own commits that amount, and the agent has it. One
/// without commits the attached deposit. Neither commits nothing.
pub proof fn law_commitments_are_covered(
    ctx: ContextModel,
    amount: Option<u128>,
    nothing: AgentError,
    insufficient: AgentError,
)
    requires
        committed(ctx, amount, nothing, insufficient) is Ok,
    ensures
        ({
            let value = committed(ctx, amount, nothing, insufficient)->Ok_0;
            &&& value > 0
            &&& amount is Some ==> value == amount->0 && value <= ctx.account_balance
            &&& amount is None ==> value == ctx.attached_deposit
        }),
{
}

/// A trade adds to the income only where it succeeded, is no administrative call and left at
/// least the balance that it had to; it then adds what is above the balance without its deposit,
/// which is no less than the configured margin. Nothing else about the agent changes.
pub proof fn law_only_profitable_trades_count(
    state: AgentState,
    ctx: ContextModel,
    receiver_id: Seq<char>,
    balance_before: u128,
    attached_deposit: u128,
    succeeded: bool,
)
    requires
        succeeded ==> state.guard_fits(receiver_id, balance_before, attached_deposit),
    ensures
        ({
            let after = state.on_execute_trade(
                ctx,
                receiver_id,
                balance_before,
                attached_deposit,
                succeeded,
            ).0;
            let required = state.minimum_required(receiver_id, balance_before, attached_deposit);
            let margin = state.min_profit(receiver_id, balance_before);
            let counts = succeeded && !is_admin_call(receiver_id) && ctx.account_balance
                >= required;
            let profit = ctx.account_balance - (required - margin);
            &&& after == (AgentState { total_collected: after.total_collected, ..state })
            &&& !counts ==> after == state
            &&& counts ==> profit >= margin && after.total_collected == saturating_sum(
                state.total_collected,
                profit as u128,
            )
        }),
{
}

} // verus!
