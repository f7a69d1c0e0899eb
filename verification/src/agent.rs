//! The agent.

use near_sdk::serde_json::Value;
use vstd::prelude::*;

use crate::error::AgentError;
use crate::host::{log_texts, CallContext, Callback, FunctionCall, Plan, PlanModel, SelfCall};
use crate::json::{
    array_text, bool_text, distinct_keys, json_array, json_bool, json_number, json_object,
    json_string, json_text, json_to_string, member, members_of, quoted,
};
use crate::messages::{
    collateral_message, collection_data, collection_request, event_text, signing_request,
    swap_message, sweep_data, sweep_request, transfer_message, withdraw_message,
};
use crate::model::{
    committed, is_admin_call, metadata_text, near_deposit, plan, ref_swap, trade_check, AgentState,
    Transition, CALLBACK_TGAS, CALL_TGAS, DEFAULT_SOLVER_FEE, MAX_TARGET_NEAR, MIN_TARGET_NEAR,
    SIGN_TGAS, SWAP_TGAS, WRAP_TGAS,
};
use crate::near::{
    near_to_yocto, tgas_to_gas, yocto_saturating_sub, yocto_to_near, PublicKey, ONE_NEAR,
};
use crate::text::{decimal, decimal_text, parse_u128, same_text};

verus! {

/// The risk settings of the agent. The margin and the circuit breaker bind its entry points.
#[derive(Debug)]
pub struct RiskConfig {
    /// Maximum allowed slippage in basis points (1/100th of 1%). The value is kept for
    /// operators: no entry point enforces it.
    pub max_slippage_bps: u32,
    /// Minimum required profit margin in basis points.
    pub min_profit_margin_bps: u32,
    /// Whether the risk guard is active.
    pub circuit_breaker_enabled: bool,
}

impl Clone for RiskConfig {
    fn clone(&self) -> (copy: Self)
        ensures
            copy == *self,
    {
        RiskConfig {
            max_slippage_bps: self.max_slippage_bps,
            min_profit_margin_bps: self.min_profit_margin_bps,
            circuit_breaker_enabled: self.circuit_breaker_enabled,
        }
    }
}

/// The agent's state. Amounts are in yoctoNEAR.
#[derive(Debug)]
pub struct IronClawAgent {
    /// The account that sets the agent up.
    pub owner_id: String,
    /// The contract that keeps the fees.
    pub ledger_contract: String,
    /// The key of the worker that operates the agent.
    pub authorized_worker: Option<PublicKey>,
    /// What the agent has earned so far.
    pub total_collected: u128,
    /// The balance that the agent is to be kept at.
    pub current_target_balance: u128,
    /// The risk settings.
    pub risk_config: RiskConfig,
    /// Set from the request of an MPC signature to its callback: there is one at a time.
    pub signing_in_flight: bool,
}

impl View for IronClawAgent {
    type V = AgentState;

    open spec fn view(&self) -> AgentState {
        AgentState {
            owner_id: self.owner_id@,
            ledger_contract: self.ledger_contract@,
            authorized_worker: match self.authorized_worker {
                Some(key) => Some(key@),
                None => None,
            },
            total_collected: self.total_collected,
            current_target_balance: self.current_target_balance,
            risk_config: self.risk_config,
            signing_in_flight: self.signing_in_flight,
        }
    }
}

/// A call has done what a transition says: the agent is in its next state and the host gets its
/// plan, or the agent is as it was and the caller gets the reason.
pub open spec fn carried_out(
    transition: Transition,
    before: AgentState,
    after: AgentState,
    answer: Result<Plan, AgentError>,
) -> bool {
    match transition {
        Ok((state, plan)) => answer is Ok && answer->Ok_0@ == plan && after == state,
        Err(error) => answer == Err::<Plan, AgentError>(error) && after == before,
    }
}

impl IronClawAgent {
    /// A new agent, without a worker and with nothing collected.
    pub fn new(owner_id: String, ledger_contract: String) -> (agent: Self)
        ensures
            agent@ == AgentState::new(owner_id@, ledger_contract@),
    {
        IronClawAgent {
            owner_id,
            ledger_contract,
            authorized_worker: None,
            total_collected: 0,
            current_target_balance: near_to_yocto(50),
            risk_config: RiskConfig {
                max_slippage_bps: 100,
                min_profit_margin_bps: 10,
                circuit_breaker_enabled: true,
            },
            signing_in_flight: false,
        }
    }

    /// Lets the owner through.
    fn assert_owner(&self, ctx: &CallContext) -> (access: Result<(), AgentError>)
        ensures
            access == (if ctx@.predecessor_account_id == self@.owner_id {
                Ok(())
            } else {
                Err(AgentError::OwnerOnly)
            }),
    {
        if ctx.predecessor_account_id == self.owner_id {
            Ok(())
        } else {
            Err(AgentError::OwnerOnly)
        }
    }

    /// Lets the key of the authorized worker through.
    fn assert_worker_key(&self, ctx: &CallContext) -> (access: Result<(), AgentError>)
        ensures
            access == self@.worker_access(ctx@),
    {
        match &self.authorized_worker {
            Some(worker_key) => if ctx.signer_account_pk.same_as(worker_key) {
                Ok(())
            } else {
                Err(AgentError::NotAuthorized)
            },
            None => Err(AgentError::NoWorkerSet),
        }
    }

    /// Lets the owner and the authorized worker through.
    fn assert_authorized(&self, ctx: &CallContext) -> (access: Result<(), AgentError>)
        ensures
            access == self@.authorization(ctx@),
    {
        if ctx.signer_account_id == self.owner_id {
            return Ok(());
        }
        self.assert_worker_key(ctx)
    }

    /// Lets an operation of the authorized worker alone through while the circuit breaker is
    /// closed.
    fn assert_worker(&self, ctx: &CallContext) -> (access: Result<(), AgentError>)
        ensures
            access == self@.worker_clearance(ctx@),
    {
        match self.assert_worker_key(ctx) {
            Err(error) => Err(error),
            Ok(()) => if self.risk_config.circuit_breaker_enabled {
                Ok(())
            } else {
                Err(AgentError::BreakerTripped)
            },
        }
    }

    /// Lets a deposit of one yoctoNEAR through.
    fn assert_one_yocto(&self, ctx: &CallContext) -> (access: Result<(), AgentError>)
        ensures
            access == (if ctx@.attached_deposit == 1 {
                Ok(())
            } else {
                Err(AgentError::OneYoctoRequired)
            }),
    {
        if ctx.attached_deposit == 1 {
            Ok(())
        } else {
            Err(AgentError::OneYoctoRequired)
        }
    }

    /// Lets an authorized operation through while the circuit breaker is closed.
    fn assert_cleared(&self, ctx: &CallContext, halted: AgentError) -> (access: Result<
        (),
        AgentError,
    >)
        ensures
            access == self@.clearance(ctx@, halted),
    {
        match self.assert_authorized(ctx) {
            Err(error) => Err(error),
            Ok(()) => if self.risk_config.circuit_breaker_enabled {
                Ok(())
            } else {
                Err(halted)
            },
        }
    }

    /// Lets the owner's settings through: one yoctoNEAR, from the owner.
    fn assert_owner_setting(&self, ctx: &CallContext) -> (access: Result<(), AgentError>)
        ensures
            access == self@.ownership(ctx@),
    {
        match self.assert_one_yocto(ctx) {
            Err(error) => Err(error),
            Ok(()) => self.assert_owner(ctx),
        }
    }

    /// Sets the key of the worker that operates the agent.
    pub fn set_authorized_worker(&mut self, ctx: &CallContext, worker_id: PublicKey) -> (answer:
        Result<Plan, AgentError>)
        ensures
            carried_out(
                old(self)@.set_authorized_worker(ctx@, worker_id@),
                old(self)@,
                final(self)@,
                answer,
            ),
    {
        if let Err(error) = self.assert_owner_setting(ctx) {
            return Err(error);
        }
        let line: String = "Authorized worker set to: ".to_owned().concat(
            worker_id.shown().as_str(),
        );
        self.authorized_worker = Some(worker_id);
        Ok(log_only(line))
    }

    /// Sets the contract that keeps the fees.
    pub fn set_ledger_contract(&mut self, ctx: &CallContext, ledger_contract: String) -> (answer:
        Result<Plan, AgentError>)
        ensures
            carried_out(
                old(self)@.set_ledger_contract(ctx@, ledger_contract@),
                old(self)@,
                final(self)@,
                answer,
            ),
    {
        if let Err(error) = self.assert_owner_setting(ctx) {
            return Err(error);
        }
        let line: String = "Ledger contract updated to: ".to_owned().concat(
            ledger_contract.as_str(),
        );
        self.ledger_contract = ledger_contract;
        Ok(log_only(line))
    }

    /// Sets the risk settings.
    pub fn set_risk_config(&mut self, ctx: &CallContext, config: RiskConfig) -> (answer: Result<
        Plan,
        AgentError,
    >)
        ensures
            carried_out(
                old(self)@.set_risk_config(ctx@, config),
                old(self)@,
                final(self)@,
                answer,
            ),
    {
        if let Err(error) = self.assert_owner_setting(ctx) {
            return Err(error);
        }
        self.risk_config = config;
        Ok(log_only("Risk configuration updated".to_owned()))
    }

    /// Calls another contract for a swap or another action, and has the outcome checked.
    pub fn execute_trade(
        &mut self,
        ctx: &CallContext,
        receiver_id: String,
        method_name: String,
        args: String,
        deposit: u128,
        gas: u64,
    ) -> (answer: Result<Plan, AgentError>)
        ensures
            carried_out(
                old(self)@.execute_trade(
                    ctx@,
                    receiver_id@,
                    method_name@,
                    args@,
                    deposit,
                    gas,
                ),
                old(self)@,
                final(self)@,
                answer,
            ),
    {
        if let Err(error) = self.assert_cleared(ctx, AgentError::TradingHalted) {
            return Err(error);
        }
        let callback: SelfCall = trade_check_call(ctx, receiver_id.as_str(), deposit);
        let call: FunctionCall = FunctionCall {
            receiver_id,
            method_name,
            args: args.as_str().as_bytes_vec(),
            deposit,
            gas,
        };
        Ok(single_call(call, Some(callback)))
    }

    /// The balance that a trade must at least leave. There is none where the computation leaves
    /// 128 bits.
    pub fn minimum_required(
        &self,
        receiver_id: &String,
        balance_before: u128,
        attached_deposit: u128,
    ) -> (required: Option<u128>)
        ensures
            match required {
                Some(required) => self@.guard_fits(
                    receiver_id@,
                    balance_before,
                    attached_deposit,
                ) && required == self@.minimum_required(
                    receiver_id@,
                    balance_before,
                    attached_deposit,
                ),
                None => !self@.guard_fits(receiver_id@, balance_before, attached_deposit),
            },
    {
        let min_profit: u128 = if is_admin_receiver(receiver_id) {
            0
        } else {
            match balance_before.checked_mul(self.risk_config.min_profit_margin_bps as u128) {
                Some(product) => product / 10000,
                None => return None,
            }
        };
        balance_before.saturating_sub(attached_deposit).checked_add(min_profit)
    }

    /// Checks what a trade has brought, and counts its profit. A loss is reported and does not
    /// halt the agent.
    pub fn on_execute_trade(
        &mut self,
        ctx: &CallContext,
        receiver_id: String,
        balance_before: u128,
        attached_deposit: u128,
        succeeded: bool,
    ) -> (logs: Vec<String>)
        requires
            succeeded ==> old(self)@.guard_fits(receiver_id@, balance_before, attached_deposit),
        ensures
            final(self)@ == old(self)@.on_execute_trade(
                ctx@,
                receiver_id@,
                balance_before,
                attached_deposit,
                succeeded,
            ).0,
            log_texts(logs@) == seq![
                old(self)@.on_execute_trade(
                    ctx@,
                    receiver_id@,
                    balance_before,
                    attached_deposit,
                    succeeded,
                ).1,
            ],
    {
        if !succeeded {
            return single_line(
                "Trade failed via PromiseError; stopping execution to prevent leakage.",
            );
        }
        let is_admin: bool = is_admin_receiver(&receiver_id);
        let required: u128 = self.minimum_required(
            &receiver_id,
            balance_before,
            attached_deposit,
        ).unwrap();
        if ctx.account_balance < required {
            return single_line(
                "NEVER-LOSS VIOLATION DETECTED: Guard is now in LOG-ONLY mode per user request. System NOT locked.",
            );
        }
        if is_admin {
            return single_line("Trade Outcome: ADMIN PASS. Status updated.");
        }
        let kept: u128 = balance_before.saturating_sub(attached_deposit);
        let profit: u128 = ctx.account_balance.saturating_sub(kept);
        self.total_collected = self.total_collected.saturating_add(profit);
        single_line("Trade Outcome: POSITIVE. Status updated.")
    }

    /// Swaps a token on Ref Finance: wraps the amount first where the token is wrapped NEAR,
    /// sends it with the swap message through `ft_transfer_call`, and has the outcome checked.
    pub fn swap_on_ref(
        &mut self,
        ctx: &CallContext,
        pool_id: u64,
        token_in: String,
        token_out: String,
        min_amount_out: String,
        amount: Option<u128>,
    ) -> (answer: Result<Plan, AgentError>)
        ensures
            carried_out(
                old(self)@.swap_on_ref(
                    ctx@,
                    pool_id,
                    token_in@,
                    token_out@,
                    min_amount_out@,
                    amount,
                ),
                old(self)@,
                final(self)@,
                answer,
            ),
    {
        if let Err(error) = self.assert_cleared(ctx, AgentError::BreakerTripped) {
            return Err(error);
        }
        let swap_amount: u128 = match committed_amount(
            ctx,
            amount,
            AgentError::NoSwapLiquidity,
            AgentError::InsufficientSwapBalance,
        ) {
            Ok(value) => value,
            Err(error) => return Err(error),
        };
        let swap: FunctionCall = ref_swap_call(
            pool_id,
            &token_in,
            &token_out,
            swap_amount,
            &min_amount_out,
        );
        let calls: Vec<FunctionCall> = if same_text(&token_in, "wrap.near") {
            vec![near_deposit_call(swap_amount), swap]
        } else {
            vec![swap]
        };
        let callback: SelfCall = trade_check_call(ctx, "v2.ref-finance.near", swap_amount);
        let result: Plan = Plan { logs: Vec::new(), calls, callback: Some(callback) };
        assert(result@ =~= plan(
            if token_in@ == "wrap.near"@ {
                seq![
                    near_deposit(swap_amount),
                    ref_swap(pool_id, token_in@, token_out@, swap_amount, min_amount_out@),
                ]
            } else {
                seq![ref_swap(pool_id, token_in@, token_out@, swap_amount, min_amount_out@)]
            },
            Some(trade_check(ctx@, "v2.ref-finance.near"@, swap_amount)),
        ));
        Ok(result)
    }

    /// Forwards an intent to a solver, and has the outcome checked.
    pub fn execute_intent(
        &mut self,
        ctx: &CallContext,
        solver_id: String,
        intent_payload: String,
        amount: Option<u128>,
    ) -> (answer: Result<Plan, AgentError>)
        ensures
            carried_out(
                old(self)@.execute_intent(ctx@, solver_id@, intent_payload@, amount),
                old(self)@,
                final(self)@,
                answer,
            ),
    {
        if let Err(error) = self.assert_cleared(ctx, AgentError::BreakerTripped) {
            return Err(error);
        }
        let swap_amount: u128 = match committed_amount(
            ctx,
            amount,
            AgentError::NoIntentLiquidity,
            AgentError::InsufficientIntentBalance,
        ) {
            Ok(value) => value,
            Err(error) => return Err(error),
        };
        let callback: SelfCall = trade_check_call(ctx, solver_id.as_str(), swap_amount);
        let call: FunctionCall = FunctionCall {
            receiver_id: solver_id,
            method_name: "execute_intent".to_owned(),
            args: intent_payload.as_str().as_bytes_vec(),
            deposit: swap_amount,
            gas: tgas_to_gas(SWAP_TGAS),
        };
        Ok(single_call(call, Some(callback)))
    }

    /// Routes the deposit of another agent through Ref Finance and keeps a fee of it. Anyone may
    /// call this.
    pub fn solve_intent(
        &mut self,
        ctx: &CallContext,
        target_pool: u64,
        token_out: String,
        min_amount_out: String,
        solver_fee_yocto: String,
    ) -> (answer: Result<Plan, AgentError>)
        ensures
            carried_out(
                old(self)@.solve_intent(
                    ctx@,
                    target_pool,
                    token_out@,
                    min_amount_out@,
                    solver_fee_yocto@,
                ),
                old(self)@,
                final(self)@,
                answer,
            ),
    {
        if !self.risk_config.circuit_breaker_enabled {
            return Err(AgentError::HubOffline);
        }
        let client_deposit: u128 = ctx.attached_deposit;
        if client_deposit == 0 {
            return Err(AgentError::NoClientLiquidity);
        }
        let fee: u128 = match parse_u128(solver_fee_yocto.as_str()) {
            Some(fee) => fee,
            None => DEFAULT_SOLVER_FEE,
        };
        if client_deposit <= fee {
            return Err(AgentError::FeeNotCovered);
        }
        self.total_collected = self.total_collected.saturating_add(fee);
        let trade_capital: u128 = client_deposit - fee;
        let line: String = "[A2A HUB] Agent ".to_owned()
            .concat(ctx.predecessor_account_id.as_str())
            .concat(" requested intent. Skimming ")
            .concat(decimal_text(fee).as_str())
            .concat(" yocto as Solver Fee.");
        let swap: FunctionCall = ref_swap_call(
            target_pool,
            "wrap.near",
            token_out.as_str(),
            trade_capital,
            min_amount_out.as_str(),
        );
        let result: Plan = Plan {
            logs: vec![line],
            calls: vec![near_deposit_call(trade_capital), swap],
            callback: Some(trade_check_call(ctx, "v2.ref-finance.near", trade_capital)),
        };
        assert(result@.logs =~= seq![line@]);
        assert(result@.calls =~= seq![near_deposit(trade_capital), swap@]);
        Ok(result)
    }

    /// Lends wrapped NEAR to Burrow as collateral.
    pub fn deposit_to_burrow(&mut self, ctx: &CallContext, amount_yocto: String) -> (answer:
        Result<Plan, AgentError>)
        ensures
            carried_out(
                old(self)@.deposit_to_burrow(ctx@, amount_yocto@),
                old(self)@,
                final(self)@,
                answer,
            ),
    {
        if let Err(error) = self.assert_cleared(ctx, AgentError::YieldFarmingHalted) {
            return Err(error);
        }
        let burrow_msg: String = collateral_message();
        let message: String = transfer_message(
            "contract.main.burrow.near",
            amount_yocto.as_str(),
            burrow_msg.as_str(),
        );
        Ok(single_call(ft_transfer_call("wrap.near", message.as_str()), None))
    }

    /// Takes wrapped NEAR out of Burrow.
    pub fn withdraw_from_burrow(&mut self, ctx: &CallContext, amount_yocto: String) -> (answer:
        Result<Plan, AgentError>)
        ensures
            carried_out(
                old(self)@.withdraw_from_burrow(ctx@, amount_yocto@),
                old(self)@,
                final(self)@,
                answer,
            ),
    {
        if let Err(error) = self.assert_cleared(ctx, AgentError::BreakerTripped) {
            return Err(error);
        }
        let call: FunctionCall = FunctionCall {
            receiver_id: "contract.main.burrow.near".to_owned(),
            method_name: "execute".to_owned(),
            args: withdraw_message(amount_yocto.as_str()).as_str().as_bytes_vec(),
            deposit: 1,
            gas: tgas_to_gas(SWAP_TGAS),
        };
        Ok(single_call(call, None))
    }

    /// Requests an MPC signature of a payload for another chain from the `v1.signer` contract.
    /// This method can only be called by the authorized worker: the transaction must be signed
    /// with the worker's key, and the owner's account does not stand in for it. There is one
    /// request at a time.
    pub fn sign_cross_chain_payload(
        &mut self,
        ctx: &CallContext,
        payload_hash: [u8; 32],
        derivation_path: String,
        key_version: u32,
    ) -> (answer: Result<Plan, AgentError>)
        ensures
            carried_out(
                old(self)@.sign_cross_chain_payload(
                    ctx@,
                    payload_hash@,
                    derivation_path@,
                    key_version,
                ),
                old(self)@,
                final(self)@,
                answer,
            ),
    {
        if let Err(error) = self.assert_worker(ctx) {
            return Err(error);
        }
        if ctx.attached_deposit == 0 {
            return Err(AgentError::NoSigningDeposit);
        }
        if self.signing_in_flight {
            return Err(AgentError::SigningInFlight);
        }
        self.signing_in_flight = true;
        let call: FunctionCall = FunctionCall {
            receiver_id: "v1.signer".to_owned(),
            method_name: "sign".to_owned(),
            args: signing_request(&payload_hash, derivation_path.as_str(), key_version),
            deposit: ctx.attached_deposit,
            gas: tgas_to_gas(SIGN_TGAS),
        };
        let callback: SelfCall = SelfCall {
            receiver_id: ctx.current_account_id.clone(),
            callback: Callback::SignCrossChainPayload,
            gas: tgas_to_gas(CALLBACK_TGAS),
        };
        Ok(single_call(call, Some(callback)))
    }

    /// Makes room for the next signature, whatever became of this one.
    pub fn on_sign_cross_chain_payload(&mut self, succeeded: bool) -> (logs: Vec<String>)
        ensures
            final(self)@ == old(self)@.on_sign_cross_chain_payload(succeeded).0,
            log_texts(logs@) == seq![old(self)@.on_sign_cross_chain_payload(succeeded).1],
    {
        self.signing_in_flight = false;
        if succeeded {
            single_line("MPC signing succeeded. Mutex released.")
        } else {
            single_line("MPC signing failed. Mutex released.")
        }
    }

    /// Hands the attached deposit to the ledger as collected fees. They count when the ledger
    /// has taken them.
    pub fn collect_fees(&mut self, ctx: &CallContext) -> (answer: Result<Plan, AgentError>)
        ensures
            carried_out(old(self)@.collect_fees(ctx@), old(self)@, final(self)@, answer),
    {
        if let Err(error) = self.assert_authorized(ctx) {
            return Err(error);
        }
        let deposit: u128 = ctx.attached_deposit;
        if deposit == 0 {
            return Err(AgentError::NoCollectionDeposit);
        }
        let call: FunctionCall = FunctionCall {
            receiver_id: self.ledger_contract.clone(),
            method_name: "collect_fees".to_owned(),
            args: collection_request(ctx.current_account_id.as_str()),
            deposit,
            gas: tgas_to_gas(CALL_TGAS),
        };
        let callback: SelfCall = SelfCall {
            receiver_id: ctx.current_account_id.clone(),
            callback: Callback::CollectFees { deposit },
            gas: tgas_to_gas(CALL_TGAS),
        };
        Ok(single_call(call, Some(callback)))
    }

    /// Counts the fees that the ledger has taken.
    pub fn on_collect_fees(&mut self, deposit: u128, succeeded: bool) -> (logs: Vec<String>)
        ensures
            final(self)@ == old(self)@.on_collect_fees(deposit, succeeded).0,
            log_texts(logs@) == seq![old(self)@.on_collect_fees(deposit, succeeded).1],
    {
        if !succeeded {
            return single_line("Ledger deposit failed; no state change applied.");
        }
        self.total_collected = self.total_collected.saturating_add(deposit);
        let line: String = self.emit_event(
            "collect_fees",
            collection_data(deposit, self.total_collected),
        );
        let logs: Vec<String> = vec![line];
        assert(log_texts(logs@) =~= seq![line@]);
        logs
    }

    /// Has the ledger sweep the profits and replenish the agent up to its target, and scales the
    /// target with the income.
    pub fn process_fees(&mut self, ctx: &CallContext) -> (answer: Result<Plan, AgentError>)
        ensures
            carried_out(old(self)@.process_fees(ctx@), old(self)@, final(self)@, answer),
    {
        if let Err(error) = self.assert_authorized(ctx) {
            return Err(error);
        }
        let old_target: u128 = self.current_target_balance;
        let replenish: u128 = if ctx.account_balance < old_target {
            yocto_saturating_sub(old_target, ctx.account_balance)
        } else {
            0
        };
        let earned: u128 = self.total_collected / ONE_NEAR;
        let floored: u128 = if earned < MIN_TARGET_NEAR {
            MIN_TARGET_NEAR
        } else {
            earned
        };
        let scale: u128 = if floored > MAX_TARGET_NEAR {
            MAX_TARGET_NEAR
        } else {
            floored
        };
        self.current_target_balance = near_to_yocto(scale);
        let call: FunctionCall = FunctionCall {
            receiver_id: self.ledger_contract.clone(),
            method_name: "process_fees".to_owned(),
            args: sweep_request(replenish),
            deposit: 0,
            gas: tgas_to_gas(CALL_TGAS),
        };
        let callback: SelfCall = SelfCall {
            receiver_id: ctx.current_account_id.clone(),
            callback: Callback::ProcessFees { old_target },
            gas: tgas_to_gas(CALL_TGAS),
        };
        Ok(single_call(call, Some(callback)))
    }

    /// Keeps the scaled target where the sweep went through, and goes back to the old one where
    /// it did not.
    pub fn on_process_fees(&mut self, old_target: u128, succeeded: bool) -> (logs: Vec<String>)
        ensures
            final(self)@ == old(self)@.on_process_fees(old_target, succeeded).0,
            log_texts(logs@) == old(self)@.on_process_fees(old_target, succeeded).1,
    {
        if !succeeded {
            self.current_target_balance = old_target;
            return single_line("Revenue sweep failed; scale-up deferred.");
        }
        let target: u128 = self.current_target_balance;
        let line: String = "Scaling complete. New target: ".to_owned()
            .concat(decimal_text(yocto_to_near(target)).as_str())
            .concat(" NEAR");
        let event: String = self.emit_event("process_fees", sweep_data(target));
        let logs: Vec<String> = vec![line, event];
        assert(log_texts(logs@) =~= seq![line@, event@]);
        logs
    }

    /// The state of the agent, for its users.
    pub fn get_status(&self) -> (status: Value)
        ensures
            json_text(status) == self@.status_text(),
    {
        let revenue: String = decimal_text(self.total_collected);
        let scale: u128 = yocto_to_near(self.current_target_balance);
        let fields: Vec<(String, Value)> = vec![
            member("total_revenue", json_string(revenue.as_str())),
            member("target_scale", json_number(scale as u64)),
            member("circuit_breaker", json_bool(self.risk_config.circuit_breaker_enabled)),
            member("signing_in_flight", json_bool(self.signing_in_flight)),
            member("owner", json_string(self.owner_id.as_str())),
        ];
        assert(members_of(fields@) =~= seq![
            ("total_revenue"@, quoted(decimal(self@.total_collected as nat))),
            ("target_scale"@, decimal((self@.current_target_balance / ONE_NEAR) as nat)),
            ("circuit_breaker"@, bool_text(self@.risk_config.circuit_breaker_enabled)),
            ("signing_in_flight"@, bool_text(self@.signing_in_flight)),
            ("owner"@, quoted(self@.owner_id)),
        ]);
        assert(distinct_keys(members_of(fields@))) by {
            reveal_strlit("total_revenue");
            assert("total_revenue"@.len() == 13);
            reveal_strlit("target_scale");
            assert("target_scale"@.len() == 12);
            reveal_strlit("circuit_breaker");
            assert("circuit_breaker"@.len() == 15);
            reveal_strlit("signing_in_flight");
            assert("signing_in_flight"@.len() == 17);
            reveal_strlit("owner");
            assert("owner"@.len() == 5);
        }
        json_object(fields)
    }

    /// Writes the log line of an event.
    fn emit_event(&self, event: &str, data: Value) -> (line: String)
        ensures
            line@ == event_text(event@, json_text(data)),
    {
        let items: Vec<Value> = vec![data];
        assert(items@.map_values(|item: Value| json_text(item)) =~= seq![json_text(data)]);
        let fields: Vec<(String, Value)> = vec![
            member("standard", json_string("iron-claw")),
            member("version", json_string("1.0.0")),
            member("event", json_string(event)),
            member("data", json_array(items)),
        ];
        assert(members_of(fields@) =~= seq![
            ("standard"@, quoted("iron-claw"@)),
            ("version"@, quoted("1.0.0"@)),
            ("event"@, quoted(event@)),
            ("data"@, array_text(seq![json_text(data)])),
        ]);
        assert(distinct_keys(members_of(fields@))) by {
            reveal_strlit("standard");
            assert("standard"@.len() == 8);
            reveal_strlit("version");
            assert("version"@.len() == 7);
            reveal_strlit("event");
            assert("event"@.len() == 5);
            reveal_strlit("data");
            assert("data"@.len() == 4);
        }
        "EVENT_JSON:".to_owned().concat(json_to_string(&json_object(fields)).as_str())
    }

    /// What the agent says of itself.
    pub fn get_agent_metadata(&self) -> (metadata: Value)
        ensures
            json_text(metadata) == metadata_text(),
    {
        let fields: Vec<(String, Value)> = vec![
            member("name", json_string("Blue Dragon Autonomous Executor")),
            member("vanity", json_string("bluedragon")),
            member("version", json_string("3.1.0-bluedragon")),
            member("brand", json_string("Deep Velvet")),
            member("intelligence", json_string("Bittensor Subnet 8")),
            member("security", json_string("Iron Claw Multi-Sig / Ledger Vault")),
            member("intent_layer", json_string("Confidential Intents Enabled")),
        ];
        assert(members_of(fields@) =~= seq![
            ("name"@, quoted("Blue Dragon Autonomous Executor"@)),
            ("vanity"@, quoted("bluedragon"@)),
            ("version"@, quoted("3.1.0-bluedragon"@)),
            ("brand"@, quoted("Deep Velvet"@)),
            ("intelligence"@, quoted("Bittensor Subnet 8"@)),
            ("security"@, quoted("Iron Claw Multi-Sig / Ledger Vault"@)),
            ("intent_layer"@, quoted("Confidential Intents Enabled"@)),
        ]);
        assert(distinct_keys(members_of(fields@))) by {
            reveal_strlit("name");
            assert("name"@.len() == 4);
            reveal_strlit("vanity");
            assert("vanity"@.len() == 6);
            reveal_strlit("version");
            assert("version"@.len() == 7);
            reveal_strlit("brand");
            assert("brand"@.len() == 5);
            reveal_strlit("intelligence");
            assert("intelligence"@.len() == 12);
            reveal_strlit("security");
            assert("security"@.len() == 8);
            reveal_strlit("intent_layer");
            assert("intent_layer"@.len() == 12);
            assert("intelligence"@[5] != "intent_layer"@[5]);
        }
        json_object(fields)
    }
}

/// A plan that is a log line.
fn log_only(line: String) -> (result: Plan)
    ensures
        result@ == (PlanModel { logs: seq![line@], calls: seq![], callback: None }),
{
    let result: Plan = Plan { logs: vec![line], calls: Vec::new(), callback: None };
    assert(result@ =~= PlanModel { logs: seq![line@], calls: seq![], callback: None });
    result
}

/// A plan with one call on another contract.
fn single_call(call: FunctionCall, callback: Option<SelfCall>) -> (result: Plan)
    ensures
        result@ == plan(
            seq![call@],
            match callback {
                Some(callback) => Some(callback@),
                None => None,
            },
        ),
{
    let result: Plan = Plan { logs: Vec::new(), calls: vec![call], callback };
    assert(result@.logs =~= seq![]);
    assert(result@.calls =~= seq![call@]);
    result
}

/// A log of one line.
fn single_line(line: &str) -> (logs: Vec<String>)
    ensures
        log_texts(logs@) == seq![line@],
{
    let logs: Vec<String> = vec![line.to_owned()];
    assert(log_texts(logs@) =~= seq![line@]);
    logs
}

/// Whether a receiver is a wrapping or bridging contract.
fn is_admin_receiver(receiver_id: &String) -> (is_admin: bool)
    ensures
        is_admin == is_admin_call(receiver_id@),
{
    same_text(receiver_id, "wrap.near") || same_text(receiver_id, "aurora")
}

/// What an operation commits: the named amount, or else the attached deposit.
fn committed_amount(
    ctx: &CallContext,
    amount: Option<u128>,
    nothing: AgentError,
    insufficient: AgentError,
) -> (value: Result<u128, AgentError>)
    ensures
        value == committed(ctx@, amount, nothing, insufficient),
{
    let value: u128 = match amount {
        Some(value) => value,
        None => ctx.attached_deposit,
    };
    if value == 0 {
        return Err(nothing);
    }
    if amount.is_some() && ctx.account_balance < value {
        return Err(insufficient);
    }
    Ok(value)
}

/// Wraps an amount of NEAR.
fn near_deposit_call(amount: u128) -> (call: FunctionCall)
    ensures
        call@ == near_deposit(amount),
{
    FunctionCall {
        receiver_id: "wrap.near".to_owned(),
        method_name: "near_deposit".to_owned(),
        args: Vec::new(),
        deposit: amount,
        gas: tgas_to_gas(WRAP_TGAS),
    }
}

/// Moves a token to another contract together with a message.
fn ft_transfer_call(token: &str, message: &str) -> (call: FunctionCall)
    ensures
        call@ == crate::model::ft_transfer_call(token@, message@),
{
    FunctionCall {
        receiver_id: token.to_owned(),
        method_name: "ft_transfer_call".to_owned(),
        args: message.as_bytes_vec(),
        deposit: 1,
        gas: tgas_to_gas(SWAP_TGAS),
    }
}

/// Has Ref Finance swap an amount of a token.
fn ref_swap_call(
    pool_id: u64,
    token_in: &str,
    token_out: &str,
    amount: u128,
    min_amount_out: &str,
) -> (call: FunctionCall)
    ensures
        call@ == ref_swap(pool_id, token_in@, token_out@, amount, min_amount_out@),
{
    let amount_text: String = decimal_text(amount);
    let swap_msg: String = swap_message(pool_id, token_in, token_out, amount, min_amount_out);
    let message: String = transfer_message(
        "v2.ref-finance.near",
        amount_text.as_str(),
        swap_msg.as_str(),
    );
    ft_transfer_call(token_in, message.as_str())
}

/// Has the outcome of a trade checked.
fn trade_check_call(ctx: &CallContext, receiver_id: &str, attached_deposit: u128) -> (callback:
    SelfCall)
    ensures
        callback@ == trade_check(ctx@, receiver_id@, attached_deposit),
{
    SelfCall {
        receiver_id: ctx.current_account_id.clone(),
        callback: Callback::ExecuteTrade {
            receiver_id: receiver_id.to_owned(),
            balance_before: ctx.account_balance,
            attached_deposit,
        },
        gas: tgas_to_gas(CALLBACK_TGAS),
    }
}

} // verus!
