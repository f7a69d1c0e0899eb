//! What the agent does, over mathematical values.
//!
//! Each entry point is a function from the state, the call and its arguments to the next state
//! and the plan, or to the reason for which the call is rejected.

use vstd::prelude::*;
use vstd::utf8::encode_utf8;

use crate::agent::RiskConfig;
use crate::error::AgentError;
use crate::host::{CallModel, CallbackModel, ContextModel, PlanModel, SelfCallModel};
use crate::json::{bool_text, object_text, quoted};
use crate::messages::{
    collateral_text, collection_data_text, collection_text, event_text, signing_text,
    swap_text, sweep_data_text, sweep_text, transfer_text, withdraw_text,
};
use crate::near::{public_key_shown, ONE_NEAR, ONE_TGAS};
use crate::text::{decimal, parsed};

verus! {

/// Gas budget of the ledger's calls and of their callbacks, in teragas.
pub const CALL_TGAS: u64 = 10;

/// Gas budget of the callbacks of trades and signatures, in teragas.
pub const CALLBACK_TGAS: u64 = 20;

/// Gas budget of wrapping NEAR, in teragas.
pub const WRAP_TGAS: u64 = 10;

/// Gas budget of swaps, intents and lending, in teragas.
pub const SWAP_TGAS: u64 = 100;

/// Gas budget of an MPC signature, in teragas.
pub const SIGN_TGAS: u64 = 250;

/// Floor of the auto-scaling target, in NEAR.
pub const MIN_TARGET_NEAR: u128 = 50;

/// Hard ceiling on the auto-scaling target, in NEAR.
pub const MAX_TARGET_NEAR: u128 = 500;

/// The fee for solving an intent where the client names none: 0.1 NEAR.
pub const DEFAULT_SOLVER_FEE: u128 = 100_000_000_000_000_000_000_000;

/// The mathematical value of an agent.
#[verifier::ext_equal]
pub struct AgentState {
    pub owner_id: Seq<char>,
    pub ledger_contract: Seq<char>,
    pub authorized_worker: Option<Seq<u8>>,
    pub total_collected: u128,
    pub current_target_balance: u128,
    pub risk_config: RiskConfig,
    pub signing_in_flight: bool,
}

/// The next state and the plan of a call, or why it is rejected.
pub type Transition = Result<(AgentState, PlanModel), AgentError>;

/// The state after a call: a rejected one changes nothing.
pub open spec fn state_after(before: AgentState, transition: Transition) -> AgentState {
    match transition {
        Ok((after, _)) => after,
        Err(_) => before,
    }
}

/// The sum of two amounts, or the largest amount where the sum exceeds it.
pub open spec fn saturating_sum(a: u128, b: u128) -> u128 {
    if a + b > u128::MAX {
        u128::MAX
    } else {
        (a + b) as u128
    }
}

/// The difference of two amounts, or zero where the second one is the larger.
pub open spec fn saturating_difference(a: u128, b: u128) -> u128 {
    if a >= b {
        (a - b) as u128
    } else {
        0
    }
}

/// A plan with these calls and this callback, and nothing to log.
pub open spec fn plan(calls: Seq<CallModel>, callback: Option<SelfCallModel>) -> PlanModel {
    PlanModel { logs: seq![], calls, callback }
}

/// Moves a token to another contract together with a message.
pub open spec fn ft_transfer_call(token: Seq<char>, message: Seq<char>) -> CallModel {
    CallModel {
        receiver_id: token,
        method_name: "ft_transfer_call"@,
        args: encode_utf8(message),
        deposit: 1,
        gas: (SWAP_TGAS * ONE_TGAS) as nat,
    }
}

/// Wraps an amount of NEAR.
pub open spec fn near_deposit(amount: u128) -> CallModel {
    CallModel {
        receiver_id: "wrap.near"@,
        method_name: "near_deposit"@,
        args: seq![],
        deposit: amount,
        gas: (WRAP_TGAS * ONE_TGAS) as nat,
    }
}

/// The call back that checks what a trade has brought.
pub open spec fn trade_check(
    ctx: ContextModel,
    receiver_id: Seq<char>,
    attached_deposit: u128,
) -> SelfCallModel {
    SelfCallModel {
        receiver_id: ctx.current_account_id,
        callback: CallbackModel::ExecuteTrade {
            receiver_id,
            balance_before: ctx.account_balance,
            attached_deposit,
        },
        gas: (CALLBACK_TGAS * ONE_TGAS) as nat,
    }
}

/// The `ft_transfer_call` that has Ref Finance swap an amount of a token.
pub open spec fn ref_swap(
    pool_id: u64,
    token_in: Seq<char>,
    token_out: Seq<char>,
    amount: u128,
    min_amount_out: Seq<char>,
) -> CallModel {
    ft_transfer_call(
        token_in,
        transfer_text(
            "v2.ref-finance.near"@,
            decimal(amount as nat),
            swap_text(pool_id, token_in, token_out, amount, min_amount_out),
        ),
    )
}

/// What an operation commits: the named amount, which the agent must have, or else the attached
/// deposit; never nothing.
pub open spec fn committed(
    ctx: ContextModel,
    amount: Option<u128>,
    nothing: AgentError,
    insufficient: AgentError,
) -> Result<u128, AgentError> {
    let value = match amount {
        Some(value) => value,
        None => ctx.attached_deposit,
    };
    if value == 0 {
        Err(nothing)
    } else if amount is Some && ctx.account_balance < value {
        Err(insufficient)
    } else {
        Ok(value)
    }
}

/// Wrapping and bridging contracts, whose calls need not bring a profit.
pub open spec fn is_admin_call(receiver_id: Seq<char>) -> bool {
    receiver_id == "wrap.near"@ || receiver_id == "aurora"@
}

/// The fee that a client offers, or the default where the text is not a number.
pub open spec fn solver_fee(solver_fee_yocto: Seq<char>) -> u128 {
    match parsed(solver_fee_yocto) {
        Some(fee) => fee,
        None => DEFAULT_SOLVER_FEE,
    }
}

/// The target in NEAR that goes with an income: its whole NEAR, kept between the floor and the
/// ceiling.
pub open spec fn scale_near(total_collected: u128) -> u128 {
    let near = total_collected / ONE_NEAR;
    if near < MIN_TARGET_NEAR {
        MIN_TARGET_NEAR
    } else if near > MAX_TARGET_NEAR {
        MAX_TARGET_NEAR
    } else {
        near
    }
}

/// The target in yoctoNEAR that goes with an income.
pub open spec fn scaled_target(total_collected: u128) -> u128 {
    (scale_near(total_collected) * ONE_NEAR) as u128
}

impl AgentState {
    /// A new agent.
    pub open spec fn new(owner_id: Seq<char>, ledger_contract: Seq<char>) -> AgentState {
        AgentState {
            owner_id,
            ledger_contract,
            authorized_worker: None,
            total_collected: 0,
            current_target_balance: (50 * ONE_NEAR) as u128,
            risk_config: RiskConfig {
                max_slippage_bps: 100,
                min_profit_margin_bps: 10,
                circuit_breaker_enabled: true,
            },
            signing_in_flight: false,
        }
    }

    /// Whether the caller may change the owner's settings.
    pub open spec fn ownership(self, ctx: ContextModel) -> Result<(), AgentError> {
        if ctx.attached_deposit != 1 {
            Err(AgentError::OneYoctoRequired)
        } else if ctx.predecessor_account_id != self.owner_id {
            Err(AgentError::OwnerOnly)
        } else {
            Ok(())
        }
    }

    /// Whether the transaction is signed with the worker's key.
    pub open spec fn worker_access(self, ctx: ContextModel) -> Result<(), AgentError> {
        match self.authorized_worker {
            Some(key) => if ctx.signer_account_pk == key {
                Ok(())
            } else {
                Err(AgentError::NotAuthorized)
            },
            None => Err(AgentError::NoWorkerSet),
        }
    }

    /// Whether the transaction is signed by the owner's account or with the worker's key.
    pub open spec fn authorization(self, ctx: ContextModel) -> Result<(), AgentError> {
        if ctx.signer_account_id == self.owner_id {
            Ok(())
        } else {
            self.worker_access(ctx)
        }
    }

    /// Whether an authorized operation may go on, or is halted by the circuit breaker.
    pub open spec fn clearance(self, ctx: ContextModel, halted: AgentError) -> Result<
        (),
        AgentError,
    > {
        match self.authorization(ctx) {
            Err(error) => Err(error),
            Ok(()) => if self.risk_config.circuit_breaker_enabled {
                Ok(())
            } else {
                Err(halted)
            },
        }
    }

    /// Whether an operation of the worker alone may go on, or is halted by the circuit breaker.
    pub open spec fn worker_clearance(self, ctx: ContextModel) -> Result<(), AgentError> {
        match self.worker_access(ctx) {
            Err(error) => Err(error),
            Ok(()) => if self.risk_config.circuit_breaker_enabled {
                Ok(())
            } else {
                Err(AgentError::BreakerTripped)
            },
        }
    }

    /// The owner names a worker.
    pub open spec fn set_authorized_worker(self, ctx: ContextModel, worker_id: Seq<u8>) -> Transition {
        match self.ownership(ctx) {
            Err(error) => Err(error),
            Ok(()) => Ok(
                (
                    AgentState { authorized_worker: Some(worker_id), ..self },
                    PlanModel {
                        logs: seq!["Authorized worker set to: "@ + public_key_shown(worker_id)],
                        calls: seq![],
                        callback: None,
                    },
                ),
            ),
        }
    }

    /// The owner names a ledger.
    pub open spec fn set_ledger_contract(
        self,
        ctx: ContextModel,
        ledger_contract: Seq<char>,
    ) -> Transition {
        match self.ownership(ctx) {
            Err(error) => Err(error),
            Ok(()) => Ok(
                (
                    AgentState { ledger_contract, ..self },
                    PlanModel {
                        logs: seq!["Ledger contract updated to: "@ + ledger_contract],
                        calls: seq![],
                        callback: None,
                    },
                ),
            ),
        }
    }

    /// The owner sets the risk limits.
    pub open spec fn set_risk_config(self, ctx: ContextModel, config: RiskConfig) -> Transition {
        match self.ownership(ctx) {
            Err(error) => Err(error),
            Ok(()) => Ok(
                (
                    AgentState { risk_config: config, ..self },
                    PlanModel {
                        logs: seq!["Risk configuration updated"@],
                        calls: seq![],
                        callback: None,
                    },
                ),
            ),
        }
    }

    /// One call on another contract, and the check of its outcome.
    pub open spec fn execute_trade(
        self,
        ctx: ContextModel,
        receiver_id: Seq<char>,
        method_name: Seq<char>,
        args: Seq<char>,
        deposit: u128,
        gas: u64,
    ) -> Transition {
        match self.clearance(ctx, AgentError::TradingHalted) {
            Err(error) => Err(error),
            Ok(()) => Ok(
                (
                    self,
                    plan(
                        seq![
                            CallModel {
                                receiver_id,
                                method_name,
                                args: encode_utf8(args),
                                deposit,
                                gas: gas as nat,
                            },
                        ],
                        Some(trade_check(ctx, receiver_id, deposit)),
                    ),
                ),
            ),
        }
    }

    /// What a trade must bring beyond its cost: the configured share of the balance before it,
    /// and nothing for an administrative call.
    pub open spec fn min_profit(self, receiver_id: Seq<char>, balance_before: u128) -> int {
        if is_admin_call(receiver_id) {
            0
        } else {
            balance_before * self.risk_config.min_profit_margin_bps / 10000
        }
    }

    /// The balance that a trade must at least leave: what was there before it, without the
    /// deposit that went with it, and the profit that it must bring.
    pub open spec fn minimum_required(
        self,
        receiver_id: Seq<char>,
        balance_before: u128,
        attached_deposit: u128,
    ) -> int {
        saturating_difference(balance_before, attached_deposit) + self.min_profit(
            receiver_id,
            balance_before,
        )
    }

    /// The amounts on the way to the required balance stay within 128 bits.
    pub open spec fn guard_fits(
        self,
        receiver_id: Seq<char>,
        balance_before: u128,
        attached_deposit: u128,
    ) -> bool {
        &&& !is_admin_call(receiver_id) ==> balance_before * self.risk_config.min_profit_margin_bps
            <= u128::MAX
        &&& self.minimum_required(receiver_id, balance_before, attached_deposit) <= u128::MAX
    }

    /// The state and the log line after a trade.
    pub open spec fn on_execute_trade(
        self,
        ctx: ContextModel,
        receiver_id: Seq<char>,
        balance_before: u128,
        attached_deposit: u128,
        succeeded: bool,
    ) -> (AgentState, Seq<char>) {
        let kept = saturating_difference(balance_before, attached_deposit);
        if !succeeded {
            (self, "Trade failed via PromiseError; stopping execution to prevent leakage."@)
        } else if ctx.account_balance < self.minimum_required(
            receiver_id,
            balance_before,
            attached_deposit,
        ) {
            (
                self,
                "NEVER-LOSS VIOLATION DETECTED: Guard is now in LOG-ONLY mode per user request. System NOT locked."@,
            )
        } else if is_admin_call(receiver_id) {
            (self, "Trade Outcome: ADMIN PASS. Status updated."@)
        } else {
            (
                AgentState {
                    total_collected: saturating_sum(
                        self.total_collected,
                        (ctx.account_balance - kept) as u128,
                    ),
                    ..self
                },
                "Trade Outcome: POSITIVE. Status updated."@,
            )
        }
    }

    /// A swap on Ref Finance, behind a wrapping of the amount where the token is wrapped NEAR, and
    /// the check of its outcome.
    pub open spec fn swap_on_ref(
        self,
        ctx: ContextModel,
        pool_id: u64,
        token_in: Seq<char>,
        token_out: Seq<char>,
        min_amount_out: Seq<char>,
        amount: Option<u128>,
    ) -> Transition {
        match self.clearance(ctx, AgentError::BreakerTripped) {
            Err(error) => Err(error),
            Ok(()) => match committed(
                ctx,
                amount,
                AgentError::NoSwapLiquidity,
                AgentError::InsufficientSwapBalance,
            ) {
                Err(error) => Err(error),
                Ok(value) => {
                    let swap = ref_swap(pool_id, token_in, token_out, value, min_amount_out);
                    Ok(
                        (
                            self,
                            plan(
                                if token_in == "wrap.near"@ {
                                    seq![near_deposit(value), swap]
                                } else {
                                    seq![swap]
                                },
                                Some(trade_check(ctx, "v2.ref-finance.near"@, value)),
                            ),
                        ),
                    )
                },
            },
        }
    }

    /// One call on a solver, and the check of its outcome.
    pub open spec fn execute_intent(
        self,
        ctx: ContextModel,
        solver_id: Seq<char>,
        intent_payload: Seq<char>,
        amount: Option<u128>,
    ) -> Transition {
        match self.clearance(ctx, AgentError::BreakerTripped) {
            Err(error) => Err(error),
            Ok(()) => match committed(
                ctx,
                amount,
                AgentError::NoIntentLiquidity,
                AgentError::InsufficientIntentBalance,
            ) {
                Err(error) => Err(error),
                Ok(value) => Ok(
                    (
                        self,
                        plan(
                            seq![
                                CallModel {
                                    receiver_id: solver_id,
                                    method_name: "execute_intent"@,
                                    args: encode_utf8(intent_payload),
                                    deposit: value,
                                    gas: (SWAP_TGAS * ONE_TGAS) as nat,
                                },
                            ],
                            Some(trade_check(ctx, solver_id, value)),
                        ),
                    ),
                ),
            },
        }
    }

    /// The fee is counted, and the rest of the deposit is wrapped, swapped and checked for.
    pub open spec fn solve_intent(
        self,
        ctx: ContextModel,
        target_pool: u64,
        token_out: Seq<char>,
        min_amount_out: Seq<char>,
        solver_fee_yocto: Seq<char>,
    ) -> Transition {
        let fee = solver_fee(solver_fee_yocto);
        let capital = (ctx.attached_deposit - fee) as u128;
        if !self.risk_config.circuit_breaker_enabled {
            Err(AgentError::HubOffline)
        } else if ctx.attached_deposit == 0 {
            Err(AgentError::NoClientLiquidity)
        } else if ctx.attached_deposit <= fee {
            Err(AgentError::FeeNotCovered)
        } else {
            Ok(
                (
                    AgentState {
                        total_collected: saturating_sum(self.total_collected, fee),
                        ..self
                    },
                    PlanModel {
                        logs: seq![
                            "[A2A HUB] Agent "@ + ctx.predecessor_account_id
                                + " requested intent. Skimming "@ + decimal(fee as nat)
                                + " yocto as Solver Fee."@,
                        ],
                        calls: seq![
                            near_deposit(capital),
                            ref_swap(target_pool, "wrap.near"@, token_out, capital, min_amount_out),
                        ],
                        callback: Some(trade_check(ctx, "v2.ref-finance.near"@, capital)),
                    },
                ),
            )
        }
    }

    /// A transfer of wrapped NEAR to Burrow, as collateral.
    pub open spec fn deposit_to_burrow(self, ctx: ContextModel, amount_yocto: Seq<char>) -> Transition {
        match self.clearance(ctx, AgentError::YieldFarmingHalted) {
            Err(error) => Err(error),
            Ok(()) => Ok(
                (
                    self,
                    plan(
                        seq![
                            ft_transfer_call(
                                "wrap.near"@,
                                transfer_text(
                                    "contract.main.burrow.near"@,
                                    amount_yocto,
                                    collateral_text(),
                                ),
                            ),
                        ],
                        None,
                    ),
                ),
            ),
        }
    }

    /// A withdrawal from Burrow.
    pub open spec fn withdraw_from_burrow(
        self,
        ctx: ContextModel,
        amount_yocto: Seq<char>,
    ) -> Transition {
        match self.clearance(ctx, AgentError::BreakerTripped) {
            Err(error) => Err(error),
            Ok(()) => Ok(
                (
                    self,
                    plan(
                        seq![
                            CallModel {
                                receiver_id: "contract.main.burrow.near"@,
                                method_name: "execute"@,
                                args: encode_utf8(withdraw_text(amount_yocto)),
                                deposit: 1,
                                gas: (SWAP_TGAS * ONE_TGAS) as nat,
                            },
                        ],
                        None,
                    ),
                ),
            ),
        }
    }

    /// One request of the worker to the MPC signer, where none is pending.
    pub open spec fn sign_cross_chain_payload(
        self,
        ctx: ContextModel,
        payload_hash: Seq<u8>,
        derivation_path: Seq<char>,
        key_version: u32,
    ) -> Transition {
        match self.worker_clearance(ctx) {
            Err(error) => Err(error),
            Ok(()) => if ctx.attached_deposit == 0 {
                Err(AgentError::NoSigningDeposit)
            } else if self.signing_in_flight {
                Err(AgentError::SigningInFlight)
            } else {
                Ok(
                    (
                        AgentState { signing_in_flight: true, ..self },
                        plan(
                            seq![
                                CallModel {
                                    receiver_id: "v1.signer"@,
                                    method_name: "sign"@,
                                    args: encode_utf8(
                                        signing_text(payload_hash, derivation_path, key_version),
                                    ),
                                    deposit: ctx.attached_deposit,
                                    gas: (SIGN_TGAS * ONE_TGAS) as nat,
                                },
                            ],
                            Some(
                                SelfCallModel {
                                    receiver_id: ctx.current_account_id,
                                    callback: CallbackModel::SignCrossChainPayload,
                                    gas: (CALLBACK_TGAS * ONE_TGAS) as nat,
                                },
                            ),
                        ),
                    ),
                )
            },
        }
    }

    /// The state and the log line after a signature request.
    pub open spec fn on_sign_cross_chain_payload(self, succeeded: bool) -> (AgentState, Seq<char>) {
        (
            AgentState { signing_in_flight: false, ..self },
            if succeeded {
                "MPC signing succeeded. Mutex released."@
            } else {
                "MPC signing failed. Mutex released."@
            },
        )
    }

    /// The attached deposit goes to the ledger.
    pub open spec fn collect_fees(self, ctx: ContextModel) -> Transition {
        match self.authorization(ctx) {
            Err(error) => Err(error),
            Ok(()) => if ctx.attached_deposit == 0 {
                Err(AgentError::NoCollectionDeposit)
            } else {
                Ok(
                    (
                        self,
                        plan(
                            seq![
                                CallModel {
                                    receiver_id: self.ledger_contract,
                                    method_name: "collect_fees"@,
                                    args: encode_utf8(collection_text(ctx.current_account_id)),
                                    deposit: ctx.attached_deposit,
                                    gas: (CALL_TGAS * ONE_TGAS) as nat,
                                },
                            ],
                            Some(
                                SelfCallModel {
                                    receiver_id: ctx.current_account_id,
                                    callback: CallbackModel::CollectFees {
                                        deposit: ctx.attached_deposit,
                                    },
                                    gas: (CALL_TGAS * ONE_TGAS) as nat,
                                },
                            ),
                        ),
                    ),
                )
            },
        }
    }

    /// The state and the log line after the ledger has answered a fee collection.
    pub open spec fn on_collect_fees(self, deposit: u128, succeeded: bool) -> (
        AgentState,
        Seq<char>,
    ) {
        if succeeded {
            let total = saturating_sum(self.total_collected, deposit);
            (
                AgentState { total_collected: total, ..self },
                event_text("collect_fees"@, collection_data_text(deposit, total)),
            )
        } else {
            (self, "Ledger deposit failed; no state change applied."@)
        }
    }

    /// The ledger is asked to replenish the agent up to its target, and the target is scaled.
    pub open spec fn process_fees(self, ctx: ContextModel) -> Transition {
        match self.authorization(ctx) {
            Err(error) => Err(error),
            Ok(()) => Ok(
                (
                    AgentState {
                        current_target_balance: scaled_target(self.total_collected),
                        ..self
                    },
                    plan(
                        seq![
                            CallModel {
                                receiver_id: self.ledger_contract,
                                method_name: "process_fees"@,
                                args: encode_utf8(
                                    sweep_text(
                                        saturating_difference(
                                            self.current_target_balance,
                                            ctx.account_balance,
                                        ),
                                    ),
                                ),
                                deposit: 0,
                                gas: (CALL_TGAS * ONE_TGAS) as nat,
                            },
                        ],
                        Some(
                            SelfCallModel {
                                receiver_id: ctx.current_account_id,
                                callback: CallbackModel::ProcessFees {
                                    old_target: self.current_target_balance,
                                },
                                gas: (CALL_TGAS * ONE_TGAS) as nat,
                            },
                        ),
                    ),
                ),
            ),
        }
    }

    /// The state and the log lines after the ledger has answered a fee sweep.
    pub open spec fn on_process_fees(self, old_target: u128, succeeded: bool) -> (
        AgentState,
        Seq<Seq<char>>,
    ) {
        if succeeded {
            (
                self,
                seq![
                    "Scaling complete. New target: "@ + decimal(
                        (self.current_target_balance / ONE_NEAR) as nat,
                    ) + " NEAR"@,
                    event_text("process_fees"@, sweep_data_text(self.current_target_balance)),
                ],
            )
        } else {
            (
                AgentState { current_target_balance: old_target, ..self },
                seq!["Revenue sweep failed; scale-up deferred."@],
            )
        }
    }

    /// The status report.
    pub open spec fn status_text(self) -> Seq<char> {
        object_text(
            seq![
                ("total_revenue"@, quoted(decimal(self.total_collected as nat))),
                ("target_scale"@, decimal((self.current_target_balance / ONE_NEAR) as nat)),
                ("circuit_breaker"@, bool_text(self.risk_config.circuit_breaker_enabled)),
                ("signing_in_flight"@, bool_text(self.signing_in_flight)),
                ("owner"@, quoted(self.owner_id)),
            ],
        )
    }
}

/// What the agent says of itself.
pub open spec fn metadata_text() -> Seq<char> {
    object_text(
        seq![
            ("name"@, quoted("Blue Dragon Autonomous Executor"@)),
            ("vanity"@, quoted("bluedragon"@)),
            ("version"@, quoted("3.1.0-bluedragon"@)),
            ("brand"@, quoted("Deep Velvet"@)),
            ("intelligence"@, quoted("Bittensor Subnet 8"@)),
            ("security"@, quoted("Iron Claw Multi-Sig / Ledger Vault"@)),
            ("intent_layer"@, quoted("Confidential Intents Enabled"@)),
        ],
    )
}

} // verus!
