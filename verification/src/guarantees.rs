//! What a caller, the ledger and the other contracts get from each entry point.
//!
//! The statements speak of the amounts, keys, accounts and texts that go into a call and of the
//! ones that come out of it.

use vstd::prelude::*;
use vstd::utf8::{encode_utf8, encode_utf8_decode_utf8};

use crate::agent::{carried_out, IronClawAgent, RiskConfig};
use crate::error::AgentError;
use crate::host::{
    log_texts, CallContext, CallModel, Callback, CallbackModel, ContextModel, FunctionCall, Plan,
    PlanModel, SelfCall,
};
use crate::json::{array_text, escaped_text, joined, member_text, object_text, quoted};
use crate::model::{AgentState, Transition};
use crate::near::{public_key_shown, valid_key_bytes};
use crate::text::{
    all_digits, decimal, digits_value, is_digit, law_decimal_is_read_back, parsed, without_plus,
};
use crate::unambiguous::{
    law_array_is_unambiguous, law_decimal_is_unambiguous, law_object_is_unambiguous,
    law_quoted_is_unambiguous, told_apart,
};

verus! {

/// The transaction is signed by the owner's account or with the worker's key.
pub open spec fn entitled(state: AgentState, ctx: ContextModel) -> bool {
    ctx.signer_account_id == state.owner_id || state.authorized_worker == Some(
        ctx.signer_account_pk,
    )
}

/// What a signer without the worker's key is told.
pub open spec fn refusal(state: AgentState) -> AgentError {
    if state.authorized_worker is Some {
        AgentError::NotAuthorized
    } else {
        AgentError::NoWorkerSet
    }
}

/// The call is rejected for this reason.
pub open spec fn refused(result: Transition, error: AgentError) -> bool {
    result is Err && result->Err_0 == error
}

/// What a caller puts in: the named amount where there is one, otherwise what is attached.
pub open spec fn offered(ctx: ContextModel, amount: Option<u128>) -> u128 {
    if amount is Some {
        amount->0
    } else {
        ctx.attached_deposit
    }
}

/// The bytes are the JSON object with these members.
pub open spec fn reads(args: Seq<u8>, members: Seq<(Seq<char>, Seq<char>)>) -> bool {
    args == encode_utf8(object_text(members))
}

/// After the last call the agent is told to check a trade: with whom it was, what the account
/// held before it and what went with it.
pub open spec fn checks_back(
    plan: PlanModel,
    ctx: ContextModel,
    with_whom: Seq<char>,
    spent: u128,
) -> bool {
    &&& plan.callback is Some
    &&& plan.callback->0.receiver_id == ctx.current_account_id
    &&& plan.callback->0.gas == 20_000_000_000_000
    &&& plan.callback->0.callback matches CallbackModel::ExecuteTrade {
        receiver_id,
        balance_before,
        attached_deposit,
    }
    &&& receiver_id == with_whom
    &&& balance_before == ctx.account_balance
    &&& attached_deposit == spent
}

/// The call wraps this amount of NEAR.
pub open spec fn wraps(call: CallModel, amount: u128) -> bool {
    &&& call.receiver_id == "wrap.near"@
    &&& call.method_name == "near_deposit"@
    &&& call.args.len() == 0
    &&& call.deposit == amount
    &&& call.gas == 10_000_000_000_000
}

/// The action that a swap message asks for.
pub open spec fn swap_action(
    pool_id: u64,
    token_in: Seq<char>,
    token_out: Seq<char>,
    amount: u128,
    min_amount_out: Seq<char>,
) -> Seq<(Seq<char>, Seq<char>)> {
    seq![
        ("pool_id"@, decimal(pool_id as nat)),
        ("token_in"@, quoted(token_in)),
        ("token_out"@, quoted(token_out)),
        ("amount_in"@, quoted(decimal(amount as nat))),
        ("min_amount_out"@, quoted(min_amount_out)),
    ]
}

/// What a token contract is told to do with an amount: to hand it to a receiver with a message.
pub open spec fn hand_over(receiver_id: Seq<char>, amount: Seq<char>, msg: Seq<char>) -> Seq<
    (Seq<char>, Seq<char>),
> {
    seq![
        ("receiver_id"@, quoted(receiver_id)),
        ("amount"@, quoted(amount)),
        ("msg"@, quoted(msg)),
    ]
}

/// The message around one swap action.
pub open spec fn swap_order_msg(action: Seq<(Seq<char>, Seq<char>)>) -> Seq<char> {
    object_text(seq![("force"@, seq!['0']), ("actions"@, array_text(seq![object_text(action)]))])
}

/// The call has the token that is sold hand an amount to Ref Finance, for exactly this swap.
pub open spec fn orders_swap(
    call: CallModel,
    pool_id: u64,
    token_in: Seq<char>,
    token_out: Seq<char>,
    amount: u128,
    min_amount_out: Seq<char>,
) -> bool {
    &&& call.receiver_id == token_in
    &&& call.method_name == "ft_transfer_call"@
    &&& call.deposit == 1
    &&& call.gas == 100_000_000_000_000
    &&& reads(
        call.args,
        hand_over(
            "v2.ref-finance.near"@,
            decimal(amount as nat),
            swap_order_msg(swap_action(pool_id, token_in, token_out, amount, min_amount_out)),
        ),
    )
}

/// The same bytes come from the same text.
proof fn lemma_bytes_stand_for_one_text(a: Seq<char>, b: Seq<char>)
    requires
        encode_utf8(a) == encode_utf8(b),
    ensures
        a == b,
{
    encode_utf8_decode_utf8(a);
    encode_utf8_decode_utf8(b);
}

/// Zero is written as one digit.
proof fn lemma_zero_is_one_digit()
    ensures
        decimal(0) == seq!['0'],
{
    assert(decimal(0) =~= seq!['0']);
}

/// One call orders one swap: whoever reads it knows the pool, both tokens, the amount and the
/// least that is to come out, and none of these can be another.
pub proof fn law_swap_order_is_unambiguous(
    call: CallModel,
    pool_a: u64,
    in_a: Seq<char>,
    out_a: Seq<char>,
    amount_a: u128,
    min_a: Seq<char>,
    pool_b: u64,
    in_b: Seq<char>,
    out_b: Seq<char>,
    amount_b: u128,
    min_b: Seq<char>,
)
    requires
        orders_swap(call, pool_a, in_a, out_a, amount_a, min_a),
        orders_swap(call, pool_b, in_b, out_b, amount_b, min_b),
    ensures
        pool_a == pool_b,
        in_a == in_b,
        out_a == out_b,
        amount_a == amount_b,
        min_a == min_b,
{
    let action_a = swap_action(pool_a, in_a, out_a, amount_a, min_a);
    let action_b = swap_action(pool_b, in_b, out_b, amount_b, min_b);
    let msg_a = swap_order_msg(action_a);
    let msg_b = swap_order_msg(action_b);
    let args_a = hand_over("v2.ref-finance.near"@, decimal(amount_a as nat), msg_a);
    let args_b = hand_over("v2.ref-finance.near"@, decimal(amount_b as nat), msg_b);
    lemma_bytes_stand_for_one_text(object_text(args_a), object_text(args_b));
    law_quoted_is_unambiguous("v2.ref-finance.near"@, "v2.ref-finance.near"@);
    law_quoted_is_unambiguous(decimal(amount_a as nat), decimal(amount_b as nat));
    law_decimal_is_unambiguous(amount_a as nat, amount_b as nat);
    law_quoted_is_unambiguous(msg_a, msg_b);
    law_object_is_unambiguous(args_a, args_b);
    assert(args_a[2] == args_b[2] && args_a[1] == args_b[1]);
    assert(msg_a == msg_b);
    law_decimal_is_unambiguous(pool_a as nat, pool_b as nat);
    law_quoted_is_unambiguous(in_a, in_b);
    law_quoted_is_unambiguous(out_a, out_b);
    law_quoted_is_unambiguous(min_a, min_b);
    law_object_is_unambiguous(action_a, action_b);
    law_array_is_unambiguous(seq![object_text(action_a)], seq![object_text(action_b)]);
    lemma_zero_is_one_digit();
    law_decimal_is_unambiguous(0, 0);
    let outer_a = seq![("force"@, seq!['0']), ("actions"@, array_text(seq![object_text(action_a)]))];
    let outer_b = seq![("force"@, seq!['0']), ("actions"@, array_text(seq![object_text(action_b)]))];
    law_object_is_unambiguous(outer_a, outer_b);
    assert(outer_a[1] == outer_b[1]);
    assert(seq![object_text(action_a)][0] == seq![object_text(action_b)][0]);
    assert(action_a[0] == action_b[0] && action_a[2] == action_b[2] && action_a[4] == action_b[4]);
}

/// A new agent belongs to its owner, has a ledger, no worker, no income, a target of fifty NEAR,
/// a slippage setting of one percent, a margin of a tenth of a percent, a closed breaker and no
/// pending signature.
pub proof fn law_new_agent_is_ready(owner_id: Seq<char>, ledger_contract: Seq<char>)
    ensures
        ({
            let agent = AgentState::new(owner_id, ledger_contract);
            &&& agent.owner_id == owner_id
            &&& agent.ledger_contract == ledger_contract
            &&& agent.authorized_worker is None
            &&& agent.total_collected == 0
            &&& agent.current_target_balance == 50_000_000_000_000_000_000_000_000
            &&& agent.risk_config.max_slippage_bps == 100
            &&& agent.risk_config.min_profit_margin_bps == 10
            &&& agent.risk_config.circuit_breaker_enabled
            &&& !agent.signing_in_flight
        }),
{
}

/// The owner, with one yoctoNEAR, is the one who makes a setting.
pub open spec fn is_owner_setting(state: AgentState, ctx: ContextModel) -> bool {
    ctx.attached_deposit == 1 && ctx.predecessor_account_id == state.owner_id
}

/// A setting is accepted from the owner with one yoctoNEAR and from nobody else; it logs one
/// line and makes no call.
pub open spec fn is_setting(
    state: AgentState,
    ctx: ContextModel,
    result: Transition,
    line: Seq<char>,
) -> bool {
    &&& result is Ok <==> is_owner_setting(state, ctx)
    &&& ctx.attached_deposit != 1 ==> refused(result, AgentError::OneYoctoRequired)
    &&& ctx.attached_deposit == 1 && ctx.predecessor_account_id != state.owner_id ==> refused(
        result,
        AgentError::OwnerOnly,
    )
    &&& result is Ok ==> {
        let plan = result->Ok_0.1;
        plan.calls.len() == 0 && plan.callback is None && plan.logs.len() == 1 && plan.logs[0]
            == line
    }
}

/// The owner's settings end up in the agent, one at a time, and nothing else changes.
pub proof fn law_settings_take_effect(
    state: AgentState,
    ctx: ContextModel,
    worker_id: Seq<u8>,
    ledger_contract: Seq<char>,
    config: RiskConfig,
)
    ensures
        is_setting(
            state,
            ctx,
            state.set_authorized_worker(ctx, worker_id),
            "Authorized worker set to: "@ + public_key_shown(worker_id),
        ),
        is_setting(
            state,
            ctx,
            state.set_ledger_contract(ctx, ledger_contract),
            "Ledger contract updated to: "@ + ledger_contract,
        ),
        is_setting(state, ctx, state.set_risk_config(ctx, config), "Risk configuration updated"@),
        is_owner_setting(state, ctx) ==> {
            &&& state.set_authorized_worker(ctx, worker_id)->Ok_0.0 == AgentState {
                authorized_worker: Some(worker_id),
                ..state
            }
            &&& state.set_ledger_contract(ctx, ledger_contract)->Ok_0.0 == AgentState {
                ledger_contract,
                ..state
            }
            &&& state.set_risk_config(ctx, config)->Ok_0.0 == AgentState {
                risk_config: config,
                ..state
            }
        },
{
}

/// A key is shown in a log line with every one of its bytes, in order: a further byte adds its
/// decimal digits before the closing bracket.
pub proof fn law_key_is_shown_byte_by_byte(data: Seq<u8>, byte: u8)
    ensures
        public_key_shown(seq![byte]) == "PublicKey { data: ["@ + decimal(byte as nat) + "] }"@,
        data.len() > 0 ==> public_key_shown(data.push(byte)) == public_key_shown(data).take(
            public_key_shown(data).len() - 3,
        ) + ", "@ + decimal(byte as nat) + "] }"@,
{
    reveal_strlit("] }");
    assert("] }"@.len() == 3);
    let shown = |byte: u8| decimal(byte as nat);
    assert(seq![byte].map_values(shown) =~= seq![decimal(byte as nat)]);
    if data.len() > 0 {
        let before = data.map_values(shown);
        let after = data.push(byte).map_values(shown);
        assert(after =~= before.push(decimal(byte as nat)));
        assert(after.drop_last() =~= before);
        let head = "PublicKey { data: ["@ + joined(before, ", "@);
        assert(public_key_shown(data) =~= head + "] }"@);
        assert(public_key_shown(data).take(public_key_shown(data).len() - 3) =~= head);
        assert(joined(after, ", "@) == joined(before, ", "@) + ", "@ + decimal(byte as nat));
        assert(public_key_shown(data.push(byte)) =~= head + ", "@ + decimal(byte as nat) + "] }"@);
    }
}

/// A trade is accepted from the owner and the worker while the breaker is closed. The receiver
/// gets one call, with the method, the arguments, the deposit and the gas that were asked for;
/// then the agent checks with that receiver, the balance of now and that deposit.
pub proof fn law_trade_reaches_its_receiver(
    state: AgentState,
    ctx: ContextModel,
    receiver_id: Seq<char>,
    method_name: Seq<char>,
    args: Seq<char>,
    deposit: u128,
    gas: u64,
)
    ensures
        ({
            let result = state.execute_trade(ctx, receiver_id, method_name, args, deposit, gas);
            &&& result is Ok <==> entitled(state, ctx)
                && state.risk_config.circuit_breaker_enabled
            &&& !entitled(state, ctx) ==> refused(result, refusal(state))
            &&& entitled(state, ctx) && !state.risk_config.circuit_breaker_enabled ==> refused(
                result,
                AgentError::TradingHalted,
            )
            &&& result matches Ok((after, plan)) ==> {
                &&& after == state
                &&& plan.logs.len() == 0
                &&& plan.calls.len() == 1
                &&& plan.calls[0].receiver_id == receiver_id
                &&& plan.calls[0].method_name == method_name
                &&& plan.calls[0].args == encode_utf8(args)
                &&& plan.calls[0].deposit == deposit
                &&& plan.calls[0].gas == gas
                &&& checks_back(plan, ctx, receiver_id, deposit)
            }
        }),
{
}

/// A trade with anyone but the wrapping contract and the bridge is held to the margin: it counts
/// where it leaves what the account held before, less the deposit that went with it (nothing,
/// where that deposit was larger), and the configured share of what the account held. What it
/// adds to the income is all that is above the balance without the deposit. Otherwise it is
/// reported as a loss, and nothing changes.
pub proof fn law_trade_counts_what_it_earned(
    state: AgentState,
    ctx: ContextModel,
    receiver_id: Seq<char>,
    balance_before: u128,
    attached_deposit: u128,
    kept: int,
)
    requires
        receiver_id != "wrap.near"@,
        receiver_id != "aurora"@,
        kept == balance_before - attached_deposit || kept == 0 && attached_deposit
            > balance_before,
        kept >= 0,
    ensures
        ({
            let (after, line) = state.on_execute_trade(
                ctx,
                receiver_id,
                balance_before,
                attached_deposit,
                true,
            );
            let bps = state.risk_config.min_profit_margin_bps;
            let needed = kept + balance_before * bps / 10000;
            let income = state.total_collected + (ctx.account_balance - kept);
            &&& ctx.account_balance >= needed ==> {
                &&& after == AgentState { total_collected: after.total_collected, ..state }
                &&& income <= u128::MAX ==> after.total_collected == income
                &&& income > u128::MAX ==> after.total_collected == u128::MAX
                &&& line == "Trade Outcome: POSITIVE. Status updated."@
            }
            &&& ctx.account_balance < needed ==> {
                &&& after == state
                &&& line
                    == "NEVER-LOSS VIOLATION DETECTED: Guard is now in LOG-ONLY mode per user request. System NOT locked."@
            }
            &&& state.minimum_required(receiver_id, balance_before, attached_deposit) == needed
            &&& state.guard_fits(receiver_id, balance_before, attached_deposit) <==> {
                balance_before * bps <= u128::MAX && needed <= u128::MAX
            }
        }),
{
}

/// Ref Finance, with which every swap and every solved intent is checked, is no exception: its
/// trades are held to the margin and counted.
pub proof fn law_ref_swaps_count(
    state: AgentState,
    ctx: ContextModel,
    balance_before: u128,
    attached_deposit: u128,
)
    requires
        attached_deposit <= balance_before,
        ctx.account_balance >= balance_before - attached_deposit + balance_before
            * state.risk_config.min_profit_margin_bps / 10000,
        state.total_collected + (ctx.account_balance - (balance_before - attached_deposit))
            <= u128::MAX,
    ensures
        state.on_execute_trade(
            ctx,
            "v2.ref-finance.near"@,
            balance_before,
            attached_deposit,
            true,
        ).0.total_collected == state.total_collected + (ctx.account_balance - (balance_before
            - attached_deposit)),
{
    reveal_strlit("v2.ref-finance.near");
    reveal_strlit("wrap.near");
    reveal_strlit("aurora");
    assert("v2.ref-finance.near"@.len() == 19);
    assert("wrap.near"@.len() == 9);
    assert("aurora"@.len() == 6);
    law_trade_counts_what_it_earned(
        state,
        ctx,
        "v2.ref-finance.near"@,
        balance_before,
        attached_deposit,
        balance_before - attached_deposit,
    );
}

/// Calls on the wrapping contract and the bridge pass where they leave the balance without the
/// deposit that went with them. They never count, and a loss is reported.
pub proof fn law_administrative_calls_pass(
    state: AgentState,
    ctx: ContextModel,
    receiver_id: Seq<char>,
    balance_before: u128,
    attached_deposit: u128,
)
    requires
        receiver_id == "wrap.near"@ || receiver_id == "aurora"@,
    ensures
        ({
            let (after, line) = state.on_execute_trade(
                ctx,
                receiver_id,
                balance_before,
                attached_deposit,
                true,
            );
            &&& after == state
            &&& ctx.account_balance + attached_deposit >= balance_before ==> line
                == "Trade Outcome: ADMIN PASS. Status updated."@
            &&& ctx.account_balance + attached_deposit < balance_before ==> line
                == "NEVER-LOSS VIOLATION DETECTED: Guard is now in LOG-ONLY mode per user request. System NOT locked."@
            &&& state.guard_fits(receiver_id, balance_before, attached_deposit)
            &&& attached_deposit <= balance_before ==> state.minimum_required(
                receiver_id,
                balance_before,
                attached_deposit,
            ) == balance_before - attached_deposit
            &&& attached_deposit > balance_before ==> state.minimum_required(
                receiver_id,
                balance_before,
                attached_deposit,
            ) == 0
        }),
{
}

/// A trade that failed changes nothing and is reported as such.
pub proof fn law_failed_trade_is_reported(
    state: AgentState,
    ctx: ContextModel,
    receiver_id: Seq<char>,
    balance_before: u128,
    attached_deposit: u128,
)
    ensures
        ({
            let (after, line) = state.on_execute_trade(
                ctx,
                receiver_id,
                balance_before,
                attached_deposit,
                false,
            );
            &&& after == state
            &&& line == "Trade failed via PromiseError; stopping execution to prevent leakage."@
        }),
{
}

/// A swap is accepted from the owner and the worker while the breaker is closed, for something
/// more than nothing that, where it is named, the account holds. The reasons come in this order.
pub proof fn law_swap_is_accepted_when_covered(
    state: AgentState,
    ctx: ContextModel,
    pool_id: u64,
    token_in: Seq<char>,
    token_out: Seq<char>,
    min_amount_out: Seq<char>,
    amount: Option<u128>,
)
    ensures
        ({
            let result = state.swap_on_ref(
                ctx,
                pool_id,
                token_in,
                token_out,
                min_amount_out,
                amount,
            );
            let cleared = entitled(state, ctx) && state.risk_config.circuit_breaker_enabled;
            let enough = amount is Some ==> amount->0 <= ctx.account_balance;
            &&& result is Ok <==> cleared && offered(ctx, amount) > 0 && enough
            &&& !entitled(state, ctx) ==> refused(result, refusal(state))
            &&& entitled(state, ctx) && !state.risk_config.circuit_breaker_enabled ==> refused(
                result,
                AgentError::BreakerTripped,
            )
            &&& cleared && offered(ctx, amount) == 0 ==> refused(
                result,
                AgentError::NoSwapLiquidity,
            )
            &&& cleared && !enough ==> refused(result, AgentError::InsufficientSwapBalance)
        }),
{
}

/// A swap spends what was offered, and the same amount everywhere: of wrapped NEAR, the first
/// call wraps exactly what the second hands to Ref Finance; of another token, that token hands it
/// over. The message names the pool, the tokens and the floor that were asked for, and the check
/// gets the same amount. The state stays as it is.
pub proof fn law_swap_spends_what_was_offered(
    state: AgentState,
    ctx: ContextModel,
    pool_id: u64,
    token_in: Seq<char>,
    token_out: Seq<char>,
    min_amount_out: Seq<char>,
    amount: Option<u128>,
)
    requires
        state.swap_on_ref(ctx, pool_id, token_in, token_out, min_amount_out, amount) is Ok,
    ensures
        ({
            let (after, plan) = state.swap_on_ref(
                ctx,
                pool_id,
                token_in,
                token_out,
                min_amount_out,
                amount,
            )->Ok_0;
            let spent = offered(ctx, amount);
            &&& after == state
            &&& plan.logs.len() == 0
            &&& token_in == "wrap.near"@ ==> plan.calls.len() == 2 && wraps(plan.calls[0], spent)
            &&& token_in != "wrap.near"@ ==> plan.calls.len() == 1
            &&& orders_swap(
                plan.calls.last(),
                pool_id,
                token_in,
                token_out,
                spent,
                min_amount_out,
            )
            &&& checks_back(plan, ctx, "v2.ref-finance.near"@, spent)
        }),
{
    lemma_zero_is_one_digit();
}

/// Two accepted swaps that make the host do the same are the same swap.
pub proof fn law_swaps_differ_where_their_plans_do(
    state_a: AgentState,
    ctx_a: ContextModel,
    pool_a: u64,
    in_a: Seq<char>,
    out_a: Seq<char>,
    min_a: Seq<char>,
    amount_a: Option<u128>,
    state_b: AgentState,
    ctx_b: ContextModel,
    pool_b: u64,
    in_b: Seq<char>,
    out_b: Seq<char>,
    min_b: Seq<char>,
    amount_b: Option<u128>,
)
    requires
        state_a.swap_on_ref(ctx_a, pool_a, in_a, out_a, min_a, amount_a) is Ok,
        state_b.swap_on_ref(ctx_b, pool_b, in_b, out_b, min_b, amount_b) is Ok,
        state_a.swap_on_ref(ctx_a, pool_a, in_a, out_a, min_a, amount_a)->Ok_0.1
            == state_b.swap_on_ref(ctx_b, pool_b, in_b, out_b, min_b, amount_b)->Ok_0.1,
    ensures
        pool_a == pool_b,
        in_a == in_b,
        out_a == out_b,
        min_a == min_b,
        offered(ctx_a, amount_a) == offered(ctx_b, amount_b),
        ctx_a.account_balance == ctx_b.account_balance,
        ctx_a.current_account_id == ctx_b.current_account_id,
{
    law_swap_spends_what_was_offered(state_a, ctx_a, pool_a, in_a, out_a, min_a, amount_a);
    law_swap_spends_what_was_offered(state_b, ctx_b, pool_b, in_b, out_b, min_b, amount_b);
    let plan = state_a.swap_on_ref(ctx_a, pool_a, in_a, out_a, min_a, amount_a)->Ok_0.1;
    law_swap_order_is_unambiguous(
        plan.calls.last(),
        pool_a,
        in_a,
        out_a,
        offered(ctx_a, amount_a),
        min_a,
        pool_b,
        in_b,
        out_b,
        offered(ctx_b, amount_b),
        min_b,
    );
}

/// What a swap earns is counted in full: where the account holds, when the check comes, at least
/// what the margin asks for, the income grows by what is there beyond the balance of the swap
/// without the swapped amount.
pub proof fn law_swap_earnings_are_counted(
    state: AgentState,
    ctx: ContextModel,
    pool_id: u64,
    token_in: Seq<char>,
    token_out: Seq<char>,
    min_amount_out: Seq<char>,
    amount: Option<u128>,
    later: AgentState,
    check: ContextModel,
)
    requires
        state.swap_on_ref(ctx, pool_id, token_in, token_out, min_amount_out, amount) is Ok,
        offered(ctx, amount) <= ctx.account_balance,
        check.account_balance >= ctx.account_balance - offered(ctx, amount) + ctx.account_balance
            * later.risk_config.min_profit_margin_bps / 10000,
        later.total_collected + (check.account_balance - (ctx.account_balance - offered(
            ctx,
            amount,
        ))) <= u128::MAX,
    ensures
        ({
            let plan = state.swap_on_ref(
                ctx,
                pool_id,
                token_in,
                token_out,
                min_amount_out,
                amount,
            )->Ok_0.1;
            &&& plan.callback->0.callback matches CallbackModel::ExecuteTrade {
                receiver_id,
                balance_before,
                attached_deposit,
            }
            &&& later.on_execute_trade(
                check,
                receiver_id,
                balance_before,
                attached_deposit,
                true,
            ).0.total_collected == later.total_collected + (check.account_balance - (
            ctx.account_balance - offered(ctx, amount)))
        }),
{
    law_swap_spends_what_was_offered(
        state,
        ctx,
        pool_id,
        token_in,
        token_out,
        min_amount_out,
        amount,
    );
    law_ref_swaps_count(later, check, ctx.account_balance, offered(ctx, amount));
}

/// An intent is accepted from the owner and the worker while the breaker is closed, for something
/// more than nothing that, where it is named, the account holds. The solver gets one call with
/// the payload and exactly what was offered, and the check gets the same amount.
pub proof fn law_intent_sends_what_was_offered(
    state: AgentState,
    ctx: ContextModel,
    solver_id: Seq<char>,
    intent_payload: Seq<char>,
    amount: Option<u128>,
)
    ensures
        ({
            let result = state.execute_intent(ctx, solver_id, intent_payload, amount);
            let cleared = entitled(state, ctx) && state.risk_config.circuit_breaker_enabled;
            let enough = amount is Some ==> amount->0 <= ctx.account_balance;
            &&& result is Ok <==> cleared && offered(ctx, amount) > 0 && enough
            &&& !entitled(state, ctx) ==> refused(result, refusal(state))
            &&& entitled(state, ctx) && !state.risk_config.circuit_breaker_enabled ==> refused(
                result,
                AgentError::BreakerTripped,
            )
            &&& cleared && offered(ctx, amount) == 0 ==> refused(
                result,
                AgentError::NoIntentLiquidity,
            )
            &&& cleared && !enough ==> refused(result, AgentError::InsufficientIntentBalance)
            &&& result matches Ok((after, plan)) ==> {
                &&& after == state
                &&& plan.logs.len() == 0
                &&& plan.calls.len() == 1
                &&& plan.calls[0].receiver_id == solver_id
                &&& plan.calls[0].method_name == "execute_intent"@
                &&& plan.calls[0].args == encode_utf8(intent_payload)
                &&& plan.calls[0].gas == 100_000_000_000_000
                &&& amount is Some ==> plan.calls[0].deposit == amount->0
                &&& amount is None ==> plan.calls[0].deposit == ctx.attached_deposit
                &&& checks_back(plan, ctx, solver_id, plan.calls[0].deposit)
            }
        }),
{
}

/// The fee that a client has to leave: the number that it wrote, or a tenth of a NEAR where what
/// it wrote is no number.
pub open spec fn is_fee(fee: u128, solver_fee_yocto: Seq<char>) -> bool {
    &&& parsed(solver_fee_yocto) is Some ==> parsed(solver_fee_yocto) == Some(fee)
    &&& parsed(solver_fee_yocto) is None ==> fee == 100_000_000_000_000_000_000_000
}

/// Anyone may have an intent solved while the breaker is closed, for a deposit above the fee.
pub proof fn law_intent_is_solved_when_the_fee_is_covered(
    state: AgentState,
    ctx: ContextModel,
    target_pool: u64,
    token_out: Seq<char>,
    min_amount_out: Seq<char>,
    solver_fee_yocto: Seq<char>,
    fee: u128,
)
    requires
        is_fee(fee, solver_fee_yocto),
    ensures
        ({
            let result = state.solve_intent(
                ctx,
                target_pool,
                token_out,
                min_amount_out,
                solver_fee_yocto,
            );
            let online = state.risk_config.circuit_breaker_enabled;
            &&& result is Ok <==> online && ctx.attached_deposit > fee
            &&& !online ==> refused(result, AgentError::HubOffline)
            &&& online && ctx.attached_deposit == 0 ==> refused(
                result,
                AgentError::NoClientLiquidity,
            )
            &&& online && 0 < ctx.attached_deposit <= fee ==> refused(
                result,
                AgentError::FeeNotCovered,
            )
        }),
{
}

/// A solved intent leaves the fee with the agent and sends the whole rest on its way: it is
/// wrapped, handed to Ref Finance for the token, the pool and the floor that the client asked
/// for, and checked for. The income grows by the fee and nothing else about the agent changes.
/// The log names the client and the fee.
pub proof fn law_intent_buys_what_the_client_asked_for(
    state: AgentState,
    ctx: ContextModel,
    target_pool: u64,
    token_out: Seq<char>,
    min_amount_out: Seq<char>,
    solver_fee_yocto: Seq<char>,
    fee: u128,
    capital: u128,
)
    requires
        is_fee(fee, solver_fee_yocto),
        fee + capital == ctx.attached_deposit,
        state.solve_intent(ctx, target_pool, token_out, min_amount_out, solver_fee_yocto) is Ok,
    ensures
        ({
            let (after, plan) = state.solve_intent(
                ctx,
                target_pool,
                token_out,
                min_amount_out,
                solver_fee_yocto,
            )->Ok_0;
            &&& after == AgentState { total_collected: after.total_collected, ..state }
            &&& state.total_collected + fee <= u128::MAX ==> after.total_collected
                == state.total_collected + fee
            &&& state.total_collected + fee > u128::MAX ==> after.total_collected == u128::MAX
            &&& plan.calls.len() == 2
            &&& wraps(plan.calls[0], capital)
            &&& orders_swap(
                plan.calls[1],
                target_pool,
                "wrap.near"@,
                token_out,
                capital,
                min_amount_out,
            )
            &&& checks_back(plan, ctx, "v2.ref-finance.near"@, capital)
            &&& plan.logs.len() == 1
            &&& plan.logs[0] == "[A2A HUB] Agent "@ + ctx.predecessor_account_id
                + " requested intent. Skimming "@ + decimal(fee as nat)
                + " yocto as Solver Fee."@
        }),
{
    lemma_zero_is_one_digit();
}

/// Two solved intents that make the same call on wrapped NEAR ask for the same token from the
/// same pool, with the same floor and the same capital.
pub proof fn law_intents_differ_where_their_swaps_do(
    state_a: AgentState,
    ctx_a: ContextModel,
    pool_a: u64,
    out_a: Seq<char>,
    min_a: Seq<char>,
    fee_text_a: Seq<char>,
    fee_a: u128,
    state_b: AgentState,
    ctx_b: ContextModel,
    pool_b: u64,
    out_b: Seq<char>,
    min_b: Seq<char>,
    fee_text_b: Seq<char>,
    fee_b: u128,
)
    requires
        is_fee(fee_a, fee_text_a),
        is_fee(fee_b, fee_text_b),
        state_a.solve_intent(ctx_a, pool_a, out_a, min_a, fee_text_a) is Ok,
        state_b.solve_intent(ctx_b, pool_b, out_b, min_b, fee_text_b) is Ok,
        state_a.solve_intent(ctx_a, pool_a, out_a, min_a, fee_text_a)->Ok_0.1.calls[1]
            == state_b.solve_intent(ctx_b, pool_b, out_b, min_b, fee_text_b)->Ok_0.1.calls[1],
    ensures
        pool_a == pool_b,
        out_a == out_b,
        min_a == min_b,
        ctx_a.attached_deposit - fee_a == ctx_b.attached_deposit - fee_b,
{
    law_intent_is_solved_when_the_fee_is_covered(
        state_a,
        ctx_a,
        pool_a,
        out_a,
        min_a,
        fee_text_a,
        fee_a,
    );
    law_intent_is_solved_when_the_fee_is_covered(
        state_b,
        ctx_b,
        pool_b,
        out_b,
        min_b,
        fee_text_b,
        fee_b,
    );
    let capital_a = (ctx_a.attached_deposit - fee_a) as u128;
    let capital_b = (ctx_b.attached_deposit - fee_b) as u128;
    law_intent_buys_what_the_client_asked_for(
        state_a,
        ctx_a,
        pool_a,
        out_a,
        min_a,
        fee_text_a,
        fee_a,
        capital_a,
    );
    law_intent_buys_what_the_client_asked_for(
        state_b,
        ctx_b,
        pool_b,
        out_b,
        min_b,
        fee_text_b,
        fee_b,
        capital_b,
    );
    law_swap_order_is_unambiguous(
        state_a.solve_intent(ctx_a, pool_a, out_a, min_a, fee_text_a)->Ok_0.1.calls[1],
        pool_a,
        "wrap.near"@,
        out_a,
        capital_a,
        min_a,
        pool_b,
        "wrap.near"@,
        out_b,
        capital_b,
        min_b,
    );
}

/// Lending is accepted from the owner and the worker while the breaker is closed: wrapped NEAR is
/// told to hand exactly the named amount to Burrow, as collateral. Nothing is checked back.
pub proof fn law_burrow_gets_the_named_amount(
    state: AgentState,
    ctx: ContextModel,
    amount_yocto: Seq<char>,
)
    ensures
        ({
            let result = state.deposit_to_burrow(ctx, amount_yocto);
            &&& result is Ok <==> entitled(state, ctx)
                && state.risk_config.circuit_breaker_enabled
            &&& !entitled(state, ctx) ==> refused(result, refusal(state))
            &&& entitled(state, ctx) && !state.risk_config.circuit_breaker_enabled ==> refused(
                result,
                AgentError::YieldFarmingHalted,
            )
            &&& result matches Ok((after, plan)) ==> {
                &&& after == state
                &&& plan.logs.len() == 0
                &&& plan.callback is None
                &&& plan.calls.len() == 1
                &&& plan.calls[0].receiver_id == "wrap.near"@
                &&& plan.calls[0].method_name == "ft_transfer_call"@
                &&& plan.calls[0].deposit == 1
                &&& plan.calls[0].gas == 100_000_000_000_000
                &&& reads(
                    plan.calls[0].args,
                    hand_over(
                        "contract.main.burrow.near"@,
                        amount_yocto,
                        "{\"Execute\": {\"actions\": [{\"IncreaseCollateral\": {}}]}}"@,
                    ),
                )
            }
        }),
{
}

/// A withdrawal is accepted from the owner and the worker while the breaker is closed: Burrow is
/// told to give back up to the named amount of wrapped NEAR. Nothing is checked back.
pub proof fn law_burrow_gives_back_the_named_amount(
    state: AgentState,
    ctx: ContextModel,
    amount_yocto: Seq<char>,
)
    ensures
        ({
            let result = state.withdraw_from_burrow(ctx, amount_yocto);
            &&& result is Ok <==> entitled(state, ctx)
                && state.risk_config.circuit_breaker_enabled
            &&& !entitled(state, ctx) ==> refused(result, refusal(state))
            &&& entitled(state, ctx) && !state.risk_config.circuit_breaker_enabled ==> refused(
                result,
                AgentError::BreakerTripped,
            )
            &&& result matches Ok((after, plan)) ==> {
                &&& after == state
                &&& plan.logs.len() == 0
                &&& plan.callback is None
                &&& plan.calls.len() == 1
                &&& plan.calls[0].receiver_id == "contract.main.burrow.near"@
                &&& plan.calls[0].method_name == "execute"@
                &&& plan.calls[0].deposit == 1
                &&& plan.calls[0].gas == 100_000_000_000_000
                &&& plan.calls[0].args == encode_utf8(
                    "{\"Execute\": {\"actions\": [{\"Withdraw\": {\"token_id\": \"wrap.near\", \"max_amount\": \""@
                        + amount_yocto + "\"}}]}}"@,
                )
            }
        }),
{
}

/// Two requests about different amounts never make the same call, to lend as to withdraw.
pub proof fn law_burrow_amounts_are_not_mixed_up(
    state_a: AgentState,
    ctx_a: ContextModel,
    amount_a: Seq<char>,
    state_b: AgentState,
    ctx_b: ContextModel,
    amount_b: Seq<char>,
)
    ensures
        ({
            let a = state_a.deposit_to_burrow(ctx_a, amount_a);
            let b = state_b.deposit_to_burrow(ctx_b, amount_b);
            a is Ok && b is Ok && a->Ok_0.1.calls[0].args == b->Ok_0.1.calls[0].args ==> amount_a
                == amount_b
        }),
        ({
            let a = state_a.withdraw_from_burrow(ctx_a, amount_a);
            let b = state_b.withdraw_from_burrow(ctx_b, amount_b);
            a is Ok && b is Ok && a->Ok_0.1.calls[0].args == b->Ok_0.1.calls[0].args ==> amount_a
                == amount_b
        }),
{
    law_burrow_gets_the_named_amount(state_a, ctx_a, amount_a);
    law_burrow_gets_the_named_amount(state_b, ctx_b, amount_b);
    law_burrow_gives_back_the_named_amount(state_a, ctx_a, amount_a);
    law_burrow_gives_back_the_named_amount(state_b, ctx_b, amount_b);
    let a = state_a.deposit_to_burrow(ctx_a, amount_a);
    let b = state_b.deposit_to_burrow(ctx_b, amount_b);
    if a is Ok && b is Ok && a->Ok_0.1.calls[0].args == b->Ok_0.1.calls[0].args {
        let msg = "{\"Execute\": {\"actions\": [{\"IncreaseCollateral\": {}}]}}"@;
        let args_a = hand_over("contract.main.burrow.near"@, amount_a, msg);
        let args_b = hand_over("contract.main.burrow.near"@, amount_b, msg);
        lemma_bytes_stand_for_one_text(object_text(args_a), object_text(args_b));
        law_quoted_is_unambiguous("contract.main.burrow.near"@, "contract.main.burrow.near"@);
        law_quoted_is_unambiguous(amount_a, amount_b);
        law_quoted_is_unambiguous(msg, msg);
        law_object_is_unambiguous(args_a, args_b);
        assert(args_a[1] == args_b[1]);
    }
    let c = state_a.withdraw_from_burrow(ctx_a, amount_a);
    let d = state_b.withdraw_from_burrow(ctx_b, amount_b);
    if c is Ok && d is Ok && c->Ok_0.1.calls[0].args == d->Ok_0.1.calls[0].args {
        let head =
            "{\"Execute\": {\"actions\": [{\"Withdraw\": {\"token_id\": \"wrap.near\", \"max_amount\": \""@;
        let tail = "\"}}]}}"@;
        lemma_bytes_stand_for_one_text(head + amount_a + tail, head + amount_b + tail);
        let text = head + amount_a + tail;
        assert(text.len() == (head + amount_b + tail).len());
        assert(amount_a =~= text.subrange(head.len() as int, text.len() - tail.len()));
        assert(amount_b =~= text.subrange(head.len() as int, text.len() - tail.len()));
    }
}

/// What the signer is asked for.
pub open spec fn signature_request(
    payload_hash: Seq<u8>,
    derivation_path: Seq<char>,
    key_version: u32,
) -> Seq<(Seq<char>, Seq<char>)> {
    seq![
        (
            "payload"@,
            array_text(Seq::new(payload_hash.len(), |i: int| decimal(payload_hash[i] as nat))),
        ),
        ("path"@, quoted(derivation_path)),
        ("key_version"@, decimal(key_version as nat)),
    ]
}

/// A signature is requested for the worker's key alone, while the breaker is closed, for a
/// deposit, and while none is pending. The signer gets the payload, the path and the key version
/// that were asked for, and the whole deposit. From then on a signature is pending, until the
/// agent is called back.
pub proof fn law_signature_is_requested_for_the_worker(
    state: AgentState,
    ctx: ContextModel,
    payload_hash: Seq<u8>,
    derivation_path: Seq<char>,
    key_version: u32,
)
    ensures
        ({
            let result = state.sign_cross_chain_payload(
                ctx,
                payload_hash,
                derivation_path,
                key_version,
            );
            let by_worker = state.authorized_worker == Some(ctx.signer_account_pk);
            let cleared = by_worker && state.risk_config.circuit_breaker_enabled;
            &&& result is Ok <==> cleared && ctx.attached_deposit > 0 && !state.signing_in_flight
            &&& !by_worker ==> refused(result, refusal(state))
            &&& by_worker && !state.risk_config.circuit_breaker_enabled ==> refused(
                result,
                AgentError::BreakerTripped,
            )
            &&& cleared && ctx.attached_deposit == 0 ==> refused(
                result,
                AgentError::NoSigningDeposit,
            )
            &&& cleared && ctx.attached_deposit > 0 && state.signing_in_flight ==> refused(
                result,
                AgentError::SigningInFlight,
            )
            &&& result matches Ok((after, plan)) ==> {
                &&& after == AgentState { signing_in_flight: true, ..state }
                &&& plan.logs.len() == 0
                &&& plan.calls.len() == 1
                &&& plan.calls[0].receiver_id == "v1.signer"@
                &&& plan.calls[0].method_name == "sign"@
                &&& plan.calls[0].deposit == ctx.attached_deposit
                &&& plan.calls[0].gas == 250_000_000_000_000
                &&& reads(
                    plan.calls[0].args,
                    seq![
                        (
                            "request"@,
                            object_text(
                                signature_request(payload_hash, derivation_path, key_version),
                            ),
                        ),
                    ],
                )
                &&& plan.callback is Some
                &&& plan.callback->0.receiver_id == ctx.current_account_id
                &&& plan.callback->0.callback is SignCrossChainPayload
                &&& plan.callback->0.gas == 20_000_000_000_000
            }
        }),
{
    assert(payload_hash.map_values(|byte: u8| decimal(byte as nat)) =~= Seq::new(
        payload_hash.len(),
        |i: int| decimal(payload_hash[i] as nat),
    ));
}

/// Two accepted requests about hashes of one length that hand the signer the same arguments are
/// about the same hash, path and key version.
pub proof fn law_signature_requests_are_not_mixed_up(
    state_a: AgentState,
    ctx_a: ContextModel,
    hash_a: Seq<u8>,
    path_a: Seq<char>,
    version_a: u32,
    state_b: AgentState,
    ctx_b: ContextModel,
    hash_b: Seq<u8>,
    path_b: Seq<char>,
    version_b: u32,
)
    requires
        hash_a.len() == hash_b.len() > 0,
        state_a.sign_cross_chain_payload(ctx_a, hash_a, path_a, version_a) is Ok,
        state_b.sign_cross_chain_payload(ctx_b, hash_b, path_b, version_b) is Ok,
        state_a.sign_cross_chain_payload(ctx_a, hash_a, path_a, version_a)->Ok_0.1.calls[0].args
            == state_b.sign_cross_chain_payload(
            ctx_b,
            hash_b,
            path_b,
            version_b,
        )->Ok_0.1.calls[0].args,
    ensures
        hash_a == hash_b,
        path_a == path_b,
        version_a == version_b,
{
    law_signature_is_requested_for_the_worker(state_a, ctx_a, hash_a, path_a, version_a);
    law_signature_is_requested_for_the_worker(state_b, ctx_b, hash_b, path_b, version_b);
    let a = signature_request(hash_a, path_a, version_a);
    let b = signature_request(hash_b, path_b, version_b);
    let outer_a = seq![("request"@, object_text(a))];
    let outer_b = seq![("request"@, object_text(b))];
    let items_a = Seq::new(hash_a.len(), |i: int| decimal(hash_a[i] as nat));
    let items_b = Seq::new(hash_b.len(), |i: int| decimal(hash_b[i] as nat));
    lemma_bytes_stand_for_one_text(object_text(outer_a), object_text(outer_b));
    assert forall|i: int| 0 <= i < items_a.len() implies told_apart(
        #[trigger] items_a[i],
        items_b[i],
    ) by {
        law_decimal_is_unambiguous(hash_a[i] as nat, hash_b[i] as nat);
    }
    law_array_is_unambiguous(items_a, items_b);
    law_quoted_is_unambiguous(path_a, path_b);
    law_decimal_is_unambiguous(version_a as nat, version_b as nat);
    law_object_is_unambiguous(a, b);
    law_object_is_unambiguous(outer_a, outer_b);
    assert(outer_a[0] == outer_b[0]);
    assert(a[0] == b[0] && a[1] == b[1] && a[2] == b[2]);
    assert forall|i: int| 0 <= i < hash_a.len() implies hash_a[i] == hash_b[i] by {
        assert(items_a[i] == items_b[i]);
        law_decimal_is_unambiguous(hash_a[i] as nat, hash_b[i] as nat);
    }
    assert(hash_a =~= hash_b);
}

/// The answer of the signer frees the agent for the next signature, is reported, and changes
/// nothing else.
pub proof fn law_signature_answer_is_reported(state: AgentState, succeeded: bool)
    ensures
        ({
            let (after, line) = state.on_sign_cross_chain_payload(succeeded);
            &&& after == AgentState { signing_in_flight: false, ..state }
            &&& succeeded ==> line == "MPC signing succeeded. Mutex released."@
            &&& !succeeded ==> line == "MPC signing failed. Mutex released."@
        }),
{
}

/// A collection is accepted from the owner and the worker for a deposit. The ledger gets the
/// whole deposit with the name of the agent, and the agent is called back with the same amount.
/// Nothing counts yet.
pub proof fn law_collection_hands_the_deposit_to_the_ledger(state: AgentState, ctx: ContextModel)
    ensures
        ({
            let result = state.collect_fees(ctx);
            &&& result is Ok <==> entitled(state, ctx) && ctx.attached_deposit > 0
            &&& !entitled(state, ctx) ==> refused(result, refusal(state))
            &&& entitled(state, ctx) && ctx.attached_deposit == 0 ==> refused(
                result,
                AgentError::NoCollectionDeposit,
            )
            &&& result matches Ok((after, plan)) ==> {
                &&& after == state
                &&& plan.logs.len() == 0
                &&& plan.calls.len() == 1
                &&& plan.calls[0].receiver_id == state.ledger_contract
                &&& plan.calls[0].method_name == "collect_fees"@
                &&& plan.calls[0].deposit == ctx.attached_deposit
                &&& plan.calls[0].gas == 10_000_000_000_000
                &&& reads(
                    plan.calls[0].args,
                    seq![("agent_id"@, quoted(ctx.current_account_id))],
                )
                &&& plan.callback is Some
                &&& plan.callback->0.receiver_id == ctx.current_account_id
                &&& plan.callback->0.gas == 10_000_000_000_000
                &&& plan.callback->0.callback matches CallbackModel::CollectFees { deposit }
                &&& deposit == ctx.attached_deposit
            }
        }),
{
}

/// The log line of an event, with one object as its data.
pub open spec fn is_event(
    line: Seq<char>,
    name: Seq<char>,
    data: Seq<(Seq<char>, Seq<char>)>,
) -> bool {
    line == "EVENT_JSON:"@ + object_text(
        seq![
            ("standard"@, quoted("iron-claw"@)),
            ("version"@, quoted("1.0.0"@)),
            ("event"@, quoted(name)),
            ("data"@, array_text(seq![object_text(data)])),
        ],
    )
}

/// What the ledger has taken is added to the income, up to the largest amount, and announced with
/// the amount and the new income. What it has not taken is not.
pub proof fn law_collected_fees_are_announced(state: AgentState, deposit: u128, succeeded: bool)
    ensures
        ({
            let (after, line) = state.on_collect_fees(deposit, succeeded);
            let income = state.total_collected + deposit;
            &&& after == AgentState { total_collected: after.total_collected, ..state }
            &&& succeeded && income <= u128::MAX ==> after.total_collected == income
            &&& succeeded && income > u128::MAX ==> after.total_collected == u128::MAX
            &&& !succeeded ==> after.total_collected == state.total_collected
            &&& succeeded ==> is_event(
                line,
                "collect_fees"@,
                seq![
                    ("amount"@, quoted(decimal(deposit as nat))),
                    ("total"@, quoted(decimal(after.total_collected as nat))),
                ],
            )
            &&& !succeeded ==> line == "Ledger deposit failed; no state change applied."@
        }),
{
}

/// A sweep is accepted from the owner and the worker. The ledger is asked for what lacks to the
/// target that the agent had before the call: that amount and the balance make up the target, and
/// it is zero where nothing lacks. No other amount can be read out of the request.
pub proof fn law_sweep_asks_for_what_lacks_to_the_target(
    state: AgentState,
    ctx: ContextModel,
    asked: u128,
)
    requires
        ctx.account_balance < state.current_target_balance ==> asked + ctx.account_balance
            == state.current_target_balance,
        ctx.account_balance >= state.current_target_balance ==> asked == 0,
    ensures
        ({
            let result = state.process_fees(ctx);
            &&& result is Ok <==> entitled(state, ctx)
            &&& !entitled(state, ctx) ==> refused(result, refusal(state))
            &&& result matches Ok((_, plan)) ==> {
                &&& plan.logs.len() == 0
                &&& plan.calls.len() == 1
                &&& plan.calls[0].receiver_id == state.ledger_contract
                &&& plan.calls[0].method_name == "process_fees"@
                &&& plan.calls[0].deposit == 0
                &&& plan.calls[0].gas == 10_000_000_000_000
                &&& reads(
                    plan.calls[0].args,
                    seq![("agent_replenish_amount"@, quoted(decimal(asked as nat)))],
                )
                &&& parsed(decimal(asked as nat)) == Some(asked)
                &&& forall|amount: Seq<char>| #[trigger]
                    reads(plan.calls[0].args, seq![("agent_replenish_amount"@, quoted(amount))])
                        ==> parsed(amount) == Some(asked)
            }
        }),
{
    law_decimal_is_read_back(asked);
    let result = state.process_fees(ctx);
    if result is Ok {
        let args = result->Ok_0.1.calls[0].args;
        let key = "agent_replenish_amount"@;
        assert forall|amount: Seq<char>| #[trigger]
            reads(args, seq![(key, quoted(amount))]) implies parsed(amount) == Some(asked) by {
            let ours = seq![(key, quoted(decimal(asked as nat)))];
            let theirs = seq![(key, quoted(amount))];
            lemma_bytes_stand_for_one_text(object_text(ours), object_text(theirs));
            law_quoted_is_unambiguous(decimal(asked as nat), amount);
            law_object_is_unambiguous(ours, theirs);
            assert(ours[0] == theirs[0]);
        }
    }
}

/// A sweep sets the target to the whole NEAR of the income, but to no less than fifty and no more
/// than five hundred NEAR, and to the nearest of these where the income is outside; nothing else
/// about the agent changes. The agent is called back with the target that it had.
pub proof fn law_sweep_scales_the_target(state: AgentState, ctx: ContextModel)
    requires
        state.process_fees(ctx) is Ok,
    ensures
        ({
            let (after, plan) = state.process_fees(ctx)->Ok_0;
            let near = 1_000_000_000_000_000_000_000_000int;
            let income = state.total_collected;
            let target = after.current_target_balance;
            &&& after == AgentState { current_target_balance: target, ..state }
            &&& income < 50 * near ==> target == 50 * near
            &&& income > 500 * near ==> target == 500 * near
            &&& 50 * near <= income <= 500 * near ==> target <= income < target + near && target
                as int % near == 0
            &&& plan.callback is Some
            &&& plan.callback->0.receiver_id == ctx.current_account_id
            &&& plan.callback->0.gas == 10_000_000_000_000
            &&& plan.callback->0.callback matches CallbackModel::ProcessFees { old_target }
            &&& old_target == state.current_target_balance
        }),
{
}

/// A completed sweep leaves the agent as it is, and reports and announces its target. A failed
/// one brings back the target that came with the answer, changes nothing else and is reported.
pub proof fn law_sweep_answer_is_announced(state: AgentState, old_target: u128, succeeded: bool)
    ensures
        ({
            let (after, lines) = state.on_process_fees(old_target, succeeded);
            let target = state.current_target_balance;
            &&& succeeded ==> {
                &&& after == state
                &&& lines.len() == 2
                &&& lines[0] == "Scaling complete. New target: "@ + decimal(
                    (target / 1_000_000_000_000_000_000_000_000) as nat,
                ) + " NEAR"@
                &&& is_event(
                    lines[1],
                    "process_fees"@,
                    seq![("new_target_balance"@, quoted(decimal(target as nat)))],
                )
            }
            &&& !succeeded ==> {
                &&& after == AgentState { current_target_balance: old_target, ..state }
                &&& lines.len() == 1
                &&& lines[0] == "Revenue sweep failed; scale-up deferred."@
            }
        }),
{
}

/// What a status report tells.
pub open spec fn status_members(
    revenue: u128,
    scale: nat,
    breaker: bool,
    signing: bool,
    owner: Seq<char>,
) -> Seq<(Seq<char>, Seq<char>)> {
    seq![
        ("total_revenue"@, quoted(decimal(revenue as nat))),
        ("target_scale"@, decimal(scale)),
        (
            "circuit_breaker"@,
            if breaker {
                "true"@
            } else {
                "false"@
            },
        ),
        (
            "signing_in_flight"@,
            if signing {
                "true"@
            } else {
                "false"@
            },
        ),
        ("owner"@, quoted(owner)),
    ]
}

/// The status report tells the income, the target in whole NEAR, the breaker, the pending
/// signature and the owner, as they are.
pub proof fn law_status_tells_the_state(state: AgentState)
    ensures
        state.status_text() == object_text(
            status_members(
                state.total_collected,
                (state.current_target_balance / 1_000_000_000_000_000_000_000_000) as nat,
                state.risk_config.circuit_breaker_enabled,
                state.signing_in_flight,
                state.owner_id,
            ),
        ),
{
}

/// Truth values are told apart wherever they stand.
proof fn lemma_flags_are_told_apart(a: bool, b: bool)
    ensures
        ({
            let text_a = if a {
                "true"@
            } else {
                "false"@
            };
            let text_b = if b {
                "true"@
            } else {
                "false"@
            };
            told_apart(text_a, text_b) && (text_a == text_b ==> a == b)
        }),
{
    reveal_strlit("true");
    reveal_strlit("false");
    assert("true"@[0] == 't' && "false"@[0] == 'f');
    let text_a = if a {
        "true"@
    } else {
        "false"@
    };
    let text_b = if b {
        "true"@
    } else {
        "false"@
    };
    assert forall|x: Seq<char>, y: Seq<char>| #[trigger]
        (text_a + x) == #[trigger] (text_b + y) implies text_a == text_b && x == y by {
        assert((text_a + x)[0] == text_a[0]);
        assert((text_b + y)[0] == text_b[0]);
        assert(text_a == text_b);
        assert(x =~= (text_a + x).skip(text_a.len() as int));
        assert(y =~= (text_b + y).skip(text_b.len() as int));
    }
}

/// Two agents with the same status report have the same income, whole target, breaker, pending
/// signature and owner.
pub proof fn law_status_is_unambiguous(a: AgentState, b: AgentState)
    requires
        a.status_text() == b.status_text(),
    ensures
        a.total_collected == b.total_collected,
        a.current_target_balance / 1_000_000_000_000_000_000_000_000 == b.current_target_balance
            / 1_000_000_000_000_000_000_000_000,
        a.risk_config.circuit_breaker_enabled == b.risk_config.circuit_breaker_enabled,
        a.signing_in_flight == b.signing_in_flight,
        a.owner_id == b.owner_id,
{
    law_status_tells_the_state(a);
    law_status_tells_the_state(b);
    let near = 1_000_000_000_000_000_000_000_000u128;
    let scale_a = (a.current_target_balance / near) as nat;
    let scale_b = (b.current_target_balance / near) as nat;
    let members_a = status_members(
        a.total_collected,
        scale_a,
        a.risk_config.circuit_breaker_enabled,
        a.signing_in_flight,
        a.owner_id,
    );
    let members_b = status_members(
        b.total_collected,
        scale_b,
        b.risk_config.circuit_breaker_enabled,
        b.signing_in_flight,
        b.owner_id,
    );
    law_quoted_is_unambiguous(
        decimal(a.total_collected as nat),
        decimal(b.total_collected as nat),
    );
    law_decimal_is_unambiguous(a.total_collected as nat, b.total_collected as nat);
    law_decimal_is_unambiguous(scale_a, scale_b);
    lemma_flags_are_told_apart(
        a.risk_config.circuit_breaker_enabled,
        b.risk_config.circuit_breaker_enabled,
    );
    lemma_flags_are_told_apart(a.signing_in_flight, b.signing_in_flight);
    law_quoted_is_unambiguous(a.owner_id, b.owner_id);
    law_object_is_unambiguous(members_a, members_b);
    assert(members_a[0] == members_b[0] && members_a[1] == members_b[1] && members_a[2]
        == members_b[2] && members_a[3] == members_b[3] && members_a[4] == members_b[4]);
}

/// Decimal writing puts the digit of the ones last, and a number below ten is its one digit.
pub proof fn law_decimal_puts_the_ones_last(n: nat, ones: nat)
    requires
        ones < 10,
    ensures
        decimal(ones).len() == 1,
        decimal(ones)[0] as int == '0' as int + ones,
        n > 0 ==> decimal(10 * n + ones) == decimal(n) + decimal(ones),
{
    if n > 0 {
        let whole = 10 * n + ones;
        assert(whole / 10 == n && whole % 10 == ones);
        assert(decimal(whole) =~= decimal(n) + decimal(ones));
    }
}

/// A further digit makes a number ten times as large and adds itself, as long as the result fits.
pub proof fn law_reading_goes_digit_by_digit(text: Seq<char>, c: char)
    requires
        parsed(text) is Some,
    ensures
        ({
            let more = 10 * parsed(text)->0 + (c as int - '0' as int);
            let read = parsed(text.push(c));
            &&& ('0' as int <= c as int <= '9' as int) && more <= u128::MAX ==> read is Some
                && read->0 == more
            &&& ('0' as int <= c as int <= '9' as int) && more > u128::MAX ==> read is None
            &&& !('0' as int <= c as int <= '9' as int) ==> read is None
        }),
{
    let digits = without_plus(text);
    let more = without_plus(text.push(c));
    assert(more =~= digits.push(c));
    assert(more.drop_last() =~= digits);
    if is_digit(c) {
        assert(all_digits(more)) by {
            assert forall|i: int| 0 <= i < more.len() implies is_digit(#[trigger] more[i]) by {
                if i < digits.len() {
                    assert(more[i] == digits[i]);
                }
            }
        }
    } else {
        assert(!is_digit(more[more.len() - 1]));
    }
}

/// One digit reads as its number, with a plus sign or without; a text that is no number does not
/// become one by a further character behind it, unless it is empty or a plus sign alone.
pub proof fn law_reading_starts_with_a_digit(text: Seq<char>, c: char)
    ensures
        parsed(Seq::<char>::empty()) is None,
        parsed(seq!['+']) is None,
        ('0' as int <= c as int <= '9' as int) ==> {
            &&& parsed(seq![c]) is Some && parsed(seq![c])->0 == c as int - '0' as int
            &&& parsed(seq!['+', c]) is Some && parsed(seq!['+', c])->0 == c as int - '0' as int
        },
        !('0' as int <= c as int <= '9' as int) ==> parsed(seq![c]) is None && parsed(
            seq!['+', c],
        ) is None,
        text.len() > 0 && text != seq!['+'] && parsed(text) is None ==> parsed(text.push(c))
            is None,
{
    reveal_with_fuel(digits_value, 3);
    assert(seq!['+', c].skip(1) =~= seq![c]);
    assert(seq!['+'].skip(1) =~= Seq::<char>::empty());
    assert(seq![c].drop_last() =~= Seq::<char>::empty());
    let one = seq![c];
    assert(one[0] == c);
    if c == '+' {
        assert(one.skip(1) =~= Seq::<char>::empty());
    }
    if ('0' as int <= c as int <= '9' as int) {
        assert(all_digits(one));
        assert(digits_value(one) == c as int - 48);
    } else {
        assert(!is_digit(one[0]));
    }
    if text.len() > 0 && text != seq!['+'] && parsed(text) is None {
        let digits = without_plus(text);
        let more = without_plus(text.push(c));
        assert(more =~= digits.push(c));
        assert(more.drop_last() =~= digits);
        if digits.len() == 0 {
            assert(text =~= seq!['+']);
        }
        if !all_digits(digits) {
            let i = choose|i: int| 0 <= i < digits.len() && !is_digit(#[trigger] digits[i]);
            assert(more[i] == digits[i]);
            assert(!all_digits(more));
        } else if all_digits(more) {
            assert(is_digit(more[more.len() - 1]));
            assert(digits_value(more) == digits_value(digits) * 10 + (c as int - 48));
        }
    }
}

/// A further character of a quoted text goes before the closing mark: a quotation mark and a
/// backslash behind a backslash, a control character as an escape, any other as it is.
pub proof fn law_text_is_quoted_character_by_character(text: Seq<char>, c: char)
    ensures
        quoted(Seq::<char>::empty()) == seq!['"', '"'],
        ({
            let before = quoted(text).drop_last();
            let after = quoted(text.push(c));
            &&& c == '"' || c == '\\' ==> after == before + seq!['\\', c, '"']
            &&& c as int >= 32 && c != '"' && c != '\\' ==> after == before + seq![c, '"']
            &&& (c as int) < 32 ==> after.len() >= before.len() + 3 && after.take(
                before.len() as int,
            ) == before && after[before.len() as int] == '\\' && after.last() == '"'
        }),
{
    assert(quoted(Seq::<char>::empty()) =~= seq!['"', '"']);
    let before = quoted(text).drop_last();
    let after = quoted(text.push(c));
    assert(text.push(c).drop_last() =~= text);
    assert(before =~= seq!['"'] + escaped_text(text));
    if c == '"' || c == '\\' {
        assert(after =~= before + seq!['\\', c, '"']);
    } else if c as int >= 32 {
        assert(after =~= before + seq![c, '"']);
    } else {
        assert(after.take(before.len() as int) =~= before);
    }
}

/// A further item of an array and a further member of an object go before the closing bracket,
/// behind a comma where they are not the first.
pub proof fn law_lists_are_written_item_by_item(
    items: Seq<Seq<char>>,
    item: Seq<char>,
    members: Seq<(Seq<char>, Seq<char>)>,
    key: Seq<char>,
    value: Seq<char>,
)
    ensures
        array_text(seq![item]) == seq!['['] + item + seq![']'],
        items.len() > 0 ==> array_text(items.push(item)) == array_text(items).drop_last()
            + seq![','] + item + seq![']'],
        object_text(seq![(key, value)]) == seq!['{'] + quoted(key) + seq![':'] + value + seq!['}'],
        members.len() > 0 ==> object_text(members.push((key, value))) == object_text(
            members,
        ).drop_last() + seq![','] + quoted(key) + seq![':'] + value + seq!['}'],
{
    let write = |member: (Seq<char>, Seq<char>)| member_text(member);
    assert(items.push(item).drop_last() =~= items);
    assert(array_text(items).drop_last() =~= seq!['['] + joined(items, seq![',']));
    if items.len() > 0 {
        assert(array_text(items.push(item)) =~= array_text(items).drop_last() + seq![','] + item
            + seq![']']);
    }
    let one = seq![(key, value)];
    assert(one.map_values(write) =~= seq![member_text((key, value))]);
    assert(object_text(one) =~= seq!['{'] + quoted(key) + seq![':'] + value + seq!['}']);
    if members.len() > 0 {
        let before = members.map_values(write);
        let after = members.push((key, value)).map_values(write);
        assert(after =~= before.push(member_text((key, value))));
        assert(after.drop_last() =~= before);
        assert(object_text(members).drop_last() =~= seq!['{'] + joined(before, seq![',']));
        assert(object_text(members.push((key, value))) =~= object_text(members).drop_last()
            + seq![','] + quoted(key) + seq![':'] + value + seq!['}']);
    }
}

/// Bytes are a key by their first byte and their number alone: 32 bytes behind a zero, 64 behind
/// a one, 1952 behind a two.
pub proof fn law_keys_go_by_curve_and_length(data: Seq<u8>)
    ensures
        data.len() == 0 ==> !valid_key_bytes(data),
        data.len() > 0 && data[0] == 0 ==> (valid_key_bytes(data) <==> data.skip(1).len() == 32),
        data.len() > 0 && data[0] == 1 ==> (valid_key_bytes(data) <==> data.skip(1).len() == 64),
        data.len() > 0 && data[0] == 2 ==> (valid_key_bytes(data) <==> data.skip(1).len() == 1952),
        data.len() > 0 && data[0] > 2 ==> !valid_key_bytes(data),
{
}

/// What is proved of an agent's state is said of the fields of the agent.
pub proof fn law_agent_is_seen_as_it_is(agent: IronClawAgent)
    ensures
        agent@.owner_id == agent.owner_id@,
        agent@.ledger_contract == agent.ledger_contract@,
        agent@.authorized_worker is Some <==> agent.authorized_worker is Some,
        agent.authorized_worker is Some ==> agent@.authorized_worker->0
            == agent.authorized_worker->0@,
        agent@.total_collected == agent.total_collected,
        agent@.current_target_balance == agent.current_target_balance,
        agent@.risk_config == agent.risk_config,
        agent@.signing_in_flight == agent.signing_in_flight,
{
}

/// What is proved of a call is said of what the host tells about it.
pub proof fn law_context_is_seen_as_it_is(ctx: CallContext)
    ensures
        ctx@.predecessor_account_id == ctx.predecessor_account_id@,
        ctx@.signer_account_id == ctx.signer_account_id@,
        ctx@.signer_account_pk == ctx.signer_account_pk@,
        ctx@.current_account_id == ctx.current_account_id@,
        ctx@.attached_deposit == ctx.attached_deposit,
        ctx@.account_balance == ctx.account_balance,
{
}

/// What is proved of calls and of log lines is said of what the host gets.
pub proof fn law_plan_is_seen_as_it_is(
    plan: Plan,
    logs: Seq<String>,
    call: FunctionCall,
    back: SelfCall,
    i: int,
)
    ensures
        plan@.logs.len() == plan.logs@.len(),
        plan@.calls.len() == plan.calls@.len(),
        0 <= i < plan.logs@.len() ==> plan@.logs[i] == plan.logs@[i]@,
        0 <= i < plan.calls@.len() ==> plan@.calls[i] == plan.calls@[i]@,
        plan@.callback is Some <==> plan.callback is Some,
        plan.callback is Some ==> plan@.callback->0 == plan.callback->0@,
        log_texts(logs).len() == logs.len(),
        0 <= i < logs.len() ==> log_texts(logs)[i] == logs[i]@,
        call@.receiver_id == call.receiver_id@,
        call@.method_name == call.method_name@,
        call@.args == call.args@,
        call@.deposit == call.deposit,
        call@.gas == call.gas,
        back@.receiver_id == back.receiver_id@,
        back@.gas == back.gas,
        match back.callback {
            Callback::ExecuteTrade { receiver_id, balance_before, attached_deposit } => {
                &&& back@.callback is ExecuteTrade
                &&& back@.callback->receiver_id == receiver_id@
                &&& back@.callback->balance_before == balance_before
                &&& back@.callback->attached_deposit == attached_deposit
            },
            Callback::SignCrossChainPayload => back@.callback is SignCrossChainPayload,
            Callback::CollectFees { deposit } => back@.callback is CollectFees
                && back@.callback->deposit == deposit,
            Callback::ProcessFees { old_target } => back@.callback is ProcessFees
                && back@.callback->old_target == old_target,
        },
{
}

/// An answer that carries a transition out is an acceptance with its plan and its next state, or
/// a rejection with its reason and the state from before.
pub proof fn law_answers_carry_transitions_out(
    transition: Transition,
    before: AgentState,
    after: AgentState,
    answer: Result<Plan, AgentError>,
)
    requires
        carried_out(transition, before, after, answer),
    ensures
        answer is Ok <==> transition is Ok,
        answer is Ok ==> answer->Ok_0@ == transition->Ok_0.1 && after == transition->Ok_0.0,
        answer is Err ==> answer->Err_0 == transition->Err_0 && after == before,
{
}

} // verus!
