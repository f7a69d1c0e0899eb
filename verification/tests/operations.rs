use iron_claw::{
    AgentError, CallContext, Callback, FunctionCall, IronClawAgent, Plan, PublicKey, RiskConfig,
};
use near_sdk::serde_json::{from_slice, from_str, Value};

const NEAR: u128 = 1_000_000_000_000_000_000_000_000;
const TGAS: u64 = 1_000_000_000_000;

fn key(byte: u8) -> PublicKey {
    let mut data = vec![0u8];
    data.extend(vec![byte; 32]);
    PublicKey::from_bytes(data).unwrap()
}

fn agent() -> IronClawAgent {
    IronClawAgent::new("owner.near".to_string(), "ledger.near".to_string())
}

fn call_from(account: &str, signer_key: u8, deposit: u128, balance: u128) -> CallContext {
    CallContext {
        predecessor_account_id: account.to_string(),
        signer_account_id: account.to_string(),
        signer_account_pk: key(signer_key),
        current_account_id: "agent.near".to_string(),
        attached_deposit: deposit,
        account_balance: balance,
    }
}

fn owner(deposit: u128, balance: u128) -> CallContext {
    call_from("owner.near", 1, deposit, balance)
}

fn halted() -> IronClawAgent {
    let mut agent = agent();
    agent.risk_config.circuit_breaker_enabled = false;
    agent
}

fn rejected(answer: Result<Plan, AgentError>) -> AgentError {
    answer.err().unwrap()
}

fn text(call: &FunctionCall) -> String {
    String::from_utf8(call.args.clone()).unwrap()
}

fn trade_callback(plan: &Plan) -> (String, u128, u128) {
    let callback = plan.callback.as_ref().unwrap();
    assert_eq!(callback.receiver_id, "agent.near");
    assert_eq!(callback.gas, 20 * TGAS);
    match &callback.callback {
        Callback::ExecuteTrade { receiver_id, balance_before, attached_deposit } => {
            (receiver_id.clone(), *balance_before, *attached_deposit)
        }
        other => panic!("{:?}", other),
    }
}

#[test]
fn new_agent() {
    let agent = agent();
    assert_eq!(agent.owner_id, "owner.near");
    assert_eq!(agent.ledger_contract, "ledger.near");
    assert!(agent.authorized_worker.is_none());
    assert_eq!(agent.total_collected, 0);
    assert_eq!(agent.current_target_balance, 50 * NEAR);
    assert_eq!(agent.risk_config.max_slippage_bps, 100);
    assert_eq!(agent.risk_config.min_profit_margin_bps, 10);
    assert!(agent.risk_config.circuit_breaker_enabled);
    assert!(!agent.signing_in_flight);
}

#[test]
fn owner_sets_the_worker() {
    let mut agent = agent();
    let plan = agent.set_authorized_worker(&owner(1, 0), key(7)).unwrap();
    assert!(agent.authorized_worker.as_ref().unwrap().same_as(&key(7)));
    assert!(plan.calls.is_empty());
    assert!(plan.callback.is_none());
    let mut data = vec![0u8];
    data.extend(vec![7u8; 32]);
    let known = near_sdk::PublicKey::try_from(data).unwrap();
    assert_eq!(plan.logs, vec![format!("Authorized worker set to: {:?}", known)]);
    assert!(plan.logs[0].starts_with("Authorized worker set to: PublicKey { data: [0, 7, 7, "));
}

#[test]
fn owner_sets_the_ledger() {
    let mut agent = agent();
    let plan = agent.set_ledger_contract(&owner(1, 0), "vault.near".to_string()).unwrap();
    assert_eq!(agent.ledger_contract, "vault.near");
    assert_eq!(plan.logs, vec!["Ledger contract updated to: vault.near".to_string()]);
}

#[test]
fn owner_sets_the_risk_limits() {
    let mut agent = agent();
    let config = RiskConfig {
        max_slippage_bps: 5,
        min_profit_margin_bps: 6,
        circuit_breaker_enabled: false,
    };
    let plan = agent.set_risk_config(&owner(1, 0), config.clone()).unwrap();
    assert_eq!(agent.risk_config.max_slippage_bps, config.max_slippage_bps);
    assert_eq!(agent.risk_config.min_profit_margin_bps, 6);
    assert!(!agent.risk_config.circuit_breaker_enabled);
    assert_eq!(plan.logs, vec!["Risk configuration updated".to_string()]);
}

#[test]
fn settings_ask_for_one_yocto_first_and_for_the_owner_second() {
    let mut agent = agent();
    assert_eq!(
        rejected(agent.set_authorized_worker(&call_from("eve.near", 1, 0, 0), key(7))),
        AgentError::OneYoctoRequired
    );
    assert_eq!(
        rejected(agent.set_ledger_contract(&owner(2, 0), "x.near".to_string())),
        AgentError::OneYoctoRequired
    );
    assert_eq!(
        rejected(agent.set_ledger_contract(&call_from("eve.near", 1, 1, 0), "x.near".to_string())),
        AgentError::OwnerOnly
    );
    assert!(agent.authorized_worker.is_none());
    assert_eq!(agent.ledger_contract, "ledger.near");
}

#[test]
fn trade_calls_the_receiver_and_has_the_outcome_checked() {
    let mut agent = agent();
    let plan = agent
        .execute_trade(
            &owner(0, 900),
            "dex.near".to_string(),
            "buy".to_string(),
            "{\"n\":\"\u{e9}\"}".to_string(),
            40,
            77,
        )
        .unwrap();
    assert_eq!(plan.calls.len(), 1);
    assert_eq!(plan.calls[0].receiver_id, "dex.near");
    assert_eq!(plan.calls[0].method_name, "buy");
    assert_eq!(plan.calls[0].args, "{\"n\":\"\u{e9}\"}".as_bytes().to_vec());
    assert_eq!(plan.calls[0].deposit, 40);
    assert_eq!(plan.calls[0].gas, 77);
    assert_eq!(trade_callback(&plan), ("dex.near".to_string(), 900, 40));
    assert!(plan.logs.is_empty());
}

#[test]
fn the_workers_key_is_as_good_as_the_owners_account() {
    let mut agent = agent();
    let outsider = call_from("eve.near", 9, 5, 5);
    assert_eq!(rejected(agent.collect_fees(&outsider)), AgentError::NoWorkerSet);
    agent.set_authorized_worker(&owner(1, 0), key(7)).unwrap();
    assert_eq!(rejected(agent.collect_fees(&outsider)), AgentError::NotAuthorized);
    assert!(agent.collect_fees(&call_from("tee.near", 7, 5, 5)).is_ok());
    assert!(agent.collect_fees(&owner(5, 5)).is_ok());
}

#[test]
fn a_later_worker_replaces_the_earlier() {
    let mut agent = agent();
    agent.set_authorized_worker(&owner(1, 0), key(7)).unwrap();
    assert!(agent.process_fees(&call_from("tee.near", 7, 0, 5)).is_ok());
    agent.set_authorized_worker(&owner(1, 0), key(8)).unwrap();
    agent.collect_fees(&owner(5, 5)).unwrap();
    assert!(agent.process_fees(&call_from("tee.near", 8, 0, 5)).is_ok());
    assert_eq!(
        rejected(agent.process_fees(&call_from("tee.near", 7, 0, 5))),
        AgentError::NotAuthorized
    );
    assert_eq!(
        rejected(agent.process_fees(&call_from("tee.near", 9, 0, 5))),
        AgentError::NotAuthorized
    );
}

#[test]
fn outsiders_are_rejected_everywhere() {
    let eve = call_from("eve.near", 9, 5, 5);
    let mut agent = agent();
    let expected = AgentError::NoWorkerSet;
    let s = || "x.near".to_string();
    assert_eq!(rejected(agent.execute_trade(&eve, s(), s(), s(), 1, 1)), expected);
    assert_eq!(rejected(agent.swap_on_ref(&eve, 1, s(), s(), s(), None)), expected);
    assert_eq!(rejected(agent.execute_intent(&eve, s(), s(), None)), expected);
    assert_eq!(rejected(agent.deposit_to_burrow(&eve, s())), expected);
    assert_eq!(rejected(agent.withdraw_from_burrow(&eve, s())), expected);
    assert_eq!(rejected(agent.sign_cross_chain_payload(&eve, [0; 32], s(), 0)), expected);
    assert_eq!(rejected(agent.collect_fees(&eve)), expected);
    assert_eq!(rejected(agent.process_fees(&eve)), expected);
}

#[test]
fn the_breaker_halts_every_operation() {
    let mut agent = halted();
    let ctx = owner(5, 5);
    let s = || "x.near".to_string();
    assert_eq!(
        rejected(agent.execute_trade(&ctx, s(), s(), s(), 1, 1)),
        AgentError::TradingHalted
    );
    assert_eq!(
        rejected(agent.swap_on_ref(&ctx, 1, s(), s(), s(), None)),
        AgentError::BreakerTripped
    );
    assert_eq!(
        rejected(agent.execute_intent(&ctx, s(), s(), None)),
        AgentError::BreakerTripped
    );
    assert_eq!(
        rejected(agent.solve_intent(&ctx, 1, s(), s(), s())),
        AgentError::HubOffline
    );
    assert_eq!(rejected(agent.deposit_to_burrow(&ctx, s())), AgentError::YieldFarmingHalted);
    assert_eq!(rejected(agent.withdraw_from_burrow(&ctx, s())), AgentError::BreakerTripped);
    agent.set_authorized_worker(&owner(1, 5), key(7)).unwrap();
    assert_eq!(
        rejected(agent.sign_cross_chain_payload(
            &call_from("tee.near", 7, 5, 5),
            [0; 32],
            s(),
            0
        )),
        AgentError::BreakerTripped
    );
    assert_eq!(agent.total_collected, 0);
    assert!(agent.collect_fees(&ctx).is_ok());
    assert!(agent.process_fees(&ctx).is_ok());
}

#[test]
fn swap_of_wrapped_near_wraps_first() {
    let mut agent = agent();
    let plan = agent
        .swap_on_ref(
            &owner(3 * NEAR, 10 * NEAR),
            42,
            "wrap.near".to_string(),
            "usdt.near".to_string(),
            "900".to_string(),
            None,
        )
        .unwrap();
    assert_eq!(plan.calls.len(), 2);
    let wrap = &plan.calls[0];
    assert_eq!(wrap.receiver_id, "wrap.near");
    assert_eq!(wrap.method_name, "near_deposit");
    assert!(wrap.args.is_empty());
    assert_eq!(wrap.deposit, 3 * NEAR);
    assert_eq!(wrap.gas, 10 * TGAS);
    let swap = &plan.calls[1];
    assert_eq!(swap.receiver_id, "wrap.near");
    assert_eq!(swap.method_name, "ft_transfer_call");
    assert_eq!(swap.deposit, 1);
    assert_eq!(swap.gas, 100 * TGAS);
    assert_eq!(
        text(swap),
        "{\"receiver_id\":\"v2.ref-finance.near\",\"amount\":\"3000000000000000000000000\",\
         \"msg\":\"{\\\"force\\\":0,\\\"actions\\\":[{\\\"pool_id\\\":42,\\\"token_in\\\":\\\"wrap.near\\\",\
         \\\"token_out\\\":\\\"usdt.near\\\",\\\"amount_in\\\":\\\"3000000000000000000000000\\\",\
         \\\"min_amount_out\\\":\\\"900\\\"}]}\"}"
    );
    assert_eq!(
        trade_callback(&plan),
        ("v2.ref-finance.near".to_string(), 10 * NEAR, 3 * NEAR)
    );
}

#[test]
fn swap_of_another_token_goes_to_that_token() {
    let mut agent = agent();
    let plan = agent
        .swap_on_ref(
            &owner(0, 100),
            18_446_744_073_709_551_615,
            "usdt.near".to_string(),
            "wrap.near".to_string(),
            "a\"b\\c\n\u{1}\u{7f}\u{e9}".to_string(),
            Some(100),
        )
        .unwrap();
    assert_eq!(plan.calls.len(), 1);
    assert_eq!(plan.calls[0].receiver_id, "usdt.near");
    let args: Value = from_slice(&plan.calls[0].args).unwrap();
    assert_eq!(args["receiver_id"], Value::from("v2.ref-finance.near"));
    assert_eq!(args["amount"], Value::from("100"));
    let msg: Value = from_str(args["msg"].as_str().unwrap()).unwrap();
    assert_eq!(msg["force"], Value::from(0));
    let action = &msg["actions"][0];
    assert_eq!(action["pool_id"], Value::from(18_446_744_073_709_551_615u64));
    assert_eq!(action["token_in"], Value::from("usdt.near"));
    assert_eq!(action["token_out"], Value::from("wrap.near"));
    assert_eq!(action["amount_in"], Value::from("100"));
    assert_eq!(action["min_amount_out"], Value::from("a\"b\\c\n\u{1}\u{7f}\u{e9}"));
    assert_eq!(trade_callback(&plan), ("v2.ref-finance.near".to_string(), 100, 100));
}

#[test]
fn swap_without_cover_is_rejected() {
    let mut agent = agent();
    let s = || "x.near".to_string();
    assert_eq!(
        rejected(agent.swap_on_ref(&owner(0, 100), 1, s(), s(), s(), None)),
        AgentError::NoSwapLiquidity
    );
    assert_eq!(
        rejected(agent.swap_on_ref(&owner(5, 100), 1, s(), s(), s(), Some(0))),
        AgentError::NoSwapLiquidity
    );
    assert_eq!(
        rejected(agent.swap_on_ref(&owner(5, 100), 1, s(), s(), s(), Some(101))),
        AgentError::InsufficientSwapBalance
    );
}

#[test]
fn intent_goes_to_the_solver() {
    let mut agent = agent();
    let plan = agent
        .execute_intent(&owner(1, 100), "solver.near".to_string(), "{}".to_string(), Some(60))
        .unwrap();
    assert_eq!(plan.calls.len(), 1);
    assert_eq!(plan.calls[0].receiver_id, "solver.near");
    assert_eq!(plan.calls[0].method_name, "execute_intent");
    assert_eq!(text(&plan.calls[0]), "{}");
    assert_eq!(plan.calls[0].deposit, 60);
    assert_eq!(plan.calls[0].gas, 100 * TGAS);
    assert_eq!(trade_callback(&plan), ("solver.near".to_string(), 100, 60));
}

#[test]
fn intent_without_cover_is_rejected() {
    let mut agent = agent();
    let s = || "x.near".to_string();
    assert_eq!(
        rejected(agent.execute_intent(&owner(0, 100), s(), s(), None)),
        AgentError::NoIntentLiquidity
    );
    assert_eq!(
        rejected(agent.execute_intent(&owner(0, 100), s(), s(), Some(101))),
        AgentError::InsufficientIntentBalance
    );
}

#[test]
fn solved_intent_splits_the_deposit() {
    let mut agent = agent();
    let plan = agent
        .solve_intent(
            &call_from("client.near", 3, 1000, 5000),
            7,
            "usdt.near".to_string(),
            "1".to_string(),
            "400".to_string(),
        )
        .unwrap();
    assert_eq!(agent.total_collected, 400);
    assert_eq!(plan.calls.len(), 2);
    assert_eq!(plan.calls[0].receiver_id, "wrap.near");
    assert_eq!(plan.calls[0].method_name, "near_deposit");
    assert_eq!(plan.calls[0].deposit, 600);
    let args: Value = from_slice(&plan.calls[1].args).unwrap();
    assert_eq!(args["amount"], Value::from("600"));
    let msg: Value = from_str(args["msg"].as_str().unwrap()).unwrap();
    assert_eq!(msg["actions"][0]["pool_id"], Value::from(7));
    assert_eq!(msg["actions"][0]["token_in"], Value::from("wrap.near"));
    assert_eq!(msg["actions"][0]["amount_in"], Value::from("600"));
    assert_eq!(trade_callback(&plan), ("v2.ref-finance.near".to_string(), 5000, 600));
    assert_eq!(
        plan.logs,
        vec![
            "[A2A HUB] Agent client.near requested intent. Skimming 400 yocto as Solver Fee."
                .to_string()
        ]
    );
}

#[test]
fn unreadable_fee_is_a_tenth_of_a_near() {
    let mut agent = agent();
    for fee in ["", "+", "-1", " 5", "1_000", "abc", "340282366920938463463374607431768211456"] {
        let before = agent.total_collected;
        agent
            .solve_intent(
                &call_from("client.near", 3, NEAR, NEAR),
                7,
                "usdt.near".to_string(),
                "1".to_string(),
                fee.to_string(),
            )
            .unwrap();
        assert_eq!(agent.total_collected - before, NEAR / 10);
    }
}

#[test]
fn intent_must_cover_its_fee() {
    let mut agent = agent();
    let s = || "x.near".to_string();
    assert_eq!(
        rejected(agent.solve_intent(&call_from("c.near", 3, 0, 9), 7, s(), s(), "0".to_string())),
        AgentError::NoClientLiquidity
    );
    assert_eq!(
        rejected(agent.solve_intent(&call_from("c.near", 3, 9, 9), 7, s(), s(), "9".to_string())),
        AgentError::FeeNotCovered
    );
    assert!(agent
        .solve_intent(&call_from("c.near", 3, 9, 9), 7, s(), s(), "+8".to_string())
        .is_ok());
    assert_eq!(agent.total_collected, 8);
}

#[test]
fn burrow_takes_collateral() {
    let mut agent = agent();
    let plan = agent.deposit_to_burrow(&owner(0, 0), "12".to_string()).unwrap();
    assert_eq!(plan.calls.len(), 1);
    assert!(plan.callback.is_none());
    assert_eq!(plan.calls[0].receiver_id, "wrap.near");
    assert_eq!(plan.calls[0].method_name, "ft_transfer_call");
    assert_eq!(plan.calls[0].deposit, 1);
    assert_eq!(plan.calls[0].gas, 100 * TGAS);
    assert_eq!(
        text(&plan.calls[0]),
        "{\"receiver_id\":\"contract.main.burrow.near\",\"amount\":\"12\",\
         \"msg\":\"{\\\"Execute\\\": {\\\"actions\\\": [{\\\"IncreaseCollateral\\\": {}}]}}\"}"
    );
}

#[test]
fn burrow_gives_back() {
    let mut agent = agent();
    let plan = agent.withdraw_from_burrow(&owner(0, 0), "12".to_string()).unwrap();
    assert_eq!(plan.calls.len(), 1);
    assert!(plan.callback.is_none());
    assert_eq!(plan.calls[0].receiver_id, "contract.main.burrow.near");
    assert_eq!(plan.calls[0].method_name, "execute");
    assert_eq!(plan.calls[0].deposit, 1);
    assert_eq!(plan.calls[0].gas, 100 * TGAS);
    assert_eq!(
        text(&plan.calls[0]),
        "{\"Execute\": {\"actions\": [{\"Withdraw\": {\"token_id\": \"wrap.near\", \"max_amount\": \"12\"}}]}}"
    );
}

#[test]
fn every_fixed_receiver_is_a_valid_account() {
    for name in ["wrap.near", "v2.ref-finance.near", "contract.main.burrow.near", "v1.signer"] {
        assert!(name.parse::<near_sdk::AccountId>().is_ok());
    }
}

#[test]
fn crafted_text_stays_inside_its_field() {
    let mut agent = agent();
    let mut messages = Vec::new();
    for min_out in ["1", "1\",\"pool_id\":\"9", "1\\", "1\\\",\"force\":1,\"x\":\""] {
        let plan = agent
            .swap_on_ref(
                &owner(0, 100),
                1,
                "usdt.near".to_string(),
                "dai.near".to_string(),
                min_out.to_string(),
                Some(5),
            )
            .unwrap();
        let args: Value = from_slice(&plan.calls[0].args).unwrap();
        let msg: Value = from_str(args["msg"].as_str().unwrap()).unwrap();
        assert_eq!(msg["force"], Value::from(0));
        assert_eq!(msg["actions"][0]["pool_id"], Value::from(1));
        assert_eq!(msg["actions"][0]["min_amount_out"], Value::from(min_out));
        let message = text(&plan.calls[0]);
        assert!(!messages.contains(&message));
        messages.push(message);
    }
}

#[test]
fn a_run_keeps_the_owner_the_income_and_the_bounds_of_the_target() {
    let mut agent = agent();
    let mut income = 0;
    for round in 1..200u128 {
        let fee = (round * NEAR).to_string();
        agent
            .solve_intent(
                &call_from("client.near", 3, 1000 * NEAR, 1000 * NEAR),
                1,
                "usdt.near".to_string(),
                "1".to_string(),
                fee,
            )
            .unwrap();
        let plan = agent.process_fees(&owner(0, 0)).unwrap();
        let old_target = match plan.callback.unwrap().callback {
            Callback::ProcessFees { old_target } => old_target,
            other => panic!("{:?}", other),
        };
        agent.on_process_fees(old_target, round % 3 != 0);
        agent.on_execute_trade(&owner(0, 0), "dex.near".to_string(), NEAR, 0, round % 2 == 0);
        assert!(agent.set_ledger_contract(&call_from("eve.near", 9, 1, 0), "x".to_string()).is_err());
        assert_eq!(agent.owner_id, "owner.near");
        assert_eq!(agent.ledger_contract, "ledger.near");
        assert!(agent.total_collected >= income);
        income = agent.total_collected;
        assert!(agent.current_target_balance >= 50 * NEAR);
        assert!(agent.current_target_balance <= 500 * NEAR);
    }
}
