use iron_claw::{AgentError, CallContext, Callback, IronClawAgent, PublicKey};
use near_sdk::serde_json::{from_slice, from_str, Value};

const NEAR: u128 = 1_000_000_000_000_000_000_000_000;
const TGAS: u64 = 1_000_000_000_000;

fn key(byte: u8) -> PublicKey {
    let mut data = vec![1u8];
    data.extend(vec![byte; 64]);
    PublicKey::from_bytes(data).unwrap()
}

fn agent() -> IronClawAgent {
    IronClawAgent::new("owner.near".to_string(), "ledger.near".to_string())
}

fn owner(deposit: u128, balance: u128) -> CallContext {
    CallContext {
        predecessor_account_id: "owner.near".to_string(),
        signer_account_id: "owner.near".to_string(),
        signer_account_pk: key(1),
        current_account_id: "agent.near".to_string(),
        attached_deposit: deposit,
        account_balance: balance,
    }
}

fn worker(deposit: u128, balance: u128) -> CallContext {
    CallContext {
        predecessor_account_id: "tee.near".to_string(),
        signer_account_id: "tee.near".to_string(),
        signer_account_pk: key(7),
        current_account_id: "agent.near".to_string(),
        attached_deposit: deposit,
        account_balance: balance,
    }
}

fn agent_with_worker() -> IronClawAgent {
    let mut agent = agent();
    agent.set_authorized_worker(&owner(1, 0), key(7)).unwrap();
    agent
}

fn checked(agent: &mut IronClawAgent, receiver: &str, after: u128, before: u128, deposit: u128) -> String {
    assert!(agent.minimum_required(&receiver.to_string(), before, deposit).is_some());
    let logs =
        agent.on_execute_trade(&owner(0, after), receiver.to_string(), before, deposit, true);
    assert_eq!(logs.len(), 1);
    logs[0].clone()
}

#[test]
fn required_balance() {
    let agent = agent();
    assert_eq!(agent.minimum_required(&"dex.near".to_string(), 100_000, 30_000), Some(70_100));
    assert_eq!(agent.minimum_required(&"dex.near".to_string(), 99_999, 0), Some(100_098));
    assert_eq!(agent.minimum_required(&"dex.near".to_string(), 10_000, 30_000), Some(10));
    assert_eq!(agent.minimum_required(&"wrap.near".to_string(), 100_000, 30_000), Some(70_000));
    assert_eq!(agent.minimum_required(&"aurora".to_string(), 100_000, 30_000), Some(70_000));
    assert_eq!(agent.minimum_required(&"aurora".to_string(), u128::MAX, 0), Some(u128::MAX));
}

#[test]
fn required_balance_beyond_the_number_range() {
    let mut agent = agent();
    assert_eq!(agent.minimum_required(&"dex.near".to_string(), u128::MAX, 0), None);
    agent.risk_config.min_profit_margin_bps = 1;
    assert_eq!(agent.minimum_required(&"dex.near".to_string(), u128::MAX, 0), None);
    agent.risk_config.min_profit_margin_bps = 0;
    assert_eq!(agent.minimum_required(&"dex.near".to_string(), u128::MAX, 0), Some(u128::MAX));
}

#[test]
fn profitable_trade_counts() {
    let mut agent = agent();
    assert_eq!(
        checked(&mut agent, "dex.near", 70_100, 100_000, 30_000),
        "Trade Outcome: POSITIVE. Status updated."
    );
    assert_eq!(agent.total_collected, 100);
    checked(&mut agent, "dex.near", 80_000, 100_000, 30_000);
    assert_eq!(agent.total_collected, 10_100);
    agent.total_collected = u128::MAX - 1;
    checked(&mut agent, "dex.near", 80_000, 100_000, 30_000);
    assert_eq!(agent.total_collected, u128::MAX);
}

#[test]
fn losing_trade_is_reported_and_does_not_halt() {
    let mut agent = agent();
    assert_eq!(
        checked(&mut agent, "dex.near", 70_099, 100_000, 30_000),
        "NEVER-LOSS VIOLATION DETECTED: Guard is now in LOG-ONLY mode per user request. System NOT locked."
    );
    assert_eq!(agent.total_collected, 0);
    assert!(agent.risk_config.circuit_breaker_enabled);
}

#[test]
fn administrative_call_does_not_count() {
    let mut agent = agent();
    assert_eq!(
        checked(&mut agent, "wrap.near", 99_999, 100_000, 30_000),
        "Trade Outcome: ADMIN PASS. Status updated."
    );
    assert_eq!(agent.total_collected, 0);
    assert!(checked(&mut agent, "aurora", 69_999, 100_000, 30_000).starts_with("NEVER-LOSS"));
}

#[test]
fn failed_trade_is_reported() {
    let mut agent = agent();
    let logs = agent.on_execute_trade(&owner(0, 9), "dex.near".to_string(), u128::MAX, 0, false);
    assert_eq!(
        logs,
        vec!["Trade failed via PromiseError; stopping execution to prevent leakage.".to_string()]
    );
    assert_eq!(agent.total_collected, 0);
}

#[test]
fn signature_request() {
    let mut agent = agent_with_worker();
    let mut hash = [0u8; 32];
    hash[0] = 255;
    hash[31] = 9;
    let plan = agent
        .sign_cross_chain_payload(&worker(5, 50), hash, "eth/\"1\"".to_string(), 3)
        .unwrap();
    assert!(agent.signing_in_flight);
    assert_eq!(plan.calls.len(), 1);
    assert_eq!(plan.calls[0].receiver_id, "v1.signer");
    assert_eq!(plan.calls[0].method_name, "sign");
    assert_eq!(plan.calls[0].deposit, 5);
    assert_eq!(plan.calls[0].gas, 250 * TGAS);
    assert_eq!(
        String::from_utf8(plan.calls[0].args.clone()).unwrap(),
        "{\"request\":{\"payload\":[255,0,0,0,0,0,0,0,0,0,0,0,0,0,0,0,0,0,0,0,0,0,0,0,0,0,0,0,0,0,0,9],\
         \"path\":\"eth/\\\"1\\\"\",\"key_version\":3}}"
    );
    let callback = plan.callback.unwrap();
    assert_eq!(callback.receiver_id, "agent.near");
    assert_eq!(callback.gas, 20 * TGAS);
    assert!(matches!(callback.callback, Callback::SignCrossChainPayload));
}

#[test]
fn one_signature_at_a_time() {
    let mut agent = agent_with_worker();
    let ctx = worker(5, 50);
    assert!(agent.sign_cross_chain_payload(&ctx, [1; 32], "p".to_string(), 0).is_ok());
    agent.process_fees(&ctx).unwrap();
    assert_eq!(
        agent.sign_cross_chain_payload(&ctx, [2; 32], "p".to_string(), 0).err(),
        Some(AgentError::SigningInFlight)
    );
    assert_eq!(
        agent.on_sign_cross_chain_payload(false),
        vec!["MPC signing failed. Mutex released.".to_string()]
    );
    assert!(agent.sign_cross_chain_payload(&ctx, [2; 32], "p".to_string(), 0).is_ok());
    assert_eq!(
        agent.on_sign_cross_chain_payload(true),
        vec!["MPC signing succeeded. Mutex released.".to_string()]
    );
    assert!(!agent.signing_in_flight);
    assert_eq!(
        agent.sign_cross_chain_payload(&worker(0, 50), [2; 32], "p".to_string(), 0).err(),
        Some(AgentError::NoSigningDeposit)
    );
}

#[test]
fn only_the_worker_requests_signatures() {
    let mut agent = agent();
    assert_eq!(
        agent.sign_cross_chain_payload(&owner(5, 50), [1; 32], "p".to_string(), 0).err(),
        Some(AgentError::NoWorkerSet)
    );
    agent.set_authorized_worker(&owner(1, 0), key(7)).unwrap();
    assert_eq!(
        agent.sign_cross_chain_payload(&owner(5, 50), [1; 32], "p".to_string(), 0).err(),
        Some(AgentError::NotAuthorized)
    );
    assert!(!agent.signing_in_flight);
    let mut owner_with_worker_key = owner(5, 50);
    owner_with_worker_key.signer_account_pk = key(7);
    assert!(agent
        .sign_cross_chain_payload(&owner_with_worker_key, [1; 32], "p".to_string(), 0)
        .is_ok());
}

#[test]
fn fees_count_when_the_ledger_has_taken_them() {
    let mut agent = agent();
    let plan = agent.collect_fees(&owner(70, 100)).unwrap();
    assert_eq!(agent.total_collected, 0);
    assert_eq!(plan.calls.len(), 1);
    assert_eq!(plan.calls[0].receiver_id, "ledger.near");
    assert_eq!(plan.calls[0].method_name, "collect_fees");
    assert_eq!(plan.calls[0].deposit, 70);
    assert_eq!(plan.calls[0].gas, 10 * TGAS);
    assert_eq!(plan.calls[0].args, b"{\"agent_id\":\"agent.near\"}".to_vec());
    let callback = plan.callback.unwrap();
    assert_eq!(callback.gas, 10 * TGAS);
    let deposit = match callback.callback {
        Callback::CollectFees { deposit } => deposit,
        other => panic!("{:?}", other),
    };
    assert_eq!(deposit, 70);
    assert_eq!(
        agent.on_collect_fees(deposit, false),
        vec!["Ledger deposit failed; no state change applied.".to_string()]
    );
    assert_eq!(agent.total_collected, 0);
    assert_eq!(
        agent.on_collect_fees(deposit, true),
        vec![
            "EVENT_JSON:{\"standard\":\"iron-claw\",\"version\":\"1.0.0\",\"event\":\"collect_fees\",\
             \"data\":[{\"amount\":\"70\",\"total\":\"70\"}]}"
                .to_string()
        ]
    );
    assert_eq!(agent.total_collected, 70);
    agent.on_collect_fees(u128::MAX, true);
    assert_eq!(agent.total_collected, u128::MAX);
}

#[test]
fn empty_collection_is_rejected() {
    assert_eq!(
        agent().collect_fees(&owner(0, 100)).err(),
        Some(AgentError::NoCollectionDeposit)
    );
}

fn sweep(agent: &mut IronClawAgent, balance: u128) -> (String, u128) {
    let plan = agent.process_fees(&owner(0, balance)).unwrap();
    assert_eq!(plan.calls.len(), 1);
    assert_eq!(plan.calls[0].receiver_id, "ledger.near");
    assert_eq!(plan.calls[0].method_name, "process_fees");
    assert_eq!(plan.calls[0].deposit, 0);
    assert_eq!(plan.calls[0].gas, 10 * TGAS);
    let args: Value = from_slice(&plan.calls[0].args).unwrap();
    let callback = plan.callback.unwrap();
    assert_eq!(callback.gas, 10 * TGAS);
    match callback.callback {
        Callback::ProcessFees { old_target } => {
            (args["agent_replenish_amount"].as_str().unwrap().to_string(), old_target)
        }
        other => panic!("{:?}", other),
    }
}

#[test]
fn target_scales_between_floor_and_ceiling() {
    let mut agent = agent();
    let cases = [
        (0, 50),
        (49 * NEAR, 50),
        (51 * NEAR - 1, 50),
        (51 * NEAR, 51),
        (123 * NEAR + 5, 123),
        (500 * NEAR, 500),
        (501 * NEAR, 500),
        (u128::MAX, 500),
    ];
    for (income, near) in cases {
        agent.total_collected = income;
        sweep(&mut agent, 0);
        assert_eq!(agent.current_target_balance, near * NEAR);
    }
}

#[test]
fn sweep_replenishes_up_to_the_old_target() {
    let mut agent = agent();
    agent.total_collected = 80 * NEAR;
    let (replenish, old_target) = sweep(&mut agent, 20 * NEAR);
    assert_eq!(replenish, "30000000000000000000000000");
    assert_eq!(old_target, 50 * NEAR);
    let (replenish, old_target) = sweep(&mut agent, 80 * NEAR);
    assert_eq!(replenish, "0");
    assert_eq!(old_target, 80 * NEAR);
    assert_eq!(sweep(&mut agent, u128::MAX).0, "0");
}

#[test]
fn failed_sweep_goes_back_to_the_old_target() {
    let mut agent = agent();
    agent.total_collected = 80 * NEAR;
    let (_, old_target) = sweep(&mut agent, 0);
    assert_eq!(agent.current_target_balance, 80 * NEAR);
    assert_eq!(
        agent.on_process_fees(old_target, false),
        vec!["Revenue sweep failed; scale-up deferred.".to_string()]
    );
    assert_eq!(agent.current_target_balance, 50 * NEAR);
}

#[test]
fn completed_sweep_keeps_the_new_target() {
    let mut agent = agent();
    agent.total_collected = 80 * NEAR;
    let (_, old_target) = sweep(&mut agent, 0);
    assert_eq!(
        agent.on_process_fees(old_target, true),
        vec![
            "Scaling complete. New target: 80 NEAR".to_string(),
            "EVENT_JSON:{\"standard\":\"iron-claw\",\"version\":\"1.0.0\",\"event\":\"process_fees\",\
             \"data\":[{\"new_target_balance\":\"80000000000000000000000000\"}]}"
                .to_string(),
        ]
    );
    assert_eq!(agent.current_target_balance, 80 * NEAR);
}

#[test]
fn status_report() {
    let mut agent = agent();
    agent.total_collected = u128::MAX;
    agent.current_target_balance = 60 * NEAR - 1;
    agent.signing_in_flight = true;
    assert_eq!(
        agent.get_status().to_string(),
        "{\"total_revenue\":\"340282366920938463463374607431768211455\",\"target_scale\":59,\
         \"circuit_breaker\":true,\"signing_in_flight\":true,\"owner\":\"owner.near\"}"
    );
    agent.risk_config.circuit_breaker_enabled = false;
    agent.current_target_balance = u128::MAX;
    let status = agent.get_status();
    assert_eq!(status["circuit_breaker"], Value::from(false));
    assert_eq!(status["target_scale"], Value::from(340_282_366_920_938u64));
}

#[test]
fn metadata() {
    assert_eq!(
        agent().get_agent_metadata().to_string(),
        "{\"name\":\"Blue Dragon Autonomous Executor\",\"vanity\":\"bluedragon\",\
         \"version\":\"3.1.0-bluedragon\",\"brand\":\"Deep Velvet\",\
         \"intelligence\":\"Bittensor Subnet 8\",\
         \"security\":\"Iron Claw Multi-Sig / Ledger Vault\",\
         \"intent_layer\":\"Confidential Intents Enabled\"}"
    );
}

#[test]
fn events_are_json_behind_their_prefix() {
    let logs = agent().on_collect_fees(5, true);
    let event: Value = from_str(logs[0].strip_prefix("EVENT_JSON:").unwrap()).unwrap();
    assert_eq!(event["standard"], Value::from("iron-claw"));
    assert_eq!(event["data"][0]["amount"], Value::from("5"));
}
