use iron_claw::text::{decimal_text, parse_u128};
use iron_claw::{AgentError, CallContext, IronClawAgent, PublicKey};
use near_sdk::serde_json::{from_slice, Value};

#[test]
fn numbers_are_written_as_the_standard_library_writes_them() {
    for n in [0u128, 1, 9, 10, 99, 100, 1_234_567_890, u64::MAX as u128, u128::MAX - 1, u128::MAX] {
        assert_eq!(decimal_text(n), n.to_string());
        assert_eq!(parse_u128(&decimal_text(n)), Some(n));
    }
}

#[test]
fn numbers_are_read_as_the_standard_library_reads_them() {
    let texts = [
        "", "+", "-", "0", "+0", "-0", "007", "+12", "++1", "1+", " 1", "1 ", "1.5", "0x10", "a",
        "\u{664}", "1\u{e9}", "/", ":", "340282366920938463463374607431768211455",
        "340282366920938463463374607431768211456", "999999999999999999999999999999999999999999",
        "0000000000000000000000000000000000000000000000000000001",
    ];
    for text in texts {
        assert_eq!(parse_u128(text), text.parse::<u128>().ok(), "{:?}", text);
    }
}

#[test]
fn keys_are_accepted_by_curve_and_length() {
    for (curve, length) in [(0u8, 32usize), (1, 64), (2, 1952), (3, 32), (0, 31), (1, 32), (2, 64)] {
        let mut data = vec![curve];
        data.extend(vec![5u8; length]);
        let known = near_sdk::PublicKey::try_from(data.clone()).ok();
        let key = PublicKey::from_bytes(data.clone());
        assert_eq!(key.is_some(), known.is_some());
        if let Some(key) = key {
            assert_eq!(key.as_bytes(), &data);
            assert_eq!(key.shown(), format!("{:?}", known.unwrap()));
        }
    }
    assert!(PublicKey::from_bytes(vec![]).is_none());
}

#[test]
fn keys_are_equal_by_their_bytes() {
    let mut a = vec![0u8; 33];
    let key = PublicKey::from_bytes(a.clone()).unwrap();
    assert!(key.same_as(&PublicKey::from_bytes(a.clone()).unwrap()));
    a[32] = 1;
    assert!(!key.same_as(&PublicKey::from_bytes(a).unwrap()));
    let mut b = vec![0u8; 65];
    b[0] = 1;
    assert!(!key.same_as(&PublicKey::from_bytes(b).unwrap()));
}

#[test]
fn every_character_survives_a_message() {
    let mut agent = IronClawAgent::new("owner.near".to_string(), "ledger.near".to_string());
    let ctx = CallContext {
        predecessor_account_id: "owner.near".to_string(),
        signer_account_id: "owner.near".to_string(),
        signer_account_pk: PublicKey::from_bytes(vec![0; 33]).unwrap(),
        current_account_id: "agent.near".to_string(),
        attached_deposit: 0,
        account_balance: 0,
    };
    let mut amount = String::new();
    for code in (0u32..0x180).chain([0x2028, 0xfffd, 0x1f409]) {
        amount.push(char::from_u32(code).unwrap());
    }
    let plan = agent.deposit_to_burrow(&ctx, amount.clone()).unwrap();
    let args: Value = from_slice(&plan.calls[0].args).unwrap();
    assert_eq!(args["amount"], Value::from(amount));
    let text = String::from_utf8(plan.calls[0].args.clone()).unwrap();
    assert!(text.contains(
        "\\u0000\\u0001\\u0002\\u0003\\u0004\\u0005\\u0006\\u0007\\b\\t\\n\\u000b\\f\\r\\u000e\\u000f\\u0010"
    ));
    assert!(text.contains("\\u001e\\u001f !\\\"#"));
    assert!(text.contains("[\\\\]"));
    assert!(text.contains("~\u{7f}\u{80}"));
}

#[test]
fn rejections_are_explained() {
    let cases = [
        (AgentError::OneYoctoRequired, "Requires exactly 1 yoctoNEAR for security"),
        (AgentError::OwnerOnly, "Access Denied: Owner Only"),
        (
            AgentError::NotAuthorized,
            "Authentication failed: Caller is neither the owner nor the authorized TEE worker",
        ),
        (AgentError::NoWorkerSet, "Access denied: No authorized worker has been set"),
        (AgentError::TradingHalted, "Circuit breaker is ACTIVE. Trading halted."),
        (AgentError::BreakerTripped, "Circuit breaker tripped."),
        (AgentError::HubOffline, "Circuit breaker tripped. Hub offline."),
        (AgentError::YieldFarmingHalted, "Circuit breaker tripped. Yield farming halted."),
        (
            AgentError::NoSwapLiquidity,
            "No liquidity provided (attach NEAR or specify amount)",
        ),
        (
            AgentError::InsufficientSwapBalance,
            "Insufficient internal balance for buffered swap",
        ),
        (AgentError::NoIntentLiquidity, "No liquidity provided for intent"),
        (
            AgentError::InsufficientIntentBalance,
            "Insufficient internal balance for intent",
        ),
        (AgentError::NoClientLiquidity, "Intent solving requires attached liquidity."),
        (AgentError::FeeNotCovered, "Deposit must cover solver fee."),
        (AgentError::NoSigningDeposit, "Must attach NEAR for MPC signature fees"),
        (AgentError::SigningInFlight, "MPC signing already in flight"),
        (AgentError::NoCollectionDeposit, "Collection requires deposit"),
    ];
    for (error, message) in cases {
        assert_eq!(error.message(), message);
    }
}
