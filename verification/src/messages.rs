//! The messages that the agent sends to other contracts and writes to its log.

use near_sdk::serde_json::Value;
use vstd::prelude::*;
use vstd::utf8::encode_utf8;

use crate::json::{
    array_text, distinct_keys, json_array, json_number, json_object, json_string, json_text,
    json_to_string, json_to_vec, member, members_of, object_text, quoted,
};
use crate::text::{decimal, decimal_text};

verus! {

/// The message that asks Ref Finance for one swap in one pool.
pub open spec fn swap_text(
    pool_id: u64,
    token_in: Seq<char>,
    token_out: Seq<char>,
    amount_in: u128,
    min_amount_out: Seq<char>,
) -> Seq<char> {
    let action = object_text(
        seq![
            ("pool_id"@, decimal(pool_id as nat)),
            ("token_in"@, quoted(token_in)),
            ("token_out"@, quoted(token_out)),
            ("amount_in"@, quoted(decimal(amount_in as nat))),
            ("min_amount_out"@, quoted(min_amount_out)),
        ],
    );
    object_text(seq![("force"@, decimal(0)), ("actions"@, array_text(seq![action]))])
}

/// Writes the message that asks Ref Finance for a swap.
pub(crate) fn swap_message(
    pool_id: u64,
    token_in: &str,
    token_out: &str,
    amount_in: u128,
    min_amount_out: &str,
) -> (message: String)
    ensures
        message@ == swap_text(pool_id, token_in@, token_out@, amount_in, min_amount_out@),
{
    let amount: String = decimal_text(amount_in);
    let fields: Vec<(String, Value)> = vec![
        member("pool_id", json_number(pool_id)),
        member("token_in", json_string(token_in)),
        member("token_out", json_string(token_out)),
        member("amount_in", json_string(amount.as_str())),
        member("min_amount_out", json_string(min_amount_out)),
    ];
    assert(members_of(fields@) =~= seq![
        ("pool_id"@, decimal(pool_id as nat)),
        ("token_in"@, quoted(token_in@)),
        ("token_out"@, quoted(token_out@)),
        ("amount_in"@, quoted(decimal(amount_in as nat))),
        ("min_amount_out"@, quoted(min_amount_out@)),
    ]);
    assert(distinct_keys(members_of(fields@))) by {
        reveal_strlit("pool_id");
        assert("pool_id"@.len() == 7);
        reveal_strlit("token_in");
        assert("token_in"@.len() == 8);
        reveal_strlit("token_out");
        assert("token_out"@.len() == 9);
        reveal_strlit("amount_in");
        assert("amount_in"@.len() == 9);
        reveal_strlit("min_amount_out");
        assert("min_amount_out"@.len() == 14);
        assert("token_out"@[0] != "amount_in"@[0]);
    }
    let action: Value = json_object(fields);
    let actions: Vec<Value> = vec![action];
    assert(actions@.map_values(|item: Value| json_text(item)) =~= seq![json_text(action)]);
    let fields: Vec<(String, Value)> = vec![
        member("force", json_number(0)),
        member("actions", json_array(actions)),
    ];
    assert(members_of(fields@) =~= seq![
        ("force"@, decimal(0)),
        ("actions"@, array_text(seq![json_text(action)])),
    ]);
    assert(distinct_keys(members_of(fields@))) by {
        reveal_strlit("force");
        assert("force"@.len() == 5);
        reveal_strlit("actions");
        assert("actions"@.len() == 7);
    }
    json_to_string(&json_object(fields))
}

/// The arguments of `ft_transfer_call`.
pub open spec fn transfer_text(
    receiver_id: Seq<char>,
    amount: Seq<char>,
    msg: Seq<char>,
) -> Seq<char> {
    object_text(
        seq![
            ("receiver_id"@, quoted(receiver_id)),
            ("amount"@, quoted(amount)),
            ("msg"@, quoted(msg)),
        ],
    )
}

/// Writes the arguments of `ft_transfer_call`.
pub(crate) fn transfer_message(receiver_id: &str, amount: &str, msg: &str) -> (message: String)
    ensures
        message@ == transfer_text(receiver_id@, amount@, msg@),
{
    let fields: Vec<(String, Value)> = vec![
        member("receiver_id", json_string(receiver_id)),
        member("amount", json_string(amount)),
        member("msg", json_string(msg)),
    ];
    assert(members_of(fields@) =~= seq![
        ("receiver_id"@, quoted(receiver_id@)),
        ("amount"@, quoted(amount@)),
        ("msg"@, quoted(msg@)),
    ]);
    assert(distinct_keys(members_of(fields@))) by {
        reveal_strlit("receiver_id");
        assert("receiver_id"@.len() == 11);
        reveal_strlit("amount");
        assert("amount"@.len() == 6);
        reveal_strlit("msg");
        assert("msg"@.len() == 3);
    }
    json_to_string(&json_object(fields))
}

/// The message that makes Burrow take a transfer as collateral.
pub open spec fn collateral_text() -> Seq<char> {
    "{\"Execute\": {\"actions\": [{\"IncreaseCollateral\": {}}]}}"@
}

/// Writes the message that makes Burrow take a transfer as collateral.
pub(crate) fn collateral_message() -> (message: String)
    ensures
        message@ == collateral_text(),
{
    "{\"Execute\": {\"actions\": [{\"IncreaseCollateral\": {}}]}}".to_owned()
}

/// The message that takes an amount out of Burrow. The amount stands in it as it came.
pub open spec fn withdraw_text(amount: Seq<char>) -> Seq<char> {
    "{\"Execute\": {\"actions\": [{\"Withdraw\": {\"token_id\": \"wrap.near\", \"max_amount\": \""@
        + amount + "\"}}]}}"@
}

/// Writes the message that takes an amount out of Burrow.
pub(crate) fn withdraw_message(amount: &str) -> (message: String)
    ensures
        message@ == withdraw_text(amount@),
{
    let start: String =
        "{\"Execute\": {\"actions\": [{\"Withdraw\": {\"token_id\": \"wrap.near\", \"max_amount\": \"".to_owned();
    start.concat(amount).concat("\"}}]}}")
}

/// The bytes of a hash as a JSON array.
pub open spec fn bytes_text(bytes: Seq<u8>) -> Seq<char> {
    array_text(bytes.map_values(|byte: u8| decimal(byte as nat)))
}

/// A JSON array of the bytes of a hash.
fn json_bytes(bytes: &[u8; 32]) -> (value: Value)
    ensures
        json_text(value) == bytes_text(bytes@),
{
    let mut items: Vec<Value> = Vec::new();
    let mut i: usize = 0;
    while i < 32
        invariant
            i <= 32,
            items@.map_values(|item: Value| json_text(item)) == bytes@.map_values(
                |byte: u8| decimal(byte as nat),
            ).take(i as int),
        decreases 32 - i,
    {
        let ghost before = items@;
        items.push(json_number(bytes[i] as u64));
        i = i + 1;
        assert(items@.map_values(|item: Value| json_text(item)) =~= before.map_values(
            |item: Value| json_text(item),
        ).push(decimal(bytes@[i - 1] as nat)));
        assert(bytes@.map_values(|byte: u8| decimal(byte as nat)).take(i as int)
            =~= bytes@.map_values(|byte: u8| decimal(byte as nat)).take(i - 1).push(
            decimal(bytes@[i - 1] as nat),
        ));
    }
    assert(bytes@.map_values(|byte: u8| decimal(byte as nat)).take(32) =~= bytes@.map_values(
        |byte: u8| decimal(byte as nat),
    ));
    json_array(items)
}

/// The arguments of `sign`.
pub open spec fn signing_text(
    payload_hash: Seq<u8>,
    derivation_path: Seq<char>,
    key_version: u32,
) -> Seq<char> {
    let request = object_text(
        seq![
            ("payload"@, bytes_text(payload_hash)),
            ("path"@, quoted(derivation_path)),
            ("key_version"@, decimal(key_version as nat)),
        ],
    );
    object_text(seq![("request"@, request)])
}

/// Writes the arguments of `sign`.
pub(crate) fn signing_request(
    payload_hash: &[u8; 32],
    derivation_path: &str,
    key_version: u32,
) -> (args: Vec<u8>)
    ensures
        args@ == encode_utf8(signing_text(payload_hash@, derivation_path@, key_version)),
{
    let fields: Vec<(String, Value)> = vec![
        member("payload", json_bytes(payload_hash)),
        member("path", json_string(derivation_path)),
        member("key_version", json_number(key_version as u64)),
    ];
    assert(members_of(fields@) =~= seq![
        ("payload"@, bytes_text(payload_hash@)),
        ("path"@, quoted(derivation_path@)),
        ("key_version"@, decimal(key_version as nat)),
    ]);
    assert(distinct_keys(members_of(fields@))) by {
        reveal_strlit("payload");
        assert("payload"@.len() == 7);
        reveal_strlit("path");
        assert("path"@.len() == 4);
        reveal_strlit("key_version");
        assert("key_version"@.len() == 11);
    }
    json_to_vec(&single_member("request", json_object(fields)))
}

/// A JSON object with one member.
fn single_member(key: &str, value: Value) -> (object: Value)
    ensures
        json_text(object) == object_text(seq![(key@, json_text(value))]),
{
    let fields: Vec<(String, Value)> = vec![member(key, value)];
    assert(members_of(fields@) =~= seq![(key@, json_text(value))]);
    json_object(fields)
}

/// The arguments of the ledger's `collect_fees`.
pub open spec fn collection_text(agent_id: Seq<char>) -> Seq<char> {
    object_text(seq![("agent_id"@, quoted(agent_id))])
}

/// Writes the arguments of the ledger's `collect_fees`.
pub(crate) fn collection_request(agent_id: &str) -> (args: Vec<u8>)
    ensures
        args@ == encode_utf8(collection_text(agent_id@)),
{
    json_to_vec(&single_member("agent_id", json_string(agent_id)))
}

/// The arguments of the ledger's `process_fees`.
pub open spec fn sweep_text(replenish: u128) -> Seq<char> {
    object_text(seq![("agent_replenish_amount"@, quoted(decimal(replenish as nat)))])
}

/// Writes the arguments of the ledger's `process_fees`.
pub(crate) fn sweep_request(replenish: u128) -> (args: Vec<u8>)
    ensures
        args@ == encode_utf8(sweep_text(replenish)),
{
    let amount: String = decimal_text(replenish);
    json_to_vec(&single_member("agent_replenish_amount", json_string(amount.as_str())))
}

/// What the event of a fee collection tells.
pub open spec fn collection_data_text(amount: u128, total: u128) -> Seq<char> {
    object_text(
        seq![
            ("amount"@, quoted(decimal(amount as nat))),
            ("total"@, quoted(decimal(total as nat))),
        ],
    )
}

/// The data of the event of a fee collection.
pub(crate) fn collection_data(amount: u128, total: u128) -> (data: Value)
    ensures
        json_text(data) == collection_data_text(amount, total),
{
    let amount_text: String = decimal_text(amount);
    let total_text: String = decimal_text(total);
    let fields: Vec<(String, Value)> = vec![
        member("amount", json_string(amount_text.as_str())),
        member("total", json_string(total_text.as_str())),
    ];
    assert(members_of(fields@) =~= seq![
        ("amount"@, quoted(decimal(amount as nat))),
        ("total"@, quoted(decimal(total as nat))),
    ]);
    assert(distinct_keys(members_of(fields@))) by {
        reveal_strlit("amount");
        assert("amount"@.len() == 6);
        reveal_strlit("total");
        assert("total"@.len() == 5);
    }
    json_object(fields)
}

/// What the event of a fee sweep tells.
pub open spec fn sweep_data_text(target: u128) -> Seq<char> {
    object_text(seq![("new_target_balance"@, quoted(decimal(target as nat)))])
}

/// The data of the event of a fee sweep.
pub(crate) fn sweep_data(target: u128) -> (data: Value)
    ensures
        json_text(data) == sweep_data_text(target),
{
    let amount: String = decimal_text(target);
    single_member("new_target_balance", json_string(amount.as_str()))
}

/// The log line of an event, from the event's name and the text of its data.
pub open spec fn event_text(event: Seq<char>, data: Seq<char>) -> Seq<char> {
    "EVENT_JSON:"@ + object_text(
        seq![
            ("standard"@, quoted("iron-claw"@)),
            ("version"@, quoted("1.0.0"@)),
            ("event"@, quoted(event)),
            ("data"@, array_text(seq![data])),
        ],
    )
}

} // verus!
