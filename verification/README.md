# iron_claw

The decision core of an autonomous trading agent on NEAR, verified with Verus.

- `src/`: the verified library. Every entry point of the agent takes the call as plain values and
  answers with a plan (log lines, calls on other contracts, a call back) or with the reason for
  which the call is rejected. `model.rs` says what each entry point does, `laws.rs` and
  `unambiguous.rs` what holds of all of them together.
- `app/`: the NEAR contract. It reads the host, asks the core and carries out the plan.
- `tests/`: the library on concrete values.

JSON is built and written by `serde_json`, amounts, gas and keys are those of `near-sdk`; the
functions of `json.rs` and `near.rs` that call them say what is taken on trust.
