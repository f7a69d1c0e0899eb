//! What the host tells the agent about a call, and what the agent asks of the host.

use vstd::prelude::*;

use crate::near::PublicKey;

verus! {

/// The call that is being served, as the host describes it. Amounts are in yoctoNEAR.
#[derive(Debug)]
pub struct CallContext {
    /// The account that made the call.
    pub predecessor_account_id: String,
    /// The account that signed the transaction.
    pub signer_account_id: String,
    /// The key that signed the transaction.
    pub signer_account_pk: PublicKey,
    /// The account of the agent itself.
    pub current_account_id: String,
    /// What the caller attached to the call.
    pub attached_deposit: u128,
    /// What the agent's account holds, with the attached deposit in it.
    pub account_balance: u128,
}

/// The mathematical value of a [`CallContext`].
#[verifier::ext_equal]
pub struct ContextModel {
    pub predecessor_account_id: Seq<char>,
    pub signer_account_id: Seq<char>,
    pub signer_account_pk: Seq<u8>,
    pub current_account_id: Seq<char>,
    pub attached_deposit: u128,
    pub account_balance: u128,
}

impl View for CallContext {
    type V = ContextModel;

    open spec fn view(&self) -> ContextModel {
        ContextModel {
            predecessor_account_id: self.predecessor_account_id@,
            signer_account_id: self.signer_account_id@,
            signer_account_pk: self.signer_account_pk@,
            current_account_id: self.current_account_id@,
            attached_deposit: self.attached_deposit,
            account_balance: self.account_balance,
        }
    }
}

/// A function call on another contract.
#[derive(Debug)]
pub struct FunctionCall {
    /// The contract that is called.
    pub receiver_id: String,
    /// The name of the function.
    pub method_name: String,
    /// The arguments, as the receiver reads them.
    pub args: Vec<u8>,
    /// The deposit in yoctoNEAR.
    pub deposit: u128,
    /// The gas units that go with the call.
    pub gas: u64,
}

/// The mathematical value of a [`FunctionCall`].
#[verifier::ext_equal]
pub struct CallModel {
    pub receiver_id: Seq<char>,
    pub method_name: Seq<char>,
    pub args: Seq<u8>,
    pub deposit: u128,
    pub gas: nat,
}

impl View for FunctionCall {
    type V = CallModel;

    open spec fn view(&self) -> CallModel {
        CallModel {
            receiver_id: self.receiver_id@,
            method_name: self.method_name@,
            args: self.args@,
            deposit: self.deposit,
            gas: self.gas as nat,
        }
    }
}

/// A function of the agent that is to be called back, with its arguments.
#[derive(Debug)]
pub enum Callback {
    /// `on_execute_trade`
    ExecuteTrade { receiver_id: String, balance_before: u128, attached_deposit: u128 },
    /// `on_sign_cross_chain_payload`
    SignCrossChainPayload,
    /// `on_collect_fees`
    CollectFees { deposit: u128 },
    /// `on_process_fees`
    ProcessFees { old_target: u128 },
}

/// The mathematical value of a [`Callback`].
#[verifier::ext_equal]
pub enum CallbackModel {
    ExecuteTrade { receiver_id: Seq<char>, balance_before: u128, attached_deposit: u128 },
    SignCrossChainPayload,
    CollectFees { deposit: u128 },
    ProcessFees { old_target: u128 },
}

impl View for Callback {
    type V = CallbackModel;

    open spec fn view(&self) -> CallbackModel {
        match self {
            Callback::ExecuteTrade { receiver_id, balance_before, attached_deposit } =>
                CallbackModel::ExecuteTrade {
                    receiver_id: receiver_id@,
                    balance_before: *balance_before,
                    attached_deposit: *attached_deposit,
                },
            Callback::SignCrossChainPayload => CallbackModel::SignCrossChainPayload,
            Callback::CollectFees { deposit } => CallbackModel::CollectFees { deposit: *deposit },
            Callback::ProcessFees { old_target } =>
                CallbackModel::ProcessFees { old_target: *old_target },
        }
    }
}

/// A call of the agent on itself, without a deposit.
#[derive(Debug)]
pub struct SelfCall {
    /// The account of the agent.
    pub receiver_id: String,
    /// The function that is called back.
    pub callback: Callback,
    /// The gas units that go with the call.
    pub gas: u64,
}

/// The mathematical value of a [`SelfCall`].
#[verifier::ext_equal]
pub struct SelfCallModel {
    pub receiver_id: Seq<char>,
    pub callback: CallbackModel,
    pub gas: nat,
}

impl View for SelfCall {
    type V = SelfCallModel;

    open spec fn view(&self) -> SelfCallModel {
        SelfCallModel {
            receiver_id: self.receiver_id@,
            callback: self.callback@,
            gas: self.gas as nat,
        }
    }
}

/// What an accepted call makes the host do: write the log lines, make the calls one after the
/// other, each when the one before it has completed, and then call the agent back.
#[derive(Debug)]
pub struct Plan {
    /// The log lines, in order.
    pub logs: Vec<String>,
    /// The calls on other contracts, in order.
    pub calls: Vec<FunctionCall>,
    /// The call back, with the result of the last call, where the agent wants one.
    pub callback: Option<SelfCall>,
}

/// The mathematical value of a [`Plan`].
#[verifier::ext_equal]
pub struct PlanModel {
    pub logs: Seq<Seq<char>>,
    pub calls: Seq<CallModel>,
    pub callback: Option<SelfCallModel>,
}

/// The texts of log lines.
pub open spec fn log_texts(logs: Seq<String>) -> Seq<Seq<char>> {
    logs.map_values(|line: String| line@)
}

impl View for Plan {
    type V = PlanModel;

    open spec fn view(&self) -> PlanModel {
        PlanModel {
            logs: log_texts(self.logs@),
            calls: self.calls@.map_values(|call: FunctionCall| call@),
            callback: match self.callback {
                Some(callback) => Some(callback@),
                None => None,
            },
        }
    }
}

} // verus!
