//! Why the agent turns a call down.

use vstd::prelude::*;

verus! {

/// The reason for which a call is rejected. A rejected call changes nothing.
#[derive(Clone, Copy, Debug, PartialEq, Eq, Structural)]
pub enum AgentError {
    /// The owner's settings are confirmed with a deposit of one yoctoNEAR.
    OneYoctoRequired,
    /// The caller is not the owner.
    OwnerOnly,
    /// The signer is neither the owner nor the authorized worker, or is the owner where only the
    /// worker may call.
    NotAuthorized,
    /// There is no authorized worker, and the signer is not the owner or only the worker may
    /// call.
    NoWorkerSet,
    /// The circuit breaker halts trading.
    TradingHalted,
    /// The circuit breaker halts the operation.
    BreakerTripped,
    /// The circuit breaker halts the hub.
    HubOffline,
    /// The circuit breaker halts yield farming.
    YieldFarmingHalted,
    /// A swap of nothing.
    NoSwapLiquidity,
    /// The agent does not have what it is told to swap.
    InsufficientSwapBalance,
    /// An intent with nothing behind it.
    NoIntentLiquidity,
    /// The agent does not have what it is told to put behind an intent.
    InsufficientIntentBalance,
    /// A client that attached nothing.
    NoClientLiquidity,
    /// The client's deposit does not exceed the solver fee.
    FeeNotCovered,
    /// A signature request without a fee.
    NoSigningDeposit,
    /// A signature request while another one is pending.
    SigningInFlight,
    /// A fee collection of nothing.
    NoCollectionDeposit,
}

impl AgentError {
    /// The message of an error.
    pub open spec fn text(self) -> Seq<char> {
        match self {
            AgentError::OneYoctoRequired => "Requires exactly 1 yoctoNEAR for security"@,
            AgentError::OwnerOnly => "Access Denied: Owner Only"@,
            AgentError::NotAuthorized =>
                "Authentication failed: Caller is neither the owner nor the authorized TEE worker"@,
            AgentError::NoWorkerSet => "Access denied: No authorized worker has been set"@,
            AgentError::TradingHalted => "Circuit breaker is ACTIVE. Trading halted."@,
            AgentError::BreakerTripped => "Circuit breaker tripped."@,
            AgentError::HubOffline => "Circuit breaker tripped. Hub offline."@,
            AgentError::YieldFarmingHalted => "Circuit breaker tripped. Yield farming halted."@,
            AgentError::NoSwapLiquidity =>
                "No liquidity provided (attach NEAR or specify amount)"@,
            AgentError::InsufficientSwapBalance =>
                "Insufficient internal balance for buffered swap"@,
            AgentError::NoIntentLiquidity => "No liquidity provided for intent"@,
            AgentError::InsufficientIntentBalance => "Insufficient internal balance for intent"@,
            AgentError::NoClientLiquidity => "Intent solving requires attached liquidity."@,
            AgentError::FeeNotCovered => "Deposit must cover solver fee."@,
            AgentError::NoSigningDeposit => "Must attach NEAR for MPC signature fees"@,
            AgentError::SigningInFlight => "MPC signing already in flight"@,
            AgentError::NoCollectionDeposit => "Collection requires deposit"@,
        }
    }

    /// The message that a rejected caller sees.
    pub fn message(&self) -> (message: &'static str)
        ensures
            message@ == self.text(),
    {
        match self {
            AgentError::OneYoctoRequired => "Requires exactly 1 yoctoNEAR for security",
            AgentError::OwnerOnly => "Access Denied: Owner Only",
            AgentError::NotAuthorized =>
                "Authentication failed: Caller is neither the owner nor the authorized TEE worker",
            AgentError::NoWorkerSet => "Access denied: No authorized worker has been set",
            AgentError::TradingHalted => "Circuit breaker is ACTIVE. Trading halted.",
            AgentError::BreakerTripped => "Circuit breaker tripped.",
            AgentError::HubOffline => "Circuit breaker tripped. Hub offline.",
            AgentError::YieldFarmingHalted => "Circuit breaker tripped. Yield farming halted.",
            AgentError::NoSwapLiquidity =>
                "No liquidity provided (attach NEAR or specify amount)",
            AgentError::InsufficientSwapBalance =>
                "Insufficient internal balance for buffered swap",
            AgentError::NoIntentLiquidity => "No liquidity provided for intent",
            AgentError::InsufficientIntentBalance => "Insufficient internal balance for intent",
            AgentError::NoClientLiquidity => "Intent solving requires attached liquidity.",
            AgentError::FeeNotCovered => "Deposit must cover solver fee.",
            AgentError::NoSigningDeposit => "Must attach NEAR for MPC signature fees",
            AgentError::SigningInFlight => "MPC signing already in flight",
            AgentError::NoCollectionDeposit => "Collection requires deposit",
        }
    }
}

} // verus!
