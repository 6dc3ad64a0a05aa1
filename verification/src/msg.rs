use vstd::prelude::*;

verus! {

/// Parameters of ledger initialization: the identity of the token currency
/// the new ledger accepts. The initializing caller becomes the administrator.
#[derive(Clone, Debug)]
pub struct InstantiateMsg {
    pub currency: String,
}

/// The request embedded in a token-transfer notification.
#[derive(Clone, Debug)]
pub enum ReceiveMsg {
    /// Credit the received tokens to the named account.
    Deposit { account: String },
}

/// A token-transfer notification forwarded by the currency's token system:
/// the original depositor, the token amount, and the embedded request.
#[derive(Clone, Debug)]
pub struct ReceiveEnvelope {
    /// The identity that sent the tokens to the token system.
    pub sender: String,
    /// The amount of tokens received.
    pub amount: u128,
    /// The decoded embedded request.
    pub msg: ReceiveMsg,
}

/// A mutating request, classified into one of the five operations.
#[derive(Clone, Debug)]
pub enum ExecuteMsg {
    /// Create a new account with a zero balance.
    CreateAccount { account_name: String },
    /// React to received tokens of the configured currency.
    Receive(ReceiveEnvelope),
    /// Withdraw funds from an account back to its owner.
    Withdraw { account: String, amount: u128 },
    /// Transfer funds from one account to another.
    Transfer { from: String, to: String, amount: u128 },
    /// Replace the configured currency. The field holds the host-validated
    /// identity, or `None` where the host rejected the reference.
    ChangeCurrency { currency: Option<String> },
}

/// A read-only request.
#[derive(Clone, Debug)]
pub enum QueryMsg {
    /// The ordered account names an identity owns.
    GetAccount { address: String },
    /// The balance of a named account.
    GetBalance { account: String },
}

/// Answer to [`QueryMsg::GetAccount`].
#[derive(Clone, Debug)]
pub struct AccountResponse {
    pub account: Vec<String>,
}

/// Answer to [`QueryMsg::GetBalance`].
#[derive(Clone, Debug)]
pub struct BalanceResponse {
    pub balance: u128,
}

/// Answer of the query dispatcher.
#[derive(Clone, Debug)]
pub enum QueryAnswer {
    Account(AccountResponse),
    Balance(BalanceResponse),
}

/// The outbound instruction a withdrawal produces: it directs the `currency`
/// token system to transfer `amount` to `recipient`. It is handed to the host
/// for execution only after the transition that produced it commits.
#[derive(Clone, Debug)]
pub struct TransferInstruction {
    pub currency: String,
    pub recipient: String,
    pub amount: u128,
}

/// The event record of a successful operation — the attributes the host logs
/// — plus, for a withdrawal, the outbound token-transfer instruction.
#[derive(Clone, Debug)]
pub enum Outcome {
    Instantiated { owner: String, currency: String },
    Created { owner: String, address: String },
    Deposited { owner: String, address: String, amount: u128 },
    Withdrawn { owner: String, address: String, amount: u128, instruction: TransferInstruction },
    Transferred { owner: String, from: String, to: String, amount: u128, fee: u128 },
    CurrencyChanged { owner: String, currency: String },
}

} // verus!
