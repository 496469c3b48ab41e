//! Settlement of inspection rewards.  Ending an inspection pays a fixed
//! reward to the inspector through an external fungible-token service; the
//! bike is released only once that transfer is confirmed.  This module holds
//! the value objects exchanged with the host environment that performs the
//! actual cross-contract call: the action describing the transfer to issue,
//! and the result the host feeds back into the settlement callback.

use vstd::prelude::*;

use crate::decimal::dec_str;

verus! {

/// Where the reward is paid from and how much: the account of the
/// fungible-token contract, and the reward amount per inspection.
pub struct SettlementConfig {
    pub ft_contract_account: String,
    pub reward_amount: u128,
}

/// The value object sent to the token service: pay `amount` (a decimal
/// string) to `receiver_id`, with an optional memo.
#[derive(Debug)]
pub struct TransferRequest {
    pub receiver_id: String,
    pub amount: String,
    pub memo: Option<String>,
}

/// Everything the host must do to settle one inspection return: send
/// `request` to the token contract `ft_contract_account`, and once that call
/// resolves, feed its outcome to `callback_return_bike` for bike
/// `callback_index`.
#[derive(Debug)]
pub struct SettlementAction {
    pub ft_contract_account: String,
    pub request: TransferRequest,
    pub callback_index: usize,
}

/// The resolution of the reward transfer, as reported by the host when it
/// runs the settlement callback.
#[derive(Clone, Copy, Debug, PartialEq, Eq, Structural)]
pub enum SettlementResult {
    /// The host scheduled the callback before the transfer resolved: a
    /// protocol violation, never handed to the callback.
    NotReady,
    /// The transfer failed; the reward was not paid.
    Failed,
    /// The transfer succeeded; the reward was paid.
    Successful,
}

/// What a well-formed settlement action for bike `index`, paying `receiver`
/// under `config`, looks like: the reward amount rendered in decimal, no
/// memo, and the continuation pointed back at the same bike.
pub open spec fn action_matches(
    action: SettlementAction,
    config: SettlementConfig,
    index: int,
    receiver: Seq<char>,
) -> bool {
    &&& action.ft_contract_account@ == config.ft_contract_account@
    &&& action.request.receiver_id@ == receiver
    &&& action.request.amount@ == dec_str(config.reward_amount as nat)
    &&& action.request.memo is None
    &&& action.callback_index == index
}

} // verus!
