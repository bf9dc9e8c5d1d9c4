//! The remote query that one poll cycle sends.

use vstd::prelude::*;
use crate::schema::{GetLogsArgs, RpcServices};
use crate::subscription::EthGetLogs;

verus! {

/// Everything one remote call needs: whom to ask, how many must agree,
/// what to ask, and the budget to pay.
#[derive(Clone, Debug, PartialEq, Eq)]
pub struct PollRequest {
    pub rpc_services: RpcServices,
    pub min_agreement: u64,
    pub args: GetLogsArgs,
    pub cycles: u128,
}

/// Builds the request of one poll cycle from the subscription.
pub fn poll_request(subscription: EthGetLogs) -> (r: PollRequest)
    ensures
        r.rpc_services == subscription.rpc_services,
        r.min_agreement == subscription.min_agreement,
        r.args.addresses@ == seq![subscription.address],
        r.args.from_block == Some(subscription.from_block),
        r.args.to_block == subscription.to_block,
        r.args.topics == subscription.topics,
        r.cycles == subscription.cycles,
{
    let mut addresses: Vec<String> = Vec::new();
    addresses.push(subscription.address);
    PollRequest {
        rpc_services: subscription.rpc_services,
        min_agreement: subscription.min_agreement,
        args: GetLogsArgs {
            addresses,
            from_block: Some(subscription.from_block),
            to_block: subscription.to_block,
            topics: subscription.topics,
        },
        cycles: subscription.cycles,
    }
}

} // verus!
