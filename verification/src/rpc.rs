//! The calls the gateway makes to mobilecoind, and the text it answers with
//! when one of them fails.

use vstd::prelude::*;
use vstd::string::StringExecFns;

verus! {

/// One gRPC method of mobilecoind that the gateway calls.
#[derive(Clone, Copy, Debug, PartialEq, Eq, Structural)]
pub enum RpcCall {
    GenerateEntropy,
    GetAccountKey,
    AddMonitor,
    GetMonitorList,
    GetMonitorStatus,
    GetBalance,
    GetPublicAddress,
    GetRequestCode,
    ReadRequestCode,
    SendPayment,
    GetTxStatusAsSender,
    GetTxStatusAsReceiver,
    GetLedgerInfo,
    GetBlockInfo,
    GetBlock,
    GetProcessedBlock,
    GetAddressRequestCode,
}

/// What the answer says before the error of a failed call.  The block-info
/// endpoint reports its failures as ledger-info failures.
pub open spec fn rpc_failure_prefix(call: RpcCall) -> Seq<char> {
    match call {
        RpcCall::GenerateEntropy => "Failed getting entropy: "@,
        RpcCall::GetAccountKey => "Failed getting account key for entropy: "@,
        RpcCall::AddMonitor => "Failed adding monitor: "@,
        RpcCall::GetMonitorList => "Failed getting monitor list: "@,
        RpcCall::GetMonitorStatus => "Failed getting monitor status: "@,
        RpcCall::GetBalance => "Failed getting balance: "@,
        RpcCall::GetPublicAddress => "Failed getting public address: "@,
        RpcCall::GetRequestCode => "Failed getting request code: "@,
        RpcCall::ReadRequestCode => "Failed reading request code: "@,
        RpcCall::SendPayment => "Failed to send payment: "@,
        RpcCall::GetTxStatusAsSender => "Failed getting status: "@,
        RpcCall::GetTxStatusAsReceiver => "Failed getting status: "@,
        RpcCall::GetLedgerInfo => "Failed getting ledger info: "@,
        RpcCall::GetBlockInfo => "Failed getting ledger info: "@,
        RpcCall::GetBlock => "Failed getting block details: "@,
        RpcCall::GetProcessedBlock => "Failed getting processed block: "@,
        RpcCall::GetAddressRequestCode => "Failed address code: "@,
    }
}

/// `prefix` followed by `detail`.
pub(crate) fn prefixed(prefix: &str, detail: &str) -> (res: String)
    ensures
        res@ == prefix@ + detail@,
{
    let mut msg = String::from_str(prefix);
    msg.append(detail);
    msg
}

/// The answer to a failed call: its prefix, then the displayed gRPC error.
pub fn rpc_error(call: RpcCall, detail: &str) -> (res: String)
    ensures
        res@ == rpc_failure_prefix(call) + detail@,
{
    let prefix = match call {
        RpcCall::GenerateEntropy => "Failed getting entropy: ",
        RpcCall::GetAccountKey => "Failed getting account key for entropy: ",
        RpcCall::AddMonitor => "Failed adding monitor: ",
        RpcCall::GetMonitorList => "Failed getting monitor list: ",
        RpcCall::GetMonitorStatus => "Failed getting monitor status: ",
        RpcCall::GetBalance => "Failed getting balance: ",
        RpcCall::GetPublicAddress => "Failed getting public address: ",
        RpcCall::GetRequestCode => "Failed getting request code: ",
        RpcCall::ReadRequestCode => "Failed reading request code: ",
        RpcCall::SendPayment => "Failed to send payment: ",
        RpcCall::GetTxStatusAsSender => "Failed getting status: ",
        RpcCall::GetTxStatusAsReceiver => "Failed getting status: ",
        RpcCall::GetLedgerInfo => "Failed getting ledger info: ",
        RpcCall::GetBlockInfo => "Failed getting ledger info: ",
        RpcCall::GetBlock => "Failed getting block details: ",
        RpcCall::GetProcessedBlock => "Failed getting processed block: ",
        RpcCall::GetAddressRequestCode => "Failed address code: ",
    };
    prefixed(prefix, detail)
}

} // verus!
