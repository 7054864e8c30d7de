//! The gRPC requests that the gateway sends to mobilecoind, as plain values.
//! Each struct names the protobuf message it fills, field for field; where
//! a field holds a message that mobilecoind itself produced (an account key,
//! a public address), the struct is generic in it and carries it unchanged.

use vstd::prelude::*;

verus! {

/// `GetAccountKeyRequest`: derive an account key from root entropy.
#[derive(Clone, Debug, PartialEq, Eq)]
pub struct GetAccountKeyRequest {
    pub entropy: Vec<u8>,
}

/// `AddMonitorRequest`: watch the subaddresses of an account.
#[derive(Clone, Debug, PartialEq, Eq)]
pub struct AddMonitorRequest<K> {
    pub account_key: K,
    pub first_subaddress: u64,
    pub num_subaddresses: u64,
    pub first_block: u64,
}

/// `GetMonitorStatusRequest`.
#[derive(Clone, Debug, PartialEq, Eq)]
pub struct GetMonitorStatusRequest {
    pub monitor_id: Vec<u8>,
}

/// `GetBalanceRequest`.
#[derive(Clone, Debug, PartialEq, Eq)]
pub struct GetBalanceRequest {
    pub monitor_id: Vec<u8>,
    pub subaddress_index: u64,
}

/// `GetPublicAddressRequest`.
#[derive(Clone, Debug, PartialEq, Eq)]
pub struct GetPublicAddressRequest {
    pub monitor_id: Vec<u8>,
    pub subaddress_index: u64,
}

/// `GetRequestCodeRequest`: `value` and `memo` are set only when given.
#[derive(Clone, Debug, PartialEq, Eq)]
pub struct GetRequestCodeRequest<A> {
    pub receiver: A,
    pub value: Option<u64>,
    pub memo: Option<String>,
}

/// `ReadRequestCodeRequest`.
#[derive(Clone, Debug, PartialEq, Eq)]
pub struct ReadRequestCodeRequest {
    pub b58_code: String,
}

/// `Outlay`: an amount for one receiver.
#[derive(Clone, Debug, PartialEq, Eq)]
pub struct Outlay<A> {
    pub receiver: A,
    pub value: u64,
}

/// `SendPaymentRequest`.
#[derive(Clone, Debug, PartialEq, Eq)]
pub struct SendPaymentRequest<A> {
    pub sender_monitor_id: Vec<u8>,
    pub sender_subaddress: u64,
    pub outlay_list: Vec<Outlay<A>>,
}

/// `SenderTxReceipt`: each key image is the raw bytes of a `KeyImage`.
#[derive(Clone, Debug, PartialEq, Eq)]
pub struct SenderTxReceipt {
    pub key_image_list: Vec<Vec<u8>>,
    pub tombstone: u64,
}

/// `GetTxStatusAsSenderRequest`.
#[derive(Clone, Debug, PartialEq, Eq)]
pub struct GetTxStatusAsSenderRequest {
    pub receipt: SenderTxReceipt,
}

/// `ReceiverTxReceipt`: `tx_public_key` is the data of a
/// `CompressedRistretto`.
#[derive(Clone, Debug, PartialEq, Eq)]
pub struct ReceiverTxReceipt {
    pub tx_public_key: Vec<u8>,
    pub tx_out_hash: Vec<u8>,
    pub tombstone: u64,
    pub confirmation_number: Vec<u8>,
}

/// `GetTxStatusAsReceiverRequest`.
#[derive(Clone, Debug, PartialEq, Eq)]
pub struct GetTxStatusAsReceiverRequest {
    pub receipt: ReceiverTxReceipt,
}

/// `GetBlockInfoRequest`.
#[derive(Clone, Debug, PartialEq, Eq)]
pub struct GetBlockInfoRequest {
    pub block: u64,
}

/// `GetBlockRequest`.
#[derive(Clone, Debug, PartialEq, Eq)]
pub struct GetBlockRequest {
    pub block: u64,
}

/// `GetProcessedBlockRequest`.
#[derive(Clone, Debug, PartialEq, Eq)]
pub struct GetProcessedBlockRequest {
    pub monitor_id: Vec<u8>,
    pub block: u64,
}

/// `GetAddressRequestCodeRequest`.
#[derive(Clone, Debug, PartialEq, Eq)]
pub struct GetAddressRequestCodeRequest {
    pub url: String,
}

} // verus!
