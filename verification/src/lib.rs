//! The request-building core of a REST gateway in front of mobilecoind.
//!
//! Each HTTP endpoint of the gateway turns the values it receives (path
//! segments and JSON bodies) into the gRPC request it sends to mobilecoind,
//! or into the error text it answers with.  This crate holds those
//! decisions, with their contracts; the HTTP server and the gRPC client run
//! around it.
//!
//! - `hex_text`: hex text as the gateway receives it (through the `hex`
//!   crate), and the laws of its decoding.
//! - `amount`: decimal amounts read as `u64`.
//! - `requests`: the gRPC requests, as plain values.
//! - `gateway`: one function per endpoint (two where an endpoint sends a
//!   second request built from the answer to the first, and a step function
//!   that orders those calls and stops at the first failure).
//! - `rpc`: the calls made and the text answered when one fails.
//! - `config`: the command line configuration and its defaults.

pub mod amount;
pub mod config;
pub mod gateway;
pub mod hex_text;
pub mod requests;
pub mod rpc;

pub use amount::{amount_error_message, parse_amount, AmountError};
pub use config::Config;
pub use gateway::{
    add_monitor_request, address_request_code, create_monitor_step, request_code_step,
    CreateMonitorAction, CreateMonitorEvent, RequestCodeAction, RequestCodeEvent, balance, block_details, block_info,
    check_receiver_transfer_status, check_transfer_status, create_monitor, monitor_status,
    processed_block, read_request, request_code, request_code_request, transfer,
    JsonAddressRequestCodeRequest, JsonMonitorRequest, JsonReceiverTxReceipt,
    JsonRequestCodeRequest, JsonSenderTxReceipt,
};
pub use hex_text::{decode_hex, hex_error_message, HexError};
pub use requests::{
    AddMonitorRequest, GetAccountKeyRequest, GetAddressRequestCodeRequest, GetBalanceRequest,
    GetBlockInfoRequest, GetBlockRequest, GetMonitorStatusRequest, GetProcessedBlockRequest,
    GetPublicAddressRequest, GetRequestCodeRequest, GetTxStatusAsReceiverRequest,
    GetTxStatusAsSenderRequest, Outlay, ReadRequestCodeRequest, ReceiverTxReceipt,
    SendPaymentRequest, SenderTxReceipt,
};
pub use rpc::{rpc_error, RpcCall};
