//! What each endpoint of the gateway decides: from the path segments and
//! JSON body it receives, the request it sends to mobilecoind, or the error
//! text it answers with before anything is sent.  Endpoints that send a
//! second request, built from the answer to the first, have one function
//! per request.

use vstd::prelude::*;
use vstd::utf8::encode_utf8;

use crate::amount::{amount_error_message, amount_error_text, parse_amount, parse_amount_spec};
use crate::hex_text::{
    decode_hex, hex_decode_spec, hex_error_message, hex_error_text, lemma_hex_round_trip,
    hex_chars_of, lemma_hex_chars_bytes, lower_hex_text, HexError,
};
use crate::rpc::{prefixed, rpc_error, rpc_failure_prefix, RpcCall};
use crate::requests::{
    AddMonitorRequest, GetAccountKeyRequest, GetAddressRequestCodeRequest, GetBalanceRequest,
    GetBlockInfoRequest, GetBlockRequest, GetMonitorStatusRequest, GetProcessedBlockRequest,
    GetPublicAddressRequest, GetRequestCodeRequest, GetTxStatusAsReceiverRequest,
    GetTxStatusAsSenderRequest, Outlay, ReadRequestCodeRequest, ReceiverTxReceipt,
    SendPaymentRequest, SenderTxReceipt,
};

verus! {

/// Body of `POST /monitors`: hex root entropy and the subaddress range.
#[derive(Clone, Debug, PartialEq, Eq)]
pub struct JsonMonitorRequest {
    pub entropy: String,
    pub first_subaddress: u64,
    pub num_subaddresses: u64,
}

/// Body of `POST /monitors/<id>/<index>/request-code`.
#[derive(Clone, Debug, PartialEq, Eq)]
pub struct JsonRequestCodeRequest {
    pub value: Option<u64>,
    pub memo: Option<String>,
}

/// The sender part of a transfer receipt: hex key images and tombstone.
#[derive(Clone, Debug, PartialEq, Eq)]
pub struct JsonSenderTxReceipt {
    pub key_images: Vec<String>,
    pub tombstone: u64,
}

/// The fields of a receiver receipt that the status check reads (all hex
/// but the tombstone block).
#[derive(Clone, Debug, PartialEq, Eq)]
pub struct JsonReceiverTxReceipt {
    pub tx_public_key: String,
    pub tx_out_hash: String,
    pub tombstone: u64,
    pub confirmation_number: String,
}

/// Body of `POST /address-request`.
#[derive(Clone, Debug, PartialEq, Eq)]
pub struct JsonAddressRequestCodeRequest {
    pub url: String,
}

/// Hex text decoded, or the displayed decoding error.
pub open spec fn hex_field(text: Seq<char>) -> Result<Seq<u8>, Seq<char>> {
    match hex_decode_spec(encode_utf8(text)) {
        Ok(bytes) => Ok(bytes),
        Err(e) => Err(hex_error_text(e)),
    }
}

/// Hex text decoded, or the decoding error after `prefix`.
pub open spec fn hex_field_with(prefix: Seq<char>, text: Seq<char>) -> Result<Seq<u8>, Seq<char>> {
    match hex_decode_spec(encode_utf8(text)) {
        Ok(bytes) => Ok(bytes),
        Err(e) => Err(prefix + hex_error_text(e)),
    }
}

/// A monitor id given in the path, decoded.
pub open spec fn monitor_id_of(monitor_hex: Seq<char>) -> Result<Seq<u8>, Seq<char>> {
    hex_field_with("Failed to decode monitor hex: "@, monitor_hex)
}

/// Decodes hex text; on failure the message is the decoding error after
/// `prefix`.
fn decode_hex_or(prefix: &str, text: &str) -> (res: Result<Vec<u8>, String>)
    ensures
        match res {
            Ok(bytes) => hex_field_with(prefix@, text@) == Ok::<Seq<u8>, Seq<char>>(bytes@),
            Err(msg) => hex_field_with(prefix@, text@) == Err::<Seq<u8>, Seq<char>>(msg@),
        },
{
    match decode_hex(text) {
        Ok(bytes) => Ok(bytes),
        Err(e) => {
            let detail = hex_error_message(e);
            Err(prefixed(prefix, detail.as_str()))
        },
    }
}

/// Decodes hex text; on failure the message is the decoding error alone.
fn decode_hex_field(text: &str) -> (res: Result<Vec<u8>, String>)
    ensures
        match res {
            Ok(bytes) => hex_field(text@) == Ok::<Seq<u8>, Seq<char>>(bytes@),
            Err(msg) => hex_field(text@) == Err::<Seq<u8>, Seq<char>>(msg@),
        },
{
    match decode_hex(text) {
        Ok(bytes) => Ok(bytes),
        Err(e) => Err(hex_error_message(e)),
    }
}

/// Decodes a monitor id given in the path.
fn decode_monitor_id(monitor_hex: &str) -> (res: Result<Vec<u8>, String>)
    ensures
        match res {
            Ok(bytes) => monitor_id_of(monitor_hex@) == Ok::<Seq<u8>, Seq<char>>(bytes@),
            Err(msg) => monitor_id_of(monitor_hex@) == Err::<Seq<u8>, Seq<char>>(msg@),
        },
{
    decode_hex_or("Failed to decode monitor hex: ", monitor_hex)
}

/// `POST /monitors`, first request: the account key for the hex entropy.
pub fn create_monitor(monitor: &JsonMonitorRequest) -> (res: Result<GetAccountKeyRequest, String>)
    ensures
        match hex_field_with("Failed to decode hex key: "@, monitor.entropy@) {
            Ok(entropy) => res matches Ok(req) && req.entropy@ == entropy,
            Err(msg) => res matches Err(m) && m@ == msg,
        },
{
    let entropy = decode_hex_or("Failed to decode hex key: ", monitor.entropy.as_str())?;
    Ok(GetAccountKeyRequest { entropy })
}

/// `POST /monitors`, second request: a monitor for the account key that
/// mobilecoind returned, over the requested subaddresses, from block 0.
pub fn add_monitor_request<K>(monitor: &JsonMonitorRequest, account_key: K) -> (res: AddMonitorRequest<K>)
    ensures
        res.account_key == account_key,
        res.first_subaddress == monitor.first_subaddress,
        res.num_subaddresses == monitor.num_subaddresses,
        res.first_block == 0,
{
    AddMonitorRequest {
        account_key,
        first_subaddress: monitor.first_subaddress,
        num_subaddresses: monitor.num_subaddresses,
        first_block: 0,
    }
}

/// `GET /monitors/<monitor_hex>`.
pub fn monitor_status(monitor_hex: &str) -> (res: Result<GetMonitorStatusRequest, String>)
    ensures
        match monitor_id_of(monitor_hex@) {
            Ok(id) => res matches Ok(req) && req.monitor_id@ == id,
            Err(msg) => res matches Err(m) && m@ == msg,
        },
{
    let monitor_id = decode_monitor_id(monitor_hex)?;
    Ok(GetMonitorStatusRequest { monitor_id })
}

/// `GET /monitors/<monitor_hex>/<subaddress_index>/balance`.
pub fn balance(monitor_hex: &str, subaddress_index: u64) -> (res: Result<GetBalanceRequest, String>)
    ensures
        match monitor_id_of(monitor_hex@) {
            Ok(id) => res matches Ok(req) && req.monitor_id@ == id && req.subaddress_index
                == subaddress_index,
            Err(msg) => res matches Err(m) && m@ == msg,
        },
{
    let monitor_id = decode_monitor_id(monitor_hex)?;
    Ok(GetBalanceRequest { monitor_id, subaddress_index })
}

/// `POST /monitors/<monitor_hex>/<subaddress_index>/request-code`, first
/// request: the public address of the subaddress.
pub fn request_code(monitor_hex: &str, subaddress_index: u64) -> (res: Result<
    GetPublicAddressRequest,
    String,
>)
    ensures
        match monitor_id_of(monitor_hex@) {
            Ok(id) => res matches Ok(req) && req.monitor_id@ == id && req.subaddress_index
                == subaddress_index,
            Err(msg) => res matches Err(m) && m@ == msg,
        },
{
    let monitor_id = decode_monitor_id(monitor_hex)?;
    Ok(GetPublicAddressRequest { monitor_id, subaddress_index })
}

/// `POST .../request-code`, second request: a request code for the public
/// address that mobilecoind returned, with the value and memo of the body
/// where they are given.
pub fn request_code_request<A>(receiver: A, extra: &JsonRequestCodeRequest) -> (res:
    GetRequestCodeRequest<A>)
    ensures
        res.receiver == receiver,
        res.value == extra.value,
        res.memo == extra.memo,
{
    GetRequestCodeRequest { receiver, value: extra.value, memo: extra.memo.clone() }
}

/// What happens next while `POST /monitors` is answered: the outcome the
/// exchange starts with, or the answer to the call just made.
pub enum CreateMonitorEvent<K, R> {
    Start,
    /// The answer to `GetAccountKey`: the account key, or the displayed error.
    AccountKeyAnswer(Result<K, String>),
    /// The answer to `AddMonitor`, or the displayed error.
    AddMonitorAnswer(Result<R, String>),
}

/// What the gateway does next for `POST /monitors`: make one of its two
/// calls, or answer (with the monitor, or with an error, after which no
/// call follows).
pub enum CreateMonitorAction<K, R> {
    GetAccountKey(GetAccountKeyRequest),
    AddMonitor(AddMonitorRequest<K>),
    Reply(R),
    Fail(String),
}

/// `POST /monitors` as a sequence of steps: first `GetAccountKey` for the
/// decoded entropy, then, on its answer, `AddMonitor` for the key; a bad
/// body or a failed call ends the exchange with its error text.
pub fn create_monitor_step<K, R>(monitor: &JsonMonitorRequest, event: CreateMonitorEvent<K, R>) -> (action: CreateMonitorAction<K, R>)
    ensures
        match event {
            CreateMonitorEvent::Start => match hex_field_with(
                "Failed to decode hex key: "@,
                monitor.entropy@,
            ) {
                Ok(entropy) => action matches CreateMonitorAction::GetAccountKey(req)
                    && req.entropy@ == entropy,
                Err(msg) => action matches CreateMonitorAction::Fail(m) && m@ == msg,
            },
            CreateMonitorEvent::AccountKeyAnswer(Ok(key)) => action matches CreateMonitorAction::AddMonitor(req) && {
                &&& req.account_key == key
                &&& req.first_subaddress == monitor.first_subaddress
                &&& req.num_subaddresses == monitor.num_subaddresses
                &&& req.first_block == 0
            },
            CreateMonitorEvent::AccountKeyAnswer(Err(e)) => action matches CreateMonitorAction::Fail(m)
                && m@ == rpc_failure_prefix(RpcCall::GetAccountKey) + e@,
            CreateMonitorEvent::AddMonitorAnswer(Ok(r)) => action matches CreateMonitorAction::Reply(x)
                && x == r,
            CreateMonitorEvent::AddMonitorAnswer(Err(e)) => action matches CreateMonitorAction::Fail(m)
                && m@ == rpc_failure_prefix(RpcCall::AddMonitor) + e@,
        },
{
    match event {
        CreateMonitorEvent::Start => match create_monitor(monitor) {
            Ok(req) => CreateMonitorAction::GetAccountKey(req),
            Err(msg) => CreateMonitorAction::Fail(msg),
        },
        CreateMonitorEvent::AccountKeyAnswer(Ok(key)) => CreateMonitorAction::AddMonitor(
            add_monitor_request(monitor, key),
        ),
        CreateMonitorEvent::AccountKeyAnswer(Err(e)) => CreateMonitorAction::Fail(
            rpc_error(RpcCall::GetAccountKey, e.as_str()),
        ),
        CreateMonitorEvent::AddMonitorAnswer(Ok(r)) => CreateMonitorAction::Reply(r),
        CreateMonitorEvent::AddMonitorAnswer(Err(e)) => CreateMonitorAction::Fail(
            rpc_error(RpcCall::AddMonitor, e.as_str()),
        ),
    }
}

/// What happens next while a request code is answered.
pub enum RequestCodeEvent<A, R> {
    Start,
    /// The answer to `GetPublicAddress`: the address, or the displayed error.
    PublicAddressAnswer(Result<A, String>),
    /// The answer to `GetRequestCode`, or the displayed error.
    RequestCodeAnswer(Result<R, String>),
}

/// What the gateway does next for a request code.
pub enum RequestCodeAction<A, R> {
    GetPublicAddress(GetPublicAddressRequest),
    GetRequestCode(GetRequestCodeRequest<A>),
    Reply(R),
    Fail(String),
}

/// `POST /monitors/<monitor_hex>/<subaddress_index>/request-code` as a
/// sequence of steps: first `GetPublicAddress` for the decoded monitor and
/// subaddress, then, on its answer, `GetRequestCode` for the address with the
/// value and memo of the body; a bad monitor id or a failed call ends the
/// exchange with its error text.
pub fn request_code_step<A, R>(
    monitor_hex: &str,
    subaddress_index: u64,
    extra: &JsonRequestCodeRequest,
    event: RequestCodeEvent<A, R>,
) -> (action: RequestCodeAction<A, R>)
    ensures
        match event {
            RequestCodeEvent::Start => match monitor_id_of(monitor_hex@) {
                Ok(id) => action matches RequestCodeAction::GetPublicAddress(req)
                    && req.monitor_id@ == id && req.subaddress_index == subaddress_index,
                Err(msg) => action matches RequestCodeAction::Fail(m) && m@ == msg,
            },
            RequestCodeEvent::PublicAddressAnswer(Ok(address)) => action matches RequestCodeAction::GetRequestCode(req) && {
                &&& req.receiver == address
                &&& req.value == extra.value
                &&& req.memo == extra.memo
            },
            RequestCodeEvent::PublicAddressAnswer(Err(e)) => action matches RequestCodeAction::Fail(m)
                && m@ == rpc_failure_prefix(RpcCall::GetPublicAddress) + e@,
            RequestCodeEvent::RequestCodeAnswer(Ok(r)) => action matches RequestCodeAction::Reply(x)
                && x == r,
            RequestCodeEvent::RequestCodeAnswer(Err(e)) => action matches RequestCodeAction::Fail(m)
                && m@ == rpc_failure_prefix(RpcCall::GetRequestCode) + e@,
        },
{
    match event {
        RequestCodeEvent::Start => match request_code(monitor_hex, subaddress_index) {
            Ok(req) => RequestCodeAction::GetPublicAddress(req),
            Err(msg) => RequestCodeAction::Fail(msg),
        },
        RequestCodeEvent::PublicAddressAnswer(Ok(address)) => RequestCodeAction::GetRequestCode(
            request_code_request(address, extra),
        ),
        RequestCodeEvent::PublicAddressAnswer(Err(e)) => RequestCodeAction::Fail(
            rpc_error(RpcCall::GetPublicAddress, e.as_str()),
        ),
        RequestCodeEvent::RequestCodeAnswer(Ok(r)) => RequestCodeAction::Reply(r),
        RequestCodeEvent::RequestCodeAnswer(Err(e)) => RequestCodeAction::Fail(
            rpc_error(RpcCall::GetRequestCode, e.as_str()),
        ),
    }
}

/// `GET /read-request/<request_code>`.
pub fn read_request(request_code: String) -> (res: ReadRequestCodeRequest)
    ensures
        res.b58_code == request_code,
{
    ReadRequestCodeRequest { b58_code: request_code }
}

/// `POST /monitors/<monitor_hex>/<subaddress_index>/transfer`: one outlay of
/// the given amount to the receiver.  `receiver` is the outcome of turning
/// the receiver of the body into a public address.  The monitor id is
/// checked first, then the receiver, then the amount.
pub fn transfer<A>(monitor_hex: &str, subaddress_index: u64, receiver: Result<A, String>, value: &str) -> (res: Result<SendPaymentRequest<A>, String>)
    ensures
        match monitor_id_of(monitor_hex@) {
            Err(msg) => res matches Err(m) && m@ == msg,
            Ok(id) => match receiver {
                Err(r) => res matches Err(m) && m@ == r@,
                Ok(a) => match parse_amount_spec(encode_utf8(value@)) {
                    Err(e) => res matches Err(m) && m@ == "Failed to parse amount: "@
                        + amount_error_text(e),
                    Ok(v) => res matches Ok(req) && {
                        &&& req.sender_monitor_id@ == id
                        &&& req.sender_subaddress == subaddress_index
                        &&& req.outlay_list@.len() == 1
                        &&& req.outlay_list@[0].receiver == a
                        &&& req.outlay_list@[0].value == v
                    },
                },
            },
        },
{
    let sender_monitor_id = decode_monitor_id(monitor_hex)?;
    let receiver = receiver?;
    let amount = match parse_amount(value) {
        Ok(v) => v,
        Err(e) => {
            let detail = amount_error_message(e);
            return Err(prefixed("Failed to parse amount: ", detail.as_str()));
        },
    };
    let mut outlay_list = Vec::new();
    outlay_list.push(Outlay { receiver, value: amount });
    Ok(SendPaymentRequest { sender_monitor_id, sender_subaddress: subaddress_index, outlay_list })
}

/// The key images of a sender receipt decoded in order, up to the first
/// that fails.
pub open spec fn decode_key_images(images: Seq<Seq<char>>) -> Result<Seq<Seq<u8>>, HexError>
    decreases images.len(),
{
    if images.len() == 0 {
        Ok(Seq::empty())
    } else {
        match decode_key_images(images.drop_last()) {
            Err(e) => Err(e),
            Ok(done) => match hex_decode_spec(encode_utf8(images.last())) {
                Err(e) => Err(e),
                Ok(bytes) => Ok(done.push(bytes)),
            },
        }
    }
}

proof fn lemma_key_images_prefix_error(images: Seq<Seq<char>>, k: int)
    requires
        0 <= k <= images.len(),
        decode_key_images(images.take(k)) is Err,
    ensures
        decode_key_images(images) == decode_key_images(images.take(k)),
    decreases images.len(),
{
    if k == images.len() {
        assert(images.take(k) =~= images);
    } else {
        assert(images.drop_last().take(k) =~= images.take(k));
        lemma_key_images_prefix_error(images.drop_last(), k);
    }
}

/// `POST /check-transfer-status`: the status of a transfer as its sender
/// sees it, from the key images and tombstone of the receipt.
pub fn check_transfer_status(receipt: &JsonSenderTxReceipt) -> (res: Result<
    GetTxStatusAsSenderRequest,
    String,
>)
    ensures
        match decode_key_images(receipt.key_images@.map_values(|s: String| s@)) {
            Ok(images) => res matches Ok(req) && req.receipt.key_image_list@.map_values(|b: Vec<u8>| b@) == images
                && req.receipt.tombstone == receipt.tombstone,
            Err(e) => res matches Err(m) && m@ == hex_error_text(e),
        },
{
    let ghost images = receipt.key_images@.map_values(|s: String| s@);
    let n = receipt.key_images.len();
    let mut key_image_list: Vec<Vec<u8>> = Vec::new();
    let mut i: usize = 0;
    assert(images.take(0) =~= Seq::<Seq<char>>::empty());
    assert(key_image_list@.map_values(|b: Vec<u8>| b@) =~= Seq::<Seq<u8>>::empty());
    while i < n
        invariant
            n == receipt.key_images@.len(),
            images == receipt.key_images@.map_values(|s: String| s@),
            i <= n,
            decode_key_images(images.take(i as int)) == Ok::<Seq<Seq<u8>>, HexError>(
                key_image_list@.map_values(|b: Vec<u8>| b@),
            ),
        decreases n - i,
    {
        assert(images.take(i + 1).drop_last() =~= images.take(i as int));
        assert(images.take(i + 1).last() == receipt.key_images@[i as int]@);
        match decode_hex(receipt.key_images[i].as_str()) {
            Ok(bytes) => {
                let ghost before = key_image_list@.map_values(|b: Vec<u8>| b@);
                let ghost decoded = bytes@;
                key_image_list.push(bytes);
                assert(key_image_list@.map_values(|b: Vec<u8>| b@) =~= before.push(decoded));
            },
            Err(e) => {
                proof {
                    lemma_key_images_prefix_error(images, i + 1);
                }
                return Err(hex_error_message(e));
            },
        }
        i = i + 1;
    }
    assert(images.take(n as int) =~= images);
    Ok(GetTxStatusAsSenderRequest {
        receipt: SenderTxReceipt { key_image_list, tombstone: receipt.tombstone },
    })
}

/// `POST /check-receiver-transfer-status`: the status of a transfer as a
/// receiver sees it.  The public key, the output hash and the confirmation
/// number are decoded in that order.
pub fn check_receiver_transfer_status(receipt: &JsonReceiverTxReceipt) -> (res: Result<
    GetTxStatusAsReceiverRequest,
    String,
>)
    ensures
        match hex_field(receipt.tx_public_key@) {
            Err(msg) => res matches Err(m) && m@ == msg,
            Ok(key) => match hex_field(receipt.tx_out_hash@) {
                Err(msg) => res matches Err(m) && m@ == msg,
                Ok(hash) => match hex_field(receipt.confirmation_number@) {
                    Err(msg) => res matches Err(m) && m@ == msg,
                    Ok(confirmation) => res matches Ok(req) && {
                        &&& req.receipt.tx_public_key@ == key
                        &&& req.receipt.tx_out_hash@ == hash
                        &&& req.receipt.tombstone == receipt.tombstone
                        &&& req.receipt.confirmation_number@ == confirmation
                    },
                },
            },
        },
{
    let tx_public_key = decode_hex_field(receipt.tx_public_key.as_str())?;
    let tx_out_hash = decode_hex_field(receipt.tx_out_hash.as_str())?;
    let confirmation_number = decode_hex_field(receipt.confirmation_number.as_str())?;
    Ok(GetTxStatusAsReceiverRequest {
        receipt: ReceiverTxReceipt {
            tx_public_key,
            tx_out_hash,
            tombstone: receipt.tombstone,
            confirmation_number,
        },
    })
}

/// `GET /block-info/<block_num>`.
pub fn block_info(block_num: u64) -> (res: GetBlockInfoRequest)
    ensures
        res.block == block_num,
{
    GetBlockInfoRequest { block: block_num }
}

/// `GET /block-details/<block_num>`.
pub fn block_details(block_num: u64) -> (res: GetBlockRequest)
    ensures
        res.block == block_num,
{
    GetBlockRequest { block: block_num }
}

/// `GET /processed-block/<monitor_hex>/<block_num>`.
pub fn processed_block(monitor_hex: &str, block_num: u64) -> (res: Result<
    GetProcessedBlockRequest,
    String,
>)
    ensures
        match monitor_id_of(monitor_hex@) {
            Ok(id) => res matches Ok(req) && req.monitor_id@ == id && req.block == block_num,
            Err(msg) => res matches Err(m) && m@ == msg,
        },
{
    let monitor_id = decode_monitor_id(monitor_hex)?;
    Ok(GetProcessedBlockRequest { monitor_id, block: block_num })
}

/// `POST /address-request`.
pub fn address_request_code(address_request: &JsonAddressRequestCodeRequest) -> (res:
    GetAddressRequestCodeRequest)
    ensures
        res.url@ == address_request.url@,
{
    GetAddressRequestCodeRequest { url: address_request.url.clone() }
}

/// Law: a sender receipt whose key images are the hex text of some byte
/// strings, in lower case (the form in which a transfer's receipt carries
/// them) or in upper case, decodes to exactly those byte strings, in the
/// same order.
pub proof fn lemma_key_images_round_trip(keys: Seq<Seq<u8>>)
    ensures
        decode_key_images(keys.map_values(|k: Seq<u8>| lower_hex_text(k))) == Ok::<
            Seq<Seq<u8>>,
            HexError,
        >(keys),
        decode_key_images(keys.map_values(|k: Seq<u8>| hex_chars_of(k, true))) == Ok::<
            Seq<Seq<u8>>,
            HexError,
        >(keys),
{
    lemma_key_images_round_trip_in_case(keys, false);
    lemma_key_images_round_trip_in_case(keys, true);
    assert(keys.map_values(|k: Seq<u8>| lower_hex_text(k)) =~= keys.map_values(
        |k: Seq<u8>| hex_chars_of(k, false),
    ));
}

proof fn lemma_key_images_round_trip_in_case(keys: Seq<Seq<u8>>, upper: bool)
    ensures
        decode_key_images(keys.map_values(|k: Seq<u8>| hex_chars_of(k, upper))) == Ok::<
            Seq<Seq<u8>>,
            HexError,
        >(keys),
    decreases keys.len(),
{
    let images = keys.map_values(|k: Seq<u8>| hex_chars_of(k, upper));
    if keys.len() == 0 {
        assert(images =~= Seq::<Seq<char>>::empty());
        assert(keys =~= Seq::<Seq<u8>>::empty());
    } else {
        lemma_key_images_round_trip_in_case(keys.drop_last(), upper);
        assert(images.drop_last() =~= keys.drop_last().map_values(
            |k: Seq<u8>| hex_chars_of(k, upper),
        ));
        lemma_hex_chars_bytes(keys.last(), upper);
        lemma_hex_round_trip(keys.last(), upper);
        assert(keys.drop_last().push(keys.last()) =~= keys);
    }
}

/// Law: the key images of a sender receipt are decoded one by one exactly as
/// hex decoding does.  When every image decodes, the result lists the
/// decoded images in order; when the result is an error, it is the error of
/// an image whose predecessors all decode; and a successful result has one
/// entry per image, each the decoding of that image.
pub proof fn lemma_key_images_agree(images: Seq<Seq<char>>)
    ensures
        (forall|i: int| 0 <= i < images.len() ==> #[trigger] hex_decode_spec(encode_utf8(images[i])) is Ok)
            ==> decode_key_images(images) == Ok::<Seq<Seq<u8>>, HexError>(
            Seq::new(images.len(), |i: int| hex_decode_spec(encode_utf8(images[i]))->Ok_0),
        ),
        decode_key_images(images) matches Ok(keys) ==> {
            &&& keys.len() == images.len()
            &&& forall|i: int| 0 <= i < images.len() ==> hex_decode_spec(encode_utf8(images[i]))
                == Ok::<Seq<u8>, HexError>(#[trigger] keys[i])
        },
        decode_key_images(images) matches Err(e) ==> exists|k: int| {
            &&& 0 <= k < images.len()
            &&& #[trigger] hex_decode_spec(encode_utf8(images[k])) == Err::<Seq<u8>, HexError>(e)
            &&& forall|j: int| 0 <= j < k ==> #[trigger] hex_decode_spec(encode_utf8(images[j])) is Ok
        },
    decreases images.len(),
{
    if images.len() > 0 {
        let front = images.drop_last();
        lemma_key_images_agree(front);
        let last = hex_decode_spec(encode_utf8(images.last()));
        assert forall|i: int| 0 <= i < front.len() implies front[i] == images[i] by {}
        if forall|i: int| 0 <= i < images.len() ==> #[trigger] hex_decode_spec(encode_utf8(images[i])) is Ok {
            assert(forall|i: int| 0 <= i < front.len() ==> #[trigger] hex_decode_spec(encode_utf8(front[i])) is Ok) by {
                assert forall|i: int| 0 <= i < front.len() implies #[trigger] hex_decode_spec(encode_utf8(front[i])) is Ok by {
                    assert(front[i] == images[i]);
                    assert(hex_decode_spec(encode_utf8(images[i])) is Ok);
                }
            }
            assert(hex_decode_spec(encode_utf8(images[images.len() - 1])) is Ok);
            let whole = Seq::new(images.len(), |i: int| hex_decode_spec(encode_utf8(images[i]))->Ok_0);
            let part = Seq::new(front.len(), |i: int| hex_decode_spec(encode_utf8(front[i]))->Ok_0);
            assert(part.push(last->Ok_0) =~= whole);
        }
        match decode_key_images(front) {
            Ok(keys) => {
                match last {
                    Ok(b) => {
                        let all = keys.push(b);
                        assert forall|i: int| 0 <= i < images.len() implies hex_decode_spec(encode_utf8(images[i]))
                            == Ok::<Seq<u8>, HexError>(#[trigger] all[i]) by {
                            if i < front.len() {
                                assert(hex_decode_spec(encode_utf8(front[i])) == Ok::<Seq<u8>, HexError>(keys[i]));
                            }
                        }
                    },
                    Err(e) => {
                        let k = images.len() - 1;
                        assert forall|j: int| 0 <= j < k implies #[trigger] hex_decode_spec(encode_utf8(images[j])) is Ok by {
                            assert(front[j] == images[j]);
                            assert(hex_decode_spec(encode_utf8(front[j])) == Ok::<Seq<u8>, HexError>(keys[j]));
                        }
                        assert(hex_decode_spec(encode_utf8(images[k])) == Err::<Seq<u8>, HexError>(e));
                    },
                }
            },
            Err(e) => {
                let k = choose|k: int| {
                    &&& 0 <= k < front.len()
                    &&& #[trigger] hex_decode_spec(encode_utf8(front[k])) == Err::<Seq<u8>, HexError>(e)
                    &&& forall|j: int| 0 <= j < k ==> #[trigger] hex_decode_spec(encode_utf8(front[j])) is Ok
                };
                assert(front[k] == images[k]);
                assert forall|j: int| 0 <= j < k implies #[trigger] hex_decode_spec(encode_utf8(images[j])) is Ok by {
                    assert(front[j] == images[j]);
                    assert(hex_decode_spec(encode_utf8(front[j])) is Ok);
                }
                assert(hex_decode_spec(encode_utf8(images[k])) == Err::<Seq<u8>, HexError>(e));
            },
        }
    } else {
        assert(Seq::new(images.len(), |i: int| hex_decode_spec(encode_utf8(images[i]))->Ok_0) =~= Seq::<Seq<u8>>::empty());
    }
}

/// Law: every hex field of a request, with or without a message prefix, and
/// every monitor id, decodes exactly as hex decoding does: the bytes when the
/// text decodes, otherwise the displayed decoding error (after the prefix).
pub proof fn lemma_hex_fields_agree(prefix: Seq<char>, text: Seq<char>)
    ensures
        match hex_decode_spec(encode_utf8(text)) {
            Ok(b) => {
                &&& hex_field(text) == Ok::<Seq<u8>, Seq<char>>(b)
                &&& hex_field_with(prefix, text) == Ok::<Seq<u8>, Seq<char>>(b)
                &&& monitor_id_of(text) == Ok::<Seq<u8>, Seq<char>>(b)
            },
            Err(e) => {
                &&& hex_field(text) == Err::<Seq<u8>, Seq<char>>(hex_error_text(e))
                &&& hex_field_with(prefix, text) == Err::<Seq<u8>, Seq<char>>(prefix + hex_error_text(e))
                &&& monitor_id_of(text) == Err::<Seq<u8>, Seq<char>>(
                    "Failed to decode monitor hex: "@ + hex_error_text(e),
                )
            },
        },
{
}

/// Law: hex text of any bytes, in lower case (the form the gateway's answers
/// use) or in upper case, is accepted by every hex field of a request and by
/// every monitor id, and gives back the bytes; so the ids, hashes, keys and
/// confirmation numbers that one answer carries can be sent back in a later
/// request, and hex case does not matter.
pub proof fn lemma_hex_field_round_trip(prefix: Seq<char>, b: Seq<u8>)
    ensures
        hex_field(lower_hex_text(b)) == Ok::<Seq<u8>, Seq<char>>(b),
        hex_field_with(prefix, lower_hex_text(b)) == Ok::<Seq<u8>, Seq<char>>(b),
        monitor_id_of(lower_hex_text(b)) == Ok::<Seq<u8>, Seq<char>>(b),
        hex_field(hex_chars_of(b, true)) == Ok::<Seq<u8>, Seq<char>>(b),
        hex_field_with(prefix, hex_chars_of(b, true)) == Ok::<Seq<u8>, Seq<char>>(b),
        monitor_id_of(hex_chars_of(b, true)) == Ok::<Seq<u8>, Seq<char>>(b),
{
    lemma_hex_chars_bytes(b, false);
    lemma_hex_round_trip(b, false);
    lemma_hex_chars_bytes(b, true);
    lemma_hex_round_trip(b, true);
}

} // verus!
