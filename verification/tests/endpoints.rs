use mobilecoind_json::{
    add_monitor_request, address_request_code, balance, block_details, block_info,
    check_receiver_transfer_status, check_transfer_status, create_monitor, monitor_status,
    processed_block, read_request, request_code, request_code_request, rpc_error, transfer,
    Config, JsonAddressRequestCodeRequest, JsonMonitorRequest, JsonReceiverTxReceipt,
    JsonRequestCodeRequest, JsonSenderTxReceipt, RpcCall,
};

fn monitor_body(entropy: &str) -> JsonMonitorRequest {
    JsonMonitorRequest { entropy: entropy.to_string(), first_subaddress: 3, num_subaddresses: 10 }
}

#[test]
fn create_monitor_decodes_entropy() {
    let req = create_monitor(&monitor_body("00ff10")).unwrap();
    assert_eq!(req.entropy, vec![0x00, 0xff, 0x10]);
}

#[test]
fn create_monitor_bad_entropy() {
    assert_eq!(
        create_monitor(&monitor_body("abc")).unwrap_err(),
        "Failed to decode hex key: Odd number of digits"
    );
    assert_eq!(
        create_monitor(&monitor_body("zz")).unwrap_err(),
        "Failed to decode hex key: Invalid character 'z' at position 0"
    );
}

#[test]
fn add_monitor_starts_at_block_zero() {
    let req = add_monitor_request(&monitor_body("00"), "account key");
    assert_eq!(req.account_key, "account key");
    assert_eq!(req.first_subaddress, 3);
    assert_eq!(req.num_subaddresses, 10);
    assert_eq!(req.first_block, 0);
}

#[test]
fn monitor_status_and_balance() {
    assert_eq!(monitor_status("0a0b").unwrap().monitor_id, vec![10, 11]);
    let req = balance("0A0B", 4).unwrap();
    assert_eq!(req.monitor_id, vec![10, 11]);
    assert_eq!(req.subaddress_index, 4);
    assert_eq!(
        balance("0a0", 4).unwrap_err(),
        "Failed to decode monitor hex: Odd number of digits"
    );
    assert_eq!(
        monitor_status("0x").unwrap_err(),
        "Failed to decode monitor hex: Invalid character 'x' at position 1"
    );
}

#[test]
fn monitor_id_from_listing_round_trip() {
    let id: Vec<u8> = (0u8..32).map(|i| i.wrapping_mul(37)).collect();
    let text = hex::encode(&id);
    assert_eq!(processed_block(&text, 9).unwrap().monitor_id, id);
}

#[test]
fn request_code_two_steps() {
    let first = request_code("ff", 2).unwrap();
    assert_eq!(first.monitor_id, vec![0xff]);
    assert_eq!(first.subaddress_index, 2);
    let extra = JsonRequestCodeRequest { value: Some(5), memo: Some("hi".to_string()) };
    let second = request_code_request(7u32, &extra);
    assert_eq!(second.receiver, 7);
    assert_eq!(second.value, Some(5));
    assert_eq!(second.memo, Some("hi".to_string()));
    let empty = JsonRequestCodeRequest { value: None, memo: None };
    let third = request_code_request(7u32, &empty);
    assert_eq!(third.value, None);
    assert_eq!(third.memo, None);
    assert_eq!(request_code("f", 2).unwrap_err(), "Failed to decode monitor hex: Odd number of digits");
}

#[test]
fn read_request_passes_the_code() {
    assert_eq!(read_request("abc58".to_string()).b58_code, "abc58");
}

#[test]
fn transfer_builds_one_outlay() {
    let req = transfer("0102", 6, Ok::<&str, String>("receiver"), "250").unwrap();
    assert_eq!(req.sender_monitor_id, vec![1, 2]);
    assert_eq!(req.sender_subaddress, 6);
    assert_eq!(req.outlay_list.len(), 1);
    assert_eq!(req.outlay_list[0].receiver, "receiver");
    assert_eq!(req.outlay_list[0].value, 250);
}

#[test]
fn transfer_errors_in_order() {
    assert_eq!(
        transfer("012", 6, Err::<&str, String>("bad receiver".to_string()), "x").unwrap_err(),
        "Failed to decode monitor hex: Odd number of digits"
    );
    assert_eq!(
        transfer("01", 6, Err::<&str, String>("bad receiver".to_string()), "x").unwrap_err(),
        "bad receiver"
    );
    assert_eq!(
        transfer("01", 6, Ok::<&str, String>("r"), "12x").unwrap_err(),
        "Failed to parse amount: invalid digit found in string"
    );
    assert_eq!(
        transfer("01", 6, Ok::<&str, String>("r"), "").unwrap_err(),
        "Failed to parse amount: cannot parse integer from empty string"
    );
    assert_eq!(
        transfer("01", 6, Ok::<&str, String>("r"), "18446744073709551616").unwrap_err(),
        "Failed to parse amount: number too large to fit in target type"
    );
}

#[test]
fn transfer_accepts_displayed_amount() {
    let v: u64 = 18_000_000_000_123;
    let req = transfer("aa", 0, Ok::<u8, String>(1), &v.to_string()).unwrap();
    assert_eq!(req.outlay_list[0].value, v);
}

#[test]
fn check_transfer_status_decodes_key_images() {
    let receipt = JsonSenderTxReceipt {
        key_images: vec!["0001".to_string(), hex::encode([9u8; 32])],
        tombstone: 77,
    };
    let req = check_transfer_status(&receipt).unwrap();
    assert_eq!(req.receipt.key_image_list, vec![vec![0, 1], vec![9u8; 32]]);
    assert_eq!(req.receipt.tombstone, 77);
    let none = JsonSenderTxReceipt { key_images: vec![], tombstone: 1 };
    assert_eq!(check_transfer_status(&none).unwrap().receipt.key_image_list, Vec::<Vec<u8>>::new());
}

#[test]
fn check_transfer_status_stops_at_first_bad_image() {
    let receipt = JsonSenderTxReceipt {
        key_images: vec!["00".to_string(), "0q".to_string(), "1".to_string()],
        tombstone: 77,
    };
    assert_eq!(check_transfer_status(&receipt).unwrap_err(), "Invalid character 'q' at position 1");
}

fn receiver_receipt(key: &str, hash: &str, conf: &str) -> JsonReceiverTxReceipt {
    JsonReceiverTxReceipt {
        tx_public_key: key.to_string(),
        tx_out_hash: hash.to_string(),
        tombstone: 12,
        confirmation_number: conf.to_string(),
    }
}

#[test]
fn check_receiver_transfer_status_decodes_fields() {
    let req = check_receiver_transfer_status(&receiver_receipt("aa", "bbcc", "01")).unwrap();
    assert_eq!(req.receipt.tx_public_key, vec![0xaa]);
    assert_eq!(req.receipt.tx_out_hash, vec![0xbb, 0xcc]);
    assert_eq!(req.receipt.tombstone, 12);
    assert_eq!(req.receipt.confirmation_number, vec![1]);
}

#[test]
fn check_receiver_transfer_status_errors_in_order() {
    assert_eq!(
        check_receiver_transfer_status(&receiver_receipt("a", "zz", "1")).unwrap_err(),
        "Odd number of digits"
    );
    assert_eq!(
        check_receiver_transfer_status(&receiver_receipt("aa", "zz", "1")).unwrap_err(),
        "Invalid character 'z' at position 0"
    );
    assert_eq!(
        check_receiver_transfer_status(&receiver_receipt("aa", "bb", "1")).unwrap_err(),
        "Odd number of digits"
    );
}

#[test]
fn block_requests() {
    assert_eq!(block_info(42).block, 42);
    assert_eq!(block_details(43).block, 43);
    let req = processed_block("beef", 44).unwrap();
    assert_eq!(req.monitor_id, vec![0xbe, 0xef]);
    assert_eq!(req.block, 44);
    assert_eq!(
        processed_block("bee", 44).unwrap_err(),
        "Failed to decode monitor hex: Odd number of digits"
    );
}

#[test]
fn address_request_code_passes_url() {
    let body = JsonAddressRequestCodeRequest { url: "https://example.com/pay".to_string() };
    assert_eq!(address_request_code(&body).url, "https://example.com/pay");
}

#[test]
fn rpc_error_messages() {
    let cases = [
        (RpcCall::GenerateEntropy, "Failed getting entropy: e"),
        (RpcCall::GetAccountKey, "Failed getting account key for entropy: e"),
        (RpcCall::AddMonitor, "Failed adding monitor: e"),
        (RpcCall::GetMonitorList, "Failed getting monitor list: e"),
        (RpcCall::GetMonitorStatus, "Failed getting monitor status: e"),
        (RpcCall::GetBalance, "Failed getting balance: e"),
        (RpcCall::GetPublicAddress, "Failed getting public address: e"),
        (RpcCall::GetRequestCode, "Failed getting request code: e"),
        (RpcCall::ReadRequestCode, "Failed reading request code: e"),
        (RpcCall::SendPayment, "Failed to send payment: e"),
        (RpcCall::GetTxStatusAsSender, "Failed getting status: e"),
        (RpcCall::GetTxStatusAsReceiver, "Failed getting status: e"),
        (RpcCall::GetLedgerInfo, "Failed getting ledger info: e"),
        (RpcCall::GetBlockInfo, "Failed getting ledger info: e"),
        (RpcCall::GetBlock, "Failed getting block details: e"),
        (RpcCall::GetProcessedBlock, "Failed getting processed block: e"),
        (RpcCall::GetAddressRequestCode, "Failed address code: e"),
    ];
    for (call, expected) in cases.iter() {
        assert_eq!(rpc_error(*call, "e"), *expected);
    }
}

#[test]
fn config_defaults() {
    let config = Config::default();
    assert_eq!(config.listen_host, "127.0.0.1");
    assert_eq!(config.listen_port, 9090);
    assert_eq!(config.mobilecoind_uri, "insecure-mobilecoind://127.0.0.1/");
}
