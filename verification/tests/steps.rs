use mobilecoind_json::{
    create_monitor_step, request_code_step, CreateMonitorAction, CreateMonitorEvent,
    JsonMonitorRequest, JsonRequestCodeRequest, RequestCodeAction, RequestCodeEvent,
};

fn body(entropy: &str) -> JsonMonitorRequest {
    JsonMonitorRequest { entropy: entropy.to_string(), first_subaddress: 1, num_subaddresses: 5 }
}

#[test]
fn create_monitor_steps_in_order() {
    let b = body("0a0b");
    match create_monitor_step::<&str, u32>(&b, CreateMonitorEvent::Start) {
        CreateMonitorAction::GetAccountKey(req) => assert_eq!(req.entropy, vec![10, 11]),
        _ => panic!("first step must ask for the account key"),
    }
    match create_monitor_step::<&str, u32>(&b, CreateMonitorEvent::AccountKeyAnswer(Ok("key"))) {
        CreateMonitorAction::AddMonitor(req) => {
            assert_eq!(req.account_key, "key");
            assert_eq!(req.first_subaddress, 1);
            assert_eq!(req.num_subaddresses, 5);
            assert_eq!(req.first_block, 0);
        }
        _ => panic!("an account key must lead to adding the monitor"),
    }
    match create_monitor_step::<&str, u32>(&b, CreateMonitorEvent::AddMonitorAnswer(Ok(99))) {
        CreateMonitorAction::Reply(r) => assert_eq!(r, 99),
        _ => panic!("the monitor answer is the reply"),
    }
}

#[test]
fn create_monitor_steps_stop_on_failure() {
    match create_monitor_step::<&str, u32>(&body("0a0"), CreateMonitorEvent::Start) {
        CreateMonitorAction::Fail(m) => assert_eq!(m, "Failed to decode hex key: Odd number of digits"),
        _ => panic!("bad entropy must fail"),
    }
    let b = body("00");
    match create_monitor_step::<&str, u32>(&b, CreateMonitorEvent::AccountKeyAnswer(Err("down".to_string()))) {
        CreateMonitorAction::Fail(m) => assert_eq!(m, "Failed getting account key for entropy: down"),
        _ => panic!("a failed call must fail"),
    }
    match create_monitor_step::<&str, u32>(&b, CreateMonitorEvent::AddMonitorAnswer(Err("busy".to_string()))) {
        CreateMonitorAction::Fail(m) => assert_eq!(m, "Failed adding monitor: busy"),
        _ => panic!("a failed call must fail"),
    }
}

#[test]
fn request_code_steps_in_order() {
    let extra = JsonRequestCodeRequest { value: Some(3), memo: None };
    match request_code_step::<u8, &str>("ff", 4, &extra, RequestCodeEvent::Start) {
        RequestCodeAction::GetPublicAddress(req) => {
            assert_eq!(req.monitor_id, vec![0xff]);
            assert_eq!(req.subaddress_index, 4);
        }
        _ => panic!("first step must ask for the public address"),
    }
    match request_code_step::<u8, &str>("ff", 4, &extra, RequestCodeEvent::PublicAddressAnswer(Ok(7))) {
        RequestCodeAction::GetRequestCode(req) => {
            assert_eq!(req.receiver, 7);
            assert_eq!(req.value, Some(3));
            assert_eq!(req.memo, None);
        }
        _ => panic!("an address must lead to the request code"),
    }
    match request_code_step::<u8, &str>("ff", 4, &extra, RequestCodeEvent::RequestCodeAnswer(Ok("code"))) {
        RequestCodeAction::Reply(r) => assert_eq!(r, "code"),
        _ => panic!("the code answer is the reply"),
    }
}

#[test]
fn request_code_steps_stop_on_failure() {
    let extra = JsonRequestCodeRequest { value: None, memo: Some("m".to_string()) };
    match request_code_step::<u8, &str>("fg", 4, &extra, RequestCodeEvent::Start) {
        RequestCodeAction::Fail(m) => {
            assert_eq!(m, "Failed to decode monitor hex: Invalid character 'g' at position 1")
        }
        _ => panic!("bad monitor id must fail"),
    }
    match request_code_step::<u8, &str>("ff", 4, &extra, RequestCodeEvent::PublicAddressAnswer(Err("x".to_string()))) {
        RequestCodeAction::Fail(m) => assert_eq!(m, "Failed getting public address: x"),
        _ => panic!("a failed call must fail"),
    }
    match request_code_step::<u8, &str>("ff", 4, &extra, RequestCodeEvent::RequestCodeAnswer(Err("y".to_string()))) {
        RequestCodeAction::Fail(m) => assert_eq!(m, "Failed getting request code: y"),
        _ => panic!("a failed call must fail"),
    }
}
