use mfa_agent::api::{Request, SanitizedSecret, CURRENT_VERSION};
use mfa_agent::bluetooth::{
    advertises_app_service, after_connect_attempt, after_probe, is_app_characteristic,
    echo_matches, is_app_service, mismatch_report, ConnectStep, EchoAction, EchoEvent,
    EchoService, ProbeOutcome,
};
use mfa_agent::consts::{APP_BT_CHARACTERISTIC_ID, APP_BT_SERVICE_ID};
use mfa_agent::tcp::{ping_request, read_response_text, search_request, serve_request};

#[test]
fn search_request_payload_is_json() {
    let request = search_request("git\"hub");
    assert_eq!(request.version, CURRENT_VERSION);
    assert_eq!(request.payload, b"\"git\\\"hub\"".to_vec());
}

#[test]
fn search_request_is_served() {
    let secrets = vec![
        SanitizedSecret::new("a1".to_string(), "github".to_string()),
        SanitizedSecret::new("b2".to_string(), "mail".to_string()),
    ];
    let request = search_request("github");
    let response = serve_request(&request.to_bytes(), &secrets).unwrap();
    assert_eq!(response, b"\x47\x70[\"a1\"]".to_vec());
    assert_eq!(read_response_text(&response), Ok(Some("[\"a1\"]".to_string())));
}

#[test]
fn ping_request_is_served() {
    let request = ping_request();
    assert_eq!(request.to_bytes(), vec![CURRENT_VERSION, 113]);
    let response = serve_request(&request.to_bytes(), &vec![]).unwrap();
    assert_eq!(response, b"\x47\x70null".to_vec());
}

#[test]
fn bad_frames_are_not_served() {
    assert_eq!(serve_request(&[0x46, 113], &vec![]), Err("Invalid API version 70".to_string()));
    let mut request = Request::default();
    request.op = mfa_agent::api::OperationType::U2F;
    assert_eq!(
        serve_request(&request.to_bytes(), &vec![]),
        Err("Operation U2F not implemented yet.".to_string())
    );
}

#[test]
fn response_text_reading() {
    assert_eq!(read_response_text(&[1, 2, 3]), Err("Invalid version 1".to_string()));
    assert_eq!(read_response_text(&[CURRENT_VERSION, 112, 0xff]), Ok(None));
    let mut buffer = vec![0u8; 1024];
    buffer[0] = CURRENT_VERSION;
    buffer[1] = 112;
    buffer[2] = b'1';
    let text = read_response_text(&buffer).unwrap().unwrap();
    assert_eq!(text.len(), 1022);
}

#[test]
fn echo_service_round() {
    let mut service = EchoService::new();
    assert_eq!(service.step(EchoEvent::Read(0)), EchoAction::Wait);
    assert_eq!(service.step(EchoEvent::WriteRequest(23)), EchoAction::AcceptWrite(23));
    assert!(!service.awaits());
    assert_eq!(service.step(EchoEvent::NotifyRequest), EchoAction::KeepNotifier);
    assert!(service.awaits());
    assert_eq!(service.step(EchoEvent::Read(5)), EchoAction::Echo(5));
    assert_eq!(service.step(EchoEvent::EchoFailed), EchoAction::Wait);
    assert!(!service.awaits());
    assert_eq!(service.step(EchoEvent::NotifyRequest), EchoAction::KeepNotifier);
    assert_eq!(service.step(EchoEvent::ReadFailed), EchoAction::Wait);
    assert!(!service.reading);
    assert_eq!(service.step(EchoEvent::WriteRequest(40)), EchoAction::AcceptWrite(40));
    assert_eq!(service.step(EchoEvent::Read(0)), EchoAction::Stop);
    assert_eq!(service.step(EchoEvent::Input), EchoAction::Stop);
    assert_eq!(service.step(EchoEvent::ControlEnded), EchoAction::Stop);
}

#[test]
fn connect_retries() {
    assert_eq!(after_connect_attempt(5, true), ConnectStep::Connected);
    assert_eq!(after_connect_attempt(5, false), ConnectStep::Retry(4));
    assert_eq!(after_connect_attempt(0, false), ConnectStep::GiveUp);
    let mut attempts = 0;
    let mut left = 5;
    loop {
        attempts += 1;
        match after_connect_attempt(left, false) {
            ConnectStep::Retry(r) => left = r,
            _ => break,
        }
    }
    assert_eq!(attempts, 6);
}

#[test]
fn service_and_characteristic_lookup() {
    assert!(is_app_service(APP_BT_SERVICE_ID));
    assert!(!is_app_service(1));
    assert!(advertises_app_service(&[3, APP_BT_SERVICE_ID]));
    assert!(!advertises_app_service(&[3, 4]));
    assert!(is_app_characteristic(APP_BT_CHARACTERISTIC_ID));
    assert!(!is_app_characteristic(APP_BT_SERVICE_ID));
}

#[test]
fn probe_follow_ups() {
    let f = after_probe(ProbeOutcome::Failed);
    assert!(f.remove_device && !f.finished);
    let d = after_probe(ProbeOutcome::Delivered);
    assert!(!d.remove_device && d.finished);
    let n = after_probe(ProbeOutcome::NoService);
    assert!(!n.remove_device && !n.finished);
    let s = after_probe(ProbeOutcome::NotDelivered);
    assert!(!s.remove_device && !s.finished);
}

#[test]
fn echo_comparison() {
    assert!(echo_matches(&[1, 2, 3], &[1, 2, 3]));
    assert!(!echo_matches(&[1, 2, 3], &[1, 2]));
    assert!(!echo_matches(&[1, 2, 3], &[1, 2, 4]));
}

#[test]
fn mismatch_report_blocks() {
    let sent: Vec<u8> = (0..1030u32).map(|i| (i % 251) as u8).collect();
    let received: Vec<u8> = (0..515u32).map(|i| (i % 7) as u8).collect();
    let report = mismatch_report(&sent, &received);
    assert_eq!(report.len(), 2);
    assert_eq!(report[0].sent_head, sent[0..4].to_vec());
    assert_eq!(report[0].sent_tail, sent[508..512].to_vec());
    assert_eq!(report[1].sent_head, sent[512..516].to_vec());
    assert_eq!(report[1].sent_tail, sent[1020..1024].to_vec());
    assert_eq!(report[1].received_head, received[512..515].to_vec());
    assert_eq!(report[1].received_tail, received[512..515].to_vec());
    assert_eq!(mismatch_report(&[], &sent).len(), 0);
}
