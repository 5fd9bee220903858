use mfa_agent::api::{
    handle_request, handle_search_request, is_frame_readable, secrets_json_text, OperationType,
    Request, Response, SanitizedSecret, StatusCode, CURRENT_VERSION,
};

fn agent_secrets() -> Vec<SanitizedSecret> {
    vec![
        SanitizedSecret::new("1".to_string(), "github".to_string()),
        SanitizedSecret::new("2".to_string(), "gitlab".to_string()),
        SanitizedSecret::new("3".to_string(), "mail \"work\"".to_string()),
    ]
}

#[test]
pub fn test_request_serialization_without_payload() {
    let request = Request::default();
    let bytes = request.to_bytes();
    assert_eq!(bytes.len(), 2);
}

#[test]
pub fn test_request_serialization_with_payload() {
    let mut request = Request::default();
    let bytes = request.to_bytes();
    assert_eq!(bytes.len(), 2);
    request.payload = vec![0x12, 0x13, 0x14, 0x15];
    let bytes = request.to_bytes();
    assert_eq!(bytes.len(), 6);
}

#[test]
pub fn test_request_deserialization_without_payload() {
    let operation = OperationType::HMAC;

    let mut request = Request::default();
    request.op = operation.clone();

    let bytes = request.to_bytes();
    assert_eq!(bytes.len(), 2);
    let request = Request::from_bytes(&bytes).unwrap();
    assert_eq!(request.op, operation);
}

#[test]
pub fn test_request_deserialization_with_payload() {
    let operation = OperationType::HMAC;
    let payload = vec![0x66, 0x77, 0x88, 0x99];

    let mut request = Request::default();
    request.op = operation.clone();
    request.payload = payload.clone();

    let bytes = request.to_bytes();
    assert_eq!(bytes.len(), 6);
    let request = Request::from_bytes(&bytes).unwrap();
    assert_eq!(request.op, operation);
    assert_eq!(request.payload, payload);
}

#[test]
pub fn test_response_serialization_without_payload() {
    let response = Response::default();
    let bytes = response.to_bytes();
    assert_eq!(bytes.len(), 2);
}

#[test]
pub fn test_response_serialization_with_payload() {
    let mut response = Response::default();
    let bytes = response.to_bytes();
    assert_eq!(bytes.len(), 2);
    response.payload = vec![0x12, 0x13, 0x14, 0x15];
    let bytes = response.to_bytes();
    assert_eq!(bytes.len(), 6);
}

#[test]
pub fn test_response_deserialization_without_payload() {
    let code = StatusCode::Success;

    let mut response = Response::default();
    response.code = code.clone();

    let bytes = response.to_bytes();
    assert_eq!(bytes.len(), 2);
    let response = Response::from_bytes(&bytes).unwrap();
    assert_eq!(response.code, code);
}

#[test]
pub fn test_response_deserialization_with_payload() {
    let code = StatusCode::Success;
    let payload = vec![0x66, 0x77, 0x88, 0x99];

    let mut response = Response::default();
    response.code = code.clone();
    response.payload = payload.clone();

    let bytes = response.to_bytes();
    assert_eq!(bytes.len(), 6);
    let response = Response::from_bytes(&bytes).unwrap();
    assert_eq!(response.code, code);
    assert_eq!(response.payload, payload);
}

#[test]
fn request_frame_layout() {
    let mut request = Request::default();
    request.op = OperationType::Search;
    request.payload = vec![7, 8];
    assert_eq!(request.to_bytes(), vec![0x47, 1, 7, 8]);
}

#[test]
fn operation_bytes_round_trip() {
    let ops = [
        OperationType::Ping,
        OperationType::Search,
        OperationType::HMAC,
        OperationType::U2F,
        OperationType::List,
    ];
    let bytes = [113u8, 1, 2, 3, 4];
    for (op, b) in ops.iter().zip(bytes.iter()) {
        assert_eq!(op.to_byte(), *b);
        assert_eq!(OperationType::from_byte(*b), Ok(*op));
    }
}

#[test]
fn status_bytes_round_trip() {
    let codes = [StatusCode::Success, StatusCode::Error, StatusCode::Locked];
    let bytes = [112u8, 1, 2];
    for (code, b) in codes.iter().zip(bytes.iter()) {
        assert_eq!(code.to_byte(), *b);
        assert_eq!(StatusCode::from_byte(*b), Ok(*code));
    }
}

#[test]
fn unknown_operation_byte_is_refused() {
    assert_eq!(OperationType::from_byte(7), Err("Invalid operation type 7.".to_string()));
    assert_eq!(OperationType::from_byte(255), Err("Invalid operation type 255.".to_string()));
}

#[test]
fn unknown_status_byte_is_refused() {
    assert_eq!(StatusCode::from_byte(42), Err("Invalid status code 42.".to_string()));
    assert_eq!(StatusCode::from_byte(0), Err("Invalid status code 0.".to_string()));
}

#[test]
fn request_of_other_version_is_refused() {
    let bytes = vec![0x46u8, 1, 9];
    match Request::from_bytes(&bytes) {
        Err(e) => assert_eq!(e, "Invalid API version 70"),
        Ok(_) => panic!("a request of another version was accepted"),
    }
}

#[test]
fn request_with_unknown_operation_is_refused() {
    let bytes = vec![CURRENT_VERSION, 99];
    match Request::from_bytes(&bytes) {
        Err(e) => assert_eq!(e, "Invalid operation type 99."),
        Ok(_) => panic!("an unknown operation was accepted"),
    }
}

#[test]
fn response_of_other_version_is_refused() {
    let bytes = vec![0x01u8];
    match Response::from_bytes(&bytes) {
        Err(e) => assert_eq!(e, "Invalid version 1"),
        Ok(_) => panic!("a response of another version was accepted"),
    }
}

#[test]
fn response_with_unknown_status_is_refused() {
    let bytes = vec![CURRENT_VERSION, 3, 1];
    match Response::from_bytes(&bytes) {
        Err(e) => assert_eq!(e, "Invalid status code 3."),
        Ok(_) => panic!("an unknown status was accepted"),
    }
}

#[test]
fn frame_readability() {
    assert!(!is_frame_readable(&[]));
    assert!(!is_frame_readable(&[CURRENT_VERSION]));
    assert!(is_frame_readable(&[0x10]));
    assert!(is_frame_readable(&[CURRENT_VERSION, 1]));
}

#[test]
fn ping_is_answered_with_null() {
    let request = Request::default();
    let response = handle_request(request, &agent_secrets()).unwrap();
    assert_eq!(response.version, CURRENT_VERSION);
    assert_eq!(response.code, StatusCode::Success);
    assert_eq!(response.payload, b"null".to_vec());
}

#[test]
fn search_is_answered_with_matching_ids() {
    let mut request = Request::default();
    request.op = OperationType::Search;
    request.payload = b"\"git\"".to_vec();
    let response = handle_request(request, &agent_secrets()).unwrap();
    assert_eq!(response.payload, b"[\"1\",\"2\"]".to_vec());

    let mut request = Request::default();
    request.op = OperationType::Search;
    request.payload = b"\"hub\"".to_vec();
    let ids = handle_search_request(request, &agent_secrets()).unwrap();
    assert_eq!(ids, vec!["1".to_string()]);

    let mut request = Request::default();
    request.op = OperationType::Search;
    request.payload = b"\"bank\"".to_vec();
    let response = handle_request(request, &agent_secrets()).unwrap();
    assert_eq!(response.payload, b"[]".to_vec());

    let mut request = Request::default();
    request.op = OperationType::Search;
    request.payload = b"\"\"".to_vec();
    let ids = handle_search_request(request, &agent_secrets()).unwrap();
    assert_eq!(ids.len(), 3);
}

#[test]
fn list_is_answered_with_sanitized_secrets() {
    let mut request = Request::default();
    request.op = OperationType::List;
    let response = handle_request(request, &agent_secrets()).unwrap();
    assert_eq!(response.code, StatusCode::Success);
    let text = String::from_utf8(response.payload).unwrap();
    assert_eq!(
        text,
        "[{\"id\":\"1\",\"name\":\"github\"},{\"id\":\"2\",\"name\":\"gitlab\"},{\"id\":\"3\",\"name\":\"mail \\\"work\\\"\"}]"
    );
    let mut request = Request::default();
    request.op = OperationType::List;
    let response = handle_request(request, &vec![]).unwrap();
    assert_eq!(response.payload, b"[]".to_vec());
}

#[test]
fn secrets_json_matches_serde() {
    let secrets = agent_secrets();
    let text = secrets_json_text(&secrets);
    let parsed: Vec<std::collections::BTreeMap<String, String>> =
        serde_json::from_str(&text).unwrap();
    assert_eq!(parsed.len(), 3);
    assert_eq!(parsed[2]["id"], "3");
    assert_eq!(parsed[2]["name"], "mail \"work\"");
}

#[test]
fn sanitized_secret_fields() {
    let secret = SanitizedSecret::new("7".to_string(), "bank".to_string());
    assert_eq!(secret.id(), "7");
    assert_eq!(secret.name(), "bank");
}

#[test]
fn search_with_invalid_json_is_refused() {
    let mut request = Request::default();
    request.op = OperationType::Search;
    request.payload = b"github".to_vec();
    assert!(handle_search_request(request, &agent_secrets()).is_err());
}

#[test]
fn search_with_invalid_utf8_is_refused() {
    let mut request = Request::default();
    request.op = OperationType::Search;
    request.payload = vec![0xff, 0xfe];
    let err = handle_search_request(request, &agent_secrets()).unwrap_err();
    assert_eq!(err, std::str::from_utf8(&[0xff, 0xfe]).unwrap_err().to_string());
}

#[test]
fn unhandled_operations_are_refused() {
    let mut request = Request::default();
    request.op = OperationType::HMAC;
    match handle_request(request, &agent_secrets()) {
        Err(e) => assert_eq!(e, "Operation HMAC not implemented yet."),
        Ok(_) => panic!("an unhandled operation was answered"),
    }
    let mut request = Request::default();
    request.op = OperationType::U2F;
    match handle_request(request, &agent_secrets()) {
        Err(e) => assert_eq!(e, "Operation U2F not implemented yet."),
        Ok(_) => panic!("an unhandled operation was answered"),
    }
}

#[test]
fn invalid_version_check_runs() {
    mfa_agent::api::test_request_deserialization_invalid_version();
}
