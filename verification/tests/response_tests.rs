use fanotify::response::{
    encode_response, FanotifyPermissionResponse, FanotifyResponse, FAN_ALLOW, FAN_DENY,
    RESPONSE_LEN,
};

#[test]
fn response_allow_bytes() {
    let r = FanotifyResponse {
        fd: 7,
        response: FanotifyPermissionResponse::FAN_ALLOW,
    };
    let bytes = encode_response(&r);
    assert_eq!(bytes.len(), RESPONSE_LEN);
    assert_eq!(bytes, vec![7, 0, 0, 0, 1, 0, 0, 0]);
}

#[test]
fn response_deny_bytes() {
    let r = FanotifyResponse {
        fd: 7,
        response: FanotifyPermissionResponse::FAN_DENY,
    };
    let bytes = encode_response(&r);
    assert_eq!(bytes, vec![7, 0, 0, 0, 2, 0, 0, 0]);
}

#[test]
fn response_matches_native_layout() {
    // The wire format is the descriptor value then the verdict code,
    // each in the byte order the kernel reads on this machine.
    let r = FanotifyResponse {
        fd: -3,
        response: FanotifyPermissionResponse::FAN_ALLOW,
    };
    let bytes = encode_response(&r);
    let mut expected = (-3i32).to_ne_bytes().to_vec();
    expected.extend(FAN_ALLOW.to_ne_bytes());
    assert_eq!(bytes, expected);
}

#[test]
fn verdict_codes() {
    assert_eq!(FanotifyPermissionResponse::FAN_ALLOW.code(), FAN_ALLOW);
    assert_eq!(FanotifyPermissionResponse::FAN_DENY.code(), FAN_DENY);
    assert_ne!(FAN_ALLOW, FAN_DENY);
}
