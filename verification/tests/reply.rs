use wirt_api::reply::{
    handle_rejection, ok, preflight, updated, Body, ErrorMessage, Rejection, Reply,
    STATUS_INTERNAL_SERVER_ERROR, STATUS_NOT_FOUND, STATUS_OK, STATUS_UNAUTHORIZED,
};

fn error_reply(code: u16, message: &str) -> Reply {
    Reply { status: code, body: Body::Error(ErrorMessage { code, message: message.to_string() }) }
}

#[test]
fn test_ok() {
    let response = ok();
    assert_eq!(response.body, Body::Text("OK".to_string()));
}

#[test]
fn ok_is_200() {
    assert_eq!(ok(), Reply { status: 200, body: Body::Text("OK".to_string()) });
    assert_eq!(ok(), ok());
}

#[test]
fn updated_is_200_with_its_text() {
    assert_eq!(updated(), Reply { status: 200, body: Body::Text("Config updated".to_string()) });
}

#[test]
fn preflight_is_200_and_empty() {
    assert_eq!(preflight(), Reply { status: 200, body: Body::Empty });
}

#[test]
fn status_codes() {
    assert_eq!(STATUS_OK, 200);
    assert_eq!(STATUS_UNAUTHORIZED, 401);
    assert_eq!(STATUS_NOT_FOUND, 404);
    assert_eq!(STATUS_INTERNAL_SERVER_ERROR, 500);
}

#[test]
fn not_found_is_404_without_text() {
    assert_eq!(handle_rejection(Rejection::NotFound), error_reply(404, ""));
}

#[test]
fn incorrect_signature_is_401() {
    assert_eq!(
        handle_rejection(Rejection::IncorrectSignature),
        error_reply(401, "Not authorized to update configuration")
    );
}

#[test]
fn failed_write_is_500() {
    assert_eq!(
        handle_rejection(Rejection::FailWritingConfig),
        error_reply(500, "Could not write config. Please check the server logs")
    );
}

#[test]
fn failed_restart_is_500() {
    assert_eq!(
        handle_rejection(Rejection::FailRestartingWireguard),
        error_reply(500, "Could not restart service. Please check the server logs")
    );
}

#[test]
fn unhandled_is_500() {
    assert_eq!(handle_rejection(Rejection::Unhandled), error_reply(500, "UNHANDLED_REJECTION"));
}

#[test]
fn error_body_repeats_the_status() {
    for err in [
        Rejection::NotFound,
        Rejection::IncorrectSignature,
        Rejection::FailWritingConfig,
        Rejection::FailRestartingWireguard,
        Rejection::Unhandled,
    ] {
        let reply = handle_rejection(err);
        match reply.body {
            Body::Error(error) => assert_eq!(error.code, reply.status),
            _ => panic!("an error reply has an error body"),
        }
    }
}
