use fab::network::{classify_response, NetworkResponse};
use fab::FabError;

#[test]
fn populated_result_is_success() {
    let resp: NetworkResponse<i32> = NetworkResponse { error_code: None, result: Some(7) };
    assert!(matches!(classify_response(resp), Ok(7)));
}

#[test]
fn empty_envelope_is_a_protocol_error() {
    let resp: NetworkResponse<i32> = NetworkResponse { error_code: None, result: None };
    assert!(matches!(classify_response(resp), Err(FabError::Protocol)));
}

#[test]
fn auth_error_codes_mean_an_expired_session() {
    let resp: NetworkResponse<i32> = NetworkResponse {
        error_code: Some(String::from("ERR-INVALID-AUTH")),
        result: None,
    };
    assert!(matches!(classify_response(resp), Err(FabError::SessionExpired)));

    let resp: NetworkResponse<i32> = NetworkResponse {
        error_code: Some(String::from("ERR-INVALID-SESSION")),
        result: None,
    };
    assert!(matches!(classify_response(resp), Err(FabError::SessionExpired)));
}

#[test]
fn other_error_codes_surface_verbatim() {
    let resp: NetworkResponse<i32> = NetworkResponse {
        error_code: Some(String::from("ERR-CONDUIT-CORE")),
        result: None,
    };
    match classify_response(resp) {
        Err(FabError::Api(code)) => assert_eq!("ERR-CONDUIT-CORE", code),
        other => panic!("unexpected outcome: {:?}", other),
    }
}

#[test]
fn result_wins_when_both_fields_are_populated() {
    let resp: NetworkResponse<i32> = NetworkResponse {
        error_code: Some(String::from("ERR-CONDUIT-CORE")),
        result: Some(3),
    };
    assert!(matches!(classify_response(resp), Ok(3)));
}

#[test]
fn api_error_message_carries_the_code() {
    let e = FabError::Api(String::from("ERR-CONDUIT-CORE"));
    assert_eq!("API error: ERR-CONDUIT-CORE", e.message());
}

#[test]
fn session_renewed_message_asks_for_a_rerun() {
    let e = FabError::SessionRenewed;
    assert_eq!("Token regenerated. Please try the command again", e.message());
}
