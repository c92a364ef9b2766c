use fab::auth::{
    assemble_config, normalize_instance, recover_session, recovery_outcome, validate_token,
    SessionRecovery,
};
use fab::structs::{FabConfig, Fields, Revision, Status};
use fab::FabError;

fn sample_config() -> FabConfig {
    FabConfig {
        hosted_instance: String::from("https://phab.example.com/"),
        api_token: String::from("api-SECRET-REDACTED"),
        phid: String::from("PHID-USER-1234"),
    }
}

#[test]
fn bootstrap_appends_the_missing_trailing_slash() {
    let endpoint = normalize_instance("https://phab.example.com").unwrap();
    assert_eq!("https://phab.example.com/", endpoint);
}

#[test]
fn bootstrap_keeps_an_existing_trailing_slash() {
    let endpoint = normalize_instance("https://phab.example.com/\n").unwrap();
    assert_eq!("https://phab.example.com/", endpoint);
}

#[test]
fn empty_endpoint_input_is_a_config_error() {
    assert!(matches!(normalize_instance("   \n"), Err(FabError::Config)));
}

#[test]
fn bootstrapped_session_renders_revision_urls() {
    let endpoint = normalize_instance("https://phab.example.com").unwrap();
    let token = validate_token("api-SECRET-REDACTED\n").unwrap();
    let config = assemble_config(endpoint, token, String::from("PHID-USER-1234")).unwrap();

    let revision = Revision {
        id: 42,
        fields: Fields {
            title: String::from("Sample diff"),
            status: Status { name: String::from("Needs Review"), closed: false },
        },
    };
    assert_eq!("https://phab.example.com/D42", revision.url(&config));
}

#[test]
fn empty_token_input_is_a_config_error() {
    assert!(matches!(validate_token("\n"), Err(FabError::Config)));
}

#[test]
fn empty_identity_is_a_protocol_error() {
    let endpoint = normalize_instance("https://phab.example.com").unwrap();
    let token = validate_token("api-SECRET-REDACTED").unwrap();
    assert!(matches!(assemble_config(endpoint, token, String::new()), Err(FabError::Protocol)));
}

#[test]
fn empty_reprompt_skips_the_renewal_and_keeps_the_session() {
    let config = sample_config();
    let decision = recover_session(&config, Some(String::from("  \n")));
    assert!(matches!(decision, SessionRecovery::Skipped));
    assert!(matches!(recovery_outcome(&decision), FabError::SessionExpired));

    // The stored session is untouched by an aborted renewal.
    assert_eq!("https://phab.example.com/", config.hosted_instance);
    assert_eq!("api-SECRET-REDACTED", config.api_token);
    assert_eq!("PHID-USER-1234", config.phid);
}

#[test]
fn failed_reprompt_skips_the_renewal() {
    let config = sample_config();
    let decision = recover_session(&config, None);
    assert!(matches!(decision, SessionRecovery::Skipped));
}

#[test]
fn good_reprompt_renews_with_the_same_endpoint_and_identity() {
    let config = sample_config();
    let decision = recover_session(&config, Some(String::from("api-SECRET-REDACTED-NEW\n")));
    match decision {
        SessionRecovery::Renewed(renewed) => {
            assert_eq!("https://phab.example.com/", renewed.hosted_instance);
            assert_eq!("api-SECRET-REDACTED-NEW", renewed.api_token);
            assert_eq!("PHID-USER-1234", renewed.phid);
            assert!(matches!(
                recovery_outcome(&SessionRecovery::Renewed(renewed)),
                FabError::SessionRenewed
            ));
        },
        SessionRecovery::Skipped => panic!("renewal should not be skipped"),
    }
}

#[test]
fn malformed_stored_session_counts_as_not_found() {
    let config = FabConfig {
        hosted_instance: String::from("https://phab.example.com"),
        api_token: String::from("api-SECRET-REDACTED"),
        phid: String::from("PHID-USER-1234"),
    };
    assert!(matches!(config.check(), Err(FabError::NotFound)));

    let config = sample_config();
    assert!(config.check().is_ok());
}
