use gcloud_switch::credentials::{
    token_request, token_request_from_text, CredentialError, TokenRequest,
};

fn request(uri: &str) -> TokenRequest {
    TokenRequest {
        token_uri: uri.to_string(),
        client_id: "id-1".to_string(),
        client_secret: "s3cret".to_string(),
        refresh_token: "1//refresh".to_string(),
    }
}

#[test]
fn complete_credentials_give_a_token_request() {
    let blob = r#"{"client_id": "id-1", "client_secret": "s3cret",
        "refresh_token": "1//refresh", "token_uri": "https://example.com/token",
        "type": "authorized_user"}"#;
    assert_eq!(token_request_from_text(blob), Ok(request("https://example.com/token")));
}

#[test]
fn token_uri_defaults() {
    let blob = r#"{"client_id": "id-1", "client_secret": "s3cret", "refresh_token": "1//refresh"}"#;
    assert_eq!(
        token_request_from_text(blob),
        Ok(request("https://oauth2.googleapis.com/token"))
    );
}

#[test]
fn a_token_uri_that_is_no_string_counts_as_absent() {
    let blob = r#"{"client_id": "id-1", "client_secret": "s3cret",
        "refresh_token": "1//refresh", "token_uri": 7}"#;
    assert_eq!(
        token_request_from_text(blob),
        Ok(request("https://oauth2.googleapis.com/token"))
    );
}

#[test]
fn missing_members_are_reported_in_order() {
    assert_eq!(token_request_from_text("{}"), Err(CredentialError::MissingClientId));
    assert_eq!(
        token_request_from_text(r#"{"client_secret": "s", "refresh_token": "r"}"#),
        Err(CredentialError::MissingClientId)
    );
    assert_eq!(
        token_request_from_text(r#"{"client_id": "i", "refresh_token": "r"}"#),
        Err(CredentialError::MissingClientSecret)
    );
    assert_eq!(
        token_request_from_text(r#"{"client_id": "i", "client_secret": "s"}"#),
        Err(CredentialError::MissingRefreshToken)
    );
}

#[test]
fn a_member_that_is_no_string_counts_as_missing() {
    assert_eq!(
        token_request_from_text(r#"{"client_id": 5, "client_secret": "s", "refresh_token": "r"}"#),
        Err(CredentialError::MissingClientId)
    );
    assert_eq!(
        token_request_from_text(r#"{"client_id": "i", "client_secret": null, "refresh_token": "r"}"#),
        Err(CredentialError::MissingClientSecret)
    );
}

#[test]
fn a_value_that_is_no_object_has_no_members() {
    assert_eq!(token_request_from_text("[1, 2]"), Err(CredentialError::MissingClientId));
    assert_eq!(token_request_from_text("\"client_id\""), Err(CredentialError::MissingClientId));
}

#[test]
fn text_that_is_no_json_is_rejected() {
    assert_eq!(token_request_from_text(""), Err(CredentialError::NotJson));
    assert_eq!(token_request_from_text("{client_id: 1}"), Err(CredentialError::NotJson));
    assert_eq!(token_request_from_text("{} trailing"), Err(CredentialError::NotJson));
}

#[test]
fn a_parsed_value_is_read_directly() {
    let value: serde_json::Value = serde_json::from_str(
        r#"{"client_id": "id-1", "client_secret": "s3cret", "refresh_token": "1//refresh"}"#,
    )
    .unwrap();
    assert_eq!(token_request(&value), Ok(request("https://oauth2.googleapis.com/token")));
    assert_eq!(token_request(&serde_json::Value::Null), Err(CredentialError::MissingClientId));
}

#[test]
fn errors_have_messages() {
    assert_eq!(CredentialError::NotJson.message(), "Failed to parse credentials blob as JSON");
    assert_eq!(CredentialError::MissingClientId.message(), "credentials missing client_id");
    assert_eq!(
        CredentialError::MissingClientSecret.message(),
        "credentials missing client_secret"
    );
    assert_eq!(
        CredentialError::MissingRefreshToken.message(),
        "credentials missing refresh_token"
    );
}
