//! Reading the stored credentials of an account: the JSON document that the credential
//! backend keeps, and the token exchange that shows whether a refresh token is still good.

use vstd::prelude::*;

verus! {

/// `serde_json::Value`: a JSON value. Nothing of its inside is visible here.
#[verifier::external_type_specification]
#[verifier::external_body]
pub struct ExJsonValue(serde_json::Value);

/// `serde_json::Error`: why a text is no JSON value. Nothing of its inside is visible here.
#[verifier::external_type_specification]
#[verifier::external_body]
pub struct ExJsonError(serde_json::Error);

/// The members of a JSON object whose values are strings, by key. A value that is no
/// object has none.
pub uninterp spec fn json_text_members(value: serde_json::Value) -> Map<Seq<char>, Seq<char>>;

/// The string members of the JSON value that a text denotes, or `None` for a text that is
/// not one JSON value.
pub uninterp spec fn json_document(text: Seq<char>) -> Option<Map<Seq<char>, Seq<char>>>;

/// `serde_json::from_str`, for a `Value`: parses the text as one JSON value, or fails.
#[verifier::external_body]
fn parse_json(text: &str) -> (r: Result<serde_json::Value, serde_json::Error>)
    ensures
        r is Ok <==> json_document(text@) is Some,
        r matches Ok(value) ==> json_text_members(value) == json_document(text@)->0,
{
    serde_json::from_str(text)
}

/// `serde_json::Value::get` with a string key: the member of an object under that key,
/// here handed out only where it is a string.
#[verifier::external_body]
fn text_member(value: &serde_json::Value, key: &str) -> (r: Option<String>)
    ensures
        r is Some <==> json_text_members(*value).contains_key(key@),
        r matches Some(s) ==> s@ == json_text_members(*value)[key@],
{
    match value.get(key) {
        Some(serde_json::Value::String(s)) => Some(s.clone()),
        _ => None,
    }
}

/// What is sent to exchange a refresh token for an access token.
#[derive(Debug, PartialEq, Eq)]
pub struct TokenRequest {
    pub token_uri: String,
    pub client_id: String,
    pub client_secret: String,
    pub refresh_token: String,
}

/// A token request as plain values.
pub ghost struct TokenRequestView {
    pub token_uri: Seq<char>,
    pub client_id: Seq<char>,
    pub client_secret: Seq<char>,
    pub refresh_token: Seq<char>,
}

impl View for TokenRequest {
    type V = TokenRequestView;

    open spec fn view(&self) -> TokenRequestView {
        TokenRequestView {
            token_uri: self.token_uri@,
            client_id: self.client_id@,
            client_secret: self.client_secret@,
            refresh_token: self.refresh_token@,
        }
    }
}

/// Why stored credentials cannot be validated.
#[derive(Debug, Clone, Copy, PartialEq, Eq, Structural)]
pub enum CredentialError {
    /// The stored text is not JSON.
    NotJson,
    MissingClientId,
    MissingClientSecret,
    MissingRefreshToken,
}

impl CredentialError {
    /// The message for the error.
    pub fn message(self) -> (r: &'static str)
        ensures
            r@ == (match self {
                CredentialError::NotJson => "Failed to parse credentials blob as JSON"@,
                CredentialError::MissingClientId => "credentials missing client_id"@,
                CredentialError::MissingClientSecret => "credentials missing client_secret"@,
                CredentialError::MissingRefreshToken => "credentials missing refresh_token"@,
            }),
    {
        match self {
            CredentialError::NotJson => "Failed to parse credentials blob as JSON",
            CredentialError::MissingClientId => "credentials missing client_id",
            CredentialError::MissingClientSecret => "credentials missing client_secret",
            CredentialError::MissingRefreshToken => "credentials missing refresh_token",
        }
    }
}

/// Where a refresh token is exchanged when the credentials name no other place.
pub open spec fn default_token_uri() -> Seq<char> {
    "https://oauth2.googleapis.com/token"@
}

/// The token request that credentials with the string members `members` call for. The
/// client id, the client secret and the refresh token have to be there; the first of them
/// that is missing is the error. The place of the exchange is the member `token_uri`, or the
/// default one.
pub open spec fn token_request_of(members: Map<Seq<char>, Seq<char>>) -> Result<
    TokenRequestView,
    CredentialError,
> {
    if !members.contains_key("client_id"@) {
        Err(CredentialError::MissingClientId)
    } else if !members.contains_key("client_secret"@) {
        Err(CredentialError::MissingClientSecret)
    } else if !members.contains_key("refresh_token"@) {
        Err(CredentialError::MissingRefreshToken)
    } else {
        Ok(
            TokenRequestView {
                token_uri: if members.contains_key("token_uri"@) {
                    members["token_uri"@]
                } else {
                    default_token_uri()
                },
                client_id: members["client_id"@],
                client_secret: members["client_secret"@],
                refresh_token: members["refresh_token"@],
            },
        )
    }
}

/// Whether `r` is the outcome `expected`, as plain values.
pub open spec fn is_outcome(
    r: Result<TokenRequest, CredentialError>,
    expected: Result<TokenRequestView, CredentialError>,
) -> bool {
    match r {
        Ok(request) => expected == Ok::<TokenRequestView, CredentialError>(request@),
        Err(e) => expected == Err::<TokenRequestView, CredentialError>(e),
    }
}

/// The token request for the credentials in a JSON value.
pub fn token_request(credentials: &serde_json::Value) -> (r: Result<TokenRequest, CredentialError>)
    ensures
        is_outcome(r, token_request_of(json_text_members(*credentials))),
{
    let client_id = match text_member(credentials, "client_id") {
        Some(s) => s,
        None => {
            return Err(CredentialError::MissingClientId);
        },
    };
    let client_secret = match text_member(credentials, "client_secret") {
        Some(s) => s,
        None => {
            return Err(CredentialError::MissingClientSecret);
        },
    };
    let refresh_token = match text_member(credentials, "refresh_token") {
        Some(s) => s,
        None => {
            return Err(CredentialError::MissingRefreshToken);
        },
    };
    let token_uri = match text_member(credentials, "token_uri") {
        Some(s) => s,
        None => String::from_str("https://oauth2.googleapis.com/token"),
    };
    Ok(TokenRequest { token_uri, client_id, client_secret, refresh_token })
}

/// The token request for credentials as they are stored, as JSON text.
pub fn token_request_from_text(blob: &str) -> (r: Result<TokenRequest, CredentialError>)
    ensures
        is_outcome(
            r,
            match json_document(blob@) {
                Some(members) => token_request_of(members),
                None => Err(CredentialError::NotJson),
            },
        ),
{
    match parse_json(blob) {
        Ok(value) => token_request(&value),
        Err(_) => Err(CredentialError::NotJson),
    }
}

} // verus!
