//! The device-authorization client's protocol logic: the response taxonomy
//! of the token endpoint, the rule that classifies a response body's fields
//! into that taxonomy, and the exact request bodies of the three grants.
//!
//! The HTTP transport lives outside this crate; it hands the fields of the
//! parsed response body to [`classify_token_response`] and sends the bodies
//! built here. A `ProviderError` is a normal protocol state, not a
//! transport failure: the caller waits and polls again for the retryable
//! statuses and abandons the flow for the terminal ones.

use vstd::prelude::*;

verus! {

/// The provider's protocol statuses on the token endpoint.
#[derive(Clone, Copy, PartialEq, Eq, Structural, Debug)]
pub enum TokenStatus {
    AuthorizationPending,
    SlowDown,
    ExpiredToken,
    AccessDenied,
    InvalidGrant,
}

/// Which wire string names each protocol status.
pub open spec fn spec_parse_token_status(s: Seq<char>) -> Option<TokenStatus> {
    if s == "authorization_pending"@ {
        Some(TokenStatus::AuthorizationPending)
    } else if s == "slow_down"@ {
        Some(TokenStatus::SlowDown)
    } else if s == "expired_token"@ {
        Some(TokenStatus::ExpiredToken)
    } else if s == "access_denied"@ {
        Some(TokenStatus::AccessDenied)
    } else if s == "invalid_grant"@ {
        Some(TokenStatus::InvalidGrant)
    } else {
        None
    }
}

/// Maps the provider's wire string to its protocol status; any other string
/// counts as a malformed response.
pub fn parse_token_status(s: &str) -> (r: Option<TokenStatus>)
    ensures
        r == spec_parse_token_status(s@),
{
    let t = s.to_owned();
    if t == String::from_str("authorization_pending") {
        Some(TokenStatus::AuthorizationPending)
    } else if t == String::from_str("slow_down") {
        Some(TokenStatus::SlowDown)
    } else if t == String::from_str("expired_token") {
        Some(TokenStatus::ExpiredToken)
    } else if t == String::from_str("access_denied") {
        Some(TokenStatus::AccessDenied)
    } else if t == String::from_str("invalid_grant") {
        Some(TokenStatus::InvalidGrant)
    } else {
        None
    }
}

/// The retryable statuses: the human has simply not finished authorizing
/// yet. The other three end the attempt.
pub open spec fn status_retryable(st: TokenStatus) -> bool {
    st == TokenStatus::AuthorizationPending || st == TokenStatus::SlowDown
}

impl TokenStatus {
    /// True for the statuses on which the caller keeps polling.
    pub fn retryable(&self) -> (r: bool)
        ensures
            r == status_retryable(*self),
    {
        match self {
            TokenStatus::AuthorizationPending => true,
            TokenStatus::SlowDown => true,
            _ => false,
        }
    }

    /// A human-readable cause for the terminal statuses, used in the
    /// published `Failed` state.
    pub fn describe(&self) -> (r: &'static str)
        ensures
            r@ == status_described(*self),
    {
        match self {
            TokenStatus::AuthorizationPending => "authorization is still pending",
            TokenStatus::SlowDown => "provider asked to slow down",
            TokenStatus::ExpiredToken => "device code expired before authorization",
            TokenStatus::AccessDenied => "authorization was denied",
            TokenStatus::InvalidGrant => "authorization grant is invalid",
        }
    }
}

/// The cause string each protocol status renders to.
pub open spec fn status_described(st: TokenStatus) -> Seq<char> {
    match st {
        TokenStatus::AuthorizationPending => "authorization is still pending"@,
        TokenStatus::SlowDown => "provider asked to slow down"@,
        TokenStatus::ExpiredToken => "device code expired before authorization"@,
        TokenStatus::AccessDenied => "authorization was denied"@,
        TokenStatus::InvalidGrant => "authorization grant is invalid"@,
    }
}

/// Mathematical model of [`TokenResult`].
pub enum TokenResultView {
    Full { access_token: Seq<char>, refresh_token: Seq<char>, expires_in: u64 },
    AccessToken { access_token: Seq<char>, expires_in: u64 },
    Error { error: TokenStatus },
}

/// One token-endpoint response: a first-time grant carrying a refresh
/// token, a refresh response carrying only a new access token, or a
/// protocol status.
pub enum TokenResult {
    Full { access_token: String, refresh_token: String, expires_in: u64 },
    AccessToken { access_token: String, expires_in: u64 },
    Error { error: TokenStatus },
}

impl View for TokenResult {
    type V = TokenResultView;

    open spec fn view(&self) -> TokenResultView {
        match self {
            TokenResult::Full { access_token, refresh_token, expires_in } => {
                TokenResultView::Full {
                    access_token: access_token@,
                    refresh_token: refresh_token@,
                    expires_in: *expires_in,
                }
            },
            TokenResult::AccessToken { access_token, expires_in } => {
                TokenResultView::AccessToken {
                    access_token: access_token@,
                    expires_in: *expires_in,
                }
            },
            TokenResult::Error { error } => TokenResultView::Error { error: *error },
        }
    }
}

/// The decoding rule for the token endpoint's untagged response shape. The
/// wire format carries no discriminator, so which fields are present
/// decides: an `error` field wins and must name a known status; otherwise a
/// `refresh_token` field makes the response a first-time grant, which must
/// also carry `access_token` and `expires_in`; otherwise those two fields
/// alone form a refresh response. Anything else is malformed.
pub open spec fn spec_classify_token_response(
    error: Option<Seq<char>>,
    access_token: Option<Seq<char>>,
    refresh_token: Option<Seq<char>>,
    expires_in: Option<u64>,
) -> Option<TokenResultView> {
    if error is Some {
        match spec_parse_token_status(error->Some_0) {
            Some(st) => Some(TokenResultView::Error { error: st }),
            None => None,
        }
    } else if refresh_token is Some {
        if access_token is Some && expires_in is Some {
            Some(
                TokenResultView::Full {
                    access_token: access_token->Some_0,
                    refresh_token: refresh_token->Some_0,
                    expires_in: expires_in->Some_0,
                },
            )
        } else {
            None
        }
    } else if access_token is Some && expires_in is Some {
        Some(
            TokenResultView::AccessToken {
                access_token: access_token->Some_0,
                expires_in: expires_in->Some_0,
            },
        )
    } else {
        None
    }
}

/// Classifies a token-endpoint response from the fields its body carried;
/// `None` is a malformed response.
pub fn classify_token_response(
    error: Option<String>,
    access_token: Option<String>,
    refresh_token: Option<String>,
    expires_in: Option<u64>,
) -> (r: Option<TokenResult>)
    ensures
        match r {
            Some(t) => spec_classify_token_response(
                spec_opt_view(error),
                spec_opt_view(access_token),
                spec_opt_view(refresh_token),
                expires_in,
            ) == Some(t@),
            None => spec_classify_token_response(
                spec_opt_view(error),
                spec_opt_view(access_token),
                spec_opt_view(refresh_token),
                expires_in,
            ) is None,
        },
{
    match error {
        Some(e) => match parse_token_status(e.as_str()) {
            Some(st) => Some(TokenResult::Error { error: st }),
            None => None,
        },
        None => match refresh_token {
            Some(rt) => match (access_token, expires_in) {
                (Some(at), Some(exp)) => Some(
                    TokenResult::Full { access_token: at, refresh_token: rt, expires_in: exp },
                ),
                _ => None,
            },
            None => match (access_token, expires_in) {
                (Some(at), Some(exp)) => Some(
                    TokenResult::AccessToken { access_token: at, expires_in: exp },
                ),
                _ => None,
            },
        },
    }
}

/// The view of an optional string.
pub open spec fn spec_opt_view(s: Option<String>) -> Option<Seq<char>> {
    match s {
        Some(t) => Some(t@),
        None => None,
    }
}

/// Mathematical model of [`DeviceCodeResponse`].
pub struct GrantView {
    pub device_code: Seq<char>,
    pub user_code: Seq<char>,
    pub verification_uri: Seq<char>,
    pub verification_uri_complete: Seq<char>,
    pub expires_in: u32,
    pub interval: u64,
}

/// One device-authorization grant: the code this device polls with, the
/// code and URIs shown to the human, the grant's lifetime and the minimum
/// seconds between polls. Created once per onboarding attempt.
pub struct DeviceCodeResponse {
    pub device_code: String,
    pub user_code: String,
    pub verification_uri: String,
    pub verification_uri_complete: String,
    pub expires_in: u32,
    pub interval: u64,
}

impl View for DeviceCodeResponse {
    type V = GrantView;

    open spec fn view(&self) -> GrantView {
        GrantView {
            device_code: self.device_code@,
            user_code: self.user_code@,
            verification_uri: self.verification_uri@,
            verification_uri_complete: self.verification_uri_complete@,
            expires_in: self.expires_in,
            interval: self.interval,
        }
    }
}

/// The token endpoint of an issuer domain.
pub fn token_endpoint(issuer: &str) -> (r: String)
    ensures
        r@ == "https://"@ + issuer@ + "/oauth/token"@,
{
    let mut url = String::from_str("https://");
    url.append(issuer);
    url.append("/oauth/token");
    url
}

/// The device-code endpoint of an issuer domain.
pub fn device_code_endpoint(issuer: &str) -> (r: String)
    ensures
        r@ == "https://"@ + issuer@ + "/oauth/device/code"@,
{
    let mut url = String::from_str("https://");
    url.append(issuer);
    url.append("/oauth/device/code");
    url
}

/// The form body of the initial device-authorization request.
pub fn device_code_form(client_id: &str, scope: &str, audience: &str) -> (r: String)
    ensures
        r@ == "client_id="@ + client_id@ + "&scope="@ + scope@ + "&audience="@ + audience@,
{
    let mut body = String::from_str("client_id=");
    body.append(client_id);
    body.append("&scope=");
    body.append(scope);
    body.append("&audience=");
    body.append(audience);
    body
}

/// The form body of one token-endpoint poll under the device-authorization
/// grant.
pub fn poll_form(client_id: &str, device_code: &str) -> (r: String)
    ensures
        r@ == "client_id="@ + client_id@ + "&device_code="@ + device_code@
            + "&grant_type=urn:ietf:params:oauth:grant-type:device_code"@,
{
    let mut body = String::from_str("client_id=");
    body.append(client_id);
    body.append("&device_code=");
    body.append(device_code);
    body.append("&grant_type=urn:ietf:params:oauth:grant-type:device_code");
    body
}

/// The form body of a refresh-grant request.
pub fn refresh_form(client_id: &str, client_secret: &str, refresh_token: &str) -> (r: String)
    ensures
        r@ == "client_id="@ + client_id@ + "&client_secret="@ + client_secret@
            + "&grant_type=refresh_token&refresh_token="@ + refresh_token@,
{
    let mut body = String::from_str("client_id=");
    body.append(client_id);
    body.append("&client_secret=");
    body.append(client_secret);
    body.append("&grant_type=refresh_token&refresh_token=");
    body.append(refresh_token);
    body
}

} // verus!
