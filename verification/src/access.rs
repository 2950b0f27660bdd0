use vstd::prelude::*;
use crate::response::{is_text_reply, text_reply, Reply, ReplyBody};
use vstd::string::StringSliceAdditionalSpecFns;

verus! {

/// Who is calling: the PIOKI identifier that the caller's front end attached.
#[derive(Debug, Clone, PartialEq)]
pub struct PIOKIIdentifierData {
    pub id: String,
}

/// Marks a request whose access key matched the service's secret.
#[derive(Debug, Clone, Copy, PartialEq, Eq)]
pub struct AuthenticationState(bool);

impl AuthenticationState {
    /// Whether the state says the caller was authenticated.
    pub closed spec fn authenticated(&self) -> bool {
        self.0
    }

    /// Whether the state says the caller was authenticated.
    pub fn is_authenticated(&self) -> (r: bool)
        ensures
            r == self.authenticated(),
    {
        self.0
    }
}

/// A handler argument that is only there when the request was authenticated.
#[derive(Debug, Clone, Copy, PartialEq, Eq)]
pub struct PortalAuthenticated(pub bool);

/// The identifier carried by the `pioki-identifier` header, where the request has one.
pub fn identifier_extractor(identifier_header: Option<&str>) -> (r: Option<PIOKIIdentifierData>)
    ensures
        match identifier_header {
            Some(h) => r matches Some(d) && d.id@ == h@,
            None => r is None,
        },
{
    match identifier_header {
        Some(h) => Some(PIOKIIdentifierData { id: h.to_owned() }),
        None => None,
    }
}

/// Whether two byte strings are equal.
fn bytes_equal(a: &[u8], b: &[u8]) -> (r: bool)
    ensures
        r == (a@ == b@),
{
    if a.len() != b.len() {
        return false;
    }
    let mut i: usize = 0;
    while i < a.len()
        invariant
            a@.len() == b@.len(),
            0 <= i <= a@.len(),
            a@.take(i as int) == b@.take(i as int),
        decreases a@.len() - i,
    {
        if a[i] != b[i] {
            assert(a@[i as int] != b@[i as int]);
            return false;
        }
        assert(a@.take(i + 1) =~= a@.take(i as int).push(a@[i as int]));
        assert(b@.take(i + 1) =~= b@.take(i as int).push(b@[i as int]));
        i = i + 1;
    }
    assert(a@.take(a@.len() as int) =~= a@);
    assert(b@.take(b@.len() as int) =~= b@);
    true
}

/// Checks the bytes of the `pioki-access-key` header against the service's
/// secret key: a request is marked authenticated exactly when the header is
/// there and its bytes are the key's bytes.
pub fn valid_incoming_source_checker(access_key_header: Option<&[u8]>, access_key: &str) -> (r: Option<
    AuthenticationState,
>)
    ensures
        r is Some <==> (access_key_header matches Some(h) && h@ == access_key.spec_bytes()),
        r matches Some(s) ==> s.authenticated(),
{
    match access_key_header {
        Some(incoming) => {
            if !bytes_equal(incoming, access_key.as_bytes()) {
                return None;
            }
            Some(AuthenticationState(true))
        },
        None => None,
    }
}

impl PortalAuthenticated {
    /// The argument for a request that carries `state`; a request without one is
    /// answered 403 with a fixed text.
    pub fn from_request(state: Option<AuthenticationState>) -> (r: Result<PortalAuthenticated, Reply<()>>)
        ensures
            match state {
                Some(_) => r == Ok::<PortalAuthenticated, Reply<()>>(PortalAuthenticated(true)),
                None => r matches Err(e) && is_text_reply(
                    e,
                    403,
                    "Request not authorized. Must interact with API's via web-browser"@,
                ),
            },
    {
        match state {
            Some(_) => Ok(PortalAuthenticated(true)),
            None => Err(text_reply(403, "Request not authorized. Must interact with API's via web-browser")),
        }
    }
}

/// What the caller's OAuth provider says of a validated access token.
#[derive(Debug, Clone, PartialEq)]
pub struct TokenClaims {
    pub email: Option<String>,
    /// The provider's identifier of the account.
    pub sub: String,
}

/// The account behind an access token, as the service reports it.
#[derive(Debug, Clone, PartialEq)]
pub struct ProviderPayload {
    pub email: String,
    pub id: String,
}

/// The answer to a request that presents an access token: `None` where there
/// was no `Authorization` header, else the provider's verdict on the token. A
/// missing header and a refused token are answered 401; a validated token 200
/// with its email and account identifier.
pub fn oauth_credential_reply(validation: Option<Result<TokenClaims, ()>>) -> (r: Reply<ProviderPayload>)
    requires
        validation matches Some(Ok(c)) ==> c.email is Some,
    ensures
        match validation {
            None => is_text_reply(r, 401, "No authorization header found"@),
            Some(Err(_)) => is_text_reply(r, 401, "Invalid given authorization header"@),
            Some(Ok(c)) => r == Reply::<ProviderPayload> {
                status: 200,
                body: ReplyBody::Raw(ProviderPayload { email: c.email->0, id: c.sub }),
            },
        },
{
    match validation {
        Some(payload) => {
            if let Ok(g_payload) = payload {
                let email = match g_payload.email {
                    Some(e) => e,
                    None => String::new(),
                };
                let data = ProviderPayload { email, id: g_payload.sub };
                return Reply { status: 200, body: ReplyBody::Raw(data) };
            }
            text_reply(401, "Invalid given authorization header")
        },
        None => text_reply(401, "No authorization header found"),
    }
}

/// The answer that tells callers who they are: 200 with their identifier, or
/// 502 where the request carries none.
pub fn identity_reply(identifier_data: Option<PIOKIIdentifierData>) -> (r: Reply<String>)
    ensures
        match identifier_data {
            Some(d) => r == Reply::<String> { status: 200, body: ReplyBody::Raw(d.id) },
            None => is_text_reply(r, 502, "Bad incoming source"@),
        },
{
    match identifier_data {
        Some(identifier) => Reply { status: 200, body: ReplyBody::Raw(identifier.id) },
        None => text_reply(502, "Bad incoming source"),
    }
}

} // verus!
