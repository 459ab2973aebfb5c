//! Stream authentication: resolving a connecting client's identity from
//! the credentials attached to the request, before any subscription is
//! created.
//!
//! The sources are tried in a fixed order — bearer header, then stream
//! token in the query string, then refresh-token cookie — and the first
//! source present decides alone: a present source that fails to verify is
//! a rejection, never a fallthrough.  The rejection carries no detail, so
//! a caller cannot tell a bad token from a wrong kind.

use vstd::prelude::*;

verus! {

use crate::ident::{uuid_parse, uuid_parse_of};
use crate::token::{spec_verify, JwtService, TokenType};

/// The query-string parameters of a stream connection request.
#[derive(Debug)]
pub struct SseQueryParams {
    pub token: Option<String>,
}

/// The credential sources a connection request may carry.
#[derive(Debug)]
pub struct StreamCredentials {
    pub bearer: Option<String>,
    pub stream_token: Option<String>,
    pub refresh_cookie: Option<String>,
}

/// A rejected stream connection.  Deliberately a single, detail-free
/// value: the authenticator never says which check failed.
#[derive(Debug, Clone, Copy, PartialEq, Eq, Structural)]
pub enum StreamAuthError {
    Unauthorized,
}

pub open spec fn opt_view(o: Option<String>) -> Option<Seq<char>> {
    match o {
        Some(s) => Some(s@),
        None => None,
    }
}

/// The subject a set of credentials resolves to at time `now`, if any:
/// the first source present is verified under its required kind, and no
/// later source is consulted.
pub open spec fn spec_authenticate(
    secret: Seq<u8>,
    bearer: Option<Seq<char>>,
    stream_token: Option<Seq<char>>,
    refresh_cookie: Option<Seq<char>>,
    now: int,
) -> Option<Seq<char>> {
    match bearer {
        Some(t) => spec_verify(secret, t, TokenType::Access, now),
        None => match stream_token {
            Some(t) => spec_verify(secret, t, TokenType::Sse, now),
            None => match refresh_cookie {
                Some(t) => spec_verify(secret, t, TokenType::Refresh, now),
                None => None,
            },
        },
    }
}

/// Resolves the connecting client's identity, or rejects the connection
/// before any subscription exists.
pub fn extract_user_id(jwt_service: &JwtService, creds: &StreamCredentials, now: i64) -> (r:
    Result<u128, StreamAuthError>)
    ensures
        ({
            let v = spec_authenticate(
                jwt_service.spec_secret(),
                opt_view(creds.bearer),
                opt_view(creds.stream_token),
                opt_view(creds.refresh_cookie),
                now as int,
            );
            match v {
                Some(sub) => r == (match uuid_parse_of(sub) {
                    Some(uid) => Ok::<u128, StreamAuthError>(uid),
                    None => Err::<u128, StreamAuthError>(StreamAuthError::Unauthorized),
                }),
                None => r == Err::<u128, StreamAuthError>(StreamAuthError::Unauthorized),
            }
        }),
{
    let claims = if let Some(token) = &creds.bearer {
        match jwt_service.verify_access_token(token.as_str(), now) {
            Ok(c) => c,
            Err(_) => {
                return Err(StreamAuthError::Unauthorized);
            },
        }
    } else if let Some(token) = &creds.stream_token {
        match jwt_service.verify_sse_token(token.as_str(), now) {
            Ok(c) => c,
            Err(_) => {
                return Err(StreamAuthError::Unauthorized);
            },
        }
    } else if let Some(token) = &creds.refresh_cookie {
        match jwt_service.verify_refresh_token(token.as_str(), now) {
            Ok(c) => c,
            Err(_) => {
                return Err(StreamAuthError::Unauthorized);
            },
        }
    } else {
        // No credential source at all: a hard rejection.
        return Err(StreamAuthError::Unauthorized);
    };
    match uuid_parse(claims.sub.as_str()) {
        Some(uid) => Ok(uid),
        None => Err(StreamAuthError::Unauthorized),
    }
}

/// Resolves identity for the stream endpoints that accept only the
/// short-lived query-string token.
pub fn authenticate_sse_query(jwt_service: &JwtService, params: &SseQueryParams, now: i64) -> (r:
    Result<u128, StreamAuthError>)
    ensures
        ({
            let v = spec_authenticate(
                jwt_service.spec_secret(),
                None,
                opt_view(params.token),
                None,
                now as int,
            );
            match v {
                Some(sub) => r == (match uuid_parse_of(sub) {
                    Some(uid) => Ok::<u128, StreamAuthError>(uid),
                    None => Err::<u128, StreamAuthError>(StreamAuthError::Unauthorized),
                }),
                None => r == Err::<u128, StreamAuthError>(StreamAuthError::Unauthorized),
            }
        }),
{
    let token = match &params.token {
        Some(t) => Some(t.clone()),
        None => None,
    };
    let creds = StreamCredentials { bearer: None, stream_token: token, refresh_cookie: None };
    extract_user_id(jwt_service, &creds, now)
}

/// Law: when a bearer header is present it decides alone — the outcome is
/// exactly the access-token verification of the header, whatever stream
/// token or cookie is also attached.
pub proof fn lemma_bearer_header_wins(
    secret: Seq<u8>,
    bearer: Seq<char>,
    stream_token: Option<Seq<char>>,
    refresh_cookie: Option<Seq<char>>,
    now: int,
)
    ensures
        spec_authenticate(secret, Some(bearer), stream_token, refresh_cookie, now) == spec_verify(
            secret,
            bearer,
            TokenType::Access,
            now,
        ),
{
}

/// Law: a stream token that does not verify — expired, wrong kind or bad
/// signature — rejects the connection outright; with no cookie attached
/// there is nothing to fall back to, and the rejection stands.
pub proof fn lemma_bad_stream_token_rejects(secret: Seq<u8>, stream_token: Seq<char>, now: int)
    requires
        spec_verify(secret, stream_token, TokenType::Sse, now) is None,
    ensures
        spec_authenticate(secret, None, Some(stream_token), None, now) is None,
{
}

} // verus!
