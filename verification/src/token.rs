//! Signed, self-contained tokens: long-lived access and refresh tokens and a
//! very short-lived stream token, all carrying the same claims shape.
//!
//! Signing and signature checking are done by the `jsonwebtoken` crate; what
//! a token decodes to is named by `jwt_claims_of`, and everything else —
//! expiry, kind checking, claim assembly — is verified here.

use vstd::prelude::*;

verus! {

use vstd::string::StringSliceAdditionalSpecFns;
use crate::ident::{uuid_str_of, uuid_to_string};

/// Access tokens live for fifteen minutes.
pub const ACCESS_TOKEN_LIFETIME_SECS: i64 = 15 * 60;

/// Refresh tokens live for thirty days.
pub const REFRESH_TOKEN_LIFETIME_SECS: i64 = 30 * 24 * 60 * 60;

/// Stream tokens live for one minute.
pub const SSE_TOKEN_LIFETIME_SECS: i64 = 60;

/// The kind tag carried inside every token.
#[derive(Debug, Clone, Copy, PartialEq, Eq, Structural)]
pub enum TokenType {
    Access,
    Refresh,
    Sse,
}

impl TokenType {
    /// The wire tag of each kind.
    pub open spec fn spec_tag(self) -> Seq<char> {
        match self {
            TokenType::Access => "access"@,
            TokenType::Refresh => "refresh"@,
            TokenType::Sse => "sse"@,
        }
    }

    pub fn tag(&self) -> (r: &str)
        ensures
            r@ == self.spec_tag(),
    {
        match self {
            TokenType::Access => "access",
            TokenType::Refresh => "refresh",
            TokenType::Sse => "sse",
        }
    }

    /// The kind a wire tag denotes, if any.
    pub open spec fn spec_of_tag(s: Seq<char>) -> Option<TokenType> {
        if s == "access"@ {
            Some(TokenType::Access)
        } else if s == "refresh"@ {
            Some(TokenType::Refresh)
        } else if s == "sse"@ {
            Some(TokenType::Sse)
        } else {
            None
        }
    }

    fn parse_tag(s: &str) -> (r: Option<TokenType>)
        ensures
            r == TokenType::spec_of_tag(s@),
    {
        if crate::entities::str_eq(s, "access") {
            Some(TokenType::Access)
        } else if crate::entities::str_eq(s, "refresh") {
            Some(TokenType::Refresh)
        } else if crate::entities::str_eq(s, "sse") {
            Some(TokenType::Sse)
        } else {
            None
        }
    }
}

/// No two kinds share a wire tag.
pub proof fn lemma_tags_distinct()
    ensures
        forall|k1: TokenType, k2: TokenType|
            k1 != k2 ==> #[trigger] k1.spec_tag() != #[trigger] k2.spec_tag(),
{
    reveal_strlit("access");
    reveal_strlit("refresh");
    reveal_strlit("sse");
    assert("access"@.len() == 6);
    assert("refresh"@.len() == 7);
    assert("sse"@.len() == 3);
}

/// The decoded contents of a token.
#[derive(Debug, Clone, PartialEq, Eq)]
pub struct Claims {
    pub sub: String,
    pub exp: i64,
    pub iat: i64,
    pub token_type: TokenType,
}

/// A token operation failure: signing failed, or the token did not verify.
#[derive(Debug, Clone, Copy, PartialEq, Eq, Structural)]
pub enum TokenError {
    Signing,
    Invalid,
}

/// The claims a token yields under a secret: subject, expiry, issued-at and
/// kind tag — or nothing, when the signature or shape is wrong.  A fixed
/// function of secret and token alone (signature check and payload parse
/// involve no clock and no randomness).
pub uninterp spec fn jwt_claims_of(secret: Seq<u8>, token: Seq<char>) -> Option<
    (Seq<char>, int, int, Seq<char>),
>;

/// The outcome of verifying `token` under `secret`, expecting `kind`, at
/// time `now`: the subject on success.
pub open spec fn spec_verify(
    secret: Seq<u8>,
    token: Seq<char>,
    kind: TokenType,
    now: int,
) -> Option<Seq<char>> {
    match jwt_claims_of(secret, token) {
        Some(t) => if now < t.1 && t.3 == kind.spec_tag() {
            Some(t.0)
        } else {
            None
        },
        None => None,
    }
}

#[verifier::external_type_specification]
#[verifier::external_body]
pub struct ExJwtError(jsonwebtoken::errors::Error);

/// Relies on jsonwebtoken::encode (HS256, default header): the produced
/// token decodes back, under the same secret, to exactly the four claims it
/// was built from.  This call cannot fail: the key family matches the
/// header's algorithm, the payload is a JSON object with string keys and
/// finite numbers, and HMAC signing accepts any key — so the result is
/// always `Ok`.
#[verifier::external_body]
fn jwt_encode(
    secret: &Vec<u8>,
    sub: &String,
    exp: i64,
    iat: i64,
    kind: &str,
) -> (r: Result<String, jsonwebtoken::errors::Error>)
    ensures
        r is Ok,
        r matches Ok(t) ==> jwt_claims_of(secret@, t@) == Some(
            (sub@, exp as int, iat as int, kind@),
        ),
{
    let mut m = serde_json::Map::new();
    m.insert("sub".to_string(), serde_json::Value::String(sub.clone()));
    m.insert("exp".to_string(), serde_json::Value::from(exp));
    m.insert("iat".to_string(), serde_json::Value::from(iat));
    m.insert("token_type".to_string(), serde_json::Value::String(kind.to_string()));
    let key = jsonwebtoken::EncodingKey::from_secret(secret);
    jsonwebtoken::encode(&jsonwebtoken::Header::default(), &serde_json::Value::Object(m), &key)
}

/// Relies on jsonwebtoken::decode (signature check only; expiry is checked
/// by this library's verified code): a deterministic function of secret and
/// token, yielding the payload's subject, expiry, issued-at and kind tag.
#[verifier::external_body]
fn jwt_decode(secret: &Vec<u8>, token: &str) -> (r: Option<(String, i64, i64, String)>)
    ensures
        r matches Some(c) ==> jwt_claims_of(secret@, token@) == Some(
            (c.0@, c.1 as int, c.2 as int, c.3@),
        ),
        r is None ==> jwt_claims_of(secret@, token@) is None,
{
    let key = jsonwebtoken::DecodingKey::from_secret(secret);
    let mut validation = jsonwebtoken::Validation::default();
    validation.validate_exp = false;
    validation.required_spec_claims.clear();
    let data = jsonwebtoken::decode::<serde_json::Value>(token, &key, &validation).ok()?;
    let sub = data.claims.get("sub")?.as_str()?.to_string();
    let exp = data.claims.get("exp")?.as_i64()?;
    let iat = data.claims.get("iat")?.as_i64()?;
    let kind = data.claims.get("token_type")?.as_str()?.to_string();
    Some((sub, exp, iat, kind))
}

/// Issues and verifies the three token kinds under one signing secret.
pub struct JwtService {
    secret: Vec<u8>,
}

impl JwtService {
    pub closed spec fn spec_secret(&self) -> Seq<u8> {
        self.secret@
    }

    pub fn new(secret: &str) -> (r: JwtService)
        ensures
            r.spec_secret() == secret.spec_bytes(),
    {
        JwtService { secret: vstd::slice::slice_to_vec(secret.as_bytes()) }
    }

    /// Issues a token of `kind` for `user_id`, valid for `lifetime` seconds
    /// from `now`.  Signing is stateless and never fails.
    fn issue_token(&self, user_id: u128, kind: TokenType, lifetime: i64, now: i64) -> (r: Result<
        String,
        TokenError,
    >)
        requires
            0 < lifetime,
            now + lifetime <= i64::MAX,
        ensures
            r is Ok,
            r matches Ok(t) ==> jwt_claims_of(self.spec_secret(), t@) == Some(
                (uuid_str_of(user_id), now + lifetime, now as int, kind.spec_tag()),
            ),
    {
        let sub = uuid_to_string(user_id);
        let exp = now + lifetime;
        match jwt_encode(&self.secret, &sub, exp, now, kind.tag()) {
            Ok(t) => Ok(t),
            Err(_) => {
                // Unreachable: HS256 signing of this payload cannot fail.
                proof {
                    assert(false);
                }
                Err(TokenError::Signing)
            },
        }
    }

    /// Issues an access token: subject `user_id`, fifteen minutes from `now`.
    pub fn generate_access_token(&self, user_id: u128, now: i64) -> (r: Result<String, TokenError>)
        requires
            now + ACCESS_TOKEN_LIFETIME_SECS <= i64::MAX,
        ensures
            r is Ok,
            r matches Ok(t) ==> jwt_claims_of(self.spec_secret(), t@) == Some(
                (
                    uuid_str_of(user_id),
                    now + ACCESS_TOKEN_LIFETIME_SECS,
                    now as int,
                    TokenType::Access.spec_tag(),
                ),
            ),
    {
        self.issue_token(user_id, TokenType::Access, ACCESS_TOKEN_LIFETIME_SECS, now)
    }

    /// Issues a refresh token: subject `user_id`, thirty days from `now`.
    pub fn generate_refresh_token(&self, user_id: u128, now: i64) -> (r: Result<
        String,
        TokenError,
    >)
        requires
            now + REFRESH_TOKEN_LIFETIME_SECS <= i64::MAX,
        ensures
            r is Ok,
            r matches Ok(t) ==> jwt_claims_of(self.spec_secret(), t@) == Some(
                (
                    uuid_str_of(user_id),
                    now + REFRESH_TOKEN_LIFETIME_SECS,
                    now as int,
                    TokenType::Refresh.spec_tag(),
                ),
            ),
    {
        self.issue_token(user_id, TokenType::Refresh, REFRESH_TOKEN_LIFETIME_SECS, now)
    }

    /// Issues a stream token: subject `user_id`, one minute from `now`.
    pub fn generate_sse_token(&self, user_id: u128, now: i64) -> (r: Result<String, TokenError>)
        requires
            now + SSE_TOKEN_LIFETIME_SECS <= i64::MAX,
        ensures
            r is Ok,
            r matches Ok(t) ==> jwt_claims_of(self.spec_secret(), t@) == Some(
                (
                    uuid_str_of(user_id),
                    now + SSE_TOKEN_LIFETIME_SECS,
                    now as int,
                    TokenType::Sse.spec_tag(),
                ),
            ),
    {
        self.issue_token(user_id, TokenType::Sse, SSE_TOKEN_LIFETIME_SECS, now)
    }

    /// Decodes a token and checks its expiry against `now`; succeeds exactly
    /// when the signature is good, the kind tag is a known one and `now` is
    /// before the expiry instant.  The kind itself is not constrained here.
    pub fn verify_token(&self, token: &str, now: i64) -> (r: Result<Claims, TokenError>)
        ensures
            r matches Ok(c) ==> ({
                &&& jwt_claims_of(self.spec_secret(), token@) == Some(
                    (c.sub@, c.exp as int, c.iat as int, c.token_type.spec_tag()),
                )
                &&& now < c.exp
            }),
            (match jwt_claims_of(self.spec_secret(), token@) {
                Some(t) => now < t.1 && TokenType::spec_of_tag(t.3) is Some,
                None => false,
            }) <==> r is Ok,
            r is Err ==> r == Err::<Claims, TokenError>(TokenError::Invalid),
    {
        match jwt_decode(&self.secret, token) {
            None => Err(TokenError::Invalid),
            Some((sub, exp, iat, kind_tag)) => {
                match TokenType::parse_tag(kind_tag.as_str()) {
                    None => Err(TokenError::Invalid),
                    Some(kind) => {
                        if now < exp {
                            Ok(Claims { sub, exp, iat, token_type: kind })
                        } else {
                            Err(TokenError::Invalid)
                        }
                    },
                }
            },
        }
    }

    /// Verifies a token of one expected kind: success exactly on
    /// `spec_verify`, and the returned subject is the token's.
    fn verify_kind(&self, token: &str, kind: TokenType, now: i64) -> (r: Result<
        Claims,
        TokenError,
    >)
        ensures
            r is Ok <==> spec_verify(self.spec_secret(), token@, kind, now as int) is Some,
            r matches Ok(c) ==> ({
                &&& spec_verify(self.spec_secret(), token@, kind, now as int) == Some(c.sub@)
                &&& c.token_type == kind
                &&& jwt_claims_of(self.spec_secret(), token@) == Some(
                    (c.sub@, c.exp as int, c.iat as int, kind.spec_tag()),
                )
                &&& now < c.exp
            }),
            r is Err ==> r == Err::<Claims, TokenError>(TokenError::Invalid),
    {
        proof {
            lemma_tags_distinct();
        }
        match self.verify_token(token, now) {
            Err(_) => Err(TokenError::Invalid),
            Ok(c) => {
                if c.token_type == kind {
                    Ok(c)
                } else {
                    Err(TokenError::Invalid)
                }
            },
        }
    }

    /// Verifies an access token.
    pub fn verify_access_token(&self, token: &str, now: i64) -> (r: Result<Claims, TokenError>)
        ensures
            r is Ok <==> spec_verify(self.spec_secret(), token@, TokenType::Access, now as int) is Some,
            r matches Ok(c) ==> spec_verify(self.spec_secret(), token@, TokenType::Access, now as int)
                == Some(c.sub@) && c.token_type == TokenType::Access && now < c.exp,
            r is Err ==> r == Err::<Claims, TokenError>(TokenError::Invalid),
    {
        self.verify_kind(token, TokenType::Access, now)
    }

    /// Verifies a refresh token.
    pub fn verify_refresh_token(&self, token: &str, now: i64) -> (r: Result<Claims, TokenError>)
        ensures
            r is Ok <==> spec_verify(self.spec_secret(), token@, TokenType::Refresh, now as int) is Some,
            r matches Ok(c) ==> spec_verify(self.spec_secret(), token@, TokenType::Refresh, now as int)
                == Some(c.sub@) && c.token_type == TokenType::Refresh && now < c.exp,
            r is Err ==> r == Err::<Claims, TokenError>(TokenError::Invalid),
    {
        self.verify_kind(token, TokenType::Refresh, now)
    }

    /// Verifies a stream token.
    pub fn verify_sse_token(&self, token: &str, now: i64) -> (r: Result<Claims, TokenError>)
        ensures
            r is Ok <==> spec_verify(self.spec_secret(), token@, TokenType::Sse, now as int) is Some,
            r matches Ok(c) ==> spec_verify(self.spec_secret(), token@, TokenType::Sse, now as int)
                == Some(c.sub@) && c.token_type == TokenType::Sse && now < c.exp,
            r is Err ==> r == Err::<Claims, TokenError>(TokenError::Invalid),
    {
        self.verify_kind(token, TokenType::Sse, now)
    }
}

/// Law: round trip.  A token whose claims carry subject `uuid_str_of(id)`
/// and kind `kind` — as every token this library issues for `id` under
/// `kind` does — verifies under `kind` before its expiry instant, and the
/// subject it yields is `id`'s own text form, and no other identifier's.
pub proof fn lemma_token_round_trip(
    secret: Seq<u8>,
    token: Seq<char>,
    id: u128,
    exp: int,
    iat: int,
    kind: TokenType,
    now: int,
)
    requires
        jwt_claims_of(secret, token) == Some((uuid_str_of(id), exp, iat, kind.spec_tag())),
        now < exp,
    ensures
        spec_verify(secret, token, kind, now) == Some(uuid_str_of(id)),
{
}

/// Law: kind mismatch.  A token carrying one kind's tag never verifies when
/// another kind is expected.
pub proof fn lemma_token_kind_mismatch(
    secret: Seq<u8>,
    token: Seq<char>,
    sub: Seq<char>,
    exp: int,
    iat: int,
    carried: TokenType,
    expected: TokenType,
    now: int,
)
    requires
        jwt_claims_of(secret, token) == Some((sub, exp, iat, carried.spec_tag())),
        carried != expected,
    ensures
        spec_verify(secret, token, expected, now) is None,
{
    lemma_tags_distinct();
}

/// Law: expiry.  A token verified at or after its expiry instant fails,
/// whatever its kind.
pub proof fn lemma_token_expired(
    secret: Seq<u8>,
    token: Seq<char>,
    sub: Seq<char>,
    exp: int,
    iat: int,
    tag: Seq<char>,
    kind: TokenType,
    now: int,
)
    requires
        jwt_claims_of(secret, token) == Some((sub, exp, iat, tag)),
        now >= exp,
    ensures
        spec_verify(secret, token, kind, now) is None,
{
}

} // verus!
