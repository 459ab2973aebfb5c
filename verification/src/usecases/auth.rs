//! Authentication use cases: signup, login, logout, token refresh, user
//! creation, and minting of stream tokens.

use vstd::prelude::*;

verus! {

use crate::errors::AppError;
use crate::ident::{uuid_parse, uuid_parse_of, uuid_str_of, uuid_to_string};
use crate::persona::PersonaGenerator;
use crate::repos::UserRepository;
use crate::token::{
    jwt_claims_of,
    spec_verify,
    JwtService,
    TokenType,
    ACCESS_TOKEN_LIFETIME_SECS,
    REFRESH_TOKEN_LIFETIME_SECS,
    SSE_TOKEN_LIFETIME_SECS,
};

/// Whether `password` is the password behind a bcrypt `hash`; a fixed
/// function of the two strings alone.
pub uninterp spec fn bcrypt_matches(password: Seq<char>, hash: Seq<char>) -> bool;

#[verifier::external_type_specification]
#[verifier::external_body]
pub struct ExBcryptError(bcrypt::BcryptError);

/// Relies on bcrypt::hash (default cost): a fresh salted hash which
/// bcrypt::verify accepts for exactly this password.
#[verifier::external_body]
fn bcrypt_hash(password: &str) -> (r: Result<String, bcrypt::BcryptError>)
    ensures
        r matches Ok(h) ==> bcrypt_matches(password@, h@),
{
    bcrypt::hash(password, bcrypt::DEFAULT_COST)
}

/// Relies on bcrypt::verify: a deterministic check of a password against
/// a stored hash (the salt is carried inside the hash).
#[verifier::external_body]
fn bcrypt_verify(password: &str, hash: &str) -> (r: Result<bool, bcrypt::BcryptError>)
    ensures
        r matches Ok(b) ==> b == bcrypt_matches(password@, hash@),
{
    bcrypt::verify(password, hash)
}

/// Tokens issued at user creation.
#[derive(Debug)]
pub struct AuthTokens {
    pub access_token: String,
    pub refresh_token: String,
    pub user_id: String,
}

/// Tokens issued at login.
#[derive(Debug)]
pub struct LoginTokens {
    pub access_token: String,
    pub refresh_token: String,
    pub user_id: String,
}

/// Tokens issued at signup.
#[derive(Debug)]
pub struct SignupTokens {
    pub access_token: String,
    pub refresh_token: String,
    pub user_id: String,
}

/// The result of a refresh: a new access token only — the refresh token
/// itself is kept, not rotated.
#[derive(Debug)]
pub struct RefreshedTokens {
    pub access_token: String,
}

/// Registers a user with credentials and issues their first tokens.
pub struct SignupUseCase<S: UserRepository> {
    pub store: S,
    pub jwt_service: JwtService,
}

impl<S: UserRepository> SignupUseCase<S> {
    pub fn new(store: S, jwt_service: JwtService) -> (r: SignupUseCase<S>)
        ensures
            r.store == store,
            r.jwt_service == jwt_service,
    {
        SignupUseCase { store, jwt_service }
    }

    /// Rejects a taken username; otherwise hashes the password, creates
    /// the user, issues an access and a refresh token bound to the new
    /// identity, and persists the refresh token as the single one on
    /// file.
    pub fn execute(
        &mut self,
        username: String,
        password: String,
        avatar_url: Option<String>,
        now: i64,
    ) -> (r: Result<SignupTokens, AppError>)
        requires
            old(self).store.inv(),
            now + REFRESH_TOKEN_LIFETIME_SECS <= i64::MAX,
        ensures
            final(self).store.inv(),
            final(self).jwt_service == old(self).jwt_service,
            final(self).store.posts() == old(self).store.posts(),
            final(self).store.reactions() == old(self).store.reactions(),
            final(self).store.threshold() == old(self).store.threshold(),
            // A taken name is rejected as exactly a validation error, and
            // only a taken name is.
            (exists|id: u128|
                old(self).store.users().dom().contains(id) && (#[trigger] old(self).store.users()[id]).display_name@ == username@) <==> (r matches Err(e)
                && e matches AppError::Validation(_)),
            // No failure path leaves a user behind.
            r is Err ==> final(self).store.users() == old(self).store.users(),
            // With a free name, only password hashing or the store itself
            // can fail.
            r matches Err(e) ==> (e matches AppError::Validation(_) || e matches AppError::Internal(
                _,
            ) || e matches AppError::Domain(_)),
            r matches Ok(t) ==> ({
                let secret = old(self).jwt_service.spec_secret();
                &&& forall|id: u128|
                    old(self).store.users().dom().contains(id) ==> (#[trigger] old(self).store.users()[id]).display_name@ != username@
                &&& exists|uid: u128|
                    {
                        &&& !old(self).store.users().dom().contains(uid)
                        &&& #[trigger] final(self).store.users().dom() == old(self).store.users().dom().insert(uid)
                        &&& forall|v: u128|
                            v != uid && old(self).store.users().dom().contains(v) ==> final(self).store.users()[v] == old(self).store.users()[v]
                        &&& ({
                            let u = final(self).store.users()[uid];
                            &&& u.display_name@ == username@
                            &&& (u.password_hash matches Some(h) && bcrypt_matches(password@, h@))
                            &&& u.refresh_token == Some(t.refresh_token)
                        })
                        &&& jwt_claims_of(secret, t.access_token@) == Some(
                            (
                                uuid_str_of(uid),
                                now + ACCESS_TOKEN_LIFETIME_SECS,
                                now as int,
                                TokenType::Access.spec_tag(),
                            ),
                        )
                        &&& jwt_claims_of(secret, t.refresh_token@) == Some(
                            (
                                uuid_str_of(uid),
                                now + REFRESH_TOKEN_LIFETIME_SECS,
                                now as int,
                                TokenType::Refresh.spec_tag(),
                            ),
                        )
                        &&& t.user_id@ == uuid_str_of(uid)
                    }
            }),
    {
        match UserRepository::find_by_username(&self.store, username.as_str()) {
            Some(_) => {
                return Err(AppError::validation("Username already registered".to_owned()));
            },
            None => {},
        }
        let password_hash = match bcrypt_hash(password.as_str()) {
            Ok(h) => h,
            Err(_) => {
                return Err(AppError::internal("Failed to hash password".to_owned()));
            },
        };
        let final_avatar: String = match avatar_url {
            Some(a) => a,
            None => PersonaGenerator::generate_avatar(),
        };
        let user = match UserRepository::create_user_with_credentials(
            &mut self.store,
            username,
            Some(final_avatar),
            password_hash,
        ) {
            Ok(u) => u,
            Err(e) => {
                return Err(AppError::Domain(e));
            },
        };
        let access_token = match self.jwt_service.generate_access_token(user.id, now) {
            Ok(t) => t,
            Err(_) => {
                return Err(AppError::internal("Failed to generate access token".to_owned()));
            },
        };
        let refresh_token = match self.jwt_service.generate_refresh_token(user.id, now) {
            Ok(t) => t,
            Err(_) => {
                return Err(AppError::internal("Failed to generate refresh token".to_owned()));
            },
        };
        match UserRepository::update_refresh_token(
            &mut self.store,
            user.id,
            Some(refresh_token.clone()),
        ) {
            Ok(_) => {},
            Err(e) => {
                return Err(AppError::Domain(e));
            },
        }
        let user_id = uuid_to_string(user.id);
        proof {
            assert(final(self).store.users().dom() =~= old(self).store.users().dom().insert(
                user.id,
            ));
        }
        Ok(SignupTokens { access_token, refresh_token, user_id })
    }
}

/// Verifies a password and issues fresh tokens; the refresh token becomes
/// the single one on file.
pub struct LoginUseCase<S: UserRepository> {
    pub store: S,
    pub jwt_service: JwtService,
}

impl<S: UserRepository> LoginUseCase<S> {
    pub fn new(store: S, jwt_service: JwtService) -> (r: LoginUseCase<S>)
        ensures
            r.store == store,
            r.jwt_service == jwt_service,
    {
        LoginUseCase { store, jwt_service }
    }

    /// An unknown username is a not-found error; a user without a
    /// password credential or a wrong password is a validation error, and
    /// nothing moves.  On success both tokens are bound to the matched
    /// user and the refresh token is stored as the single one on file.
    pub fn execute(&mut self, username: String, password: String, now: i64) -> (r: Result<
        LoginTokens,
        AppError,
    >)
        requires
            old(self).store.inv(),
            now + REFRESH_TOKEN_LIFETIME_SECS <= i64::MAX,
        ensures
            final(self).store.inv(),
            final(self).jwt_service == old(self).jwt_service,
            final(self).store.posts() == old(self).store.posts(),
            final(self).store.reactions() == old(self).store.reactions(),
            final(self).store.threshold() == old(self).store.threshold(),
            // Exactly the unknown names are not-found errors.
            (forall|id: u128|
                old(self).store.users().dom().contains(id) ==> (#[trigger] old(self).store.users()[id]).display_name@
                    != username@) <==> (r matches Err(e) && e matches AppError::NotFound(_)),
            // A validation error names a real credential failure: some user
            // carries the name without a credential or with the wrong
            // password.
            (r matches Err(e) && e matches AppError::Validation(_)) ==> (exists|id: u128|
                old(self).store.users().dom().contains(id) && (#[trigger] old(self).store.users()[id]).display_name@
                    == username@ && (match old(self).store.users()[id].password_hash {
                    Some(h) => !bcrypt_matches(password@, h@),
                    None => true,
                })),
            // When every user carrying the name holds a matching
            // credential, the login is owed; only the credential check's
            // own failure can stand in the way.
            ((exists|id: u128|
                old(self).store.users().dom().contains(id) && (#[trigger] old(self).store.users()[id]).display_name@
                    == username@) && (forall|id: u128|
                old(self).store.users().dom().contains(id) && (#[trigger] old(self).store.users()[id]).display_name@
                    == username@ ==> (old(self).store.users()[id].password_hash matches Some(h)
                    && bcrypt_matches(password@, h@)))) ==> (r is Ok || (r matches Err(e)
                && e matches AppError::Internal(_))),
            // No failure path changes the user table.
            r is Err ==> final(self).store.users() == old(self).store.users(),
            r matches Ok(t) ==> (exists|uid: u128|
                {
                    let u0 = old(self).store.users()[uid];
                    let secret = old(self).jwt_service.spec_secret();
                    &&& #[trigger] old(self).store.users().dom().contains(uid)
                    &&& u0.display_name@ == username@
                    &&& (u0.password_hash matches Some(h) && bcrypt_matches(password@, h@))
                    &&& final(self).store.users().dom() == old(self).store.users().dom()
                    &&& forall|v: u128|
                        v != uid && old(self).store.users().dom().contains(v) ==> final(self).store.users()[v] == old(self).store.users()[v]
                    &&& final(self).store.users()[uid].refresh_token == Some(t.refresh_token)
                    &&& final(self).store.users()[uid].display_name == u0.display_name
                    &&& final(self).store.users()[uid].password_hash == u0.password_hash
                    &&& jwt_claims_of(secret, t.access_token@) == Some(
                        (
                            uuid_str_of(uid),
                            now + ACCESS_TOKEN_LIFETIME_SECS,
                            now as int,
                            TokenType::Access.spec_tag(),
                        ),
                    )
                    &&& jwt_claims_of(secret, t.refresh_token@) == Some(
                        (
                            uuid_str_of(uid),
                            now + REFRESH_TOKEN_LIFETIME_SECS,
                            now as int,
                            TokenType::Refresh.spec_tag(),
                        ),
                    )
                    &&& t.user_id@ == uuid_str_of(uid)
                }),
    {
        let user = match UserRepository::find_by_username(&self.store, username.as_str()) {
            Some(u) => u,
            None => {
                return Err(AppError::not_found("User not found".to_owned()));
            },
        };
        let password_hash = match user.password_hash {
            Some(h) => h,
            None => {
                return Err(
                    AppError::validation(
                        "User does not have password authentication enabled".to_owned(),
                    ),
                );
            },
        };
        let is_valid = match bcrypt_verify(password.as_str(), password_hash.as_str()) {
            Ok(b) => b,
            Err(_) => {
                return Err(AppError::internal("Password verification failed".to_owned()));
            },
        };
        if !is_valid {
            return Err(AppError::validation("Invalid password".to_owned()));
        }
        let access_token = match self.jwt_service.generate_access_token(user.id, now) {
            Ok(t) => t,
            Err(_) => {
                return Err(AppError::internal("Failed to generate access token".to_owned()));
            },
        };
        let refresh_token = match self.jwt_service.generate_refresh_token(user.id, now) {
            Ok(t) => t,
            Err(_) => {
                return Err(AppError::internal("Failed to generate refresh token".to_owned()));
            },
        };
        match UserRepository::update_refresh_token(
            &mut self.store,
            user.id,
            Some(refresh_token.clone()),
        ) {
            Ok(_) => {},
            Err(e) => {
                return Err(AppError::Domain(e));
            },
        }
        let user_id = uuid_to_string(user.id);
        Ok(LoginTokens { access_token, refresh_token, user_id })
    }
}

/// Clears the single refresh token on file, so later refresh attempts for
/// the user fail.
pub struct LogoutUseCase<S: UserRepository> {
    pub store: S,
}

impl<S: UserRepository> LogoutUseCase<S> {
    pub fn new(store: S) -> (r: LogoutUseCase<S>)
        ensures
            r.store == store,
    {
        LogoutUseCase { store }
    }

    pub fn execute(&mut self, user_id: u128) -> (r: Result<(), AppError>)
        requires
            old(self).store.inv(),
        ensures
            final(self).store.inv(),
            final(self).store.posts() == old(self).store.posts(),
            final(self).store.reactions() == old(self).store.reactions(),
            final(self).store.threshold() == old(self).store.threshold(),
            !old(self).store.users().dom().contains(user_id) ==> r is Err && final(self).store.users() == old(self).store.users(),
            old(self).store.users().dom().contains(user_id) ==> ({
                &&& r is Ok
                &&& final(self).store.users().dom() == old(self).store.users().dom()
                &&& forall|v: u128|
                    v != user_id && old(self).store.users().dom().contains(v) ==> final(self).store.users()[v] == old(self).store.users()[v]
                &&& final(self).store.users()[user_id].refresh_token is None
                &&& final(self).store.users()[user_id].display_name == old(self).store.users()[
                    user_id
                ].display_name
                &&& final(self).store.users()[user_id].password_hash == old(self).store.users()[
                    user_id
                ].password_hash
            }),
    {
        match UserRepository::update_refresh_token(&mut self.store, user_id, None) {
            Ok(_) => Ok(()),
            Err(e) => Err(AppError::Domain(e)),
        }
    }
}

/// Verifies a presented refresh token against the single one on file and
/// issues a new access token; the refresh token is kept, not rotated.
pub struct RefreshTokenUseCase<S: UserRepository> {
    pub store: S,
    pub jwt_service: JwtService,
}

impl<S: UserRepository> RefreshTokenUseCase<S> {
    pub fn new(store: S, jwt_service: JwtService) -> (r: RefreshTokenUseCase<S>)
        ensures
            r.store == store,
            r.jwt_service == jwt_service,
    {
        RefreshTokenUseCase { store, jwt_service }
    }

    /// The presented token must verify as an unexpired refresh token,
    /// denote a stored user, and equal that user's token on file exactly;
    /// each failure is reported distinctly, and nothing ever moves.
    pub fn execute(&mut self, refresh_token: &str, now: i64) -> (r: Result<
        RefreshedTokens,
        AppError,
    >)
        requires
            old(self).store.inv(),
            now + ACCESS_TOKEN_LIFETIME_SECS <= i64::MAX,
        ensures
            final(self).store == old(self).store,
            final(self).jwt_service == old(self).jwt_service,
            ({
                let secret = old(self).jwt_service.spec_secret();
                let v = spec_verify(secret, refresh_token@, TokenType::Refresh, now as int);
                &&& (v is None ==> (r matches Err(e) && e matches AppError::NotFound(_)))
                &&& (v matches Some(sub) ==> {
                    &&& (uuid_parse_of(sub) is None ==> (r matches Err(e) && e matches AppError::Internal(_)))
                    &&& (uuid_parse_of(sub) matches Some(uid) ==> {
                        let users = old(self).store.users();
                        &&& (!users.dom().contains(uid) ==> (r matches Err(e)
                            && e matches AppError::NotFound(_)))
                        &&& (users.dom().contains(uid) && users[uid].refresh_token is None ==> (
                        r matches Err(e) && e matches AppError::Validation(_)))
                        &&& (users.dom().contains(uid) && (users[uid].refresh_token matches Some(
                            st,
                        ) && st@ != refresh_token@) ==> (r matches Err(e)
                            && e matches AppError::Validation(_)))
                        &&& (users.dom().contains(uid) && (users[uid].refresh_token matches Some(
                            st,
                        ) && st@ == refresh_token@) ==> (r is Ok || (r matches Err(e)
                            && e matches AppError::Internal(_))))
                        &&& (r matches Ok(rt) ==> users.dom().contains(uid) && (users[
                            uid
                        ].refresh_token matches Some(st) && st@ == refresh_token@)
                            && jwt_claims_of(secret, rt.access_token@) == Some(
                            (
                                uuid_str_of(uid),
                                now + ACCESS_TOKEN_LIFETIME_SECS,
                                now as int,
                                TokenType::Access.spec_tag(),
                            ),
                        ))
                    })
                })
            }),
    {
        let claims = match self.jwt_service.verify_refresh_token(refresh_token, now) {
            Ok(c) => c,
            Err(_) => {
                return Err(AppError::not_found("Invalid refresh token".to_owned()));
            },
        };
        let user_id = match uuid_parse(claims.sub.as_str()) {
            Some(u) => u,
            None => {
                return Err(AppError::internal("Invalid user id in token".to_owned()));
            },
        };
        let user = match UserRepository::find_by_id(&self.store, user_id) {
            Some(u) => u,
            None => {
                return Err(AppError::not_found("User not found".to_owned()));
            },
        };
        let stored_token = match user.refresh_token {
            Some(s) => s,
            None => {
                return Err(
                    AppError::validation("No refresh token found for this user".to_owned()),
                );
            },
        };
        if !crate::entities::str_eq(stored_token.as_str(), refresh_token) {
            return Err(AppError::validation("Invalid refresh token".to_owned()));
        }
        let new_access_token = match self.jwt_service.generate_access_token(user_id, now) {
            Ok(t) => t,
            Err(_) => {
                return Err(AppError::internal("Failed to generate access token".to_owned()));
            },
        };
        Ok(RefreshedTokens { access_token: new_access_token })
    }
}

/// Creates an anonymous user and issues their first tokens.
pub struct CreateUserUseCase<S: UserRepository> {
    pub store: S,
    pub jwt_service: JwtService,
}

impl<S: UserRepository> CreateUserUseCase<S> {
    pub fn new(store: S, jwt_service: JwtService) -> (r: CreateUserUseCase<S>)
        ensures
            r.store == store,
            r.jwt_service == jwt_service,
    {
        CreateUserUseCase { store, jwt_service }
    }

    /// Creates a user without credentials and issues an access and a
    /// refresh token bound to the new identity.
    pub fn execute(&mut self, display_name: String, avatar_url: Option<String>, now: i64) -> (r:
        Result<AuthTokens, AppError>)
        requires
            old(self).store.inv(),
            now + REFRESH_TOKEN_LIFETIME_SECS <= i64::MAX,
        ensures
            final(self).store.inv(),
            final(self).jwt_service == old(self).jwt_service,
            final(self).store.posts() == old(self).store.posts(),
            final(self).store.reactions() == old(self).store.reactions(),
            final(self).store.threshold() == old(self).store.threshold(),
            // The store alone can fail, and a failure stores nothing.
            r matches Err(e) ==> e matches AppError::Domain(_),
            r is Err ==> final(self).store.users() == old(self).store.users(),
            r matches Ok(t) ==> (exists|uid: u128|
                {
                    let secret = old(self).jwt_service.spec_secret();
                    &&& !(#[trigger] old(self).store.users().dom().contains(uid))
                    &&& final(self).store.users() == old(self).store.users().insert(
                        uid,
                        final(self).store.users()[uid],
                    )
                    &&& final(self).store.users()[uid].display_name@ == display_name@
                    &&& final(self).store.users()[uid].password_hash is None
                    &&& jwt_claims_of(secret, t.access_token@) == Some(
                        (
                            uuid_str_of(uid),
                            now + ACCESS_TOKEN_LIFETIME_SECS,
                            now as int,
                            TokenType::Access.spec_tag(),
                        ),
                    )
                    &&& jwt_claims_of(secret, t.refresh_token@) == Some(
                        (
                            uuid_str_of(uid),
                            now + REFRESH_TOKEN_LIFETIME_SECS,
                            now as int,
                            TokenType::Refresh.spec_tag(),
                        ),
                    )
                    &&& t.user_id@ == uuid_str_of(uid)
                }),
    {
        let user = match UserRepository::create_user(&mut self.store, display_name, avatar_url) {
            Ok(u) => u,
            Err(e) => {
                return Err(AppError::Domain(e));
            },
        };
        let access_token = match self.jwt_service.generate_access_token(user.id, now) {
            Ok(t) => t,
            Err(_) => {
                return Err(AppError::internal("Failed to generate access token".to_owned()));
            },
        };
        let refresh_token = match self.jwt_service.generate_refresh_token(user.id, now) {
            Ok(t) => t,
            Err(_) => {
                return Err(AppError::internal("Failed to generate refresh token".to_owned()));
            },
        };
        let user_id = uuid_to_string(user.id);
        Ok(AuthTokens { access_token, refresh_token, user_id })
    }
}

/// Mints the short-lived token a client needs to open an event stream.
pub struct GenerateSseTokenUseCase {
    pub jwt_service: JwtService,
}

impl GenerateSseTokenUseCase {
    pub fn new(jwt_service: JwtService) -> (r: GenerateSseTokenUseCase)
        ensures
            r.jwt_service == jwt_service,
    {
        GenerateSseTokenUseCase { jwt_service }
    }

    /// A stream token for `user_id`, expiring one minute after `now`.
    /// Signing is stateless and never fails, so a token is always issued.
    pub fn execute(&self, user_id: u128, now: i64) -> (r: Result<String, AppError>)
        requires
            now + SSE_TOKEN_LIFETIME_SECS <= i64::MAX,
        ensures
            r is Ok,
            r matches Ok(t) ==> jwt_claims_of(self.jwt_service.spec_secret(), t@) == Some(
                (
                    uuid_str_of(user_id),
                    now + SSE_TOKEN_LIFETIME_SECS,
                    now as int,
                    TokenType::Sse.spec_tag(),
                ),
            ),
    {
        match self.jwt_service.generate_sse_token(user_id, now) {
            Ok(t) => Ok(t),
            Err(_) => {
                // Unreachable: the issuer always succeeds.
                proof {
                    assert(false);
                }
                Err(AppError::internal("Failed to generate SSE token".to_owned()))
            },
        }
    }
}

} // verus!
