//! Token claims and the authenticated user.
use vstd::prelude::*;
use vstd::string::*;

verus! {

/// The payload of an access token: user, role, expiry and issue time, in
/// seconds of Unix time.
#[derive(Debug)]
pub struct Claims {
    pub user_id: String,
    pub role: String,
    pub exp: usize,
    pub iat: usize,
}

impl Claims {
    /// The claims of a token issued at `now` that lives `expiration_seconds`;
    /// `None` when the lifetime is negative or the expiry does not fit.
    pub fn issue(user_id: &str, role: &str, now: usize, expiration_seconds: i64) -> (r: Option<
        Claims,
    >)
        ensures
            r is Some <==> 0 <= expiration_seconds && now + expiration_seconds <= usize::MAX,
            r matches Some(c) ==> c.user_id@ == user_id@ && c.role@ == role@ && c.iat == now
                && c.exp == now + expiration_seconds,
    {
        if expiration_seconds < 0 {
            return None;
        }
        let life = expiration_seconds as u64;
        if life as u128 > (usize::MAX - now) as u128 {
            return None;
        }
        Some(
            Claims {
                user_id: String::from_str(user_id),
                role: String::from_str(role),
                exp: now + life as usize,
                iat: now,
            },
        )
    }
}

/// The user a request was authenticated as.
#[derive(Debug)]
pub struct AuthUser {
    pub user_id: String,
    pub role: String,
}

impl AuthUser {
    /// The user named by token claims.
    pub fn from_claims(claims: Claims) -> (r: AuthUser)
        ensures
            r.user_id == claims.user_id,
            r.role == claims.role,
    {
        AuthUser { user_id: claims.user_id, role: claims.role }
    }
}

/// Secret and token lifetime, in seconds, of the token service.
#[derive(Debug)]
pub struct JwtConfig {
    pub secret: String,
    pub expiration: i64,
}

/// The authenticated user, or for test harnesses without authentication a
/// stand-in student `fake_user_123`.
pub fn get_or_fake_user(auth_user: Option<AuthUser>) -> (r: AuthUser)
    ensures
        auth_user matches Some(u) ==> r == u,
        auth_user is None ==> r.user_id@ == "fake_user_123"@ && r.role@ == "student"@,
{
    match auth_user {
        Some(user) => user,
        None => AuthUser {
            user_id: String::from_str("fake_user_123"),
            role: String::from_str("student"),
        },
    }
}

/// The authenticated user, or for test harnesses without authentication a
/// stand-in administrator `fake_admin_123`.
pub fn get_or_fake_admin(auth_user: Option<AuthUser>) -> (r: AuthUser)
    ensures
        auth_user matches Some(u) ==> r == u,
        auth_user is None ==> r.user_id@ == "fake_admin_123"@ && r.role@ == "admin"@,
{
    match auth_user {
        Some(user) => user,
        None => AuthUser {
            user_id: String::from_str("fake_admin_123"),
            role: String::from_str("admin"),
        },
    }
}

} // verus!
