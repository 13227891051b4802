//! Login against a configured credential pair, and the bearer-token guard of
//! the protected routes.

use vstd::prelude::*;
use crate::response::ResponseError;

verus! {

/// How long an issued token stays valid, in seconds.
pub const TOKEN_TTL_SECS: i64 = 86400;

/// The caller identity that a verified token carries.
#[derive(Debug, Clone, PartialEq, Eq)]
pub struct AuthUser {
    pub user_id: String,
}

/// The body of a login request.
#[derive(Debug, Clone, PartialEq, Eq)]
pub struct Login {
    pub username: String,
    pub password: String,
}

/// The one credential pair that may log in, and the subject its tokens name.
#[derive(Debug, Clone, PartialEq, Eq)]
pub struct Credentials {
    pub username: String,
    pub password: String,
    pub user_id: String,
}

impl Default for Credentials {
    /// The administrator account: `admin` / `password`, subject `super_admin`.
    fn default() -> (r: Credentials)
        ensures
            r.username@ == "admin"@,
            r.password@ == "password"@,
            r.user_id@ == "super_admin"@,
    {
        Credentials {
            username: "admin".to_owned(),
            password: "password".to_owned(),
            user_id: "super_admin".to_owned(),
        }
    }
}

/// The claims of a token: its subject and its expiry, in seconds since the
/// Unix epoch.
#[derive(Debug, Clone, PartialEq, Eq)]
pub struct TokenClaims {
    pub sub: String,
    pub exp: i64,
}

/// The expiry of a token issued at `now`, held at the largest time.
pub open spec fn expiry_at(now: i64) -> i64 {
    if now <= i64::MAX - TOKEN_TTL_SECS {
        (now + TOKEN_TTL_SECS) as i64
    } else {
        i64::MAX
    }
}

/// Relies on chrono's `From<SystemTime> for DateTime<Utc>` and
/// `DateTime::timestamp`: the system time in whole seconds since the Unix
/// epoch, negative for a clock set before it. Nothing is promised of its
/// value.
#[verifier::external_body]
fn now_secs() -> (r: i64) {
    chrono::DateTime::<chrono::Utc>::from(std::time::SystemTime::now()).timestamp()
}

/// Checks a login against the credentials and, on a match, gives the claims
/// of a token for the configured subject, valid from `now` for
/// [`TOKEN_TTL_SECS`].
pub fn issue_claims(creds: &Credentials, req: &Login, now: i64) -> (r: Result<
    TokenClaims,
    ResponseError,
>)
    ensures
        (req.username@ == creds.username@ && req.password@ == creds.password@) <==> r is Ok,
        r matches Ok(c) ==> c.sub@ == creds.user_id@ && c.exp == expiry_at(now),
        r matches Err(e) ==> (e matches ResponseError::BadRequest(m) && m@
            == "invalid username or password"@),
{
    if req.username != creds.username || req.password != creds.password {
        return Err(ResponseError::BadRequest("invalid username or password".to_owned()));
    }
    let exp = if now <= i64::MAX - TOKEN_TTL_SECS {
        now + TOKEN_TTL_SECS
    } else {
        i64::MAX
    };
    Ok(TokenClaims { sub: creds.user_id.clone(), exp })
}

/// Logs in at the current time: the claims of [`issue_claims`] for the
/// system clock.
pub fn login(creds: &Credentials, req: &Login) -> (r: Result<TokenClaims, ResponseError>)
    ensures
        (req.username@ == creds.username@ && req.password@ == creds.password@) <==> r is Ok,
        r matches Ok(c) ==> c.sub@ == creds.user_id@ && exists|now: i64| c.exp == expiry_at(now),
        r matches Err(e) ==> (e matches ResponseError::BadRequest(m) && m@
            == "invalid username or password"@),
{
    let now = now_secs();
    issue_claims(creds, req, now)
}

pub open spec fn bearer_prefix() -> Seq<char> {
    "Bearer "@
}

/// The token of an `Authorization` header value that starts with `Bearer `.
pub open spec fn bearer_of(header: Seq<char>) -> Option<Seq<char>> {
    if header.len() >= 7 && header.subrange(0, 7) == bearer_prefix() {
        Some(header.subrange(7, header.len() as int))
    } else {
        None
    }
}

/// The first step of the guard: takes the token out of the `Authorization`
/// header. A missing header, or one without the `Bearer ` prefix, is
/// `Unauthorized`.
pub fn bearer_token(header: Option<&str>) -> (r: Result<String, ResponseError>)
    ensures
        header is None ==> r == Err::<String, ResponseError>(ResponseError::Unauthorized),
        header matches Some(h) ==> match bearer_of(h@) {
            Some(t) => r matches Ok(s) && s@ == t,
            None => r == Err::<String, ResponseError>(ResponseError::Unauthorized),
        },
{
    match header {
        None => Err(ResponseError::Unauthorized),
        Some(h) => {
            let n = h.unicode_len();
            if n < 7 {
                return Err(ResponseError::Unauthorized);
            }
            let head = h.substring_char(0, 7).to_owned();
            let prefix = "Bearer ".to_owned();
            if head != prefix {
                return Err(ResponseError::Unauthorized);
            }
            Ok(h.substring_char(7, n).to_owned())
        },
    }
}

/// The second step of the guard, on what verifying the token's signature
/// gave: `None` for a token that is malformed or not signed with the secret.
/// Such a token, and one whose expiry is not after `now`, is
/// `InvalidToken`; otherwise the caller is the token's subject.
pub fn check_claims(decoded: Option<TokenClaims>, now: i64) -> (r: Result<AuthUser, ResponseError>)
    ensures
        decoded is None ==> r == Err::<AuthUser, ResponseError>(ResponseError::InvalidToken),
        decoded matches Some(c) ==> if c.exp <= now {
            r == Err::<AuthUser, ResponseError>(ResponseError::InvalidToken)
        } else {
            r matches Ok(u) && u.user_id@ == c.sub@
        },
{
    match decoded {
        None => Err(ResponseError::InvalidToken),
        Some(c) => {
            if c.exp <= now {
                Err(ResponseError::InvalidToken)
            } else {
                Ok(AuthUser { user_id: c.sub })
            }
        },
    }
}

/// The second step of the guard at the current time: what
/// [`check_claims`] decides for the system clock.
pub fn authenticate(decoded: Option<TokenClaims>) -> (r: Result<AuthUser, ResponseError>)
    ensures
        decoded is None ==> r == Err::<AuthUser, ResponseError>(ResponseError::InvalidToken),
        decoded matches Some(c) ==> match r {
            Ok(u) => u.user_id@ == c.sub@,
            Err(e) => e == ResponseError::InvalidToken,
        },
{
    let now = now_secs();
    check_claims(decoded, now)
}

} // verus!
