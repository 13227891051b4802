use company_service::auth::{
    authenticate, bearer_token, check_claims, issue_claims, login, AuthUser, Credentials, Login,
    TokenClaims, TOKEN_TTL_SECS,
};
use company_service::response::{ResponseError, ResponseErrorBody};
use company_service::success::ResponseSuccessBody;

fn s(x: &str) -> String {
    x.to_string()
}

#[test]
fn missing_or_non_bearer_header_is_unauthorized() {
    assert_eq!(bearer_token(None), Err(ResponseError::Unauthorized));
    assert_eq!(bearer_token(Some("Basic abc")), Err(ResponseError::Unauthorized));
    assert_eq!(bearer_token(Some("Bearer")), Err(ResponseError::Unauthorized));
    assert_eq!(bearer_token(Some("bearer abc")), Err(ResponseError::Unauthorized));
    assert_eq!(bearer_token(Some("Bearer abc.def")), Ok(s("abc.def")));
    assert_eq!(bearer_token(Some("Bearer ")), Ok(s("")));
}

#[test]
fn expired_or_malformed_token_is_invalid() {
    let claims = TokenClaims { sub: s("super_admin"), exp: 1000 };
    assert_eq!(check_claims(None, 10), Err(ResponseError::InvalidToken));
    assert_eq!(check_claims(Some(claims.clone()), 1000), Err(ResponseError::InvalidToken));
    assert_eq!(check_claims(Some(claims.clone()), 2000), Err(ResponseError::InvalidToken));
    assert_eq!(check_claims(Some(claims), 999), Ok(AuthUser { user_id: s("super_admin") }));
    assert_eq!(authenticate(None), Err(ResponseError::InvalidToken));
    let expired = TokenClaims { sub: s("u"), exp: 1 };
    assert_eq!(authenticate(Some(expired)), Err(ResponseError::InvalidToken));
    let later = TokenClaims { sub: s("u"), exp: i64::MAX };
    assert_eq!(authenticate(Some(later)), Ok(AuthUser { user_id: s("u") }));
}

#[test]
fn login_checks_the_credential_pair() {
    let creds = Credentials::default();
    assert_eq!(creds.username, "admin");
    let good = Login { username: s("admin"), password: s("password") };
    let c = issue_claims(&creds, &good, 1_000).unwrap();
    assert_eq!(c, TokenClaims { sub: s("super_admin"), exp: 1_000 + TOKEN_TTL_SECS });
    assert_eq!(issue_claims(&creds, &good, i64::MAX).unwrap().exp, i64::MAX);
    let bad = Login { username: s("admin"), password: s("nope") };
    assert_eq!(
        issue_claims(&creds, &bad, 0),
        Err(ResponseError::BadRequest(s("invalid username or password")))
    );
    let before = chrono::Utc::now().timestamp();
    let t = login(&creds, &good).unwrap();
    assert!(t.exp >= before + TOKEN_TTL_SECS);
    assert!(login(&creds, &bad).is_err());
}

#[test]
fn error_bodies_and_descriptions() {
    let b = ResponseError::BadRequest(s("Name is required")).into_body();
    assert_eq!(b, ResponseErrorBody { status: 400, message: s("Name is required"), detail: None });
    let b = ResponseError::NotFound(s("data not found")).into_body();
    assert_eq!(b.status, 404);
    let b = ResponseError::DatabaseError.into_body();
    assert_eq!(
        b,
        ResponseErrorBody {
            status: 500,
            message: s("internal server error"),
            detail: Some(s("critical storage error"))
        }
    );
    assert_eq!(ResponseError::Unauthorized.into_body().message, "unauthorized");
    assert_eq!(ResponseError::InvalidToken.into_body().status, 401);
    assert_eq!(ResponseError::InternalServerError.status(), 500);
    assert_eq!(ResponseError::BadRequest(s("x")).describe(), "warning_bad_request: x");
    assert_eq!(ResponseError::NotFound(s("y")).describe(), "warning_not_found: y");
    assert_eq!(ResponseError::DatabaseError.describe(), "error_storage");
    assert_eq!(ResponseError::InvalidToken.describe(), "invalid_token");
}

#[test]
fn success_bodies() {
    let b = ResponseSuccessBody::success(201, Some(5u8));
    assert_eq!((b.message.as_str(), b.http_code, b.data, b.meta), ("success", 201, Some(5u8), None));
    let p = ResponseSuccessBody::<u8>::paginated(1, 7, 15, None);
    assert_eq!(p.http_code, 200);
    assert_eq!(p.meta.unwrap().total_page, 3);
}
