use storefront::app_state::AppState;
use storefront::controllers::auth::{
    dashboard, login, login_at, login_from, register, register_from, register_with,
    registration_failure, LoginRequest, LoginResponse, RegisterRequest, TAKEN_EMAIL,
};
use storefront::controllers::auth_guard::AuthUser;
use storefront::error::ErrorKind;
use storefront::models::user::{Role, User};
use storefront::token::{claims_for, identify, issue, payload_for, verify, Claim, ClaimValue, Claims};

const SALT: &str = "c29tZXNhbHR2YWx1ZTEyMw";
const OTHER_SALT: &str = "YW5vdGhlcnNhbHR2YWx1ZQ";
const NOW: i64 = 1_700_000_000;
const DAY: i64 = 86_400;

fn state() -> AppState {
    AppState { jwt_secret: "a secret for tests".to_string() }
}

fn request(role: Option<&str>) -> RegisterRequest {
    RegisterRequest {
        username: "ada".to_string(),
        password: "correct horse".to_string(),
        email: "ada@example.com".to_string(),
        role: role.map(|name| name.to_string()),
    }
}

fn credentials(password: &str) -> LoginRequest {
    LoginRequest { email: "ada@example.com".to_string(), password: password.to_string() }
}

#[test]
fn registration_stores_a_hash_and_never_the_password() {
    let user = register_with(&request(None), None, 7, SALT).unwrap();
    assert_eq!(user.id, 7);
    assert_eq!(user.username, "ada");
    assert_eq!(user.email, "ada@example.com");
    assert_eq!(user.role, Role::Customer);
    assert_ne!(user.password_hash, "correct horse");
    assert!(user.password_hash.starts_with("$argon2id$v=19$m=19456,t=2,p=1$c29tZXNhbHR2YWx1ZTEyMw$"));
}

#[test]
fn registration_hash_depends_on_password_and_salt() {
    let first = register_with(&request(None), None, 7, SALT).unwrap();
    let again = register_with(&request(None), None, 8, SALT).unwrap();
    let salted = register_with(&request(None), None, 7, OTHER_SALT).unwrap();
    let mut other = request(None);
    other.password = "another password".to_string();
    let changed = register_with(&other, None, 7, SALT).unwrap();
    assert_eq!(first.password_hash, again.password_hash);
    assert_ne!(first.password_hash, salted.password_hash);
    assert_ne!(first.password_hash, changed.password_hash);
}

#[test]
fn registration_takes_the_role_that_is_named() {
    assert_eq!(register_with(&request(Some("vendor")), None, 7, SALT).unwrap().role, Role::Vendor);
    assert_eq!(register_with(&request(Some("customer")), None, 7, SALT).unwrap().role, Role::Customer);
}

#[test]
fn registration_with_an_unknown_role_is_a_bad_request() {
    let refused = register_with(&request(Some("admin")), None, 7, SALT).unwrap_err();
    assert_eq!(refused.kind, ErrorKind::BadRequest);
    assert_eq!(refused.response.error, "Failed to register user");
    assert_eq!(
        register_with(&request(Some("Vendor")), None, 7, SALT).unwrap_err().kind,
        ErrorKind::BadRequest
    );
}

#[test]
fn registration_with_a_salt_that_is_none_fails_inside() {
    let refused = register_with(&request(None), None, 7, "!").unwrap_err();
    assert_eq!(refused.kind, ErrorKind::Internal);
    assert_eq!(refused.response.error, "Internal error hashing password");
}

#[test]
fn second_registration_with_the_same_email_is_a_conflict() {
    let first = register(&request(None), None).unwrap();
    let mut second = request(Some("vendor"));
    second.username = "eve".to_string();
    second.password = "something else".to_string();
    let refused = register(&second, Some(&first)).unwrap_err();
    assert_eq!(refused.kind, ErrorKind::Conflict);
    assert_eq!(refused.status_code(), 409);
    assert_eq!(refused.response.error, "Email already registered");

    let granted = login(&state(), Some(&first), &credentials("correct horse")).unwrap();
    assert_eq!(
        AuthUser::from_request_parts(Some(&granted.token), None, &state()),
        Ok(AuthUser { user_id: first.id, role: Role::Customer })
    );
    let refused = login(&state(), Some(&first), &credentials("wrong horse")).unwrap_err();
    assert_eq!(refused.kind, ErrorKind::Unauthorized);
    assert_eq!(refused.status_code(), 401);
    assert_eq!(refused.response.error, "Invalid credentials");
}

#[test]
fn taken_email_is_a_conflict_whatever_the_role() {
    let first = register_with(&request(None), None, 7, SALT).unwrap();
    let refused = register_with(&request(Some("admin")), Some(&first), 8, SALT).unwrap_err();
    assert_eq!(refused.kind, ErrorKind::Conflict);
    assert_eq!(refused.status_code(), 409);
    assert_eq!(refused.response.error, "Email already registered");
    let refused = register(&request(Some("admin")), Some(&first)).unwrap_err();
    assert_eq!(refused.kind, ErrorKind::Conflict);
    let refused = register_with(&request(Some("vendor")), Some(&first), 8, SALT).unwrap_err();
    assert_eq!(refused.kind, ErrorKind::Conflict);
    let refused = register_with(&request(Some("admin")), None, 8, SALT).unwrap_err();
    assert_eq!(refused.kind, ErrorKind::BadRequest);
}

#[test]
fn registration_is_decided_from_what_hashing_gave() {
    let holder = register_with(&request(None), None, 7, SALT).unwrap();
    let stored = register_from(&request(Some("vendor")), None, 9, Some("a hash".to_string())).unwrap();
    assert_eq!(
        stored,
        User {
            id: 9,
            username: "ada".to_string(),
            email: "ada@example.com".to_string(),
            password_hash: "a hash".to_string(),
            role: Role::Vendor,
        }
    );
    let refused = register_from(&request(None), None, 9, None).unwrap_err();
    assert_eq!(refused.kind, ErrorKind::Internal);
    assert_eq!(refused.response.error, "Internal error hashing password");
    let refused = register_from(&request(Some("admin")), Some(&holder), 9, None).unwrap_err();
    assert_eq!(refused.kind, ErrorKind::Internal);
    let refused = register_from(&request(Some("admin")), Some(&holder), 9, Some("h".to_string())).unwrap_err();
    assert_eq!(refused.kind, ErrorKind::Conflict);
    assert_eq!(refused.response.error, "Email already registered");
    let refused = register_from(&request(Some("admin")), None, 9, Some("h".to_string())).unwrap_err();
    assert_eq!(refused.kind, ErrorKind::BadRequest);
    assert_eq!(refused.response.error, "Failed to register user");
}

#[test]
fn login_is_decided_from_what_the_checks_gave() {
    let token = Some("a.b.c".to_string());
    assert_eq!(
        login_from(true, true, true, token.clone()),
        Ok(LoginResponse { token: "a.b.c".to_string() })
    );
    let refused = login_from(false, true, true, token.clone()).unwrap_err();
    assert_eq!(refused.kind, ErrorKind::NotFound);
    assert_eq!(refused.response.error, "User not found");
    let refused = login_from(true, false, true, token.clone()).unwrap_err();
    assert_eq!(refused.kind, ErrorKind::Internal);
    assert_eq!(refused.response.error, "Invalid password hash format");
    let refused = login_from(true, true, false, token.clone()).unwrap_err();
    assert_eq!(refused.kind, ErrorKind::Unauthorized);
    assert_eq!(refused.response.error, "Invalid credentials");
    let refused = login_from(true, true, true, None).unwrap_err();
    assert_eq!(refused.kind, ErrorKind::Internal);
    assert_eq!(refused.response.error, "Token generation failed");
    assert_eq!(login_from(false, false, false, None).unwrap_err().kind, ErrorKind::NotFound);
    assert_eq!(login_from(true, false, false, None).unwrap_err().kind, ErrorKind::Internal);
}

#[test]
fn fresh_registration_always_goes_through() {
    for password in ["", "x", "correct horse battery staple"] {
        let mut payload = request(Some("vendor"));
        payload.password = password.to_string();
        let user = register(&payload, None).unwrap();
        assert_eq!(user.role, Role::Vendor);
        let granted = login(&state(), Some(&user), &credentials(password)).unwrap();
        assert_eq!(
            AuthUser::from_request_parts(None, Some(&granted.token), &state()),
            Ok(AuthUser { user_id: user.id, role: Role::Vendor })
        );
    }
}

#[test]
fn registration_draws_identifier_and_salt_anew() {
    let first = register(&request(None), None).unwrap();
    let second = register(&request(None), None).unwrap();
    assert_ne!(first.id, second.id);
    assert_ne!(first.password_hash, second.password_hash);
    assert_eq!(first.email, second.email);
}

#[test]
fn store_refusal_of_a_duplicate_key_is_a_conflict() {
    let refused = registration_failure(
        "error returned from database: duplicate key value violates unique constraint \"users_email_key\"",
    );
    assert_eq!(refused.kind, ErrorKind::Conflict);
    assert_eq!(refused.response.error, "Email already registered");
}

#[test]
fn store_refusal_of_a_clash_on_another_key_is_a_bad_request() {
    let refused = registration_failure(
        "error returned from database: duplicate key value violates unique constraint \"users_pkey\"",
    );
    assert_eq!(refused.kind, ErrorKind::BadRequest);
    assert_eq!(refused.status_code(), 400);
    assert_eq!(refused.response.error, "Failed to register user");
    let refused = registration_failure(
        "duplicate key value violates unique constraint \"users_username_key\"",
    );
    assert_eq!(refused.kind, ErrorKind::BadRequest);
    assert_eq!(refused.response.error, "Failed to register user");
    let refused = registration_failure(
        "duplicate key value violates unique constraint \"users_email_key_2\"",
    );
    assert_eq!(refused.kind, ErrorKind::BadRequest);
}

#[test]
fn store_refusal_names_the_taken_email_in_the_stores_words() {
    assert_eq!(
        TAKEN_EMAIL,
        "duplicate key value violates unique constraint \"users_email_key\""
    );
    assert_eq!(registration_failure(TAKEN_EMAIL).kind, ErrorKind::Conflict);
    assert_eq!(registration_failure(TAKEN_EMAIL).status_code(), 409);
    assert_eq!(registration_failure(&TAKEN_EMAIL[1..]).kind, ErrorKind::BadRequest);
    assert_eq!(
        registration_failure("email: duplicate key value").kind,
        ErrorKind::BadRequest
    );
}

#[test]
fn store_refusal_of_any_other_kind_is_a_bad_request() {
    let refused = registration_failure("value too long for type character varying(50)");
    assert_eq!(refused.kind, ErrorKind::BadRequest);
    assert_eq!(refused.status_code(), 400);
    assert_eq!(refused.response.error, "Failed to register user");
    assert_eq!(registration_failure("").kind, ErrorKind::BadRequest);
    assert_eq!(registration_failure("duplicate key").kind, ErrorKind::BadRequest);
}

#[test]
fn login_gives_a_token_that_names_the_user_for_one_day() {
    let user = register_with(&request(Some("vendor")), None, 0x1234, SALT).unwrap();
    let granted = login_at(&state(), Some(&user), &credentials("correct horse"), NOW).unwrap();
    let expected = AuthUser { user_id: 0x1234, role: Role::Vendor };
    assert_eq!(verify(&granted.token, "a secret for tests", NOW), Ok(expected));
    assert_eq!(verify(&granted.token, "a secret for tests", NOW + DAY), Ok(expected));
    assert_eq!(verify(&granted.token, "a secret for tests", NOW + DAY + 1), Err(ErrorKind::Unauthorized));
    assert_eq!(granted.token, issue(0x1234, Role::Vendor, NOW, "a secret for tests").unwrap());
    assert_eq!(granted.token.split('.').count(), 3);
}

#[test]
fn login_without_a_user_finds_nothing() {
    let refused = login_at(&state(), None, &credentials("correct horse"), NOW).unwrap_err();
    assert_eq!(refused.kind, ErrorKind::NotFound);
    assert_eq!(refused.response.error, "User not found");
}

#[test]
fn login_with_a_wrong_password_is_unauthorized() {
    let user = register_with(&request(None), None, 7, SALT).unwrap();
    let refused = login_at(&state(), Some(&user), &credentials("correct horse "), NOW).unwrap_err();
    assert_eq!(refused.kind, ErrorKind::Unauthorized);
    assert_eq!(refused.response.error, "Invalid credentials");
}

#[test]
fn login_against_a_stored_hash_that_is_no_hash_fails_inside() {
    let user = User {
        id: 7,
        username: "ada".to_string(),
        email: "ada@example.com".to_string(),
        password_hash: "correct horse".to_string(),
        role: Role::Customer,
    };
    let refused = login_at(&state(), Some(&user), &credentials("correct horse"), NOW).unwrap_err();
    assert_eq!(refused.kind, ErrorKind::Internal);
    assert_eq!(refused.response.error, "Invalid password hash format");
}

#[test]
fn login_long_before_the_epoch_cannot_make_a_token() {
    let user = register_with(&request(None), None, 7, SALT).unwrap();
    let refused = login_at(&state(), Some(&user), &credentials("correct horse"), -DAY - 1).unwrap_err();
    assert_eq!(refused.kind, ErrorKind::Internal);
    assert_eq!(refused.response.error, "Token generation failed");
    assert!(login_at(&state(), Some(&user), &credentials("correct horse"), -DAY).is_ok());
}

#[test]
fn token_is_good_for_one_day() {
    assert_eq!(
        claims_for(9, Role::Customer, NOW),
        Some(Claims { sub: 9, role: Role::Customer, exp: 1_700_086_400 })
    );
    assert_eq!(claims_for(9, Role::Vendor, 0), Some(Claims { sub: 9, role: Role::Vendor, exp: 86_400 }));
    assert_eq!(claims_for(9, Role::Vendor, -86_400), Some(Claims { sub: 9, role: Role::Vendor, exp: 0 }));
    assert_eq!(claims_for(9, Role::Vendor, -86_401), None);
    assert_eq!(
        claims_for(9, Role::Vendor, i64::MAX),
        Some(Claims { sub: 9, role: Role::Vendor, exp: 9_223_372_036_854_775_807 + 86_400 })
    );
}

#[test]
fn token_signed_with_another_secret_is_refused() {
    let token = issue(9, Role::Customer, NOW, "one secret").unwrap();
    assert_eq!(verify(&token, "one secret", NOW), Ok(AuthUser { user_id: 9, role: Role::Customer }));
    assert_eq!(verify(&token, "another secret", NOW), Err(ErrorKind::Unauthorized));
}

#[test]
fn token_that_was_tampered_with_is_refused() {
    let token = issue(9, Role::Customer, NOW, "one secret").unwrap();
    let forged = issue(10, Role::Vendor, NOW, "one secret").unwrap();
    let signature = token.rsplit('.').next().unwrap();
    let body = &forged[..forged.rfind('.').unwrap()];
    let spliced = format!("{}.{}", body, signature);
    assert_eq!(verify(&spliced, "one secret", NOW), Err(ErrorKind::Unauthorized));
    assert_eq!(verify("", "one secret", NOW), Err(ErrorKind::Unauthorized));
    assert_eq!(verify("a.b.c", "one secret", NOW), Err(ErrorKind::Unauthorized));
    assert_eq!(verify(&token[1..], "one secret", NOW), Err(ErrorKind::Unauthorized));
}

#[test]
fn token_differs_with_each_thing_it_states() {
    let token = issue(9, Role::Customer, NOW, "one secret").unwrap();
    assert_ne!(token, issue(10, Role::Customer, NOW, "one secret").unwrap());
    assert_ne!(token, issue(9, Role::Vendor, NOW, "one secret").unwrap());
    assert_ne!(token, issue(9, Role::Customer, NOW + 1, "one secret").unwrap());
    assert_ne!(token, issue(9, Role::Customer, NOW, "another secret").unwrap());
    assert_eq!(token, issue(9, Role::Customer, NOW, "one secret").unwrap());
}

fn text(name: &str, value: &str) -> Claim {
    Claim { name: name.to_string(), value: Some(ClaimValue::Text(value.to_string())) }
}

fn number(name: &str, value: u64) -> Claim {
    Claim { name: name.to_string(), value: Some(ClaimValue::Number(value)) }
}

fn empty(name: &str) -> Claim {
    Claim { name: name.to_string(), value: None }
}

const ID_TEXT: &str = "00000000-0000-0000-0000-000000000009";

fn held(exp: u64) -> Vec<Claim> {
    vec![number("exp", exp), text("role", "vendor"), text("sub", ID_TEXT)]
}

#[test]
fn payload_states_identifier_role_and_expiry() {
    let claims = Claims { sub: 9, role: Role::Vendor, exp: 100 };
    assert_eq!(payload_for(&claims), vec![text("sub", ID_TEXT), text("role", "vendor"), number("exp", 100)]);
    let caller = Some(AuthUser { user_id: 9, role: Role::Vendor });
    assert_eq!(identify(&payload_for(&claims), 100), caller);
    assert_eq!(identify(&payload_for(&claims), 101), None);
}

#[test]
fn payload_names_the_caller_until_it_runs_out() {
    let caller = Some(AuthUser { user_id: 9, role: Role::Vendor });
    assert_eq!(identify(&held(100), 99), caller);
    assert_eq!(identify(&held(100), 100), caller);
    assert_eq!(identify(&held(100), 101), None);
    assert_eq!(identify(&held(0), -5), caller);
    assert_eq!(identify(&held(u64::MAX), i64::MAX), caller);
}

#[test]
fn payload_may_hold_more_than_the_three_claims() {
    let mut payload = held(100);
    payload.insert(0, text("iss", "someone"));
    payload.push(empty("nested"));
    assert_eq!(identify(&payload, 0), Some(AuthUser { user_id: 9, role: Role::Vendor }));
}

#[test]
fn payload_that_lacks_a_claim_names_nobody() {
    assert_eq!(identify(&Vec::new(), 0), None);
    assert_eq!(identify(&vec![number("exp", 100), text("role", "vendor")], 0), None);
    assert_eq!(identify(&vec![number("exp", 100), text("sub", ID_TEXT)], 0), None);
    assert_eq!(identify(&vec![text("role", "vendor"), text("sub", ID_TEXT)], 0), None);
}

#[test]
fn payload_with_a_claim_of_the_wrong_kind_names_nobody() {
    assert_eq!(identify(&vec![number("exp", 100), text("role", "vendor"), text("sub", "nine")], 0), None);
    assert_eq!(identify(&vec![number("exp", 100), text("role", "admin"), text("sub", ID_TEXT)], 0), None);
    assert_eq!(identify(&vec![number("exp", 100), text("role", ""), text("sub", ID_TEXT)], 0), None);
    assert_eq!(identify(&vec![text("exp", "100"), text("role", "vendor"), text("sub", ID_TEXT)], 0), None);
    assert_eq!(identify(&vec![empty("exp"), text("role", "vendor"), text("sub", ID_TEXT)], 0), None);
    assert_eq!(identify(&vec![number("exp", 100), text("role", "vendor"), number("sub", 9)], 0), None);
    assert_eq!(identify(&vec![number("exp", 100), empty("role"), text("sub", ID_TEXT)], 0), None);
}

#[test]
fn payload_identifier_may_be_spelt_without_hyphens() {
    let payload = vec![number("exp", 1), text("role", "customer"), text("sub", "000000000000000000000000000000ff")];
    assert_eq!(identify(&payload, 0), Some(AuthUser { user_id: 255, role: Role::Customer }));
}

#[test]
fn request_is_admitted_by_its_bearer_token() {
    let token = issue(9, Role::Customer, NOW, "a secret for tests").unwrap();
    let caller = AuthUser { user_id: 9, role: Role::Customer };
    assert_eq!(AuthUser::from_request_parts_at(Some(&token), None, &state(), NOW), Ok(caller));
}

#[test]
fn request_is_admitted_by_its_cookie_when_it_has_no_bearer_token() {
    let token = issue(9, Role::Vendor, NOW, "a secret for tests").unwrap();
    let caller = AuthUser { user_id: 9, role: Role::Vendor };
    assert_eq!(AuthUser::from_request_parts_at(None, Some(&token), &state(), NOW), Ok(caller));
}

#[test]
fn request_with_both_is_judged_by_its_bearer_token() {
    let bearer = issue(9, Role::Customer, NOW, "a secret for tests").unwrap();
    let cookie = issue(10, Role::Vendor, NOW, "a secret for tests").unwrap();
    assert_eq!(
        AuthUser::from_request_parts_at(Some(&bearer), Some(&cookie), &state(), NOW),
        Ok(AuthUser { user_id: 9, role: Role::Customer })
    );
    assert_eq!(
        AuthUser::from_request_parts_at(Some("not a token"), Some(&cookie), &state(), NOW),
        Err(ErrorKind::Unauthorized)
    );
}

#[test]
fn request_without_a_token_is_unauthorized() {
    assert_eq!(AuthUser::from_request_parts_at(None, None, &state(), NOW), Err(ErrorKind::Unauthorized));
    assert_eq!(AuthUser::from_request_parts(None, None, &state()), Err(ErrorKind::Unauthorized));
    assert_eq!(ErrorKind::Unauthorized.status_code(), 401);
}

#[test]
fn request_with_a_token_that_ran_out_is_unauthorized() {
    let token = issue(9, Role::Customer, NOW, "a secret for tests").unwrap();
    assert_eq!(
        AuthUser::from_request_parts_at(Some(&token), None, &state(), NOW + DAY + 1),
        Err(ErrorKind::Unauthorized)
    );
    assert_eq!(
        AuthUser::from_request_parts_at(None, Some(&token), &state(), NOW + DAY + 1),
        Err(ErrorKind::Unauthorized)
    );
}

#[test]
fn request_is_admitted_at_the_present_moment() {
    let user = register_with(&request(Some("vendor")), None, 0x99, SALT).unwrap();
    let granted = login(&state(), Some(&user), &credentials("correct horse")).unwrap();
    assert_eq!(
        AuthUser::from_request_parts(Some(&granted.token), None, &state()),
        Ok(AuthUser { user_id: 0x99, role: Role::Vendor })
    );
    let stale = issue(0x99, Role::Vendor, 1_000_000, "a secret for tests").unwrap();
    assert_eq!(AuthUser::from_request_parts(Some(&stale), None, &state()), Err(ErrorKind::Unauthorized));
}

#[test]
fn dashboard_greets_by_identifier_and_role() {
    let caller = AuthUser { user_id: 0x0123_4567_89ab_cdef_0123_4567_89ab_cdef, role: Role::Vendor };
    assert_eq!(
        dashboard(&caller),
        "Welcome back, user ID: 01234567-89ab-cdef-0123-456789abcdef and you are a vendor"
    );
    let caller = AuthUser { user_id: 0x11, role: Role::Customer };
    assert_eq!(
        dashboard(&caller),
        "Welcome back, user ID: 00000000-0000-0000-0000-000000000011 and you are a customer"
    );
}

#[test]
fn roles_are_read_from_their_names() {
    assert_eq!(Role::parse("customer"), Some(Role::Customer));
    assert_eq!(Role::parse("vendor"), Some(Role::Vendor));
    assert_eq!(Role::parse("Customer"), None);
    assert_eq!(Role::parse(""), None);
    assert_eq!(Role::parse(Role::Customer.as_str()), Some(Role::Customer));
    assert_eq!(Role::parse(Role::Vendor.as_str()), Some(Role::Vendor));
}
