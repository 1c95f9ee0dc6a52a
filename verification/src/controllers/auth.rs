//! Accounts: registering, logging in, and the greeting behind the login.

use vstd::prelude::*;
use vstd::string::StringSliceAdditionalSpecFns;
use vstd::utf8::encode_utf8;
use crate::app_state::AppState;
use crate::clock::unix_now;
use crate::controllers::auth_guard::AuthUser;
use crate::error::{ApiError, ErrorKind};
use crate::ident::{id_text, id_to_text, new_id};
use crate::models::user::{Role, User};
use crate::password::{
    argon2_accepts, argon2_hash, fresh_salt, hash_with_salt, hashes_every_password,
    is_password_hash, matches_hash, parses_as_hash,
};
use crate::text::{contains_bytes, occurs_in, optional_text};
use crate::controllers::auth_guard::admitted;
use crate::token::{
    claims_at, identity_in, identity_until, issue, issued_token, token_payload, TOKEN_LIFETIME_SECS,
};

verus! {

/// What a new user sends to register.
#[derive(Clone, Debug, PartialEq, Eq)]
pub struct RegisterRequest {
    pub username: String,
    pub password: String,
    pub email: String,
    /// `customer` or `vendor`; a customer where it is left out.
    pub role: Option<String>,
}

/// What a user sends to log in.
#[derive(Clone, Debug, PartialEq, Eq)]
pub struct LoginRequest {
    pub email: String,
    pub password: String,
}

/// What a user gets for logging in.
#[derive(Clone, Debug, PartialEq, Eq)]
pub struct LoginResponse {
    pub token: String,
}

/// The words that greet a caller behind the login.
pub open spec fn greeting(auth_user: AuthUser) -> Seq<char> {
    "Welcome back, user ID: "@ + id_text(auth_user.user_id) + " and you are a "@
        + auth_user.role.name()
}

/// Greets the caller by identifier and role.
pub fn dashboard(auth_user: &AuthUser) -> (message: String)
    ensures
        message@ == greeting(*auth_user),
{
    let mut message = "Welcome back, user ID: ".to_owned();
    message.append(id_to_text(auth_user.user_id).as_str());
    message.append(" and you are a ");
    message.append(auth_user.role.as_str());
    message
}

/// The stored user that a lookup found, if it found one.
pub open spec fn user_of(found: Option<&User>) -> Option<User> {
    match found {
        Some(user) => Some(*user),
        None => None,
    }
}

/// The role that a registration asks for: the one it names, a customer
/// where it names none, and no role where it names an unknown one.
pub open spec fn requested_role(role: Option<String>) -> Option<Role> {
    match role {
        Some(name) => Role::named(name@),
        None => Some(Role::Customer),
    }
}

/// What registering under the identifier `user_id` comes to once the
/// password was hashed, told of a result: the user row to store, or the one
/// refusal that is due. `hash` is what hashing gave, if it gave anything.
pub open spec fn is_registration_from(
    result: Result<User, ApiError>,
    payload: RegisterRequest,
    holder: Option<User>,
    user_id: u128,
    hash: Option<Seq<char>>,
) -> bool {
    match result {
        Ok(user) => {
            &&& hash matches Some(text)
            &&& holder is None
            &&& requested_role(payload.role) matches Some(role)
            &&& user.id == user_id
            &&& user.username@ == payload.username@
            &&& user.email@ == payload.email@
            &&& user.password_hash@ == text
            &&& user.role == role
        },
        Err(e) => {
            ||| {
                &&& hash is None
                &&& e.says(ErrorKind::Internal, "Internal error hashing password"@)
            }
            ||| {
                &&& hash is Some
                &&& holder is Some
                &&& e.says(ErrorKind::Conflict, "Email already registered"@)
            }
            ||| {
                &&& hash is Some
                &&& holder is None
                &&& requested_role(payload.role) is None
                &&& e.says(ErrorKind::BadRequest, "Failed to register user"@)
            }
        },
    }
}

/// Registers a user under the identifier `user_id`, given what hashing the
/// password gave and the stored user who has the payload's email address,
/// if there is one.
///
/// Without a hash nothing is stored. An email address that has a holder is
/// a conflict, whatever else the payload holds; an unknown role is a bad
/// request. On success the user row to store comes back, with the hash in
/// the place of the password.
pub fn register_from(
    payload: &RegisterRequest,
    holder: Option<&User>,
    user_id: u128,
    password_hash: Option<String>,
) -> (result: Result<User, ApiError>)
    ensures
        is_registration_from(result, *payload, user_of(holder), user_id, optional_text(password_hash)),
{
    let password_hash = match password_hash {
        Some(text) => text,
        None => {
            return Err(ApiError::with_text(ErrorKind::Internal, "Internal error hashing password"));
        },
    };
    if holder.is_some() {
        return Err(ApiError::with_text(ErrorKind::Conflict, "Email already registered"));
    }
    let role = match &payload.role {
        Some(name) => match Role::parse(name.as_str()) {
            Some(role) => role,
            None => {
                return Err(ApiError::with_text(ErrorKind::BadRequest, "Failed to register user"));
            },
        },
        None => Role::Customer,
    };
    Ok(
        User {
            id: user_id,
            username: payload.username.clone(),
            email: payload.email.clone(),
            password_hash,
            role,
        },
    )
}

/// What registering with the identifier `user_id` and the salt `salt` comes
/// to, told of a result: what [`is_registration_from`] says of the Argon2
/// hash of the password with that salt; and a user who is stored has a
/// hash that is one and that accepts the password.
pub open spec fn is_registration_of(
    result: Result<User, ApiError>,
    payload: RegisterRequest,
    holder: Option<User>,
    user_id: u128,
    salt: Seq<char>,
) -> bool {
    let password = encode_utf8(payload.password@);
    &&& is_registration_from(result, payload, holder, user_id, argon2_hash(password, salt))
    &&& result matches Ok(user) ==> is_password_hash(user.password_hash@) && argon2_accepts(
        password,
        user.password_hash@,
    )
}

/// Registers a user under the identifier `user_id`, hashing the password
/// with `salt`. `holder` is the stored user who has the payload's email
/// address, if there is one. See [`register_from`], which decides once the
/// password is hashed.
pub fn register_with(
    payload: &RegisterRequest,
    holder: Option<&User>,
    user_id: u128,
    salt: &str,
) -> (result: Result<User, ApiError>)
    ensures
        is_registration_of(result, *payload, user_of(holder), user_id, salt@),
{
    let password_hash = match hash_with_salt(payload.password.as_str().as_bytes(), salt) {
        Ok(text) => Some(text),
        Err(_) => None,
    };
    register_from(payload, holder, user_id, password_hash)
}

/// Registers a user under a fresh identifier and with a fresh salt, with
/// which the password is hashed unless it is longer than Argon2 takes. See
/// [`register_with`], which does the work for given ones.
pub fn register(payload: &RegisterRequest, holder: Option<&User>) -> (result: Result<User, ApiError>)
    ensures
        exists|user_id: u128, salt: Seq<char>|
            #[trigger] is_registration_of(result, *payload, user_of(holder), user_id, salt)
                && hashes_every_password(salt),
{
    let salt = fresh_salt();
    let user_id = new_id();
    let result = register_with(payload, holder, user_id, salt.as_str());
    assert(is_registration_of(result, *payload, user_of(holder), user_id, salt@)
        && hashes_every_password(salt@));
    result
}

/// A registration for an email address that has a holder stores nobody:
/// once the password is hashed it is a conflict, whatever role it asks for.
pub proof fn lemma_taken_email_is_refused(
    result: Result<User, ApiError>,
    payload: RegisterRequest,
    holder: User,
    user_id: u128,
    salt: Seq<char>,
)
    requires
        is_registration_of(result, payload, Some(holder), user_id, salt),
    ensures
        result is Err,
        argon2_hash(encode_utf8(payload.password@), salt) is Some ==> (result matches Err(e)
            && e.kind == ErrorKind::Conflict),
{
}

/// A registration with a fresh salt, for an email address that is free,
/// in a known role and with a password of a length that Argon2 takes,
/// goes through: the user is stored under the identifier, with the
/// payload's name and address, in the role asked for.
pub proof fn lemma_free_email_is_registered(
    result: Result<User, ApiError>,
    payload: RegisterRequest,
    user_id: u128,
    salt: Seq<char>,
)
    requires
        is_registration_of(result, payload, None, user_id, salt),
        hashes_every_password(salt),
        encode_utf8(payload.password@).len() <= 0xFFFF_FFFF,
        requested_role(payload.role) is Some,
    ensures
        result matches Ok(user) && user.id == user_id && user.email@ == payload.email@
            && Some(user.role) == requested_role(payload.role),
{
    assert(argon2_hash(encode_utf8(payload.password@), salt) is Some);
}

/// The words with which the store refuses a second user for an email
/// address: the uniqueness of `users.email` carries the name that the
/// store gives it by default.
pub const TAKEN_EMAIL: &'static str = "duplicate key value violates unique constraint \"users_email_key\"";

/// Whether the store's refusal says that the email address is taken.
pub open spec fn says_email_is_taken(reason: Seq<u8>) -> bool {
    occurs_in(TAKEN_EMAIL.spec_bytes(), reason)
}

/// Tells a new user why the store refused their row. It is a conflict if
/// and only if the store says that the email address is taken; any other
/// refusal, a clash on another key too, is a bad request. The store's own
/// words are not passed on.
pub fn registration_failure(reason: &str) -> (e: ApiError)
    ensures
        if says_email_is_taken(reason.spec_bytes()) {
            e.says(ErrorKind::Conflict, "Email already registered"@)
        } else {
            e.says(ErrorKind::BadRequest, "Failed to register user"@)
        },
{
    if contains_bytes(reason.as_bytes(), TAKEN_EMAIL.as_bytes()) {
        ApiError::with_text(ErrorKind::Conflict, "Email already registered")
    } else {
        ApiError::with_text(ErrorKind::BadRequest, "Failed to register user")
    }
}

/// What a login comes to once the stored hash was looked at, the password
/// held against it and a token made, told of a result: the token, or the
/// one refusal that is due.
pub open spec fn is_login_from(
    result: Result<LoginResponse, ApiError>,
    found: bool,
    well_formed: bool,
    accepted: bool,
    token: Option<Seq<char>>,
) -> bool {
    match result {
        Ok(response) => found && well_formed && accepted && token == Some(response.token@),
        Err(e) => {
            ||| !found && e.says(ErrorKind::NotFound, "User not found"@)
            ||| found && !well_formed && e.says(ErrorKind::Internal, "Invalid password hash format"@)
            ||| found && well_formed && !accepted && e.says(
                ErrorKind::Unauthorized,
                "Invalid credentials"@,
            )
            ||| found && well_formed && accepted && token is None && e.says(
                ErrorKind::Internal,
                "Token generation failed"@,
            )
        },
    }
}

/// Decides a login, given whether a user was found for the email address,
/// whether their stored hash is a hash at all, whether it accepts the
/// password, and the token that was made for them, if one was.
///
/// Without a user there is nothing to find; a stored hash that is no hash
/// is an internal failure; a password that is not accepted is
/// unauthorized; without a token the login fails inside. Otherwise the
/// token is handed out.
pub fn login_from(found: bool, well_formed: bool, accepted: bool, token: Option<String>) -> (result:
    Result<LoginResponse, ApiError>)
    ensures
        is_login_from(result, found, well_formed, accepted, optional_text(token)),
{
    if !found {
        return Err(ApiError::with_text(ErrorKind::NotFound, "User not found"));
    }
    if !well_formed {
        return Err(ApiError::with_text(ErrorKind::Internal, "Invalid password hash format"));
    }
    if !accepted {
        return Err(ApiError::with_text(ErrorKind::Unauthorized, "Invalid credentials"));
    }
    match token {
        Some(token) => Ok(LoginResponse { token }),
        None => Err(ApiError::with_text(ErrorKind::Internal, "Token generation failed")),
    }
}

/// What logging in at `now` comes to, told of a result: what
/// [`is_login_from`] says of the stored user's hash, of what Argon2 makes
/// of the password, and of the token issued at `now`. A token is issued
/// unless the day that follows `now` ends before the epoch, and one that
/// is handed out names the user until that day ends.
pub open spec fn is_login_of(
    result: Result<LoginResponse, ApiError>,
    secret: Seq<u8>,
    user: Option<User>,
    payload: LoginRequest,
    now: i64,
) -> bool {
    let password = encode_utf8(payload.password@);
    match user {
        Some(stored) => {
            &&& is_login_from(
                result,
                true,
                is_password_hash(stored.password_hash@),
                argon2_accepts(password, stored.password_hash@),
                issued_token(stored.id, stored.role, now, secret),
            )
            &&& (is_password_hash(stored.password_hash@) && argon2_accepts(
                password,
                stored.password_hash@,
            )) ==> (issued_token(stored.id, stored.role, now, secret) is Some <==> claims_at(
                stored.id,
                stored.role,
                now,
            ) is Some)
            &&& result matches Ok(response) ==> (claims_at(stored.id, stored.role, now) matches Some(
                claims,
            ) && forall|at: i64|
                #[trigger] identity_in(token_payload(response.token@, secret), at) == identity_until(
                    claims,
                    at,
                ))
        },
        None => is_login_from(result, false, false, false, None),
    }
}

/// Logs a user in at `now`. `user` is the stored user who has the payload's
/// email address, if there is one. See [`login_from`], which decides once
/// the hash is looked at, the password held against it and the token made.
pub fn login_at(state: &AppState, user: Option<&User>, payload: &LoginRequest, now: i64) -> (result:
    Result<LoginResponse, ApiError>)
    ensures
        is_login_of(result, state.secret_bytes(), user_of(user), *payload, now),
{
    let stored = match user {
        Some(stored) => stored,
        None => {
            return login_from(false, false, false, None);
        },
    };
    let well_formed = parses_as_hash(stored.password_hash.as_str());
    let accepted = well_formed && matches_hash(
        payload.password.as_str().as_bytes(),
        stored.password_hash.as_str(),
    );
    let token = if accepted {
        issue(stored.id, stored.role, now, state.jwt_secret.as_str())
    } else {
        None
    };
    login_from(true, well_formed, accepted, token)
}

/// Logs a user in at the present moment, which is not before the epoch.
/// See [`login_at`], which does the work for a given moment.
pub fn login(state: &AppState, user: Option<&User>, payload: &LoginRequest) -> (result: Result<
    LoginResponse,
    ApiError,
>)
    ensures
        exists|now: i64|
            #[trigger] is_login_of(result, state.secret_bytes(), user_of(user), *payload, now) && now
                >= 0,
{
    let now = unix_now();
    let result = login_at(state, user, payload, now);
    assert(is_login_of(result, state.secret_bytes(), user_of(user), *payload, now) && now >= 0);
    result
}

/// A user who was registered logs in with the password they registered
/// with, at any moment whose next day does not end before the epoch: the
/// login finds them, takes the stored hash for a hash and the password for
/// a match, and grants the token that names them and their role, good for
/// one day from `now`.
pub proof fn lemma_registered_user_logs_in(
    registered: Result<User, ApiError>,
    payload: RegisterRequest,
    user_id: u128,
    salt: Seq<char>,
    logged_in: Result<LoginResponse, ApiError>,
    secret: Seq<u8>,
    credentials: LoginRequest,
    now: i64,
)
    requires
        is_registration_of(registered, payload, None, user_id, salt),
        (registered matches Ok(user) && is_login_of(logged_in, secret, Some(user), credentials, now)),
        credentials.password@ == payload.password@,
        now >= -TOKEN_LIFETIME_SECS,
    ensures
        (logged_in matches Ok(response) && registered matches Ok(user) && issued_token(
            user_id,
            user.role,
            now,
            secret,
        ) == Some(response.token@)),
{
}

/// The token that a login grants admits its user, in their role, as a
/// bearer token at every moment of the day that follows the login, and
/// nobody after that day.
pub proof fn lemma_granted_token_admits_the_user(
    logged_in: Result<LoginResponse, ApiError>,
    secret: Seq<u8>,
    user: User,
    credentials: LoginRequest,
    now: i64,
    cookie: Option<Seq<char>>,
    at: i64,
)
    requires
        is_login_of(logged_in, secret, Some(user), credentials, now),
        logged_in is Ok,
    ensures
        admitted(Some(logged_in->Ok_0.token@), cookie, secret, at) == if at <= now
            + TOKEN_LIFETIME_SECS {
            Ok::<AuthUser, ErrorKind>(AuthUser { user_id: user.id, role: user.role })
        } else {
            Err::<AuthUser, ErrorKind>(ErrorKind::Unauthorized)
        },
{
    let token = logged_in->Ok_0.token@;
    let claims = claims_at(user.id, user.role, now)->0;
    assert(identity_in(token_payload(token, secret), at) == identity_until(claims, at));
}

} // verus!
