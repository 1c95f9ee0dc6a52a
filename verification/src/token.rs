//! Session tokens: signed statements of who a caller is, good for one day.

use vstd::prelude::*;
use vstd::string::StringSliceAdditionalSpecFns;
use crate::controllers::auth_guard::AuthUser;
use crate::error::ErrorKind;
use crate::ident::{id_text, id_to_text, parse_id, parsed_id};
use crate::models::user::Role;
use crate::text::same_text;

verus! {

/// What went wrong inside the token library.
#[verifier::external_type_specification]
#[verifier::external_body]
pub struct ExTokenError(jsonwebtoken::errors::Error);

/// For how many seconds a token is good after it was issued.
pub const TOKEN_LIFETIME_SECS: i64 = 86_400;

/// What a token states: who the caller is, in which role, and until when
/// the token is good, in seconds since the Unix epoch.
#[derive(Clone, Copy, Debug, PartialEq, Eq, Structural)]
pub struct Claims {
    pub sub: u128,
    pub role: Role,
    pub exp: u64,
}

/// The value of one claim of a payload.
#[derive(Clone, Debug, PartialEq, Eq)]
pub enum ClaimValue {
    Text(String),
    /// A whole number that is not negative.
    Number(u64),
}

/// A [`ClaimValue`] as a plain value.
pub enum ClaimValueView {
    Text(Seq<char>),
    Number(u64),
}

impl View for ClaimValue {
    type V = ClaimValueView;

    open spec fn view(&self) -> ClaimValueView {
        match self {
            ClaimValue::Text(text) => ClaimValueView::Text(text@),
            ClaimValue::Number(number) => ClaimValueView::Number(*number),
        }
    }
}

/// One claim of a payload: its name, and its value where that is text or
/// a whole number that is not negative.
#[derive(Clone, Debug, PartialEq, Eq)]
pub struct Claim {
    pub name: String,
    pub value: Option<ClaimValue>,
}

/// A [`Claim`] as plain values.
pub struct ClaimView {
    pub name: Seq<char>,
    pub value: Option<ClaimValueView>,
}

impl View for Claim {
    type V = ClaimView;

    open spec fn view(&self) -> ClaimView {
        ClaimView {
            name: self.name@,
            value: match self.value {
                Some(value) => Some(value@),
                None => None,
            },
        }
    }
}

/// The claims of a payload as plain values.
pub open spec fn claim_views(payload: Seq<Claim>) -> Seq<ClaimView> {
    payload.map_values(|claim: Claim| claim@)
}

/// The token whose payload holds `payload`, signed with `secret`; or `None`
/// where the token library fails.
pub uninterp spec fn signed_token(payload: Seq<ClaimView>, secret: Seq<u8>) -> Option<Seq<char>>;

/// The claims that a token holds, if it is well formed, carries a numeric
/// `exp` and its signature is that of `secret`; `None` otherwise. Whether
/// the token has run out plays no part.
pub uninterp spec fn token_payload(token: Seq<char>, secret: Seq<u8>) -> Option<Seq<ClaimView>>;

/// Whether the token library reads a payload back once it has signed it:
/// no two claims have one name, `exp` is a number, and there is no `aud`
/// in text, which it would want to be told to expect.
pub open spec fn reads_back(payload: Seq<ClaimView>) -> bool {
    &&& forall|i: int, j: int|
        0 <= i < j < payload.len() ==> (#[trigger] payload[i]).name != (#[trigger] payload[j]).name
    &&& number_claim(payload, "exp"@) is Some
    &&& text_claim(payload, "aud"@) is None
}

/// Whether two payloads hold the same value, or none, under every name.
pub open spec fn same_claims(one: Seq<ClaimView>, other: Seq<ClaimView>) -> bool {
    forall|name: Seq<char>| #[trigger] claim_named(one, name) == claim_named(other, name)
}

/// Signs a token.
///
/// Trusted: calls `jsonwebtoken::encode` with the default header (HS256),
/// a key made by `EncodingKey::from_secret`, and a JSON object that holds
/// each claim under its name, a claim without a value as `null`. The result
/// is a function of the claims and the secret alone, named [`signed_token`].
/// A token does come back: with a key made from a secret and the default
/// header the library signs by HMAC, which does not fail, and writing out
/// a JSON object of text, numbers and `null` does not fail either. A token
/// for a payload that [`reads_back`] stands the check of
/// `jsonwebtoken::decode` with the same secret as [`jwt_decode`] makes it,
/// and holds the same claims.
#[verifier::external_body]
fn jwt_encode(payload: &Vec<Claim>, secret: &[u8]) -> (token: Result<String, jsonwebtoken::errors::Error>)
    ensures
        match token {
            Ok(text) => signed_token(claim_views(payload@), secret@) == Some(text@),
            Err(_) => signed_token(claim_views(payload@), secret@) is None,
        },
        token is Ok,
        token matches Ok(text) ==> (reads_back(claim_views(payload@)) ==> (token_payload(
            text@,
            secret@,
        ) matches Some(held) && same_claims(held, claim_views(payload@)))),
{
    let mut object = serde_json::Map::new();
    for claim in payload.iter() {
        let value = match &claim.value {
            Some(ClaimValue::Text(text)) => serde_json::Value::from(text.as_str()),
            Some(ClaimValue::Number(number)) => serde_json::Value::from(*number),
            None => serde_json::Value::Null,
        };
        object.insert(claim.name.clone(), value);
    }
    let key = jsonwebtoken::EncodingKey::from_secret(secret);
    jsonwebtoken::encode(&jsonwebtoken::Header::default(), &object, &key)
}

/// Checks a token's form and signature and reads its payload.
///
/// Trusted: calls `jsonwebtoken::decode` with a key made by
/// `DecodingKey::from_secret` and the default validation (HS256, `exp`
/// required) with the comparison of `exp` against the clock switched off,
/// so that the result is a function of token and secret alone, named
/// [`token_payload`]. Every member of the payload object is handed out
/// under its name, with its value where that is a string or a number that
/// fits `u64`.
#[verifier::external_body]
fn jwt_decode(token: &str, secret: &[u8]) -> (payload: Result<Vec<Claim>, jsonwebtoken::errors::Error>)
    ensures
        match payload {
            Ok(held) => token_payload(token@, secret@) == Some(claim_views(held@)),
            Err(_) => token_payload(token@, secret@) is None,
        },
{
    let mut validation = jsonwebtoken::Validation::default();
    validation.validate_exp = false;
    let key = jsonwebtoken::DecodingKey::from_secret(secret);
    let data = jsonwebtoken::decode::<serde_json::Map<String, serde_json::Value>>(token, &key, &validation)?;
    let mut payload = Vec::new();
    for (name, value) in data.claims {
        let value = match value {
            serde_json::Value::String(text) => Some(ClaimValue::Text(text)),
            serde_json::Value::Number(number) => number.as_u64().map(ClaimValue::Number),
            _ => None,
        };
        payload.push(Claim { name, value });
    }
    Ok(payload)
}

/// The value of the first claim of that name, if there is such a claim and
/// it has a value.
pub open spec fn claim_named(payload: Seq<ClaimView>, name: Seq<char>) -> Option<ClaimValueView>
    decreases payload.len(),
{
    if payload.len() == 0 {
        None
    } else if payload.first().name == name {
        payload.first().value
    } else {
        claim_named(payload.drop_first(), name)
    }
}

/// The text that a payload holds under a name.
pub open spec fn text_claim(payload: Seq<ClaimView>, name: Seq<char>) -> Option<Seq<char>> {
    match claim_named(payload, name) {
        Some(ClaimValueView::Text(text)) => Some(text),
        _ => None,
    }
}

/// The number that a payload holds under a name.
pub open spec fn number_claim(payload: Seq<ClaimView>, name: Seq<char>) -> Option<u64> {
    match claim_named(payload, name) {
        Some(ClaimValueView::Number(number)) => Some(number),
        _ => None,
    }
}

/// The payload that states `claims`: the identifier as UUID text under
/// `sub`, the role's name under `role`, the expiry under `exp`.
pub open spec fn payload_of(claims: Claims) -> Seq<ClaimView> {
    seq![
        ClaimView { name: "sub"@, value: Some(ClaimValueView::Text(id_text(claims.sub))) },
        ClaimView { name: "role"@, value: Some(ClaimValueView::Text(claims.role.name())) },
        ClaimView { name: "exp"@, value: Some(ClaimValueView::Number(claims.exp)) },
    ]
}

/// What a token issued at `now` states: it is good for one day. There is
/// none where that day's end is before the epoch.
pub open spec fn claims_at(user_id: u128, role: Role, now: i64) -> Option<Claims> {
    if now + TOKEN_LIFETIME_SECS >= 0 {
        Some(Claims { sub: user_id, role, exp: (now + TOKEN_LIFETIME_SECS) as u64 })
    } else {
        None
    }
}

/// The token issued to a user at `now`, if one can be made.
pub open spec fn issued_token(user_id: u128, role: Role, now: i64, secret: Seq<u8>) -> Option<
    Seq<char>,
> {
    match claims_at(user_id, role, now) {
        Some(claims) => signed_token(payload_of(claims), secret),
        None => None,
    }
}

/// Who a payload says the caller is, at `now`: it must hold text under
/// `sub` that spells an identifier, text under `role` that names a role,
/// and a number under `exp` that `now` has not passed.
pub open spec fn identity_in(payload: Option<Seq<ClaimView>>, now: i64) -> Option<AuthUser> {
    match payload {
        Some(held) => match (
            text_claim(held, "sub"@),
            text_claim(held, "role"@),
            number_claim(held, "exp"@),
        ) {
            (Some(sub), Some(role), Some(exp)) => match (parsed_id(sub), Role::named(role)) {
                (Some(user_id), Some(role)) => if exp >= now {
                    Some(AuthUser { user_id, role })
                } else {
                    None
                },
                _ => None,
            },
            _ => None,
        },
        None => None,
    }
}

/// What a token issued at `now` states; see [`claims_at`].
pub fn claims_for(user_id: u128, role: Role, now: i64) -> (claims: Option<Claims>)
    ensures
        claims == claims_at(user_id, role, now),
{
    if now >= 0 {
        Some(Claims { sub: user_id, role, exp: now as u64 + TOKEN_LIFETIME_SECS as u64 })
    } else if now >= -TOKEN_LIFETIME_SECS {
        Some(Claims { sub: user_id, role, exp: (now + TOKEN_LIFETIME_SECS) as u64 })
    } else {
        None
    }
}

/// Who claims name at a moment: their user in their role, until they run out.
pub open spec fn identity_until(claims: Claims, at: i64) -> Option<AuthUser> {
    if claims.exp >= at {
        Some(AuthUser { user_id: claims.sub, role: claims.role })
    } else {
        None
    }
}

/// The payload that states `claims`; see [`payload_of`]. Read back, it
/// names the user of the claims, in their role, until it runs out.
pub fn payload_for(claims: &Claims) -> (payload: Vec<Claim>)
    ensures
        claim_views(payload@) == payload_of(*claims),
        reads_back(claim_views(payload@)),
        forall|at: i64|
            #[trigger] identity_in(Some(claim_views(payload@)), at) == identity_until(*claims, at),
{
    let sub = id_to_text(claims.sub);
    let mut payload: Vec<Claim> = Vec::new();
    payload.push(Claim { name: "sub".to_owned(), value: Some(ClaimValue::Text(sub)) });
    payload.push(
        Claim { name: "role".to_owned(), value: Some(ClaimValue::Text(claims.role.as_str().to_owned())) },
    );
    payload.push(Claim { name: "exp".to_owned(), value: Some(ClaimValue::Number(claims.exp)) });
    proof {
        let stated = payload_of(*claims);
        assert(claim_views(payload@) =~= stated);
        reveal_strlit("sub");
        reveal_strlit("role");
        reveal_strlit("exp");
        reveal_strlit("aud");
        assert("sub"@.len() != "role"@.len());
        assert("sub"@[0] != "exp"@[0]);
        assert("role"@.len() != "exp"@.len());
        assert("aud"@[0] != "sub"@[0]);
        assert("aud"@.len() != "role"@.len());
        assert("aud"@[0] != "exp"@[0]);
        let after_sub = stated.drop_first();
        let after_role = after_sub.drop_first();
        assert(after_sub.first() == stated[1]);
        assert(after_role.first() == stated[2]);
        assert(after_role.drop_first().len() == 0);
        reveal_with_fuel(claim_named, 4);
        assert(claim_named(stated, "sub"@) == stated[0].value);
        assert(claim_named(stated, "role"@) == stated[1].value);
        assert(claim_named(stated, "exp"@) == stated[2].value);
        assert(claim_named(stated, "aud"@) is None);
        Role::lemma_name_round_trip(claims.role);
    }
    payload
}

/// Issues a token to a user at `now`, signed with `secret`, unless the
/// day that follows `now` ends before the epoch. The token states the
/// user's identifier and role and runs out one day after `now`: checked
/// with the same secret, it names that user in that role at every moment
/// up to then, and nobody after.
pub fn issue(user_id: u128, role: Role, now: i64, secret: &str) -> (token: Option<String>)
    ensures
        match token {
            Some(text) => issued_token(user_id, role, now, secret.spec_bytes()) == Some(text@),
            None => issued_token(user_id, role, now, secret.spec_bytes()) is None,
        },
        token is Some <==> claims_at(user_id, role, now) is Some,
        token matches Some(text) ==> (claims_at(user_id, role, now) matches Some(claims)
            && forall|at: i64|
            #[trigger] identity_in(token_payload(text@, secret.spec_bytes()), at) == identity_until(
                claims,
                at,
            )),
{
    match claims_for(user_id, role, now) {
        Some(claims) => {
            let payload = payload_for(&claims);
            match jwt_encode(&payload, secret.as_bytes()) {
                Ok(text) => {
                    proof {
                        let stated = claim_views(payload@);
                        let held = token_payload(text@, secret.spec_bytes())->0;
                        assert(same_claims(held, stated));
                        assert(claim_named(held, "sub"@) == claim_named(stated, "sub"@));
                        assert(claim_named(held, "role"@) == claim_named(stated, "role"@));
                        assert(claim_named(held, "exp"@) == claim_named(stated, "exp"@));
                        assert forall|at: i64|
                            #[trigger] identity_in(
                                token_payload(text@, secret.spec_bytes()),
                                at,
                            ) == identity_until(claims, at) by {
                            assert(identity_in(Some(held), at) == identity_in(Some(stated), at));
                        }
                    }
                    Some(text)
                },
                Err(_) => None,
            }
        },
        None => None,
    }
}

fn find_claim<'a>(payload: &'a Vec<Claim>, name: &str) -> (found: Option<&'a ClaimValue>)
    ensures
        match found {
            Some(value) => claim_named(claim_views(payload@), name@) == Some(value@),
            None => claim_named(claim_views(payload@), name@) is None,
        },
{
    let ghost held = claim_views(payload@);
    let mut i: usize = 0;
    assert(held.skip(0) =~= held);
    while i < payload.len()
        invariant
            i <= payload@.len(),
            held == claim_views(payload@),
            claim_named(held, name@) == claim_named(held.skip(i as int), name@),
        decreases payload@.len() - i,
    {
        proof {
            assert(held.skip(i as int).first() == payload@[i as int]@);
            assert(held.skip(i as int).drop_first() =~= held.skip(i + 1));
        }
        if same_text(payload[i].name.as_str(), name) {
            return match &payload[i].value {
                Some(value) => Some(value),
                None => None,
            };
        }
        i = i + 1;
    }
    None
}

/// Who a payload says the caller is, at `now`; see [`identity_in`].
pub fn identify(payload: &Vec<Claim>, now: i64) -> (identity: Option<AuthUser>)
    ensures
        identity == identity_in(Some(claim_views(payload@)), now),
{
    let sub = match find_claim(payload, "sub") {
        Some(ClaimValue::Text(sub)) => sub,
        _ => { return None; },
    };
    let role = match find_claim(payload, "role") {
        Some(ClaimValue::Text(role)) => role,
        _ => { return None; },
    };
    let exp = match find_claim(payload, "exp") {
        Some(ClaimValue::Number(exp)) => *exp,
        _ => { return None; },
    };
    let user_id = match parse_id(sub.as_str()) {
        Some(user_id) => user_id,
        None => { return None; },
    };
    let role = match Role::parse(role.as_str()) {
        Some(role) => role,
        None => { return None; },
    };
    if now < 0 || exp >= now as u64 {
        Some(AuthUser { user_id, role })
    } else {
        None
    }
}

/// Who a checked payload admits, or that the caller is unauthorized.
pub open spec fn verified(identity: Option<AuthUser>) -> Result<AuthUser, ErrorKind> {
    match identity {
        Some(identity) => Ok(identity),
        None => Err(ErrorKind::Unauthorized),
    }
}

/// Who a token says the caller is, at `now`. The caller is unauthorized
/// unless the token is well formed and signed with `secret`, its payload
/// holds all three claims in their kinds, and it has not run out. Nothing
/// but the arguments decides.
pub fn verify(token: &str, secret: &str, now: i64) -> (result: Result<AuthUser, ErrorKind>)
    ensures
        result == verified(identity_in(token_payload(token@, secret.spec_bytes()), now)),
{
    let identity = match jwt_decode(token, secret.as_bytes()) {
        Ok(held) => identify(&held, now),
        Err(_) => None,
    };
    match identity {
        Some(identity) => Ok(identity),
        None => Err(ErrorKind::Unauthorized),
    }
}

} // verus!
