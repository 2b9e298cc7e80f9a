//! Bearer tokens: signed claims that name a subject and expire an hour after
//! they were issued.
//!
//! Signing and decoding, with the test of the signature, are
//! `jsonwebtoken`'s. What this module decides is which claims are issued,
//! which decoded payloads count as claims, and that a token is refused once
//! its expiry has passed.
//!
//! The signing key is the caller's: every function that signs or verifies
//! takes it, and none is kept here.

use crate::clock::unix_seconds;
use crate::error::{AppError, Status};
use crate::json::{count_members, member_count, member_text, text_members};
use vstd::prelude::*;

verus! {

/// Seconds between the issue of a token and its expiry.
pub const TOKEN_LIFETIME: u64 = 3600;

/// What a token carries: the subject it was issued to and the Unix time, in
/// seconds, after which it is no longer accepted.
#[derive(Debug)]
pub struct Claims {
    pub sub: String,
    pub exp: usize,
}

impl View for Claims {
    type V = (Seq<char>, int);

    open spec fn view(&self) -> (Seq<char>, int) {
        (self.sub@, self.exp as int)
    }
}

/// `jsonwebtoken::errors::Error`: why a token could not be signed or was
/// not accepted. The library never looks inside one.
#[verifier::external_type_specification]
#[verifier::external_body]
pub struct ExTokenError(jsonwebtoken::errors::Error);

/// The token that HS256 signing under `secret` gives for the payload that
/// holds the string `text` under `text_name` and the number `count` under
/// `count_name`, put in in that order; `None` where encoding fails.
pub uninterp spec fn signed_token(
    text_name: Seq<char>,
    text: Seq<char>,
    count_name: Seq<char>,
    count: int,
    secret: Seq<u8>,
) -> Option<Seq<char>>;

/// What decoding `token` against `secret` gives when expiry is left aside:
/// the string members and the count members of its payload, or `None` for a
/// token that is malformed, wrongly signed or otherwise not valid.
pub uninterp spec fn decoded_members(token: Seq<char>, secret: Seq<u8>) -> Option<
    (Map<Seq<char>, Seq<char>>, Map<Seq<char>, u64>),
>;

/// The token that signing the claims `sub` and `exp` under `secret` gives.
pub open spec fn token_of(sub: Seq<char>, exp: int, secret: Seq<u8>) -> Option<Seq<char>> {
    signed_token("sub"@, sub, "exp"@, exp, secret)
}

/// The answer to a failed signing.
pub open spec fn token_failure() -> (int, Seq<char>) {
    (500, "Failed to generate token"@)
}

/// The one answer to every token that is not accepted.
pub open spec fn unauthorized() -> (int, Seq<char>) {
    (401, "Invalid or expired token"@)
}

/// `jsonwebtoken::encode` with the default header (HS256) and a key made by
/// `EncodingKey::from_secret`, on a `serde_json::Map` that holds the two
/// members in the order given. The token depends on the members and the key
/// alone.
#[verifier::external_body]
fn sign_members(text_name: &str, text: &str, count_name: &str, count: usize, secret: &[u8]) -> (r:
    Result<String, jsonwebtoken::errors::Error>)
    ensures
        match r {
            Ok(token) => signed_token(text_name@, text@, count_name@, count as int, secret@)
                == Some(token@),
            Err(_) => signed_token(text_name@, text@, count_name@, count as int, secret@) is None,
        },
{
    let mut payload = serde_json::Map::new();
    payload.insert(text_name.to_owned(), serde_json::Value::from(text));
    payload.insert(count_name.to_owned(), serde_json::Value::from(count));
    let key = jsonwebtoken::EncodingKey::from_secret(secret);
    jsonwebtoken::encode(&jsonwebtoken::Header::default(), &payload, &key)
}

/// `jsonwebtoken::decode` with a key made by `DecodingKey::from_secret` and
/// the default validation (HS256) with its expiry test switched off, so
/// that no clock is read; the payload is handed out as it was decoded. The
/// outcome depends on the token and the key alone.
#[verifier::external_body]
fn decode_payload(token: &str, secret: &[u8]) -> (r: Result<
    serde_json::Value,
    jsonwebtoken::errors::Error,
>)
    ensures
        match r {
            Ok(payload) => decoded_members(token@, secret@) == Some(
                (text_members(payload), count_members(payload)),
            ),
            Err(_) => decoded_members(token@, secret@) is None,
        },
{
    let key = jsonwebtoken::DecodingKey::from_secret(secret);
    let mut validation = jsonwebtoken::Validation::default();
    validation.validate_exp = false;
    match jsonwebtoken::decode::<serde_json::Value>(token, &key, &validation) {
        Ok(data) => Ok(data.claims),
        Err(e) => Err(e),
    }
}

impl Claims {
    /// The claims of a token issued to `subject` at `now`: they expire
    /// `TOKEN_LIFETIME` seconds later, strictly after `now`. There are none
    /// where that instant does not fit the expiry field.
    pub fn issue(subject: &str, now: u64) -> (r: Option<Claims>)
        ensures
            r is Some <==> now + TOKEN_LIFETIME <= usize::MAX,
            r matches Some(claims) ==> claims@ == (subject@, now + TOKEN_LIFETIME) && claims.exp
                > now,
    {
        if now > u64::MAX - TOKEN_LIFETIME {
            return None;
        }
        let expiry: u64 = now + TOKEN_LIFETIME;
        if expiry > usize::MAX as u64 {
            return None;
        }
        Some(Claims { sub: subject.to_owned(), exp: expiry as usize })
    }

    /// The claims among the members of a payload: the string under `sub`
    /// and the count under `exp`, where both are there and the expiry field
    /// can hold the count.
    pub open spec fn of_members(
        texts: Map<Seq<char>, Seq<char>>,
        counts: Map<Seq<char>, u64>,
    ) -> Option<(Seq<char>, int)> {
        if texts.contains_key("sub"@) && counts.contains_key("exp"@) && counts["exp"@]
            <= usize::MAX {
            Some((texts["sub"@], counts["exp"@] as int))
        } else {
            None
        }
    }

    /// The claims that a decoded payload holds.
    pub open spec fn of_payload(payload: serde_json::Value) -> Option<(Seq<char>, int)> {
        Claims::of_members(text_members(payload), count_members(payload))
    }

    /// Reads the claims out of a decoded payload.
    pub fn from_payload(payload: &serde_json::Value) -> (r: Option<Claims>)
        ensures
            r is Some <==> Claims::of_payload(*payload) is Some,
            r matches Some(claims) ==> Claims::of_payload(*payload) == Some(claims@),
    {
        let sub = match member_text(payload, "sub") {
            Some(sub) => sub,
            None => { return None; },
        };
        let exp = match member_count(payload, "exp") {
            Some(exp) => exp,
            None => { return None; },
        };
        if exp > usize::MAX as u64 {
            return None;
        }
        Some(Claims { sub, exp: exp as usize })
    }
}

/// What issuing a token to `subject` at `now` under `secret` answers: the
/// signed token for the claims that expire an hour later, or the signing
/// failure.
pub open spec fn issue_outcome(subject: Seq<char>, now: u64, secret: Seq<u8>) -> Result<
    Seq<char>,
    (int, Seq<char>),
> {
    if now + TOKEN_LIFETIME > usize::MAX {
        Err(token_failure())
    } else {
        match token_of(subject, now + TOKEN_LIFETIME, secret) {
            Some(token) => Ok(token),
            None => Err(token_failure()),
        }
    }
}

/// What issuing answers to a reading of the clock: without a reading, the
/// signing failure.
pub open spec fn issue_outcome_on(
    subject: Seq<char>,
    reading: Option<u64>,
    secret: Seq<u8>,
) -> Result<Seq<char>, (int, Seq<char>)> {
    match reading {
        Some(now) => issue_outcome(subject, now, secret),
        None => Err(token_failure()),
    }
}

/// What verification answers to the claims that were found, if any, at
/// `now`: the claims while `now` is not past their expiry, and otherwise the
/// one refusal.
pub open spec fn accept(claims: Option<(Seq<char>, int)>, now: u64) -> Result<
    (Seq<char>, int),
    (int, Seq<char>),
> {
    match claims {
        Some(found) => if now <= found.1 {
            Ok(found)
        } else {
            Err(unauthorized())
        },
        None => Err(unauthorized()),
    }
}

/// What verification answers to a reading of the clock: without a reading,
/// the refusal.
pub open spec fn accept_on(claims: Option<(Seq<char>, int)>, reading: Option<u64>) -> Result<
    (Seq<char>, int),
    (int, Seq<char>),
> {
    match reading {
        Some(now) => accept(claims, now),
        None => Err(unauthorized()),
    }
}

/// The claims that a decoding outcome holds, if it holds any.
pub open spec fn decoded_claims(
    decoded: Result<serde_json::Value, jsonwebtoken::errors::Error>,
) -> Option<(Seq<char>, int)> {
    match decoded {
        Ok(payload) => Claims::of_payload(payload),
        Err(_) => None,
    }
}

/// What verification answers to a decoding outcome at `now`.
pub open spec fn verify_outcome(
    decoded: Result<serde_json::Value, jsonwebtoken::errors::Error>,
    now: u64,
) -> Result<(Seq<char>, int), (int, Seq<char>)> {
    accept(decoded_claims(decoded), now)
}

/// The claims that `token` holds under `secret`: those of its payload,
/// where it decodes.
pub open spec fn token_claims(token: Seq<char>, secret: Seq<u8>) -> Option<(Seq<char>, int)> {
    match decoded_members(token, secret) {
        Some((texts, counts)) => Claims::of_members(texts, counts),
        None => None,
    }
}

/// What verification answers to `token` under `secret` at `now`.
pub open spec fn token_outcome(token: Seq<char>, secret: Seq<u8>, now: u64) -> Result<
    (Seq<char>, int),
    (int, Seq<char>),
> {
    accept(token_claims(token, secret), now)
}

/// Whether a token answer and its model agree.
pub open spec fn token_answer_is(
    answer: Result<String, AppError>,
    model: Result<Seq<char>, (int, Seq<char>)>,
) -> bool {
    match model {
        Ok(token) => answer matches Ok(t) && t@ == token,
        Err(error) => answer matches Err(e) && e@ == error,
    }
}

/// Whether a claims answer and its model agree.
pub open spec fn claims_answer_is(
    answer: Result<Claims, AppError>,
    model: Result<(Seq<char>, int), (int, Seq<char>)>,
) -> bool {
    match model {
        Ok(claims) => answer matches Ok(c) && c@ == claims,
        Err(error) => answer matches Err(e) && e@ == error,
    }
}

/// Issues a token to `username` as of `now`: the claims that name
/// `username` as subject and expire `TOKEN_LIFETIME` seconds after `now`,
/// signed under `secret`. Fails where signing fails or that instant does
/// not fit the expiry field.
pub fn create_jwt_at(username: &str, now: u64, secret: &[u8]) -> (r: Result<String, AppError>)
    ensures
        token_answer_is(r, issue_outcome(username@, now, secret@)),
{
    let failure = "Failed to generate token";
    match Claims::issue(username, now) {
        Some(claims) => {
            match sign_members("sub", claims.sub.as_str(), "exp", claims.exp, secret) {
                Ok(token) => Ok(token),
                Err(_) => Err(AppError::new(Status::internal_server_error(), failure)),
            }
        },
        None => Err(AppError::new(Status::internal_server_error(), failure)),
    }
}

/// Issues a token to `username` on a reading of the clock. Without a
/// reading nothing is signed and the answer is the signing failure.
pub fn create_jwt_on(username: &str, reading: Option<u64>, secret: &[u8]) -> (r: Result<
    String,
    AppError,
>)
    ensures
        token_answer_is(r, issue_outcome_on(username@, reading, secret@)),
{
    match reading {
        Some(now) => create_jwt_at(username, now, secret),
        None => Err(
            AppError::new(Status::internal_server_error(), "Failed to generate token"),
        ),
    }
}

/// Issues a token to `username` that expires an hour from now. Whatever
/// the clock gives, the answer is that of `create_jwt_on` on some reading.
pub fn create_jwt(username: &str, secret: &[u8]) -> (r: Result<String, AppError>)
    ensures
        exists|reading: Option<u64>|
            token_answer_is(r, #[trigger] issue_outcome_on(username@, reading, secret@)),
        r matches Err(e) ==> e@ == token_failure(),
{
    let reading = unix_seconds();
    create_jwt_on(username, reading, secret)
}

/// Decides on a decoding outcome as of `now`. Claims are accepted up to
/// the second of their expiry and not after it, with no grace period.
pub fn verify_at(
    decoded: Result<serde_json::Value, jsonwebtoken::errors::Error>,
    now: u64,
) -> (r: Result<Claims, AppError>)
    ensures
        claims_answer_is(r, verify_outcome(decoded, now)),
{
    let refusal = "Invalid or expired token";
    match decoded {
        Ok(payload) => match Claims::from_payload(&payload) {
            Some(claims) => {
                if now <= claims.exp as u64 {
                    Ok(claims)
                } else {
                    Err(AppError::new(Status::unauthorized(), refusal))
                }
            },
            None => Err(AppError::new(Status::unauthorized(), refusal)),
        },
        Err(_) => Err(AppError::new(Status::unauthorized(), refusal)),
    }
}

/// Decides on a decoding outcome on a reading of the clock. Without a
/// reading no claims are accepted.
pub fn verify_on(
    decoded: Result<serde_json::Value, jsonwebtoken::errors::Error>,
    reading: Option<u64>,
) -> (r: Result<Claims, AppError>)
    ensures
        claims_answer_is(r, accept_on(decoded_claims(decoded), reading)),
{
    match reading {
        Some(now) => verify_at(decoded, now),
        None => Err(AppError::new(Status::unauthorized(), "Invalid or expired token")),
    }
}

/// Verifies `token` as of `now`: decodes it, which tests its signature
/// against `secret`, and hands out its claims unless `now` is past their
/// expiry. A token that is malformed, forged or expired gets the same
/// refusal.
pub fn verify_jwt_at(token: &str, now: u64, secret: &[u8]) -> (r: Result<Claims, AppError>)
    ensures
        claims_answer_is(r, token_outcome(token@, secret@, now)),
{
    let decoded = decode_payload(token, secret);
    verify_at(decoded, now)
}

/// Verifies `token` as of now. A token that does not decode is refused
/// before the clock is read. For one that decodes, the answer is that of
/// `verify_on` on some reading, whatever the clock gives.
pub fn verify_jwt(token: &str, secret: &[u8]) -> (r: Result<Claims, AppError>)
    ensures
        token_claims(token@, secret@) is None ==> r is Err,
        exists|reading: Option<u64>|
            claims_answer_is(r, #[trigger] accept_on(token_claims(token@, secret@), reading)),
        r matches Err(e) ==> e@ == unauthorized(),
{
    match decode_payload(token, secret) {
        Ok(payload) => {
            let reading = unix_seconds();
            verify_on(Ok(payload), reading)
        },
        Err(_) => {
            let refused = Err(AppError::new(Status::unauthorized(), "Invalid or expired token"));
            assert(claims_answer_is(refused, accept_on(token_claims(token@, secret@), None)));
            refused
        },
    }
}

/// A token that is accepted at one instant is accepted, with the same
/// claims, at every instant up to its expiry, and refused at every instant
/// after it.
pub proof fn accepted_until_expiry(token: Seq<char>, secret: Seq<u8>, now: u64, other: u64)
    requires
        token_outcome(token, secret, now) is Ok,
    ensures
        other <= token_outcome(token, secret, now)->Ok_0.1 ==> token_outcome(token, secret, other)
            == token_outcome(token, secret, now),
        other > token_outcome(token, secret, now)->Ok_0.1 ==> token_outcome(token, secret, other)
            == Err::<(Seq<char>, int), (int, Seq<char>)>(unauthorized()),
{
}

/// Claims issued at `issued` last an hour: a token that holds them is
/// accepted at `now` exactly while `now` is at most
/// `issued + TOKEN_LIFETIME`, and then gives the subject back. That a
/// token which was signed for claims holds them when it is decoded is the
/// premise: signing and decoding are two outside functions, and nothing
/// here ties one to the other.
pub proof fn issued_claims_last_an_hour(
    token: Seq<char>,
    secret: Seq<u8>,
    subject: Seq<char>,
    issued: u64,
    now: u64,
)
    requires
        issue_outcome(subject, issued, secret) == Ok::<Seq<char>, (int, Seq<char>)>(token),
        token_claims(token, secret) == Some((subject, issued + TOKEN_LIFETIME)),
    ensures
        now <= issued + TOKEN_LIFETIME ==> token_outcome(token, secret, now) == Ok::<
            (Seq<char>, int),
            (int, Seq<char>),
        >((subject, issued + TOKEN_LIFETIME)),
        now > issued + TOKEN_LIFETIME ==> token_outcome(token, secret, now) == Err::<
            (Seq<char>, int),
            (int, Seq<char>),
        >(unauthorized()),
{
}

/// Every refusal looks the same: whatever made two verifications fail, bad
/// structure, a wrong signature, a passed expiry or a clock without a
/// reading, their answers are equal.
pub proof fn refusals_are_alike(
    first: Option<(Seq<char>, int)>,
    first_reading: Option<u64>,
    second: Option<(Seq<char>, int)>,
    second_reading: Option<u64>,
)
    requires
        accept_on(first, first_reading) is Err,
        accept_on(second, second_reading) is Err,
    ensures
        accept_on(first, first_reading) == accept_on(second, second_reading),
{
}

} // verus!
