//! The rules of the endpoints. Each rule is a function from what arrived to
//! what happens next: an answer, or one statement against storage. Whoever
//! serves the requests runs the statement and hands its outcome to the
//! matching reply function.

use crate::error::{AppError, Status};
use crate::jwt::{
    accept_on, create_jwt, issue_outcome_on, token_answer_is, token_claims, token_failure,
    unauthorized, verify_jwt, Claims,
};
use crate::models::{NewUser, User};
use vstd::prelude::*;

verus! {

/// Storage could not run a statement. The cause stays with storage: no
/// detail of it reaches a caller.
#[derive(Debug)]
pub struct StorageFault {}

/// What follows a request for the list of users.
#[derive(Debug)]
pub enum ListStep {
    /// Answer with this error; storage is not touched.
    Refuse(AppError),
    /// Select every row, on behalf of the holder of these claims.
    Fetch(Claims),
}

/// What follows a request to create a user.
#[derive(Debug)]
pub enum CreateStep {
    /// Answer with this error; storage is not touched.
    Refuse(AppError),
    /// Insert one row with this input and ask for the row back.
    Insert(NewUser),
}

/// The answer to a body that holds no usable name.
pub open spec fn bad_body() -> (int, Seq<char>) {
    (400, "Invalid request body: 'name' field is required"@)
}

/// The answer to a failed listing.
pub open spec fn fetch_failure() -> (int, Seq<char>) {
    (500, "Failed to fetch users"@)
}

/// The answer to a failed insert.
pub open spec fn insert_failure() -> (int, Seq<char>) {
    (500, "Failed to insert user"@)
}

/// The greeting at the root path.
pub fn root() -> (r: &'static str)
    ensures
        r@ == "Hello, API!"@,
{
    "Hello, API!"
}

/// Issues a token whose subject is the submitted name, signed under
/// `secret`.
pub fn login(payload: NewUser, secret: &[u8]) -> (r: Result<String, AppError>)
    ensures
        exists|reading: Option<u64>|
            token_answer_is(r, #[trigger] issue_outcome_on(payload.name@, reading, secret@)),
        r matches Err(e) ==> e@ == token_failure(),
{
    create_jwt(payload.name.as_str(), secret)
}

/// Whether a step of a listing is the one that a verification answer leads
/// to: the fetch for the claims it gave, or the refusal.
pub open spec fn list_step_is(
    step: ListStep,
    verified: Result<(Seq<char>, int), (int, Seq<char>)>,
) -> bool {
    match verified {
        Ok(claims) => step matches ListStep::Fetch(c) && c@ == claims,
        Err(_) => step matches ListStep::Refuse(e) && e@ == unauthorized(),
    }
}

/// Decides on a listing from what verification said of the bearer token;
/// `None` stands for a request without one. Only verified claims lead to
/// storage, and every other case gets the same refusal.
pub fn list_step(verified: Option<Result<Claims, AppError>>) -> (r: ListStep)
    ensures
        match verified {
            Some(Ok(claims)) => r == ListStep::Fetch(claims),
            _ => r matches ListStep::Refuse(e) && e@ == unauthorized(),
        },
{
    match verified {
        Some(Ok(claims)) => ListStep::Fetch(claims),
        _ => ListStep::Refuse(AppError::new(Status::unauthorized(), "Invalid or expired token")),
    }
}

/// Decides on a request for the list of users from its bearer token, if it
/// has one. Without a token, or with one that does not decode under
/// `secret`, the request is refused. Otherwise the step is what the token's
/// verification leads to on some reading of the clock; every refusal is the
/// same.
pub fn get_users(bearer: Option<&str>, secret: &[u8]) -> (r: ListStep)
    ensures
        bearer is None ==> r is Refuse,
        bearer matches Some(token) ==> {
            &&& token_claims(token@, secret@) is None ==> r is Refuse
            &&& exists|reading: Option<u64>|
                list_step_is(r, #[trigger] accept_on(token_claims(token@, secret@), reading))
        },
        r matches ListStep::Refuse(e) ==> e@ == unauthorized(),
{
    match bearer {
        Some(token) => list_step(Some(verify_jwt(token, secret))),
        None => list_step(None),
    }
}

/// The answer to a listing once storage has run it: the rows as they came,
/// or the fetch failure.
pub fn users_reply(fetched: Result<Vec<User>, StorageFault>) -> (r: Result<Vec<User>, AppError>)
    ensures
        match fetched {
            Ok(users) => r matches Ok(listed) && listed == users,
            Err(_) => r matches Err(e) && e@ == fetch_failure(),
        },
{
    match fetched {
        Ok(users) => Ok(users),
        Err(_) => Err(AppError::new(Status::internal_server_error(), "Failed to fetch users")),
    }
}

/// What creating a user from a request body comes to. `None` stands for a
/// body that is no JSON.
pub open spec fn create_outcome(body: Option<serde_json::Value>) -> Result<
    Seq<char>,
    (int, Seq<char>),
> {
    match body {
        Some(value) => match NewUser::of_body(value) {
            Some(name) => Ok(name),
            None => Err(bad_body()),
        },
        None => Err(bad_body()),
    }
}

/// Decides on a request to create a user from its parsed body. A body that
/// is no JSON, or that lacks a `name` that is a string, is refused;
/// otherwise the name goes to storage as it was submitted.
pub fn create_user(body: Option<serde_json::Value>) -> (r: CreateStep)
    ensures
        match create_outcome(body) {
            Ok(name) => r matches CreateStep::Insert(input) && input@ == name,
            Err(error) => r matches CreateStep::Refuse(e) && e@ == error,
        },
{
    let parsed = match body {
        Some(value) => NewUser::from_body(&value),
        None => None,
    };
    match parsed {
        Some(input) => CreateStep::Insert(input),
        None => CreateStep::Refuse(
            AppError::new(Status::bad_request(), "Invalid request body: 'name' field is required"),
        ),
    }
}

/// The answer to a creation once storage has run it: the row as it came,
/// with the id that storage gave it, or the insert failure.
pub fn created_reply(inserted: Result<User, StorageFault>) -> (r: Result<User, AppError>)
    ensures
        match inserted {
            Ok(user) => r matches Ok(created) && created == user,
            Err(_) => r matches Err(e) && e@ == insert_failure(),
        },
{
    match inserted {
        Ok(user) => Ok(user),
        Err(_) => Err(AppError::new(Status::internal_server_error(), "Failed to insert user")),
    }
}

/// A body without a usable name never reaches storage: the step for it is
/// the bad-request refusal, not an insert.
pub proof fn unusable_body_is_refused(body: Option<serde_json::Value>)
    requires
        body matches Some(value) ==> NewUser::of_body(value) is None,
    ensures
        create_outcome(body) == Err::<Seq<char>, (int, Seq<char>)>(bad_body()),
{
}

/// A usable name reaches storage unchanged: the step for a body that holds
/// `name` is the insert of exactly that name.
pub proof fn submitted_name_is_inserted(value: serde_json::Value, name: Seq<char>)
    requires
        NewUser::of_body(value) == Some(name),
    ensures
        create_outcome(Some(value)) == Ok::<Seq<char>, (int, Seq<char>)>(name),
{
}

} // verus!
