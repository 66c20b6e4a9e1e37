//! Signing up: hash the password, store the user, and reply.

use vstd::prelude::*;
use crate::db_handle::ExecuteResult;
use crate::domain::errors::{DriverFailureKind, InnerError, ServerError};
use crate::domain::user::{User, UserInput, UserView};
use crate::status::{CONFLICT, OK};

verus! {

/// The statement that stores a user; its parameters are the username and
/// the password hash.
pub const INSERT_USER: &'static str = "INSERT INTO User (Username, PasswordHash) VALUES (?1, ?2)";

/// How a sign-up ends, short of a server error.
#[derive(Debug)]
pub enum SignUpReply {
    /// The user was stored under the identity that the store issued.
    Created(User),
    /// The store holds a user of that name already.
    UsernameTaken,
}

impl SignUpReply {
    pub open spec fn status(&self) -> u16 {
        match self {
            SignUpReply::Created(_) => OK,
            SignUpReply::UsernameTaken => CONFLICT,
        }
    }

    pub fn status_code(&self) -> (r: u16)
        ensures
            r == self.status(),
    {
        match self {
            SignUpReply::Created(_) => OK,
            SignUpReply::UsernameTaken => CONFLICT,
        }
    }
}

/// Whether an insert failed because the store holds the username already.
pub open spec fn is_taken(inserted: Result<ExecuteResult, InnerError>) -> bool {
    inserted matches Err(InnerError::DatabaseConnectionError { source }) && source.kind
        == DriverFailureKind::ConstraintViolation
}

/// The parameters of `INSERT_USER` for a sign-up: the username as
/// submitted, then the hash.
pub fn sign_up_parameters(input: &UserInput, password_hash: String) -> (r: Vec<String>)
    ensures
        r@.len() == 2,
        r@[0]@ == input@.username,
        r@[1] == password_hash,
{
    let mut parameters: Vec<String> = Vec::new();
    parameters.push(String::from(input.username()));
    parameters.push(password_hash);
    parameters
}

/// What a sign-up does once the password was hashed, for each result of
/// the hashing.
pub open spec fn insert_owed(
    username: Seq<char>,
    hashed: Result<String, InnerError>,
    step: Result<Vec<String>, ServerError>,
) -> bool {
    match hashed {
        Ok(hash) => step matches Ok(parameters) && parameters@.len() == 2 && parameters@[0]@
            == username && parameters@[1] == hash,
        Err(error) => step == Err::<Vec<String>, ServerError>(ServerError(error)),
    }
}

/// Decides what a sign-up does once the password was hashed: with a hash,
/// the parameters of the insert; without one, the sign-up ends with the
/// error of the hashing, and there is nothing to insert.
pub fn after_hashing(input: &UserInput, hashed: Result<String, InnerError>) -> (r: Result<
    Vec<String>,
    ServerError,
>)
    ensures
        insert_owed(input@.username, hashed, r),
{
    match hashed {
        Ok(hash) => Ok(sign_up_parameters(input, hash)),
        Err(error) => Err(ServerError(error)),
    }
}

/// Whether `reply` is what a sign-up owes for what the insert returned:
/// the user under the identity that the store issued, "taken" where the
/// store refused the username, and the error itself for every other
/// failure.
pub open spec fn owed(
    username: Seq<char>,
    inserted: Result<ExecuteResult, InnerError>,
    reply: Result<SignUpReply, ServerError>,
) -> bool {
    match inserted {
        Ok(result) => reply matches Ok(SignUpReply::Created(user)) && user@ == (UserView {
            id: result.last_insert_rowid,
            username,
        }),
        Err(error) => if is_taken(inserted) {
            reply matches Ok(SignUpReply::UsernameTaken)
        } else {
            reply == Err::<SignUpReply, ServerError>(ServerError(error))
        },
    }
}

/// The reply to a sign-up, given what the insert returned. A username that
/// is taken is told apart from every other failure.
pub fn sign_up(input: &UserInput, inserted: Result<ExecuteResult, InnerError>) -> (r: Result<
    SignUpReply,
    ServerError,
>)
    ensures
        owed(input@.username, inserted, r),
{
    match inserted {
        Ok(result) => Ok(
            SignUpReply::Created(User::new(result.last_insert_rowid, String::from(input.username()))),
        ),
        Err(InnerError::DatabaseConnectionError { source }) => match source.kind {
            DriverFailureKind::ConstraintViolation => Ok(SignUpReply::UsernameTaken),
            _ => Err(ServerError(InnerError::DatabaseConnectionError { source })),
        },
        Err(error) => Err(ServerError(error)),
    }
}

/// A username that the store refuses as taken is answered as taken: never
/// as a generic failure, and never as a success.
pub proof fn lemma_taken_is_told_apart(
    username: Seq<char>,
    inserted: Result<ExecuteResult, InnerError>,
    reply: Result<SignUpReply, ServerError>,
)
    requires
        owed(username, inserted, reply),
    ensures
        is_taken(inserted) <==> reply matches Ok(SignUpReply::UsernameTaken),
        reply matches Ok(SignUpReply::Created(_)) <==> inserted is Ok,
        reply is Err <==> inserted is Err && !is_taken(inserted),
{
}

/// Of two sign-ups with one username, of which the store accepted one and
/// refused the other as taken, exactly one is answered as created and the
/// other as taken. That the store accepts one and refuses the other is the
/// store's part, through the uniqueness that the schema declares.
pub proof fn lemma_one_of_two_sign_ups_succeeds(
    username: Seq<char>,
    accepted: Result<ExecuteResult, InnerError>,
    refused: Result<ExecuteResult, InnerError>,
    first: Result<SignUpReply, ServerError>,
    second: Result<SignUpReply, ServerError>,
)
    requires
        accepted is Ok,
        is_taken(refused),
        owed(username, accepted, first),
        owed(username, refused, second),
    ensures
        first matches Ok(SignUpReply::Created(_)),
        second matches Ok(SignUpReply::UsernameTaken),
        first matches Ok(reply) && reply.status() == OK,
        second matches Ok(reply) && reply.status() == CONFLICT,
{
}

/// A hashing that failed ends the sign-up with that error: no parameters
/// come out of it, so no insert can follow.
pub proof fn lemma_failed_hashing_ends_sign_up(
    username: Seq<char>,
    hashed: Result<String, InnerError>,
    step: Result<Vec<String>, ServerError>,
)
    requires
        insert_owed(username, hashed, step),
    ensures
        step is Ok <==> hashed is Ok,
        hashed matches Err(error) ==> step == Err::<Vec<String>, ServerError>(ServerError(error)),
{
}

} // verus!
