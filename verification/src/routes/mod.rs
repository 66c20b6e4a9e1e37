//! What each route replies, given what the handle and the workers returned.

pub mod create_person;
pub mod get_person;
pub mod login;
pub mod sign_up;

pub use create_person::create_person;
pub use get_person::{get_person, get_person_status};
pub use login::{login, login_page, LoginModel, LoginReply, LoginStep, MessageToClient};
pub use sign_up::{after_hashing, sign_up, SignUpReply};

use vstd::prelude::*;
use crate::domain::errors::{InnerError, JoinFailure};

verus! {

/// What a blocking task amounts to once it was waited for.
pub open spec fn joined_reply<T>(task: Result<Result<T, InnerError>, JoinFailure>) -> Result<
    T,
    InnerError,
> {
    match task {
        Ok(result) => result,
        Err(source) => Err(InnerError::JoinError { source }),
    }
}

/// Flattens the result of a blocking task: a task that could not be joined
/// is a join error, a task that ran returns what it returned.
pub fn joined<T>(task: Result<Result<T, InnerError>, JoinFailure>) -> (r: Result<T, InnerError>)
    ensures
        r == joined_reply(task),
{
    match task {
        Ok(result) => result,
        Err(source) => Err(InnerError::JoinError { source }),
    }
}

} // verus!
