//! Logging in: look the user up, verify the password, and reply. A wrong
//! password and an unknown username are answered alike.

use vstd::prelude::*;
use crate::domain::errors::{InnerError, JoinFailure, ServerError};
use crate::domain::user::{Login, User};
use crate::password::{verification_owed, verify_password};
use crate::routes::joined_reply;
use crate::status::{BAD_REQUEST, OK};

verus! {

/// The query that reads a user and the stored password hash; its one
/// parameter is the username.
pub const SELECT_USER: &'static str =
    "SELECT Id, Username, PasswordHash FROM User WHERE Username = ?1";

/// What the login page tells the client.
#[derive(Clone, Copy, Debug, PartialEq, Eq, Structural)]
pub enum MessageToClient {
    InvalidUsernameOrPassword,
}

/// What the login page is rendered from.
#[derive(Clone, Copy, Debug, PartialEq, Eq, Structural)]
pub struct LoginModel {
    pub message: Option<MessageToClient>,
}

/// How a login ends, short of a server error.
#[derive(Debug)]
pub enum LoginReply {
    /// The credentials are right: the reply carries the user.
    Authenticated(User),
    /// The credentials are wrong: the login page is shown again, with this.
    Rejected(LoginModel),
}

/// What a login does once the user was looked up.
#[derive(Debug)]
pub enum LoginStep {
    /// Verify the submitted password against this hash, on a worker.
    Verify { user: User, password_hash: String },
    /// Reply at once.
    Reply(LoginReply),
}

/// The one rejection there is. It says nothing of which part was wrong.
pub open spec fn rejection() -> LoginReply {
    LoginReply::Rejected(LoginModel { message: Some(MessageToClient::InvalidUsernameOrPassword) })
}

/// What a login does for each result of the lookup.
pub open spec fn lookup_step(found: Result<Option<(User, String)>, InnerError>) -> Result<
    LoginStep,
    ServerError,
> {
    match found {
        Err(error) => Err(ServerError(error)),
        Ok(None) => Ok(LoginStep::Reply(rejection())),
        Ok(Some((user, password_hash))) => Ok(LoginStep::Verify { user, password_hash }),
    }
}

/// How a login ends for a user that was found, given the verification.
pub open spec fn verified_reply(user: User, verified: Result<bool, InnerError>) -> Result<
    LoginReply,
    ServerError,
> {
    match verified {
        Ok(true) => Ok(LoginReply::Authenticated(user)),
        Ok(false) => Ok(rejection()),
        Err(error) => Err(ServerError(error)),
    }
}

/// How a login ends, from the lookup and, for a user that was found, the
/// verification that a worker ran.
pub open spec fn login_reply(
    found: Result<Option<(User, String)>, InnerError>,
    verified: Result<Result<bool, InnerError>, JoinFailure>,
) -> Result<LoginReply, ServerError> {
    match lookup_step(found) {
        Err(error) => Err(error),
        Ok(LoginStep::Reply(reply)) => Ok(reply),
        Ok(LoginStep::Verify { user, .. }) => verified_reply(user, joined_reply(verified)),
    }
}

impl LoginReply {
    pub open spec fn status(&self) -> u16 {
        match self {
            LoginReply::Authenticated(_) => OK,
            LoginReply::Rejected(_) => BAD_REQUEST,
        }
    }

    pub fn status_code(&self) -> (r: u16)
        ensures
            r == self.status(),
    {
        match self {
            LoginReply::Authenticated(_) => OK,
            LoginReply::Rejected(_) => BAD_REQUEST,
        }
    }
}

/// What the login page is rendered from when it is first shown: no message.
pub fn login_page() -> (r: LoginModel)
    ensures
        r == (LoginModel { message: None }),
{
    LoginModel { message: None }
}

/// Decides what a login does once the user was looked up.
pub fn after_lookup(found: Result<Option<(User, String)>, InnerError>) -> (r: Result<
    LoginStep,
    ServerError,
>)
    ensures
        r == lookup_step(found),
{
    match found {
        Err(error) => Err(ServerError(error)),
        Ok(None) => Ok(
            LoginStep::Reply(
                LoginReply::Rejected(
                    LoginModel { message: Some(MessageToClient::InvalidUsernameOrPassword) },
                ),
            ),
        ),
        Ok(Some((user, password_hash))) => Ok(LoginStep::Verify { user, password_hash }),
    }
}

/// Decides how a login ends once the password was verified.
pub fn after_verification(user: User, verified: Result<bool, InnerError>) -> (r: Result<
    LoginReply,
    ServerError,
>)
    ensures
        r == verified_reply(user, verified),
{
    match verified {
        Ok(true) => Ok(LoginReply::Authenticated(user)),
        Ok(false) => Ok(
            LoginReply::Rejected(
                LoginModel { message: Some(MessageToClient::InvalidUsernameOrPassword) },
            ),
        ),
        Err(error) => Err(ServerError(error)),
    }
}

/// A whole login on the calling thread: the reply for what the lookup
/// returned and for what checking the submitted password against the
/// stored hash owes.
pub fn login(input: &Login, found: Result<Option<(User, String)>, InnerError>) -> (r: Result<
    LoginReply,
    ServerError,
>)
    ensures
        match lookup_step(found) {
            Err(error) => r == Err::<LoginReply, ServerError>(error),
            Ok(LoginStep::Reply(reply)) => r == Ok::<LoginReply, ServerError>(reply),
            Ok(LoginStep::Verify { user, password_hash }) => exists|
                verified: Result<bool, InnerError>,
            |
                #[trigger] verification_owed(verified, input@.password, password_hash@) && r
                    == verified_reply(user, verified),
        },
{
    match after_lookup(found) {
        Err(error) => Err(error),
        Ok(LoginStep::Reply(reply)) => Ok(reply),
        Ok(LoginStep::Verify { user, password_hash }) => {
            let verified = verify_password(input.password(), password_hash.as_str());
            proof {
                assert(verification_owed(verified, input@.password, password_hash@));
            }
            after_verification(user, verified)
        },
    }
}

/// Rejection is uniform: a known user with a wrong password is answered
/// exactly as an unknown username is, in the reply and in its status,
/// whoever the user is and whatever hash is stored.
pub proof fn lemma_rejection_is_uniform(
    user: User,
    password_hash: String,
    unused: Result<Result<bool, InnerError>, JoinFailure>,
)
    ensures
        login_reply(Ok(Some((user, password_hash))), Ok(Ok(false))) == login_reply(
            Ok(None),
            unused,
        ),
        login_reply(Ok(None), unused) == Ok::<LoginReply, ServerError>(rejection()),
        rejection().status() == BAD_REQUEST,
{
}

/// A login is granted only to a user that was found and whose password
/// was verified.
pub proof fn lemma_only_verified_users_enter(
    found: Result<Option<(User, String)>, InnerError>,
    verified: Result<Result<bool, InnerError>, JoinFailure>,
)
    ensures
        login_reply(found, verified) matches Ok(LoginReply::Authenticated(user)) <==> (
        found matches Ok(Some((known, _))) && verified == Ok::<
            Result<bool, InnerError>,
            JoinFailure,
        >(Ok(true))),
        login_reply(found, verified) matches Ok(LoginReply::Authenticated(user)) ==> (
        found matches Ok(Some((known, _))) && known == user),
{
}

} // verus!
