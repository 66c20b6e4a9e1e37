//! Fetching a person by identity.

use vstd::prelude::*;
use crate::db_handle::ExecuteResult;
use crate::domain::errors::{InnerError, ServerError};
use crate::domain::person::{Person, PersonView};
use crate::routes::create_person;
use crate::status::{NOT_FOUND, OK};

verus! {

/// The query that reads a person; its one parameter is the identity.
pub const SELECT_PERSON: &'static str = "SELECT id, name FROM person WHERE id = :id";

/// What a request for a person replies for what the query returned.
pub open spec fn person_reply(found: Result<Option<Person>, InnerError>) -> Result<
    Option<Person>,
    ServerError,
> {
    match found {
        Ok(person) => Ok(person),
        Err(error) => Err(ServerError(error)),
    }
}

/// The reply to a request for a person, given what the query returned: the
/// person as stored, or nothing where no row has that identity.
pub fn get_person(found: Result<Option<Person>, InnerError>) -> (r: Result<
    Option<Person>,
    ServerError,
>)
    ensures
        r == person_reply(found),
{
    match found {
        Ok(person) => Ok(person),
        Err(error) => Err(ServerError(error)),
    }
}

/// The status of a reply: found, not found, or the status of the error.
pub open spec fn status_of(reply: Result<Option<Person>, ServerError>) -> u16 {
    match reply {
        Ok(Some(_)) => OK,
        Ok(None) => NOT_FOUND,
        Err(error) => error.status(),
    }
}

pub fn get_person_status(reply: &Result<Option<Person>, ServerError>) -> (r: u16)
    ensures
        r == status_of(*reply),
{
    match reply {
        Ok(Some(_)) => OK,
        Ok(None) => NOT_FOUND,
        Err(error) => error.status_code(),
    }
}

/// Insert, then read by identity: where the store hands back the row it
/// was given, under the identity it issued, the person read is the person
/// that creating it replied with, and the reply says "found". That the
/// store does hand that row back is the store's part.
pub proof fn lemma_read_returns_what_was_created(
    name: Seq<char>,
    issued: i64,
    created: Result<Person, ServerError>,
    row: Person,
)
    requires
        create_person::owed(name, Ok(ExecuteResult { last_insert_rowid: issued }), created),
        row@ == (PersonView { id: issued, name }),
    ensures
        created matches Ok(person) && person_reply(Ok(Some(row))) matches Ok(Some(read))
            && read@ == person@,
        status_of(person_reply(Ok(Some(row)))) == OK,
{
}

/// A query that found no row is answered with "not found", not with an
/// error.
pub proof fn lemma_no_row_is_not_found()
    ensures
        person_reply(Ok(None)) == Ok::<Option<Person>, ServerError>(None),
        status_of(person_reply(Ok(None))) == NOT_FOUND,
{
}

} // verus!
