//! Creating a person.

use vstd::prelude::*;
use crate::db_handle::ExecuteResult;
use crate::domain::errors::{InnerError, ServerError};
use crate::domain::person::{Person, PersonInput, PersonView};

verus! {

/// The statement that stores a person; its one parameter is the name.
pub const INSERT_PERSON: &'static str = "INSERT INTO person (name) VALUES (:name)";

/// Whether `reply` is what creating a person owes for what the insert
/// returned: the person under the identity that the store issued, with the
/// name as submitted, or the error itself.
pub open spec fn owed(
    name: Seq<char>,
    inserted: Result<ExecuteResult, InnerError>,
    reply: Result<Person, ServerError>,
) -> bool {
    match inserted {
        Ok(result) => reply matches Ok(person) && person@ == (PersonView {
            id: result.last_insert_rowid,
            name,
        }),
        Err(error) => reply == Err::<Person, ServerError>(ServerError(error)),
    }
}

/// The reply to a request to create a person, given what the insert
/// returned.
pub fn create_person(person_input: &PersonInput, inserted: Result<ExecuteResult, InnerError>) -> (r:
    Result<Person, ServerError>)
    ensures
        owed(person_input@, inserted, r),
{
    match inserted {
        Ok(result) => Ok(Person::new(result.last_insert_rowid, String::from(person_input.name()))),
        Err(error) => Err(ServerError(error)),
    }
}

} // verus!
