//! The schema of the service: a table of persons, and a table of users
//! whose usernames are unique.

use vstd::prelude::*;
use crate::migration::runner::versions;
use crate::migration::set::{MigrationScript, MigrationSet};

verus! {

pub const CREATE_PERSON: &'static str =
    "CREATE TABLE person (id INTEGER PRIMARY KEY AUTOINCREMENT, name TEXT NOT NULL);";

pub const CREATE_USER: &'static str =
    "CREATE TABLE User (Id INTEGER PRIMARY KEY AUTOINCREMENT, Username TEXT NOT NULL UNIQUE, PasswordHash TEXT NOT NULL);";

/// The scripts that the service ships with, as a migration set: version 1
/// creates the persons, version 2 the users.
pub fn schema() -> (r: MigrationSet)
    ensures
        versions(r@) == seq![1u32, 2u32],
        r@[0].sql@ == CREATE_PERSON@,
        r@[1].sql@ == CREATE_USER@,
{
    let mut scripts: Vec<MigrationScript> = Vec::new();
    scripts.push(
        MigrationScript {
            version: 2,
            name: String::from("create_user"),
            sql: String::from(CREATE_USER),
        },
    );
    scripts.push(
        MigrationScript {
            version: 1,
            name: String::from("create_person"),
            sql: String::from(CREATE_PERSON),
        },
    );
    let ghost given = scripts@;
    match MigrationSet::new(scripts) {
        Ok(set) => {
            proof {
                let sorted = set@;
                vstd::seq_lib::to_multiset_len(sorted);
                vstd::seq_lib::to_multiset_len(given);
                assert(sorted.len() == 2);
                assert(given.contains(given[0]) && given.contains(given[1]));
                vstd::seq_lib::to_multiset_contains(given, given[0]);
                vstd::seq_lib::to_multiset_contains(given, given[1]);
                vstd::seq_lib::to_multiset_contains(sorted, given[0]);
                vstd::seq_lib::to_multiset_contains(sorted, given[1]);
                let low = choose|i: int| 0 <= i < sorted.len() && sorted[i] == given[1];
                let high = choose|i: int| 0 <= i < sorted.len() && sorted[i] == given[0];
                assert(sorted[0].version < sorted[1].version);
                assert(low == 0 && high == 1);
                assert(versions(sorted) =~= seq![1u32, 2u32]);
            }
            set
        },
        Err(_) => unreached(),
    }
}

} // verus!
