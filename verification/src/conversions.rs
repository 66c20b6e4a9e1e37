//! Specifications of standard-library conversions that the library relies on.

use vstd::prelude::*;

verus! {

/// `String::from(&str)` copies the slice: the new string has the same
/// characters. Trusted: the standard library documents it as converting a
/// `&str` into a `String`. A conversion through `Into<String>`, as in
/// `PersonInput::new`, ends in this call, so this is what fixes the name
/// of an input that was built from a `&str`.
pub assume_specification<'a>[ <String as From<&'a str>>::from ](s: &str) -> (r: String)
    ensures
        r@ == s@,
;

} // verus!
