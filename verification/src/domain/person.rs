//! Person records: what a client submits, and what the store holds.

use vstd::prelude::*;
use vstd::std_specs::cmp::PartialEqSpecImpl;

verus! {

/// Whether `text` is the content of a `String` that converting `source`
/// may hand back.
pub open spec fn converts_to<N: Into<String>>(source: N, text: Seq<char>) -> bool {
    exists|owned: String| #[trigger] call_ensures(N::into, (source,), owned) && owned@ == text
}

/// The body of a request to create a person.
pub struct PersonInput {
    name: String,
}

impl View for PersonInput {
    type V = Seq<char>;

    closed spec fn view(&self) -> Seq<char> {
        self.name@
    }
}

impl PersonInput {
    /// Builds an input from anything that converts into a `String`. The name
    /// is exactly what the conversion hands back.
    pub fn new<N: Into<String>>(name: N) -> (r: Self)
        ensures
            converts_to(name, r@),
    {
        let owned: String = name.into();
        assert(call_ensures(N::into, (name,), owned) && owned@ == owned@);
        Self { name: owned }
    }

    pub fn name(&self) -> (r: &str)
        ensures
            r@ == self@,
    {
        self.name.as_str()
    }
}

/// The mathematical content of a `Person`.
pub struct PersonView {
    pub id: i64,
    pub name: Seq<char>,
}

/// A stored person: the identity the store issued, and the name.
#[derive(Debug)]
pub struct Person {
    id: i64,
    name: String,
}

impl View for Person {
    type V = PersonView;

    closed spec fn view(&self) -> PersonView {
        PersonView { id: self.id, name: self.name@ }
    }
}

impl Person {
    pub fn new(id: i64, name: String) -> (r: Self)
        ensures
            r@ == (PersonView { id, name: name@ }),
    {
        Self { id, name }
    }

    pub fn id(&self) -> (r: i64)
        ensures
            r == self@.id,
    {
        self.id
    }

    pub fn name(&self) -> (r: &str)
        ensures
            r@ == self@.name,
    {
        self.name.as_str()
    }
}

impl PartialEq for Person {
    fn eq(&self, other: &Self) -> (r: bool) {
        self.id == other.id && self.name == other.name
    }
}

impl Eq for Person {}

impl PartialEqSpecImpl for Person {
    open spec fn obeys_eq_spec() -> bool {
        true
    }

    open spec fn eq_spec(&self, other: &Self) -> bool {
        self@ == other@
    }
}

} // verus!
