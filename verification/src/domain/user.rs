//! User records and the two credential forms: login and sign-up.

use vstd::prelude::*;

verus! {

/// The mathematical content of a `Login`.
pub struct LoginView {
    pub username: Seq<char>,
    pub password: Seq<char>,
}

/// The credentials a client submits to log in.
pub struct Login {
    username: String,
    password: String,
}

impl View for Login {
    type V = LoginView;

    closed spec fn view(&self) -> LoginView {
        LoginView { username: self.username@, password: self.password@ }
    }
}

impl Login {
    pub fn new(username: String, password: String) -> (r: Self)
        ensures
            r@ == (LoginView { username: username@, password: password@ }),
    {
        Self { username, password }
    }

    pub fn username(&self) -> (r: &str)
        ensures
            r@ == self@.username,
    {
        self.username.as_str()
    }

    pub fn password(&self) -> (r: &str)
        ensures
            r@ == self@.password,
    {
        self.password.as_str()
    }
}

/// The mathematical content of a `UserInput`.
pub struct UserInputView {
    pub username: Seq<char>,
    pub password: Seq<char>,
    pub confirmed_password: Seq<char>,
}

/// The form a client submits to sign up.
pub struct UserInput {
    username: String,
    password: String,
    confirmed_password: String,
}

impl View for UserInput {
    type V = UserInputView;

    closed spec fn view(&self) -> UserInputView {
        UserInputView {
            username: self.username@,
            password: self.password@,
            confirmed_password: self.confirmed_password@,
        }
    }
}

impl UserInput {
    pub fn new(username: String, password: String, confirmed_password: String) -> (r: Self)
        ensures
            r@ == (UserInputView {
                username: username@,
                password: password@,
                confirmed_password: confirmed_password@,
            }),
    {
        Self { username, password, confirmed_password }
    }

    pub fn username(&self) -> (r: &str)
        ensures
            r@ == self@.username,
    {
        self.username.as_str()
    }

    pub fn password(&self) -> (r: &str)
        ensures
            r@ == self@.password,
    {
        self.password.as_str()
    }

    pub fn confirmed_password(&self) -> (r: &str)
        ensures
            r@ == self@.confirmed_password,
    {
        self.confirmed_password.as_str()
    }
}

/// The mathematical content of a `User`.
pub struct UserView {
    pub id: i64,
    pub username: Seq<char>,
}

/// A stored user: the identity the store issued, and the username. The
/// password hash never leaves the credential flow.
#[derive(Debug)]
pub struct User {
    id: i64,
    username: String,
}

impl View for User {
    type V = UserView;

    closed spec fn view(&self) -> UserView {
        UserView { id: self.id, username: self.username@ }
    }
}

impl User {
    pub fn new(id: i64, username: String) -> (r: Self)
        ensures
            r@ == (UserView { id, username: username@ }),
    {
        Self { id, username }
    }

    pub fn username(&self) -> (r: &str)
        ensures
            r@ == self@.username,
    {
        self.username.as_str()
    }

    pub fn id(&self) -> (r: i64)
        ensures
            r == self@.id,
    {
        self.id
    }
}

} // verus!
