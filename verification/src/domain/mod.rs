//! Domain records and the error taxonomy.

pub mod errors;
pub mod person;
pub mod user;

pub use person::{Person, PersonInput, PersonView};
pub use user::{Login, LoginView, User, UserInput, UserInputView, UserView};
