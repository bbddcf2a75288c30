//! Account flows: registration, passwords, account recovery and the verification of
//! phone numbers.
//!
//! The library decides and does no I/O. Most of its functions take what was asked for
//! and the answers gathered so far, and return the next thing to ask for or to do, or
//! the outcome. Whoever calls them does it, records the answer and calls again. What a
//! function returns is stated by a specification function, `.._next`, which the laws in
//! the same module speak of.
//!
//! - [`users`]: the mutations on user accounts
//! - [`recovery`]: account recovery with a code
//! - [`identity`]: phone numbers as proof of who someone is
//! - [`validations`]: the sessions in which numbers are proved, as they are kept
//! - [`convert`]: the service that delivers messages to phones
//! - [`user_phones`]: the phone numbers of users as they are stored

pub mod convert;
pub mod email;
pub mod identity;
pub mod ids;
pub mod instant;
pub mod json;
pub mod numerals;
pub mod phone_number;
pub mod recovery;
pub mod reply;
pub mod text;
pub mod user_phones;
pub mod users;
pub mod validations;
