//! Validated request and response payloads for the FitFlow authentication
//! service.
//!
//! A [`Registration`], a [`Login`] or a [`response::Token`] can only be
//! obtained through its `new` function, which checks every rule of every field
//! and either returns the instance, holding exactly the strings it was given,
//! or a [`ValidationError`] that lists each rule that was broken.
//!
//! The rules themselves are in [`field`], one list per field. Whether a text
//! is an e-mail address and how long a text is are decided by the `validator`
//! crate; [`constraint`] holds those two calls and what is taken on trust
//! about them.

pub mod constraint;
pub mod error;
pub mod field;
pub mod request;
pub mod response;

pub use constraint::Constraint;
pub use error::{ValidationError, Violation};
pub use field::Field;
pub use request::{Login, Registration};
