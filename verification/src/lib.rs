//! Typed request and response structures for the PayRex payment API, together
//! with the generator that produces their constructors and setters.
//!
//! The crate has these parts:
//!
//! - [`codegen`] turns an annotated struct definition into its expanded field
//!   list, an optional all-optional mirror struct, a constructor and one
//!   setter per optional field;
//! - [`types`] and [`resources`] hold the data types of the API, the
//!   parameters of its calls with their builders, and, as [`request`]s, what
//!   each endpoint sends;
//! - [`error`] holds the error types;
//! - [`text`] holds the helpers over strings that the rest shares.

pub mod codegen;
pub mod error;
pub mod request;
pub mod resources;
pub mod text;
pub mod types;
