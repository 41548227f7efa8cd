//! Core logic of a multi-provider DNS record manager: record value codecs,
//! name normalization, request validation, request signing, conflict
//! resolution and a uniform error taxonomy, shared by eight provider
//! adapters.

pub mod aggregate;
pub mod clock;
pub mod codec;
pub mod conflict;
pub mod crypto;
pub mod encoding;
pub mod errors;
pub mod json;
pub mod names;
pub mod providers;
pub mod strings;
pub mod types;
pub mod validate;

pub use errors::AppError;
