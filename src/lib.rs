use vstd::prelude::*;

pub mod components;
pub mod document;
pub mod geometry;
pub mod render;
pub mod text;

verus! {

/// Relies on std's `io::Error` only as a value carried through unchanged.
#[verifier::external_type_specification]
#[verifier::external_body]
pub struct ExIoError(std::io::Error);

/// The ways rendering or writing a diagram can fail.
#[derive(Debug)]
pub enum Error {
    /// The node sink rejected an operation.
    Render { reason: String },
    /// Writing the finished document failed.
    Io(std::io::Error),
    /// Anything not otherwise classified.
    Unknown { reason: String },
}

pub type Result<T> = std::result::Result<T, Error>;

} // verus!
