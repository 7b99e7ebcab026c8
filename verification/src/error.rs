use vstd::prelude::*;

verus! {

/// Every way an operation of this crate can end without a result.
#[derive(Clone, Copy, Debug, PartialEq, Eq, Structural)]
pub enum Error {
    /// The HTTP transport could not be set up.
    TransportInit,
    /// The connection could not be made or the server answered with an error.
    RequestFailed,
    /// The response body does not have the expected shape.
    DecodeFailed,
    /// The response does not declare how long its body is.
    MissingContentLength,
    /// The destination file could not be created.
    FileCreateFailed,
    /// Reading the body or writing the file broke off part-way.
    StreamIOFailed,
}

} // verus!
