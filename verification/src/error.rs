//! The failure type the top level reports: a message together with the
//! process exit code of the failure's category.
//!
//! Environment and I/O failures share one reserved exit code and every other
//! failure the other, so that scripts can branch on the two.

use vstd::prelude::*;

verus! {

/// The exit code reserved for environment and I/O failures.
pub const EXIT_IO: i32 = 2;

/// The exit code reserved for all other failures.
pub const EXIT_GENERIC: i32 = 3;

/// A failure as the top level reports it.
#[derive(Debug)]
pub struct Error {
    /// The message printed to the error stream.
    pub msg: String,
    /// The process exit code of this failure's category.
    pub exit: i32,
}

/// A generic, user-correctable failure, carrying only its message.
#[derive(Debug)]
pub struct Generic {
    /// The message printed to the error stream.
    pub msg: String,
}

impl Generic {
    /// A generic failure with message `message`.
    pub fn new(message: &str) -> (e: Generic)
        ensures
            e.msg@ == message@,
    {
        Generic { msg: message.to_owned() }
    }
}

impl From<Generic> for Error {
    fn from(error: Generic) -> (e: Error) {
        Error { msg: error.msg, exit: EXIT_GENERIC }
    }
}

impl vstd::std_specs::convert::FromSpecImpl<Generic> for Error {
    open spec fn obeys_from_spec() -> bool {
        true
    }

    open spec fn from_spec(v: Generic) -> Error {
        Error { msg: v.msg, exit: EXIT_GENERIC }
    }
}

impl Error {
    /// A generic failure with message `message`, carrying the generic exit
    /// code.
    pub fn new(message: &str) -> (e: Error)
        ensures
            e.msg@ == message@,
            e.exit == EXIT_GENERIC,
    {
        Error::from(Generic::new(message))
    }

    /// Wraps any failure that converts into `Error` as an `Err` result.
    pub fn result<T, E>(error: E) -> (r: Result<T, Error>) where Error: From<E>
        ensures
            r is Err,
            <Error as vstd::std_specs::convert::FromSpec<E>>::obeys_from_spec() ==> r == Err::<
                T,
                Error,
            >(<Error as vstd::std_specs::convert::FromSpec<E>>::from_spec(error)),
    {
        Err(Error::from(error))
    }

    /// A generic failure with message `message`, as an `Err` result.
    pub fn new_result<T>(message: &str) -> (r: Result<T, Error>)
        ensures
            r matches Err(e) && e.msg@ == message@ && e.exit == EXIT_GENERIC,
    {
        Err(Error::new(message))
    }

    /// An environment or I/O failure whose cause was already rendered into
    /// `message`, carrying the I/O exit code.
    pub fn from_io(message: &str) -> (e: Error)
        ensures
            e.msg@ == message@,
            e.exit == EXIT_IO,
    {
        Error { msg: message.to_owned(), exit: EXIT_IO }
    }
}

} // verus!
