//! The reasons for which a request is not served.

use vstd::prelude::*;

verus! {

/// Why a request gets no content.
#[derive(Clone, Copy, Debug, PartialEq, Eq, Structural)]
pub enum Error {
    /// The request is malformed: wrong method, two dots side by side in the
    /// path, or a path that is not UTF-8.
    BadRequest,
    /// The file or directory is missing or cannot be read.
    NotFound,
    /// The file's extension is not one that is served.
    UnsupportedType,
}

impl Error {
    /// The status code that answers this error. A type that is not served is
    /// answered like a file that is not there.
    pub open spec fn code(self) -> u16 {
        match self {
            Error::BadRequest => 400,
            Error::NotFound => 404,
            Error::UnsupportedType => 404,
        }
    }

    /// The status code that answers this error.
    pub fn status_code(&self) -> (code: u16)
        ensures
            code == self.code(),
    {
        match self {
            Error::BadRequest => 400,
            Error::NotFound => 404,
            Error::UnsupportedType => 404,
        }
    }
}

} // verus!
