//! The one error type of every fallible operation.

use vstd::prelude::*;
use vstd::std_specs::convert::FromSpecImpl;

verus! {

/// The driver's error, `tokio_postgres::Error`. The library carries it
/// through unread.
#[verifier::external_type_specification]
#[verifier::external_body]
pub struct ExDriverError(tokio_postgres::Error);

/// What went wrong: either the store or its transport failed, or the lookup
/// found no record.
#[derive(Debug)]
pub enum RepositoryError {
    /// A failure that the driver reported, kept as it came.
    Db(tokio_postgres::Error),
    /// A failure of the repository's own, with its message.
    Intern(String),
}

/// The mathematical value of an error: the driver's error itself, or the
/// characters of the message.
pub ghost enum ErrorView {
    Db(tokio_postgres::Error),
    Intern(Seq<char>),
}

impl View for RepositoryError {
    type V = ErrorView;

    open spec fn view(&self) -> ErrorView {
        match *self {
            RepositoryError::Db(e) => ErrorView::Db(e),
            RepositoryError::Intern(message) => ErrorView::Intern(message@),
        }
    }
}

impl From<tokio_postgres::Error> for RepositoryError {
    fn from(err: tokio_postgres::Error) -> (error: RepositoryError) {
        RepositoryError::Db(err)
    }
}

impl FromSpecImpl<tokio_postgres::Error> for RepositoryError {
    open spec fn obeys_from_spec() -> bool {
        true
    }

    open spec fn from_spec(err: tokio_postgres::Error) -> RepositoryError {
        RepositoryError::Db(err)
    }
}

impl From<String> for RepositoryError {
    fn from(err: String) -> (error: RepositoryError) {
        RepositoryError::Intern(err)
    }
}

impl FromSpecImpl<String> for RepositoryError {
    open spec fn obeys_from_spec() -> bool {
        true
    }

    open spec fn from_spec(err: String) -> RepositoryError {
        RepositoryError::Intern(err)
    }
}

} // verus!
