//! Errors of the database layer, told apart as far as callers act on them.

use vstd::prelude::*;
use vstd::std_specs::convert::FromSpecImpl;

verus! {

/// `diesel::result::Error`, an error of the query layer, carried through as it is.
#[verifier::external_type_specification]
#[verifier::external_body]
pub struct ExDieselError(diesel::result::Error);

/// What callers tell apart in an error of the query layer.
#[derive(Clone, Copy, Debug, PartialEq, Eq, Structural)]
pub enum ErrorClass {
    /// The database turned a statement down because a unique key would occur twice.
    UniqueViolation,
    /// A query that had to give a row gave none.
    NotFound,
    /// Anything else.
    Other,
}

/// The class of an error of the query layer: by its variant, and for an error that the
/// database returned by the kind that comes with it.
pub uninterp spec fn error_class(error: diesel::result::Error) -> ErrorClass;

/// Tells the variants of `diesel::result::Error` apart: `DatabaseError` with the kind
/// `UniqueViolation`, `NotFound`, and the rest.
#[verifier::external_body]
fn class_of(error: &diesel::result::Error) -> (class: ErrorClass)
    ensures
        class == error_class(*error),
{
    match error {
        diesel::result::Error::DatabaseError(
            diesel::result::DatabaseErrorKind::UniqueViolation,
            _,
        ) => ErrorClass::UniqueViolation,
        diesel::result::Error::NotFound => ErrorClass::NotFound,
        _ => ErrorClass::Other,
    }
}

/// An error of the database layer.
#[derive(Debug)]
pub enum DatabaseError {
    /// A row with this key exists already.
    UniqueKeyViolation,
    /// There is no such row.
    NotFound,
    /// Any other failure, with the error that reported it.
    Other(diesel::result::Error),
}

impl DatabaseError {
    /// The database error that an error of a given class becomes.
    pub open spec fn of_class(class: ErrorClass, error: diesel::result::Error) -> DatabaseError {
        match class {
            ErrorClass::UniqueViolation => DatabaseError::UniqueKeyViolation,
            ErrorClass::NotFound => DatabaseError::NotFound,
            ErrorClass::Other => DatabaseError::Other(error),
        }
    }

    /// The database error for an error whose class is known. The error itself is kept
    /// only where the class says no more than that it is something else.
    pub fn classified(class: ErrorClass, error: diesel::result::Error) -> (converted: DatabaseError)
        ensures
            converted == Self::of_class(class, error),
    {
        match class {
            ErrorClass::UniqueViolation => DatabaseError::UniqueKeyViolation,
            ErrorClass::NotFound => DatabaseError::NotFound,
            ErrorClass::Other => DatabaseError::Other(error),
        }
    }

    /// Whether this is `NotFound`.
    pub fn is_not_found(&self) -> (found: bool)
        ensures
            found == (self is NotFound),
    {
        match self {
            DatabaseError::NotFound => true,
            _ => false,
        }
    }

    /// Whether this is `UniqueKeyViolation`.
    pub fn is_unique_key_violation(&self) -> (found: bool)
        ensures
            found == (self is UniqueKeyViolation),
    {
        match self {
            DatabaseError::UniqueKeyViolation => true,
            _ => false,
        }
    }
}

impl From<diesel::result::Error> for DatabaseError {
    fn from(value: diesel::result::Error) -> (converted: DatabaseError) {
        let class = class_of(&value);
        DatabaseError::classified(class, value)
    }
}

impl FromSpecImpl<diesel::result::Error> for DatabaseError {
    open spec fn obeys_from_spec() -> bool {
        true
    }

    open spec fn from_spec(value: diesel::result::Error) -> DatabaseError {
        DatabaseError::of_class(error_class(value), value)
    }
}

} // verus!
