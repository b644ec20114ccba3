//! Failures of account constraints that carry no error of the program's own.
use vstd::prelude::*;

verus! {

/// A handler's failure: an account constraint (`has_one`) that does not
/// hold, or one of the program's own errors.
#[derive(Debug, PartialEq, Eq, Structural)]
pub enum HandlerError<E> {
    ConstraintHasOne,
    Custom(E),
}

} // verus!
