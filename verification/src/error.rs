use vstd::prelude::*;

verus! {

/// The ways an operation on profiles and todo records can fail. Every error is
/// terminal for the operation that raised it: the operation either fully
/// applies or leaves all state unchanged.
#[derive(Clone, Copy, Debug, PartialEq, Eq)]
pub enum TodoError {
    /// Creation targeted an address that already holds a record.
    AlreadyExists,
    /// The operation targeted an address with no record.
    NotFound,
    /// The caller does not match the record's authority.
    Unauthorized,
    /// A counter increment would leave its representable range.
    Overflow,
    /// A counter decrement would leave its representable range.
    Underflow,
    /// A mark was requested on a record that is already marked.
    AlreadyMarked,
}

} // verus!
