//! The types that this crate takes from the `nb` and `void` crates.

use vstd::prelude::*;

verus! {

/// `nb::Error`: the error of a non-blocking operation, which either would
/// have to block to complete (`WouldBlock`) or has failed (`Other`). The enum
/// is read from the `nb` crate with both of its variants, so that contracts
/// can say which of them a function returns.
#[verifier::external_type_specification]
#[verifier::reject_recursive_types(E)]
pub struct ExNbError<E>(nb::Error<E>);

/// `void::Void`: the error type of operations that cannot fail. It has no
/// values, and nothing in this crate looks inside it.
#[verifier::external_type_specification]
#[verifier::external_body]
pub struct ExVoid(void::Void);

} // verus!
