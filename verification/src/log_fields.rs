//! Values for logs.

use vstd::prelude::*;

verus! {

/// `tracing::field::DisplayValue`, a value that is written into a log by its display form.
#[verifier::external_type_specification]
#[verifier::external_body]
#[verifier::reject_recursive_types(T)]
pub struct ExDisplayValue<T: std::fmt::Display>(tracing::field::DisplayValue<T>);

/// `tracing::field::display` keeps a value to be written into a log. When it is written is left
/// open: the value is not looked at here.
#[verifier::external_body]
pub(crate) fn display<T: std::fmt::Display>(value: T) -> (shown: tracing::field::DisplayValue<T>) {
    tracing::field::display(value)
}

/// A value for a log, where there is one.
pub fn display_opt<T: std::fmt::Display>(value: Option<T>) -> (shown: Option<
    tracing::field::DisplayValue<T>,
>)
    ensures
        shown is Some <==> value is Some,
{
    match value {
        Some(value) => Some(display(value)),
        None => None,
    }
}

} // verus!
