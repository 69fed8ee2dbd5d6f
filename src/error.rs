use vstd::prelude::*;

verus! {

/// `anyhow::Error`, the error type that the whole console reports: its
/// operations hand on what the components and the output produce.
#[verifier::external_type_specification]
#[verifier::external_body]
pub struct ExError(anyhow::Error);

/// Relies on `anyhow::Error::msg`, which builds an error from a message.
#[verifier::external_body]
pub(crate) fn error_msg(message: &'static str) -> (r: anyhow::Error) {
    anyhow::Error::msg(message)
}

} // verus!
