//! The token by which the interface stops a stream.
//!
//! A token goes from not cancelled to cancelled and never back. A clone is a
//! handle to the same token: cancelling either cancels both. The library
//! makes tokens, keeps them and says which one is to be cancelled; the
//! cancelling itself is left to the caller.

use tokio_util::sync::CancellationToken;
use vstd::prelude::*;

verus! {

/// `tokio_util::sync::CancellationToken`. The library makes tokens and hands
/// them on; it never reads one.
#[verifier::external_type_specification]
#[verifier::external_body]
pub struct ExCancellationToken(CancellationToken);

/// Calls `CancellationToken::new`: a token of its own, not cancelled.
/// Nothing is claimed of it.
#[verifier::external_body]
pub(crate) fn new_token() -> (token: CancellationToken) {
    CancellationToken::new()
}

/// Calls `CancellationToken::clone`. The contract claims what the crate
/// documents of a clone and of `==` on tokens: the clone equals the token it
/// was made from.
#[verifier::external_body]
pub(crate) fn clone_token(token: &CancellationToken) -> (copy: CancellationToken)
    ensures
        copy == *token,
{
    token.clone()
}

} // verus!
