//! The cancellation token that a scan shares with the session that began it.
//!
//! Nothing here is proved: these items tell the verifier which functions of
//! the token may be called. A token's state is shared between its clones and
//! may change at any moment, so no contract speaks of it; the one claim made
//! is that a clone is the same token as the one it was made from.

use vstd::prelude::*;

verus! {

/// `CancellationToken` of `tokio_util::sync`, declared so that it can be
/// held and handed on. Nothing inside it is visible to the verifier.
#[verifier::external_type_specification]
#[verifier::external_body]
pub struct ExCancellationToken(tokio_util::sync::CancellationToken);

/// `CancellationToken::new` makes a token that is not cancelled and shares
/// its state with no other token. It cannot fail.
pub assume_specification[ tokio_util::sync::CancellationToken::new ]() -> (token:
    tokio_util::sync::CancellationToken)
;

/// `Clone::clone` on a token makes a second handle on the same state: to
/// cancel either one is to cancel both, and the two compare as equal. The
/// contract claims that much: the clone is the same token.
pub assume_specification[ <tokio_util::sync::CancellationToken as Clone>::clone ](
    token: &tokio_util::sync::CancellationToken,
) -> (copy: tokio_util::sync::CancellationToken)
    ensures
        copy == *token,
;

/// `CancellationToken::cancel` marks the token and its clones as cancelled;
/// on a token that is cancelled already it does nothing.
pub assume_specification[ tokio_util::sync::CancellationToken::cancel ](
    token: &tokio_util::sync::CancellationToken,
)
;

/// `CancellationToken::is_cancelled` tells whether `cancel` has been called
/// on the token or on a clone of it. The answer depends on what other
/// holders of the token have done, so nothing is claimed of it.
pub assume_specification[ tokio_util::sync::CancellationToken::is_cancelled ](
    token: &tokio_util::sync::CancellationToken,
) -> (cancelled: bool)
;

} // verus!
