use vstd::prelude::*;

verus! {

/// Why a call against the lottery ledger was refused.
///
/// Every operation either completes with a full state transition or fails
/// with exactly one of these reasons and no observable effect.  Host-side
/// failures (address resolution, fund delivery) never reach this type: the
/// host aborts the whole call before the ledger runs.
#[derive(Clone, Copy, Debug, PartialEq, Eq, Structural)]
pub enum Error {
    /// Malformed or out-of-range input: a creation message with no tickets,
    /// a prize index past the ticket sequence, missing or insufficient
    /// attached funds, or the zero-address sentinel where a real account is
    /// required.
    Validation,
    /// The caller is neither the ticket's owner nor in its approved set.
    Authorization,
    /// The ticket id lies outside the ticket sequence.
    NotFound,
    /// The claimed previous owner does not match the recorded owner.
    OwnerMismatch,
    /// The ticket's recorded owner is the zero-address sentinel, so it has
    /// no externally addressable owner any more.
    AlreadyRedeemed,
    /// Settlement was requested on a lottery that is already settled.
    AlreadySettled,
}

} // verus!
