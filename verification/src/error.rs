use vstd::prelude::*;

verus! {

/// Why a registry operation was refused. A refused operation changes nothing.
#[derive(Clone, Copy, Debug, PartialEq, Eq, Structural)]
pub enum Error {
    /// The host did not confirm the acting principal's consent, or the
    /// principal named is not the one the record is bound to.
    NotAuthorized,
    /// The principal named as owner does not own the token.
    NotOwner,
    /// The spender holds no live approval for the token.
    NotApproved,
    /// No such token or event, or the registry has no administrator yet.
    NotFound,
    /// The ticket has been consumed.
    AlreadyUsed,
    /// Minting has not been enabled for the event.
    MintingDisabled,
    /// No further token identifier can be allocated.
    SupplyExceeded,
    /// A price was due and the payment did not go through.
    PaymentFailed,
    /// The index is not below the total supply.
    IndexOutOfRange,
    /// The registry already has an administrator.
    AlreadyInitialized,
}

} // verus!
