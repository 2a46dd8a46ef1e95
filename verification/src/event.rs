use vstd::prelude::*;
use crate::principal::Principal;

verus! {

/// An entry of a registry's append-only log.
#[derive(Clone, Copy, Debug, PartialEq, Eq, Structural)]
pub enum Event {
    /// Token `id` was created for `to`.
    Mint { to: Principal, id: i128 },
    /// Token `id` passed from `from` to `to`.
    Transfer { from: Principal, to: Principal, id: i128 },
    /// `owner` allowed `approved` to transfer token `id`.
    Approval { owner: Principal, approved: Principal, id: i128 },
    /// `owner` consumed ticket `id`.
    Used { owner: Principal, id: i128 },
}

} // verus!
