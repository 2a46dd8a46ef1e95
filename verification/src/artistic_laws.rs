//! What holds of the artwork collection over whole histories of calls.

use vstd::prelude::*;
use crate::artistic_nft::Registry;
use crate::error::Error;
use crate::principal::Principal;

verus! {

/// One call that can change the collection, with its arguments.
pub enum Op {
    Mint { to: Principal, metadata: Seq<char>, image: Seq<char> },
    Transfer { auth: Set<Principal>, owner: Principal, to: Principal, id: int },
    Approve { auth: Set<Principal>, owner: Principal, to: Principal, id: int },
    TransferFrom {
        auth: Set<Principal>,
        spender: Principal,
        from: Principal,
        to: Principal,
        id: int,
    },
    TakeEvents,
}

/// The collection after one call, accepted or refused.
pub open spec fn step(s: Registry, op: Op) -> Registry {
    match op {
        Op::Mint { to, metadata, image } => s.mint(to, metadata, image),
        Op::Transfer { auth, owner, to, id } => s.transfer(auth, owner, to, id),
        Op::Approve { auth, owner, to, id } => s.approve(auth, owner, to, id),
        Op::TransferFrom { auth, spender, from, to, id } => s.transfer_from(
            auth,
            spender,
            from,
            to,
            id,
        ),
        Op::TakeEvents => s.with_log(Seq::empty()),
    }
}

/// How many tokens one call creates in `s`.
pub open spec fn minted(s: Registry, op: Op) -> nat {
    if op is Mint && s.can_mint() is Ok {
        1
    } else {
        0
    }
}

/// The collection after a history of calls, oldest first.
pub open spec fn run(s: Registry, ops: Seq<Op>) -> Registry
    decreases ops.len(),
{
    if ops.len() == 0 {
        s
    } else {
        step(run(s, ops.drop_last()), ops.last())
    }
}

/// How many tokens a history of calls creates, starting from `s`.
pub open spec fn mints(s: Registry, ops: Seq<Op>) -> nat
    decreases ops.len(),
{
    if ops.len() == 0 {
        0
    } else {
        mints(s, ops.drop_last()) + minted(run(s, ops.drop_last()), ops.last())
    }
}

/// No call takes a well-formed collection to an ill-formed one.
pub proof fn law_step_keeps_wf(s: Registry, op: Op)
    requires
        s.wf(),
    ensures
        step(s, op).wf(),
{
}

/// No history of calls takes a well-formed collection to an ill-formed one.
pub proof fn law_run_keeps_wf(s: Registry, ops: Seq<Op>)
    requires
        s.wf(),
    ensures
        run(s, ops).wf(),
    decreases ops.len(),
{
    if ops.len() > 0 {
        law_run_keeps_wf(s, ops.drop_last());
        law_step_keeps_wf(run(s, ops.drop_last()), ops.last());
    }
}

/// Right after a mint the new token belongs to the minting target.
pub proof fn law_minted_token_belongs_to_target(
    s: Registry,
    to: Principal,
    metadata: Seq<char>,
    image: Seq<char>,
)
    requires
        s.wf(),
        s.can_mint() is Ok,
    ensures
        s.after_mint(to, metadata, image).owner_of(s.can_mint()->Ok_0 as int) == Ok::<
            Principal,
            Error,
        >(to),
{
}

/// Right after a transfer, direct or delegated, the token belongs to the
/// recipient.
pub proof fn law_transferred_token_belongs_to_recipient(
    s: Registry,
    from: Principal,
    to: Principal,
    id: int,
)
    ensures
        s.after_transfer(from, to, id).owner_of(id) == Ok::<Principal, Error>(to),
{
}

/// The supply never goes down, and it grows by exactly the number of
/// tokens the history mints.
pub proof fn law_supply_counts_mints(s: Registry, ops: Seq<Op>)
    ensures
        run(s, ops).count == s.count + mints(s, ops),
        run(s, ops).count >= s.count,
    decreases ops.len(),
{
    if ops.len() > 0 {
        law_supply_counts_mints(s, ops.drop_last());
    }
}

/// Starting from the empty collection, the supply is the number of mints
/// that have succeeded.
pub proof fn law_supply_is_mints_since_creation(ops: Seq<Op>)
    ensures
        run(Registry::empty(), ops).count == mints(Registry::empty(), ops),
{
    law_supply_counts_mints(Registry::empty(), ops);
}

/// An approval does not survive a transfer: when `owner` approves `p` for
/// token `id` and the transfer that follows is accepted, `p` is no longer
/// approved for it, and neither is anyone else.
pub proof fn law_transfer_clears_approval(
    s: Registry,
    approve_auth: Set<Principal>,
    transfer_auth: Set<Principal>,
    owner: Principal,
    p: Principal,
    other: Principal,
    id: int,
)
    requires
        s.approve(approve_auth, owner, p, id).can_manage(transfer_auth, owner, id) is Ok,
    ensures
        !s.approve(approve_auth, owner, p, id).transfer(transfer_auth, owner, other, id).is_approved(
            p,
            id,
        ),
        forall|q: Principal|
            !(#[trigger] s.approve(approve_auth, owner, p, id).transfer(
                transfer_auth,
                owner,
                other,
                id,
            ).is_approved(q, id)),
{
}

/// A delegated transfer uses the approval up: the spender cannot move the
/// token a second time.
pub proof fn law_delegated_transfer_clears_approval(
    s: Registry,
    auth: Set<Principal>,
    spender: Principal,
    from: Principal,
    to: Principal,
    id: int,
)
    requires
        s.can_transfer_from(auth, spender, from, id) is Ok,
    ensures
        forall|q: Principal|
            !(#[trigger] s.transfer_from(auth, spender, from, to, id).is_approved(q, id)),
{
}

/// A stored layout that describes a collection describes a well-formed
/// one.
pub proof fn law_stored_is_wf(
    owners: Seq<Principal>,
    approvals: Seq<Option<Principal>>,
    metadata: Option<Seq<char>>,
    image: Option<Seq<char>>,
)
    requires
        Registry::storable(owners, approvals),
    ensures
        Registry::stored(owners, approvals, metadata, image).wf(),
{
}

/// Identifiers are handed out in order and never twice: a mint returns an
/// identifier that no token carried before.
pub proof fn law_mint_hands_out_a_fresh_id(s: Registry)
    requires
        s.wf(),
        s.can_mint() is Ok,
    ensures
        !s.owners.contains_key(s.can_mint()->Ok_0 as int),
        s.can_mint()->Ok_0 == s.count + 1,
{
}

} // verus!
