//! What holds of the event registry over whole histories of calls.

use vstd::prelude::*;
use crate::error::Error;
use crate::event_nft::{ArtisticNFT, EventData, Registry};
use crate::principal::Principal;

verus! {

/// One call that can change the registry, with its arguments.
pub enum Op {
    Initialize { auth: Set<Principal>, admin: Principal },
    CreateEvent { auth: Set<Principal>, organizer: Principal, metadata_uri: Seq<char> },
    EnableMinting { auth: Set<Principal>, id: int, organizer: Principal },
    BatchMint { auth: Set<Principal>, id: int, participants: Seq<Principal>, organizer: Principal },
    Transfer { auth: Set<Principal>, from: Principal, to: Principal, id: int },
    TakeEvents,
}

/// The registry after one call, accepted or refused.
pub open spec fn step(s: Registry, op: Op) -> Registry {
    match op {
        Op::Initialize { auth, admin } => s.initialize(auth, admin),
        Op::CreateEvent { auth, organizer, metadata_uri } => s.create_event(
            auth,
            organizer,
            metadata_uri,
        ),
        Op::EnableMinting { auth, id, organizer } => s.enable_minting(auth, id, organizer),
        Op::BatchMint { auth, id, participants, organizer } => s.batch_mint(
            auth,
            id,
            participants,
            organizer,
        ),
        Op::Transfer { auth, from, to, id } => s.transfer(auth, from, to, id),
        Op::TakeEvents => s.with_log(Seq::empty()),
    }
}

/// How many tokens one call creates in `s`: one per participant of an
/// accepted batch mint.
pub open spec fn minted(s: Registry, op: Op) -> nat {
    match op {
        Op::BatchMint { auth, id, participants, organizer } => if s.can_batch_mint(
            auth,
            id,
            participants,
            organizer,
        ) is Ok {
            participants.len()
        } else {
            0
        },
        _ => 0,
    }
}

/// The registry after a history of calls, oldest first.
pub open spec fn run(s: Registry, ops: Seq<Op>) -> Registry
    decreases ops.len(),
{
    if ops.len() == 0 {
        s
    } else {
        step(run(s, ops.drop_last()), ops.last())
    }
}

/// How many tokens a history of calls creates, starting from `s`.
pub open spec fn mints(s: Registry, ops: Seq<Op>) -> nat
    decreases ops.len(),
{
    if ops.len() == 0 {
        0
    } else {
        mints(s, ops.drop_last()) + minted(run(s, ops.drop_last()), ops.last())
    }
}

/// No call takes a well-formed registry to an ill-formed one.
pub proof fn law_step_keeps_wf(s: Registry, op: Op)
    requires
        s.wf(),
    ensures
        step(s, op).wf(),
{
}

/// No history of calls takes a well-formed registry to an ill-formed one.
pub proof fn law_run_keeps_wf(s: Registry, ops: Seq<Op>)
    requires
        s.wf(),
    ensures
        run(s, ops).wf(),
    decreases ops.len(),
{
    if ops.len() > 0 {
        law_run_keeps_wf(s, ops.drop_last());
        law_step_keeps_wf(run(s, ops.drop_last()), ops.last());
    }
}

/// Right after an accepted batch mint, participant `k` owns the `k`-th
/// identifier the call returned.
pub proof fn law_batch_minted_tokens_belong_to_participants(
    s: Registry,
    auth: Set<Principal>,
    id: int,
    participants: Seq<Principal>,
    organizer: Principal,
    k: int,
)
    requires
        s.wf(),
        s.can_batch_mint(auth, id, participants, organizer) is Ok,
        0 <= k < participants.len(),
    ensures
        s.batch_mint(auth, id, participants, organizer).owner_of(
            s.can_batch_mint(auth, id, participants, organizer)->Ok_0[k] as int,
        ) == Ok::<Principal, Error>(participants[k]),
{
}

/// Right after a transfer the token belongs to the recipient.
pub proof fn law_transferred_token_belongs_to_recipient(
    s: Registry,
    from: Principal,
    to: Principal,
    id: int,
)
    ensures
        s.after_transfer(from, to, id).owner_of(id) == Ok::<Principal, Error>(to),
{
}

/// A batch mint for an event that is closed for minting is refused with
/// `MintingDisabled`, however many participants it names and whoever
/// asks, and it leaves the registry, its counter included, as it was.
pub proof fn law_closed_event_mints_nothing(
    s: Registry,
    auth: Set<Principal>,
    id: int,
    participants: Seq<Principal>,
    organizer: Principal,
)
    requires
        s.events.contains_key(id),
        !s.events[id].minting_enabled,
    ensures
        s.can_batch_mint(auth, id, participants, organizer) == Err::<Seq<u32>, Error>(
            Error::MintingDisabled,
        ),
        s.batch_mint(auth, id, participants, organizer) == s,
        s.batch_mint(auth, id, participants, organizer).supply == s.supply,
{
}

/// An event starts closed and no call closes an open event.
pub proof fn law_step_keeps_minting_enabled(s: Registry, op: Op, id: int)
    requires
        s.wf(),
        s.minting_enabled(id),
    ensures
        step(s, op).minting_enabled(id),
{
}

/// Over any history, an open event stays open.
pub proof fn law_run_keeps_minting_enabled(s: Registry, ops: Seq<Op>, id: int)
    requires
        s.wf(),
        s.minting_enabled(id),
    ensures
        run(s, ops).minting_enabled(id),
    decreases ops.len(),
{
    if ops.len() > 0 {
        law_run_keeps_minting_enabled(s, ops.drop_last(), id);
        law_run_keeps_wf(s, ops.drop_last());
        law_step_keeps_minting_enabled(run(s, ops.drop_last()), ops.last(), id);
    }
}

/// The supply never goes down, and it grows by exactly the number of
/// tokens the history mints.
pub proof fn law_supply_counts_mints(s: Registry, ops: Seq<Op>)
    requires
        s.wf(),
    ensures
        run(s, ops).supply == s.supply + mints(s, ops),
        run(s, ops).supply >= s.supply,
    decreases ops.len(),
{
    if ops.len() > 0 {
        law_supply_counts_mints(s, ops.drop_last());
        law_run_keeps_wf(s, ops.drop_last());
    }
}

/// Starting from the empty registry, the supply is the number of tokens
/// that accepted batch mints have created.
pub proof fn law_supply_is_mints_since_creation(ops: Seq<Op>)
    ensures
        run(Registry::empty(), ops).supply == mints(Registry::empty(), ops),
{
    law_supply_counts_mints(Registry::empty(), ops);
}

/// A call never touches a token it does not name: a mint leaves every
/// existing token with its owner.
pub proof fn law_batch_mint_keeps_existing_tokens(
    s: Registry,
    auth: Set<Principal>,
    id: int,
    participants: Seq<Principal>,
    organizer: Principal,
    token: int,
)
    requires
        s.wf(),
        s.tokens.contains_key(token),
    ensures
        s.batch_mint(auth, id, participants, organizer).get_nft(token) == s.get_nft(token),
{
}

/// 1 where `owner` holds token `id`, else 0.
pub open spec fn holds(s: Registry, owner: Principal, id: int) -> int {
    if s.owns(owner, id) {
        1
    } else {
        0
    }
}

/// How many of the first `n` participants are `owner`.
pub open spec fn named_among(participants: Seq<Principal>, owner: Principal, n: nat) -> nat
    decreases n,
{
    if n == 0 {
        0
    } else {
        named_among(participants, owner, (n - 1) as nat) + if participants[n - 1] == owner {
            1nat
        } else {
            0nat
        }
    }
}

/// Two registries that agree on what `owner` holds, except perhaps at
/// `id`, differ in `owner`'s count below `n` by what differs at `id`.
pub proof fn lemma_owned_below_differs_at(
    s: Registry,
    t: Registry,
    owner: Principal,
    n: nat,
    id: int,
)
    requires
        forall|k: int| 0 <= k < n && k != id ==> s.owns(owner, k) == t.owns(owner, k),
    ensures
        0 <= id < n ==> t.owned_below(owner, n) - s.owned_below(owner, n) == holds(t, owner, id)
            - holds(s, owner, id),
        !(0 <= id < n) ==> t.owned_below(owner, n) == s.owned_below(owner, n),
    decreases n,
{
    if n > 0 {
        lemma_owned_below_differs_at(s, t, owner, (n - 1) as nat, id);
    }
}

/// After a batch mint, `owner`'s count below `supply + n` is the old
/// balance plus the times `owner` is named among the first `n`
/// participants.
pub proof fn lemma_batch_mint_counts(
    s: Registry,
    id: int,
    participants: Seq<Principal>,
    owner: Principal,
    n: nat,
)
    requires
        s.wf(),
        n <= participants.len(),
    ensures
        s.after_batch_mint(id, participants).owned_below(owner, s.supply + n) == s.balance(owner)
            + named_among(participants, owner, n),
    decreases n,
{
    let t = s.after_batch_mint(id, participants);
    if n == 0 {
        lemma_owned_below_differs_at(s, t, owner, s.supply, -1);
    } else {
        lemma_batch_mint_counts(s, id, participants, owner, (n - 1) as nat);
        assert(t.owns(owner, s.supply + n - 1) == (participants[n - 1] == owner));
    }
}

/// A balance never exceeds the supply.
pub proof fn law_balance_fits_supply(s: Registry, owner: Principal)
    ensures
        s.balance(owner) <= s.supply,
{
    s.lemma_owned_below_bound(owner, s.supply);
}

/// An accepted transfer takes one token from the sender's balance, adds
/// one to the recipient's, and leaves every other balance alone. Sending a
/// token to oneself changes no balance.
pub proof fn law_transfer_moves_one_token(
    s: Registry,
    auth: Set<Principal>,
    from: Principal,
    to: Principal,
    id: int,
    third: Principal,
)
    requires
        s.wf(),
        s.can_transfer(auth, from, id) is Ok,
    ensures
        from != to ==> s.transfer(auth, from, to, id).balance(from) == s.balance(from) - 1,
        from != to ==> s.transfer(auth, from, to, id).balance(to) == s.balance(to) + 1,
        from == to ==> s.transfer(auth, from, to, id).balance(from) == s.balance(from),
        third != from && third != to ==> s.transfer(auth, from, to, id).balance(third) == s.balance(
            third,
        ),
{
    let t = s.transfer(auth, from, to, id);
    lemma_owned_below_differs_at(s, t, from, s.supply, id);
    lemma_owned_below_differs_at(s, t, to, s.supply, id);
    lemma_owned_below_differs_at(s, t, third, s.supply, id);
}

/// An accepted batch mint raises each balance by the number of times its
/// holder is named among the participants.
pub proof fn law_batch_mint_adds_one_token_each(
    s: Registry,
    auth: Set<Principal>,
    id: int,
    participants: Seq<Principal>,
    organizer: Principal,
    owner: Principal,
)
    requires
        s.wf(),
        s.can_batch_mint(auth, id, participants, organizer) is Ok,
    ensures
        s.batch_mint(auth, id, participants, organizer).balance(owner) == s.balance(owner)
            + named_among(participants, owner, participants.len()),
{
    lemma_batch_mint_counts(s, id, participants, owner, participants.len());
}

/// A stored layout that describes a registry describes a well-formed one.
pub proof fn law_stored_is_wf(
    admin: Option<Principal>,
    tokens: Seq<ArtisticNFT>,
    events: Seq<EventData>,
)
    requires
        Registry::storable(admin, tokens, events),
    ensures
        Registry::stored(admin, tokens, events).wf(),
{
}

} // verus!
