//! What holds of the ticket registry over whole histories of calls.

use vstd::prelude::*;
use crate::error::Error;
use crate::principal::Principal;
use crate::ticket_nft::{Approval, Registry, TicketData};

verus! {

/// One call that can change the registry, with its arguments.
pub enum Op {
    Initialize { auth: Set<Principal>, admin: Principal },
    MintTicket { auth: Set<Principal>, to: Principal, url: Seq<char> },
    PurchaseTicket {
        auth: Set<Principal>,
        buyer: Principal,
        url: Seq<char>,
        price: i128,
        paid: bool,
    },
    UseTicket { auth: Set<Principal>, id: int, user: Principal },
    Transfer { auth: Set<Principal>, from: Principal, to: Principal, id: int },
    Approve {
        auth: Set<Principal>,
        owner: Principal,
        approved: Principal,
        id: int,
        expiration_ledger: u32,
    },
    TransferFrom {
        auth: Set<Principal>,
        spender: Principal,
        from: Principal,
        to: Principal,
        id: int,
        ledger: u32,
    },
    Burn { auth: Set<Principal>, from: Principal, id: int },
    TakeEvents,
}

/// The registry after one call, accepted or refused.
pub open spec fn step(s: Registry, op: Op) -> Registry {
    match op {
        Op::Initialize { auth, admin } => s.initialize(auth, admin),
        Op::MintTicket { auth, to, url } => s.mint_ticket(auth, to, url),
        Op::PurchaseTicket { auth, buyer, url, price, paid } => s.purchase_ticket(
            auth,
            buyer,
            url,
            price,
            paid,
        ),
        Op::UseTicket { auth, id, user } => s.use_ticket(auth, id, user),
        Op::Transfer { auth, from, to, id } => s.transfer(auth, from, to, id),
        Op::Approve { auth, owner, approved, id, expiration_ledger } => s.approve(
            auth,
            owner,
            approved,
            id,
            expiration_ledger,
        ),
        Op::TransferFrom { auth, spender, from, to, id, ledger } => s.transfer_from(
            auth,
            spender,
            from,
            to,
            id,
            ledger,
        ),
        Op::Burn { auth, from, id } => s.burn(auth, from, id),
        Op::TakeEvents => s.with_log(Seq::empty()),
    }
}

/// How many tickets one call creates in `s`.
pub open spec fn minted(s: Registry, op: Op) -> nat {
    match op {
        Op::MintTicket { auth, to, url } => if s.can_mint(auth) is Ok {
            1
        } else {
            0
        },
        Op::PurchaseTicket { auth, buyer, url, price, paid } => if s.can_purchase(
            auth,
            buyer,
            price,
            paid,
        ) is Ok {
            1
        } else {
            0
        },
        _ => 0,
    }
}

/// The registry after a history of calls, oldest first.
pub open spec fn run(s: Registry, ops: Seq<Op>) -> Registry
    decreases ops.len(),
{
    if ops.len() == 0 {
        s
    } else {
        step(run(s, ops.drop_last()), ops.last())
    }
}

/// How many tickets a history of calls creates, starting from `s`.
pub open spec fn mints(s: Registry, ops: Seq<Op>) -> nat
    decreases ops.len(),
{
    if ops.len() == 0 {
        0
    } else {
        mints(s, ops.drop_last()) + minted(run(s, ops.drop_last()), ops.last())
    }
}

/// No call takes a well-formed registry to an ill-formed one.
pub proof fn law_step_keeps_wf(s: Registry, op: Op)
    requires
        s.wf(),
    ensures
        step(s, op).wf(),
{
}

/// No history of calls takes a well-formed registry to an ill-formed one.
pub proof fn law_run_keeps_wf(s: Registry, ops: Seq<Op>)
    requires
        s.wf(),
    ensures
        run(s, ops).wf(),
    decreases ops.len(),
{
    if ops.len() > 0 {
        law_run_keeps_wf(s, ops.drop_last());
        law_step_keeps_wf(run(s, ops.drop_last()), ops.last());
    }
}

/// Right after a mint or a purchase the new ticket belongs to the one it
/// was created for.
pub proof fn law_minted_ticket_belongs_to_target(s: Registry, to: Principal, url: Seq<char>)
    ensures
        s.after_mint(to, url).owner_of(s.supply as int) == Ok::<Principal, Error>(to),
{
}

/// Right after a transfer, direct or delegated, the ticket belongs to the
/// recipient.
pub proof fn law_transferred_ticket_belongs_to_recipient(
    s: Registry,
    from: Principal,
    to: Principal,
    id: int,
)
    ensures
        s.after_transfer(from, to, id).owner_of(id) == Ok::<Principal, Error>(to),
{
}

/// A used ticket refuses every further use and every transfer, whoever
/// asks and whatever the host has confirmed.
pub proof fn law_used_ticket_is_spent(
    s: Registry,
    id: int,
    auth: Set<Principal>,
    who: Principal,
    from: Principal,
    ledger: u32,
)
    requires
        s.used(id),
    ensures
        s.can_spend(auth, who, id) == Err::<(), Error>(Error::AlreadyUsed),
        s.can_transfer_from(auth, who, from, id, ledger) == Err::<(), Error>(Error::AlreadyUsed),
        s.use_ticket(auth, id, who) == s,
        s.transfer(auth, who, from, id) == s,
{
}

/// No call resets the used flag: a used ticket that still exists after
/// the call is still used.
pub proof fn law_step_keeps_used(s: Registry, op: Op, id: int)
    requires
        s.wf(),
        s.used(id),
        step(s, op).tickets.contains_key(id),
    ensures
        step(s, op).used(id),
{
}

/// A call cannot bring a ticket back: what is absent below the supply
/// stays absent.
pub proof fn law_step_keeps_burnt(s: Registry, op: Op, id: int)
    requires
        s.wf(),
        0 <= id < s.supply,
        !s.tickets.contains_key(id),
    ensures
        !step(s, op).tickets.contains_key(id),
        id < step(s, op).supply,
{
}

/// Over any history, a used ticket is either still there and used, or
/// gone for good.
pub proof fn law_run_keeps_used(s: Registry, ops: Seq<Op>, id: int)
    requires
        s.wf(),
        s.used(id),
    ensures
        run(s, ops).tickets.contains_key(id) ==> run(s, ops).used(id),
        0 <= id < run(s, ops).supply,
    decreases ops.len(),
{
    if ops.len() > 0 {
        let before = run(s, ops.drop_last());
        law_run_keeps_used(s, ops.drop_last(), id);
        law_run_keeps_wf(s, ops.drop_last());
        if before.tickets.contains_key(id) {
            if step(before, ops.last()).tickets.contains_key(id) {
                law_step_keeps_used(before, ops.last(), id);
            }
        } else {
            law_step_keeps_burnt(before, ops.last(), id);
        }
    }
}

/// Once `use_ticket` has been accepted, every later use and every later
/// transfer of that ticket is refused with `AlreadyUsed`, for as long as
/// the ticket exists; once it has been burnt they are refused with
/// `NotFound`.
pub proof fn law_use_is_final(
    s: Registry,
    use_auth: Set<Principal>,
    user: Principal,
    id: int,
    ops: Seq<Op>,
    auth: Set<Principal>,
    who: Principal,
    from: Principal,
    ledger: u32,
)
    requires
        s.wf(),
        s.can_spend(use_auth, user, id) is Ok,
    ensures
        run(s.use_ticket(use_auth, id, user), ops).tickets.contains_key(id) ==> run(
            s.use_ticket(use_auth, id, user),
            ops,
        ).can_spend(auth, who, id) == Err::<(), Error>(Error::AlreadyUsed),
        run(s.use_ticket(use_auth, id, user), ops).tickets.contains_key(id) ==> run(
            s.use_ticket(use_auth, id, user),
            ops,
        ).can_transfer_from(auth, who, from, id, ledger) == Err::<(), Error>(Error::AlreadyUsed),
        !run(s.use_ticket(use_auth, id, user), ops).tickets.contains_key(id) ==> run(
            s.use_ticket(use_auth, id, user),
            ops,
        ).can_spend(auth, who, id) == Err::<(), Error>(Error::NotFound),
        !run(s.use_ticket(use_auth, id, user), ops).tickets.contains_key(id) ==> run(
            s.use_ticket(use_auth, id, user),
            ops,
        ).can_transfer_from(auth, who, from, id, ledger) == Err::<(), Error>(Error::NotFound),
{
    let used = s.use_ticket(use_auth, id, user);
    law_step_keeps_wf(s, Op::UseTicket { auth: use_auth, id, user });
    assert(used == step(s, Op::UseTicket { auth: use_auth, id, user }));
    law_run_keeps_used(used, ops, id);
}

/// The supply never goes down, burns included, and it grows by exactly
/// the number of tickets the history mints.
pub proof fn law_supply_counts_mints(s: Registry, ops: Seq<Op>)
    requires
        s.wf(),
    ensures
        run(s, ops).supply == s.supply + mints(s, ops),
        run(s, ops).supply >= s.supply,
    decreases ops.len(),
{
    if ops.len() > 0 {
        law_supply_counts_mints(s, ops.drop_last());
        law_run_keeps_wf(s, ops.drop_last());
    }
}

/// Starting from the empty registry, the supply is the number of mints
/// and purchases that have succeeded.
pub proof fn law_supply_is_mints_since_creation(ops: Seq<Op>)
    ensures
        run(Registry::empty(), ops).supply == mints(Registry::empty(), ops),
{
    law_supply_counts_mints(Registry::empty(), ops);
}

/// A grant does not survive a transfer: when `owner` approves `p` for
/// ticket `id` and the transfer that follows is accepted, nobody holds a
/// grant on the ticket at any ledger.
pub proof fn law_transfer_clears_approval(
    s: Registry,
    approve_auth: Set<Principal>,
    transfer_auth: Set<Principal>,
    owner: Principal,
    p: Principal,
    expiration_ledger: u32,
    other: Principal,
    id: int,
    ledger: u32,
)
    requires
        s.approve(approve_auth, owner, p, id, expiration_ledger).can_spend(
            transfer_auth,
            owner,
            id,
        ) is Ok,
    ensures
        !s.approve(approve_auth, owner, p, id, expiration_ledger).transfer(
            transfer_auth,
            owner,
            other,
            id,
        ).is_approved(p, id, ledger),
        s.approve(approve_auth, owner, p, id, expiration_ledger).transfer(
            transfer_auth,
            owner,
            other,
            id,
        ).get_approved(id, ledger) is None,
{
}

/// A grant is live up to and including its expiration ledger and void
/// after it.
pub proof fn law_grant_expires(
    s: Registry,
    auth: Set<Principal>,
    owner: Principal,
    p: Principal,
    id: int,
    expiration_ledger: u32,
    ledger: u32,
)
    requires
        s.can_manage(auth, owner, id) is Ok,
    ensures
        s.approve(auth, owner, p, id, expiration_ledger).is_approved(p, id, ledger) <==> ledger
            <= expiration_ledger,
{
}

/// Burning removes the ticket and leaves the supply and every other
/// ticket as they were.
pub proof fn law_burn_leaves_holes(s: Registry, auth: Set<Principal>, from: Principal, id: int)
    requires
        s.can_manage(auth, from, id) is Ok,
    ensures
        s.burn(auth, from, id).supply == s.supply,
        !s.burn(auth, from, id).tickets.contains_key(id),
        forall|other: int|
            other != id ==> #[trigger] s.burn(auth, from, id).get_ticket(other) == s.get_ticket(
                other,
            ),
{
}

/// 1 where `owner` holds ticket `id`, else 0.
pub open spec fn holds(s: Registry, owner: Principal, id: int) -> int {
    if s.owns(owner, id) {
        1
    } else {
        0
    }
}

/// Two registries that agree on what `owner` holds, except perhaps at
/// `id`, differ in `owner`'s count below `n` by what differs at `id`.
pub proof fn lemma_owned_below_differs_at(
    s: Registry,
    t: Registry,
    owner: Principal,
    n: nat,
    id: int,
)
    requires
        forall|k: int| 0 <= k < n && k != id ==> s.owns(owner, k) == t.owns(owner, k),
    ensures
        0 <= id < n ==> t.owned_below(owner, n) - s.owned_below(owner, n) == holds(t, owner, id)
            - holds(s, owner, id),
        !(0 <= id < n) ==> t.owned_below(owner, n) == s.owned_below(owner, n),
    decreases n,
{
    if n > 0 {
        lemma_owned_below_differs_at(s, t, owner, (n - 1) as nat, id);
    }
}

/// A balance never exceeds the supply.
pub proof fn law_balance_fits_supply(s: Registry, owner: Principal)
    ensures
        s.balance(owner) <= s.supply,
{
    s.lemma_owned_below_bound(owner, s.supply);
}

/// An accepted transfer takes one ticket from the sender's balance, adds
/// one to the recipient's, and leaves every other balance alone. Sending a
/// ticket to oneself changes no balance.
pub proof fn law_transfer_moves_one_ticket(
    s: Registry,
    auth: Set<Principal>,
    from: Principal,
    to: Principal,
    id: int,
    third: Principal,
)
    requires
        s.wf(),
        s.can_spend(auth, from, id) is Ok,
    ensures
        from != to ==> s.transfer(auth, from, to, id).balance(from) == s.balance(from) - 1,
        from != to ==> s.transfer(auth, from, to, id).balance(to) == s.balance(to) + 1,
        from == to ==> s.transfer(auth, from, to, id).balance(from) == s.balance(from),
        third != from && third != to ==> s.transfer(auth, from, to, id).balance(third) == s.balance(
            third,
        ),
{
    let t = s.transfer(auth, from, to, id);
    lemma_owned_below_differs_at(s, t, from, s.supply, id);
    lemma_owned_below_differs_at(s, t, to, s.supply, id);
    lemma_owned_below_differs_at(s, t, third, s.supply, id);
}

/// A mint adds one ticket to the balance of the one it is for and leaves
/// every other balance alone.
pub proof fn law_mint_adds_one_ticket(s: Registry, to: Principal, url: Seq<char>, third: Principal)
    requires
        s.wf(),
    ensures
        s.after_mint(to, url).balance(to) == s.balance(to) + 1,
        third != to ==> s.after_mint(to, url).balance(third) == s.balance(third),
{
    let t = s.after_mint(to, url);
    lemma_owned_below_differs_at(s, t, to, s.supply, s.supply as int);
    lemma_owned_below_differs_at(s, t, third, s.supply, s.supply as int);
}

/// An accepted burn takes one ticket from its owner's balance and leaves
/// every other balance alone.
pub proof fn law_burn_removes_one_ticket(
    s: Registry,
    auth: Set<Principal>,
    from: Principal,
    id: int,
    third: Principal,
)
    requires
        s.wf(),
        s.can_manage(auth, from, id) is Ok,
    ensures
        s.burn(auth, from, id).balance(from) == s.balance(from) - 1,
        third != from ==> s.burn(auth, from, id).balance(third) == s.balance(third),
{
    let t = s.burn(auth, from, id);
    lemma_owned_below_differs_at(s, t, from, s.supply, id);
    lemma_owned_below_differs_at(s, t, third, s.supply, id);
}

/// Using a ticket and granting an approval change no balance.
pub proof fn law_use_and_approve_keep_balances(
    s: Registry,
    auth: Set<Principal>,
    who: Principal,
    approved: Principal,
    id: int,
    expiration_ledger: u32,
    third: Principal,
)
    ensures
        s.use_ticket(auth, id, who).balance(third) == s.balance(third),
        s.approve(auth, who, approved, id, expiration_ledger).balance(third) == s.balance(third),
{
    lemma_owned_below_differs_at(s, s.use_ticket(auth, id, who), third, s.supply, id);
    lemma_owned_below_differs_at(
        s,
        s.approve(auth, who, approved, id, expiration_ledger),
        third,
        s.supply,
        id,
    );
}

/// A stored layout that describes a registry describes a well-formed one.
pub proof fn law_stored_is_wf(
    admin: Option<Principal>,
    tickets: Seq<Option<TicketData>>,
    approvals: Seq<Option<Approval>>,
)
    requires
        Registry::storable(admin, tickets, approvals),
    ensures
        Registry::stored(admin, tickets, approvals).wf(),
{
}

} // verus!
