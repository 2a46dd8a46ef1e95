//! A registry of event tickets, numbered from 0. A ticket can be handed on
//! until it is used; a used ticket stays used. Burnt tickets leave holes in
//! the numbering, which is never reused.

use vstd::prelude::*;
use crate::auth::Auth;
use crate::error::Error;
use crate::event::Event;
use crate::principal::Principal;

verus! {

/// One ticket, as callers see it.
#[derive(Clone, Debug, PartialEq, Eq)]
pub struct Ticket {
    pub owner: Principal,
    pub event_metadata_url: String,
    pub is_used: bool,
}

/// One ticket as a mathematical value.
pub struct TicketData {
    pub owner: Principal,
    pub event_metadata_url: Seq<char>,
    pub is_used: bool,
}

impl View for Ticket {
    type V = TicketData;

    open spec fn view(&self) -> TicketData {
        TicketData {
            owner: self.owner,
            event_metadata_url: self.event_metadata_url@,
            is_used: self.is_used,
        }
    }
}

/// A grant that lets `approved` transfer one ticket while the ledger
/// sequence number is at most `expiration_ledger`.
#[derive(Clone, Copy, Debug, PartialEq, Eq, Structural)]
pub struct Approval {
    pub approved: Principal,
    pub expiration_ledger: u32,
}

/// A transfer of funds that the embedding code must carry out before a
/// priced ticket is minted.
#[derive(Clone, Copy, Debug, PartialEq, Eq, Structural)]
pub struct Payment {
    pub from: Principal,
    pub to: Principal,
    pub amount: i128,
}

/// The registry as a mathematical value.
#[verifier::ext_equal]
pub struct Registry {
    /// The administrator, once the registry has been initialized.
    pub admin: Option<Principal>,
    /// How many tickets have ever been minted; the next identifier.
    pub supply: nat,
    /// The tickets that exist. A burnt ticket is absent.
    pub tickets: Map<int, TicketData>,
    /// The grant on a ticket, where there is one, expired or not.
    pub approvals: Map<int, Approval>,
    /// Everything emitted so far, oldest first.
    pub log: Seq<Event>,
}

impl Registry {
    /// The registry before initialization.
    pub open spec fn empty() -> Registry {
        Registry {
            admin: None,
            supply: 0,
            tickets: Map::empty(),
            approvals: Map::empty(),
            log: Seq::empty(),
        }
    }

    /// Identifiers fit the counter, nothing exists before initialization,
    /// every ticket's identifier is below the supply, and only existing
    /// tickets carry a grant.
    pub open spec fn wf(self) -> bool {
        &&& self.supply <= u32::MAX
        &&& self.admin is None ==> self.supply == 0
        &&& forall|id: int| #[trigger] self.tickets.contains_key(id) ==> 0 <= id < self.supply
        &&& forall|id: int| #[trigger]
            self.approvals.contains_key(id) ==> self.tickets.contains_key(id)
    }

    /// The same registry with another log.
    pub open spec fn with_log(self, log: Seq<Event>) -> Registry {
        Registry { log, ..self }
    }

    /// Whether ticket `id` exists and has been used.
    pub open spec fn used(self, id: int) -> bool {
        self.tickets.contains_key(id) && self.tickets[id].is_used
    }

    /// The ticket `id`, or `NotFound`.
    pub open spec fn get_ticket(self, id: int) -> Result<TicketData, Error> {
        if self.tickets.contains_key(id) {
            Ok(self.tickets[id])
        } else {
            Err(Error::NotFound)
        }
    }

    /// The owner of ticket `id`, or `NotFound`.
    pub open spec fn owner_of(self, id: int) -> Result<Principal, Error> {
        if self.tickets.contains_key(id) {
            Ok(self.tickets[id].owner)
        } else {
            Err(Error::NotFound)
        }
    }

    /// Whether ticket `id` has been used, or `NotFound`.
    pub open spec fn is_ticket_used(self, id: int) -> Result<bool, Error> {
        if self.tickets.contains_key(id) {
            Ok(self.tickets[id].is_used)
        } else {
            Err(Error::NotFound)
        }
    }

    /// The principal whose grant on ticket `id` is live at `ledger`.
    pub open spec fn get_approved(self, id: int, ledger: u32) -> Option<Principal> {
        if self.approvals.contains_key(id) && ledger <= self.approvals[id].expiration_ledger {
            Some(self.approvals[id].approved)
        } else {
            None
        }
    }

    /// The grant on ticket `id` as it was made, expired or not.
    pub open spec fn approval(self, id: int) -> Option<Approval> {
        if self.approvals.contains_key(id) {
            Some(self.approvals[id])
        } else {
            None
        }
    }

    /// The registry that a stored layout describes: position `k` holds
    /// ticket `k`, or nothing where the ticket was burnt, and the grant on
    /// it. Its log is empty.
    pub open spec fn stored(
        admin: Option<Principal>,
        tickets: Seq<Option<TicketData>>,
        approvals: Seq<Option<Approval>>,
    ) -> Registry {
        Registry {
            admin,
            supply: tickets.len(),
            tickets: Map::new(
                |id: int| 0 <= id < tickets.len() && tickets[id] is Some,
                |id: int| tickets[id]->Some_0,
            ),
            approvals: Map::new(
                |id: int| 0 <= id < tickets.len() && approvals[id] is Some,
                |id: int| approvals[id]->Some_0,
            ),
            log: Seq::empty(),
        }
    }

    /// Whether a stored layout describes a registry: one grant slot per
    /// position, a supply that fits the counter, nothing minted without an
    /// administrator, and no grant on a burnt ticket.
    pub open spec fn storable(
        admin: Option<Principal>,
        tickets: Seq<Option<TicketData>>,
        approvals: Seq<Option<Approval>>,
    ) -> bool {
        &&& tickets.len() == approvals.len()
        &&& tickets.len() <= u32::MAX
        &&& admin is None ==> tickets.len() == 0
        &&& forall|id: int|
            0 <= id < tickets.len() && (#[trigger] approvals[id]) is Some ==> tickets[id] is Some
    }

    /// Whether `operator` holds a live grant on ticket `id` at `ledger`.
    pub open spec fn is_approved(self, operator: Principal, id: int, ledger: u32) -> bool {
        self.get_approved(id, ledger) == Some(operator)
    }

    /// Whether ticket `id` exists and belongs to `owner`.
    pub open spec fn owns(self, owner: Principal, id: int) -> bool {
        self.tickets.contains_key(id) && self.tickets[id].owner == owner
    }

    /// How many of the identifiers below `n` name a ticket of `owner`.
    pub open spec fn owned_below(self, owner: Principal, n: nat) -> nat
        decreases n,
    {
        if n == 0 {
            0
        } else {
            self.owned_below(owner, (n - 1) as nat) + if self.owns(owner, n - 1) {
                1nat
            } else {
                0nat
            }
        }
    }

    /// How many tickets `owner` holds.
    pub open spec fn balance(self, owner: Principal) -> nat {
        self.owned_below(owner, self.supply)
    }

    /// The identifier at position `index` of the enumeration, which is
    /// `index` itself, or `IndexOutOfRange`.
    pub open spec fn token_by_index(self, index: u32) -> Result<u32, Error> {
        if index >= self.supply {
            Err(Error::IndexOutOfRange)
        } else {
            Ok(index)
        }
    }

    /// Whether `admin` may take charge: the registry must have no
    /// administrator yet, and the host must have confirmed `admin`'s consent.
    pub open spec fn can_initialize(self, auth: Set<Principal>, admin: Principal) -> Result<
        (),
        Error,
    > {
        if self.admin is Some {
            Err(Error::AlreadyInitialized)
        } else if !auth.contains(admin) {
            Err(Error::NotAuthorized)
        } else {
            Ok(())
        }
    }

    /// The registry once `admin` has taken charge, with its counter at zero.
    pub open spec fn after_initialize(self, admin: Principal) -> Registry {
        Registry { admin: Some(admin), supply: 0, ..self }
    }

    /// The identifier a mint by the administrator hands out. Refused with
    /// `NotFound` before initialization, `SupplyExceeded` when the counter
    /// cannot grow, `NotAuthorized` without the administrator's consent.
    pub open spec fn can_mint(self, auth: Set<Principal>) -> Result<u32, Error> {
        if self.admin is None {
            Err(Error::NotFound)
        } else if self.supply >= u32::MAX {
            Err(Error::SupplyExceeded)
        } else if !auth.contains(self.admin->Some_0) {
            Err(Error::NotAuthorized)
        } else {
            Ok(self.supply as u32)
        }
    }

    /// The registry after a fresh, unused ticket has been created for `to`.
    pub open spec fn after_mint(self, to: Principal, url: Seq<char>) -> Registry {
        let id: int = self.supply as int;
        Registry {
            supply: (id + 1) as nat,
            tickets: self.tickets.insert(
                id,
                TicketData { owner: to, event_metadata_url: url, is_used: false },
            ),
            log: self.log.push(Event::Mint { to, id: id as i128 }),
            ..self
        }
    }

    /// What `buyer` owes for a ticket priced at `price`: nothing where the
    /// price is zero, else a payment of the price to the administrator.
    pub open spec fn payment_due(self, buyer: Principal, price: i128) -> Result<
        Option<Payment>,
        Error,
    > {
        if self.admin is None {
            Err(Error::NotFound)
        } else if price == 0 {
            Ok(None)
        } else {
            Ok(Some(Payment { from: buyer, to: self.admin->Some_0, amount: price }))
        }
    }

    /// The identifier a purchase by `buyer` hands out. Refused with
    /// `NotFound` before initialization, `SupplyExceeded` when the counter
    /// cannot grow, `NotAuthorized` without the buyer's consent, and
    /// `PaymentFailed` where a price was due and `paid` is false.
    pub open spec fn can_purchase(
        self,
        auth: Set<Principal>,
        buyer: Principal,
        price: i128,
        paid: bool,
    ) -> Result<u32, Error> {
        if self.admin is None {
            Err(Error::NotFound)
        } else if self.supply >= u32::MAX {
            Err(Error::SupplyExceeded)
        } else if !auth.contains(buyer) {
            Err(Error::NotAuthorized)
        } else if price != 0 && !paid {
            Err(Error::PaymentFailed)
        } else {
            Ok(self.supply as u32)
        }
    }

    /// Whether `holder` may dispose of ticket `id` while it is unused: the
    /// ticket must exist and be unused, the host must have confirmed
    /// `holder`'s consent, and `holder` must own the ticket.
    pub open spec fn can_spend(self, auth: Set<Principal>, holder: Principal, id: int) -> Result<
        (),
        Error,
    > {
        if !self.tickets.contains_key(id) {
            Err(Error::NotFound)
        } else if self.tickets[id].is_used {
            Err(Error::AlreadyUsed)
        } else if !auth.contains(holder) {
            Err(Error::NotAuthorized)
        } else if self.tickets[id].owner != holder {
            Err(Error::NotOwner)
        } else {
            Ok(())
        }
    }

    /// The registry after ticket `id` has been used by its owner.
    pub open spec fn after_use(self, id: int) -> Registry {
        let t = self.tickets[id];
        Registry {
            tickets: self.tickets.insert(id, TicketData { is_used: true, ..t }),
            log: self.log.push(Event::Used { owner: t.owner, id: id as i128 }),
            ..self
        }
    }

    /// The registry after ticket `id` has passed from `from` to `to`: the
    /// owner is replaced, the grant is dropped, the transfer is logged.
    pub open spec fn after_transfer(self, from: Principal, to: Principal, id: int) -> Registry {
        let t = self.tickets[id];
        Registry {
            tickets: self.tickets.insert(id, TicketData { owner: to, ..t }),
            approvals: self.approvals.remove(id),
            log: self.log.push(Event::Transfer { from, to, id: id as i128 }),
            ..self
        }
    }

    /// Whether `owner` may manage ticket `id`, used or not: the ticket must
    /// exist, the host must have confirmed `owner`'s consent, and `owner`
    /// must own the ticket.
    pub open spec fn can_manage(self, auth: Set<Principal>, owner: Principal, id: int) -> Result<
        (),
        Error,
    > {
        if !self.tickets.contains_key(id) {
            Err(Error::NotFound)
        } else if !auth.contains(owner) {
            Err(Error::NotAuthorized)
        } else if self.tickets[id].owner != owner {
            Err(Error::NotOwner)
        } else {
            Ok(())
        }
    }

    /// The registry after `owner` has granted `approved` the right to
    /// transfer ticket `id` until `expiration_ledger`.
    pub open spec fn after_approve(
        self,
        owner: Principal,
        approved: Principal,
        id: int,
        expiration_ledger: u32,
    ) -> Registry {
        Registry {
            approvals: self.approvals.insert(id, Approval { approved, expiration_ledger }),
            log: self.log.push(Event::Approval { owner, approved, id: id as i128 }),
            ..self
        }
    }

    /// Whether `spender` may move ticket `id` out of `from`'s hands at
    /// `ledger`: the ticket must exist and be unused, the host must have
    /// confirmed `spender`'s consent, `from` must own the ticket, and
    /// `spender` must hold a live grant on it.
    pub open spec fn can_transfer_from(
        self,
        auth: Set<Principal>,
        spender: Principal,
        from: Principal,
        id: int,
        ledger: u32,
    ) -> Result<(), Error> {
        if !self.tickets.contains_key(id) {
            Err(Error::NotFound)
        } else if self.tickets[id].is_used {
            Err(Error::AlreadyUsed)
        } else if !auth.contains(spender) {
            Err(Error::NotAuthorized)
        } else if self.tickets[id].owner != from {
            Err(Error::NotOwner)
        } else if !self.is_approved(spender, id, ledger) {
            Err(Error::NotApproved)
        } else {
            Ok(())
        }
    }

    /// The registry after ticket `id` has been burnt. The supply stays.
    pub open spec fn after_burn(self, id: int) -> Registry {
        Registry {
            tickets: self.tickets.remove(id),
            approvals: self.approvals.remove(id),
            ..self
        }
    }

    /// The registry after a call of `initialize`, accepted or refused.
    pub open spec fn initialize(self, auth: Set<Principal>, admin: Principal) -> Registry {
        if self.can_initialize(auth, admin) is Ok {
            self.after_initialize(admin)
        } else {
            self
        }
    }

    /// The registry after a call of `mint_ticket`, accepted or refused.
    pub open spec fn mint_ticket(self, auth: Set<Principal>, to: Principal, url: Seq<char>)
        -> Registry {
        if self.can_mint(auth) is Ok {
            self.after_mint(to, url)
        } else {
            self
        }
    }

    /// The registry after a call of `purchase_ticket`, accepted or refused.
    pub open spec fn purchase_ticket(
        self,
        auth: Set<Principal>,
        buyer: Principal,
        url: Seq<char>,
        price: i128,
        paid: bool,
    ) -> Registry {
        if self.can_purchase(auth, buyer, price, paid) is Ok {
            self.after_mint(buyer, url)
        } else {
            self
        }
    }

    /// The registry after a call of `use_ticket`, accepted or refused.
    pub open spec fn use_ticket(self, auth: Set<Principal>, id: int, user: Principal) -> Registry {
        if self.can_spend(auth, user, id) is Ok {
            self.after_use(id)
        } else {
            self
        }
    }

    /// The registry after a call of `transfer`, accepted or refused.
    pub open spec fn transfer(self, auth: Set<Principal>, from: Principal, to: Principal, id: int)
        -> Registry {
        if self.can_spend(auth, from, id) is Ok {
            self.after_transfer(from, to, id)
        } else {
            self
        }
    }

    /// The registry after a call of `approve`, accepted or refused.
    pub open spec fn approve(
        self,
        auth: Set<Principal>,
        owner: Principal,
        approved: Principal,
        id: int,
        expiration_ledger: u32,
    ) -> Registry {
        if self.can_manage(auth, owner, id) is Ok {
            self.after_approve(owner, approved, id, expiration_ledger)
        } else {
            self
        }
    }

    /// The registry after a call of `transfer_from`, accepted or refused.
    pub open spec fn transfer_from(
        self,
        auth: Set<Principal>,
        spender: Principal,
        from: Principal,
        to: Principal,
        id: int,
        ledger: u32,
    ) -> Registry {
        if self.can_transfer_from(auth, spender, from, id, ledger) is Ok {
            self.after_transfer(from, to, id)
        } else {
            self
        }
    }

    /// The registry after a call of `burn`, accepted or refused.
    pub open spec fn burn(self, auth: Set<Principal>, from: Principal, id: int) -> Registry {
        if self.can_manage(auth, from, id) is Ok {
            self.after_burn(id)
        } else {
            self
        }
    }

    /// No more identifiers below `n` name a ticket of `owner` than there
    /// are identifiers below `n`.
    pub proof fn lemma_owned_below_bound(self, owner: Principal, n: nat)
        ensures
            self.owned_below(owner, n) <= n,
        decreases n,
    {
        if n > 0 {
            self.lemma_owned_below_bound(owner, (n - 1) as nat);
        }
    }
}

/// What the registry keeps for one live ticket.
struct Entry {
    ticket: Ticket,
    approval: Option<Approval>,
}

/// The registry itself. Ticket `k` is kept at position `k`; a burnt ticket
/// leaves an empty position behind.
pub struct TicketNFT {
    admin: Option<Principal>,
    entries: Vec<Option<Entry>>,
    log: Vec<Event>,
}

impl View for TicketNFT {
    type V = Registry;

    closed spec fn view(&self) -> Registry {
        Registry {
            admin: self.admin,
            supply: self.entries@.len(),
            tickets: Map::new(
                |id: int| 0 <= id < self.entries@.len() && self.entries@[id] is Some,
                |id: int| self.entries@[id]->Some_0.ticket@,
            ),
            approvals: Map::new(
                |id: int|
                    0 <= id < self.entries@.len() && self.entries@[id] is Some
                        && self.entries@[id]->Some_0.approval is Some,
                |id: int| self.entries@[id]->Some_0.approval->Some_0,
            ),
            log: self.log@,
        }
    }
}

/// Stored tickets as mathematical values.
pub open spec fn ticket_views(tickets: Seq<Option<Ticket>>) -> Seq<Option<TicketData>> {
    Seq::new(
        tickets.len(),
        |k: int|
            match tickets[k] {
                Some(t) => Some(t@),
                None => None,
            },
    )
}

/// A ticket result as a mathematical value.
pub open spec fn ticket_data(r: Result<Ticket, Error>) -> Result<TicketData, Error> {
    match r {
        Ok(t) => Ok(t@),
        Err(e) => Err(e),
    }
}

impl TicketNFT {
    /// What every registry handed out by this module satisfies.
    pub closed spec fn wf(&self) -> bool {
        &&& self.entries@.len() <= u32::MAX
        &&& self.admin is None ==> self.entries@.len() == 0
    }

    /// A well-formed registry is a well-formed mathematical value.
    pub proof fn lemma_wf(&self)
        requires
            self.wf(),
        ensures
            self@.wf(),
    {
    }

    /// A registry without administrator, tickets or log entries.
    pub fn new() -> (nft: TicketNFT)
        ensures
            nft.wf(),
            nft@ == Registry::empty(),
    {
        TicketNFT { admin: None, entries: Vec::new(), log: Vec::new() }
    }

    /// Rebuilds a registry from its stored layout, with an empty log.
    /// Returns `None` where the layout describes no registry.
    pub fn restore(
        admin: Option<Principal>,
        tickets: Vec<Option<Ticket>>,
        approvals: Vec<Option<Approval>>,
    ) -> (r: Option<TicketNFT>)
        ensures
            r is Some <==> Registry::storable(admin, ticket_views(tickets@), approvals@),
            r matches Some(nft) ==> nft.wf() && nft@ == Registry::stored(
                admin,
                ticket_views(tickets@),
                approvals@,
            ),
    {
        let n = tickets.len();
        if approvals.len() != n || n > u32::MAX as usize || (admin.is_none() && n != 0) {
            return None;
        }
        let mut entries: Vec<Option<Entry>> = Vec::new();
        let mut i: usize = 0;
        while i < n
            invariant
                i <= n,
                n == tickets@.len(),
                n == approvals@.len(),
                entries@.len() == i,
                forall|j: int|
                    0 <= j < i && (#[trigger] approvals@[j]) is Some ==> tickets@[j] is Some,
                forall|j: int|
                    0 <= j < i ==> ((#[trigger] entries@[j]) is Some <==> tickets@[j] is Some),
                forall|j: int|
                    0 <= j < i && (#[trigger] entries@[j]) is Some ==> entries@[j]->Some_0.ticket@
                        == tickets@[j]->Some_0@ && entries@[j]->Some_0.approval == approvals@[j],
            decreases n - i,
        {
            match &tickets[i] {
                None => {
                    if approvals[i].is_some() {
                        return None;
                    }
                    entries.push(None);
                },
                Some(t) => {
                    let ticket = Ticket {
                        owner: t.owner,
                        event_metadata_url: t.event_metadata_url.clone(),
                        is_used: t.is_used,
                    };
                    entries.push(Some(Entry { ticket, approval: approvals[i] }));
                },
            }
            i += 1;
        }
        let nft = TicketNFT { admin, entries, log: Vec::new() };
        proof {
            let want = Registry::stored(admin, ticket_views(tickets@), approvals@);
            assert(nft@.tickets == want.tickets);
            assert(nft@.approvals == want.approvals);
        }
        Some(nft)
    }

    /// Marks ticket `ticket_id` as used at the request of its owner `user`.
    pub fn use_ticket(&mut self, auth: &Auth, ticket_id: u32, user: Principal) -> (r: Result<
        (),
        Error,
    >)
        requires
            old(self).wf(),
        ensures
            final(self).wf(),
            r == old(self)@.can_spend(auth@, user, ticket_id as int),
            final(self)@ == old(self)@.use_ticket(auth@, ticket_id as int, user),
            r is Ok ==> final(self)@.used(ticket_id as int),
            r is Err ==> final(self)@ == old(self)@,
    {
        let i = ticket_id as usize;
        if i >= self.entries.len() {
            return Err(Error::NotFound);
        }
        let updated = match &self.entries[i] {
            None => {
                return Err(Error::NotFound);
            },
            Some(e) => {
                if e.ticket.is_used {
                    return Err(Error::AlreadyUsed);
                }
                if !auth.has(user) {
                    return Err(Error::NotAuthorized);
                }
                if e.ticket.owner != user {
                    return Err(Error::NotOwner);
                }
                Entry {
                    ticket: Ticket {
                        owner: e.ticket.owner,
                        event_metadata_url: e.ticket.event_metadata_url.clone(),
                        is_used: true,
                    },
                    approval: e.approval,
                }
            },
        };
        self.entries.set(i, Some(updated));
        self.log.push(Event::Used { owner: user, id: ticket_id as i128 });
        Ok(())
    }

    /// How many tickets `owner` holds, found by walking every identifier
    /// below the supply and skipping the burnt ones.
    pub fn balance(&self, owner: Principal) -> (r: u32)
        requires
            self.wf(),
        ensures
            r == self@.balance(owner),
    {
        let mut count: u32 = 0;
        let mut i: usize = 0;
        while i < self.entries.len()
            invariant
                self.wf(),
                i <= self.entries.len(),
                count == self@.owned_below(owner, i as nat),
                count <= i,
            decreases self.entries.len() - i,
        {
            proof {
                self@.lemma_owned_below_bound(owner, i as nat);
            }
            let mine = match &self.entries[i] {
                Some(e) => e.ticket.owner == owner,
                None => false,
            };
            assert(mine == self@.owns(owner, i as int));
            if mine {
                count += 1;
            }
            i += 1;
        }
        count
    }

    /// Gives ticket `token_id` to `to` at the request of its owner `from`.
    /// A used ticket cannot be handed on.
    pub fn transfer(&mut self, auth: &Auth, from: Principal, to: Principal, token_id: u32) -> (r:
        Result<(), Error>)
        requires
            old(self).wf(),
        ensures
            final(self).wf(),
            r == old(self)@.can_spend(auth@, from, token_id as int),
            final(self)@ == old(self)@.transfer(auth@, from, to, token_id as int),
            r is Ok ==> final(self)@.owner_of(token_id as int) == Ok::<Principal, Error>(to),
            r is Err ==> final(self)@ == old(self)@,
    {
        let i = token_id as usize;
        if i >= self.entries.len() {
            return Err(Error::NotFound);
        }
        let updated = match &self.entries[i] {
            None => {
                return Err(Error::NotFound);
            },
            Some(e) => {
                if e.ticket.is_used {
                    return Err(Error::AlreadyUsed);
                }
                if !auth.has(from) {
                    return Err(Error::NotAuthorized);
                }
                if e.ticket.owner != from {
                    return Err(Error::NotOwner);
                }
                Entry {
                    ticket: Ticket {
                        owner: to,
                        event_metadata_url: e.ticket.event_metadata_url.clone(),
                        is_used: false,
                    },
                    approval: None,
                }
            },
        };
        self.entries.set(i, Some(updated));
        self.log.push(Event::Transfer { from, to, id: token_id as i128 });
        Ok(())
    }

    /// Moves ticket `token_id` from `from` to `to` at the request of
    /// `spender`, who must hold a grant that is live at `ledger`.
    pub fn transfer_from(
        &mut self,
        auth: &Auth,
        spender: Principal,
        from: Principal,
        to: Principal,
        token_id: u32,
        ledger: u32,
    ) -> (r: Result<(), Error>)
        requires
            old(self).wf(),
        ensures
            final(self).wf(),
            r == old(self)@.can_transfer_from(auth@, spender, from, token_id as int, ledger),
            final(self)@ == old(self)@.transfer_from(
                auth@,
                spender,
                from,
                to,
                token_id as int,
                ledger,
            ),
            r is Ok ==> final(self)@.owner_of(token_id as int) == Ok::<Principal, Error>(to),
            r is Err ==> final(self)@ == old(self)@,
    {
        let i = token_id as usize;
        if i >= self.entries.len() {
            return Err(Error::NotFound);
        }
        let updated = match &self.entries[i] {
            None => {
                return Err(Error::NotFound);
            },
            Some(e) => {
                if e.ticket.is_used {
                    return Err(Error::AlreadyUsed);
                }
                if !auth.has(spender) {
                    return Err(Error::NotAuthorized);
                }
                if e.ticket.owner != from {
                    return Err(Error::NotOwner);
                }
                let live = match e.approval {
                    Some(a) => a.approved == spender && ledger <= a.expiration_ledger,
                    None => false,
                };
                if !live {
                    return Err(Error::NotApproved);
                }
                Entry {
                    ticket: Ticket {
                        owner: to,
                        event_metadata_url: e.ticket.event_metadata_url.clone(),
                        is_used: false,
                    },
                    approval: None,
                }
            },
        };
        self.entries.set(i, Some(updated));
        self.log.push(Event::Transfer { from, to, id: token_id as i128 });
        Ok(())
    }

    /// Creates the next ticket for `to` at the request of the
    /// administrator. Returns the new ticket's identifier.
    pub fn mint_ticket(&mut self, auth: &Auth, to: Principal, event_metadata_url: String) -> (r:
        Result<u32, Error>)
        requires
            old(self).wf(),
        ensures
            final(self).wf(),
            r == old(self)@.can_mint(auth@),
            final(self)@ == old(self)@.mint_ticket(auth@, to, event_metadata_url@),
            r matches Ok(id) ==> final(self)@.owner_of(id as int) == Ok::<Principal, Error>(to),
            r is Err ==> final(self)@ == old(self)@,
    {
        let admin = match self.admin {
            Some(a) => a,
            None => {
                return Err(Error::NotFound);
            },
        };
        if self.entries.len() >= u32::MAX as usize {
            return Err(Error::SupplyExceeded);
        }
        if !auth.has(admin) {
            return Err(Error::NotAuthorized);
        }
        Ok(self.mint_token(to, event_metadata_url))
    }

    /// What `buyer` must pay, and to whom, before a ticket priced at
    /// `price` is minted for them: nothing where the price is zero.
    pub fn payment_due(&self, buyer: Principal, price: i128) -> (r: Result<Option<Payment>, Error>)
        ensures
            r == self@.payment_due(buyer, price),
    {
        match self.admin {
            None => Err(Error::NotFound),
            Some(admin) => if price == 0 {
                Ok(None)
            } else {
                Ok(Some(Payment { from: buyer, to: admin, amount: price }))
            },
        }
    }

    /// Creates the next ticket for `buyer` at their own request. `paid`
    /// says whether the payment that `payment_due` asked for went through;
    /// it is not looked at where the price is zero.
    pub fn purchase_ticket(
        &mut self,
        auth: &Auth,
        buyer: Principal,
        event_metadata_url: String,
        price: i128,
        paid: bool,
    ) -> (r: Result<u32, Error>)
        requires
            old(self).wf(),
        ensures
            final(self).wf(),
            r == old(self)@.can_purchase(auth@, buyer, price, paid),
            final(self)@ == old(self)@.purchase_ticket(
                auth@,
                buyer,
                event_metadata_url@,
                price,
                paid,
            ),
            r matches Ok(id) ==> final(self)@.owner_of(id as int) == Ok::<Principal, Error>(buyer),
            r is Err ==> final(self)@ == old(self)@,
    {
        if self.admin.is_none() {
            return Err(Error::NotFound);
        }
        if self.entries.len() >= u32::MAX as usize {
            return Err(Error::SupplyExceeded);
        }
        if !auth.has(buyer) {
            return Err(Error::NotAuthorized);
        }
        if price != 0 && !paid {
            return Err(Error::PaymentFailed);
        }
        Ok(self.mint_token(buyer, event_metadata_url))
    }

    /// Allocates the next identifier and stores a fresh ticket under it.
    fn mint_token(&mut self, to: Principal, event_metadata_url: String) -> (id: u32)
        requires
            old(self).wf(),
            old(self).admin is Some,
            old(self).entries@.len() < u32::MAX,
        ensures
            final(self).wf(),
            id == old(self)@.supply,
            final(self)@ == old(self)@.after_mint(to, event_metadata_url@),
    {
        let id = self.entries.len() as u32;
        let ticket = Ticket { owner: to, event_metadata_url, is_used: false };
        self.entries.push(Some(Entry { ticket, approval: None }));
        self.log.push(Event::Mint { to, id: id as i128 });
        id
    }

    /// Removes ticket `token_id` at the request of its owner `from`. The
    /// identifier is not handed out again and the supply stays as it is.
    pub fn burn(&mut self, auth: &Auth, from: Principal, token_id: u32) -> (r: Result<(), Error>)
        requires
            old(self).wf(),
        ensures
            final(self).wf(),
            r == old(self)@.can_manage(auth@, from, token_id as int),
            final(self)@ == old(self)@.burn(auth@, from, token_id as int),
            r is Ok ==> final(self)@.owner_of(token_id as int) == Err::<Principal, Error>(
                Error::NotFound,
            ),
            r is Err ==> final(self)@ == old(self)@,
    {
        let i = token_id as usize;
        if i >= self.entries.len() {
            return Err(Error::NotFound);
        }
        match &self.entries[i] {
            None => {
                return Err(Error::NotFound);
            },
            Some(e) => {
                if !auth.has(from) {
                    return Err(Error::NotAuthorized);
                }
                if e.ticket.owner != from {
                    return Err(Error::NotOwner);
                }
            },
        }
        self.entries.set(i, None);
        Ok(())
    }

    /// The identifier at position `index` of the enumeration. Identifiers
    /// are never renumbered, so this is `index` itself; the ticket it names
    /// may have been burnt.
    pub fn token_by_index(&self, index: u32) -> (r: Result<u32, Error>)
        requires
            self.wf(),
        ensures
            r == self@.token_by_index(index),
    {
        if index as usize >= self.entries.len() {
            Err(Error::IndexOutOfRange)
        } else {
            Ok(index)
        }
    }

    /// Lets `approved` transfer ticket `token_id` on `owner`'s behalf while
    /// the ledger sequence number is at most `expiration_ledger`, replacing
    /// any earlier grant on the ticket. With `u32::MAX` the grant never
    /// lapses.
    pub fn approve(
        &mut self,
        auth: &Auth,
        owner: Principal,
        approved: Principal,
        token_id: u32,
        expiration_ledger: u32,
    ) -> (r: Result<(), Error>)
        requires
            old(self).wf(),
        ensures
            final(self).wf(),
            r == old(self)@.can_manage(auth@, owner, token_id as int),
            final(self)@ == old(self)@.approve(
                auth@,
                owner,
                approved,
                token_id as int,
                expiration_ledger,
            ),
            r is Err ==> final(self)@ == old(self)@,
    {
        let i = token_id as usize;
        if i >= self.entries.len() {
            return Err(Error::NotFound);
        }
        let updated = match &self.entries[i] {
            None => {
                return Err(Error::NotFound);
            },
            Some(e) => {
                if !auth.has(owner) {
                    return Err(Error::NotAuthorized);
                }
                if e.ticket.owner != owner {
                    return Err(Error::NotOwner);
                }
                Entry {
                    ticket: Ticket {
                        owner: e.ticket.owner,
                        event_metadata_url: e.ticket.event_metadata_url.clone(),
                        is_used: e.ticket.is_used,
                    },
                    approval: Some(Approval { approved, expiration_ledger }),
                }
            },
        };
        self.entries.set(i, Some(updated));
        self.log.push(Event::Approval { owner, approved, id: token_id as i128 });
        Ok(())
    }

    /// The principal whose grant on ticket `token_id` is live at `ledger`.
    pub fn get_approved(&self, token_id: u32, ledger: u32) -> (r: Option<Principal>)
        requires
            self.wf(),
        ensures
            r == self@.get_approved(token_id as int, ledger),
    {
        let i = token_id as usize;
        if i >= self.entries.len() {
            return None;
        }
        match &self.entries[i] {
            Some(e) => match e.approval {
                Some(a) => if ledger <= a.expiration_ledger {
                    Some(a.approved)
                } else {
                    None
                },
                None => None,
            },
            None => None,
        }
    }

    /// The grant on ticket `token_id` as it was made, expired or not.
    pub fn approval(&self, token_id: u32) -> (r: Option<Approval>)
        requires
            self.wf(),
        ensures
            r == self@.approval(token_id as int),
    {
        let i = token_id as usize;
        if i >= self.entries.len() {
            return None;
        }
        match &self.entries[i] {
            Some(e) => e.approval,
            None => None,
        }
    }

    /// Whether `operator` holds a grant on ticket `token_id` that is live
    /// at `ledger`.
    pub fn is_approved(&self, operator: Principal, token_id: u32, ledger: u32) -> (r: bool)
        requires
            self.wf(),
        ensures
            r == self@.is_approved(operator, token_id as int, ledger),
    {
        match self.get_approved(token_id, ledger) {
            Some(p) => p == operator,
            None => false,
        }
    }

    /// Puts `admin` in charge of a registry that has no administrator yet.
    pub fn initialize(&mut self, auth: &Auth, admin: Principal) -> (r: Result<(), Error>)
        requires
            old(self).wf(),
        ensures
            final(self).wf(),
            r == old(self)@.can_initialize(auth@, admin),
            final(self)@ == old(self)@.initialize(auth@, admin),
            r is Ok ==> final(self)@.supply == 0,
            r is Err ==> final(self)@ == old(self)@,
    {
        if self.admin.is_some() {
            return Err(Error::AlreadyInitialized);
        }
        if !auth.has(admin) {
            return Err(Error::NotAuthorized);
        }
        self.admin = Some(admin);
        Ok(())
    }

    /// Whether ticket `ticket_id` has been used.
    pub fn is_ticket_used(&self, ticket_id: u32) -> (r: Result<bool, Error>)
        requires
            self.wf(),
        ensures
            r == self@.is_ticket_used(ticket_id as int),
    {
        let i = ticket_id as usize;
        if i >= self.entries.len() {
            return Err(Error::NotFound);
        }
        match &self.entries[i] {
            Some(e) => Ok(e.ticket.is_used),
            None => Err(Error::NotFound),
        }
    }

    /// The owner of ticket `token_id`.
    pub fn owner_of(&self, token_id: u32) -> (r: Result<Principal, Error>)
        requires
            self.wf(),
        ensures
            r == self@.owner_of(token_id as int),
    {
        let i = token_id as usize;
        if i >= self.entries.len() {
            return Err(Error::NotFound);
        }
        match &self.entries[i] {
            Some(e) => Ok(e.ticket.owner),
            None => Err(Error::NotFound),
        }
    }

    /// A copy of ticket `ticket_id`.
    pub fn get_ticket(&self, ticket_id: u32) -> (r: Result<Ticket, Error>)
        requires
            self.wf(),
        ensures
            ticket_data(r) == self@.get_ticket(ticket_id as int),
    {
        let i = ticket_id as usize;
        if i >= self.entries.len() {
            return Err(Error::NotFound);
        }
        match &self.entries[i] {
            Some(e) => Ok(
                Ticket {
                    owner: e.ticket.owner,
                    event_metadata_url: e.ticket.event_metadata_url.clone(),
                    is_used: e.ticket.is_used,
                },
            ),
            None => Err(Error::NotFound),
        }
    }

    /// How many tickets have ever been minted. Burning does not lower it.
    pub fn total_supply(&self) -> (r: u32)
        requires
            self.wf(),
        ensures
            r == self@.supply,
    {
        self.entries.len() as u32
    }

    /// The administrator, once the registry has been initialized.
    pub fn admin(&self) -> (r: Option<Principal>)
        ensures
            r == self@.admin,
    {
        self.admin
    }

    /// Everything emitted since the log was last taken, oldest first.
    pub fn events(&self) -> (r: &Vec<Event>)
        ensures
            r@ == self@.log,
    {
        &self.log
    }

    /// Hands the log out and starts a fresh one. Nothing else changes.
    pub fn take_events(&mut self) -> (r: Vec<Event>)
        requires
            old(self).wf(),
        ensures
            final(self).wf(),
            r@ == old(self)@.log,
            final(self)@ == old(self)@.with_log(Seq::empty()),
    {
        let mut out: Vec<Event> = Vec::new();
        std::mem::swap(&mut self.log, &mut out);
        out
    }
}

} // verus!
