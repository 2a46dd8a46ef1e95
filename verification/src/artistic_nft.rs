//! A capped collection of artwork tokens, numbered from 1, with one
//! collection-wide metadata slot and one image slot.

use vstd::prelude::*;
use crate::auth::Auth;
use crate::error::Error;
use crate::event::Event;
use crate::principal::Principal;

verus! {

/// The most tokens the collection will ever hold.
pub const SUPPLY: i128 = 1000;

/// The slots of the collection's persistent layout.
#[derive(Clone, Copy, Debug, PartialEq, Eq, Structural)]
pub enum DataKey {
    /// The owner of one token.
    Owner(i128),
    /// The number of tokens minted so far.
    TokenCount,
    /// The principal approved for one token.
    Approvals(i128),
    /// The collection-wide metadata address.
    Metadata,
    /// The collection-wide image address.
    Image,
}

/// The collection as a mathematical value.
#[verifier::ext_equal]
pub struct Registry {
    /// How many tokens have been minted; identifiers run from 1 to `count`.
    pub count: nat,
    /// The owner of each token.
    pub owners: Map<int, Principal>,
    /// The principal approved for a token, where there is one.
    pub approvals: Map<int, Principal>,
    /// The metadata address given at the latest mint.
    pub metadata: Option<Seq<char>>,
    /// The image address given at the latest mint.
    pub image: Option<Seq<char>>,
    /// Everything emitted so far, oldest first.
    pub log: Seq<Event>,
}

/// The collection's name.
pub open spec fn name_text() -> Seq<char> {
    "TicketNFT"@
}

/// The collection's symbol.
pub open spec fn symbol_text() -> Seq<char> {
    "SBN"@
}

/// The metadata address in effect until a mint supplies one.
pub open spec fn default_uri() -> Seq<char> {
    "https://ipfs.io/ipfs/QmegWR31kiQcD9S2katTXKxracbAgLs2QLBRGruFW3NhXC"@
}

/// The image address in effect until a mint supplies one.
pub open spec fn default_image() -> Seq<char> {
    "https://ipfs.io/ipfs/QmeRHSYkR4aGRLQXaLmZiccwHw7cvctrB211DzxzuRiqW6"@
}

impl Registry {
    /// The collection before any mint.
    pub open spec fn empty() -> Registry {
        Registry {
            count: 0,
            owners: Map::empty(),
            approvals: Map::empty(),
            metadata: None,
            image: None,
            log: Seq::empty(),
        }
    }

    /// Tokens are exactly `1..=count`, the cap is respected, and only
    /// existing tokens carry an approval.
    pub open spec fn wf(self) -> bool {
        &&& self.count <= SUPPLY
        &&& forall|id: int| #[trigger] self.owners.contains_key(id) <==> 1 <= id <= self.count
        &&& forall|id: int| #[trigger]
            self.approvals.contains_key(id) ==> self.owners.contains_key(id)
    }

    /// The owner of `id`, or `NotFound`.
    pub open spec fn owner_of(self, id: int) -> Result<Principal, Error> {
        if self.owners.contains_key(id) {
            Ok(self.owners[id])
        } else {
            Err(Error::NotFound)
        }
    }

    /// The same collection with another log.
    pub open spec fn with_log(self, log: Seq<Event>) -> Registry {
        Registry { log, ..self }
    }

    /// The principal approved for `id`, where there is one.
    pub open spec fn get_approved(self, id: int) -> Option<Principal> {
        if self.approvals.contains_key(id) {
            Some(self.approvals[id])
        } else {
            None
        }
    }

    /// The collection that a stored layout describes: token `k` belongs to
    /// `owners[k - 1]` and carries the approval `approvals[k - 1]`. Its log
    /// is empty.
    pub open spec fn stored(
        owners: Seq<Principal>,
        approvals: Seq<Option<Principal>>,
        metadata: Option<Seq<char>>,
        image: Option<Seq<char>>,
    ) -> Registry {
        Registry {
            count: owners.len(),
            owners: Map::new(|id: int| 1 <= id <= owners.len(), |id: int| owners[id - 1]),
            approvals: Map::new(
                |id: int| 1 <= id <= owners.len() && approvals[id - 1] is Some,
                |id: int| approvals[id - 1]->Some_0,
            ),
            metadata,
            image,
            log: Seq::empty(),
        }
    }

    /// Whether a stored layout describes a collection: one approval slot
    /// per token, and no more tokens than the cap allows.
    pub open spec fn storable(owners: Seq<Principal>, approvals: Seq<Option<Principal>>) -> bool {
        owners.len() == approvals.len() && owners.len() <= SUPPLY
    }

    /// Whether `operator` is the principal approved for `id`.
    pub open spec fn is_approved(self, operator: Principal, id: int) -> bool {
        self.approvals.contains_key(id) && self.approvals[id] == operator
    }

    /// The metadata address the collection reports.
    pub open spec fn token_uri(self) -> Seq<char> {
        match self.metadata {
            Some(s) => s,
            None => default_uri(),
        }
    }

    /// The image address the collection reports.
    pub open spec fn token_image(self) -> Seq<char> {
        match self.image {
            Some(s) => s,
            None => default_image(),
        }
    }

    /// Whether a slot of the persistent layout holds a value.
    pub open spec fn has(self, key: DataKey) -> bool {
        match key {
            DataKey::Owner(id) => self.owners.contains_key(id as int),
            DataKey::TokenCount => self.count > 0,
            DataKey::Approvals(id) => self.approvals.contains_key(id as int),
            DataKey::Metadata => self.metadata is Some,
            DataKey::Image => self.image is Some,
        }
    }

    /// The identifier the next mint hands out, or `SupplyExceeded` once the
    /// cap is reached.
    pub open spec fn can_mint(self) -> Result<i128, Error> {
        if self.count >= SUPPLY {
            Err(Error::SupplyExceeded)
        } else {
            Ok((self.count + 1) as i128)
        }
    }

    /// The collection after a mint to `to`.
    pub open spec fn after_mint(self, to: Principal, metadata: Seq<char>, image: Seq<char>)
        -> Registry {
        let id: int = self.count as int + 1;
        Registry {
            count: id as nat,
            owners: self.owners.insert(id, to),
            approvals: self.approvals,
            metadata: Some(metadata),
            image: Some(image),
            log: self.log.push(Event::Mint { to, id: id as i128 }),
        }
    }

    /// Whether `owner` may dispose of token `id`, by handing it on or by
    /// approving someone: the token must exist, the host must have
    /// confirmed `owner`'s consent, and `owner` must own the token.
    pub open spec fn can_manage(self, auth: Set<Principal>, owner: Principal, id: int) -> Result<
        (),
        Error,
    > {
        if !self.owners.contains_key(id) {
            Err(Error::NotFound)
        } else if !auth.contains(owner) {
            Err(Error::NotAuthorized)
        } else if self.owners[id] != owner {
            Err(Error::NotOwner)
        } else {
            Ok(())
        }
    }

    /// The collection after token `id` has passed from `from` to `to`: the
    /// owner is replaced, the approval is dropped, the transfer is logged.
    pub open spec fn after_transfer(self, from: Principal, to: Principal, id: int) -> Registry {
        Registry {
            owners: self.owners.insert(id, to),
            approvals: self.approvals.remove(id),
            log: self.log.push(Event::Transfer { from, to, id: id as i128 }),
            ..self
        }
    }

    /// The collection after `owner` has approved `to` for token `id`.
    /// Approving the principal already approved changes nothing.
    pub open spec fn after_approve(self, owner: Principal, to: Principal, id: int) -> Registry {
        if self.is_approved(to, id) {
            self
        } else {
            Registry {
                approvals: self.approvals.insert(id, to),
                log: self.log.push(Event::Approval { owner, approved: to, id: id as i128 }),
                ..self
            }
        }
    }

    /// Whether `spender` may move token `id` out of `from`'s hands: the
    /// token must exist, the host must have confirmed `spender`'s consent,
    /// `from` must own the token, and `spender` must be approved for it.
    pub open spec fn can_transfer_from(
        self,
        auth: Set<Principal>,
        spender: Principal,
        from: Principal,
        id: int,
    ) -> Result<(), Error> {
        if !self.owners.contains_key(id) {
            Err(Error::NotFound)
        } else if !auth.contains(spender) {
            Err(Error::NotAuthorized)
        } else if self.owners[id] != from {
            Err(Error::NotOwner)
        } else if !self.is_approved(spender, id) {
            Err(Error::NotApproved)
        } else {
            Ok(())
        }
    }

    /// The collection after a call of `mint`, accepted or refused.
    pub open spec fn mint(self, to: Principal, metadata: Seq<char>, image: Seq<char>) -> Registry {
        if self.can_mint() is Ok {
            self.after_mint(to, metadata, image)
        } else {
            self
        }
    }

    /// The collection after a call of `transfer`, accepted or refused.
    pub open spec fn transfer(self, auth: Set<Principal>, owner: Principal, to: Principal, id: int)
        -> Registry {
        if self.can_manage(auth, owner, id) is Ok {
            self.after_transfer(owner, to, id)
        } else {
            self
        }
    }

    /// The collection after a call of `approve`, accepted or refused.
    pub open spec fn approve(self, auth: Set<Principal>, owner: Principal, to: Principal, id: int)
        -> Registry {
        if self.can_manage(auth, owner, id) is Ok {
            self.after_approve(owner, to, id)
        } else {
            self
        }
    }

    /// The collection after a call of `transfer_from`, accepted or refused.
    pub open spec fn transfer_from(
        self,
        auth: Set<Principal>,
        spender: Principal,
        from: Principal,
        to: Principal,
        id: int,
    ) -> Registry {
        if self.can_transfer_from(auth, spender, from, id) is Ok {
            self.after_transfer(from, to, id)
        } else {
            self
        }
    }
}

/// What the collection keeps for one token.
#[derive(Clone, Copy)]
struct Slot {
    owner: Principal,
    approved: Option<Principal>,
}

/// The collection itself. Token `k` is kept at position `k - 1`.
pub struct TicketNFT {
    slots: Vec<Slot>,
    metadata: Option<String>,
    image: Option<String>,
    log: Vec<Event>,
}

/// The text held in an optional string.
pub open spec fn text_of(s: Option<String>) -> Option<Seq<char>> {
    match s {
        Some(t) => Some(t@),
        None => None,
    }
}

impl View for TicketNFT {
    type V = Registry;

    closed spec fn view(&self) -> Registry {
        Registry {
            count: self.slots@.len(),
            owners: Map::new(
                |id: int| 1 <= id <= self.slots@.len(),
                |id: int| self.slots@[id - 1].owner,
            ),
            approvals: Map::new(
                |id: int| 1 <= id <= self.slots@.len() && self.slots@[id - 1].approved is Some,
                |id: int| self.slots@[id - 1].approved->Some_0,
            ),
            metadata: text_of(self.metadata),
            image: text_of(self.image),
            log: self.log@,
        }
    }
}

impl TicketNFT {
    /// What every collection handed out by this module satisfies.
    pub closed spec fn wf(&self) -> bool {
        self.slots@.len() <= SUPPLY
    }

    /// A well-formed collection is a well-formed mathematical value.
    pub proof fn lemma_wf(&self)
        requires
            self.wf(),
        ensures
            self@.wf(),
    {
    }

    /// A collection with no tokens, no metadata and an empty log.
    pub fn new() -> (nft: TicketNFT)
        ensures
            nft.wf(),
            nft@ == Registry::empty(),
    {
        TicketNFT { slots: Vec::new(), metadata: None, image: None, log: Vec::new() }
    }

    /// Gives token `token_id` to `to` at the request of its owner.
    pub fn transfer(&mut self, auth: &Auth, owner: Principal, to: Principal, token_id: i128) -> (r:
        Result<(), Error>)
        requires
            old(self).wf(),
        ensures
            final(self).wf(),
            r == old(self)@.can_manage(auth@, owner, token_id as int),
            final(self)@ == old(self)@.transfer(auth@, owner, to, token_id as int),
            r is Ok ==> final(self)@.owner_of(token_id as int) == Ok::<Principal, Error>(to),
            r is Err ==> final(self)@ == old(self)@,
    {
        if token_id < 1 || token_id > self.slots.len() as i128 {
            return Err(Error::NotFound);
        }
        let i = (token_id - 1) as usize;
        if !auth.has(owner) {
            return Err(Error::NotAuthorized);
        }
        if self.slots[i].owner != owner {
            return Err(Error::NotOwner);
        }
        self.slots.set(i, Slot { owner: to, approved: None });
        self.log.push(Event::Transfer { from: owner, to, id: token_id });
        Ok(())
    }

    /// Creates the next token for `to` and replaces the collection-wide
    /// metadata and image addresses. Returns the new token's identifier.
    pub fn mint(&mut self, to: Principal, metadata: String, image: String) -> (r: Result<
        i128,
        Error,
    >)
        requires
            old(self).wf(),
        ensures
            final(self).wf(),
            r == old(self)@.can_mint(),
            final(self)@ == old(self)@.mint(to, metadata@, image@),
            r matches Ok(id) ==> final(self)@.owner_of(id as int) == Ok::<Principal, Error>(to),
            r is Err ==> final(self)@ == old(self)@,
    {
        if self.slots.len() as i128 >= SUPPLY {
            return Err(Error::SupplyExceeded);
        }
        self.slots.push(Slot { owner: to, approved: None });
        let id = self.slots.len() as i128;
        self.metadata = Some(metadata);
        self.image = Some(image);
        self.log.push(Event::Mint { to, id });
        Ok(id)
    }

    /// Rebuilds a collection from its stored layout, with an empty log.
    /// Returns `None` where the layout describes no collection.
    pub fn restore(
        owners: Vec<Principal>,
        approvals: Vec<Option<Principal>>,
        metadata: Option<String>,
        image: Option<String>,
    ) -> (r: Option<TicketNFT>)
        ensures
            r is Some <==> Registry::storable(owners@, approvals@),
            r matches Some(nft) ==> nft.wf() && nft@ == Registry::stored(
                owners@,
                approvals@,
                text_of(metadata),
                text_of(image),
            ),
    {
        let n = owners.len();
        if approvals.len() != n || n as i128 > SUPPLY {
            return None;
        }
        let mut slots: Vec<Slot> = Vec::new();
        let mut i: usize = 0;
        while i < n
            invariant
                i <= n,
                n == owners@.len(),
                n == approvals@.len(),
                slots@.len() == i,
                forall|j: int|
                    0 <= j < i ==> (#[trigger] slots@[j]).owner == owners@[j] && slots@[j].approved
                        == approvals@[j],
            decreases n - i,
        {
            slots.push(Slot { owner: owners[i], approved: approvals[i] });
            i += 1;
        }
        let nft = TicketNFT { slots, metadata, image, log: Vec::new() };
        proof {
            let want = Registry::stored(owners@, approvals@, text_of(metadata), text_of(image));
            assert(nft@.owners == want.owners);
            assert(nft@.approvals == want.approvals);
        }
        Some(nft)
    }

    /// Lets `to` transfer token `token_id` on `owner`'s behalf, replacing
    /// whoever was approved before.
    pub fn approve(&mut self, auth: &Auth, owner: Principal, to: Principal, token_id: i128) -> (r:
        Result<(), Error>)
        requires
            old(self).wf(),
        ensures
            final(self).wf(),
            r == old(self)@.can_manage(auth@, owner, token_id as int),
            final(self)@ == old(self)@.approve(auth@, owner, to, token_id as int),
            r is Err ==> final(self)@ == old(self)@,
    {
        if token_id < 1 || token_id > self.slots.len() as i128 {
            return Err(Error::NotFound);
        }
        let i = (token_id - 1) as usize;
        let slot = self.slots[i];
        if !auth.has(owner) {
            return Err(Error::NotAuthorized);
        }
        if slot.owner != owner {
            return Err(Error::NotOwner);
        }
        if slot.approved != Some(to) {
            self.slots.set(i, Slot { owner: slot.owner, approved: Some(to) });
            self.log.push(Event::Approval { owner, approved: to, id: token_id });
        }
        Ok(())
    }

    /// Moves token `token_id` from `from` to `to` at the request of the
    /// approved `spender`.
    pub fn transfer_from(
        &mut self,
        auth: &Auth,
        spender: Principal,
        from: Principal,
        to: Principal,
        token_id: i128,
    ) -> (r: Result<(), Error>)
        requires
            old(self).wf(),
        ensures
            final(self).wf(),
            r == old(self)@.can_transfer_from(auth@, spender, from, token_id as int),
            final(self)@ == old(self)@.transfer_from(auth@, spender, from, to, token_id as int),
            r is Ok ==> final(self)@.owner_of(token_id as int) == Ok::<Principal, Error>(to),
            r is Err ==> final(self)@ == old(self)@,
    {
        if token_id < 1 || token_id > self.slots.len() as i128 {
            return Err(Error::NotFound);
        }
        let i = (token_id - 1) as usize;
        let slot = self.slots[i];
        if !auth.has(spender) {
            return Err(Error::NotAuthorized);
        }
        if slot.owner != from {
            return Err(Error::NotOwner);
        }
        if slot.approved != Some(spender) {
            return Err(Error::NotApproved);
        }
        self.slots.set(i, Slot { owner: to, approved: None });
        self.log.push(Event::Transfer { from, to, id: token_id });
        Ok(())
    }

    /// The owner of token `token_id`.
    pub fn owner_of(&self, token_id: i128) -> (r: Result<Principal, Error>)
        requires
            self.wf(),
        ensures
            r == self@.owner_of(token_id as int),
    {
        if token_id < 1 || token_id > self.slots.len() as i128 {
            return Err(Error::NotFound);
        }
        Ok(self.slots[(token_id - 1) as usize].owner)
    }

    /// The principal approved to transfer token `token_id`, if any.
    pub fn get_approved(&self, token_id: i128) -> (r: Option<Principal>)
        requires
            self.wf(),
        ensures
            r == self@.get_approved(token_id as int),
    {
        if token_id < 1 || token_id > self.slots.len() as i128 {
            return None;
        }
        self.slots[(token_id - 1) as usize].approved
    }

    /// Whether `operator` is approved to transfer token `token_id`.
    pub fn is_approved(&self, operator: Principal, token_id: i128) -> (r: bool)
        requires
            self.wf(),
        ensures
            r == self@.is_approved(operator, token_id as int),
    {
        if token_id < 1 || token_id > self.slots.len() as i128 {
            return false;
        }
        self.slots[(token_id - 1) as usize].approved == Some(operator)
    }

    /// How many tokens have been minted.
    pub fn total_supply(&self) -> (r: i128)
        requires
            self.wf(),
        ensures
            r == self@.count,
    {
        self.slots.len() as i128
    }

    /// Whether a slot of the persistent layout holds a value.
    pub fn has(&self, key: DataKey) -> (r: bool)
        requires
            self.wf(),
        ensures
            r == self@.has(key),
    {
        match key {
            DataKey::Owner(id) => 1 <= id && id <= self.slots.len() as i128,
            DataKey::TokenCount => self.slots.len() > 0,
            DataKey::Approvals(id) => 1 <= id && id <= self.slots.len() as i128 && self.slots[(id
                - 1) as usize].approved.is_some(),
            DataKey::Metadata => self.metadata.is_some(),
            DataKey::Image => self.image.is_some(),
        }
    }

    /// The collection's name.
    pub fn name(&self) -> (r: String)
        ensures
            r@ == name_text(),
    {
        "TicketNFT".to_owned()
    }

    /// The collection's symbol.
    pub fn symbol(&self) -> (r: String)
        ensures
            r@ == symbol_text(),
    {
        "SBN".to_owned()
    }

    /// The metadata address given at the latest mint, or the default one.
    pub fn token_uri(&self) -> (r: String)
        ensures
            r@ == self@.token_uri(),
    {
        match &self.metadata {
            Some(s) => s.clone(),
            None => "https://ipfs.io/ipfs/QmegWR31kiQcD9S2katTXKxracbAgLs2QLBRGruFW3NhXC".to_owned(),
        }
    }

    /// The image address given at the latest mint, or the default one.
    pub fn token_image(&self) -> (r: String)
        ensures
            r@ == self@.token_image(),
    {
        match &self.image {
            Some(s) => s.clone(),
            None => "https://ipfs.io/ipfs/QmeRHSYkR4aGRLQXaLmZiccwHw7cvctrB211DzxzuRiqW6".to_owned(),
        }
    }

    /// Everything emitted since the log was last taken, oldest first.
    pub fn events(&self) -> (r: &Vec<Event>)
        ensures
            r@ == self@.log,
    {
        &self.log
    }

    /// Hands the log out and starts a fresh one. Nothing else changes.
    pub fn take_events(&mut self) -> (r: Vec<Event>)
        requires
            old(self).wf(),
        ensures
            final(self).wf(),
            r@ == old(self)@.log,
            final(self)@ == old(self)@.with_log(Seq::empty()),
    {
        let mut out: Vec<Event> = Vec::new();
        std::mem::swap(&mut self.log, &mut out);
        out
    }
}

} // verus!
