//! A registry of artwork tokens tied to events. An organizer creates an
//! event, opens it for minting, and then mints one token per participant
//! in a single call that either serves every participant or none.

use vstd::prelude::*;
use crate::auth::Auth;
use crate::error::Error;
use crate::event::Event;
use crate::principal::Principal;

verus! {

/// One token: who holds it and the event it was minted for.
#[derive(Clone, Copy, Debug, PartialEq, Eq, Structural)]
pub struct ArtisticNFT {
    pub owner: Principal,
    pub event_id: u32,
}

/// One event, as callers see it.
#[derive(Clone, Debug, PartialEq, Eq)]
pub struct EventInfo {
    pub id: u32,
    pub organizer: Principal,
    pub metadata_uri: String,
    pub minting_enabled: bool,
}

/// One event as a mathematical value.
pub struct EventData {
    pub id: u32,
    pub organizer: Principal,
    pub metadata_uri: Seq<char>,
    pub minting_enabled: bool,
}

impl View for EventInfo {
    type V = EventData;

    open spec fn view(&self) -> EventData {
        EventData {
            id: self.id,
            organizer: self.organizer,
            metadata_uri: self.metadata_uri@,
            minting_enabled: self.minting_enabled,
        }
    }
}

/// The log entries of a batch mint that hands out `first`, `first + 1`, ...
/// to the participants in order.
pub open spec fn mint_events(first: int, participants: Seq<Principal>) -> Seq<Event> {
    Seq::new(
        participants.len(),
        |k: int| Event::Mint { to: participants[k], id: (first + k) as i128 },
    )
}

/// The identifiers `first`, `first + 1`, ..., `first + n - 1`.
pub open spec fn fresh_ids(first: int, n: nat) -> Seq<u32> {
    Seq::new(n, |k: int| (first + k) as u32)
}

/// The registry as a mathematical value.
#[verifier::ext_equal]
pub struct Registry {
    /// The administrator, once the registry has been initialized.
    pub admin: Option<Principal>,
    /// How many tokens have been minted; the next token identifier.
    pub supply: nat,
    /// Every token minted so far.
    pub tokens: Map<int, ArtisticNFT>,
    /// How many events have been created; the next event identifier.
    pub event_count: nat,
    /// Every event created so far.
    pub events: Map<int, EventData>,
    /// Everything emitted so far, oldest first.
    pub log: Seq<Event>,
}

impl Registry {
    /// The registry before initialization.
    pub open spec fn empty() -> Registry {
        Registry {
            admin: None,
            supply: 0,
            tokens: Map::empty(),
            event_count: 0,
            events: Map::empty(),
            log: Seq::empty(),
        }
    }

    /// Both counters fit their type, nothing exists before initialization,
    /// tokens and events are numbered without gaps from 0, each event
    /// carries its own identifier, and each token names an existing event.
    pub open spec fn wf(self) -> bool {
        &&& self.supply <= u32::MAX
        &&& self.event_count <= u32::MAX
        &&& self.admin is None ==> self.supply == 0 && self.event_count == 0
        &&& forall|id: int| #[trigger] self.tokens.contains_key(id) <==> 0 <= id < self.supply
        &&& forall|id: int| #[trigger] self.events.contains_key(id) <==> 0 <= id < self.event_count
        &&& forall|id: int| #[trigger] self.events.contains_key(id) ==> self.events[id].id == id
        &&& forall|id: int| #[trigger]
            self.tokens.contains_key(id) ==> self.events.contains_key(
                self.tokens[id].event_id as int,
            )
    }

    /// The registry that a stored layout describes: position `k` holds
    /// token `k` and event `k`. Its log is empty.
    pub open spec fn stored(
        admin: Option<Principal>,
        tokens: Seq<ArtisticNFT>,
        events: Seq<EventData>,
    ) -> Registry {
        Registry {
            admin,
            supply: tokens.len(),
            tokens: Map::new(|id: int| 0 <= id < tokens.len(), |id: int| tokens[id]),
            event_count: events.len(),
            events: Map::new(|id: int| 0 <= id < events.len(), |id: int| events[id]),
            log: Seq::empty(),
        }
    }

    /// Whether a stored layout describes a registry: both counts fit their
    /// counter, nothing exists without an administrator, each event
    /// carries its own identifier, and each token names a stored event.
    pub open spec fn storable(
        admin: Option<Principal>,
        tokens: Seq<ArtisticNFT>,
        events: Seq<EventData>,
    ) -> bool {
        &&& tokens.len() <= u32::MAX
        &&& events.len() <= u32::MAX
        &&& admin is None ==> tokens.len() == 0 && events.len() == 0
        &&& forall|id: int| 0 <= id < events.len() ==> (#[trigger] events[id]).id == id
        &&& forall|id: int| 0 <= id < tokens.len() ==> (#[trigger] tokens[id]).event_id < events.len()
    }

    /// The same registry with another log.
    pub open spec fn with_log(self, log: Seq<Event>) -> Registry {
        Registry { log, ..self }
    }

    /// The token `id`, or `NotFound`.
    pub open spec fn get_nft(self, id: int) -> Result<ArtisticNFT, Error> {
        if self.tokens.contains_key(id) {
            Ok(self.tokens[id])
        } else {
            Err(Error::NotFound)
        }
    }

    /// The owner of token `id`, or `NotFound`.
    pub open spec fn owner_of(self, id: int) -> Result<Principal, Error> {
        if self.tokens.contains_key(id) {
            Ok(self.tokens[id].owner)
        } else {
            Err(Error::NotFound)
        }
    }

    /// The event `id`, or `NotFound`.
    pub open spec fn get_event_info(self, id: int) -> Result<EventData, Error> {
        if self.events.contains_key(id) {
            Ok(self.events[id])
        } else {
            Err(Error::NotFound)
        }
    }

    /// Whether event `id` exists and is open for minting.
    pub open spec fn minting_enabled(self, id: int) -> bool {
        self.events.contains_key(id) && self.events[id].minting_enabled
    }

    /// Whether token `id` exists and belongs to `owner`.
    pub open spec fn owns(self, owner: Principal, id: int) -> bool {
        self.tokens.contains_key(id) && self.tokens[id].owner == owner
    }

    /// How many of the identifiers below `n` name a token of `owner`.
    pub open spec fn owned_below(self, owner: Principal, n: nat) -> nat
        decreases n,
    {
        if n == 0 {
            0
        } else {
            self.owned_below(owner, (n - 1) as nat) + if self.owns(owner, n - 1) {
                1nat
            } else {
                0nat
            }
        }
    }

    /// How many tokens `owner` holds.
    pub open spec fn balance(self, owner: Principal) -> nat {
        self.owned_below(owner, self.supply)
    }

    /// The identifier at position `index` of the enumeration, which is
    /// `index` itself, or `IndexOutOfRange`.
    pub open spec fn token_by_index(self, index: u32) -> Result<u32, Error> {
        if index >= self.supply {
            Err(Error::IndexOutOfRange)
        } else {
            Ok(index)
        }
    }

    /// Whether `admin` may take charge: the registry must have no
    /// administrator yet, and the host must have confirmed `admin`'s consent.
    pub open spec fn can_initialize(self, auth: Set<Principal>, admin: Principal) -> Result<
        (),
        Error,
    > {
        if self.admin is Some {
            Err(Error::AlreadyInitialized)
        } else if !auth.contains(admin) {
            Err(Error::NotAuthorized)
        } else {
            Ok(())
        }
    }

    /// The registry once `admin` has taken charge, with both counters at
    /// zero.
    pub open spec fn after_initialize(self, admin: Principal) -> Registry {
        Registry { admin: Some(admin), supply: 0, event_count: 0, ..self }
    }

    /// The identifier a new event of `organizer` gets. Refused with
    /// `NotFound` before initialization, `SupplyExceeded` when the counter
    /// cannot grow, `NotAuthorized` without the organizer's consent.
    pub open spec fn can_create_event(self, auth: Set<Principal>, organizer: Principal) -> Result<
        u32,
        Error,
    > {
        if self.admin is None {
            Err(Error::NotFound)
        } else if self.event_count >= u32::MAX {
            Err(Error::SupplyExceeded)
        } else if !auth.contains(organizer) {
            Err(Error::NotAuthorized)
        } else {
            Ok(self.event_count as u32)
        }
    }

    /// The registry after `organizer` has created an event, which starts
    /// closed for minting.
    pub open spec fn after_create_event(self, organizer: Principal, metadata_uri: Seq<char>)
        -> Registry {
        let id: int = self.event_count as int;
        Registry {
            event_count: (id + 1) as nat,
            events: self.events.insert(
                id,
                EventData { id: id as u32, organizer, metadata_uri, minting_enabled: false },
            ),
            ..self
        }
    }

    /// Whether `organizer` may act for event `id`: the event must exist,
    /// the host must have confirmed `organizer`'s consent, and `organizer`
    /// must be the one who created the event.
    pub open spec fn can_organize(self, auth: Set<Principal>, id: int, organizer: Principal)
        -> Result<(), Error> {
        if !self.events.contains_key(id) {
            Err(Error::NotFound)
        } else if !auth.contains(organizer) || self.events[id].organizer != organizer {
            Err(Error::NotAuthorized)
        } else {
            Ok(())
        }
    }

    /// The registry after event `id` has been opened for minting. Opening
    /// an open event changes nothing.
    pub open spec fn after_enable_minting(self, id: int) -> Registry {
        let e = self.events[id];
        Registry { events: self.events.insert(id, EventData { minting_enabled: true, ..e }), ..self }
    }

    /// The identifiers a batch mint for event `id` hands out, one per
    /// participant and in their order. Refused with `NotFound` for an
    /// unknown event, `MintingDisabled` while the event is closed,
    /// `NotAuthorized` unless `organizer` created the event and consented,
    /// and `SupplyExceeded` when the counter cannot take them all.
    pub open spec fn can_batch_mint(
        self,
        auth: Set<Principal>,
        id: int,
        participants: Seq<Principal>,
        organizer: Principal,
    ) -> Result<Seq<u32>, Error> {
        if !self.events.contains_key(id) {
            Err(Error::NotFound)
        } else if !self.events[id].minting_enabled {
            Err(Error::MintingDisabled)
        } else if !auth.contains(organizer) || self.events[id].organizer != organizer {
            Err(Error::NotAuthorized)
        } else if self.supply + participants.len() > u32::MAX {
            Err(Error::SupplyExceeded)
        } else {
            Ok(fresh_ids(self.supply as int, participants.len()))
        }
    }

    /// The registry after every participant has received a token of event
    /// `id`: participant `k` owns token `supply + k`.
    pub open spec fn after_batch_mint(self, id: int, participants: Seq<Principal>) -> Registry {
        let first: int = self.supply as int;
        Registry {
            supply: (first + participants.len()) as nat,
            tokens: Map::new(
                |t: int| self.tokens.contains_key(t) || first <= t < first + participants.len(),
                |t: int|
                    if first <= t < first + participants.len() {
                        ArtisticNFT { owner: participants[t - first], event_id: id as u32 }
                    } else {
                        self.tokens[t]
                    },
            ),
            log: self.log + mint_events(first, participants),
            ..self
        }
    }

    /// Whether `owner` may hand token `id` on: the token must exist, the
    /// host must have confirmed `owner`'s consent, and `owner` must own it.
    pub open spec fn can_transfer(self, auth: Set<Principal>, owner: Principal, id: int) -> Result<
        (),
        Error,
    > {
        if !self.tokens.contains_key(id) {
            Err(Error::NotFound)
        } else if !auth.contains(owner) {
            Err(Error::NotAuthorized)
        } else if self.tokens[id].owner != owner {
            Err(Error::NotOwner)
        } else {
            Ok(())
        }
    }

    /// The registry after token `id` has passed from `from` to `to`.
    pub open spec fn after_transfer(self, from: Principal, to: Principal, id: int) -> Registry {
        let t = self.tokens[id];
        Registry {
            tokens: self.tokens.insert(id, ArtisticNFT { owner: to, ..t }),
            log: self.log.push(Event::Transfer { from, to, id: id as i128 }),
            ..self
        }
    }

    /// The registry after a call of `initialize`, accepted or refused.
    pub open spec fn initialize(self, auth: Set<Principal>, admin: Principal) -> Registry {
        if self.can_initialize(auth, admin) is Ok {
            self.after_initialize(admin)
        } else {
            self
        }
    }

    /// The registry after a call of `create_event`, accepted or refused.
    pub open spec fn create_event(
        self,
        auth: Set<Principal>,
        organizer: Principal,
        metadata_uri: Seq<char>,
    ) -> Registry {
        if self.can_create_event(auth, organizer) is Ok {
            self.after_create_event(organizer, metadata_uri)
        } else {
            self
        }
    }

    /// The registry after a call of `enable_minting`, accepted or refused.
    pub open spec fn enable_minting(self, auth: Set<Principal>, id: int, organizer: Principal)
        -> Registry {
        if self.can_organize(auth, id, organizer) is Ok {
            self.after_enable_minting(id)
        } else {
            self
        }
    }

    /// The registry after a call of `batch_mint`, accepted or refused.
    pub open spec fn batch_mint(
        self,
        auth: Set<Principal>,
        id: int,
        participants: Seq<Principal>,
        organizer: Principal,
    ) -> Registry {
        if self.can_batch_mint(auth, id, participants, organizer) is Ok {
            self.after_batch_mint(id, participants)
        } else {
            self
        }
    }

    /// The registry after a call of `transfer`, accepted or refused.
    pub open spec fn transfer(self, auth: Set<Principal>, from: Principal, to: Principal, id: int)
        -> Registry {
        if self.can_transfer(auth, from, id) is Ok {
            self.after_transfer(from, to, id)
        } else {
            self
        }
    }

    /// No more identifiers below `n` name a token of `owner` than there
    /// are identifiers below `n`.
    pub proof fn lemma_owned_below_bound(self, owner: Principal, n: nat)
        ensures
            self.owned_below(owner, n) <= n,
        decreases n,
    {
        if n > 0 {
            self.lemma_owned_below_bound(owner, (n - 1) as nat);
        }
    }
}

/// The registry itself. Token `k` and event `k` are kept at position `k`.
pub struct ArtisticNFTContract {
    admin: Option<Principal>,
    tokens: Vec<ArtisticNFT>,
    events: Vec<EventInfo>,
    log: Vec<Event>,
}

impl View for ArtisticNFTContract {
    type V = Registry;

    closed spec fn view(&self) -> Registry {
        Registry {
            admin: self.admin,
            supply: self.tokens@.len(),
            tokens: Map::new(|id: int| 0 <= id < self.tokens@.len(), |id: int| self.tokens@[id]),
            event_count: self.events@.len(),
            events: Map::new(|id: int| 0 <= id < self.events@.len(), |id: int| self.events@[id]@),
            log: self.log@,
        }
    }
}

/// Stored events as mathematical values.
pub open spec fn event_views(events: Seq<EventInfo>) -> Seq<EventData> {
    Seq::new(events.len(), |k: int| events[k]@)
}

/// An event result as a mathematical value.
pub open spec fn event_data(r: Result<EventInfo, Error>) -> Result<EventData, Error> {
    match r {
        Ok(e) => Ok(e@),
        Err(e) => Err(e),
    }
}

/// An identifier list result as a mathematical value.
pub open spec fn id_list(r: Result<Vec<u32>, Error>) -> Result<Seq<u32>, Error> {
    match r {
        Ok(v) => Ok(v@),
        Err(e) => Err(e),
    }
}

impl ArtisticNFTContract {
    /// What every registry handed out by this module satisfies.
    pub closed spec fn wf(&self) -> bool {
        &&& self.tokens@.len() <= u32::MAX
        &&& self.events@.len() <= u32::MAX
        &&& self.admin is None ==> self.tokens@.len() == 0 && self.events@.len() == 0
        &&& forall|i: int| 0 <= i < self.events@.len() ==> (#[trigger] self.events@[i]).id == i
        &&& forall|i: int|
            0 <= i < self.tokens@.len() ==> (#[trigger] self.tokens@[i]).event_id
                < self.events@.len()
    }

    /// A well-formed registry is a well-formed mathematical value.
    pub proof fn lemma_wf(&self)
        requires
            self.wf(),
        ensures
            self@.wf(),
    {
    }

    /// A registry without administrator, events, tokens or log entries.
    pub fn new() -> (c: ArtisticNFTContract)
        ensures
            c.wf(),
            c@ == Registry::empty(),
    {
        ArtisticNFTContract {
            admin: None,
            tokens: Vec::new(),
            events: Vec::new(),
            log: Vec::new(),
        }
    }

    /// Rebuilds a registry from its stored layout, with an empty log.
    /// Returns `None` where the layout describes no registry.
    pub fn restore(admin: Option<Principal>, tokens: Vec<ArtisticNFT>, events: Vec<EventInfo>) -> (r:
        Option<ArtisticNFTContract>)
        ensures
            r is Some <==> Registry::storable(admin, tokens@, event_views(events@)),
            r matches Some(c) ==> c.wf() && c@ == Registry::stored(
                admin,
                tokens@,
                event_views(events@),
            ),
    {
        let n = tokens.len();
        let m = events.len();
        if n > u32::MAX as usize || m > u32::MAX as usize || (admin.is_none() && (n != 0 || m
            != 0)) {
            return None;
        }
        let mut e: usize = 0;
        while e < m
            invariant
                e <= m,
                m == events@.len(),
                m <= u32::MAX,
                forall|j: int| 0 <= j < e ==> (#[trigger] events@[j]).id == j,
            decreases m - e,
        {
            if events[e].id != e as u32 {
                assert(event_views(events@)[e as int].id != e);
                return None;
            }
            e += 1;
        }
        let mut t: usize = 0;
        while t < n
            invariant
                t <= n,
                n == tokens@.len(),
                m == events@.len(),
                forall|j: int| 0 <= j < t ==> (#[trigger] tokens@[j]).event_id < m,
            decreases n - t,
        {
            if tokens[t].event_id as usize >= m {
                return None;
            }
            t += 1;
        }
        proof {
            assert forall|id: int| 0 <= id < m implies (#[trigger] event_views(events@)[id]).id
                == id by {
                assert(events@[id].id == id);
            }
        }
        let c = ArtisticNFTContract { admin, tokens, events, log: Vec::new() };
        proof {
            let want = Registry::stored(admin, tokens@, event_views(events@));
            assert(c@.tokens == want.tokens);
            assert(c@.events == want.events);
        }
        Some(c)
    }

    /// Mints one token of event `event_id` for each participant, in order,
    /// at the request of the event's organizer. Returns the new
    /// identifiers in the participants' order. Either every participant is
    /// served or the registry is left as it was.
    pub fn batch_mint(
        &mut self,
        auth: &Auth,
        event_id: u32,
        participants: &Vec<Principal>,
        organizer: Principal,
    ) -> (r: Result<Vec<u32>, Error>)
        requires
            old(self).wf(),
        ensures
            final(self).wf(),
            id_list(r) == old(self)@.can_batch_mint(
                auth@,
                event_id as int,
                participants@,
                organizer,
            ),
            final(self)@ == old(self)@.batch_mint(
                auth@,
                event_id as int,
                participants@,
                organizer,
            ),
            r matches Ok(ids) ==> ids@.len() == participants@.len() && forall|k: int|
                0 <= k < participants@.len() ==> final(self)@.owner_of(#[trigger] ids@[k] as int)
                    == Ok::<Principal, Error>(participants@[k]),
            r is Err ==> final(self)@ == old(self)@,
            !old(self)@.minting_enabled(event_id as int) ==> r is Err && final(self)@.supply == old(
                self,
            )@.supply,
    {
        let e = event_id as usize;
        if e >= self.events.len() {
            return Err(Error::NotFound);
        }
        if !self.events[e].minting_enabled {
            return Err(Error::MintingDisabled);
        }
        if !auth.has(organizer) || self.events[e].organizer != organizer {
            return Err(Error::NotAuthorized);
        }
        let first = self.tokens.len();
        let n = participants.len();
        if n > u32::MAX as usize - first {
            return Err(Error::SupplyExceeded);
        }
        let mut ids: Vec<u32> = Vec::new();
        let mut k: usize = 0;
        while k < n
            invariant
                k <= n,
                n == participants@.len(),
                first == old(self).tokens@.len(),
                first + n <= u32::MAX,
                e == event_id,
                e < self.events@.len(),
                self.admin == old(self).admin,
                self.events == old(self).events,
                self.tokens@.len() == first + k,
                forall|t: int| 0 <= t < first ==> self.tokens@[t] == old(self).tokens@[t],
                forall|t: int|
                    first <= t < first + k ==> self.tokens@[t] == (ArtisticNFT {
                        owner: participants@[t - first],
                        event_id,
                    }),
                self.log@ == old(self).log@ + mint_events(first as int, participants@.take(k as int)),
                ids@ == fresh_ids(first as int, k as nat),
            decreases n - k,
        {
            let id = (first + k) as u32;
            let to = participants[k];
            self.tokens.push(ArtisticNFT { owner: to, event_id });
            self.log.push(Event::Mint { to, id: id as i128 });
            ids.push(id);
            proof {
                let grown = participants@.take(k as int + 1);
                assert(grown.drop_last() == participants@.take(k as int));
                assert(mint_events(first as int, grown) == mint_events(
                    first as int,
                    participants@.take(k as int),
                ).push(Event::Mint { to, id: id as i128 }));
            }
            k += 1;
        }
        proof {
            assert(participants@.take(n as int) == participants@);
            assert(self@.tokens == old(self)@.after_batch_mint(
                event_id as int,
                participants@,
            ).tokens);
        }
        Ok(ids)
    }

    /// How many tokens `owner` holds, found by walking every identifier
    /// below the supply.
    pub fn balance(&self, owner: Principal) -> (r: u32)
        requires
            self.wf(),
        ensures
            r == self@.balance(owner),
    {
        let mut count: u32 = 0;
        let mut i: usize = 0;
        while i < self.tokens.len()
            invariant
                self.wf(),
                i <= self.tokens.len(),
                count == self@.owned_below(owner, i as nat),
                count <= i,
            decreases self.tokens.len() - i,
        {
            proof {
                self@.lemma_owned_below_bound(owner, i as nat);
            }
            let mine = self.tokens[i].owner == owner;
            assert(mine == self@.owns(owner, i as int));
            if mine {
                count += 1;
            }
            i += 1;
        }
        count
    }

    /// Opens event `event_id` for minting at the request of its organizer.
    /// Opening an event that is already open is accepted and changes
    /// nothing; no call closes an event again.
    pub fn enable_minting(&mut self, auth: &Auth, event_id: u32, organizer: Principal) -> (r:
        Result<(), Error>)
        requires
            old(self).wf(),
        ensures
            final(self).wf(),
            r == old(self)@.can_organize(auth@, event_id as int, organizer),
            final(self)@ == old(self)@.enable_minting(auth@, event_id as int, organizer),
            r is Ok ==> final(self)@.minting_enabled(event_id as int),
            r is Err ==> final(self)@ == old(self)@,
    {
        let e = event_id as usize;
        if e >= self.events.len() {
            return Err(Error::NotFound);
        }
        let info = &self.events[e];
        if !auth.has(organizer) || info.organizer != organizer {
            return Err(Error::NotAuthorized);
        }
        let opened = EventInfo {
            id: info.id,
            organizer: info.organizer,
            metadata_uri: info.metadata_uri.clone(),
            minting_enabled: true,
        };
        self.events.set(e, opened);
        proof {
            assert(self@.events == old(self)@.after_enable_minting(event_id as int).events);
        }
        Ok(())
    }

    /// Gives token `token_id` to `to` at the request of its owner `from`.
    pub fn transfer(&mut self, auth: &Auth, from: Principal, to: Principal, token_id: u32) -> (r:
        Result<(), Error>)
        requires
            old(self).wf(),
        ensures
            final(self).wf(),
            r == old(self)@.can_transfer(auth@, from, token_id as int),
            final(self)@ == old(self)@.transfer(auth@, from, to, token_id as int),
            r is Ok ==> final(self)@.owner_of(token_id as int) == Ok::<Principal, Error>(to),
            r is Err ==> final(self)@ == old(self)@,
    {
        let i = token_id as usize;
        if i >= self.tokens.len() {
            return Err(Error::NotFound);
        }
        let token = self.tokens[i];
        if !auth.has(from) {
            return Err(Error::NotAuthorized);
        }
        if token.owner != from {
            return Err(Error::NotOwner);
        }
        self.tokens.set(i, ArtisticNFT { owner: to, event_id: token.event_id });
        self.log.push(Event::Transfer { from, to, id: token_id as i128 });
        proof {
            assert(self@.tokens == old(self)@.after_transfer(from, to, token_id as int).tokens);
        }
        Ok(())
    }

    /// Registers a new event of `organizer`, closed for minting. Returns
    /// the event's identifier.
    pub fn create_event(&mut self, auth: &Auth, organizer: Principal, metadata_uri: String) -> (r:
        Result<u32, Error>)
        requires
            old(self).wf(),
        ensures
            final(self).wf(),
            r == old(self)@.can_create_event(auth@, organizer),
            final(self)@ == old(self)@.create_event(auth@, organizer, metadata_uri@),
            r matches Ok(id) ==> !final(self)@.minting_enabled(id as int),
            r is Err ==> final(self)@ == old(self)@,
    {
        if self.admin.is_none() {
            return Err(Error::NotFound);
        }
        if self.events.len() >= u32::MAX as usize {
            return Err(Error::SupplyExceeded);
        }
        if !auth.has(organizer) {
            return Err(Error::NotAuthorized);
        }
        let id = self.events.len() as u32;
        self.events.push(EventInfo { id, organizer, metadata_uri, minting_enabled: false });
        proof {
            assert(self@.events == old(self)@.after_create_event(organizer, metadata_uri@).events);
        }
        Ok(id)
    }

    /// The identifier at position `index` of the enumeration, which is
    /// `index` itself.
    pub fn token_by_index(&self, index: u32) -> (r: Result<u32, Error>)
        requires
            self.wf(),
        ensures
            r == self@.token_by_index(index),
    {
        if index as usize >= self.tokens.len() {
            Err(Error::IndexOutOfRange)
        } else {
            Ok(index)
        }
    }

    /// Puts `admin` in charge of a registry that has no administrator yet.
    pub fn initialize(&mut self, auth: &Auth, admin: Principal) -> (r: Result<(), Error>)
        requires
            old(self).wf(),
        ensures
            final(self).wf(),
            r == old(self)@.can_initialize(auth@, admin),
            final(self)@ == old(self)@.initialize(auth@, admin),
            r is Ok ==> final(self)@.supply == 0 && final(self)@.event_count == 0,
            r is Err ==> final(self)@ == old(self)@,
    {
        if self.admin.is_some() {
            return Err(Error::AlreadyInitialized);
        }
        if !auth.has(admin) {
            return Err(Error::NotAuthorized);
        }
        self.admin = Some(admin);
        Ok(())
    }

    /// The owner of token `token_id`.
    pub fn owner_of(&self, token_id: u32) -> (r: Result<Principal, Error>)
        requires
            self.wf(),
        ensures
            r == self@.owner_of(token_id as int),
    {
        let i = token_id as usize;
        if i >= self.tokens.len() {
            return Err(Error::NotFound);
        }
        Ok(self.tokens[i].owner)
    }

    /// The token `token_id`.
    pub fn get_nft(&self, token_id: u32) -> (r: Result<ArtisticNFT, Error>)
        requires
            self.wf(),
        ensures
            r == self@.get_nft(token_id as int),
    {
        let i = token_id as usize;
        if i >= self.tokens.len() {
            return Err(Error::NotFound);
        }
        Ok(self.tokens[i])
    }

    /// A copy of event `event_id`.
    pub fn get_event_info(&self, event_id: u32) -> (r: Result<EventInfo, Error>)
        requires
            self.wf(),
        ensures
            event_data(r) == self@.get_event_info(event_id as int),
    {
        let e = event_id as usize;
        if e >= self.events.len() {
            return Err(Error::NotFound);
        }
        let info = &self.events[e];
        Ok(
            EventInfo {
                id: info.id,
                organizer: info.organizer,
                metadata_uri: info.metadata_uri.clone(),
                minting_enabled: info.minting_enabled,
            },
        )
    }

    /// How many tokens have been minted.
    pub fn total_supply(&self) -> (r: u32)
        requires
            self.wf(),
        ensures
            r == self@.supply,
    {
        self.tokens.len() as u32
    }

    /// The administrator, once the registry has been initialized.
    pub fn admin(&self) -> (r: Option<Principal>)
        ensures
            r == self@.admin,
    {
        self.admin
    }

    /// Everything emitted since the log was last taken, oldest first.
    pub fn events(&self) -> (r: &Vec<Event>)
        ensures
            r@ == self@.log,
    {
        &self.log
    }

    /// Hands the log out and starts a fresh one. Nothing else changes.
    pub fn take_events(&mut self) -> (r: Vec<Event>)
        requires
            old(self).wf(),
        ensures
            final(self).wf(),
            r@ == old(self)@.log,
            final(self)@ == old(self)@.with_log(Seq::empty()),
    {
        let mut out: Vec<Event> = Vec::new();
        std::mem::swap(&mut self.log, &mut out);
        out
    }
}

} // verus!
