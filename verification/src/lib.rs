//! Verified registries for event tickets and event-linked artwork tokens.
//!
//! There are three registries of one shape: [`artistic_nft::TicketNFT`], a
//! capped collection with one shared metadata slot; [`ticket_nft::TicketNFT`],
//! tickets that can be used once and burnt; and
//! [`event_nft::ArtisticNFTContract`], tokens minted in batches for events.
//!
//! Each registry is an explicit state value with a mathematical view, its
//! `Registry`. A call either is accepted and changes the state exactly as
//! the view's function of the same name says, or is refused with an
//! [`error::Error`] and changes nothing. A call checks what the state rules
//! out first (an unknown identifier, a used ticket, a closed event, a full
//! counter), then consent, then ownership, then approval, and reports the
//! first check that fails.
//!
//! The host's authorization oracle is represented by [`auth::Auth`], the
//! principals whose consent the host has confirmed for the current call.
//! The host's event sink is represented by the registry's own append-only
//! log, which the embedding code takes and publishes. The current ledger
//! sequence number, where a call depends on it, is an argument.
//!
//! The modules whose names end in `_laws` state and prove what holds over
//! whole histories of calls.

pub mod principal;
pub mod error;
pub mod event;
pub mod auth;
pub mod artistic_nft;
pub mod artistic_laws;
pub mod ticket_nft;
pub mod ticket_laws;
pub mod event_nft;
pub mod event_laws;
