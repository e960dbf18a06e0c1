//! A trustless two-party token escrow.
//!
//! A maker deposits a quantity of asset A into a custody vault and records
//! the quantity of asset B they expect in return. A taker may fulfill the
//! offer by paying asset B to the maker in exchange for the custodied
//! asset A, or the maker may cancel and reclaim the deposit. The escrow
//! book holds one record per open offer, keyed by (maker, offer id); the
//! record and its vault are created together and destroyed together, so
//! the existence of the record itself encodes the open state.

pub mod book;
pub mod errors;
pub mod make_offer;
pub mod refund_offer;
pub mod state;
pub mod take_offer;

pub use crate::book::{EscrowBook, OpenOffer};
pub use crate::errors::EscrowError;
pub use crate::make_offer::{make_offer, MakeOffer};
pub use crate::refund_offer::{refund_offer, RefundOffer};
pub use crate::state::{derive_custody_authority, Escrow, TokenAccount};
pub use crate::take_offer::{take_offer, TakeOffer};
