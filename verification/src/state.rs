//! The persistent state objects of the escrow: holding accounts, the
//! escrow record, and the derived custody authority.
//!
//! Identities and asset identifiers are opaque 64-bit values standing for
//! the host platform's account addresses; a holding account is the pair of
//! its owner's identity and the asset it holds, together with a balance.

use vstd::prelude::*;

verus! {

/// Domain separator mixed into every derived custody authority, so that a
/// vault's owner is distinct from the inputs it was derived from.
pub const CUSTODY_DOMAIN: u64 = 0x657363726f770000;

/// A holding account: `owner`'s balance of `asset`.
#[derive(Clone, Copy, Debug, PartialEq, Eq, Structural)]
pub struct TokenAccount {
    /// Identity of the party that controls the account.
    pub owner: u64,
    /// Identifier of the asset the account holds.
    pub asset: u64,
    /// Current balance.
    pub amount: u64,
}

/// One outstanding offer: the persistent escrow record. Pure data; the
/// three transition handlers create, read, and destroy it. Its identity is
/// the pair (maker, offer_id), the deterministic storage key.
#[derive(Clone, Copy, Debug, PartialEq, Eq, Structural)]
pub struct Escrow {
    /// Caller-chosen identifier, distinguishing concurrent offers from the
    /// same maker.
    pub offer_id: u64,
    /// Identity of the party that created the offer; exclusive owner of
    /// refund rights and beneficiary of the counter-asset.
    pub maker: u64,
    /// Identifier of the offered asset, held in the vault.
    pub asset_a_id: u64,
    /// Identifier of the expected counter-asset; differs from `asset_a_id`.
    pub asset_b_id: u64,
    /// Strictly positive quantity of asset B the maker demands; fixed at
    /// creation, immutable thereafter.
    pub expected_amount_b: u64,
    /// Derivation parameter that lets anyone re-derive the vault's
    /// controlling authority without any stored secret.
    pub custody_authority_proof: u8,
}

/// The identity that controls an offer's custody vault: a pure value
/// derivation from the record's own identity and its stored salt. No
/// private key exists for it, so no party can sign for the vault; only
/// the transition handlers move its funds.
pub open spec fn custody_authority(maker: u64, offer_id: u64, salt: u8) -> u64 {
    (maker ^ (offer_id ^ CUSTODY_DOMAIN)) ^ (salt as u64)
}

/// Executable counterpart of [`custody_authority`].
pub fn derive_custody_authority(maker: u64, offer_id: u64, salt: u8) -> (r: u64)
    ensures
        r == custody_authority(maker, offer_id, salt),
{
    (maker ^ (offer_id ^ CUSTODY_DOMAIN)) ^ (salt as u64)
}

} // verus!
