//! CreateOffer: a maker opens an offer, depositing asset A into a fresh
//! custody vault and recording the quantity of asset B demanded.

use vstd::prelude::*;

use crate::book::key_of;
use crate::book::EscrowBook;
use crate::book::OpenOffer;
use crate::errors::EscrowError;
use crate::state::custody_authority;
use crate::state::derive_custody_authority;
use crate::state::Escrow;
use crate::state::TokenAccount;

verus! {

/// The parties and accounts a CreateOffer call touches: the prospective
/// maker, the two asset identifiers, the maker's existing asset-A holding
/// account, and the host-supplied derivation parameter for the vault's
/// custody authority.
pub struct MakeOffer {
    /// The caller: the prospective maker.
    pub maker: u64,
    /// Identifier of the asset to be offered and custodied.
    pub asset_a_id: u64,
    /// Identifier of the counter-asset the maker demands.
    pub asset_b_id: u64,
    /// The maker's asset-A holding account, to be debited.
    pub maker_account_a: TokenAccount,
    /// Derivation parameter for the vault's custody authority.
    pub custody_authority_proof: u8,
}

/// The supplied holding account really is the caller's account for the
/// offered asset.
pub open spec fn make_wiring_ok(ctx: MakeOffer) -> bool {
    &&& ctx.maker_account_a.owner == ctx.maker
    &&& ctx.maker_account_a.asset == ctx.asset_a_id
}

/// Every precondition of CreateOffer at once: the account wiring, the two
/// strictly positive amounts, distinct assets, and the maker's balance
/// strictly exceeding the deposit.
pub open spec fn make_allowed(
    ctx: MakeOffer,
    offered_amount_a: u64,
    expected_amount_b: u64,
) -> bool {
    &&& make_wiring_ok(ctx)
    &&& offered_amount_a > 0
    &&& expected_amount_b > 0
    &&& ctx.asset_a_id != ctx.asset_b_id
    &&& ctx.maker_account_a.amount > offered_amount_a
}

/// The record and vault a successful CreateOffer persists: the record
/// carries the supplied terms verbatim, and the vault — owned by the
/// derived custody authority, never by a private key — holds exactly the
/// offered amount of asset A.
pub open spec fn made_offer(
    ctx: MakeOffer,
    offer_id: u64,
    offered_amount_a: u64,
    expected_amount_b: u64,
) -> OpenOffer {
    OpenOffer {
        escrow: Escrow {
            offer_id,
            maker: ctx.maker,
            asset_a_id: ctx.asset_a_id,
            asset_b_id: ctx.asset_b_id,
            expected_amount_b,
            custody_authority_proof: ctx.custody_authority_proof,
        },
        vault: TokenAccount {
            owner: custody_authority(ctx.maker, offer_id, ctx.custody_authority_proof),
            asset: ctx.asset_a_id,
            amount: offered_amount_a,
        },
    }
}

/// Opens an offer: validates the terms, debits the maker's asset-A
/// account by exactly `offered_amount_a`, and atomically creates the
/// escrow record together with its funded custody vault. On any failure
/// nothing changes. The host's record store refuses to create a key that
/// already exists, which the precondition reflects.
pub fn make_offer(
    ctx: &mut MakeOffer,
    book: &mut EscrowBook,
    offer_id: u64,
    offered_amount_a: u64,
    expected_amount_b: u64,
) -> (r: Result<(), EscrowError>)
    requires
        old(book).wf(),
        !old(book)@.contains_key((old(ctx).maker, offer_id)),
    ensures
        final(book).wf(),
        r is Ok <==> make_allowed(*old(ctx), offered_amount_a, expected_amount_b),
        !make_wiring_ok(*old(ctx)) ==> r == Err::<(), EscrowError>(EscrowError::Unauthorized),
        make_wiring_ok(*old(ctx)) && (offered_amount_a == 0 || expected_amount_b == 0) ==> r
            == Err::<(), EscrowError>(EscrowError::InvalidAmount),
        make_wiring_ok(*old(ctx)) && offered_amount_a > 0 && expected_amount_b > 0 && old(ctx).asset_a_id == old(ctx).asset_b_id ==> r == Err::<(), EscrowError>(
            EscrowError::InvalidAssetPair,
        ),
        make_wiring_ok(*old(ctx)) && offered_amount_a > 0 && expected_amount_b > 0 && old(ctx).asset_a_id != old(ctx).asset_b_id && old(ctx).maker_account_a.amount
            <= offered_amount_a ==> r == Err::<(), EscrowError>(EscrowError::InsufficientBalance),
        r is Err ==> *final(ctx) == *old(ctx) && *final(book) == *old(book),
        r is Ok ==> final(ctx).maker_account_a.amount == old(ctx).maker_account_a.amount
            - offered_amount_a,
        r is Ok ==> final(ctx).maker == old(ctx).maker && final(ctx).asset_a_id == old(ctx).asset_a_id && final(ctx).asset_b_id == old(ctx).asset_b_id && final(ctx).maker_account_a.owner == old(ctx).maker_account_a.owner && final(ctx).maker_account_a.asset == old(ctx).maker_account_a.asset && final(ctx).custody_authority_proof == old(ctx).custody_authority_proof,
        r is Ok ==> final(book)@ == old(book)@.insert(
            (old(ctx).maker, offer_id),
            made_offer(*old(ctx), offer_id, offered_amount_a, expected_amount_b),
        ),
{
    if !(ctx.maker_account_a.owner == ctx.maker && ctx.maker_account_a.asset == ctx.asset_a_id) {
        return Err(EscrowError::Unauthorized);
    }
    if offered_amount_a == 0 || expected_amount_b == 0 {
        return Err(EscrowError::InvalidAmount);
    }
    if ctx.asset_a_id == ctx.asset_b_id {
        return Err(EscrowError::InvalidAssetPair);
    }
    if ctx.maker_account_a.amount <= offered_amount_a {
        return Err(EscrowError::InsufficientBalance);
    }
    // transfer the deposit from the maker's holding account into the
    // vault of the new record, then persist both at once
    let authority = derive_custody_authority(ctx.maker, offer_id, ctx.custody_authority_proof);
    ctx.maker_account_a.amount = ctx.maker_account_a.amount - offered_amount_a;
    let off = OpenOffer {
        escrow: Escrow {
            offer_id,
            maker: ctx.maker,
            asset_a_id: ctx.asset_a_id,
            asset_b_id: ctx.asset_b_id,
            expected_amount_b,
            custody_authority_proof: ctx.custody_authority_proof,
        },
        vault: TokenAccount { owner: authority, asset: ctx.asset_a_id, amount: offered_amount_a },
    };
    proof {
        assert(key_of(off) == (old(ctx).maker, offer_id));
        assert(off == made_offer(*old(ctx), offer_id, offered_amount_a, expected_amount_b));
    }
    book.insert_offer(off);
    Ok(())
}

} // verus!
