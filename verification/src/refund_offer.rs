//! CancelOffer: the maker reclaims the deposit before the offer is
//! taken; the record and its vault are destroyed in the same atomic
//! step.

use vstd::prelude::*;

use crate::book::EscrowBook;
use crate::book::OpenOffer;
use crate::errors::EscrowError;
use crate::state::TokenAccount;

verus! {

/// The parties and accounts a CancelOffer call touches. The record is
/// addressed by its deterministic key (maker, offer_id); `caller` is the
/// identity that signed the call and must match the record's stored
/// maker.
pub struct RefundOffer {
    /// The identity invoking the cancellation.
    pub caller: u64,
    /// The maker named by the targeted record's key.
    pub maker: u64,
    /// The caller-chosen id in the targeted record's key.
    pub offer_id: u64,
    /// The maker's asset-A holding account, to be credited with the
    /// refund.
    pub maker_account_a: TokenAccount,
}

/// The supplied holding account really is the maker's account for the
/// offered asset.
pub open spec fn refund_wiring_ok(ctx: RefundOffer, off: OpenOffer) -> bool {
    &&& ctx.maker_account_a.owner == ctx.maker
    &&& ctx.maker_account_a.asset == off.escrow.asset_a_id
}

/// Every precondition of CancelOffer at once, given the targeted
/// record's map: the record exists, the caller is its stored maker, and
/// the refund account is wired to it. No amount check: the vault's
/// balance is definitionally the amount originally deposited, since no
/// other path can withdraw from it.
pub open spec fn refund_allowed(ctx: RefundOffer, m: Map<(u64, u64), OpenOffer>) -> bool {
    &&& m.contains_key((ctx.maker, ctx.offer_id))
    &&& ctx.caller == m[(ctx.maker, ctx.offer_id)].escrow.maker
    &&& refund_wiring_ok(ctx, m[(ctx.maker, ctx.offer_id)])
}

/// The refunded balance fits in the maker's account: a machine limit,
/// not a rule of the escrow.
pub open spec fn refund_fits(ctx: RefundOffer, m: Map<(u64, u64), OpenOffer>) -> bool {
    m.contains_key((ctx.maker, ctx.offer_id)) ==> ctx.maker_account_a.amount + m[(
        ctx.maker,
        ctx.offer_id,
    )].vault.amount <= u64::MAX
}

/// Cancels an offer atomically: the vault's full balance — exactly the
/// amount deposited at creation — returns to the maker's asset-A account
/// under the derived custody authority, the vault closes, and the record
/// is destroyed; all of it or none. Any caller other than the stored
/// maker is refused with `Unauthorized` and changes nothing.
pub fn refund_offer(ctx: &mut RefundOffer, book: &mut EscrowBook) -> (r: Result<(), EscrowError>)
    requires
        old(book).wf(),
        refund_fits(*old(ctx), old(book)@),
    ensures
        final(book).wf(),
        r is Ok <==> refund_allowed(*old(ctx), old(book)@),
        !old(book)@.contains_key((old(ctx).maker, old(ctx).offer_id)) ==> r == Err::<
            (),
            EscrowError,
        >(EscrowError::RecordNotFound),
        old(book)@.contains_key((old(ctx).maker, old(ctx).offer_id)) && old(ctx).caller != old(book)@[(old(ctx).maker, old(ctx).offer_id)].escrow.maker ==> r == Err::<(), EscrowError>(
            EscrowError::Unauthorized,
        ),
        old(book)@.contains_key((old(ctx).maker, old(ctx).offer_id)) && !refund_wiring_ok(
            *old(ctx),
            old(book)@[(old(ctx).maker, old(ctx).offer_id)],
        ) ==> r == Err::<(), EscrowError>(EscrowError::Unauthorized),
        r is Err ==> *final(ctx) == *old(ctx) && *final(book) == *old(book),
        r is Ok ==> final(ctx).maker_account_a.amount == old(ctx).maker_account_a.amount + old(book)@[(old(ctx).maker, old(ctx).offer_id)].vault.amount,
        r is Ok ==> final(ctx).caller == old(ctx).caller && final(ctx).maker == old(ctx).maker
            && final(ctx).offer_id == old(ctx).offer_id && final(ctx).maker_account_a.owner == old(ctx).maker_account_a.owner && final(ctx).maker_account_a.asset == old(ctx).maker_account_a.asset,
        r is Ok ==> final(book)@ == old(book)@.remove((old(ctx).maker, old(ctx).offer_id)),
{
    let off = match book.lookup_offer(ctx.maker, ctx.offer_id) {
        Some(off) => off,
        None => {
            return Err(EscrowError::RecordNotFound);
        },
    };
    if ctx.caller != off.escrow.maker {
        return Err(EscrowError::Unauthorized);
    }
    if !(ctx.maker_account_a.owner == ctx.maker && ctx.maker_account_a.asset
        == off.escrow.asset_a_id) {
        return Err(EscrowError::Unauthorized);
    }
    // the vault's full balance returns to the maker, the vault closes,
    // and the record is destroyed, in one indivisible step
    let removed = book.remove_offer(ctx.maker, ctx.offer_id);
    ctx.maker_account_a.amount = ctx.maker_account_a.amount + removed.vault.amount;
    Ok(())
}

} // verus!
