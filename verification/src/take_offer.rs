//! FulfillOffer: a taker pays the demanded asset B to the maker and
//! receives the custodied asset A; the record and its vault are
//! destroyed in the same atomic step.

use vstd::prelude::*;

use crate::state::TokenAccount;
use crate::book::EscrowBook;
use crate::book::OpenOffer;
use crate::errors::EscrowError;

verus! {

/// The parties and accounts a FulfillOffer call touches. The record is
/// addressed by its deterministic key (maker, offer_id); the two
/// on-demand accounts (the taker's asset-A account, the maker's asset-B
/// account) are provisioned by the host before the call and may hold a
/// zero balance.
pub struct TakeOffer {
    /// The caller: the taker.
    pub taker: u64,
    /// The maker named by the targeted record's key.
    pub maker: u64,
    /// The caller-chosen id in the targeted record's key.
    pub offer_id: u64,
    /// The taker's asset-A holding account, to be credited.
    pub taker_account_a: TokenAccount,
    /// The taker's asset-B holding account, to be debited.
    pub taker_account_b: TokenAccount,
    /// The maker's asset-B holding account, to be credited.
    pub maker_account_b: TokenAccount,
}

/// The supplied holding accounts belong to the parties and assets the
/// record names.
pub open spec fn take_wiring_ok(ctx: TakeOffer, off: OpenOffer) -> bool {
    &&& ctx.taker_account_a.owner == ctx.taker
    &&& ctx.taker_account_a.asset == off.escrow.asset_a_id
    &&& ctx.taker_account_b.owner == ctx.taker
    &&& ctx.taker_account_b.asset == off.escrow.asset_b_id
    &&& ctx.maker_account_b.owner == ctx.maker
    &&& ctx.maker_account_b.asset == off.escrow.asset_b_id
}

/// Every precondition of FulfillOffer at once, given the targeted
/// record's map: the record exists, the accounts are wired to it, and
/// the taker's asset-B balance strictly exceeds the demanded amount.
pub open spec fn take_allowed(ctx: TakeOffer, m: Map<(u64, u64), OpenOffer>) -> bool {
    &&& m.contains_key((ctx.maker, ctx.offer_id))
    &&& take_wiring_ok(ctx, m[(ctx.maker, ctx.offer_id)])
    &&& ctx.taker_account_b.amount > m[(ctx.maker, ctx.offer_id)].escrow.expected_amount_b
}

/// The credited balances fit in their accounts: a machine limit, not a
/// rule of the escrow.
pub open spec fn take_fits(ctx: TakeOffer, m: Map<(u64, u64), OpenOffer>) -> bool {
    m.contains_key((ctx.maker, ctx.offer_id)) ==> ({
        let off = m[(ctx.maker, ctx.offer_id)];
        &&& ctx.taker_account_a.amount + off.vault.amount <= u64::MAX
        &&& ctx.maker_account_b.amount + off.escrow.expected_amount_b <= u64::MAX
    })
}

/// Fulfills an offer atomically: drains the vault's full balance to the
/// taker's asset-A account under the derived custody authority, closes
/// the vault, moves exactly the demanded amount of asset B from the
/// taker to the maker, and destroys the record — all four effects or
/// none. The taker cannot receive asset A without the maker receiving
/// asset B in the same call. No balance other than the three stated ones
/// changes, and no other record is touched.
pub fn take_offer(ctx: &mut TakeOffer, book: &mut EscrowBook) -> (r: Result<(), EscrowError>)
    requires
        old(book).wf(),
        take_fits(*old(ctx), old(book)@),
    ensures
        final(book).wf(),
        r is Ok <==> take_allowed(*old(ctx), old(book)@),
        !old(book)@.contains_key((old(ctx).maker, old(ctx).offer_id)) ==> r == Err::<
            (),
            EscrowError,
        >(EscrowError::RecordNotFound),
        old(book)@.contains_key((old(ctx).maker, old(ctx).offer_id)) && !take_wiring_ok(
            *old(ctx),
            old(book)@[(old(ctx).maker, old(ctx).offer_id)],
        ) ==> r == Err::<(), EscrowError>(EscrowError::Unauthorized),
        old(book)@.contains_key((old(ctx).maker, old(ctx).offer_id)) && take_wiring_ok(
            *old(ctx),
            old(book)@[(old(ctx).maker, old(ctx).offer_id)],
        ) && old(ctx).taker_account_b.amount <= old(book)@[(
            old(ctx).maker,
            old(ctx).offer_id,
        )].escrow.expected_amount_b ==> r == Err::<(), EscrowError>(
            EscrowError::InsufficientBalance,
        ),
        r is Err ==> *final(ctx) == *old(ctx) && *final(book) == *old(book),
        r is Ok ==> ({
            let off = old(book)@[(old(ctx).maker, old(ctx).offer_id)];
            &&& final(ctx).taker_account_a.amount == old(ctx).taker_account_a.amount
                + off.vault.amount
            &&& final(ctx).taker_account_b.amount == old(ctx).taker_account_b.amount
                - off.escrow.expected_amount_b
            &&& final(ctx).maker_account_b.amount == old(ctx).maker_account_b.amount
                + off.escrow.expected_amount_b
        }),
        r is Ok ==> final(ctx).taker == old(ctx).taker && final(ctx).maker == old(ctx).maker
            && final(ctx).offer_id == old(ctx).offer_id && final(ctx).taker_account_a.owner == old(ctx).taker_account_a.owner && final(ctx).taker_account_a.asset == old(ctx).taker_account_a.asset && final(ctx).taker_account_b.owner == old(ctx).taker_account_b.owner && final(ctx).taker_account_b.asset == old(ctx).taker_account_b.asset && final(ctx).maker_account_b.owner == old(ctx).maker_account_b.owner && final(ctx).maker_account_b.asset == old(ctx).maker_account_b.asset,
        r is Ok ==> final(book)@ == old(book)@.remove((old(ctx).maker, old(ctx).offer_id)),
{
    let off = match book.lookup_offer(ctx.maker, ctx.offer_id) {
        Some(off) => off,
        None => {
            return Err(EscrowError::RecordNotFound);
        },
    };
    if !(ctx.taker_account_a.owner == ctx.taker && ctx.taker_account_a.asset
        == off.escrow.asset_a_id && ctx.taker_account_b.owner == ctx.taker
        && ctx.taker_account_b.asset == off.escrow.asset_b_id && ctx.maker_account_b.owner
        == ctx.maker && ctx.maker_account_b.asset == off.escrow.asset_b_id) {
        return Err(EscrowError::Unauthorized);
    }
    if ctx.taker_account_b.amount <= off.escrow.expected_amount_b {
        return Err(EscrowError::InsufficientBalance);
    }
    // all four effects of fulfillment, in one indivisible step:
    // 1. the vault's full balance goes to the taker, authorized by the
    //    derived custody authority, and the vault closes;
    let removed = book.remove_offer(ctx.maker, ctx.offer_id);
    ctx.taker_account_a.amount = ctx.taker_account_a.amount + removed.vault.amount;
    // 2. exactly the demanded amount of asset B goes from the taker to
    //    the maker, authorized by the taker;
    ctx.taker_account_b.amount = ctx.taker_account_b.amount - removed.escrow.expected_amount_b;
    ctx.maker_account_b.amount = ctx.maker_account_b.amount + removed.escrow.expected_amount_b;
    // 3. the record is already destroyed with its vault, above.
    Ok(())
}

} // verus!
