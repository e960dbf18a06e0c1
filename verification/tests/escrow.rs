use themis_escrow::derive_custody_authority;
use themis_escrow::make_offer;
use themis_escrow::refund_offer;
use themis_escrow::take_offer;
use themis_escrow::EscrowBook;
use themis_escrow::EscrowError;
use themis_escrow::MakeOffer;
use themis_escrow::RefundOffer;
use themis_escrow::TakeOffer;
use themis_escrow::TokenAccount;

const MAKER: u64 = 7;
const TAKER: u64 = 9;
const ASSET_A: u64 = 1;
const ASSET_B: u64 = 2;
const SALT: u8 = 3;

fn acct(owner: u64, asset: u64, amount: u64) -> TokenAccount {
    TokenAccount {
        owner,
        asset,
        amount,
    }
}

fn make_ctx(balance_a: u64) -> MakeOffer {
    MakeOffer {
        maker: MAKER,
        asset_a_id: ASSET_A,
        asset_b_id: ASSET_B,
        maker_account_a: acct(MAKER, ASSET_A, balance_a),
        custody_authority_proof: SALT,
    }
}

fn take_ctx(offer_id: u64, taker_a: u64, taker_b: u64, maker_b: u64) -> TakeOffer {
    TakeOffer {
        taker: TAKER,
        maker: MAKER,
        offer_id,
        taker_account_a: acct(TAKER, ASSET_A, taker_a),
        taker_account_b: acct(TAKER, ASSET_B, taker_b),
        maker_account_b: acct(MAKER, ASSET_B, maker_b),
    }
}

fn refund_ctx(caller: u64, offer_id: u64, balance_a: u64) -> RefundOffer {
    RefundOffer {
        caller,
        maker: MAKER,
        offer_id,
        maker_account_a: acct(MAKER, ASSET_A, balance_a),
    }
}

/// Opens the standard offer: id 1, 100 units of A for 50 units of B,
/// from a maker holding 1000 A.
fn standard_book() -> (EscrowBook, MakeOffer) {
    let mut book = EscrowBook::new();
    let mut ctx = make_ctx(1000);
    let r = make_offer(&mut ctx, &mut book, 1, 100, 50);
    assert_eq!(r, Ok(()));
    (book, ctx)
}

#[test]
fn create_offer_records_terms() {
    let (book, ctx) = standard_book();
    assert!(book.contains(MAKER, 1));
    let off = book.lookup_offer(MAKER, 1).unwrap();
    assert_eq!(off.escrow.offer_id, 1);
    assert_eq!(off.escrow.maker, MAKER);
    assert_eq!(off.escrow.asset_a_id, ASSET_A);
    assert_eq!(off.escrow.asset_b_id, ASSET_B);
    assert_eq!(off.escrow.expected_amount_b, 50);
    assert_eq!(off.escrow.custody_authority_proof, SALT);
    assert_eq!(off.vault.amount, 100);
    assert_eq!(off.vault.asset, ASSET_A);
    assert_eq!(ctx.maker_account_a.amount, 900);
}

#[test]
fn vault_owned_by_derived_authority() {
    let (book, _) = standard_book();
    let off = book.lookup_offer(MAKER, 1).unwrap();
    assert_eq!(off.vault.owner, derive_custody_authority(MAKER, 1, SALT));
    // the derivation is deterministic: anyone can recompute it
    assert_eq!(
        derive_custody_authority(MAKER, 1, SALT),
        derive_custody_authority(MAKER, 1, SALT)
    );
    assert_ne!(
        derive_custody_authority(MAKER, 1, SALT),
        derive_custody_authority(MAKER, 2, SALT)
    );
}

#[test]
fn fulfill_swaps_assets() {
    let (mut book, _) = standard_book();
    let mut ctx = take_ctx(1, 0, 60, 0);
    let r = take_offer(&mut ctx, &mut book);
    assert_eq!(r, Ok(()));
    assert_eq!(ctx.taker_account_a.amount, 100);
    assert_eq!(ctx.taker_account_b.amount, 10);
    assert_eq!(ctx.maker_account_b.amount, 50);
    assert!(!book.contains(MAKER, 1));
    assert!(book.lookup_offer(MAKER, 1).is_none());
}

#[test]
fn fulfill_conserves_balances_exactly() {
    let (mut book, _) = standard_book();
    let mut ctx = take_ctx(1, 17, 60, 5);
    let r = take_offer(&mut ctx, &mut book);
    assert_eq!(r, Ok(()));
    // taker's asset-A balance increases by exactly the vault's pre-call
    // balance
    assert_eq!(ctx.taker_account_a.amount, 17 + 100);
    // maker's asset-B balance increases by exactly expected_amount_b,
    // debited from the taker: asset B is conserved across the two parties
    assert_eq!(ctx.maker_account_b.amount, 5 + 50);
    assert_eq!(ctx.taker_account_b.amount, 60 - 50);
    assert_eq!(ctx.taker_account_b.amount + ctx.maker_account_b.amount, 60 + 5);
    // no other account fields change
    assert_eq!(ctx.taker_account_a.owner, TAKER);
    assert_eq!(ctx.taker_account_a.asset, ASSET_A);
    assert_eq!(ctx.maker_account_b.owner, MAKER);
    assert_eq!(ctx.maker_account_b.asset, ASSET_B);
}

#[test]
fn fulfill_twice_second_not_found() {
    let (mut book, _) = standard_book();
    let mut first = take_ctx(1, 0, 60, 0);
    assert_eq!(take_offer(&mut first, &mut book), Ok(()));
    let mut second = take_ctx(1, 100, 10, 50);
    let before = second.taker_account_a;
    let r = take_offer(&mut second, &mut book);
    assert_eq!(r, Err(EscrowError::RecordNotFound));
    // the losing call changes nothing
    assert_eq!(second.taker_account_a, before);
    assert_eq!(second.taker_account_b.amount, 10);
    assert_eq!(second.maker_account_b.amount, 50);
}

#[test]
fn cancel_after_fulfill_not_found() {
    let (mut book, _) = standard_book();
    let mut take = take_ctx(1, 0, 60, 0);
    assert_eq!(take_offer(&mut take, &mut book), Ok(()));
    let mut refund = refund_ctx(MAKER, 1, 900);
    let r = refund_offer(&mut refund, &mut book);
    assert_eq!(r, Err(EscrowError::RecordNotFound));
    assert_eq!(refund.maker_account_a.amount, 900);
}

#[test]
fn cancel_restores_maker_balance() {
    let mut book = EscrowBook::new();
    let mut ctx = make_ctx(1000);
    assert_eq!(make_offer(&mut ctx, &mut book, 2, 250, 80), Ok(()));
    assert_eq!(ctx.maker_account_a.amount, 750);
    let mut refund = RefundOffer {
        caller: MAKER,
        maker: MAKER,
        offer_id: 2,
        maker_account_a: ctx.maker_account_a,
    };
    assert_eq!(refund_offer(&mut refund, &mut book), Ok(()));
    // the balance from before the offer is restored exactly
    assert_eq!(refund.maker_account_a.amount, 1000);
    assert!(!book.contains(MAKER, 2));
    assert!(book.lookup_offer(MAKER, 2).is_none());
}

#[test]
fn cancel_by_stranger_unauthorized() {
    let (mut book, _) = standard_book();
    let mut refund = refund_ctx(TAKER, 1, 42);
    let r = refund_offer(&mut refund, &mut book);
    assert_eq!(r, Err(EscrowError::Unauthorized));
    // all state is left unchanged: the record stays open with its terms
    assert_eq!(refund.maker_account_a.amount, 42);
    let off = book.lookup_offer(MAKER, 1).unwrap();
    assert_eq!(off.vault.amount, 100);
    assert_eq!(off.escrow.expected_amount_b, 50);
}

#[test]
fn cancel_wrong_account_wiring_unauthorized() {
    let (mut book, _) = standard_book();
    // right caller, but the refund account holds asset B, not asset A
    let mut refund = RefundOffer {
        caller: MAKER,
        maker: MAKER,
        offer_id: 1,
        maker_account_a: acct(MAKER, ASSET_B, 0),
    };
    assert_eq!(refund_offer(&mut refund, &mut book), Err(EscrowError::Unauthorized));
    assert!(book.contains(MAKER, 1));
}

#[test]
fn cancel_missing_offer_not_found() {
    let mut book = EscrowBook::new();
    let mut refund = refund_ctx(MAKER, 5, 0);
    assert_eq!(refund_offer(&mut refund, &mut book), Err(EscrowError::RecordNotFound));
}

#[test]
fn create_zero_offered_amount_rejected() {
    let mut book = EscrowBook::new();
    let mut ctx = make_ctx(1000);
    let r = make_offer(&mut ctx, &mut book, 1, 0, 50);
    assert_eq!(r, Err(EscrowError::InvalidAmount));
    // no record or vault is created, no balance moves
    assert!(!book.contains(MAKER, 1));
    assert_eq!(ctx.maker_account_a.amount, 1000);
}

#[test]
fn create_zero_expected_amount_rejected() {
    let mut book = EscrowBook::new();
    let mut ctx = make_ctx(1000);
    assert_eq!(make_offer(&mut ctx, &mut book, 1, 100, 0), Err(EscrowError::InvalidAmount));
    assert!(!book.contains(MAKER, 1));
    assert_eq!(ctx.maker_account_a.amount, 1000);
}

#[test]
fn create_identical_assets_rejected() {
    let mut book = EscrowBook::new();
    let mut ctx = MakeOffer {
        maker: MAKER,
        asset_a_id: ASSET_A,
        asset_b_id: ASSET_A,
        maker_account_a: acct(MAKER, ASSET_A, 1000),
        custody_authority_proof: SALT,
    };
    assert_eq!(make_offer(&mut ctx, &mut book, 1, 100, 50), Err(EscrowError::InvalidAssetPair));
    assert!(!book.contains(MAKER, 1));
    assert_eq!(ctx.maker_account_a.amount, 1000);
}

#[test]
fn create_balance_must_strictly_exceed_deposit() {
    let mut book = EscrowBook::new();
    // equality is not enough: the balance must exceed the deposit
    let mut at_par = make_ctx(100);
    assert_eq!(make_offer(&mut at_par, &mut book, 1, 100, 50), Err(EscrowError::InsufficientBalance));
    assert!(!book.contains(MAKER, 1));
    let mut above = make_ctx(101);
    assert_eq!(make_offer(&mut above, &mut book, 1, 100, 50), Ok(()));
    assert_eq!(above.maker_account_a.amount, 1);
}

#[test]
fn create_wrong_account_wiring_unauthorized() {
    let mut book = EscrowBook::new();
    // the supplied holding account belongs to someone else
    let mut ctx = MakeOffer {
        maker: MAKER,
        asset_a_id: ASSET_A,
        asset_b_id: ASSET_B,
        maker_account_a: acct(TAKER, ASSET_A, 1000),
        custody_authority_proof: SALT,
    };
    assert_eq!(make_offer(&mut ctx, &mut book, 1, 100, 50), Err(EscrowError::Unauthorized));
    assert!(!book.contains(MAKER, 1));
}

#[test]
fn fulfill_balance_must_strictly_exceed_payment() {
    let (mut book, _) = standard_book();
    // a balance equal to the demanded amount is refused
    let mut at_par = take_ctx(1, 0, 50, 0);
    assert_eq!(take_offer(&mut at_par, &mut book), Err(EscrowError::InsufficientBalance));
    assert_eq!(at_par.taker_account_b.amount, 50);
    assert!(book.contains(MAKER, 1));
    // one unit above the demanded amount passes
    let mut above = take_ctx(1, 0, 51, 0);
    assert_eq!(take_offer(&mut above, &mut book), Ok(()));
    assert_eq!(above.taker_account_b.amount, 1);
}

#[test]
fn fulfill_missing_offer_not_found() {
    let mut book = EscrowBook::new();
    let mut ctx = take_ctx(4, 0, 60, 0);
    assert_eq!(take_offer(&mut ctx, &mut book), Err(EscrowError::RecordNotFound));
}

#[test]
fn fulfill_wrong_payment_asset_unauthorized() {
    let (mut book, _) = standard_book();
    // the taker pays with the wrong asset: the stored asset_b_id does not
    // match the account the taker supplied
    let mut ctx = TakeOffer {
        taker: TAKER,
        maker: MAKER,
        offer_id: 1,
        taker_account_a: acct(TAKER, ASSET_A, 0),
        taker_account_b: acct(TAKER, ASSET_A, 60),
        maker_account_b: acct(MAKER, ASSET_B, 0),
    };
    assert_eq!(take_offer(&mut ctx, &mut book), Err(EscrowError::Unauthorized));
    assert!(book.contains(MAKER, 1));
    assert_eq!(ctx.taker_account_b.amount, 60);
}

#[test]
fn fulfill_foreign_account_unauthorized() {
    let (mut book, _) = standard_book();
    // the asset-A account to be credited is not the taker's
    let mut ctx = TakeOffer {
        taker: TAKER,
        maker: MAKER,
        offer_id: 1,
        taker_account_a: acct(MAKER, ASSET_A, 0),
        taker_account_b: acct(TAKER, ASSET_B, 60),
        maker_account_b: acct(MAKER, ASSET_B, 0),
    };
    assert_eq!(take_offer(&mut ctx, &mut book), Err(EscrowError::Unauthorized));
    assert!(book.contains(MAKER, 1));
}

#[test]
fn refund_is_exact_for_each_offer() {
    let mut book = EscrowBook::new();
    let mut ctx = make_ctx(1000);
    assert_eq!(make_offer(&mut ctx, &mut book, 1, 123, 9), Ok(()));
    assert_eq!(make_offer(&mut ctx, &mut book, 2, 456, 9), Ok(()));
    assert_eq!(ctx.maker_account_a.amount, 1000 - 123 - 456);
    let mut refund = RefundOffer {
        caller: MAKER,
        maker: MAKER,
        offer_id: 1,
        maker_account_a: ctx.maker_account_a,
    };
    assert_eq!(refund_offer(&mut refund, &mut book), Ok(()));
    // exactly the first deposit comes back, not the second
    assert_eq!(refund.maker_account_a.amount, 1000 - 456);
    assert!(!book.contains(MAKER, 1));
    assert!(book.contains(MAKER, 2));
}

#[test]
fn other_offers_keep_their_terms() {
    let mut book = EscrowBook::new();
    let mut ctx = make_ctx(1000);
    assert_eq!(make_offer(&mut ctx, &mut book, 1, 100, 50), Ok(()));
    assert_eq!(make_offer(&mut ctx, &mut book, 2, 200, 75), Ok(()));
    let before = book.lookup_offer(MAKER, 2).unwrap();
    let mut take = take_ctx(1, 0, 60, 0);
    assert_eq!(take_offer(&mut take, &mut book), Ok(()));
    // fulfilling offer 1 leaves offer 2 exactly as recorded at creation
    let after = book.lookup_offer(MAKER, 2).unwrap();
    assert_eq!(after, before);
    assert_eq!(after.escrow.expected_amount_b, 75);
    assert_eq!(after.vault.amount, 200);
}

#[test]
fn largest_amounts_round_trip() {
    let mut book = EscrowBook::new();
    let mut ctx = make_ctx(u64::MAX);
    assert_eq!(make_offer(&mut ctx, &mut book, 1, u64::MAX - 1, 1), Ok(()));
    assert_eq!(ctx.maker_account_a.amount, 1);
    assert_eq!(book.lookup_offer(MAKER, 1).unwrap().vault.amount, u64::MAX - 1);
    let mut refund = RefundOffer {
        caller: MAKER,
        maker: MAKER,
        offer_id: 1,
        maker_account_a: ctx.maker_account_a,
    };
    assert_eq!(refund_offer(&mut refund, &mut book), Ok(()));
    assert_eq!(refund.maker_account_a.amount, u64::MAX);
}

#[test]
fn offers_from_same_maker_are_independent() {
    let mut book = EscrowBook::new();
    let mut ctx = make_ctx(1000);
    assert_eq!(make_offer(&mut ctx, &mut book, 1, 100, 50), Ok(()));
    assert_eq!(make_offer(&mut ctx, &mut book, 2, 300, 70), Ok(()));
    assert!(book.contains(MAKER, 1));
    assert!(book.contains(MAKER, 2));
    assert!(!book.contains(MAKER, 3));
    assert_eq!(book.lookup_offer(MAKER, 1).unwrap().vault.amount, 100);
    assert_eq!(book.lookup_offer(MAKER, 2).unwrap().vault.amount, 300);
}
