//! The book of open offers: the persistent keyed-record store.
//!
//! Exactly one record exists per (maker, offer id) pair while an offer is
//! open; the record and its custody vault are stored together, created
//! together, and destroyed together, so the vault never outlives its
//! record and never exists without one. The book's mathematical view is a
//! map from the storage key to the stored offer.

use vstd::prelude::*;

use crate::state::custody_authority;
use crate::state::Escrow;
use crate::state::TokenAccount;

verus! {

/// One open offer as stored in the book: the escrow record together with
/// its custody vault.
#[derive(Clone, Copy, Debug, PartialEq, Eq, Structural)]
pub struct OpenOffer {
    /// The persistent escrow record.
    pub escrow: Escrow,
    /// The deposit-holding account, owned by the record's derived
    /// authority and holding the offered amount of asset A.
    pub vault: TokenAccount,
}

/// The deterministic storage key of an offer: any party can locate a
/// specific offer from the maker's identity and the caller-chosen id.
pub open spec fn key_of(off: OpenOffer) -> (u64, u64) {
    (off.escrow.maker, off.escrow.offer_id)
}

/// What holds of every open offer for as long as it exists: the demanded
/// amount is strictly positive, the two assets differ, and the vault is
/// owned by the derived custody authority, holds the offered asset, and
/// holds a strictly positive balance.
pub open spec fn offer_valid(off: OpenOffer) -> bool {
    &&& off.escrow.expected_amount_b > 0
    &&& off.escrow.asset_a_id != off.escrow.asset_b_id
    &&& off.vault.owner == custody_authority(
        off.escrow.maker,
        off.escrow.offer_id,
        off.escrow.custody_authority_proof,
    )
    &&& off.vault.asset == off.escrow.asset_a_id
    &&& off.vault.amount > 0
}

/// Immutability of recorded terms: every transition either inserts a
/// fresh record under its own key, removes one record, or leaves the
/// book unchanged — exactly the three shapes the handlers' contracts
/// allow — and none of them rewrites a record that stays. So the terms
/// recorded at creation, `expected_amount_b` and the asset identifiers
/// among them, never change for the life of the record.
pub proof fn lemma_terms_immutable(
    before: Map<(u64, u64), OpenOffer>,
    after: Map<(u64, u64), OpenOffer>,
    touched: (u64, u64),
    off: OpenOffer,
    k: (u64, u64),
)
    requires
        after == before.insert(touched, off) || after == before.remove(touched) || after == before,
        before.contains_key(k),
        k != touched,
    ensures
        after.contains_key(k),
        after[k] == before[k],
{
}

/// The set of all open offers, addressed by their deterministic key.
pub struct EscrowBook {
    offers: Vec<OpenOffer>,
}

impl View for EscrowBook {
    type V = Map<(u64, u64), OpenOffer>;

    closed spec fn view(&self) -> Map<(u64, u64), OpenOffer> {
        Map::new(
            |k: (u64, u64)|
                exists|i: int|
                    0 <= i < self.offers@.len() && key_of(#[trigger] self.offers@[i]) == k,
            |k: (u64, u64)|
                self.offers@[choose|i: int|
                    0 <= i < self.offers@.len() && key_of(#[trigger] self.offers@[i]) == k],
        )
    }
}

impl EscrowBook {
    /// Well-formedness: no two stored offers share a key, and every
    /// stored offer satisfies [`offer_valid`]. Every transition handler
    /// preserves this.
    pub closed spec fn wf(&self) -> bool {
        &&& forall|i: int, j: int|
            0 <= i < j < self.offers@.len() ==> key_of(#[trigger] self.offers@[i]) != key_of(
                #[trigger] self.offers@[j],
            )
        &&& forall|i: int| 0 <= i < self.offers@.len() ==> offer_valid(#[trigger] self.offers@[i])
    }

    /// The stored offer at index `i` is the one the view holds under its
    /// key: key uniqueness makes the view's choice of index immaterial.
    proof fn lemma_key_at(&self, i: int)
        requires
            self.wf(),
            0 <= i < self.offers@.len(),
        ensures
            self@.contains_key(key_of(self.offers@[i])),
            self@[key_of(self.offers@[i])] == self.offers@[i],
    {
        let k = key_of(self.offers@[i]);
        assert(0 <= i < self.offers@.len() && key_of(self.offers@[i]) == k);
        assert(self@.contains_key(k));
        let j: int = choose|n: int|
            0 <= n < self.offers@.len() && key_of(#[trigger] self.offers@[n]) == k;
        if i < j {
            assert(key_of(self.offers@[i]) != key_of(self.offers@[j]));
        } else if j < i {
            assert(key_of(self.offers@[j]) != key_of(self.offers@[i]));
        }
    }

    /// The book's standing invariant, stated over its view: every open
    /// offer sits under its own key and satisfies [`offer_valid`] — in
    /// particular its recorded amounts and asset identifiers are the ones
    /// set at creation and the vault balance is strictly positive.
    pub proof fn lemma_entries_valid(&self)
        requires
            self.wf(),
        ensures
            forall|k: (u64, u64)| #[trigger]
                self@.contains_key(k) ==> key_of(self@[k]) == k && offer_valid(self@[k]),
    {
        assert forall|k: (u64, u64)| #[trigger] self@.contains_key(k) implies key_of(self@[k]) == k
            && offer_valid(self@[k]) by {
            let i: int = choose|n: int|
                0 <= n < self.offers@.len() && key_of(#[trigger] self.offers@[n]) == k;
            self.lemma_key_at(i);
        }
    }

    /// An empty book: no offer is open.
    pub fn new() -> (b: EscrowBook)
        ensures
            b.wf(),
            b@ == Map::<(u64, u64), OpenOffer>::empty(),
    {
        let b = EscrowBook { offers: Vec::new() };
        proof {
            assert(b@ =~= Map::<(u64, u64), OpenOffer>::empty());
        }
        b
    }

    /// Does an offer with this key exist?
    pub fn contains(&self, maker: u64, offer_id: u64) -> (r: bool)
        ensures
            r == self@.contains_key((maker, offer_id)),
    {
        match self.index_of(maker, offer_id) {
            Some(i) => {
                proof {
                    assert(self@.contains_key((maker, offer_id)));
                }
                true
            },
            None => false,
        }
    }

    /// Reads the offer stored under (maker, offer_id), if one is open.
    pub fn lookup_offer(&self, maker: u64, offer_id: u64) -> (r: Option<OpenOffer>)
        requires
            self.wf(),
        ensures
            self@.contains_key((maker, offer_id)) ==> r == Some(self@[(maker, offer_id)]),
            !self@.contains_key((maker, offer_id)) ==> r is None,
    {
        match self.index_of(maker, offer_id) {
            Some(i) => {
                proof {
                    self.lemma_key_at(i as int);
                }
                Some(self.offers[i])
            },
            None => None,
        }
    }

    /// Linear scan for the key; `None` means no stored offer has it.
    fn index_of(&self, maker: u64, offer_id: u64) -> (r: Option<usize>)
        ensures
            match r {
                Some(i) => i < self.offers@.len() && key_of(self.offers@[i as int]) == (
                    maker,
                    offer_id,
                ),
                None => !self@.contains_key((maker, offer_id)),
            },
    {
        let mut i: usize = 0;
        while i < self.offers.len()
            invariant
                i <= self.offers@.len(),
                forall|j: int|
                    0 <= j < i ==> key_of(#[trigger] self.offers@[j]) != (maker, offer_id),
            decreases self.offers@.len() - i,
        {
            if self.offers[i].escrow.maker == maker && self.offers[i].escrow.offer_id == offer_id {
                return Some(i);
            }
            i = i + 1;
        }
        None
    }

    /// Creates a record: stores a fresh offer under a key no open offer
    /// has. The rest of the book is untouched.
    pub(crate) fn insert_offer(&mut self, off: OpenOffer)
        requires
            old(self).wf(),
            offer_valid(off),
            !old(self)@.contains_key(key_of(off)),
        ensures
            final(self).wf(),
            final(self)@ == old(self)@.insert(key_of(off), off),
    {
        self.offers.push(off);
        proof {
            let k = key_of(off);
            let s1 = old(self).offers@;
            let s2 = self.offers@;
            assert(s2 == s1.push(off));
            assert forall|i: int| 0 <= i < s1.len() implies key_of(#[trigger] s1[i]) != k by {
                if key_of(s1[i]) == k {
                    assert(old(self)@.contains_key(k));
                }
            }
            assert(self.wf());
            assert forall|k2: (u64, u64)| #[trigger]
                self@.contains_key(k2) == old(self)@.insert(k, off).contains_key(k2) by {
                if k2 == k {
                    assert(key_of(s2[s1.len() as int]) == k2);
                    assert(self@.contains_key(k2));
                } else {
                    if self@.contains_key(k2) {
                        let i: int = choose|n: int|
                            0 <= n < s2.len() && key_of(#[trigger] s2[n]) == k2;
                        assert(i < s1.len());
                        assert(key_of(s1[i]) == k2);
                        assert(old(self)@.contains_key(k2));
                    }
                    if old(self)@.contains_key(k2) {
                        let i: int = choose|n: int|
                            0 <= n < s1.len() && key_of(#[trigger] s1[n]) == k2;
                        assert(key_of(s2[i]) == k2);
                        assert(self@.contains_key(k2));
                    }
                }
            }
            assert forall|k2: (u64, u64)|
                self@.contains_key(k2) implies #[trigger] self@[k2] == old(self)@.insert(
                k,
                off,
            )[k2] by {
                if k2 == k {
                    self.lemma_key_at(s1.len() as int);
                } else {
                    let i: int = choose|n: int| 0 <= n < s2.len() && key_of(#[trigger] s2[n]) == k2;
                    self.lemma_key_at(i);
                    assert(i < s1.len());
                    old(self).lemma_key_at(i);
                }
            }
            assert(self@ =~= old(self)@.insert(k, off));
        }
    }

    /// Destroys the record stored under (maker, offer_id) and hands back
    /// the offer it held, vault included. The rest of the book is
    /// untouched.
    pub(crate) fn remove_offer(&mut self, maker: u64, offer_id: u64) -> (r: OpenOffer)
        requires
            old(self).wf(),
            old(self)@.contains_key((maker, offer_id)),
        ensures
            final(self).wf(),
            r == old(self)@[(maker, offer_id)],
            key_of(r) == (maker, offer_id),
            offer_valid(r),
            final(self)@ == old(self)@.remove((maker, offer_id)),
    {
        let i = match self.index_of(maker, offer_id) {
            Some(i) => i,
            None => {
                proof {
                    assert(false);
                }
                0
            },
        };
        proof {
            self.lemma_key_at(i as int);
        }
        let r = self.offers.swap_remove(i);
        proof {
            let k = (maker, offer_id);
            let s1 = old(self).offers@;
            let s2 = self.offers@;
            let n = s1.len() as int;
            assert(s2 == s1.update(i as int, s1.last()).drop_last());
            assert(s2.len() == n - 1);
            assert(forall|j: int|
                0 <= j < s2.len() && j != i ==> #[trigger] s2[j] == s1[j]);
            assert(i < s2.len() ==> s2[i as int] == s1[n - 1]);
            // every element of the shortened book is an element of the old
            // book at an index other than i
            assert forall|j: int| #![trigger s2[j]] 0 <= j < s2.len() implies exists|m: int|
                0 <= m < n && m != i && #[trigger] s1[m] == s2[j] by {
                if j == i {
                    assert(s1[n - 1] == s2[j]);
                } else {
                    assert(s1[j] == s2[j]);
                }
            }
            assert(self.wf()) by {
                assert forall|p: int, q: int| 0 <= p < q < s2.len() implies key_of(
                    #[trigger] s2[p],
                ) != key_of(#[trigger] s2[q]) by {
                    let mp: int = if p == i {
                        n - 1
                    } else {
                        p
                    };
                    let mq: int = if q == i {
                        n - 1
                    } else {
                        q
                    };
                    assert(s2[p] == s1[mp]);
                    assert(s2[q] == s1[mq]);
                    assert(mp != mq);
                    if mp < mq {
                        assert(key_of(s1[mp]) != key_of(s1[mq]));
                    } else {
                        assert(key_of(s1[mq]) != key_of(s1[mp]));
                    }
                }
                assert forall|j: int| 0 <= j < s2.len() implies offer_valid(
                    #[trigger] s2[j],
                ) by {
                    let m: int = choose|m: int| 0 <= m < n && m != i && #[trigger] s1[m] == s2[j];
                    assert(offer_valid(s1[m]));
                }
            }
            assert forall|k2: (u64, u64)| #[trigger]
                self@.contains_key(k2) == old(self)@.remove(k).contains_key(k2) by {
                if self@.contains_key(k2) {
                    let j: int = choose|m: int| 0 <= m < s2.len() && key_of(#[trigger] s2[m]) == k2;
                    let m: int = choose|m: int| 0 <= m < n && m != i && #[trigger] s1[m] == s2[j];
                    assert(key_of(s1[m]) == k2);
                    assert(old(self)@.contains_key(k2));
                    // the key at i is k, and m != i, so k2 != k
                    if k2 == k {
                        if m < i {
                            assert(key_of(s1[m]) != key_of(s1[i as int]));
                        } else {
                            assert(key_of(s1[i as int]) != key_of(s1[m]));
                        }
                    }
                }
                if old(self)@.remove(k).contains_key(k2) {
                    let m: int = choose|m: int| 0 <= m < n && key_of(#[trigger] s1[m]) == k2;
                    // m != i since the key at i is k and k2 != k
                    assert(key_of(s1[i as int]) == k);
                    if m == i {
                        assert(false);
                    }
                    if m == n - 1 {
                        // moved to position i by the swap, unless i was last
                        if i < s2.len() {
                            assert(key_of(s2[i as int]) == k2);
                        } else {
                            // i == n - 1 == m, contradiction with m != i
                            assert(false);
                        }
                    } else {
                        assert(s2[m] == s1[m]);
                        assert(key_of(s2[m]) == k2);
                    }
                    assert(self@.contains_key(k2));
                }
            }
            assert forall|k2: (u64, u64)|
                self@.contains_key(k2) implies #[trigger] self@[k2] == old(self)@.remove(
                k,
            )[k2] by {
                let j: int = choose|m: int| 0 <= m < s2.len() && key_of(#[trigger] s2[m]) == k2;
                self.lemma_key_at(j);
                let m: int = choose|m: int| 0 <= m < n && m != i && #[trigger] s1[m] == s2[j];
                old(self).lemma_key_at(m);
                // the key at i is k and m != i, so k2 != k and the removal
                // leaves the entry at k2 in place
                assert(key_of(s1[i as int]) == k);
                if k2 == k {
                    if m < i {
                        assert(key_of(s1[m]) != key_of(s1[i as int]));
                    } else {
                        assert(key_of(s1[i as int]) != key_of(s1[m]));
                    }
                }
            }
            assert(self@ =~= old(self)@.remove(k));
        }
        r
    }
}

} // verus!
