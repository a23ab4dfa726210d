//! Proved properties that relate the operations to each other.
//!
//! Each proof function here states one law of the auction house over the
//! spec functions its operations' contracts use, so the law holds of every
//! reachable state, not just the ones a test happens to visit.

use crate::auction::{BidView, bid_index, bid_lookup, lemma_bid_index, record_bid};
use crate::escrow::{IntentView, refund_intents};
use crate::identity::auction_id_chars;
use vstd::prelude::*;

verus! {

/// The auction identifier is a function of owner, asset and closing height
/// alone: identical fields give the identical identifier, however often and
/// wherever it is computed. The hashed text determines the three fields
/// ([`crate::identity::lemma_auction_text_injective`]), so distinct fields
/// give distinct identifiers up to the hash's collision resistance, which
/// tests check on concrete values.
pub proof fn lemma_auction_id_deterministic(
    owner1: Seq<char>,
    asset1: Seq<char>,
    close1: u64,
    owner2: Seq<char>,
    asset2: Seq<char>,
    close2: u64,
)
    requires
        owner1 == owner2,
        asset1 == asset2,
        close1 == close2,
    ensures
        auction_id_chars(owner1, asset1, close1) == auction_id_chars(owner2, asset2, close2),
{
}

/// Recording a bid sets that bidder's amount and nobody else's: the bidder
/// afterwards stands at exactly the new amount, and every other identity's
/// recorded amount is what it was.
pub proof fn lemma_record_bid_lookup(bids: Seq<BidView>, bidder: Seq<char>, amount: u128)
    ensures
        bid_lookup(record_bid(bids, bidder, amount), bidder) == Some(amount),
        forall|other: Seq<char>|
            other != bidder ==> #[trigger] bid_lookup(record_bid(bids, bidder, amount), other)
                == bid_lookup(bids, other),
{
    let s2 = record_bid(bids, bidder, amount);
    let i = bid_index(bids, bidder);
    lemma_bid_index(bids, bidder);
    lemma_bid_index(s2, bidder);
    assert(bid_lookup(s2, bidder) == Some(amount)) by {
        assert(s2[i].bidder == bidder);
        assert(forall|j: int| 0 <= j < i ==> (#[trigger] s2[j]) == bids[j]);
        assert(bid_index(s2, bidder) == i);
    }
    assert forall|other: Seq<char>| other != bidder implies #[trigger] bid_lookup(
        record_bid(bids, bidder, amount),
        other,
    ) == bid_lookup(bids, other) by {
        lemma_bid_index(bids, other);
        lemma_bid_index(s2, other);
        let k = bid_index(bids, other);
        if k < bids.len() {
            assert(bids[k].bidder == other);
            assert(k != i);
            assert(s2[k] == bids[k]);
            assert(forall|j: int| 0 <= j < k ==> (#[trigger] s2[j]).bidder != other);
            assert(bid_index(s2, other) == k);
        } else {
            assert(forall|j: int| 0 <= j < s2.len() ==> (#[trigger] s2[j]).bidder != other);
            assert(bid_index(s2, other) == s2.len());
        }
    }
}

/// Re-bidding replaces, never sums: a bidder who bids once and then again
/// ends up recorded at the second amount, whatever the first was.
pub proof fn lemma_rebid_replaces(
    bids: Seq<BidView>,
    bidder: Seq<char>,
    first: u128,
    second: u128,
)
    ensures
        bid_lookup(record_bid(record_bid(bids, bidder, first), bidder, second), bidder) == Some(
            second,
        ),
{
    lemma_record_bid_lookup(record_bid(bids, bidder, first), bidder, second);
}

/// The refund list of a resolution that spares the entry at `w` refunds
/// every other bidder their full recorded amount, in ledger order.
pub proof fn lemma_refunds_cover_non_winners(bids: Seq<BidView>, w: int)
    requires
        0 <= w < bids.len(),
    ensures
        refund_intents(bids.remove(w)).len() == bids.len() - 1,
        forall|j: int|
            0 <= j < w ==> #[trigger] refund_intents(bids.remove(w))[j] == (IntentView::TransferFunds {
                to: bids[j].bidder,
                amount: bids[j].amount,
            }),
        forall|j: int|
            w < j < bids.len() ==> #[trigger] refund_intents(bids.remove(w))[j - 1] == (IntentView::TransferFunds {
                to: bids[j].bidder,
                amount: bids[j].amount,
            }),
{
    let rest = bids.remove(w);
    assert(forall|l: int|
        0 <= l < rest.len() ==> rest[l] == (if l < w {
            bids[l]
        } else {
            bids[l + 1]
        }));
}

} // verus!
