//! The auction record and its bid ledger.
//!
//! An [`Auction`] holds the immutable identifying fields (owner, asset,
//! closing block height), the winner once finalization has happened, and the
//! recorded bids. Bids form a mapping from bidder to that bidder's current
//! amount, kept as a vector in first-bid order because finalization breaks
//! ties in favour of the earliest bidder; a bidder who bids again has their
//! entry replaced in place, never summed.

use crate::identity::auction_text;
use vstd::prelude::*;
use vstd::string::StringExecFns;

verus! {

/// One recorded bid: a bidder and that bidder's current amount.
#[derive(Clone, Debug, PartialEq, Eq)]
pub struct Bid {
    /// The account that placed the bid.
    pub bidder: String,
    /// The funds currently attached to it.
    pub amount: u128,
}

/// The spec-level value of a [`Bid`].
pub struct BidView {
    /// The bidding account.
    pub bidder: Seq<char>,
    /// The recorded amount.
    pub amount: u128,
}

impl View for Bid {
    type V = BidView;

    open spec fn view(&self) -> BidView {
        BidView { bidder: self.bidder@, amount: self.amount }
    }
}

/// A timed sale record for one asset.
#[derive(Clone, Debug, PartialEq, Eq)]
pub struct Auction {
    /// The account that created the auction and controls cancellation.
    pub owner_id: String,
    /// The account the asset's capability went to at finalization; `None`
    /// until then, and permanent afterwards.
    pub winner_account_id: Option<String>,
    /// The account whose control capability is being sold.
    pub asset: String,
    /// The block height at which the auction stops accepting bids; fixed at
    /// creation.
    pub close_block: u64,
    /// The recorded bids, in first-bid order.
    pub bids: Vec<Bid>,
}

/// The spec-level value of an [`Auction`].
pub struct AuctionView {
    /// The creating account.
    pub owner_id: Seq<char>,
    /// The resolution recipient, once finalized.
    pub winner_account_id: Option<Seq<char>>,
    /// The auctioned account.
    pub asset: Seq<char>,
    /// The closing block height.
    pub close_block: u64,
    /// The recorded bids, in first-bid order.
    pub bids: Seq<BidView>,
}

/// The spec-level value of a sequence of bids.
pub open spec fn bids_view(bids: Seq<Bid>) -> Seq<BidView> {
    bids.map_values(|b: Bid| b@)
}

impl View for Auction {
    type V = AuctionView;

    open spec fn view(&self) -> AuctionView {
        AuctionView {
            owner_id: self.owner_id@,
            winner_account_id: self.winner_account_id.deep_view(),
            asset: self.asset@,
            close_block: self.close_block,
            bids: bids_view(self.bids@),
        }
    }
}

/// The position of a bidder's entry: the first index whose bidder matches,
/// or the length when no entry does.
pub open spec fn bid_index(bids: Seq<BidView>, bidder: Seq<char>) -> int
    decreases bids.len(),
{
    if bids.len() == 0 {
        0
    } else if bids[0].bidder == bidder {
        0
    } else {
        1 + bid_index(bids.drop_first(), bidder)
    }
}

/// What [`bid_index`] points at: the first matching entry, after nothing but
/// mismatches, and one past the end exactly when the bidder has no entry.
pub proof fn lemma_bid_index(bids: Seq<BidView>, bidder: Seq<char>)
    ensures
        0 <= bid_index(bids, bidder) <= bids.len(),
        bid_index(bids, bidder) < bids.len() ==> bids[bid_index(bids, bidder)].bidder == bidder,
        forall|j: int| 0 <= j < bid_index(bids, bidder) ==> bids[j].bidder != bidder,
    decreases bids.len(),
{
    if bids.len() > 0 && bids[0].bidder != bidder {
        lemma_bid_index(bids.drop_first(), bidder);
        assert(forall|j: int|
            1 <= j < bid_index(bids, bidder) ==> bids[j] == bids.drop_first()[j - 1]);
    }
}

/// The bidder's recorded amount, if any entry is theirs.
pub open spec fn bid_lookup(bids: Seq<BidView>, bidder: Seq<char>) -> Option<u128> {
    let i = bid_index(bids, bidder);
    if i < bids.len() {
        Some(bids[i].amount)
    } else {
        None
    }
}

/// Recording a bid: the bidder's entry is replaced in place, keeping its
/// position, or appended when the bidder has none.
pub open spec fn record_bid(bids: Seq<BidView>, bidder: Seq<char>, amount: u128) -> Seq<BidView> {
    let i = bid_index(bids, bidder);
    let entry = BidView { bidder, amount };
    if i < bids.len() {
        bids.update(i, entry)
    } else {
        bids.push(entry)
    }
}

/// The invariants of a bid ledger: one entry per bidder, strictly positive
/// amounts, and never an entry by the auction's owner.
pub open spec fn bids_wf(bids: Seq<BidView>, owner: Seq<char>) -> bool {
    &&& forall|i: int, j: int|
        0 <= i < j < bids.len() ==> (#[trigger] bids[i]).bidder != (#[trigger] bids[j]).bidder
    &&& forall|i: int| 0 <= i < bids.len() ==> (#[trigger] bids[i]).amount > 0
    &&& forall|i: int| 0 <= i < bids.len() ==> (#[trigger] bids[i]).bidder != owner
}

/// Recording a bid by anyone but the owner, with a positive amount, keeps
/// the bid ledger well formed.
pub proof fn lemma_record_bid_wf(bids: Seq<BidView>, owner: Seq<char>, bidder: Seq<char>, amount: u128)
    requires
        bids_wf(bids, owner),
        bidder != owner,
        amount > 0,
    ensures
        bids_wf(record_bid(bids, bidder, amount), owner),
{
    lemma_bid_index(bids, bidder);
}

/// The index of the winning bid: the highest amount, and among equal
/// amounts the earliest entry, hence the first bidder to reach it.
pub open spec fn winning_index(bids: Seq<BidView>) -> int
    recommends
        bids.len() > 0,
    decreases bids.len(),
{
    if bids.len() <= 1 {
        0
    } else {
        let w = winning_index(bids.drop_last());
        if bids.last().amount > bids[w].amount {
            bids.len() - 1
        } else {
            w
        }
    }
}

/// The winning index points at the maximum, and every earlier entry is
/// strictly below it: the winner is the first bidder to reach the maximum.
pub proof fn lemma_winning_index_first_max(bids: Seq<BidView>)
    requires
        bids.len() > 0,
    ensures
        0 <= winning_index(bids) < bids.len(),
        forall|i: int|
            0 <= i < bids.len() ==> (#[trigger] bids[i]).amount <= bids[winning_index(
                bids,
            )].amount,
        forall|i: int|
            0 <= i < winning_index(bids) ==> (#[trigger] bids[i]).amount < bids[winning_index(
                bids,
            )].amount,
    decreases bids.len(),
{
    if bids.len() > 1 {
        lemma_winning_index_first_max(bids.drop_last());
        assert(forall|i: int|
            0 <= i < bids.len() - 1 ==> bids.drop_last()[i] == (#[trigger] bids[i]));
    }
}

impl Auction {
    /// The auction's internal invariant: a well-formed bid ledger.
    pub open spec fn wf(self) -> bool {
        bids_wf(self@.bids, self@.owner_id)
    }

    /// The text an auction is identified by: owner, asset and the closing
    /// block height in decimal, joined with `:`.
    pub fn to_string(&self) -> (r: String)
        ensures
            r@ == auction_text(self.owner_id@, self.asset@, self.close_block),
    {
        let mut text = self.owner_id.clone();
        crate::encoding::push_char(&mut text, ':');
        text.append(self.asset.as_str());
        crate::encoding::push_char(&mut text, ':');
        let height = crate::encoding::to_dec_string(self.close_block);
        text.append(height.as_str());
        proof {
            assert(text@ =~= auction_text(self.owner_id@, self.asset@, self.close_block));
        }
        text
    }

    /// Where the given bidder's entry stands, as [`bid_index`] says; the
    /// ledger's length when the bidder has none.
    fn bid_position(&self, bidder: &String) -> (i: usize)
        ensures
            i as int == bid_index(self@.bids, bidder@),
    {
        let n = self.bids.len();
        let mut i: usize = 0;
        while i < n
            invariant
                n == self@.bids.len(),
                0 <= i <= n,
                forall|j: int| 0 <= j < i ==> (#[trigger] self@.bids[j]).bidder != bidder@,
            decreases n - i,
        {
            if self.bids[i].bidder == *bidder {
                proof {
                    assert(self@.bids[i as int] == self.bids@[i as int]@);
                    assert(self@.bids[i as int].bidder == bidder@);
                    lemma_bid_index(self@.bids, bidder@);
                }
                return i;
            }
            i += 1;
        }
        proof {
            lemma_bid_index(self@.bids, bidder@);
        }
        n
    }

    /// The bidder's recorded amount, if any.
    pub fn bid_amount(&self, bidder: &String) -> (r: Option<u128>)
        ensures
            r == bid_lookup(self@.bids, bidder@),
    {
        let i = self.bid_position(bidder);
        if i < self.bids.len() {
            Some(self.bids[i].amount)
        } else {
            None
        }
    }

    /// How many bidders have an entry.
    pub fn num_bids(&self) -> (r: usize)
        ensures
            r == self@.bids.len(),
    {
        self.bids.len()
    }

    /// Records a bid, as [`record_bid`] says: replaces the bidder's entry in
    /// place or appends a new one. Nothing else changes.
    pub fn record_bid(&mut self, bidder: &String, amount: u128)
        ensures
            final (self)@.bids == record_bid(old(self)@.bids, bidder@, amount),
            final (self)@.owner_id == old(self)@.owner_id,
            final (self)@.asset == old(self)@.asset,
            final (self)@.close_block == old(self)@.close_block,
            final (self)@.winner_account_id == old(self)@.winner_account_id,
    {
        let i = self.bid_position(bidder);
        let entry = Bid { bidder: bidder.clone(), amount };
        if i < self.bids.len() {
            self.bids[i] = entry;
        } else {
            self.bids.push(entry);
        }
        proof {
            assert(final(self)@.bids =~= record_bid(old(self)@.bids, bidder@, amount));
        }
    }

    /// The index of the winning bid, as [`winning_index`] says.
    pub fn winning_bid_index(&self) -> (w: usize)
        requires
            self@.bids.len() > 0,
        ensures
            w as int == winning_index(self@.bids),
            w < self@.bids.len(),
    {
        let ghost all = self@.bids;
        let mut best: usize = 0;
        let mut k: usize = 1;
        proof {
            assert(all.subrange(0, 1).len() == 1);
        }
        while k < self.bids.len()
            invariant
                all == self@.bids,
                1 <= k <= all.len(),
                best < k,
                best as int == winning_index(all.subrange(0, k as int)),
            decreases all.len() - k,
        {
            proof {
                let pre = all.subrange(0, (k + 1) as int);
                assert(pre.drop_last() =~= all.subrange(0, k as int));
                assert(pre.last() == all[k as int]);
            }
            if self.bids[k].amount > self.bids[best].amount {
                best = k;
            }
            k += 1;
        }
        proof {
            assert(all.subrange(0, all.len() as int) =~= all);
        }
        best
    }
}

} // verus!
