//! The keyed auction store: identifier to auction record.
//!
//! Entries are held in a vector with pairwise distinct identifiers, so the
//! store behaves as a mapping; insertion order carries no meaning. Lookup,
//! insertion and removal are verified against the spec functions
//! [`ledger_lookup`], [`ledger_put`] and [`ledger_remove`], all phrased over
//! the first matching entry, which the distinctness invariant makes the only
//! one.

use crate::auction::{Auction, AuctionView};
use crate::errors::AuctionError;
use vstd::prelude::*;

verus! {

/// One stored entry: an identifier and its auction.
#[derive(Clone, Debug, PartialEq, Eq)]
pub struct LedgerEntry {
    /// The auction's identifier, its key in the store.
    pub id: String,
    /// The record stored under it.
    pub auction: Auction,
}

/// The spec-level value of a [`LedgerEntry`].
pub struct EntryView {
    /// The key.
    pub id: Seq<char>,
    /// The stored record.
    pub auction: AuctionView,
}

impl View for LedgerEntry {
    type V = EntryView;

    open spec fn view(&self) -> EntryView {
        EntryView { id: self.id@, auction: self.auction@ }
    }
}

/// The keyed store that owns every auction for the contract's lifetime.
#[derive(Clone, Debug, PartialEq, Eq)]
pub struct AuctionLedger {
    /// The stored entries, with pairwise distinct identifiers.
    pub entries: Vec<LedgerEntry>,
}

impl View for AuctionLedger {
    type V = Seq<EntryView>;

    open spec fn view(&self) -> Seq<EntryView> {
        self.entries@.map_values(|e: LedgerEntry| e@)
    }
}

/// The position of an identifier's entry: the first index whose key
/// matches, or the length when none does.
pub open spec fn entry_index(entries: Seq<EntryView>, id: Seq<char>) -> int
    decreases entries.len(),
{
    if entries.len() == 0 {
        0
    } else if entries[0].id == id {
        0
    } else {
        1 + entry_index(entries.drop_first(), id)
    }
}

/// What [`entry_index`] points at: the first matching entry, after nothing
/// but mismatches, and one past the end exactly when the key is absent.
pub proof fn lemma_entry_index(entries: Seq<EntryView>, id: Seq<char>)
    ensures
        0 <= entry_index(entries, id) <= entries.len(),
        entry_index(entries, id) < entries.len() ==> entries[entry_index(entries, id)].id == id,
        forall|j: int| 0 <= j < entry_index(entries, id) ==> entries[j].id != id,
    decreases entries.len(),
{
    if entries.len() > 0 && entries[0].id != id {
        lemma_entry_index(entries.drop_first(), id);
        assert(forall|j: int|
            1 <= j < entry_index(entries, id) ==> entries[j] == entries.drop_first()[j - 1]);
    }
}

/// The stored auction under an identifier, if any.
pub open spec fn ledger_lookup(entries: Seq<EntryView>, id: Seq<char>) -> Option<AuctionView> {
    let i = entry_index(entries, id);
    if i < entries.len() {
        Some(entries[i].auction)
    } else {
        None
    }
}

/// Whether an identifier holds an auction that is still open: one whose
/// closing block has not passed at the given height.
pub open spec fn has_open_auction(entries: Seq<EntryView>, id: Seq<char>, height: u64) -> bool {
    match ledger_lookup(entries, id) {
        Some(a) => height <= a.close_block,
        None => false,
    }
}

/// Storing an auction: the identifier's entry is replaced in place, or
/// appended when the identifier is absent.
pub open spec fn ledger_put(entries: Seq<EntryView>, id: Seq<char>, auction: AuctionView) -> Seq<
    EntryView,
> {
    let i = entry_index(entries, id);
    let e = EntryView { id, auction };
    if i < entries.len() {
        entries.update(i, e)
    } else {
        entries.push(e)
    }
}

/// Deleting an identifier's entry; absent identifiers leave the store as it
/// was.
pub open spec fn ledger_remove(entries: Seq<EntryView>, id: Seq<char>) -> Seq<EntryView> {
    let i = entry_index(entries, id);
    if i < entries.len() {
        entries.remove(i)
    } else {
        entries
    }
}

/// The store's invariant: identifiers are pairwise distinct.
pub open spec fn ledger_wf(entries: Seq<EntryView>) -> bool {
    forall|i: int, j: int|
        0 <= i < j < entries.len() ==> (#[trigger] entries[i]).id != (#[trigger] entries[j]).id
}

/// Storing an auction keeps identifiers pairwise distinct.
pub proof fn lemma_ledger_put_wf(entries: Seq<EntryView>, id: Seq<char>, auction: AuctionView)
    requires
        ledger_wf(entries),
    ensures
        ledger_wf(ledger_put(entries, id, auction)),
{
    lemma_entry_index(entries, id);
}

/// Deleting an entry keeps identifiers pairwise distinct, and the deleted
/// identifier is afterwards absent.
pub proof fn lemma_ledger_remove_wf(entries: Seq<EntryView>, id: Seq<char>)
    requires
        ledger_wf(entries),
    ensures
        ledger_wf(ledger_remove(entries, id)),
        ledger_lookup(ledger_remove(entries, id), id) is None,
{
    lemma_entry_index(entries, id);
    let i = entry_index(entries, id);
    if i < entries.len() {
        let rest = entries.remove(i);
        assert(forall|l: int|
            0 <= l < rest.len() ==> rest[l] == (if l < i {
                entries[l]
            } else {
                entries[l + 1]
            }));
        lemma_entry_index(rest, id);
    }
}

impl AuctionLedger {
    /// An empty store.
    pub fn new() -> (r: AuctionLedger)
        ensures
            r@ == Seq::<EntryView>::empty(),
            ledger_wf(r@),
    {
        let r = AuctionLedger { entries: Vec::new() };
        proof {
            assert(r@ =~= Seq::<EntryView>::empty());
        }
        r
    }

    /// How many auctions are stored.
    pub fn len(&self) -> (n: usize)
        ensures
            n == self@.len(),
    {
        self.entries.len()
    }

    /// Where the identifier's entry stands, as [`entry_index`] says; the
    /// store's length when the identifier is absent.
    pub fn index_of(&self, id: &String) -> (i: usize)
        ensures
            i as int == entry_index(self@, id@),
    {
        let n = self.entries.len();
        let mut i: usize = 0;
        while i < n
            invariant
                n == self@.len(),
                0 <= i <= n,
                forall|j: int| 0 <= j < i ==> (#[trigger] self@[j]).id != id@,
            decreases n - i,
        {
            if self.entries[i].id == *id {
                proof {
                    assert(self@[i as int] == self.entries@[i as int]@);
                    lemma_entry_index(self@, id@);
                }
                return i;
            }
            i += 1;
        }
        proof {
            lemma_entry_index(self@, id@);
        }
        n
    }

    /// The stored auction under an identifier, as [`ledger_lookup`] says.
    pub fn get(&self, id: &String) -> (r: Option<&Auction>)
        ensures
            match r {
                Some(a) => ledger_lookup(self@, id@) == Some(a@),
                None => ledger_lookup(self@, id@) is None,
            },
    {
        proof {
            lemma_entry_index(self@, id@);
        }
        let i = self.index_of(id);
        if i < self.entries.len() {
            Some(&self.entries[i].auction)
        } else {
            None
        }
    }

    /// Stores an auction under an identifier, unless the identifier still
    /// holds an open auction at the given height: a closed predecessor is
    /// superseded in place, an open one is left untouched and reported.
    pub fn put(&mut self, id: String, auction: Auction, current_height: u64) -> (r: Result<
        (),
        AuctionError,
    >)
        ensures
            r is Err <==> has_open_auction(old(self)@, id@, current_height),
            r is Err ==> r == Err::<(), AuctionError>(AuctionError::DuplicateActiveAuction)
                && *final (self) == *old(self),
            r is Ok ==> final (self)@ == ledger_put(old(self)@, id@, auction@),
    {
        proof {
            lemma_entry_index(self@, id@);
        }
        let i = self.index_of(&id);
        if i < self.entries.len() {
            if current_height <= self.entries[i].auction.close_block {
                return Err(AuctionError::DuplicateActiveAuction);
            }
            self.entries[i] = LedgerEntry { id, auction };
            proof {
                assert(final (self)@ =~= ledger_put(old(self)@, id@, auction@));
            }
        } else {
            self.entries.push(LedgerEntry { id, auction });
            proof {
                assert(final (self)@ =~= ledger_put(old(self)@, id@, auction@));
            }
        }
        Ok(())
    }

    /// Deletes an identifier's entry and hands the auction back, as
    /// [`ledger_remove`] says; reports when the identifier is absent.
    pub fn remove(&mut self, id: &String) -> (r: Result<Auction, AuctionError>)
        ensures
            match r {
                Ok(a) => ledger_lookup(old(self)@, id@) == Some(a@) && final (self)@
                    == ledger_remove(old(self)@, id@),
                Err(e) => e == AuctionError::NotFound && ledger_lookup(old(self)@, id@) is None
                    && *final (self) == *old(self),
            },
    {
        proof {
            lemma_entry_index(self@, id@);
        }
        let i = self.index_of(id);
        if i < self.entries.len() {
            let entry = self.entries.remove(i);
            proof {
                assert(final (self)@ =~= ledger_remove(old(self)@, id@));
            }
            Ok(entry.auction)
        } else {
            Err(AuctionError::NotFound)
        }
    }

    /// Records a bid inside the stored auction at a position, leaving every
    /// other entry and every other field of that auction as they were.
    pub fn record_bid_at(&mut self, i: usize, bidder: &String, amount: u128)
        requires
            i < old(self)@.len(),
        ensures
            final (self)@ == old(self)@.update(
                i as int,
                EntryView {
                    id: old(self)@[i as int].id,
                    auction: AuctionView {
                        owner_id: old(self)@[i as int].auction.owner_id,
                        winner_account_id: old(self)@[i as int].auction.winner_account_id,
                        asset: old(self)@[i as int].auction.asset,
                        close_block: old(self)@[i as int].auction.close_block,
                        bids: crate::auction::record_bid(
                            old(self)@[i as int].auction.bids,
                            bidder@,
                            amount,
                        ),
                    },
                },
            ),
    {
        self.entries[i].auction.record_bid(bidder, amount);
        proof {
            assert(final (self)@ =~= old(self)@.update(
                i as int,
                EntryView { id: old(self)@[i as int].id, auction: final (self)@[i as int].auction },
            ));
        }
    }

    /// Sets the winner of the stored auction at a position, leaving every
    /// other entry and every other field of that auction as they were.
    pub fn set_winner_at(&mut self, i: usize, winner: &String)
        requires
            i < old(self)@.len(),
        ensures
            final (self)@ == old(self)@.update(
                i as int,
                EntryView {
                    id: old(self)@[i as int].id,
                    auction: AuctionView {
                        owner_id: old(self)@[i as int].auction.owner_id,
                        winner_account_id: Some(winner@),
                        asset: old(self)@[i as int].auction.asset,
                        close_block: old(self)@[i as int].auction.close_block,
                        bids: old(self)@[i as int].auction.bids,
                    },
                },
            ),
    {
        self.entries[i].auction.winner_account_id = Some(winner.clone());
        proof {
            assert(final (self)@ =~= old(self)@.update(
                i as int,
                EntryView { id: old(self)@[i as int].id, auction: final (self)@[i as int].auction },
            ));
        }
    }
}

} // verus!
