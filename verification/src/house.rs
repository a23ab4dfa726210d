//! The auction house: the contract's state and its public operations.
//!
//! One [`AuctionHouse`] value is the whole on-ledger state. Every operation
//! runs as one serialized transaction of the hosting runtime: it takes the
//! transaction's environment (signer, attached funds, current block height)
//! as explicit arguments, either fails with an [`AuctionError`] and leaves
//! the state untouched, or mutates the state and returns the escrow intents
//! the runtime must perform. Nothing here panics: every verified operation
//! reports failure as a value.

use crate::account::{is_valid_account_id, valid_account_id};
use crate::auction::{
    Auction, AuctionView, Bid, BidView, bids_view, bids_wf, record_bid, winning_index,
};
use crate::errors::AuctionError;
use crate::escrow::{
    EscrowIntent, IntentView, grant_recall_capability, intents_view, lemma_intents_view_push,
    lock_intents, recall_intent, refund_all, refund_except, refund_intents, transfer_ownership,
};
use crate::identity::{auction_id_chars, compute_auction_id};
use crate::ledger::{
    AuctionLedger, EntryView, entry_index, has_open_auction, ledger_lookup, ledger_put,
    ledger_remove, ledger_wf, lemma_entry_index, lemma_ledger_put_wf, lemma_ledger_remove_wf,
};
use vstd::prelude::*;

verus! {

/// One whole unit of the ledger's native token.
pub const ONE_NEAR: u128 = 1_000_000_000_000_000_000_000_000;

/// How far past the creation height an auction closes when the creator
/// names no closing block.
pub const CLOSE_BLOCK_OFFSET: u64 = 1_000_000;

/// The process-wide contract state: configuration and the auction store.
#[derive(Clone, Debug, PartialEq, Eq)]
pub struct AuctionHouse {
    /// Every live auction, keyed by identifier.
    pub auctions: AuctionLedger,
    /// Whether operations are administratively suspended.
    pub paused: bool,
    /// The custodian account that holds escrowed capabilities and funds.
    pub escrow_account_id: Option<String>,
    /// The custodian's credential, granted control of listed assets.
    pub escrow_public_key: Option<Vec<u8>>,
}

/// The closing block an auction gets: the requested one, or the creation
/// height plus [`CLOSE_BLOCK_OFFSET`] when none was requested.
pub open spec fn resolved_close_block(requested: Option<u64>, current_height: u64) -> u64 {
    match requested {
        Some(c) => c,
        None => (current_height + CLOSE_BLOCK_OFFSET) as u64,
    }
}

impl AuctionHouse {
    /// Whether construction has happened: both escrow fields are set.
    pub open spec fn is_configured(&self) -> bool {
        self.escrow_account_id is Some && self.escrow_public_key is Some
    }

    /// The custodian's identity.
    pub open spec fn spec_escrow_id(&self) -> Seq<char> {
        self.escrow_account_id->0@
    }

    /// The custodian's credential.
    pub open spec fn spec_escrow_key(&self) -> Seq<u8> {
        self.escrow_public_key->0@
    }

    /// The state's invariant: pairwise distinct auction identifiers, and
    /// every stored bid ledger well formed.
    pub open spec fn wf(&self) -> bool {
        &&& ledger_wf(self.auctions@)
        &&& forall|i: int|
            0 <= i < self.auctions@.len() ==> bids_wf(
                (#[trigger] self.auctions@[i]).auction.bids,
                self.auctions@[i].auction.owner_id,
            )
    }

    /// Everything but the auction store stays as it was.
    pub open spec fn config_unchanged(&self, other: &AuctionHouse) -> bool {
        &&& self.paused == other.paused
        &&& self.escrow_account_id == other.escrow_account_id
        &&& self.escrow_public_key == other.escrow_public_key
    }
}

impl Default for AuctionHouse {
    /// The state the runtime materializes before construction: unpaused,
    /// unconfigured, and empty.
    fn default() -> (r: AuctionHouse)
        ensures
            r.paused == false,
            r.escrow_account_id is None,
            r.escrow_public_key is None,
            r.auctions@ == Seq::<EntryView>::empty(),
            r.wf(),
    {
        AuctionHouse {
            auctions: AuctionLedger::new(),
            paused: false,
            escrow_account_id: None,
            escrow_public_key: None,
        }
    }
}

impl AuctionHouse {
    /// Constructs the house with its baseline configuration. Fails exactly
    /// when the custodian's identifier is not well formed; the guard against
    /// constructing twice is the hosting runtime's state-existence check.
    pub fn new(escrow_account_id: String, escrow_public_key: Vec<u8>) -> (r: Result<
        AuctionHouse,
        AuctionError,
    >)
        ensures
            r is Ok <==> valid_account_id(escrow_account_id@),
            r matches Ok(h) ==> {
                &&& h.paused == false
                &&& h.escrow_account_id == Some(escrow_account_id)
                &&& h.escrow_public_key == Some(escrow_public_key)
                &&& h.auctions@ == Seq::<EntryView>::empty()
                &&& h.is_configured()
                &&& h.wf()
            },
            r is Err ==> r == Err::<AuctionHouse, AuctionError>(AuctionError::InvalidEscrowId),
    {
        if !is_valid_account_id(escrow_account_id.as_str()) {
            return Err(AuctionError::InvalidEscrowId);
        }
        Ok(
            AuctionHouse {
                auctions: AuctionLedger::new(),
                paused: false,
                escrow_account_id: Some(escrow_account_id),
                escrow_public_key: Some(escrow_public_key),
            },
        )
    }

    /// Lists an asset: stores a fresh auction under its deterministic
    /// identifier and asks the runtime to move the signer's account control
    /// into escrow, leaving the signer a narrow cancellation capability.
    ///
    /// Fails when the asset identifier is malformed, when the asset is the
    /// signer's own identity, when the requested closing block is not
    /// strictly beyond the creation height, or when the identifier still
    /// holds an open auction.
    #[allow(unused_variables)]
    pub fn create(
        &mut self,
        signer_account_id: &String,
        signer_public_key: &Vec<u8>,
        current_height: u64,
        asset: String,
        owner_beneficiary: String,
        auction_close_block: Option<u64>,
        auction_start_bid_amount: u128,
    ) -> (r: Result<(String, Vec<EscrowIntent>), AuctionError>)
        requires
            old(self).wf(),
            old(self).is_configured(),
            auction_close_block is None ==> current_height + CLOSE_BLOCK_OFFSET <= u64::MAX,
        ensures
            final (self).wf(),
            final (self).config_unchanged(old(self)),
            !valid_account_id(asset@) ==> r == Err::<(String, Vec<EscrowIntent>), AuctionError>(
                AuctionError::InvalidAssetId,
            ) && *final (self) == *old(self),
            valid_account_id(asset@) && asset@ == signer_account_id@ ==> r == Err::<
                (String, Vec<EscrowIntent>),
                AuctionError,
            >(AuctionError::AssetIsSigner) && *final (self) == *old(self),
            ({
                let close = resolved_close_block(auction_close_block, current_height);
                let id = auction_id_chars(signer_account_id@, asset@, close);
                &&& (valid_account_id(asset@) && asset@ != signer_account_id@ && close
                    <= current_height ==> r == Err::<(String, Vec<EscrowIntent>), AuctionError>(
                    AuctionError::CloseBlockNotFuture,
                ) && *final (self) == *old(self))
                &&& (valid_account_id(asset@) && asset@ != signer_account_id@ && close
                    > current_height && has_open_auction(
                    old(self).auctions@,
                    id,
                    current_height,
                ) ==> r == Err::<(String, Vec<EscrowIntent>), AuctionError>(
                    AuctionError::DuplicateActiveAuction,
                ) && *final (self) == *old(self))
                &&& (valid_account_id(asset@) && asset@ != signer_account_id@ && close
                    > current_height && !has_open_auction(
                    old(self).auctions@,
                    id,
                    current_height,
                ) ==> {
                    &&& r is Ok
                    &&& r matches Ok(pair) ==> {
                        &&& pair.0@ == id
                        &&& final (self).auctions@ == ledger_put(
                            old(self).auctions@,
                            id,
                            AuctionView {
                                owner_id: signer_account_id@,
                                winner_account_id: None,
                                asset: asset@,
                                close_block: close,
                                bids: Seq::empty(),
                            },
                        )
                        &&& intents_view(pair.1@) == lock_intents(
                            signer_account_id@,
                            signer_public_key@,
                            old(self).spec_escrow_key(),
                        ).push(recall_intent(signer_account_id@, signer_public_key@))
                    }
                })
            }),
    {
        if !is_valid_account_id(asset.as_str()) {
            return Err(AuctionError::InvalidAssetId);
        }
        if asset == *signer_account_id {
            return Err(AuctionError::AssetIsSigner);
        }
        let close_block = match auction_close_block {
            Some(c) => c,
            None => current_height + CLOSE_BLOCK_OFFSET,
        };
        if close_block <= current_height {
            return Err(AuctionError::CloseBlockNotFuture);
        }
        let auction = Auction {
            owner_id: signer_account_id.clone(),
            winner_account_id: None,
            asset,
            close_block,
            bids: Vec::new(),
        };
        let id = compute_auction_id(&auction.owner_id, &auction.asset, close_block);
        proof {
            assert(bids_view(Seq::<Bid>::empty()) =~= Seq::<BidView>::empty());
            assert(auction@ == AuctionView {
                owner_id: signer_account_id@,
                winner_account_id: None,
                asset: asset@,
                close_block,
                bids: Seq::empty(),
            });
        }
        let ghost old_entries = self.auctions@;
        match self.auctions.put(id.clone(), auction, current_height) {
            Err(e) => {
                return Err(e);
            },
            Ok(()) => {},
        }
        proof {
            lemma_ledger_put_wf(
                old_entries,
                id@,
                AuctionView {
                    owner_id: signer_account_id@,
                    winner_account_id: None,
                    asset: asset@,
                    close_block,
                    bids: Seq::empty(),
                },
            );
            lemma_entry_index(old_entries, id@);
            assert forall|i: int| 0 <= i < self.auctions@.len() implies bids_wf(
                (#[trigger] self.auctions@[i]).auction.bids,
                self.auctions@[i].auction.owner_id,
            ) by {
                if i != entry_index(old_entries, id@) {
                    assert(self.auctions@[i] == old_entries[i]);
                }
            }
        }
        let escrow_key = self.escrow_public_key.as_ref().unwrap();
        let escrow_id = self.escrow_account_id.as_ref().unwrap();
        let mut intents = transfer_ownership(
            signer_account_id,
            signer_public_key,
            escrow_key,
            escrow_id,
        );
        let ghost before_push = intents@;
        intents.push(grant_recall_capability(signer_account_id, signer_public_key));
        proof {
            lemma_intents_view_push(before_push, intents@.last());
        }
        Ok((id, intents))
    }

    /// The stored auction's identifying text, for a read-only caller.
    pub fn get_auction_by_id(&self, id: &String) -> (r: Result<String, AuctionError>)
        ensures
            match ledger_lookup(self.auctions@, id@) {
                Some(a) => r matches Ok(s) && s@ == crate::identity::auction_text(
                    a.owner_id,
                    a.asset,
                    a.close_block,
                ),
                None => r == Err::<String, AuctionError>(AuctionError::NotFound),
            },
    {
        match self.auctions.get(id) {
            Some(a) => Ok(a.to_string()),
            None => Err(AuctionError::NotFound),
        }
    }

    /// Records a bid: the signer's attached funds become their current bid,
    /// replacing any earlier one, and move to the custodian's balance.
    ///
    /// Fails when the auction is unknown, when the signer owns it, when no
    /// funds are attached, and once the closing block has passed.
    pub fn place_bid(
        &mut self,
        signer_account_id: &String,
        attached_deposit: u128,
        current_height: u64,
        auction_id: &String,
    ) -> (r: Result<Vec<EscrowIntent>, AuctionError>)
        requires
            old(self).wf(),
            old(self).is_configured(),
        ensures
            final (self).wf(),
            final (self).config_unchanged(old(self)),
            ledger_lookup(old(self).auctions@, auction_id@) is None ==> r == Err::<
                Vec<EscrowIntent>,
                AuctionError,
            >(AuctionError::NotFound) && *final (self) == *old(self),
            ledger_lookup(old(self).auctions@, auction_id@) matches Some(a) ==> {
                &&& a.owner_id == signer_account_id@ ==> r == Err::<Vec<EscrowIntent>, AuctionError>(
                    AuctionError::OwnerCannotBid,
                ) && *final (self) == *old(self)
                &&& a.owner_id != signer_account_id@ && attached_deposit == 0 ==> r == Err::<
                    Vec<EscrowIntent>,
                    AuctionError,
                >(AuctionError::ZeroBidAmount) && *final (self) == *old(self)
                &&& a.owner_id != signer_account_id@ && attached_deposit > 0 && current_height
                    > a.close_block ==> r == Err::<Vec<EscrowIntent>, AuctionError>(
                    AuctionError::AuctionClosed,
                ) && *final (self) == *old(self)
                &&& a.owner_id != signer_account_id@ && attached_deposit > 0 && current_height
                    <= a.close_block ==> {
                    &&& r matches Ok(v)
                    &&& final (self).auctions@ == ledger_put(
                        old(self).auctions@,
                        auction_id@,
                        AuctionView {
                            owner_id: a.owner_id,
                            winner_account_id: a.winner_account_id,
                            asset: a.asset,
                            close_block: a.close_block,
                            bids: record_bid(a.bids, signer_account_id@, attached_deposit),
                        },
                    )
                    &&& r matches Ok(v) ==> intents_view(v@) == seq![
                        IntentView::TransferFunds {
                            to: old(self).spec_escrow_id(),
                            amount: attached_deposit,
                        },
                    ]
                }
            },
    {
        proof {
            lemma_entry_index(self.auctions@, auction_id@);
        }
        let i = self.auctions.index_of(auction_id);
        if i == self.auctions.len() {
            return Err(AuctionError::NotFound);
        }
        let auction = &self.auctions.entries[i].auction;
        proof {
            assert(self.auctions@[i as int] == self.auctions.entries@[i as int]@);
        }
        if auction.owner_id == *signer_account_id {
            return Err(AuctionError::OwnerCannotBid);
        }
        if attached_deposit == 0 {
            return Err(AuctionError::ZeroBidAmount);
        }
        if current_height > auction.close_block {
            return Err(AuctionError::AuctionClosed);
        }
        let ghost old_entries = self.auctions@;
        self.auctions.record_bid_at(i, signer_account_id, attached_deposit);
        proof {
            crate::auction::lemma_record_bid_wf(
                old_entries[i as int].auction.bids,
                old_entries[i as int].auction.owner_id,
                signer_account_id@,
                attached_deposit,
            );
            lemma_ledger_put_wf(old_entries, auction_id@, self.auctions@[i as int].auction);
            assert(final (self).auctions@ =~= ledger_put(
                old_entries,
                auction_id@,
                self.auctions@[i as int].auction,
            ));
            assert forall|k: int| 0 <= k < self.auctions@.len() implies bids_wf(
                (#[trigger] self.auctions@[k]).auction.bids,
                self.auctions@[k].auction.owner_id,
            ) by {
                if k != i {
                    assert(self.auctions@[k] == old_entries[k]);
                }
            }
        }
        let escrow_id = self.escrow_account_id.as_ref().unwrap();
        let mut intents: Vec<EscrowIntent> = Vec::new();
        intents.push(EscrowIntent::TransferFunds { to: escrow_id.clone(), amount: attached_deposit });
        proof {
            assert(intents_view(intents@) =~= seq![
                IntentView::TransferFunds {
                    to: old(self).spec_escrow_id(),
                    amount: attached_deposit,
                },
            ]);
        }
        Ok(intents)
    }

    /// Withdraws an auction: only its owner may, and only while it is not
    /// yet finalized — a finalized auction has already refunded its bidders
    /// and released the asset. Every recorded bidder is refunded in full
    /// before the entry disappears, and the asset's control is asked back
    /// from the custodian.
    pub fn cancel_auction(&mut self, signer_account_id: &String, auction_id: &String) -> (r: Result<
        Vec<EscrowIntent>,
        AuctionError,
    >)
        requires
            old(self).wf(),
            old(self).is_configured(),
        ensures
            final (self).wf(),
            final (self).config_unchanged(old(self)),
            ledger_lookup(old(self).auctions@, auction_id@) is None ==> r == Err::<
                Vec<EscrowIntent>,
                AuctionError,
            >(AuctionError::NotFound) && *final (self) == *old(self),
            ledger_lookup(old(self).auctions@, auction_id@) matches Some(a) ==> {
                &&& a.owner_id != signer_account_id@ ==> r == Err::<Vec<EscrowIntent>, AuctionError>(
                    AuctionError::NotOwner,
                ) && *final (self) == *old(self)
                &&& a.owner_id == signer_account_id@ && a.winner_account_id is Some ==> r == Err::<
                    Vec<EscrowIntent>,
                    AuctionError,
                >(AuctionError::AlreadyFinalized) && *final (self) == *old(self)
                &&& a.owner_id == signer_account_id@ && a.winner_account_id is None ==> {
                    &&& r is Ok
                    &&& final (self).auctions@ == ledger_remove(old(self).auctions@, auction_id@)
                    &&& ledger_lookup(final (self).auctions@, auction_id@) is None
                    &&& r matches Ok(v) ==> intents_view(v@) == refund_intents(a.bids).push(
                        IntentView::ReleaseAsset {
                            custodian: old(self).spec_escrow_id(),
                            asset: a.asset,
                            recipient: a.owner_id,
                        },
                    )
                }
            },
    {
        proof {
            lemma_entry_index(self.auctions@, auction_id@);
        }
        let i = self.auctions.index_of(auction_id);
        if i == self.auctions.len() {
            return Err(AuctionError::NotFound);
        }
        proof {
            assert(self.auctions@[i as int] == self.auctions.entries@[i as int]@);
        }
        if self.auctions.entries[i].auction.owner_id != *signer_account_id {
            return Err(AuctionError::NotOwner);
        }
        if self.auctions.entries[i].auction.winner_account_id.is_some() {
            return Err(AuctionError::AlreadyFinalized);
        }
        let ghost old_entries = self.auctions@;
        let removed = match self.auctions.remove(auction_id) {
            Ok(a) => a,
            Err(e) => {
                return Err(e);
            },
        };
        proof {
            lemma_ledger_remove_wf(old_entries, auction_id@);
            assert forall|k: int| 0 <= k < self.auctions@.len() implies bids_wf(
                (#[trigger] self.auctions@[k]).auction.bids,
                self.auctions@[k].auction.owner_id,
            ) by {
                let j = entry_index(old_entries, auction_id@);
                assert(self.auctions@[k] == (if k < j {
                    old_entries[k]
                } else {
                    old_entries[k + 1]
                }));
            }
        }
        let escrow_id = self.escrow_account_id.as_ref().unwrap();
        let mut intents = refund_all(&removed.bids);
        let ghost before_push = intents@;
        intents.push(
            EscrowIntent::ReleaseAsset {
                custodian: escrow_id.clone(),
                asset: removed.asset.clone(),
                recipient: removed.owner_id.clone(),
            },
        );
        proof {
            lemma_intents_view_push(before_push, intents@.last());
        }
        Ok(intents)
    }

    /// Resolves a closed auction, once: the highest bidder — on ties the
    /// first to reach the maximum — is recorded as the winner and receives
    /// the asset's control; every other bidder is refunded in full. With no
    /// bids, the asset's control returns to the owner, who is recorded as
    /// the resolution recipient so that finalization stays one-shot.
    ///
    /// Anyone may call it; it fails before the closing block has passed and
    /// on an auction already finalized.
    pub fn finalize_auction(&mut self, current_height: u64, auction_id: &String) -> (r: Result<
        Vec<EscrowIntent>,
        AuctionError,
    >)
        requires
            old(self).wf(),
            old(self).is_configured(),
        ensures
            final (self).wf(),
            final (self).config_unchanged(old(self)),
            ledger_lookup(old(self).auctions@, auction_id@) is None ==> r == Err::<
                Vec<EscrowIntent>,
                AuctionError,
            >(AuctionError::NotFound) && *final (self) == *old(self),
            ledger_lookup(old(self).auctions@, auction_id@) matches Some(a) ==> {
                &&& current_height <= a.close_block ==> r == Err::<Vec<EscrowIntent>, AuctionError>(
                    AuctionError::AuctionStillOpen,
                ) && *final (self) == *old(self)
                &&& current_height > a.close_block && a.winner_account_id is Some ==> r == Err::<
                    Vec<EscrowIntent>,
                    AuctionError,
                >(AuctionError::AlreadyFinalized) && *final (self) == *old(self)
                &&& current_height > a.close_block && a.winner_account_id is None && a.bids.len()
                    == 0 ==> {
                    &&& r is Ok
                    &&& final (self).auctions@ == ledger_put(
                        old(self).auctions@,
                        auction_id@,
                        AuctionView {
                            owner_id: a.owner_id,
                            winner_account_id: Some(a.owner_id),
                            asset: a.asset,
                            close_block: a.close_block,
                            bids: a.bids,
                        },
                    )
                    &&& r matches Ok(v) ==> intents_view(v@) == seq![
                        IntentView::ReleaseAsset {
                            custodian: old(self).spec_escrow_id(),
                            asset: a.asset,
                            recipient: a.owner_id,
                        },
                    ]
                }
                &&& current_height > a.close_block && a.winner_account_id is None && a.bids.len()
                    > 0 ==> {
                    &&& r is Ok
                    &&& final (self).auctions@ == ledger_put(
                        old(self).auctions@,
                        auction_id@,
                        AuctionView {
                            owner_id: a.owner_id,
                            winner_account_id: Some(a.bids[winning_index(a.bids)].bidder),
                            asset: a.asset,
                            close_block: a.close_block,
                            bids: a.bids,
                        },
                    )
                    &&& r matches Ok(v) ==> intents_view(v@) == refund_intents(
                        a.bids.remove(winning_index(a.bids)),
                    ).push(
                        IntentView::ReleaseAsset {
                            custodian: old(self).spec_escrow_id(),
                            asset: a.asset,
                            recipient: a.bids[winning_index(a.bids)].bidder,
                        },
                    )
                }
            },
    {
        proof {
            lemma_entry_index(self.auctions@, auction_id@);
        }
        let i = self.auctions.index_of(auction_id);
        if i == self.auctions.len() {
            return Err(AuctionError::NotFound);
        }
        proof {
            assert(self.auctions@[i as int] == self.auctions.entries@[i as int]@);
        }
        if current_height <= self.auctions.entries[i].auction.close_block {
            return Err(AuctionError::AuctionStillOpen);
        }
        if self.auctions.entries[i].auction.winner_account_id.is_some() {
            return Err(AuctionError::AlreadyFinalized);
        }
        let ghost old_entries = self.auctions@;
        let (recipient, mut intents): (String, Vec<EscrowIntent>) = if self.auctions.entries[i]
            .auction
            .bids
            .len() == 0 {
            (self.auctions.entries[i].auction.owner_id.clone(), Vec::new())
        } else {
            let w = self.auctions.entries[i].auction.winning_bid_index();
            let refunds = refund_except(&self.auctions.entries[i].auction.bids, w);
            (self.auctions.entries[i].auction.bids[w].bidder.clone(), refunds)
        };
        self.auctions.set_winner_at(i, &recipient);
        proof {
            lemma_ledger_put_wf(old_entries, auction_id@, self.auctions@[i as int].auction);
            assert(final (self).auctions@ =~= ledger_put(
                old_entries,
                auction_id@,
                self.auctions@[i as int].auction,
            ));
            assert forall|k: int| 0 <= k < self.auctions@.len() implies bids_wf(
                (#[trigger] self.auctions@[k]).auction.bids,
                self.auctions@[k].auction.owner_id,
            ) by {
                if k != i {
                    assert(self.auctions@[k] == old_entries[k]);
                } else {
                    assert(self.auctions@[k].auction.bids == old_entries[k].auction.bids);
                }
            }
        }
        let escrow_id = self.escrow_account_id.as_ref().unwrap();
        let ghost before_push = intents@;
        let asset = {
            proof {
                assert(self.auctions@[i as int] == self.auctions.entries@[i as int]@);
            }
            self.auctions.entries[i].auction.asset.clone()
        };
        intents.push(
            EscrowIntent::ReleaseAsset {
                custodian: escrow_id.clone(),
                asset,
                recipient,
            },
        );
        proof {
            lemma_intents_view_push(before_push, intents@.last());
            if old_entries[i as int].auction.bids.len() == 0 {
                assert(intents_view(before_push) =~= Seq::<IntentView>::empty());
            }
        }
        Ok(intents)
    }
}

} // verus!
