//! Capability-transfer intents: the escrow protocol's side effects.
//!
//! The auction house never touches credentials or balances itself. Every
//! operation returns the list of [`EscrowIntent`] values it wants performed,
//! and the hosting runtime executes them after the state change commits.
//! The one ordering that matters is built into [`transfer_ownership`]: the
//! custodian's credential is granted before the owner's is revoked, so no
//! moment leaves the account without a valid controller.

use crate::auction::{Bid, BidView, bids_view};
use vstd::prelude::*;
use vstd::string::StringExecFns;

verus! {

/// The allowance attached to the owner's narrow cancellation capability.
pub const ACCESS_KEY_ALLOWANCE: u128 = 1_000_000_000_000_000_000_000;

/// One side effect the hosting runtime is asked to perform.
#[derive(Clone, Debug, PartialEq, Eq)]
pub enum EscrowIntent {
    /// Grant the holder of `public_key` full control of `account`.
    GrantFullAccess {
        /// The account whose control is granted.
        account: String,
        /// The credential that gains it.
        public_key: Vec<u8>,
    },
    /// Revoke `public_key`'s control of `account`.
    RevokeKey {
        /// The account whose key ring loses an entry.
        account: String,
        /// The credential that loses control.
        public_key: Vec<u8>,
    },
    /// Grant the holder of `public_key` the right to call only `method` on
    /// `receiver`, spending at most `allowance`.
    GrantScopedAccess {
        /// The account whose key ring gains the narrow entry.
        account: String,
        /// The credential the narrow capability is bound to.
        public_key: Vec<u8>,
        /// The most the capability may spend.
        allowance: u128,
        /// The account the capability may address.
        receiver: String,
        /// The one operation the capability may invoke.
        method: String,
    },
    /// Move `amount` of attached or escrowed funds to `to`.
    TransferFunds {
        /// The receiving account.
        to: String,
        /// How much moves.
        amount: u128,
    },
    /// Hand the asset's control capability from the custodian to `recipient`.
    ReleaseAsset {
        /// The custodian holding the capability.
        custodian: String,
        /// The account whose control is handed over.
        asset: String,
        /// The account that receives control.
        recipient: String,
    },
}

/// The spec-level value of an [`EscrowIntent`].
pub enum IntentView {
    /// See [`EscrowIntent::GrantFullAccess`].
    GrantFullAccess { account: Seq<char>, public_key: Seq<u8> },
    /// See [`EscrowIntent::RevokeKey`].
    RevokeKey { account: Seq<char>, public_key: Seq<u8> },
    /// See [`EscrowIntent::GrantScopedAccess`].
    GrantScopedAccess {
        account: Seq<char>,
        public_key: Seq<u8>,
        allowance: u128,
        receiver: Seq<char>,
        method: Seq<char>,
    },
    /// See [`EscrowIntent::TransferFunds`].
    TransferFunds { to: Seq<char>, amount: u128 },
    /// See [`EscrowIntent::ReleaseAsset`].
    ReleaseAsset { custodian: Seq<char>, asset: Seq<char>, recipient: Seq<char> },
}

impl View for EscrowIntent {
    type V = IntentView;

    open spec fn view(&self) -> IntentView {
        match self {
            EscrowIntent::GrantFullAccess { account, public_key } => IntentView::GrantFullAccess {
                account: account@,
                public_key: public_key@,
            },
            EscrowIntent::RevokeKey { account, public_key } => IntentView::RevokeKey {
                account: account@,
                public_key: public_key@,
            },
            EscrowIntent::GrantScopedAccess {
                account,
                public_key,
                allowance,
                receiver,
                method,
            } => IntentView::GrantScopedAccess {
                account: account@,
                public_key: public_key@,
                allowance: *allowance,
                receiver: receiver@,
                method: method@,
            },
            EscrowIntent::TransferFunds { to, amount } => IntentView::TransferFunds {
                to: to@,
                amount: *amount,
            },
            EscrowIntent::ReleaseAsset { custodian, asset, recipient } => IntentView::ReleaseAsset {
                custodian: custodian@,
                asset: asset@,
                recipient: recipient@,
            },
        }
    }
}

/// The spec-level value of a sequence of intents.
pub open spec fn intents_view(s: Seq<EscrowIntent>) -> Seq<IntentView> {
    s.map_values(|x: EscrowIntent| x@)
}

/// The two intents that move an account's control to the custodian: first
/// the grant, then the revocation of the credential the owner signed with.
pub open spec fn lock_intents(
    from_account_id: Seq<char>,
    from_public_key: Seq<u8>,
    to_public_key: Seq<u8>,
) -> Seq<IntentView> {
    seq![
        IntentView::GrantFullAccess { account: from_account_id, public_key: to_public_key },
        IntentView::RevokeKey { account: from_account_id, public_key: from_public_key },
    ]
}

/// Locks an account into escrow: grants the custodian's credential full
/// control of `from_account_id`, and only after that revokes the credential
/// the owner used, so the account never stands without a valid controller.
/// The custodian's identity names who holds the granted credential; the
/// intents themselves act on the owner's account alone.
#[allow(unused_variables)]
pub fn transfer_ownership(
    from_account_id: &String,
    from_public_key: &Vec<u8>,
    to_public_key: &Vec<u8>,
    to_account_id: &String,
) -> (r: Vec<EscrowIntent>)
    ensures
        intents_view(r@) == lock_intents(from_account_id@, from_public_key@, to_public_key@),
{
    let mut r: Vec<EscrowIntent> = Vec::new();
    r.push(
        EscrowIntent::GrantFullAccess {
            account: from_account_id.clone(),
            public_key: to_public_key.clone(),
        },
    );
    r.push(
        EscrowIntent::RevokeKey {
            account: from_account_id.clone(),
            public_key: from_public_key.clone(),
        },
    );
    proof {
        assert(intents_view(r@) =~= lock_intents(
            from_account_id@,
            from_public_key@,
            to_public_key@,
        ));
    }
    r
}

/// The narrow capability an owner keeps after listing: it may call only the
/// cancellation operation, with a bounded allowance.
pub open spec fn recall_intent(owner_id: Seq<char>, owner_public_key: Seq<u8>) -> IntentView {
    IntentView::GrantScopedAccess {
        account: owner_id,
        public_key: owner_public_key,
        allowance: ACCESS_KEY_ALLOWANCE,
        receiver: owner_id,
        method: "cancel_auction"@,
    }
}

/// Issues the owner their recall capability, as [`recall_intent`] says.
pub fn grant_recall_capability(owner_id: &String, owner_public_key: &Vec<u8>) -> (r: EscrowIntent)
    ensures
        r@ == recall_intent(owner_id@, owner_public_key@),
{
    EscrowIntent::GrantScopedAccess {
        account: owner_id.clone(),
        public_key: owner_public_key.clone(),
        allowance: ACCESS_KEY_ALLOWANCE,
        receiver: owner_id.clone(),
        method: String::from_str("cancel_auction"),
    }
}

/// One full refund per recorded bidder, in ledger order.
pub open spec fn refund_intents(bids: Seq<BidView>) -> Seq<IntentView> {
    bids.map_values(|b: BidView| IntentView::TransferFunds { to: b.bidder, amount: b.amount })
}

/// Appending an intent appends its value.
pub proof fn lemma_intents_view_push(s: Seq<EscrowIntent>, x: EscrowIntent)
    ensures
        intents_view(s.push(x)) == intents_view(s).push(x@),
{
    assert(intents_view(s.push(x)) =~= intents_view(s).push(x@));
}

/// Appending a bid appends its refund.
proof fn lemma_refund_intents_push(s: Seq<BidView>, b: BidView)
    ensures
        refund_intents(s.push(b)) == refund_intents(s).push(
            IntentView::TransferFunds { to: b.bidder, amount: b.amount },
        ),
{
    assert(refund_intents(s.push(b)) =~= refund_intents(s).push(
        IntentView::TransferFunds { to: b.bidder, amount: b.amount },
    ));
}

/// Builds [`refund_intents`] for every recorded bidder.
pub fn refund_all(bids: &Vec<Bid>) -> (r: Vec<EscrowIntent>)
    ensures
        intents_view(r@) == refund_intents(bids_view(bids@)),
{
    let ghost all = bids_view(bids@);
    let mut r: Vec<EscrowIntent> = Vec::new();
    let mut i: usize = 0;
    while i < bids.len()
        invariant
            all == bids_view(bids@),
            0 <= i <= all.len(),
            intents_view(r@) == refund_intents(all.subrange(0, i as int)),
        decreases all.len() - i,
    {
        let b = &bids[i];
        let ghost r0 = r@;
        r.push(EscrowIntent::TransferFunds { to: b.bidder.clone(), amount: b.amount });
        proof {
            assert(all[i as int] == bids@[i as int]@);
            lemma_intents_view_push(r0, r@.last());
            lemma_refund_intents_push(all.subrange(0, i as int), all[i as int]);
            assert(all.subrange(0, (i + 1) as int) =~= all.subrange(0, i as int).push(
                all[i as int],
            ));
        }
        i += 1;
    }
    proof {
        assert(all.subrange(0, all.len() as int) =~= all);
    }
    r
}

/// Builds [`refund_intents`] for every recorded bidder but the one at
/// `skip`: the winner keeps no claim to a refund.
pub fn refund_except(bids: &Vec<Bid>, skip: usize) -> (r: Vec<EscrowIntent>)
    requires
        skip < bids@.len(),
    ensures
        intents_view(r@) == refund_intents(bids_view(bids@).remove(skip as int)),
{
    let ghost all = bids_view(bids@);
    let mut r: Vec<EscrowIntent> = Vec::new();
    let mut i: usize = 0;
    while i < bids.len()
        invariant
            all == bids_view(bids@),
            skip < all.len(),
            0 <= i <= all.len(),
            i <= skip ==> intents_view(r@) == refund_intents(all.subrange(0, i as int)),
            i > skip ==> intents_view(r@) == refund_intents(
                all.subrange(0, i as int).remove(skip as int),
            ),
        decreases all.len() - i,
    {
        let ghost r0 = r@;
        if i != skip {
            let b = &bids[i];
            r.push(EscrowIntent::TransferFunds { to: b.bidder.clone(), amount: b.amount });
        }
        proof {
            assert(all[i as int] == bids@[i as int]@);
            if i < skip {
                lemma_intents_view_push(r0, r@.last());
                lemma_refund_intents_push(all.subrange(0, i as int), all[i as int]);
                assert(all.subrange(0, (i + 1) as int) =~= all.subrange(0, i as int).push(
                    all[i as int],
                ));
            } else if i == skip {
                assert(all.subrange(0, (i + 1) as int).remove(skip as int) =~= all.subrange(
                    0,
                    i as int,
                ));
            } else {
                lemma_intents_view_push(r0, r@.last());
                lemma_refund_intents_push(
                    all.subrange(0, i as int).remove(skip as int),
                    all[i as int],
                );
                assert(all.subrange(0, (i + 1) as int).remove(skip as int) =~= all.subrange(
                    0,
                    i as int,
                ).remove(skip as int).push(all[i as int]));
            }
        }
        i += 1;
    }
    proof {
        assert(all.subrange(0, all.len() as int) =~= all);
    }
    r
}

} // verus!
