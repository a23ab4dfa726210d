//! The failure taxonomy of the auction house.
//!
//! Every operation reports failure through one of these variants; the hosting
//! runtime turns a variant into a transaction abort carrying its message.

use vstd::prelude::*;

verus! {

/// Why an auction-house operation refused to act.
#[derive(Clone, Copy, Debug, PartialEq, Eq, Structural)]
pub enum AuctionError {
    /// The custodian identifier handed to the constructor is not a
    /// well-formed account identifier.
    InvalidEscrowId,
    /// The asset identifier handed to `create` is not a well-formed account
    /// identifier.
    InvalidAssetId,
    /// The asset of a new auction is the signer's own identity.
    AssetIsSigner,
    /// The requested closing block of a new auction is not strictly beyond
    /// the creation height.
    CloseBlockNotFuture,
    /// An auction with the same identifying fields is still open.
    DuplicateActiveAuction,
    /// No auction is stored under the given identifier.
    NotFound,
    /// The auction's owner tried to bid on it.
    OwnerCannotBid,
    /// A bid arrived with no attached funds.
    ZeroBidAmount,
    /// A bid arrived after the auction's closing block had passed.
    AuctionClosed,
    /// Someone other than the owner tried to cancel the auction.
    NotOwner,
    /// Finalization was requested before the closing block had passed.
    AuctionStillOpen,
    /// Finalization was requested a second time.
    AlreadyFinalized,
}

impl AuctionError {
    /// The failure reason a caller sees, as the view of [`Self::message`].
    pub open spec fn spec_message(self) -> Seq<char> {
        match self {
            AuctionError::InvalidEscrowId => "Must be a valid escrow contract id"@,
            AuctionError::InvalidAssetId => "Must be a valid root name"@,
            AuctionError::AssetIsSigner => "Auction cannot be signer name"@,
            AuctionError::CloseBlockNotFuture => "Close block must be greater than the creation height"@,
            AuctionError::DuplicateActiveAuction => "Auction is already happening"@,
            AuctionError::NotFound => "Auction id not found"@,
            AuctionError::OwnerCannotBid => "Must not be owner of auction"@,
            AuctionError::ZeroBidAmount => "Must submit bid amount of greater than zero"@,
            AuctionError::AuctionClosed => "Must be an active auction"@,
            AuctionError::NotOwner => "Must be owner to cancel auction"@,
            AuctionError::AuctionStillOpen => "Auction is still open"@,
            AuctionError::AlreadyFinalized => "Auction is already finalized"@,
        }
    }

    /// A descriptive failure reason for the caller.
    pub fn message(&self) -> (r: &'static str)
        ensures
            r@ == self.spec_message(),
    {
        match self {
            AuctionError::InvalidEscrowId => "Must be a valid escrow contract id",
            AuctionError::InvalidAssetId => "Must be a valid root name",
            AuctionError::AssetIsSigner => "Auction cannot be signer name",
            AuctionError::CloseBlockNotFuture => {
                "Close block must be greater than the creation height"
            },
            AuctionError::DuplicateActiveAuction => "Auction is already happening",
            AuctionError::NotFound => "Auction id not found",
            AuctionError::OwnerCannotBid => "Must not be owner of auction",
            AuctionError::ZeroBidAmount => "Must submit bid amount of greater than zero",
            AuctionError::AuctionClosed => "Must be an active auction",
            AuctionError::NotOwner => "Must be owner to cancel auction",
            AuctionError::AuctionStillOpen => "Auction is still open",
            AuctionError::AlreadyFinalized => "Auction is already finalized",
        }
    }
}

} // verus!
