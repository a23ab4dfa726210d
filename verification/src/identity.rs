//! The deterministic auction identifier.
//!
//! An auction is addressed by the lowercase hexadecimal rendering of the
//! Keccak-256 digest of its identifying text: owner, asset and the closing
//! block height in decimal, in that fixed order, joined with `:`. The
//! separator is a character no account identifier and no decimal rendering
//! can hold, so the text determines its three fields
//! ([`lemma_auction_text_injective`]); identical fields always yield the
//! identical identifier, and distinct fields yield distinct identifiers up
//! to the hash's collision resistance. The identifier is the auction's
//! ledger key, which turns the duplicate-open-auction check into a point
//! lookup.

use crate::account::valid_account_id;
use crate::encoding::{
    dec_chars, hex_chars, lemma_dec_chars_injective, lemma_hex_chars_len, push_char, to_dec_string,
    to_hex_string,
};
use vstd::prelude::*;
use vstd::string::StringExecFns;

verus! {

/// The Keccak-256 digest of a text: a fixed function of the text alone,
/// named here and computed only by [`keccak256`].
pub uninterp spec fn keccak256_of(s: Seq<char>) -> Seq<u8>;

/// Relies on `sha3::Keccak256` through `digest::Digest::digest`: the 32-byte
/// Keccak-256 digest of the string's bytes, a function of the string alone.
#[verifier::external_body]
fn keccak256(s: &str) -> (r: Vec<u8>)
    ensures
        r@ == keccak256_of(s@),
        r@.len() == 32,
{
    <sha3::Keccak256 as sha3::Digest>::digest(s.as_bytes()).as_slice().to_vec()
}

/// The text that identifies an auction: owner, asset and the closing block
/// height in decimal, joined with the `:` separator.
pub open spec fn auction_text(owner: Seq<char>, asset: Seq<char>, close_block: u64) -> Seq<char> {
    owner + seq![':'] + asset + seq![':'] + dec_chars(close_block as nat)
}

/// Splitting at the first separator is unambiguous when neither head holds
/// one: equal joined texts have equal heads and equal tails.
proof fn lemma_sep_split(a1: Seq<char>, b1: Seq<char>, a2: Seq<char>, b2: Seq<char>)
    requires
        forall|i: int| 0 <= i < a1.len() ==> #[trigger] a1[i] != ':',
        forall|i: int| 0 <= i < a2.len() ==> #[trigger] a2[i] != ':',
        a1 + seq![':'] + b1 == a2 + seq![':'] + b2,
    ensures
        a1 == a2,
        b1 == b2,
{
    let s = a1 + seq![':'] + b1;
    assert(s.len() == a1.len() + 1 + b1.len());
    assert(s.len() == a2.len() + 1 + b2.len());
    assert(s[a1.len() as int] == ':');
    assert(s[a2.len() as int] == ':');
    if a1.len() < a2.len() {
        assert(s[a1.len() as int] == a2[a1.len() as int]);
        assert(false);
    }
    if a2.len() < a1.len() {
        assert(s[a2.len() as int] == a1[a2.len() as int]);
        assert(false);
    }
    assert(a1 =~= a2) by {
        assert(forall|i: int| 0 <= i < a1.len() ==> #[trigger] a1[i] == s[i] && a2[i] == s[i]);
    }
    assert(b1 =~= b2) by {
        assert(forall|i: int|
            0 <= i < b1.len() ==> #[trigger] b1[i] == s[a1.len() + 1 + i] && b2[i] == s[a1.len() + 1
                + i]);
    }
}

/// The identifying text determines the auction's fields: for well-formed
/// account identifiers, two texts are equal only when owner, asset and
/// closing height all are. Distinct identifiers for distinct fields then
/// rest on the hash's collision resistance alone.
pub proof fn lemma_auction_text_injective(
    owner1: Seq<char>,
    asset1: Seq<char>,
    close1: u64,
    owner2: Seq<char>,
    asset2: Seq<char>,
    close2: u64,
)
    requires
        valid_account_id(owner1),
        valid_account_id(asset1),
        valid_account_id(owner2),
        valid_account_id(asset2),
        auction_text(owner1, asset1, close1) == auction_text(owner2, asset2, close2),
    ensures
        owner1 == owner2,
        asset1 == asset2,
        close1 == close2,
{
    let tail1 = asset1 + seq![':'] + dec_chars(close1 as nat);
    let tail2 = asset2 + seq![':'] + dec_chars(close2 as nat);
    assert(auction_text(owner1, asset1, close1) =~= owner1 + seq![':'] + tail1);
    assert(auction_text(owner2, asset2, close2) =~= owner2 + seq![':'] + tail2);
    lemma_sep_split(owner1, tail1, owner2, tail2);
    lemma_sep_split(asset1, dec_chars(close1 as nat), asset2, dec_chars(close2 as nat));
    lemma_dec_chars_injective(close1 as nat, close2 as nat);
}

/// The auction identifier for the given immutable fields.
pub open spec fn auction_id_chars(owner: Seq<char>, asset: Seq<char>, close_block: u64) -> Seq<
    char,
> {
    hex_chars(keccak256_of(auction_text(owner, asset, close_block)))
}

/// Computes [`auction_id_chars`]: 64 characters of lowercase hexadecimal.
pub fn compute_auction_id(owner_id: &String, asset: &String, close_block: u64) -> (r: String)
    ensures
        r@ == auction_id_chars(owner_id@, asset@, close_block),
        r@.len() == 64,
{
    let mut text = owner_id.clone();
    push_char(&mut text, ':');
    text.append(asset.as_str());
    push_char(&mut text, ':');
    let height = to_dec_string(close_block);
    text.append(height.as_str());
    proof {
        assert(text@ =~= auction_text(owner_id@, asset@, close_block));
    }
    let digest = keccak256(text.as_str());
    proof {
        lemma_hex_chars_len(digest@);
    }
    to_hex_string(&digest)
}

} // verus!
