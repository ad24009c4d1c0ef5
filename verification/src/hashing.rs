use vstd::prelude::*;

use crate::encode::{i64_le, u16_le, u64_le};
use crate::keys::Pubkey;

verus! {

/// The keccak-256 digest of a byte sequence.  The digest is a function of
/// the bytes alone; what it is on given bytes is left to the hash itself.
pub uninterp spec fn keccak_of(bytes: Seq<u8>) -> Seq<u8>;

/// Relies on `anchor_lang::solana_program::keccak::hash`: the keccak-256
/// digest of the input bytes, 32 bytes, depending on those bytes alone.
#[verifier::external_body]
fn keccak256(bytes: &Vec<u8>) -> (r: [u8; 32])
    ensures
        r@ == keccak_of(bytes@),
{
    anchor_lang::solana_program::keccak::hash(bytes.as_slice()).0
}

/// The fixed-order concatenation of the canonical little-endian encodings of
/// the trade fields, as hashed into a trade identifier.
pub open spec fn trade_id_preimage(
    user: Seq<u8>,
    token_in: Seq<u8>,
    token_out: Seq<u8>,
    amount: u64,
    price: u64,
    slippage_bps: u16,
    timestamp: i64,
) -> Seq<u8> {
    user + token_in + token_out + u64_le(amount) + u64_le(price) + u16_le(slippage_bps)
        + i64_le(timestamp)
}

/// The 32-byte trade identifier: keccak-256 over the canonical encoding of
/// the trade fields and the trusted timestamp.
pub open spec fn trade_id_of(
    user: Seq<u8>,
    token_in: Seq<u8>,
    token_out: Seq<u8>,
    amount: u64,
    price: u64,
    slippage_bps: u16,
    timestamp: i64,
) -> Seq<u8> {
    keccak_of(trade_id_preimage(user, token_in, token_out, amount, price, slippage_bps, timestamp))
}

/// Compute the identifier of a trade from its fields and the timestamp taken
/// for the enclosing transaction.
pub fn compute_trade_id(
    user: &Pubkey,
    token_in: &Pubkey,
    token_out: &Pubkey,
    amount: u64,
    price: u64,
    slippage_bps: u16,
    timestamp: i64,
) -> (r: [u8; 32])
    ensures
        r@ == trade_id_of(user@, token_in@, token_out@, amount, price, slippage_bps, timestamp),
{
    let mut bytes: Vec<u8> = Vec::new();
    crate::encode::push_array(&mut bytes, &user.bytes);
    crate::encode::push_array(&mut bytes, &token_in.bytes);
    crate::encode::push_array(&mut bytes, &token_out.bytes);
    let amount_bytes = crate::encode::u64_to_le(amount);
    crate::encode::push_bytes(&mut bytes, &amount_bytes);
    let price_bytes = crate::encode::u64_to_le(price);
    crate::encode::push_bytes(&mut bytes, &price_bytes);
    let slippage_bytes = crate::encode::u16_to_le(slippage_bps);
    crate::encode::push_bytes(&mut bytes, &slippage_bytes);
    let timestamp_bytes = crate::encode::i64_to_le(timestamp);
    crate::encode::push_bytes(&mut bytes, &timestamp_bytes);
    proof {
        assert(bytes@ =~= trade_id_preimage(
            user@,
            token_in@,
            token_out@,
            amount,
            price,
            slippage_bps,
            timestamp,
        ));
    }
    keccak256(&bytes)
}

/// Law: the trade identifier is a pure function of its seven inputs —
/// identical argument tuples always give a byte-identical identifier.
pub proof fn lemma_trade_id_deterministic(
    user1: Seq<u8>,
    token_in1: Seq<u8>,
    token_out1: Seq<u8>,
    amount1: u64,
    price1: u64,
    slippage_bps1: u16,
    timestamp1: i64,
    user2: Seq<u8>,
    token_in2: Seq<u8>,
    token_out2: Seq<u8>,
    amount2: u64,
    price2: u64,
    slippage_bps2: u16,
    timestamp2: i64,
)
    requires
        user1 == user2,
        token_in1 == token_in2,
        token_out1 == token_out2,
        amount1 == amount2,
        price1 == price2,
        slippage_bps1 == slippage_bps2,
        timestamp1 == timestamp2,
    ensures
        trade_id_of(user1, token_in1, token_out1, amount1, price1, slippage_bps1, timestamp1)
            == trade_id_of(user2, token_in2, token_out2, amount2, price2, slippage_bps2, timestamp2),
{
}

} // verus!
