use vstd::prelude::*;
use vstd::string::*;
use vstd::utf8::encode_utf8;

use crate::crypto::{hex_encode, keccak256, keccak256_digest};
use crate::text::{decimal, hex_lower, push_decimal};

verus! {

/// An order offered in a Dutch auction.
#[derive(Debug)]
pub struct Order {
    /// Nonce that makes otherwise equal orders distinct.
    pub salt: u64,
    /// Account that created the order.
    pub maker: String,
    /// Account that receives the proceeds, when it is not the maker.
    pub receiver: Option<String>,
    /// Identifier of the asset offered.
    pub maker_asset: String,
    /// Total amount offered.
    pub making_amount: u128,
    /// Part of `making_amount` already claimed; never above it.
    pub filled_amount: u128,
}

/// The text that identifies an order: salt, maker, asset and amount, in that
/// order, separated by colons.
pub open spec fn order_preimage(salt: u64, maker: Seq<char>, maker_asset: Seq<char>, making_amount: u128)
    -> Seq<char>
{
    decimal(salt as nat) + ":"@ + maker + ":"@ + maker_asset + ":"@ + decimal(making_amount as nat)
}

/// The order hash: the lowercase hex Keccak-256 digest of the UTF-8 bytes of
/// the order's preimage.
pub open spec fn order_hash_text(salt: u64, maker: Seq<char>, maker_asset: Seq<char>, making_amount: u128)
    -> Seq<char>
{
    hex_lower(keccak256_digest(encode_utf8(order_preimage(salt, maker, maker_asset, making_amount))))
}

impl Order {
    /// The hash of this order, over its salt, maker, asset and amount.
    pub open spec fn spec_hash(&self) -> Seq<char> {
        order_hash_text(self.salt, self.maker@, self.maker_asset@, self.making_amount)
    }

    /// Computes a stable hash of the order, as 64 lowercase hex digits.
    pub fn hash_order(&self) -> (r: String)
        ensures
            r@ == self.spec_hash(),
    {
        let mut order_data = String::new();
        push_decimal(&mut order_data, self.salt as u128);
        order_data.append(":");
        order_data.append(self.maker.as_str());
        order_data.append(":");
        order_data.append(self.maker_asset.as_str());
        order_data.append(":");
        push_decimal(&mut order_data, self.making_amount);
        assert(order_data@ =~= order_preimage(
            self.salt,
            self.maker@,
            self.maker_asset@,
            self.making_amount,
        ));
        let hash_bytes = keccak256(order_data.as_str().as_bytes());
        hex_encode(hash_bytes.as_slice())
    }
}

} // verus!
