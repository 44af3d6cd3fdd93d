use vstd::prelude::*;
use vstd::utf8::encode_utf8;

use crate::account::{is_valid_account_id, valid_account_id};
use crate::crypto::{hex_encode, sha256, sha256_digest};
use crate::error::EscrowError;
use crate::text::{
    add_0x_prefix, check_hex_field, digit_char, eq_ignore_ascii_case, hex_lower, is_hex_field,
    lower, strip_0x, with_0x,
};

verus! {

/// Number of hex digits in a 32-byte hash.
pub const HASH_HEX_LEN: usize = 64;

/// Number of hex digits in a 20-byte counterparty address.
pub const ADDRESS_HEX_LEN: usize = 40;

/// The fixed parameters of one swap, validated at construction.
#[derive(Debug)]
pub struct EscrowImmutables {
    /// Hash of the order, 64 hex digits with an optional `0x` prefix.
    pub order_hash: String,
    /// Commitment to the secret, 64 hex digits with an optional `0x` prefix.
    pub hashlock: String,
    /// Account that receives the principal when the secret is revealed.
    pub maker: String,
    /// Counterparty address on the other chain, 40 hex digits with an optional `0x` prefix.
    pub taker_evm_address: String,
    /// Principal, in the smallest unit of the native token.
    pub amount: u128,
    /// Bond held beside the principal.
    pub safety_deposit: u128,
}

/// The outcome of validating swap parameters: the first rule broken, in the
/// order in which they are checked.
pub open spec fn immutables_check(
    order_hash: Seq<char>,
    hashlock: Seq<char>,
    maker: Seq<char>,
    taker_evm_address: Seq<char>,
    amount: u128,
    safety_deposit: u128,
) -> Result<(), EscrowError> {
    if !is_hex_field(order_hash, HASH_HEX_LEN as nat) {
        Err(EscrowError::InvalidOrderHash)
    } else if !is_hex_field(hashlock, HASH_HEX_LEN as nat) {
        Err(EscrowError::InvalidHashlock)
    } else if !is_hex_field(taker_evm_address, ADDRESS_HEX_LEN as nat) {
        Err(EscrowError::InvalidEvmAddress)
    } else if !valid_account_id(maker) {
        Err(EscrowError::InvalidAccountId)
    } else if amount == 0 {
        Err(EscrowError::ZeroAmount)
    } else if amount + safety_deposit > u128::MAX {
        Err(EscrowError::DepositOverflow)
    } else {
        Ok(())
    }
}

/// `0x` followed by the lowercase hex SHA-256 digest of the UTF-8 bytes of `input`.
pub open spec fn sha256_hex(input: Seq<char>) -> Seq<char> {
    seq!['0', 'x'] + hex_lower(sha256_digest(encode_utf8(input)))
}

/// Whether `secret` opens `hashlock`: its digest and the hashlock, both with a
/// `0x` prefix, agree up to ASCII case.
pub open spec fn secret_matches(secret: Seq<char>, hashlock: Seq<char>) -> bool {
    lower(sha256_hex(secret)) == lower(with_0x(hashlock))
}

impl EscrowImmutables {
    /// The parameters passed every rule of construction.
    pub open spec fn wf(&self) -> bool {
        immutables_check(
            self.order_hash@,
            self.hashlock@,
            self.maker@,
            self.taker_evm_address@,
            self.amount,
            self.safety_deposit,
        ) is Ok
    }

    /// `amount + safety_deposit`.
    pub open spec fn total_required(&self) -> int {
        self.amount + self.safety_deposit
    }

    /// Validates the swap parameters and builds them.
    pub fn new(
        order_hash: String,
        hashlock: String,
        maker: String,
        taker_evm_address: String,
        amount: u128,
        safety_deposit: u128,
    ) -> (r: Result<EscrowImmutables, EscrowError>)
        ensures
            r is Ok <==> immutables_check(
                order_hash@,
                hashlock@,
                maker@,
                taker_evm_address@,
                amount,
                safety_deposit,
            ) is Ok,
            r matches Err(e) ==> Err::<(), EscrowError>(e) == immutables_check(
                order_hash@,
                hashlock@,
                maker@,
                taker_evm_address@,
                amount,
                safety_deposit,
            ),
            r matches Ok(im) ==> {
                &&& im.wf()
                &&& im.order_hash@ == order_hash@
                &&& im.hashlock@ == hashlock@
                &&& im.maker@ == maker@
                &&& im.taker_evm_address@ == taker_evm_address@
                &&& im.amount == amount
                &&& im.safety_deposit == safety_deposit
            },
    {
        if !check_hex_field(order_hash.as_str(), HASH_HEX_LEN) {
            return Err(EscrowError::InvalidOrderHash);
        }
        if !check_hex_field(hashlock.as_str(), HASH_HEX_LEN) {
            return Err(EscrowError::InvalidHashlock);
        }
        if !check_hex_field(taker_evm_address.as_str(), ADDRESS_HEX_LEN) {
            return Err(EscrowError::InvalidEvmAddress);
        }
        if !is_valid_account_id(maker.as_str()) {
            return Err(EscrowError::InvalidAccountId);
        }
        if amount == 0 {
            return Err(EscrowError::ZeroAmount);
        }
        if amount > u128::MAX - safety_deposit {
            return Err(EscrowError::DepositOverflow);
        }
        Ok(EscrowImmutables { order_hash, hashlock, maker, taker_evm_address, amount, safety_deposit })
    }

    /// The value that must be attached to fund the escrow: `amount + safety_deposit`.
    pub fn get_total_required(&self) -> (r: u128)
        requires
            self.total_required() <= u128::MAX,
        ensures
            r == self.total_required(),
    {
        self.amount + self.safety_deposit
    }

    /// Whether `secret` hashes to the hashlock, ignoring a `0x` prefix and letter case.
    pub fn verify_secret(&self, secret: &str) -> (r: bool)
        ensures
            r == secret_matches(secret@, self.hashlock@),
    {
        let secret_hash = Self::compute_sha256(secret);
        let expected_hash = add_0x_prefix(self.hashlock.as_str());
        eq_ignore_ascii_case(secret_hash.as_str(), expected_hash.as_str())
    }

    /// `0x` followed by the lowercase hex SHA-256 digest of the UTF-8 bytes of `input`.
    pub fn compute_sha256(input: &str) -> (r: String)
        ensures
            r@ == sha256_hex(input@),
    {
        let hash = sha256(input.as_bytes());
        let digits = hex_encode(hash.as_slice());
        let prefix = String::from_str("0x");
        proof {
            reveal_strlit("0x");
        }
        prefix.concat(digits.as_str())
    }

    /// The hashlock with a `0x` prefix.
    pub fn get_normalized_hashlock(&self) -> (r: String)
        ensures
            r@ == with_0x(self.hashlock@),
    {
        add_0x_prefix(self.hashlock.as_str())
    }

    /// The order hash with a `0x` prefix.
    pub fn get_normalized_order_hash(&self) -> (r: String)
        ensures
            r@ == with_0x(self.order_hash@),
    {
        add_0x_prefix(self.order_hash.as_str())
    }

    /// The counterparty address with a `0x` prefix.
    pub fn get_normalized_evm_address(&self) -> (r: String)
        ensures
            r@ == with_0x(self.taker_evm_address@),
    {
        add_0x_prefix(self.taker_evm_address.as_str())
    }
}

proof fn lemma_hex_lower_is_lowercase(b: Seq<u8>)
    ensures
        lower(hex_lower(b)) == hex_lower(b),
    decreases b.len(),
{
    if b.len() > 0 {
        lemma_hex_lower_is_lowercase(b.drop_last());
        let tail = seq![digit_char((b.last() / 16) as int), digit_char((b.last() % 16) as int)];
        assert(lower(tail) =~= tail);
        assert(lower(hex_lower(b.drop_last()) + tail) =~= lower(hex_lower(b.drop_last())) + lower(tail));
    }
}

proof fn lemma_with_0x_splits(s: Seq<char>)
    ensures
        with_0x(s) == seq!['0', 'x'] + strip_0x(s),
        lower(with_0x(s)) == seq!['0', 'x'] + lower(strip_0x(s)),
{
    assert(with_0x(s) =~= seq!['0', 'x'] + strip_0x(s));
    assert(lower(seq!['0', 'x'] + strip_0x(s)) =~= seq!['0', 'x'] + lower(strip_0x(s)));
}

/// The secret check compares the digest with the hashlock normalized: without
/// its `0x` prefix and in lowercase.
pub proof fn lemma_verify_secret_normalized(secret: Seq<char>, hashlock: Seq<char>)
    ensures
        secret_matches(secret, hashlock) <==> hex_lower(sha256_digest(encode_utf8(secret))) == lower(
            strip_0x(hashlock),
        ),
{
    let digest = hex_lower(sha256_digest(encode_utf8(secret)));
    lemma_hex_lower_is_lowercase(sha256_digest(encode_utf8(secret)));
    lemma_with_0x_splits(hashlock);
    assert(lower(sha256_hex(secret)) =~= seq!['0', 'x'] + lower(digest));
    if secret_matches(secret, hashlock) {
        assert(digest =~= (seq!['0', 'x'] + digest).subrange(2, digest.len() as int + 2));
        assert(lower(strip_0x(hashlock)) =~= (seq!['0', 'x'] + lower(strip_0x(hashlock))).subrange(
            2,
            lower(strip_0x(hashlock)).len() as int + 2,
        ));
    }
}

/// Whether a secret opens a hashlock does not depend on the hashlock's `0x`
/// prefix or on the case of its letters.
pub proof fn lemma_verify_secret_ignores_prefix_and_case(secret: Seq<char>, h1: Seq<char>, h2: Seq<char>)
    requires
        lower(strip_0x(h1)) == lower(strip_0x(h2)),
    ensures
        secret_matches(secret, h1) == secret_matches(secret, h2),
{
    lemma_verify_secret_normalized(secret, h1);
    lemma_verify_secret_normalized(secret, h2);
}

} // verus!
