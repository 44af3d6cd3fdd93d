use near_htlc::error::EscrowError;
use near_htlc::immutables::EscrowImmutables;

const ABC_SHA256: &str = "ba7816bf8f01cfea414140de5dae2223b00361a396177a9cb410ff61f20015ad";

fn hash64() -> String {
    "ab".repeat(32)
}

fn address40() -> String {
    "12".repeat(20)
}

fn build(order_hash: &str, hashlock: &str, address: &str, amount: u128, deposit: u128) -> Result<EscrowImmutables, EscrowError> {
    EscrowImmutables::new(
        order_hash.to_string(),
        hashlock.to_string(),
        "maker.near".to_string(),
        address.to_string(),
        amount,
        deposit,
    )
}

#[test]
fn hex_fields_accepted_with_or_without_prefix() {
    let h = hash64();
    let a = address40();
    assert!(build(&h, &h, &a, 1, 0).is_ok());
    let ph = format!("0x{}", h);
    let pa = format!("0x{}", a);
    assert!(build(&ph, &ph, &pa, 1, 0).is_ok());
    let upper = "AbCdEf0123456789".repeat(4);
    assert!(build(&upper, &upper, &a, 1, 0).is_ok());
}

#[test]
fn hex_fields_rejected_by_length() {
    let h = hash64();
    let a = address40();
    assert_eq!(build(&h[..63], &h, &a, 1, 0).unwrap_err(), EscrowError::InvalidOrderHash);
    assert_eq!(build(&format!("{}0", h), &h, &a, 1, 0).unwrap_err(), EscrowError::InvalidOrderHash);
    assert_eq!(build("", &h, &a, 1, 0).unwrap_err(), EscrowError::InvalidOrderHash);
    assert_eq!(build(&h, &h[..62], &a, 1, 0).unwrap_err(), EscrowError::InvalidHashlock);
    assert_eq!(build(&h, &h, &a[..39], 1, 0).unwrap_err(), EscrowError::InvalidEvmAddress);
    assert_eq!(build(&h, &h, &h, 1, 0).unwrap_err(), EscrowError::InvalidEvmAddress);
}

#[test]
fn hex_fields_rejected_by_character() {
    let h = hash64();
    let a = address40();
    let bad_hash = format!("{}g", &h[..63]);
    let bad_address = format!("z{}", &a[1..]);
    assert_eq!(build(&bad_hash, &h, &a, 1, 0).unwrap_err(), EscrowError::InvalidOrderHash);
    assert_eq!(build(&h, &bad_hash, &a, 1, 0).unwrap_err(), EscrowError::InvalidHashlock);
    assert_eq!(build(&h, &h, &bad_address, 1, 0).unwrap_err(), EscrowError::InvalidEvmAddress);
    let upper_prefix = format!("0X{}", h);
    assert_eq!(build(&upper_prefix, &h, &a, 1, 0).unwrap_err(), EscrowError::InvalidOrderHash);
}

#[test]
fn amounts_validated() {
    let h = hash64();
    let a = address40();
    assert_eq!(build(&h, &h, &a, 0, 5).unwrap_err(), EscrowError::ZeroAmount);
    assert_eq!(build(&h, &h, &a, u128::MAX, 1).unwrap_err(), EscrowError::DepositOverflow);
    let im = build(&h, &h, &a, 500, 100).unwrap();
    assert_eq!(im.get_total_required(), 600);
}

#[test]
fn maker_must_be_an_account_id() {
    let h = hash64();
    let a = address40();
    let r = EscrowImmutables::new(h.clone(), h, "Not An Account".to_string(), a, 1, 0);
    assert_eq!(r.unwrap_err(), EscrowError::InvalidAccountId);
}

#[test]
fn compute_sha256_is_prefixed_lowercase_hex() {
    assert_eq!(EscrowImmutables::compute_sha256("abc"), format!("0x{}", ABC_SHA256));
}

#[test]
fn verify_secret_ignores_prefix_and_case() {
    let a = address40();
    for hashlock in [
        ABC_SHA256.to_string(),
        format!("0x{}", ABC_SHA256),
        ABC_SHA256.to_uppercase(),
        format!("0x{}", ABC_SHA256.to_uppercase()),
    ] {
        let im = build(&hash64(), &hashlock, &a, 1, 0).unwrap();
        assert!(im.verify_secret("abc"));
        assert!(!im.verify_secret("abd"));
        assert!(!im.verify_secret(""));
    }
}

#[test]
fn normalized_fields_carry_one_prefix() {
    let h = hash64();
    let a = address40();
    let im = build(&h, &format!("0x{}", h), &a, 1, 0).unwrap();
    assert_eq!(im.get_normalized_order_hash(), format!("0x{}", h));
    assert_eq!(im.get_normalized_hashlock(), format!("0x{}", h));
    assert_eq!(im.get_normalized_evm_address(), format!("0x{}", a));
}
