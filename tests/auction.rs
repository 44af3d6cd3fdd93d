use near_htlc::auction::DutchAuctionCalculator;
use near_htlc::error::AuctionError;
use near_htlc::order::Order;

fn order(making_amount: u128, filled_amount: u128) -> Order {
    Order {
        salt: 12345,
        maker: "maker.near".to_string(),
        receiver: None,
        maker_asset: "NEAR".to_string(),
        making_amount,
        filled_amount,
    }
}

#[test]
fn test_dutch_auction_calculator() {
    let calc = DutchAuctionCalculator::new();
    let price = calc.calc_price(0, 1000, 1000, 500, 0);
    assert_eq!(price, 1000);
    let o = order(1_000_000_000_000_000_000_000_000, 0);
    let hash = o.hash_order();
    assert!(!hash.is_empty(), "Order hash should not be empty");
    let info = calc.get_price_info(o, 0, 1000, 1000, 500, 0);
    assert_eq!(info.order_hash, hash);
    assert_eq!(info.current_price, 1000);
    assert_eq!(info.time_elapsed_percent, 0);
    assert!(info.is_active);
}

#[test]
fn calc_price_decays_linearly() {
    let calc = DutchAuctionCalculator::new();
    assert_eq!(calc.calc_price(0, 1000, 1000, 500, 0), 1000);
    assert_eq!(calc.calc_price(0, 1000, 1000, 500, 500), 750);
    assert_eq!(calc.calc_price(0, 1000, 1000, 500, 1000), 500);
    assert_eq!(calc.calc_price(0, 1000, 1000, 500, 5000), 500);
}

#[test]
fn calc_price_truncates_once() {
    let calc = DutchAuctionCalculator::new();
    // (10 * 2 + 1 * 1) / 3 = 7, where dividing each term would give 6.
    assert_eq!(calc.calc_price(100, 103, 10, 1, 101), 7);
    assert_eq!(calc.calc_price(100, 103, 10, 1, 50), 10);
}

#[test]
fn calc_price_on_empty_window_is_start_price() {
    let calc = DutchAuctionCalculator::new();
    assert_eq!(calc.calc_price(1000, 1000, 7, 3, 1000), 7);
    assert_eq!(calc.calc_price(1000, 500, 7, 3, 2000), 7);
}

#[test]
fn try_calc_price_reports_overflow() {
    let calc = DutchAuctionCalculator::new();
    assert_eq!(calc.try_calc_price(0, 10, u128::MAX, 1, 5), None);
    assert_eq!(calc.try_calc_price(0, 10, u128::MAX, 1, 10), Some(1));
    assert_eq!(calc.try_calc_price(0, 1000, 1000, 500, 250), Some(875));
}

#[test]
fn hash_order_is_keccak_of_fields() {
    let o = order(42, 0);
    let expected = hex::encode(near_sdk::env::keccak256(b"12345:maker.near:NEAR:42"));
    assert_eq!(o.hash_order(), expected);
    assert_eq!(o.hash_order().len(), 64);
    let mut other = order(42, 0);
    other.salt = 12346;
    assert_ne!(other.hash_order(), o.hash_order());
}

#[test]
fn price_info_elapsed_percent() {
    let calc = DutchAuctionCalculator::new();
    let info = calc.get_price_info(order(1, 0), 1000, 2000, 1000, 500, 1250);
    assert_eq!(info.time_elapsed_percent, 25);
    assert_eq!(info.current_price, 875);
    assert!(info.is_active);
    let late = calc.get_price_info(order(1, 0), 1000, 2000, 1000, 500, 9000);
    assert_eq!(late.time_elapsed_percent, 100);
    assert!(!late.is_active);
    let early = calc.get_price_info(order(1, 0), 1000, 2000, 1000, 500, 10);
    assert_eq!(early.time_elapsed_percent, 0);
    let empty = calc.get_price_info(order(1, 0), 1000, 1000, 1000, 500, 10);
    assert_eq!(empty.time_elapsed_percent, 100);
}

#[test]
fn fill_order_before_and_after_end() {
    let mut calc = DutchAuctionCalculator::new();
    let info = calc
        .fill_order(order(77, 0), "taker.near".to_string(), 0, 1000, 1000, 500, 500)
        .unwrap();
    assert_eq!(info.fill_price, 750);
    assert_eq!(info.fill_time, 500);
    assert_eq!(info.maker, "maker.near");
    assert_eq!(info.taker, "taker.near");
    assert_eq!(info.maker_asset, "NEAR");
    assert_eq!(info.making_amount, 77);
    assert_eq!(info.order_hash, order(77, 0).hash_order());
    let late = calc.fill_order(order(77, 0), "taker.near".to_string(), 0, 1000, 1000, 500, 1000);
    assert!(matches!(late, Err(AuctionError::AuctionExpired)));
}

#[test]
fn making_amount_capped_by_remainder() {
    let calc = DutchAuctionCalculator::new();
    let o = order(1000, 200);
    // price 750: 800 * 300 / 750 = 320
    assert_eq!(calc.get_making_amount(&o, 300, 0, 1000, 1000, 500, 500), Ok(320));
    for offchain in [0u128, 1, 750, 10_000, 1_000_000_000] {
        for now in [0u64, 250, 500, 999, 1000, 2000] {
            let r = calc.get_making_amount(&o, offchain, 0, 1000, 1000, 500, now).unwrap();
            assert!(r <= 800);
        }
    }
    assert_eq!(calc.get_making_amount(&o, 1_000_000, 0, 1000, 1000, 500, 500), Ok(800));
}

#[test]
fn making_amount_arithmetic_errors() {
    let calc = DutchAuctionCalculator::new();
    assert_eq!(
        calc.get_making_amount(&order(100, 200), 1, 0, 1000, 1000, 500, 0),
        Err(AuctionError::Arithmetic)
    );
    assert_eq!(
        calc.get_making_amount(&order(100, 0), 1, 0, 1000, 0, 0, 500),
        Err(AuctionError::Arithmetic)
    );
    assert_eq!(
        calc.get_making_amount(&order(u128::MAX, 0), 2, 0, 1000, 1000, 500, 0),
        Err(AuctionError::Arithmetic)
    );
    assert_eq!(
        calc.get_making_amount(&order(100, 0), 1, 0, 10, u128::MAX, 1, 5),
        Err(AuctionError::Arithmetic)
    );
}
