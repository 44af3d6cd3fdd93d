use vstd::prelude::*;

use crate::error::AuctionError;
use crate::order::Order;

verus! {

/// The current price and state of an order's auction.
#[derive(Debug)]
pub struct PriceInfo {
    /// Price at the queried time.
    pub current_price: u128,
    /// Hash of the order.
    pub order_hash: String,
    /// Share of the auction window already elapsed, from 0 to 100.
    pub time_elapsed_percent: u8,
    /// Whether the auction window is still open.
    pub is_active: bool,
}

/// The record of an order filled at the auction price.
#[derive(Debug)]
pub struct FilledOrderInfo {
    /// Hash of the order.
    pub order_hash: String,
    /// Account that created the order.
    pub maker: String,
    /// Account that filled the order.
    pub taker: String,
    /// Asset sold.
    pub maker_asset: String,
    /// Amount of the asset sold.
    pub making_amount: u128,
    /// Price at which the order was filled.
    pub fill_price: u128,
    /// Time at which the order was filled.
    pub fill_time: u128,
}

/// Prices orders on a curve that falls linearly from a start price to an end
/// price over a time window. It keeps no state of its own.
#[derive(Debug)]
pub struct DutchAuctionCalculator {}

/// `now` clamped into the window `[start_time, end_time]`; `start_time` when the
/// window is empty.
pub open spec fn clamped_time(start_time: u64, end_time: u64, now: u64) -> int {
    let upper = if now < end_time { now as int } else { end_time as int };
    if upper < start_time { start_time as int } else { upper }
}

/// The numerator of the interpolation at clamped time `t`:
/// `start_price * (end_time - t) + end_price * (t - start_time)`.
pub open spec fn interpolation_numerator(
    start_time: u64,
    end_time: u64,
    start_price: u128,
    end_price: u128,
    t: int,
) -> int {
    start_price * (end_time - t) + end_price * (t - start_time)
}

/// The price at `now` does not need an intermediate value above 128 bits.
pub open spec fn price_fits(start_time: u64, end_time: u64, start_price: u128, end_price: u128, now: u64)
    -> bool
{
    let t = clamped_time(start_time, end_time, now);
    t <= start_time || t >= end_time || interpolation_numerator(
        start_time,
        end_time,
        start_price,
        end_price,
        t,
    ) <= u128::MAX
}

/// The auction price at `now`: the start price up to the start of the window,
/// the end price from its end on, and in between the linear interpolation,
/// with one truncating division after both products are summed.
pub open spec fn auction_price(start_time: u64, end_time: u64, start_price: u128, end_price: u128, now: u64)
    -> int
{
    let t = clamped_time(start_time, end_time, now);
    if t <= start_time {
        start_price as int
    } else if t >= end_time {
        end_price as int
    } else {
        interpolation_numerator(start_time, end_time, start_price, end_price, t) / (end_time
            - start_time)
    }
}

/// The share of the window elapsed at `now`, in percent, clamped to `0..=100`;
/// 100 when the window is empty.
pub open spec fn elapsed_percent(start_time: u64, end_time: u64, now: u64) -> int {
    if end_time <= start_time {
        100
    } else if now <= start_time {
        0
    } else {
        let p = (now - start_time) * 100 / (end_time - start_time);
        if p > 100 { 100 } else { p }
    }
}

/// What `get_making_amount` returns: the amount a taker may claim for
/// `offchain_amount` at the current price, never above the unfilled remainder.
pub open spec fn making_amount_outcome(
    making_amount: u128,
    filled_amount: u128,
    offchain_amount: u128,
    start_time: u64,
    end_time: u64,
    start_price: u128,
    end_price: u128,
    now: u64,
) -> Result<u128, AuctionError> {
    let available = making_amount - filled_amount;
    let price = auction_price(start_time, end_time, start_price, end_price, now);
    if filled_amount > making_amount {
        Err(AuctionError::Arithmetic)
    } else if !price_fits(start_time, end_time, start_price, end_price, now) {
        Err(AuctionError::Arithmetic)
    } else if price == 0 {
        Err(AuctionError::Arithmetic)
    } else if available * offchain_amount > u128::MAX {
        Err(AuctionError::Arithmetic)
    } else {
        let requested = available * offchain_amount / price;
        Ok(if requested < available { requested as u128 } else { available as u128 })
    }
}

impl DutchAuctionCalculator {
    /// Creates a calculator; it holds no state.
    pub fn new() -> (r: Self)
        ensures
            r == (DutchAuctionCalculator {}),
    {
        DutchAuctionCalculator {  }
    }

    /// The price at `now`, or `None` when computing it would need an
    /// intermediate value above 128 bits.
    pub fn try_calc_price(&self, start_time: u64, end_time: u64, start_price: u128, end_price: u128, now: u64)
        -> (r: Option<u128>)
        ensures
            r == (if price_fits(start_time, end_time, start_price, end_price, now) {
                Some(auction_price(start_time, end_time, start_price, end_price, now) as u128)
            } else {
                None::<u128>
            }),
    {
        let upper = if now < end_time { now } else { end_time };
        let t = if upper < start_time { start_time } else { upper };
        if t <= start_time {
            return Some(start_price);
        }
        if t >= end_time {
            return Some(end_price);
        }
        let span = (end_time - start_time) as u128;
        let a = match start_price.checked_mul((end_time - t) as u128) {
            Some(v) => v,
            None => return None,
        };
        let b = match end_price.checked_mul((t - start_time) as u128) {
            Some(v) => v,
            None => return None,
        };
        let sum = match a.checked_add(b) {
            Some(v) => v,
            None => return None,
        };
        proof {
            let num = interpolation_numerator(start_time, end_time, start_price, end_price, t as int);
            assert(0 <= num / (span as int) <= num) by (nonlinear_arith)
                requires
                    0 <= num,
                    span >= 1,
            ;
        }
        Some(sum / span)
    }

    /// The price at `now`.
    pub fn calc_price(&self, start_time: u64, end_time: u64, start_price: u128, end_price: u128, now: u64)
        -> (r: u128)
        requires
            price_fits(start_time, end_time, start_price, end_price, now),
        ensures
            r == auction_price(start_time, end_time, start_price, end_price, now),
    {
        match self.try_calc_price(start_time, end_time, start_price, end_price, now) {
            Some(p) => p,
            None => {
                proof {
                    assert(false);
                }
                0
            },
        }
    }

    /// The price, hash, elapsed share and activity of `order`'s auction at `now`.
    pub fn get_price_info(
        &self,
        order: Order,
        start_time: u64,
        end_time: u64,
        start_price: u128,
        end_price: u128,
        now: u64,
    ) -> (r: PriceInfo)
        requires
            price_fits(start_time, end_time, start_price, end_price, now),
        ensures
            r.current_price == auction_price(start_time, end_time, start_price, end_price, now),
            r.order_hash@ == order.spec_hash(),
            r.time_elapsed_percent == elapsed_percent(start_time, end_time, now),
            r.is_active == (now < end_time),
    {
        let current_price = self.calc_price(start_time, end_time, start_price, end_price, now);
        let order_hash = order.hash_order();
        let time_elapsed_percent: u8 = if end_time <= start_time {
            100
        } else if now <= start_time {
            0
        } else {
            let elapsed = (now - start_time) as u128;
            let total = (end_time - start_time) as u128;
            let percent = elapsed * 100 / total;
            if percent > 100 {
                100
            } else {
                percent as u8
            }
        };
        PriceInfo { current_price, order_hash, time_elapsed_percent, is_active: now < end_time }
    }

    /// Fills `order` for `taker` at the price at `now`; fails with
    /// `AuctionExpired` once the window has closed.
    pub fn fill_order(
        &mut self,
        order: Order,
        taker: String,
        start_time: u64,
        end_time: u64,
        start_price: u128,
        end_price: u128,
        now: u64,
    ) -> (r: Result<FilledOrderInfo, AuctionError>)
        requires
            price_fits(start_time, end_time, start_price, end_price, now),
        ensures
            r is Err <==> now >= end_time,
            r matches Err(e) ==> e == AuctionError::AuctionExpired,
            r matches Ok(info) ==> {
                &&& info.order_hash@ == order.spec_hash()
                &&& info.maker@ == order.maker@
                &&& info.taker@ == taker@
                &&& info.maker_asset@ == order.maker_asset@
                &&& info.making_amount == order.making_amount
                &&& info.fill_price == auction_price(start_time, end_time, start_price, end_price, now)
                &&& info.fill_time == now
            },
    {
        let current_price = self.calc_price(start_time, end_time, start_price, end_price, now);
        let order_hash = order.hash_order();
        if now >= end_time {
            return Err(AuctionError::AuctionExpired);
        }
        Ok(
            FilledOrderInfo {
                order_hash,
                maker: order.maker,
                taker,
                maker_asset: order.maker_asset,
                making_amount: order.making_amount,
                fill_price: current_price,
                fill_time: now as u128,
            },
        )
    }

    /// The amount of `order` that a taker may claim for `offchain_amount` at the
    /// price at `now`: `(making - filled) * offchain_amount / price`, capped at
    /// the unfilled remainder. Fails with `Arithmetic` when more is filled than
    /// offered, when the price is zero or cannot be computed, or when the
    /// product overflows.
    pub fn get_making_amount(
        &self,
        order: &Order,
        offchain_amount: u128,
        start_time: u64,
        end_time: u64,
        start_price: u128,
        end_price: u128,
        now: u64,
    ) -> (r: Result<u128, AuctionError>)
        ensures
            r == making_amount_outcome(
                order.making_amount,
                order.filled_amount,
                offchain_amount,
                start_time,
                end_time,
                start_price,
                end_price,
                now,
            ),
            r matches Ok(v) ==> v <= order.making_amount - order.filled_amount,
    {
        if order.filled_amount > order.making_amount {
            return Err(AuctionError::Arithmetic);
        }
        let available = order.making_amount - order.filled_amount;
        let price = match self.try_calc_price(start_time, end_time, start_price, end_price, now) {
            Some(p) => p,
            None => return Err(AuctionError::Arithmetic),
        };
        if price == 0 {
            return Err(AuctionError::Arithmetic);
        }
        let product = match available.checked_mul(offchain_amount) {
            Some(v) => v,
            None => return Err(AuctionError::Arithmetic),
        };
        let requested = product / price;
        if requested < available {
            Ok(requested)
        } else {
            Ok(available)
        }
    }
}

/// Whatever the offchain amount and the price curve, a claim never exceeds the
/// order's unfilled remainder.
pub proof fn lemma_claim_within_remainder(
    making_amount: u128,
    filled_amount: u128,
    offchain_amount: u128,
    start_time: u64,
    end_time: u64,
    start_price: u128,
    end_price: u128,
    now: u64,
)
    ensures
        making_amount_outcome(
            making_amount,
            filled_amount,
            offchain_amount,
            start_time,
            end_time,
            start_price,
            end_price,
            now,
        ) matches Ok(v) ==> v <= making_amount - filled_amount,
{
}

} // verus!
