//! Reading the reference price from what the oracle last published.
use crate::utils::math::{as_unsigned, unsigned_bits};
use pyth_sdk_solana::{Price, PriceFeed, PriceIdentifier};
use vstd::prelude::*;

verus! {

/// What the oracle last published for the reference price: the price and its
/// confidence interval, both to be scaled by ten to the power of `expo`, and
/// the time of publication in seconds since the Unix epoch.
#[derive(Clone, Copy, Debug, PartialEq, Eq, Structural)]
pub struct OraclePrice {
    pub price: i64,
    pub conf: u64,
    pub expo: i32,
    pub publish_time: i64,
}

impl OraclePrice {
    /// The seconds between the publication and `current_time`, whichever
    /// came first.
    pub open spec fn seconds_from(self, current_time: i64) -> int {
        if self.publish_time >= current_time {
            self.publish_time - current_time
        } else {
            current_time - self.publish_time
        }
    }

    /// Whether the publication lies within `staleness_threshold` seconds of
    /// `current_time`. Two times further apart than a signed 64-bit number
    /// can say are never fresh.
    pub open spec fn is_fresh(self, current_time: i64, staleness_threshold: u64) -> bool {
        self.seconds_from(current_time) <= i64::MAX && self.seconds_from(current_time)
            <= staleness_threshold
    }
}

/// The price to record at `current_time`: the published price read as an
/// unsigned number where the publication is fresh, and nothing otherwise.
pub open spec fn price_reading(
    price_update: OraclePrice,
    current_time: i64,
    staleness_threshold: u64,
) -> Option<u64> {
    if price_update.is_fresh(current_time, staleness_threshold) {
        Some(unsigned_bits(price_update.price) as u64)
    } else {
        None
    }
}

/// Calls `PriceFeed::get_price_no_older_than` of the pyth SDK on a feed whose
/// current price is `price_update`. The SDK takes the absolute difference of
/// the publish time and `current_time` in signed 64-bit arithmetic, which is
/// why the difference has to fit, and hands the price back unless that
/// difference exceeds `age`. The feed's identifier and moving average play
/// no part in the answer.
#[verifier::external_body]
fn price_no_older_than(price_update: &OraclePrice, current_time: i64, age: u64) -> (recent: Option<
    OraclePrice,
>)
    requires
        price_update.seconds_from(current_time) <= i64::MAX,
    ensures
        recent == (if price_update.seconds_from(current_time) <= age {
            Some(*price_update)
        } else {
            None
        }),
{
    let price = Price {
        price: price_update.price,
        conf: price_update.conf,
        expo: price_update.expo,
        publish_time: price_update.publish_time,
    };
    let feed = PriceFeed::new(PriceIdentifier::new([0u8; 32]), price, price);
    match feed.get_price_no_older_than(current_time, age) {
        Some(p) => Some(OraclePrice { price: p.price, conf: p.conf, expo: p.expo, publish_time: p.publish_time }),
        None => None,
    }
}

/// The reference price at `current_time`, or `None` where the oracle's last
/// publication is more than `staleness_threshold` seconds away from it, or
/// further than a signed 64-bit number can say. A negative price comes out
/// as its bits read unsigned.
pub fn get_price(price_update: &OraclePrice, current_time: i64, staleness_threshold: u64) -> (price:
    Option<u64>)
    ensures
        price == price_reading(*price_update, current_time, staleness_threshold),
{
    let apart: i128 = price_update.publish_time as i128 - current_time as i128;
    if apart > i64::MAX as i128 || apart < -(i64::MAX as i128) {
        return None;
    }
    match price_no_older_than(price_update, current_time, staleness_threshold) {
        Some(recent) => Some(as_unsigned(recent.price)),
        None => None,
    }
}

} // verus!
