use crate::item::{creation_error, Item, ItemValidationError};
use chrono::SubsecRound;
use rand::Rng;
use vstd::prelude::*;

verus! {

/// Upper bound on what the clock wrapper can return: chrono's calendar ends
/// at year 262142, whose microsecond timestamp stays well below this value,
/// and the slack above it leaves room for the largest preparation offset.
pub const MAX_CLOCK_MICROS: i64 = 8_400_000_000_000_000_000;

/// Smallest preparation offset that can be drawn, in seconds.
pub const MIN_OFFSET_SECS: i64 = 300;

/// All drawn preparation offsets are strictly below this bound, in seconds.
pub const END_OFFSET_SECS: i64 = 901;

/// Relies on uuid's `Uuid::now_v7` for a fresh time-ordered identifier,
/// converted to its 128-bit value. The result depends on the clock and on
/// random bits, so nothing is stated of it.
#[verifier::external_body]
fn fresh_item_id() -> u128 {
    uuid::Uuid::now_v7().as_u128()
}

/// Relies on chrono's `Utc::now`, rounded to whole microseconds with
/// `SubsecRound::round_subsecs` and converted with `timestamp_micros`.
/// `Utc::now` does not return on a system clock before the Unix epoch, so
/// the result is never negative; chrono's dates end at year 262142, whose
/// microsecond timestamp stays below `MAX_CLOCK_MICROS`.
#[verifier::external_body]
fn clock_now_micros() -> (r: i64)
    ensures
        0 <= r <= MAX_CLOCK_MICROS,
{
    chrono::Utc::now().round_subsecs(6).timestamp_micros()
}

/// Relies on rand's `Rng::gen_range`: a uniform draw from the half-open
/// range `[300, 901)`, sampled anew on every call.
#[verifier::external_body]
fn random_offset_secs() -> (r: i64)
    ensures
        MIN_OFFSET_SECS <= r < END_OFFSET_SECS,
{
    rand::thread_rng().gen_range(300..901)
}

/// The preparation instant: `now_micros` plus the sampled offset. The result
/// always lies in the five-to-fifteen-minute window after `now_micros`.
pub fn preparation_time_micros(now_micros: i64, offset_secs: i64) -> (r: i64)
    requires
        0 <= now_micros <= MAX_CLOCK_MICROS,
        MIN_OFFSET_SECS <= offset_secs < END_OFFSET_SECS,
    ensures
        r == now_micros + offset_secs * 1_000_000,
        now_micros + 300_000_000 <= r <= now_micros + 900_000_000,
{
    now_micros + offset_secs * 1_000_000
}

/// Produces new, valid items: identity and preparation time are assigned
/// here, validation is delegated to the item's constructor.
pub trait ItemFactory: Sized {
    /// Mints an item for `table_id` named `name`. Succeeds exactly when
    /// validation accepts the pair, and then the item carries the given
    /// table id and name; fails with the first failing rule otherwise.
    fn try_create(&self, table_id: i64, name: String) -> (r: Result<Item, ItemValidationError>)
        ensures
            match r {
                Ok(item) => creation_error(table_id, name@) is None && item@.table_id == table_id
                    && item@.name == name@ && item@.valid(),
                Err(e) => creation_error(table_id, name@) == Some(e),
            },
    ;
}

/// The production factory: a fresh time-ordered identifier, the clock, and
/// a random offset of five to fifteen minutes, re-sampled per item.
#[derive(Debug, Default)]
pub struct ItemFactoryImpl;

impl ItemFactory for ItemFactoryImpl {
    fn try_create(&self, table_id: i64, name: String) -> (r: Result<Item, ItemValidationError>) {
        let id = fresh_item_id();
        let now = clock_now_micros();
        let offset = random_offset_secs();
        let preparation_time = preparation_time_micros(now, offset);
        Item::try_new(id, table_id, name, preparation_time)
    }
}

} // verus!
