//! The wall clock.

use vstd::prelude::*;

verus! {

/// `std::time::SystemTime::elapsed` of the Unix epoch: whole seconds, and the nanoseconds of the
/// second begun, which are fewer than a billion. `None` where the clock stands before the epoch.
/// Nothing else is claimed of the reading.
#[verifier::external_body]
fn since_epoch() -> (r: Option<(u64, u32)>)
    ensures
        r matches Some(t) ==> t.1 < 1_000_000_000,
{
    std::time::UNIX_EPOCH.elapsed().ok().map(|d| (d.as_secs(), d.subsec_nanos()))
}

/// Milliseconds since the epoch, in 64 bits; zero before the epoch.
pub open spec fn epoch_millis(since: Option<(u64, u32)>) -> int {
    match since {
        Some(t) => (t.0 * 1000 + t.1 / 1_000_000) % 0x1_0000_0000_0000_0000,
        None => 0,
    }
}

/// Whole seconds since the epoch; zero before the epoch.
pub open spec fn epoch_seconds(since: Option<(u64, u32)>) -> u64 {
    match since {
        Some(t) => t.0,
        None => 0,
    }
}

/// Whether a reading is one that a clock gives: less than a second stands behind the whole ones.
pub open spec fn is_reading(since: Option<(u64, u32)>) -> bool {
    since matches Some(t) ==> t.1 < 1_000_000_000
}

/// Milliseconds since the epoch out of a reading of the clock.
pub fn reading_ms(since: Option<(u64, u32)>) -> (r: u64)
    ensures
        r == epoch_millis(since),
{
    match since {
        Some(t) => {
            let wide: u128 = (t.0 as u128) * 1000 + (t.1 / 1_000_000) as u128;
            (wide % 0x1_0000_0000_0000_0000) as u64
        },
        None => 0,
    }
}

/// Whole seconds since the epoch out of a reading of the clock.
pub fn reading_secs(since: Option<(u64, u32)>) -> (r: u64)
    ensures
        r == epoch_seconds(since),
{
    match since {
        Some(t) => t.0,
        None => 0,
    }
}

/// The time in milliseconds since the epoch.
pub fn unix_ms() -> (r: u64)
    ensures
        exists|since: Option<(u64, u32)>|
            is_reading(since) && r == #[trigger] epoch_millis(since),
{
    let since = since_epoch();
    reading_ms(since)
}

/// The time in seconds since the epoch.
pub fn unix_secs() -> (r: u64)
    ensures
        exists|since: Option<(u64, u32)>|
            is_reading(since) && r == #[trigger] epoch_seconds(since),
{
    let since = since_epoch();
    reading_secs(since)
}

/// Of one reading, the seconds are the milliseconds divided by a thousand and rounded down, as long
/// as the milliseconds fit 64 bits; before the epoch both are zero.
pub proof fn law_seconds_of_milliseconds(since: Option<(u64, u32)>)
    requires
        is_reading(since),
        since matches Some(t) ==> t.0 * 1000 + t.1 / 1_000_000 < 0x1_0000_0000_0000_0000,
    ensures
        epoch_seconds(since) == epoch_millis(since) / 1000,
        since is None ==> epoch_seconds(since) == 0 && epoch_millis(since) == 0,
{
}

/// A reading is told to the millisecond, rounded down, as long as that fits.
pub proof fn law_milliseconds_of_a_reading(secs: u64, nanos: u32, m: u64)
    requires
        nanos < 1_000_000_000,
        m * 1_000_000 <= nanos,
        nanos < (m + 1) * 1_000_000,
        secs * 1000 + m <= u64::MAX,
    ensures
        epoch_millis(Some((secs, nanos))) == secs * 1000 + m,
        epoch_seconds(Some((secs, nanos))) == secs,
{
    assert(nanos / 1_000_000 == m);
}

} // verus!
