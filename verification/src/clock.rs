//! Readings of the clock as plain numbers.
//!
//! Wall-clock readings are milliseconds since the Unix epoch. Other readings are
//! nanoseconds since some fixed moment before the first of them.
use vstd::prelude::*;

verus! {

/// Nanoseconds in a second.
pub const SECOND: u128 = 1_000_000_000;

/// How much time has passed between two readings; none, if the second is not the later.
pub open spec fn passed(since: u128, now: u128) -> nat {
    if now >= since {
        (now - since) as nat
    } else {
        0
    }
}

/// How much time has passed between two readings; none, if the second is not the later.
pub fn elapsed(since: u128, now: u128) -> (r: u128)
    ensures
        r == passed(since, now),
{
    if now >= since {
        now - since
    } else {
        0
    }
}

/// The wall clock in milliseconds, given the milliseconds since the epoch, or `None` if the
/// clock stands before it. That counts as zero; a number too large for the result keeps its
/// low bits.
pub open spec fn wall_millis(since_epoch: Option<u128>) -> i64 {
    match since_epoch {
        Some(millis) => millis as i64,
        None => 0,
    }
}

/// The wall clock in milliseconds.
pub fn unix_millis(since_epoch: Option<u128>) -> (r: i64)
    ensures
        r == wall_millis(since_epoch),
{
    match since_epoch {
        Some(millis) => #[verifier::truncate]
        (millis as i64),
        None => 0,
    }
}

/// The age of the last frame in milliseconds. There is none while no frame has come, and a
/// clock that went back counts as no time at all.
pub open spec fn frame_age(last: i64, now: i64) -> Option<u64> {
    if last == 0 {
        None
    } else if now >= last {
        Some((now - last) as u64)
    } else {
        Some(0)
    }
}

/// The age of the last frame in milliseconds. `last` is the time of the last frame, zero
/// if there was none.
pub fn millis_since(last: i64, now: i64) -> (r: Option<u64>)
    requires
        i64::MIN <= now - last <= i64::MAX,
    ensures
        r == frame_age(last, now),
{
    if last == 0 {
        return None;
    }
    let age: i64 = now - last;
    Some(if age > 0 { age as u64 } else { 0 })
}

/// A reading of the wall clock is the number of milliseconds since the epoch itself, for as
/// long as that fits; before the epoch it is zero. So two readings are as far apart as the
/// moments at which they were taken.
pub proof fn wall_clock_counts_from_the_epoch(
    earlier: u128,
    later: u128,
    first: i64,
    second: i64,
    none: i64,
)
    requires
        call_ensures(unix_millis, (Some(earlier),), first),
        call_ensures(unix_millis, (Some(later),), second),
        call_ensures(unix_millis, (None::<u128>,), none),
        earlier <= i64::MAX,
        later <= i64::MAX,
    ensures
        first == earlier,
        second == later,
        second - first == later - earlier,
        none == 0,
        wall_millis(Some(earlier)) == earlier,
{
}

/// A reading of the wall clock that does not fit keeps its low bits: it differs from the number
/// of milliseconds by a multiple of two to the power of 64.
pub proof fn wall_clock_keeps_its_low_bits(millis: u128, r: i64)
    requires
        call_ensures(unix_millis, (Some(millis),), r),
    ensures
        r == millis % 0x1_0000_0000_0000_0000 || r == millis % 0x1_0000_0000_0000_0000
            - 0x1_0000_0000_0000_0000,
{
    let low: u128 = millis % 0x1_0000_0000_0000_0000;
    assert((low <= 0x7FFF_FFFF_FFFF_FFFF ==> (millis as i64) == low) && (low
        > 0x7FFF_FFFF_FFFF_FFFF ==> (millis as i64) == low - 0x1_0000_0000_0000_0000))
        by (bit_vector)
        requires
            low == millis % 0x1_0000_0000_0000_0000,
    ;
}

/// The age of the last frame and its time make up the present: a frame is as old as the time
/// that has gone by since it came, no less than nothing, and there is no age without a frame.
pub proof fn frame_age_is_the_time_since(last: i64, now: i64, r: Option<u64>)
    requires
        i64::MIN <= now - last <= i64::MAX,
        call_ensures(millis_since, (last, now), r),
    ensures
        r is None <==> last == 0,
        now >= last ==> (r matches Some(age) ==> last + age == now),
        now < last ==> (r matches Some(age) ==> age == 0),
{
}

/// The time that has passed leads from the one reading to the other, if that is the later.
pub proof fn elapsed_leads_to_the_present(since: u128, now: u128, r: u128)
    requires
        call_ensures(elapsed, (since, now), r),
    ensures
        now >= since ==> since + r == now,
        now < since ==> r == 0,
        passed(since, now) == r,
{
}

} // verus!
