//! Power management: the per-cycle plan of the main loop, the minute-aligned
//! sleep-duration calculation, and battery banding from the three comparator
//! inputs.
//!
//! The main loop wakes once per cycle, forwards a sensor snapshot, asks for a
//! page refresh after the first full cycle, and then sleeps: a bounded thread
//! sleep while charging, a hardware deep sleep otherwise. Clock-bearing pages
//! sleep exactly to the next minute boundary so their content ticks with the
//! minute.

use vstd::prelude::*;
use crate::ActivePage;

verus! {

/// One microsecond short of for ever: the sleep requested when the current
/// page has no time-dependent content.
pub const MAX_SLEEP_MICROS: u64 = u64::MAX;

/// Microseconds already elapsed in the current minute, from the clock's
/// second-of-minute and nanosecond-of-second; a leap-second reading counts as
/// the last moment of its second.
pub open spec fn spec_micros_into_minute(second: int, nanosecond: int) -> int {
    second * 1_000_000 + (if nanosecond > 999_999_999 {
        999_999_999
    } else {
        nanosecond
    }) / 1000
}

/// Microseconds to sleep so that the next wake-up lands on a minute
/// boundary: zero exactly on a boundary, the remainder of the minute
/// otherwise.
pub open spec fn spec_next_minute_left(second: int, nanosecond: int) -> int {
    (60_000_000 - spec_micros_into_minute(second, nanosecond)) % 60_000_000
}

/// Microseconds left until the next minute boundary, computed from a clock
/// reading; always below one minute.
pub fn next_minute_left_micros(second: u32, nanosecond: u32) -> (r: u64)
    requires
        second <= 59,
        nanosecond < 2_000_000_000,
    ensures
        r == spec_next_minute_left(second as int, nanosecond as int),
        r < 60_000_000,
{
    let nanos: u32 = if nanosecond > 999_999_999 {
        999_999_999
    } else {
        nanosecond
    };
    let into: u64 = second as u64 * 1_000_000 + (nanos / 1000) as u64;
    if into == 0 {
        0
    } else {
        60_000_000 - into
    }
}

/// Relies on `chrono::Local::now` with `chrono::Timelike`: `second` returns
/// the second number 0 to 59 and `nanosecond` the nanoseconds since the
/// whole non-leap second, below 2,000,000,000 (the range above 10^9 encodes
/// a leap second).
#[verifier::external_body]
fn local_now_second_nanos() -> (r: (u32, u32))
    ensures
        r.0 <= 59,
        r.1 < 2_000_000_000,
{
    let now = chrono::Local::now();
    (chrono::Timelike::second(&now), chrono::Timelike::nanosecond(&now))
}

/// Microseconds left until the next minute boundary of the local clock.
pub fn next_minute_left_time() -> (r: u64)
    ensures
        r < 60_000_000,
{
    let (second, nanosecond) = local_now_second_nanos();
    next_minute_left_micros(second, nanosecond)
}

/// Sleeping the returned duration lands exactly on a minute boundary: what
/// has elapsed of the minute plus the sleep is a whole number of minutes.
pub proof fn lemma_sleep_reaches_boundary(second: int, nanosecond: int)
    requires
        0 <= second <= 59,
        0 <= nanosecond < 2_000_000_000,
    ensures
        (spec_micros_into_minute(second, nanosecond) + spec_next_minute_left(second, nanosecond))
            % 60_000_000 == 0,
{
}

/// Battery band, derived from three comparator-style digital inputs.
#[derive(Debug, Clone, Copy, PartialEq, Eq, Structural)]
pub enum DeviceBatteryType {
    PercentVbat100,
    PercentVbat100_75,
    PercentVbat75_50,
    PercentVbat50_25,
    PercentVbat25_0,
}

/// The band the three comparator flags map to: the highest asserted
/// comparator wins, none asserted means nearly empty.
pub open spec fn spec_battery_band(d1: bool, d2: bool, d3: bool) -> DeviceBatteryType {
    if d3 {
        DeviceBatteryType::PercentVbat100
    } else if d2 {
        DeviceBatteryType::PercentVbat75_50
    } else if d1 {
        DeviceBatteryType::PercentVbat50_25
    } else {
        DeviceBatteryType::PercentVbat25_0
    }
}

/// Maps the three latched comparator flags to a battery band.
pub fn battery_band(d1: bool, d2: bool, d3: bool) -> (r: DeviceBatteryType)
    ensures
        r == spec_battery_band(d1, d2, d3),
{
    if d3 {
        DeviceBatteryType::PercentVbat100
    } else if d2 {
        DeviceBatteryType::PercentVbat75_50
    } else if d1 {
        DeviceBatteryType::PercentVbat50_25
    } else {
        DeviceBatteryType::PercentVbat25_0
    }
}

/// A comparator counts as asserted when any sample of the observation window
/// saw it low.
pub open spec fn spec_any_active(samples: Seq<(bool, bool, bool)>, which: int) -> bool {
    exists|i: int|
        0 <= i < samples.len() && (if which == 0 {
            samples[i].0
        } else if which == 1 {
            samples[i].1
        } else {
            samples[i].2
        })
}

/// Folds an observation window of comparator samples (one triple per poll,
/// `true` meaning the input read active) into the battery band.
pub fn battery_from_samples(samples: &Vec<(bool, bool, bool)>) -> (r: DeviceBatteryType)
    ensures
        r == spec_battery_band(
            spec_any_active(samples@, 0),
            spec_any_active(samples@, 1),
            spec_any_active(samples@, 2),
        ),
{
    let mut d1 = false;
    let mut d2 = false;
    let mut d3 = false;
    let mut i: usize = 0;
    while i < samples.len()
        invariant
            i <= samples.len(),
            d1 == spec_any_active(samples@.subrange(0, i as int), 0),
            d2 == spec_any_active(samples@.subrange(0, i as int), 1),
            d3 == spec_any_active(samples@.subrange(0, i as int), 2),
        decreases samples.len() - i,
    {
        let s = samples[i];
        if s.0 {
            d1 = true;
        }
        if s.1 {
            d2 = true;
        }
        if s.2 {
            d3 = true;
        }
        proof {
            let pre = samples@.subrange(0, i as int);
            let post = samples@.subrange(0, i + 1);
            assert(post.drop_last() =~= pre);
            assert(post.last() == samples@[i as int]);
            assert forall|w: int| 0 <= w < 3 implies (spec_any_active(post, w) <==> spec_any_active(
                pre,
                w,
            ) || (if w == 0 {
                samples@[i as int].0
            } else if w == 1 {
                samples@[i as int].1
            } else {
                samples@[i as int].2
            })) by {
                if spec_any_active(post, w) {
                    let j = choose|j: int|
                        0 <= j < post.len() && (if w == 0 {
                            post[j].0
                        } else if w == 1 {
                            post[j].1
                        } else {
                            post[j].2
                        });
                    if j < pre.len() {
                        assert(pre[j] == post[j]);
                    }
                }
                if spec_any_active(pre, w) {
                    let j = choose|j: int|
                        0 <= j < pre.len() && (if w == 0 {
                            pre[j].0
                        } else if w == 1 {
                            pre[j].1
                        } else {
                            pre[j].2
                        });
                    assert(post[j] == pre[j]);
                }
            }
        }
        i = i + 1;
    }
    proof {
        assert(samples@.subrange(0, samples@.len() as int) =~= samples@);
    }
    battery_band(d1, d2, d3)
}

/// What one cycle of the main loop does once the sensors are read.
#[derive(Debug, Clone, Copy, PartialEq, Eq, Structural)]
pub struct CyclePlan {
    /// Ask the screen task to refresh this page; `None` on the very first
    /// cycle, which would double-draw the boot screen.
    pub refresh: Option<ActivePage>,
    /// How long to sleep at the end of the cycle, in microseconds.
    pub sleep_micros: u64,
    /// Hardware deep sleep (resets all in-memory state) rather than a
    /// thread sleep; chosen whenever the battery is not charging.
    pub deep_sleep: bool,
}

/// The plan a cycle follows, from the cycle counter, the current page, the
/// charging state and the clock reading.
pub fn plan_cycle(loop_times: u64, current_page: ActivePage, charging: bool, second: u32,
    nanosecond: u32) -> (r: CyclePlan)
    requires
        second <= 59,
        nanosecond < 2_000_000_000,
    ensures
        r.refresh == if loop_times > 1 {
            Some(current_page)
        } else {
            None::<ActivePage>
        },
        current_page.spec_is_need_refresh() ==> r.sleep_micros == spec_next_minute_left(
            second as int,
            nanosecond as int,
        ),
        !current_page.spec_is_need_refresh() ==> r.sleep_micros == MAX_SLEEP_MICROS,
        r.deep_sleep == !charging,
{
    let refresh = if loop_times > 1 {
        Some(current_page)
    } else {
        None
    };
    let sleep_micros = if current_page.cur_set_page_is_need_refresh() {
        next_minute_left_micros(second, nanosecond)
    } else {
        MAX_SLEEP_MICROS
    };
    CyclePlan { refresh, sleep_micros, deep_sleep: !charging }
}

} // verus!
