//! Wall-clock helpers on top of a [`Clock`].
use vstd::prelude::*;
use std::time::{Duration, SystemTime, SystemTimeError, UNIX_EPOCH};
use crossbeam::atomic::AtomicCell;
use vstd::string::StringExecFns;
use crate::cell::{cell_fetch_max, cell_load, cell_new};
use crate::snowflake::Clock;
use crate::text::{decimal, push_decimal};

verus! {

/// Whole seconds in `millis` milliseconds, rounded towards zero.
pub open spec fn spec_millis_to_seconds(millis: int) -> int {
    if millis >= 0 {
        millis / 1000
    } else {
        -((-millis) / 1000)
    }
}

/// Whole seconds in `millis` milliseconds, rounded towards zero.
pub fn millis_to_seconds(millis: i64) -> (seconds: i64)
    ensures
        seconds == spec_millis_to_seconds(millis as int),
{
    millis / 1000
}

/// Whole seconds never go back where the milliseconds do not.
pub proof fn lemma_seconds_grow(earlier: int, later: int)
    requires
        earlier <= later,
    ensures
        spec_millis_to_seconds(earlier) <= spec_millis_to_seconds(later),
{
}

/// The current time of `clock` in milliseconds since the Unix epoch: the
/// sample that the clock gives, which is never before the earliest time it
/// shows.
pub fn current_timestamp_ms<C: Clock>(clock: &C) -> (now: i64)
    ensures
        clock.earliest() <= now,
{
    clock.now_millis()
}

/// The current time of `clock` in whole seconds since the Unix epoch:
/// the whole seconds of the sample that the clock gives.
pub fn current_timestamp_sec<C: Clock>(clock: &C) -> (seconds: i64)
    ensures
        exists|millis: i64|
            clock.earliest() <= millis && seconds == #[trigger] spec_millis_to_seconds(
                millis as int,
            ),
        spec_millis_to_seconds(clock.earliest() as int) <= seconds,
{
    let millis = clock.now_millis();
    proof {
        lemma_seconds_grow(clock.earliest() as int, millis as int);
    }
    millis_to_seconds(millis)
}

/// `SystemTime` of std: a reading of the system clock, carried as it is.
#[verifier::external_type_specification]
#[verifier::external_body]
pub struct ExSystemTime(SystemTime);

/// `SystemTimeError` of std: the error of a clock that stands before the
/// instant it is measured from.
#[verifier::external_type_specification]
#[verifier::external_body]
pub struct ExSystemTimeError(SystemTimeError);

/// `SystemTime::now` of std: the system clock at the moment of the call.
#[verifier::external_body]
fn system_now() -> SystemTime {
    SystemTime::now()
}

/// `SystemTime::duration_since` of std, taken from the Unix epoch: the time
/// that has passed since then, or an error when the clock stands before it.
#[verifier::external_body]
fn since_unix_epoch(instant: &SystemTime) -> Result<Duration, SystemTimeError> {
    instant.duration_since(UNIX_EPOCH)
}

/// `Duration::as_millis` of std: the whole milliseconds in the duration.
#[verifier::external_body]
fn whole_millis(duration: &Duration) -> u128 {
    duration.as_millis()
}

/// `std::hint::spin_loop`: tells the processor that the caller is waiting.
#[verifier::external_body]
fn spin_hint() {
    std::hint::spin_loop()
}

/// The milliseconds as a clock sample: a count that does not fit an `i64`
/// is the largest sample.
pub fn sample_of_millis(millis: u128) -> (sample: i64)
    ensures
        sample == if millis <= i64::MAX {
            millis as int
        } else {
            i64::MAX as int
        },
{
    if millis <= 0x7fff_ffff_ffff_ffff {
        millis as i64
    } else {
        i64::MAX
    }
}

/// The system clock, read on every sample. A clock that stands before the
/// Unix epoch reads as zero.
#[derive(Debug, Clone, Copy, Default)]
pub struct SystemClock;

impl Clock for SystemClock {
    open spec fn earliest(&self) -> i64 {
        0
    }

    fn now_millis(&self) -> (sample: i64)
        ensures
            0 <= sample,
    {
        let now = system_now();
        match since_unix_epoch(&now) {
            Ok(duration) => sample_of_millis(whole_millis(&duration)),
            Err(_) => 0,
        }
    }

    fn pause(&self) {
        spin_hint()
    }
}

/// The word that a sampler holds for a clock sample: the sample itself, or
/// zero for a sample before the Unix epoch.
pub fn word_of_sample(now: i64) -> (word: u64)
    ensures
        word == if now > 0 {
            now as int
        } else {
            0
        },
{
    if now > 0 {
        now as u64
    } else {
        0
    }
}

/// A clock that shows the latest of the samples published to it, so that
/// reading the time costs one load. Some thread of the process publishes
/// the system clock to it every fraction of a millisecond; the sampler
/// itself starts no thread. What it shows never goes back: a sample that
/// lies before the latest one changes nothing.
pub struct ClockSampler {
    first: i64,
    latest: AtomicCell<u64>,
}

/// What a sampler shows when its first sample was `first` and its cell holds
/// `word`: the sample in the cell, but never one before the first.
pub open spec fn spec_shown_sample(first: i64, word: u64) -> int {
    let held = if word <= i64::MAX {
        word as int
    } else {
        i64::MAX as int
    };
    if held < first {
        first as int
    } else {
        held
    }
}

/// What a sampler shows when its first sample was `first` and its cell holds
/// `word`.
pub fn shown_sample(first: i64, word: u64) -> (sample: i64)
    ensures
        sample == spec_shown_sample(first, word),
        first <= sample,
        0 <= sample,
{
    let held = sample_of_millis(word as u128);
    if held < first {
        first
    } else {
        held
    }
}

impl ClockSampler {
    /// The first sample of this sampler: zero where it was made with a
    /// sample before the Unix epoch.
    pub closed spec fn first_sample(&self) -> i64 {
        self.first
    }

    /// A sampler that shows `first` until a later sample is published, so
    /// that no reader ever finds it empty.
    pub fn new(first: i64) -> (sampler: Self)
        ensures
            sampler.first_sample() == if first > 0 {
                first
            } else {
                0
            },
    {
        let word = word_of_sample(first);
        ClockSampler { first: word as i64, latest: cell_new(word) }
    }

    /// Publishes a sample; it is shown from now on unless a later one was
    /// published before.
    pub fn publish(&self, now: i64) {
        cell_fetch_max(&self.latest, word_of_sample(now));
    }

    /// The latest sample, in milliseconds since the Unix epoch. It is never
    /// older than the first sample, whatever the cell holds.
    pub fn current_millis(&self) -> (now: i64)
        ensures
            self.first_sample() <= now,
            0 <= now,
    {
        let word = cell_load(&self.latest);
        shown_sample(self.first, word)
    }
}

impl Clock for ClockSampler {
    open spec fn earliest(&self) -> i64 {
        self.first_sample()
    }

    fn now_millis(&self) -> (now: i64)
        ensures
            self.first_sample() <= now,
            0 <= now,
    {
        self.current_millis()
    }

    fn pause(&self) {
        spin_hint()
    }
}

/// The unit written after a count of days.
pub const UNIT_DAYS: &'static str = "天";

/// The unit written after a count of hours.
pub const UNIT_HOURS: &'static str = "小时";

/// The unit written after a count of minutes.
pub const UNIT_MINUTES: &'static str = "分钟";

/// The unit written after a count of seconds.
pub const UNIT_SECONDS: &'static str = "秒";

/// The unit written after a count of milliseconds.
pub const UNIT_MILLIS: &'static str = "毫秒";

/// The longest run time that is written, in seconds; a longer one is
/// written as no time at all.
pub const MAX_RUN_SECONDS: u64 = 0x7fff_ffff_ffff_ffff;

/// One part of a run time: the count and its unit, or nothing for a part
/// that is not shown.
pub open spec fn run_time_part(shown: bool, count: int, unit: Seq<char>) -> Seq<char> {
    if shown {
        decimal(count) + unit
    } else {
        Seq::<char>::empty()
    }
}

/// A run time in words: days, hours, minutes and seconds, each from the
/// first unit that the time reaches, then the milliseconds, which are
/// always written.
pub open spec fn spec_run_time(seconds: int, millis: int) -> Seq<char> {
    run_time_part(seconds >= 86400, seconds / 86400, UNIT_DAYS@) + run_time_part(
        seconds >= 3600,
        (seconds / 3600) % 24,
        UNIT_HOURS@,
    ) + run_time_part(seconds >= 60, (seconds / 60) % 60, UNIT_MINUTES@) + run_time_part(
        seconds >= 1,
        seconds % 60,
        UNIT_SECONDS@,
    ) + decimal(millis) + UNIT_MILLIS@
}

/// Writes how long something ran: `seconds` whole seconds and `millis`
/// milliseconds more.
pub fn format_run_time(seconds: u64, millis: u16) -> (text: String)
    requires
        millis < 1000,
    ensures
        text@ == if seconds <= MAX_RUN_SECONDS {
            spec_run_time(seconds as int, millis as int)
        } else {
            spec_run_time(0, 0)
        },
{
    let (seconds, millis) = if seconds <= MAX_RUN_SECONDS {
        (seconds, millis)
    } else {
        (0, 0)
    };
    let mut text = String::new();
    if seconds >= 86400 {
        push_decimal(&mut text, (seconds / 86400) as i64);
        text.append(UNIT_DAYS);
    }
    if seconds >= 3600 {
        push_decimal(&mut text, ((seconds / 3600) % 24) as i64);
        text.append(UNIT_HOURS);
    }
    if seconds >= 60 {
        push_decimal(&mut text, ((seconds / 60) % 60) as i64);
        text.append(UNIT_MINUTES);
    }
    if seconds >= 1 {
        push_decimal(&mut text, (seconds % 60) as i64);
        text.append(UNIT_SECONDS);
    }
    push_decimal(&mut text, millis as i64);
    text.append(UNIT_MILLIS);
    assert(text@ =~= spec_run_time(seconds as int, millis as int));
    text
}

} // verus!
