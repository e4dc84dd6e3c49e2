use bubo::clock::{
    current_timestamp_ms, current_timestamp_sec, format_run_time, sample_of_millis,
    word_of_sample, ClockSampler, SystemClock,
};
use bubo::snowflake::{timestamp_of, worker_of, Snowflake, EPOCH};
use bubo::snowflake::Clock;

struct FixedClock(i64);

impl Clock for FixedClock {
    fn now_millis(&self) -> i64 {
        self.0
    }

    fn pause(&self) {}
}

#[test]
fn the_clock_is_read_in_both_units() {
    assert_eq!(current_timestamp_ms(&FixedClock(1574784000123)), 1574784000123);
    assert_eq!(current_timestamp_sec(&FixedClock(1574784000123)), 1574784000);
    assert_eq!(current_timestamp_sec(&FixedClock(999)), 0);
    assert_eq!(current_timestamp_sec(&FixedClock(0)), 0);
}

#[test]
fn the_system_clock_shows_the_present() {
    let now = SystemClock.now_millis();
    assert!(now > EPOCH);
    assert!(now < EPOCH + (1i64 << 41));
    let later = SystemClock.now_millis();
    assert!(later >= now);
    SystemClock.pause();
    let seconds = current_timestamp_sec(&SystemClock);
    assert!(seconds >= now / 1000 && seconds <= now / 1000 + 60);
}

#[test]
fn a_generator_on_the_system_clock() {
    let generator = Snowflake::new(42, SystemClock);
    let before = SystemClock.now_millis();
    let first = generator.next_id().unwrap();
    let second = generator.next_id().unwrap();
    let after = SystemClock.now_millis();
    assert!(first < second);
    assert_eq!(worker_of(first), 42);
    assert!(EPOCH + timestamp_of(first) >= before);
    assert!(EPOCH + timestamp_of(second) <= after);
}

#[test]
fn a_sample_is_cut_at_the_largest_value() {
    assert_eq!(sample_of_millis(0), 0);
    assert_eq!(sample_of_millis(1574784000000), 1574784000000);
    assert_eq!(sample_of_millis(i64::MAX as u128), i64::MAX);
    assert_eq!(sample_of_millis(i64::MAX as u128 + 1), i64::MAX);
    assert_eq!(sample_of_millis(u128::MAX), i64::MAX);
}

#[test]
fn a_run_time_is_written_from_its_first_unit() {
    assert_eq!(format_run_time(0, 0), "0毫秒");
    assert_eq!(format_run_time(0, 999), "999毫秒");
    assert_eq!(format_run_time(1, 5), "1秒5毫秒");
    assert_eq!(format_run_time(59, 0), "59秒0毫秒");
    assert_eq!(format_run_time(60, 0), "1分钟0秒0毫秒");
    assert_eq!(format_run_time(3599, 1), "59分钟59秒1毫秒");
    assert_eq!(format_run_time(3600, 0), "1小时0分钟0秒0毫秒");
    assert_eq!(format_run_time(86399, 0), "23小时59分钟59秒0毫秒");
    assert_eq!(format_run_time(86400, 0), "1天0小时0分钟0秒0毫秒");
    assert_eq!(format_run_time(90061, 7), "1天1小时1分钟1秒7毫秒");
    assert_eq!(format_run_time(i64::MAX as u64, 0), "106751991167300天15小时30分钟7秒0毫秒");
    assert_eq!(format_run_time(i64::MAX as u64 + 1, 500), "0毫秒");
    assert_eq!(format_run_time(u64::MAX, 999), "0毫秒");
}

#[test]
fn a_sampler_shows_the_latest_sample() {
    let sampler = ClockSampler::new(1574784000500);
    assert_eq!(sampler.current_millis(), 1574784000500);
    sampler.publish(1574784000501);
    assert_eq!(sampler.current_millis(), 1574784000501);
    assert_eq!(sampler.now_millis(), 1574784000501);
    assert_eq!(current_timestamp_sec(&sampler), 1574784000);
    sampler.pause();
}

#[test]
fn a_sampler_never_goes_back() {
    let sampler = ClockSampler::new(5000);
    sampler.publish(4000);
    assert_eq!(sampler.current_millis(), 5000);
    sampler.publish(-1);
    assert_eq!(sampler.current_millis(), 5000);
    sampler.publish(i64::MAX);
    assert_eq!(sampler.current_millis(), i64::MAX);
    sampler.publish(0);
    assert_eq!(sampler.current_millis(), i64::MAX);
}

#[test]
fn a_sampler_starts_at_zero_before_the_unix_epoch() {
    assert_eq!(ClockSampler::new(-5).current_millis(), 0);
    assert_eq!(word_of_sample(-5), 0);
    assert_eq!(word_of_sample(0), 0);
    assert_eq!(word_of_sample(7), 7);
    assert_eq!(word_of_sample(i64::MAX), i64::MAX as u64);
}

#[test]
fn a_generator_on_a_sampler() {
    let sampler = ClockSampler::new(EPOCH + 1000);
    let generator = Snowflake::new(5, sampler);
    assert_eq!(generator.next_id(), Ok(4194385920));
    assert_eq!(generator.next_id(), Ok(4194385921));
}

#[test]
fn a_sampler_never_shows_a_sample_before_its_first() {
    assert_eq!(bubo::clock::shown_sample(5000, 4000), 5000);
    assert_eq!(bubo::clock::shown_sample(5000, 5000), 5000);
    assert_eq!(bubo::clock::shown_sample(5000, 5001), 5001);
    assert_eq!(bubo::clock::shown_sample(0, 0), 0);
    assert_eq!(bubo::clock::shown_sample(7, u64::MAX), i64::MAX);
    assert_eq!(bubo::clock::shown_sample(i64::MAX, 3), i64::MAX);
    let sampler = ClockSampler::new(1574784000500);
    for sample in [0, 1574784000499, 1574784000500, 1574784000777, 12] {
        sampler.publish(sample);
        assert!(sampler.current_millis() >= 1574784000500);
        assert!(sampler.now_millis() >= 1574784000500);
    }
    assert_eq!(sampler.current_millis(), 1574784000777);
}

#[test]
fn a_read_of_the_sampler_is_never_before_its_first_sample() {
    let sampler = ClockSampler::new(1574784000500);
    assert_eq!(current_timestamp_ms(&sampler), 1574784000500);
    sampler.publish(3);
    assert_eq!(current_timestamp_ms(&sampler), 1574784000500);
    assert_eq!(current_timestamp_sec(&sampler), 1574784000);
    sampler.publish(1574784002000);
    assert_eq!(current_timestamp_ms(&sampler), 1574784002000);
    assert_eq!(current_timestamp_sec(&sampler), 1574784002);
    let fresh = ClockSampler::new(-40);
    assert_eq!(current_timestamp_ms(&fresh), 0);
    assert!(current_timestamp_ms(&SystemClock) >= 0);
}
