use pvalve::config::{Config, ConfigMonitor, SpeedLimit};
use pvalve::limiter::{search_step, DynamicRateLimiter, RequestStep, SearchStep, Verdict};
use pvalve::syncio::{Admission, RateLimitedWriter};
use pvalve::unit::Unit;

fn granted(step: RequestStep) -> u32 {
    match step {
        RequestStep::Granted(n) => n,
        RequestStep::Wait(_) => panic!("expected a grant"),
    }
}

#[test]
fn unlimited_grants_everything() {
    let mut limiter = DynamicRateLimiter::new(None);
    assert_eq!(granted(limiter.request_step(250)), 250);
    assert_eq!(granted(limiter.request_step(0)), 0);
    let mut zero = DynamicRateLimiter::new(Some(0));
    assert_eq!(zero.limit(), None);
    assert_eq!(granted(zero.request_step(7)), 7);
}

#[test]
fn limit_of_one_hundred_grants_one_hundred_of_two_hundred_fifty() {
    let mut limiter = DynamicRateLimiter::new(Some(100));
    assert_eq!(granted(limiter.request_step(250)), 100);
}

#[test]
fn no_grant_exceeds_the_request() {
    let mut limiter = DynamicRateLimiter::new(Some(50));
    let mut total = 0u32;
    for ask in [1u32, 2, 3, 10] {
        match limiter.request_step(ask) {
            RequestStep::Granted(n) => {
                assert!(n >= 1 && n <= ask);
                total += n;
            }
            RequestStep::Wait(_) => {}
        }
    }
    assert!(total <= 50);
    assert_eq!(granted(limiter.request_step(0)), 0);
}

#[test]
fn exhausted_bucket_asks_to_wait() {
    let mut limiter = DynamicRateLimiter::new(Some(1));
    assert_eq!(granted(limiter.request_step(5)), 1);
    match limiter.request_step(5) {
        RequestStep::Wait(delay) => assert!(delay.as_millis() <= 1000),
        RequestStep::Granted(n) => panic!("granted {} from an empty bucket", n),
    }
}

#[test]
fn search_steps_follow_the_verdict() {
    assert_eq!(search_step(8, Verdict::Conforming), SearchStep::Done(8));
    assert_eq!(search_step(8, Verdict::OverCapacity(5)), SearchStep::Retry(5));
    assert_eq!(search_step(9, Verdict::NonConforming), SearchStep::Retry(4));
}

fn config_with(limit: Option<u32>, unit: Unit) -> Config {
    Config { limit: SpeedLimit::from_limit(limit), unit, expected_size: None }
}

#[test]
fn first_write_under_limit_one_hundred_forwards_one_hundred_bytes() {
    let (_tx, monitor) = ConfigMonitor::new(config_with(Some(100), Unit::Byte));
    let mut writer = RateLimitedWriter::writer_with_config(monitor);
    let buf = [b'x'; 250];
    match writer.get_largest_slice(&buf) {
        Admission::Forward(end) => assert_eq!(end, 100),
        Admission::Wait(..) => panic!("a full bucket should not wait"),
    }
}

#[test]
fn limit_change_rebuilds_the_limiter() {
    let (tx, monitor) = ConfigMonitor::new(config_with(Some(10), Unit::Byte));
    let mut writer = RateLimitedWriter::writer_with_config(monitor);
    assert_eq!(writer.limit(), Some(10));
    let buf = [b'x'; 250];
    match writer.get_largest_slice(&buf) {
        Admission::Forward(end) => assert_eq!(end, 10),
        Admission::Wait(..) => panic!("a full bucket should not wait"),
    }
    tx.send(config_with(Some(1000), Unit::Byte));
    match writer.get_largest_slice(&buf) {
        Admission::Forward(end) => assert_eq!(end, 250),
        Admission::Wait(..) => panic!("a new bucket should not wait"),
    }
    assert_eq!(writer.limit(), Some(1000));
}

#[test]
fn switching_the_limit_off_takes_effect() {
    let (tx, monitor) = ConfigMonitor::new(config_with(Some(10), Unit::Byte));
    let mut writer = RateLimitedWriter::writer_with_config(monitor);
    tx.send(config_with(None, Unit::Byte));
    let buf = [b'x'; 400];
    match writer.get_largest_slice(&buf) {
        Admission::Forward(end) => assert_eq!(end, 400),
        Admission::Wait(..) => panic!("no limit should not wait"),
    }
    assert_eq!(writer.limit(), None);
}

#[test]
fn line_mode_forwards_whole_lines() {
    let (_tx, monitor) = ConfigMonitor::new(config_with(Some(5), Unit::Line));
    let mut writer = RateLimitedWriter::writer_with_config(monitor);
    let buf = b"a\nb\nc\nd\ne\nf\ng\n";
    match writer.get_largest_slice(buf) {
        Admission::Forward(end) => assert_eq!(&buf[..end], b"a\nb\nc\nd\ne\n"),
        Admission::Wait(..) => panic!("a full bucket should not wait"),
    }
    match writer.get_largest_slice(b"partial") {
        Admission::Forward(end) => assert_eq!(end, 7),
        Admission::Wait(..) => panic!("a fragment passes whole"),
    }
}

#[test]
fn resume_forwards_the_pending_prefix() {
    let (_tx, monitor) = ConfigMonitor::new(config_with(None, Unit::Byte));
    let mut writer = RateLimitedWriter::writer_with_config(monitor);
    match writer.resume(3) {
        Admission::Forward(end) => assert_eq!(end, 3),
        Admission::Wait(..) => panic!("no limit should not wait"),
    }
}
