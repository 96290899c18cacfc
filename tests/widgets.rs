use pvalve::config::{Config, Latch, SpeedLimit};
use pvalve::progress::TransferProgress;
use pvalve::tui::{checked_add, checked_sub, Controls, Key, TuiMode};
use pvalve::unit::Unit;
use pvalve::widgets::{
    abbreviate, absolute_text, format_duration, DurationView, EditRateResponse, EditRateState, ObservedRateView,
};

fn progress(bytes: usize, lines: usize, nulls: usize) -> TransferProgress {
    TransferProgress {
        bytes_transferred: bytes,
        lines_transferred: lines,
        nulls_transferred: nulls,
    }
}

#[test]
fn durations_read_as_hours_minutes_seconds() {
    assert_eq!(format_duration(3725), "1:02:05");
    assert_eq!(format_duration(0), "0:00:00");
    assert_eq!(DurationView(36000 + 59).text(), "10:00:59");
}

#[test]
fn rates_read_with_their_unit() {
    assert_eq!(ObservedRateView::new(progress(5, 0, 0), Unit::Byte, None).as_text(), "[5B/s]");
    assert_eq!(ObservedRateView::new(progress(0, 12, 0), Unit::Line, None).as_text(), "[12L/s]");
    assert_eq!(ObservedRateView::new(progress(0, 0, 3), Unit::Null, None).as_text(), "[3#/s]");
    assert_eq!(
        ObservedRateView::new(progress(2048, 0, 0), Unit::Byte, None).as_text(),
        "[2.0KiB/s]"
    );
    assert_eq!(abbreviate(Unit::Null), "#");
}

#[test]
fn saturation_against_the_limit() {
    assert!(!ObservedRateView::new(progress(50, 0, 0), Unit::Byte, None).saturated());
    assert!(ObservedRateView::new(progress(100, 0, 0), Unit::Byte, Some(100)).saturated());
    assert!(ObservedRateView::new(progress(91, 0, 0), Unit::Byte, Some(100)).saturated());
    assert!(!ObservedRateView::new(progress(80, 0, 0), Unit::Byte, Some(100)).saturated());
    assert!(ObservedRateView::new(progress(0, 0, 0), Unit::Byte, Some(1)).saturated());
    let view = ObservedRateView::new(progress(1, 7, 0), Unit::Line, Some(10));
    assert_eq!(view.scalar_progress(), 7);
    assert_eq!(view.distance_from_limit(), Some((false, 3)));
}

#[test]
fn rate_steps_round_to_the_step() {
    assert_eq!(checked_add(Some(15), 10), Some(20));
    assert_eq!(checked_add(Some(u32::MAX), 10), None);
    assert_eq!(checked_add(None, 10), None);
    assert_eq!(checked_sub(Some(25), 10), Some(10));
    assert_eq!(checked_sub(Some(10), 10), Some(1));
    assert_eq!(checked_sub(Some(5), 10), None);
}

#[test]
fn editor_reads_a_new_rate() {
    let mut edit = EditRateState::new();
    assert_eq!(edit.input(Key::Char('4')), None);
    assert_eq!(edit.input(Key::Char('x')), None);
    assert_eq!(edit.input(Key::Char('2')), None);
    assert_eq!(edit.input(Key::Char('7')), None);
    assert_eq!(edit.input(Key::Backspace), None);
    assert_eq!(edit.as_str(), "42");
    assert_eq!(edit.input(Key::Enter), Some(EditRateResponse::NewRate(42)));
    assert_eq!(edit.as_str(), "");
    edit.input(Key::Char('0'));
    assert_eq!(edit.input(Key::Enter), None);
    edit.input(Key::Char('9'));
    assert_eq!(edit.input(Key::Esc), Some(EditRateResponse::Cancelled));
    assert_eq!(edit.as_str(), "");
    assert_eq!(EditRateResponse::Cancelled.rate(), None);
}

#[test]
fn controls_follow_the_keys() {
    let config = Config { limit: SpeedLimit::from_limit(Some(15)), unit: Unit::Byte, expected_size: None };
    let (tx, mut monitor) = pvalve::config::ConfigMonitor::new(config);
    let mut controls = Controls::new(Latch::new(), Latch::new(), config, tx);
    let mut edit = EditRateState::new();
    assert_eq!(controls.handle_key(TuiMode::Progress, Key::Right, &mut edit), (TuiMode::Progress, false));
    assert_eq!(controls.config().limit(), Some(20));
    assert_eq!(monitor.limit(), Some(20));
    controls.handle_key(TuiMode::Progress, Key::Tab, &mut edit);
    assert_eq!(monitor.unit(), Unit::Line);
    controls.handle_key(TuiMode::Progress, Key::Char(' '), &mut edit);
    assert!(controls.paused());
    assert_eq!(controls.handle_key(TuiMode::Progress, Key::Char('e'), &mut edit), (TuiMode::Edit, false));
    controls.handle_key(TuiMode::Edit, Key::Char('7'), &mut edit);
    assert_eq!(controls.handle_key(TuiMode::Edit, Key::Enter, &mut edit), (TuiMode::Progress, false));
    assert_eq!(controls.config().limit(), Some(7));
    controls.handle_key(TuiMode::Progress, Key::Char('`'), &mut edit);
    assert_eq!(controls.config().limit(), None);
    assert_eq!(controls.handle_key(TuiMode::Progress, Key::CtrlC, &mut edit), (TuiMode::Progress, true));
}

#[test]
fn unit_cycles_through_all_three() {
    let mut unit = Unit::default();
    unit.cycle();
    assert_eq!(unit, Unit::Line);
    unit.cycle();
    assert_eq!(unit, Unit::Null);
    unit.cycle();
    assert_eq!(unit, Unit::Byte);
}

#[test]
fn speed_limit_toggles_keep_the_value() {
    let mut limit = SpeedLimit::from_limit(Some(30));
    assert_eq!(limit.limit(), Some(30));
    assert!(limit.toggle());
    assert_eq!(limit.limit(), None);
    assert!(!limit.toggle());
    assert_eq!(limit.limit(), Some(30));
    assert_eq!(SpeedLimit::default().limit(), None);
}

#[test]
fn absolute_progress_reads_count_bytes_and_time() {
    assert_eq!(absolute_text(progress(5, 0, 0), Unit::Byte, 7), "5B 0:00:07");
    assert_eq!(absolute_text(progress(2048, 12, 0), Unit::Line, 7), "12L (2.0KiB) 0:00:07");
    assert_eq!(absolute_text(progress(2048, 0, 3), Unit::Null, 3600), "3# (2.0KiB) 1:00:00");
}
