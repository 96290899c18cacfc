use pvalve::config::Latch;
use pvalve::instantaneous::{mean, InstantaneousProgressWriter};
use pvalve::progress::TransferProgress;
use pvalve::syncio::{
    needs_flush, observe, pause_step, CancellableWriter, Cancelled, PauseableWriter,
    ProgressWriter, PAUSE_POLL_MS,
};

fn progress(bytes: usize, lines: usize, nulls: usize) -> TransferProgress {
    TransferProgress {
        bytes_transferred: bytes,
        lines_transferred: lines,
        nulls_transferred: nulls,
    }
}

#[test]
fn paused_writer_holds_and_resumes() {
    let mut latch = Latch::new();
    let mut writer = PauseableWriter::new(latch.watch());
    assert_eq!(writer.step(12), Ok(12));
    latch.on();
    assert_eq!(writer.step(12), Err(PAUSE_POLL_MS));
    latch.off();
    assert_eq!(writer.step(12), Ok(12));
    assert_eq!(pause_step(true, 3), Err(500));
    assert_eq!(pause_step(false, 3), Ok(3));
}

#[test]
fn toggle_on_and_off_between_looks_never_blocks() {
    let mut latch = Latch::new();
    let mut writer = PauseableWriter::new(latch.watch());
    latch.toggle();
    latch.toggle();
    assert!(!latch.active());
    assert_eq!(writer.step(5), Ok(5));
}

#[test]
fn cancellation_is_final() {
    let mut latch = Latch::new();
    let mut writer = CancellableWriter::new(latch.watch());
    assert_eq!(writer.check(), Ok(()));
    latch.on();
    assert_eq!(writer.check(), Err(Cancelled));
    latch.off();
    assert_eq!(writer.check(), Err(Cancelled));
    assert!(writer.cancelled());
    assert!(observe(true, false));
    assert!(!observe(false, false));
}

#[test]
fn cancel_seen_after_a_wait_fails_the_write() {
    let mut latch = Latch::new();
    let mut writer = CancellableWriter::new(latch.watch());
    latch.on();
    assert_eq!(writer.check(), Err(Cancelled));
}

#[test]
fn progress_counts_what_the_sink_took() {
    let mut writer = ProgressWriter::new();
    let mut monitor = writer.transfer_progress();
    let buf = b"ab\ncd\n\0ef";
    let taken = 4;
    assert!(writer.can_record(taken));
    writer.record(&buf[..taken]);
    assert_eq!(writer.progress(), progress(4, 1, 0));
    writer.record(&buf[taken..]);
    assert_eq!(writer.progress(), progress(9, 2, 1));
    assert_eq!(monitor.get(), progress(9, 2, 1));
    assert!(!writer.can_record(usize::MAX));
}

#[test]
fn flush_only_after_a_short_write() {
    assert!(needs_flush(3, 4));
    assert!(!needs_flush(4, 4));
}

#[test]
fn single_sample_gives_its_rate_over_the_window() {
    let mut writer = InstantaneousProgressWriter::new(2000);
    let mut monitor = writer.transfer_progress();
    let rate = writer.update(b"abcd\n\0");
    assert_eq!(rate, progress(3, 0, 0));
    assert_eq!(monitor.get(), progress(3, 0, 0));
    let mut one_second = InstantaneousProgressWriter::new(1000);
    assert_eq!(one_second.update(b"a\nb\n"), progress(4, 2, 0));
}

#[test]
fn mean_of_nothing_is_zero() {
    assert_eq!(mean(None, 1000), progress(0, 0, 0));
    assert_eq!(mean(Some(progress(10, 4, 2)), 500), progress(20, 8, 4));
    assert_eq!(mean(Some(progress(usize::MAX, 0, 0)), 1), progress(usize::MAX, 0, 0));
}

#[test]
fn progress_sums_saturate() {
    let a = progress(usize::MAX, 1, 2);
    let b = progress(5, 1, 2);
    assert_eq!(a + b, progress(usize::MAX, 2, 4));
    assert_eq!(progress(10, 4, 2) / 2, progress(5, 2, 1));
}

#[test]
fn add_counters_one_by_one() {
    let mut p = TransferProgress::default();
    p.add_bytes(5);
    p.add_lines(2);
    p.add_nulls(1);
    assert_eq!(p, progress(5, 2, 1));
}
