use pvalve::app::{Configured, Event, PipeValve, PipeValveNew, Progress};

#[test]
fn app_test() {
    let pv = PipeValveNew::default();
    println!("{:?}", &pv);
    let pv = pv.begin();
    println!("{:?}", &pv);
    let pv = pv.pause();
    println!("{:?}", &pv);
    let pv = pv.resume();
    println!("{:?}", &pv);
    let pv = pv.abort();
    println!("{:?}", &pv);
    assert_eq!(
        pv.progress(),
        Some(Progress { bytes_transferred: 0, records_transferred: 0 })
    );
}

#[test]
fn valve_starts_only_when_new_or_paused() {
    let valve = PipeValve::default();
    assert!(!valve.active());
    let valve = valve.start().expect("a new valve starts");
    assert!(valve.active());
    assert!(valve.start().is_err());
    let paused = PipeValve::Paused(PipeValveNew::default().begin().pause());
    assert!(paused.active());
    assert!(matches!(paused.start(), Ok(PipeValve::Running(_))));
    assert!(PipeValve::Done.start().is_err());
    assert!(!PipeValve::Done.active());
}

#[test]
fn aborting_a_new_valve_keeps_no_progress() {
    let aborted = PipeValveNew::default().abort();
    assert_eq!(aborted.progress(), None);
}

#[test]
fn set_limit_zero_switches_the_limit_off() {
    let valve = PipeValveNew::default().set_limit(Some(25));
    assert_eq!(valve.config().limit(), Some(25));
    let valve = valve.set_limit(Some(0));
    assert_eq!(valve.config().limit(), None);
    let valve = PipeValve::New(valve);
    assert!(valve.process(Event::Tick).is_ok());
}

#[test]
fn resume_keeps_the_progress_of_a_pause() {
    let paused = PipeValveNew::default().begin().pause();
    let running = paused.resume();
    let aborted = running.abort();
    assert_eq!(aborted.progress(), Some(Progress::default()));
}
