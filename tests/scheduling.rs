use barstatus::render::RenderLoop;
use barstatus::render::RenderState;
use barstatus::scheduler::{Sampler, SamplerAction, Scheduler};
use barstatus::snapshot::Snapshot;

const SEC: u64 = 1_000_000_000;

#[test]
fn snapshot_read_sees_latest_write() {
    let mut s = Snapshot::new();
    assert_eq!(s.read(), "");
    s.publish("one".to_string(), 5);
    assert_eq!(s.read(), "one");
    s.publish("two".to_string(), 9);
    assert_eq!(s.read(), "two");
    assert_eq!(s.last_success(), Some(9));
    s.publish_unavailable();
    assert_eq!(s.read(), "");
    assert_eq!(s.last_success(), Some(9));
}

#[test]
fn sampler_ticks_on_its_grid_and_skips_missed_ticks() {
    let mut s = Sampler::new(2 * SEC, 10 * SEC);
    assert_eq!(s.poll(10 * SEC), SamplerAction::Sample);
    assert_eq!(s.poll(11 * SEC), SamplerAction::Wait(SEC));
    // Late by more than two periods: one sample, next tick on the grid.
    assert_eq!(s.poll(17 * SEC), SamplerAction::Sample);
    assert_eq!(s.poll(17 * SEC), SamplerAction::Wait(SEC));
}

#[test]
fn zero_interval_never_samples() {
    let mut s = Sampler::new(0, 0);
    assert_eq!(s.poll(0), SamplerAction::Idle);
    assert_eq!(s.poll(100 * SEC), SamplerAction::Idle);
}

#[test]
fn failures_publish_empty_and_rendering_continues() {
    let mut s = Sampler::new(SEC, 0);
    let mut render = RenderLoop::new(12);
    s.complete(Some("cpu 5%".to_string()), 0);
    for tick in 1..=3u64 {
        assert_eq!(s.poll(tick * SEC), SamplerAction::Sample);
        s.complete(None, tick * SEC);
        assert_eq!(s.text(), "");
        assert_eq!(s.failures(), tick);
        let line = render.tick(&vec![s.text(), "net".to_string()], " | ");
        assert_eq!(line.as_deref(), Some("         net"));
        assert!(render.on_sink(Ok(())).is_ok());
    }
    assert_eq!(render.state(), RenderState::Running);
    assert_eq!(s.poll(4 * SEC), SamplerAction::Sample);
    s.complete(Some("cpu 7%".to_string()), 4 * SEC);
    assert_eq!(s.text(), "cpu 7%");
    assert_eq!(s.failures(), 0);
    assert_eq!(s.last_success(), Some(4 * SEC));
    let line = render.tick(&vec![s.text(), "net".to_string()], " | ");
    assert_eq!(line.as_deref(), Some("cpu 7% | net"));
}

#[test]
fn stopped_sampler_still_publishes_in_flight_sample() {
    let mut s = Sampler::new(SEC, 0);
    assert_eq!(s.poll(0), SamplerAction::Sample);
    s.stop();
    s.complete(Some("late".to_string()), 1);
    assert_eq!(s.text(), "late");
    assert_eq!(s.poll(5 * SEC), SamplerAction::Stop);
}

#[test]
fn scheduler_keeps_metrics_apart_and_stops_all() {
    let mut sch = Scheduler::new(&vec![SEC, 0, 3 * SEC], 0);
    assert_eq!(sch.len(), 3);
    assert_eq!(sch.poll(0, 0), SamplerAction::Sample);
    assert_eq!(sch.poll(1, 0), SamplerAction::Idle);
    assert_eq!(sch.poll(2, SEC), SamplerAction::Sample);
    sch.complete(0, Some("a".to_string()), 1);
    sch.complete(2, None, 2);
    assert_eq!(sch.texts(), vec!["a".to_string(), String::new(), String::new()]);
    sch.stop();
    for i in 0..3 {
        assert_eq!(sch.poll(i, 10 * SEC), SamplerAction::Stop);
    }
    assert_eq!(sch.texts()[0], "a");
}
