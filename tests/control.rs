use std::time::{Duration, Instant};
use z2l::clock::{Clock, ClockStatus, DrainStep, FixedClock, FreeClock, ManualClock, TickPlan};
use z2l::options::{parse_clock, parse_memory, ClockChoice};
use z2l::{control_action, ControlAction, ControlEvent, ControlMessage};

#[test]
fn does_not_add_overhead() {
    let mut clock = FreeClock::new();
    let start = Instant::now();

    for _ in 0..500 {
        assert_eq!(clock.next_tick(), ClockStatus::OnTime);
    }

    assert!(start.elapsed() < Duration::from_millis(1));
}

#[test]
fn fixed_clock_plans_ticks() {
    let mut clock = FixedClock::new(20);
    assert_eq!(clock.plan(5), Some(TickPlan { missed: 0, wait: 20 }));
    assert_eq!(clock.plan(20), Some(TickPlan { missed: 0, wait: 20 }));
    // 50 ns after the last tick: two boundaries passed, wait for the third.
    let plan = clock.plan(50).unwrap();
    assert_eq!(plan, TickPlan { missed: 2, wait: 60 });
    assert_eq!(clock.advance(plan), ClockStatus::MissedTicks(2));
    assert_eq!(clock.prev_tick, 60);
    assert_eq!(clock.advance(TickPlan { missed: 0, wait: 20 }), ClockStatus::OnTime);
    assert_eq!(clock.prev_tick, 80);
    clock.reset();
    assert_eq!(clock.prev_tick, 0);
    assert_eq!(FixedClock::new(1).plan(u64::MAX), None);
}

#[test]
fn manual_clock_drains_queue() {
    let mut clock = ManualClock::new();
    let tick = ControlEvent::Message(ControlMessage::ManualTick);
    assert_eq!(clock.drain_step(ControlEvent::Empty), DrainStep::Finish(None));
    assert_eq!(clock.drain_step(tick), DrainStep::Continue(1));
    assert_eq!(clock.drain_step(tick), DrainStep::Continue(2));
    assert_eq!(
        clock.drain_step(ControlEvent::Empty),
        DrainStep::Finish(Some(ClockStatus::MissedTicks(2)))
    );
    assert_eq!(
        clock.drain_step(ControlEvent::Message(ControlMessage::Halt)),
        DrainStep::Finish(Some(ClockStatus::OnTime))
    );
    assert_eq!(clock.drain_step(tick), DrainStep::Continue(1));
    assert_eq!(
        clock.drain_step(ControlEvent::Disconnected),
        DrainStep::Finish(Some(ClockStatus::MissedTicks(1)))
    );
    assert!(ManualClock::wait_ends(tick));
    assert!(!ManualClock::wait_ends(ControlEvent::Empty));
}

#[test]
fn control_messages() {
    assert_eq!(control_action(ControlEvent::Empty), ControlAction::Proceed);
    assert_eq!(
        control_action(ControlEvent::Message(ControlMessage::Reset)),
        ControlAction::Reset
    );
    assert_eq!(
        control_action(ControlEvent::Message(ControlMessage::Halt)),
        ControlAction::Halt
    );
    assert_eq!(control_action(ControlEvent::Disconnected), ControlAction::Halt);
    assert_eq!(
        control_action(ControlEvent::Message(ControlMessage::ManualTick)),
        ControlAction::Ignore
    );
}

#[test]
fn memory_sizes() {
    assert_eq!(parse_memory("32K"), Some(32 * 1024));
    assert_eq!(parse_memory("32k"), Some(32 * 1024));
    assert_eq!(parse_memory("5"), Some(5));
    assert_eq!(parse_memory("0"), Some(0));
    assert_eq!(parse_memory("3M"), Some(3 << 20));
    assert_eq!(parse_memory("2g"), Some(2 << 30));
    assert_eq!(parse_memory(""), None);
    assert_eq!(parse_memory("K"), None);
    assert_eq!(parse_memory("12X"), None);
    assert_eq!(parse_memory("1 K"), None);
    assert_eq!(parse_memory("+5"), None);
    assert_eq!(parse_memory("99999999999999999999999"), None);
}

#[test]
fn clock_choices() {
    assert_eq!(parse_clock("manual"), Some(ClockChoice::Manual));
    assert_eq!(parse_clock("free"), Some(ClockChoice::Free));
    assert_eq!(parse_clock("50"), Some(ClockChoice::Fixed(20_000_000)));
    assert_eq!(parse_clock("3"), Some(ClockChoice::Fixed(333_333_333)));
    assert_eq!(parse_clock("0"), None);
    assert_eq!(parse_clock("fast"), None);
    assert_eq!(parse_clock(""), None);
    assert_eq!(parse_clock("2000000000"), None);
}
