use ti84ce::scheduler::{ClockId, EventId, Scheduler};

#[test]
fn test_clock_rates() {
    assert_eq!(ClockId::Clock48M.rate(0), 48_000_000);
    assert_eq!(ClockId::Clock24M.rate(0), 24_000_000);
    assert_eq!(ClockId::Clock32K.rate(0), 32_768);

    assert_eq!(ClockId::Cpu.rate(0), 6_000_000);
    assert_eq!(ClockId::Cpu.rate(1), 12_000_000);
    assert_eq!(ClockId::Cpu.rate(2), 24_000_000);
    assert_eq!(ClockId::Cpu.rate(3), 48_000_000);
}

#[test]
fn test_base_ticks_per_tick() {
    assert_eq!(ClockId::Clock48M.base_ticks_per_tick(0), 160);

    assert_eq!(ClockId::Clock32K.base_ticks_per_tick(0), 234_375);

    assert_eq!(ClockId::Clock24M.base_ticks_per_tick(0), 320);
}

#[test]
fn test_new_scheduler() {
    let sched = Scheduler::new();
    assert_eq!(sched.base_ticks, 0);
    assert!(!sched.is_active(EventId::Rtc));
    assert!(!sched.is_active(EventId::Spi));
}

#[test]
fn test_schedule_event() {
    let mut sched = Scheduler::new();
    sched.set_cpu_speed(3);

    sched.set(EventId::Rtc, 10);
    assert!(sched.is_active(EventId::Rtc));
    assert_eq!(sched.ticks_remaining(EventId::Rtc), 10);
    assert!(!sched.has_fired(EventId::Rtc));
}

#[test]
fn test_advance_and_fire() {
    let mut sched = Scheduler::new();
    sched.set_cpu_speed(3);

    sched.set(EventId::Rtc, 1);
    assert!(!sched.has_fired(EventId::Rtc));

    sched.advance(1465);
    assert!(sched.has_fired(EventId::Rtc));
}

#[test]
fn test_clear_event() {
    let mut sched = Scheduler::new();
    sched.set(EventId::Rtc, 10);
    assert!(sched.is_active(EventId::Rtc));

    sched.clear(EventId::Rtc);
    assert!(!sched.is_active(EventId::Rtc));
}

#[test]
fn test_repeat_event() {
    let mut sched = Scheduler::new();
    sched.set_cpu_speed(3);

    sched.set(EventId::Rtc, 1);
    let initial_timestamp = sched.items[EventId::Rtc as usize].timestamp;

    sched.advance(2000);
    assert!(sched.has_fired(EventId::Rtc));

    sched.repeat(EventId::Rtc, 1);

    let expected = initial_timestamp + 234_375;
    assert_eq!(sched.items[EventId::Rtc as usize].timestamp, expected);
}

#[test]
fn test_pending_events() {
    let mut sched = Scheduler::new();
    sched.set_cpu_speed(3);

    sched.set(EventId::Rtc, 1);
    sched.set(EventId::Spi, 1000);

    sched.advance(1500);

    let pending = sched.pending_events();
    assert_eq!(pending.len(), 1);
    assert_eq!(pending[0], EventId::Rtc);
}
