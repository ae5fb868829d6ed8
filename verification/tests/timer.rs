use tile_input::timer::FlagTimer;

const SECOND: u64 = 1_000_000_000;

#[test]
fn a_new_timer_is_off() {
    let timer = FlagTimer::new();
    assert_eq!(timer, FlagTimer { on: false, time_on: 0, ticks_on: 0 });
    assert_eq!(FlagTimer::default(), timer);
}

#[test]
fn off_on_an_off_timer_changes_nothing() {
    let mut timer = FlagTimer::default();
    assert!(!timer.off());
    assert_eq!(timer, FlagTimer { on: false, time_on: 0, ticks_on: 0 });
    assert!(!timer.off());
    assert_eq!(timer, FlagTimer { on: false, time_on: 0, ticks_on: 0 });
}

#[test]
fn on_three_times_accumulates() {
    let mut timer = FlagTimer::new();
    assert!(!timer.on(SECOND));
    assert_eq!(timer, FlagTimer { on: true, time_on: SECOND, ticks_on: 1 });
    assert!(timer.on(SECOND));
    assert_eq!(timer, FlagTimer { on: true, time_on: 2 * SECOND, ticks_on: 2 });
    assert!(timer.on(SECOND));
    assert_eq!(timer, FlagTimer { on: true, time_on: 3 * SECOND, ticks_on: 3 });
}

#[test]
fn on_adds_the_elapsed_time_it_is_given() {
    let mut timer = FlagTimer::new();
    timer.on(16_666_667);
    timer.on(0);
    timer.on(33_333_333);
    assert_eq!(timer, FlagTimer { on: true, time_on: 50_000_000, ticks_on: 3 });
}

#[test]
fn off_reports_the_edge_and_clears_the_counters() {
    let mut timer = FlagTimer::new();
    timer.on(SECOND);
    timer.on(SECOND);
    assert!(timer.off());
    assert_eq!(timer, FlagTimer { on: false, time_on: 0, ticks_on: 0 });
    assert!(!timer.off());
}

#[test]
fn an_off_cycle_leaves_nothing_behind() {
    let mut fresh = FlagTimer::new();
    let mut cycled = FlagTimer::new();
    cycled.on(7 * SECOND);
    cycled.on(SECOND);
    cycled.off();

    for elapsed in [SECOND, 3, 250_000_000] {
        assert_eq!(cycled.on(elapsed), fresh.on(elapsed));
        assert_eq!(cycled, fresh);
    }
    assert_eq!(cycled, FlagTimer { on: true, time_on: SECOND + 3 + 250_000_000, ticks_on: 3 });
}

#[test]
fn can_turn_on_tells_when_the_counters_are_full() {
    let timer = FlagTimer { on: true, time_on: u64::MAX - 5, ticks_on: 9 };
    assert!(timer.can_turn_on(5));
    assert!(!timer.can_turn_on(6));

    let timer = FlagTimer { on: true, time_on: 0, ticks_on: u32::MAX };
    assert!(!timer.can_turn_on(0));

    let timer = FlagTimer { on: true, time_on: 0, ticks_on: u32::MAX - 1 };
    assert!(timer.can_turn_on(u64::MAX));
}

#[test]
fn on_reaches_the_last_value_of_each_counter() {
    let mut timer = FlagTimer { on: true, time_on: u64::MAX - 5, ticks_on: u32::MAX - 1 };
    assert!(timer.on(5));
    assert_eq!(timer, FlagTimer { on: true, time_on: u64::MAX, ticks_on: u32::MAX });
}
