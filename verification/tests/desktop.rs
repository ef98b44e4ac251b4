use pattern_clock::desktop::{CognitiveCycle, TICK_INTERVAL_MS};

#[test]
fn cycle_starts_idle() {
    let cycle = CognitiveCycle::new();
    assert_eq!(cycle, CognitiveCycle { running: false, ticks: 0 });
    assert_eq!(cycle.button_label(), "Start CogCycle");
    assert_eq!(cycle.indicator_color(), "#8B0000");
    assert_eq!(TICK_INTERVAL_MS, 50);
}

#[test]
fn toggle_flips_the_switch() {
    let mut cycle = CognitiveCycle::new();
    assert!(cycle.toggle());
    assert_eq!(cycle.state_line(), "cognitive_cycle_state=true");
    assert_eq!(cycle.button_label(), "Stop CogCycle");
    assert_eq!(cycle.indicator_color(), "#006400");
    assert!(!cycle.toggle());
    assert_eq!(cycle.state_line(), "cognitive_cycle_state=false");
    assert_eq!(cycle, CognitiveCycle::new());
}

#[test]
fn ticks_count_only_while_running() {
    let mut cycle = CognitiveCycle::new();
    cycle.tick();
    cycle.tick();
    assert_eq!(cycle.ticks, 0);
    cycle.toggle();
    for _ in 0..7 {
        cycle.tick();
    }
    assert_eq!(cycle.ticks, 7);
    cycle.toggle();
    cycle.tick();
    assert_eq!(cycle, CognitiveCycle { running: false, ticks: 7 });
}

#[test]
fn tick_counter_wraps_around() {
    let mut cycle = CognitiveCycle { running: true, ticks: u64::MAX };
    cycle.tick();
    assert_eq!(cycle.ticks, 0);
    cycle.tick();
    assert_eq!(cycle.ticks, 1);
}
