use atomberg_remote::patterns::{lookup, PatternName, POWER_TOGGLE, SLEEP_MODE, SPEED_3, TIMER_CYCLE};

#[test]
fn lookup_returns_the_named_waveform() {
    assert_eq!(lookup(PatternName::PowerToggle), &POWER_TOGGLE[..]);
    assert_eq!(lookup(PatternName::Speed3), &SPEED_3[..]);
    assert_eq!(lookup(PatternName::SleepMode), &SLEEP_MODE[..]);
    assert_eq!(lookup(PatternName::TimerCycle), &TIMER_CYCLE[..]);
}

#[test]
fn lookup_is_stable_and_unnormalised() {
    let first = lookup(PatternName::TimerCycle);
    let second = lookup(PatternName::TimerCycle);
    assert_eq!(first, second);
    assert_eq!(first.len(), 67);
    assert_eq!(first[0], 8880);
    assert_eq!(first[1], 4420);
    assert_eq!(lookup(PatternName::PowerToggle)[0], 8930);
}

#[test]
fn every_catalog_waveform_has_frame_length() {
    let names = [
        PatternName::PowerToggle,
        PatternName::Speed1,
        PatternName::Speed2,
        PatternName::Speed3,
        PatternName::Speed4,
        PatternName::Speed5,
        PatternName::Boost,
        PatternName::TimerCycle,
        PatternName::OscMode,
        PatternName::SleepMode,
    ];
    for n in names {
        assert_eq!(lookup(n).len(), 67);
    }
}
