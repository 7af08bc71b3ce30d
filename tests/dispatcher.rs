use atomberg_remote::dispatch::{dispatch, Command, CommandKind, Dispatch, DispatchOutcome, TransmitReport};
use atomberg_remote::patterns::{lookup, PatternName};
use atomberg_remote::profile::{default_renesa_profile, IrActionSpec, Profile, ProfileSpec, Slot};

fn sent(d: &Dispatch) -> Option<(Vec<i32>, String)> {
    match d {
        Dispatch::Transmit { waveform, status } => Some((waveform.as_slice().to_vec(), status.to_string())),
        Dispatch::NotConfigured { .. } => None,
    }
}

fn not_configured(d: &Dispatch) -> Option<String> {
    match d {
        Dispatch::NotConfigured { status } => Some(status.to_string()),
        Dispatch::Transmit { .. } => None,
    }
}

#[test]
fn fixed_commands_use_the_catalog() {
    let empty = Profile::from_spec(&ProfileSpec::new());
    let d = dispatch(&empty, Command::Power);
    assert_eq!(sent(&d), Some((lookup(PatternName::PowerToggle).to_vec(), "Power toggled".to_string())));
    let d = dispatch(&empty, Command::Speed4);
    assert_eq!(sent(&d), Some((lookup(PatternName::Speed4).to_vec(), "Speed 4".to_string())));
    let d = dispatch(&empty, Command::Boost);
    assert_eq!(sent(&d), Some((lookup(PatternName::Boost).to_vec(), "Boost mode".to_string())));
}

#[test]
fn variable_commands_use_the_profile() {
    let p = default_renesa_profile();
    let d = dispatch(&p, Command::Sleep);
    assert_eq!(sent(&d), Some((lookup(PatternName::SleepMode).to_vec(), "Sleep mode".to_string())));
    let d = dispatch(&p, Command::TimerCycle);
    assert_eq!(
        sent(&d),
        Some((lookup(PatternName::TimerCycle).to_vec(), "Timer cycle (1h→2h→4h→8h→Off)".to_string()))
    );
    let d = dispatch(&p, Command::Led);
    assert_eq!(not_configured(&d), Some("LED not configured".to_string()));
}

#[test]
fn unbound_commands_are_not_configured() {
    let empty = Profile::from_spec(&ProfileSpec::new());
    assert_eq!(not_configured(&dispatch(&empty, Command::Sleep)), Some("Sleep not configured".to_string()));
    assert_eq!(not_configured(&dispatch(&empty, Command::TimerCycle)), Some("Timer not configured".to_string()));
    assert_eq!(not_configured(&dispatch(&empty, Command::Timer1h)), Some("Timer not configured".to_string()));
}

#[test]
fn configured_led_is_sent() {
    let mut spec = ProfileSpec::new();
    spec.led = Some(IrActionSpec::Raw { pattern: vec![1, 2] });
    let p = Profile::from_spec(&spec);
    assert_eq!(sent(&dispatch(&p, Command::Led)), Some((vec![1, 2], "LED toggled".to_string())));
}

#[test]
fn outcomes_follow_the_transmitter_report() {
    let p = default_renesa_profile();
    let d = dispatch(&p, Command::Power);
    assert_eq!(d.outcome(TransmitReport::Sent), DispatchOutcome::Delivered);
    assert_eq!(d.outcome(TransmitReport::NoEmitter), DispatchOutcome::HardwareAbsent);
    assert_eq!(d.outcome(TransmitReport::Failed), DispatchOutcome::TransmitFailed);
    let n = dispatch(&p, Command::Led);
    assert_eq!(n.outcome(TransmitReport::Sent), DispatchOutcome::NotConfigured);
    assert_eq!(TransmitReport::NoEmitter.outcome(), DispatchOutcome::HardwareAbsent);
    assert_eq!(TransmitReport::Sent.outcome(), DispatchOutcome::Delivered);
    assert_eq!(TransmitReport::Failed.outcome(), DispatchOutcome::TransmitFailed);
}

#[test]
fn speed_commands() {
    assert_eq!(Command::speed(1), Some(Command::Speed1));
    assert_eq!(Command::speed(5), Some(Command::Speed5));
    assert_eq!(Command::speed(0), None);
    assert_eq!(Command::speed(6), None);
    assert_eq!(Command::speed(-1), None);
}

#[test]
fn command_classification() {
    assert_eq!(Command::Power.kind(), CommandKind::Fixed(PatternName::PowerToggle));
    assert_eq!(Command::Speed3.kind(), CommandKind::Fixed(PatternName::Speed3));
    assert_eq!(Command::Sleep.kind(), CommandKind::Variable(Slot::Sleep));
    assert_eq!(Command::Timer4h.kind(), CommandKind::Variable(Slot::Timer4h));
    assert_eq!(Command::Speed2.sent_status(), "Speed 2");
    assert_eq!(Command::Led.not_configured_status(), "LED not configured");
}

#[test]
fn fixed_commands_ignore_a_custom_profile() {
    let mut spec = ProfileSpec::new();
    spec.sleep = Some(IrActionSpec::Nec { address: 1, command: 2 });
    spec.timer_cycle = Some(IrActionSpec::Raw { pattern: vec![3] });
    let custom = Profile::from_spec(&spec);
    let builtin = default_renesa_profile();
    for c in [Command::Power, Command::Speed1, Command::Speed5, Command::Boost] {
        assert_eq!(sent(&dispatch(&custom, c)), sent(&dispatch(&builtin, c)));
    }
    assert_ne!(sent(&dispatch(&custom, Command::Sleep)), sent(&dispatch(&builtin, Command::Sleep)));
}
