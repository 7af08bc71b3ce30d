//! Dispatch: what a user command transmits and what status it reports.
use vstd::prelude::*;

use crate::action::{ActionModel, Waveform};
use crate::patterns::{PatternName, catalog_waveform, lookup};
use crate::profile::{Profile, Slot, resolve_slot};

verus! {

/// The commands a user can trigger.
#[derive(Clone, Copy, Debug, PartialEq, Eq, Structural)]
pub enum Command {
    Power,
    Speed1,
    Speed2,
    Speed3,
    Speed4,
    Speed5,
    Boost,
    Sleep,
    Led,
    Timer1h,
    Timer2h,
    Timer4h,
    TimerCycle,
}

/// How a command is served.
#[derive(Clone, Copy, Debug, PartialEq, Eq, Structural)]
pub enum CommandKind {
    /// Always the catalog waveform of that name, whatever the profile holds.
    Fixed(PatternName),
    /// Whatever the active profile binds to that slot.
    Variable(Slot),
}

/// How `c` is served.
pub open spec fn command_kind(c: Command) -> CommandKind {
    match c {
        Command::Power => CommandKind::Fixed(PatternName::PowerToggle),
        Command::Speed1 => CommandKind::Fixed(PatternName::Speed1),
        Command::Speed2 => CommandKind::Fixed(PatternName::Speed2),
        Command::Speed3 => CommandKind::Fixed(PatternName::Speed3),
        Command::Speed4 => CommandKind::Fixed(PatternName::Speed4),
        Command::Speed5 => CommandKind::Fixed(PatternName::Speed5),
        Command::Boost => CommandKind::Fixed(PatternName::Boost),
        Command::Sleep => CommandKind::Variable(Slot::Sleep),
        Command::Led => CommandKind::Variable(Slot::Led),
        Command::Timer1h => CommandKind::Variable(Slot::Timer1h),
        Command::Timer2h => CommandKind::Variable(Slot::Timer2h),
        Command::Timer4h => CommandKind::Variable(Slot::Timer4h),
        Command::TimerCycle => CommandKind::Variable(Slot::TimerCycle),
    }
}

/// The status reported when the command's waveform is sent.
pub open spec fn sent_text(c: Command) -> Seq<char> {
    match c {
        Command::Power => "Power toggled"@,
        Command::Speed1 => "Speed 1"@,
        Command::Speed2 => "Speed 2"@,
        Command::Speed3 => "Speed 3"@,
        Command::Speed4 => "Speed 4"@,
        Command::Speed5 => "Speed 5"@,
        Command::Boost => "Boost mode"@,
        Command::Sleep => "Sleep mode"@,
        Command::Led => "LED toggled"@,
        Command::Timer1h => "Timer 1h"@,
        Command::Timer2h => "Timer 2h"@,
        Command::Timer4h => "Timer 4h"@,
        Command::TimerCycle => "Timer cycle (1h→2h→4h→8h→Off)"@,
    }
}

/// The status reported when the active profile leaves the command unbound.
pub open spec fn not_configured_text(c: Command) -> Seq<char> {
    match c {
        Command::Sleep => "Sleep not configured"@,
        Command::Led => "LED not configured"@,
        _ => "Timer not configured"@,
    }
}

/// The speed command for speeds 1 to 5.
pub open spec fn speed_command(speed: i32) -> Command {
    if speed == 1 {
        Command::Speed1
    } else if speed == 2 {
        Command::Speed2
    } else if speed == 3 {
        Command::Speed3
    } else if speed == 4 {
        Command::Speed4
    } else {
        Command::Speed5
    }
}

impl Command {
    /// The command for fan speed `speed`; `None` unless it is 1 to 5.
    pub fn speed(speed: i32) -> (r: Option<Command>)
        ensures
            r == (if 1 <= speed <= 5 {
                Some(speed_command(speed))
            } else {
                None::<Command>
            }),
    {
        match speed {
            1 => Some(Command::Speed1),
            2 => Some(Command::Speed2),
            3 => Some(Command::Speed3),
            4 => Some(Command::Speed4),
            5 => Some(Command::Speed5),
            _ => None,
        }
    }

    /// How this command is served.
    pub fn kind(self) -> (r: CommandKind)
        ensures
            r == command_kind(self),
    {
        match self {
            Command::Power => CommandKind::Fixed(PatternName::PowerToggle),
            Command::Speed1 => CommandKind::Fixed(PatternName::Speed1),
            Command::Speed2 => CommandKind::Fixed(PatternName::Speed2),
            Command::Speed3 => CommandKind::Fixed(PatternName::Speed3),
            Command::Speed4 => CommandKind::Fixed(PatternName::Speed4),
            Command::Speed5 => CommandKind::Fixed(PatternName::Speed5),
            Command::Boost => CommandKind::Fixed(PatternName::Boost),
            Command::Sleep => CommandKind::Variable(Slot::Sleep),
            Command::Led => CommandKind::Variable(Slot::Led),
            Command::Timer1h => CommandKind::Variable(Slot::Timer1h),
            Command::Timer2h => CommandKind::Variable(Slot::Timer2h),
            Command::Timer4h => CommandKind::Variable(Slot::Timer4h),
            Command::TimerCycle => CommandKind::Variable(Slot::TimerCycle),
        }
    }

    /// The status reported when the command's waveform is sent.
    pub fn sent_status(self) -> (r: &'static str)
        ensures
            r@ == sent_text(self),
    {
        match self {
            Command::Power => "Power toggled",
            Command::Speed1 => "Speed 1",
            Command::Speed2 => "Speed 2",
            Command::Speed3 => "Speed 3",
            Command::Speed4 => "Speed 4",
            Command::Speed5 => "Speed 5",
            Command::Boost => "Boost mode",
            Command::Sleep => "Sleep mode",
            Command::Led => "LED toggled",
            Command::Timer1h => "Timer 1h",
            Command::Timer2h => "Timer 2h",
            Command::Timer4h => "Timer 4h",
            Command::TimerCycle => "Timer cycle (1h→2h→4h→8h→Off)",
        }
    }

    /// The status reported when the command is not bound.
    pub fn not_configured_status(self) -> (r: &'static str)
        ensures
            r@ == not_configured_text(self),
    {
        match self {
            Command::Sleep => "Sleep not configured",
            Command::Led => "LED not configured",
            _ => "Timer not configured",
        }
    }
}

/// What to do for a command.
pub enum Dispatch<'a> {
    /// Send `waveform`, then report `status`.
    Transmit { waveform: Waveform<'a>, status: &'static str },
    /// Send nothing; report `status`.
    NotConfigured { status: &'static str },
}

/// How a command ended.
#[derive(Clone, Copy, Debug, PartialEq, Eq, Structural)]
pub enum DispatchOutcome {
    Delivered,
    NotConfigured,
    HardwareAbsent,
    TransmitFailed,
}

/// What the transmitter reported for a waveform it was handed.
#[derive(Clone, Copy, Debug, PartialEq, Eq, Structural)]
pub enum TransmitReport {
    /// The device has no infrared emitter; nothing was sent.
    NoEmitter,
    Sent,
    Failed,
}

/// What a command does, as a mathematical value.
pub ghost enum DispatchModel {
    Transmit(Seq<i32>, Seq<char>),
    NotConfigured(Seq<char>),
}

impl<'a> View for Dispatch<'a> {
    type V = DispatchModel;

    open spec fn view(&self) -> DispatchModel {
        match self {
            Dispatch::Transmit { waveform, status } => DispatchModel::Transmit(waveform@, status@),
            Dispatch::NotConfigured { status } => DispatchModel::NotConfigured(status@),
        }
    }
}

/// What `command` does under the profile `profile`: a fixed command sends
/// its catalog waveform whatever the profile holds; a variable command sends
/// what its slot resolves to, or nothing where the slot is unbound.
pub open spec fn dispatch_model(profile: Map<Slot, ActionModel>, command: Command) -> DispatchModel {
    match command_kind(command) {
        CommandKind::Fixed(name) => DispatchModel::Transmit(catalog_waveform(name), sent_text(command)),
        CommandKind::Variable(slot) => match resolve_slot(profile, slot) {
            Some(w) => DispatchModel::Transmit(w, sent_text(command)),
            None => DispatchModel::NotConfigured(not_configured_text(command)),
        },
    }
}

/// Decides a command against the active profile (see `dispatch_model`).
pub fn dispatch<'a>(profile: &'a Profile, command: Command) -> (r: Dispatch<'a>)
    ensures
        r@ == dispatch_model(profile@, command),
{
    match command.kind() {
        CommandKind::Fixed(name) => Dispatch::Transmit {
            waveform: Waveform::Borrowed(lookup(name)),
            status: command.sent_status(),
        },
        CommandKind::Variable(slot) => match profile.resolve(slot) {
            Some(waveform) => Dispatch::Transmit { waveform, status: command.sent_status() },
            None => Dispatch::NotConfigured { status: command.not_configured_status() },
        },
    }
}

impl<'a> Dispatch<'a> {
    /// How the command ended, given what the transmitter reported for a
    /// `Transmit` (the report is not consulted for `NotConfigured`).
    pub fn outcome(&self, report: TransmitReport) -> (r: DispatchOutcome)
        ensures
            self is NotConfigured ==> r == DispatchOutcome::NotConfigured,
            self is Transmit ==> r == report_outcome(report),
    {
        match self {
            Dispatch::NotConfigured { .. } => DispatchOutcome::NotConfigured,
            Dispatch::Transmit { .. } => report.outcome(),
        }
    }
}

/// How a sent command ended, by what the transmitter reported.
pub open spec fn report_outcome(report: TransmitReport) -> DispatchOutcome {
    match report {
        TransmitReport::NoEmitter => DispatchOutcome::HardwareAbsent,
        TransmitReport::Sent => DispatchOutcome::Delivered,
        TransmitReport::Failed => DispatchOutcome::TransmitFailed,
    }
}

impl TransmitReport {
    /// How a command whose waveform went to the transmitter ended.
    pub fn outcome(self) -> (r: DispatchOutcome)
        ensures
            r == report_outcome(self),
    {
        match self {
            TransmitReport::NoEmitter => DispatchOutcome::HardwareAbsent,
            TransmitReport::Sent => DispatchOutcome::Delivered,
            TransmitReport::Failed => DispatchOutcome::TransmitFailed,
        }
    }
}

/// Power, speed and boost do the same under every profile.
pub proof fn lemma_fixed_commands_ignore_profile(
    first: Map<Slot, ActionModel>,
    second: Map<Slot, ActionModel>,
    command: Command,
)
    requires
        command_kind(command) is Fixed,
    ensures
        dispatch_model(first, command) == dispatch_model(second, command),
{
}

} // verus!
