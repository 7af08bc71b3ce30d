//! Waveforms captured from real handsets (NEC at 38 kHz, address 0xF300),
//! for commands whose bit-level encoding is not known. They are replayed as
//! captured: they need not match what the encoder produces for the same
//! command.
use vstd::prelude::*;

verus! {

/// Toggles the fan on and off.
pub const POWER_TOGGLE: [i32; 67] = [
    8930, 4420, 580, 570, 580, 520, 580, 570, 580, 520, 580, 570, 580, 520,
    580, 570, 580, 520, 580, 1670, 580, 1620, 580, 570, 580, 520, 580, 1670,
    580, 1620, 580, 1670, 580, 1670, 580, 1620, 580, 570, 580, 520, 580, 570,
    580, 1620, 580, 570, 580, 520, 580, 1670, 580, 520, 580, 1670, 580, 1670,
    580, 1620, 580, 570, 580, 1620, 580, 1670, 580, 520, 580,
];

/// Fan speed 1.
pub const SPEED_1: [i32; 67] = [
    8880, 4420, 580, 570, 580, 520, 580, 570, 530, 570, 580, 570, 530, 570,
    580, 520, 580, 570, 580, 1670, 530, 1670, 580, 570, 580, 520, 580, 1620,
    630, 1620, 580, 1670, 580, 1670, 530, 1670, 580, 1620, 630, 520, 580, 1620,
    630, 520, 580, 570, 580, 520, 580, 1620, 630, 520, 580, 570, 580, 1620,
    580, 570, 580, 1620, 580, 1670, 580, 1620, 630, 520, 580,
];

/// Fan speed 2.
pub const SPEED_2: [i32; 67] = [
    8930, 4420, 580, 520, 580, 570, 580, 520, 630, 520, 580, 520, 580, 520,
    630, 520, 580, 570, 580, 1620, 580, 1670, 580, 520, 580, 570, 580, 1620,
    580, 1670, 580, 1670, 580, 1620, 630, 520, 580, 520, 580, 570, 580, 520,
    580, 1670, 580, 520, 630, 520, 580, 1620, 580, 1670, 580, 1670, 580, 1620,
    580, 1670, 580, 520, 580, 1670, 580, 1670, 580, 520, 580,
];

/// Fan speed 3.
pub const SPEED_3: [i32; 67] = [
    8930, 4420, 580, 570, 580, 520, 580, 570, 580, 520, 580, 570, 580, 520,
    630, 520, 580, 520, 580, 1670, 580, 1620, 630, 520, 580, 520, 580, 1670,
    580, 1620, 580, 1670, 580, 1670, 580, 520, 580, 1670, 580, 520, 580, 1670,
    580, 520, 580, 570, 580, 520, 580, 1670, 580, 1670, 530, 570, 580, 1620,
    630, 520, 580, 1670, 580, 1620, 580, 1670, 580, 520, 580,
];

/// Fan speed 4.
pub const SPEED_4: [i32; 67] = [
    8930, 4370, 630, 520, 580, 520, 630, 520, 580, 570, 580, 520, 580, 570,
    580, 520, 580, 520, 630, 1620, 580, 1670, 580, 520, 580, 520, 630, 1620,
    630, 1620, 580, 1670, 580, 1620, 580, 1670, 580, 1620, 630, 520, 580, 570,
    580, 1620, 580, 570, 580, 520, 580, 1670, 580, 520, 580, 570, 580, 1620,
    580, 1670, 580, 520, 580, 1670, 580, 1620, 630, 520, 580,
];

/// Fan speed 5.
pub const SPEED_5: [i32; 67] = [
    8930, 4420, 580, 520, 580, 570, 580, 520, 580, 570, 580, 520, 580, 570,
    580, 520, 580, 520, 630, 1620, 580, 1670, 580, 520, 630, 470, 630, 1620,
    580, 1670, 580, 1670, 580, 1620, 630, 470, 630, 520, 580, 520, 630, 1620,
    580, 520, 630, 520, 580, 520, 630, 1620, 580, 1670, 580, 1670, 580, 1620,
    580, 520, 630, 1620, 580, 1670, 580, 1670, 580, 520, 580,
];

/// Boost mode.
pub const BOOST: [i32; 67] = [
    8930, 4420, 580, 570, 580, 520, 580, 520, 580, 570, 580, 520, 580, 570,
    580, 520, 580, 570, 580, 1620, 580, 1670, 580, 570, 580, 520, 580, 1670,
    580, 1620, 580, 1670, 580, 1620, 580, 1670, 580, 1670, 580, 1620, 580, 1670,
    580, 520, 580, 570, 580, 520, 580, 1670, 580, 520, 580, 570, 580, 520,
    580, 570, 580, 1670, 580, 1620, 580, 1670, 580, 520, 580,
];

/// Steps the built-in timer through its modes (one button cycles them).
pub const TIMER_CYCLE: [i32; 67] = [
    8880, 4420, 630, 520, 580, 520, 580, 570, 580, 520, 580, 570, 580, 520,
    580, 570, 580, 520, 580, 1670, 580, 1670, 580, 520, 580, 520, 630, 1620,
    580, 1670, 580, 1620, 580, 1670, 580, 520, 580, 1670, 580, 1620, 630, 520,
    580, 1670, 580, 520, 580, 520, 630, 1620, 580, 1670, 580, 520, 580, 520,
    630, 1620, 580, 570, 580, 1620, 630, 1620, 580, 520, 630,
];

/// Breeze mode; not every handset has it.
pub const OSC_MODE: [i32; 67] = [
    8930, 4420, 580, 570, 580, 520, 580, 570, 580, 520, 580, 570, 580, 520,
    580, 520, 630, 520, 580, 1670, 580, 1670, 530, 570, 580, 520, 580, 1670,
    580, 1670, 580, 1620, 580, 1670, 580, 1670, 580, 1620, 580, 1670, 580, 520,
    580, 1670, 580, 520, 580, 570, 580, 1620, 580, 570, 580, 520, 580, 570,
    580, 1620, 580, 570, 580, 1670, 530, 1670, 580, 570, 580,
];

/// Sleep mode.
pub const SLEEP_MODE: [i32; 67] = [
    8930, 4370, 630, 520, 580, 520, 630, 520, 630, 520, 580, 520, 580, 570,
    580, 520, 580, 520, 630, 1620, 630, 1620, 580, 520, 630, 470, 630, 1620,
    630, 1620, 630, 1620, 580, 1620, 630, 520, 580, 1620, 580, 1670, 580, 1620,
    630, 520, 580, 570, 580, 520, 580, 1670, 580, 1620, 630, 520, 580, 520,
    580, 570, 580, 1620, 630, 1620, 580, 1620, 630, 520, 580,
];

/// The names under which the catalog holds its waveforms.
#[derive(Clone, Copy, Debug, PartialEq, Eq, Structural)]
pub enum PatternName {
    PowerToggle,
    Speed1,
    Speed2,
    Speed3,
    Speed4,
    Speed5,
    Boost,
    TimerCycle,
    OscMode,
    SleepMode,
}

/// The waveform that the catalog holds under `name`.
pub open spec fn catalog_waveform(name: PatternName) -> Seq<i32> {
    match name {
        PatternName::PowerToggle => POWER_TOGGLE@,
        PatternName::Speed1 => SPEED_1@,
        PatternName::Speed2 => SPEED_2@,
        PatternName::Speed3 => SPEED_3@,
        PatternName::Speed4 => SPEED_4@,
        PatternName::Speed5 => SPEED_5@,
        PatternName::Boost => BOOST@,
        PatternName::TimerCycle => TIMER_CYCLE@,
        PatternName::OscMode => OSC_MODE@,
        PatternName::SleepMode => SLEEP_MODE@,
    }
}

/// Looks up a captured waveform by name; the same sequence on every call.
pub fn lookup(name: PatternName) -> (r: &'static [i32])
    ensures
        r@ == catalog_waveform(name),
{
    match name {
        PatternName::PowerToggle => &POWER_TOGGLE,
        PatternName::Speed1 => &SPEED_1,
        PatternName::Speed2 => &SPEED_2,
        PatternName::Speed3 => &SPEED_3,
        PatternName::Speed4 => &SPEED_4,
        PatternName::Speed5 => &SPEED_5,
        PatternName::Boost => &BOOST,
        PatternName::TimerCycle => &TIMER_CYCLE,
        PatternName::OscMode => &OSC_MODE,
        PatternName::SleepMode => &SLEEP_MODE,
    }
}

} // verus!
