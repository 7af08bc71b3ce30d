//! Handset profiles: which action each variable command slot is bound to.
use vstd::prelude::*;

use crate::action::{ActionModel, IrAction, Waveform};
use crate::patterns::{PatternName, SLEEP_MODE, TIMER_CYCLE, catalog_waveform};

verus! {

/// The command slots whose binding depends on the handset.
#[derive(Clone, Copy, Debug, PartialEq, Eq, Structural)]
pub enum Slot {
    Sleep,
    Led,
    Timer1h,
    Timer2h,
    Timer4h,
    TimerCycle,
}

impl Slot {
    /// The timer slots that fall back on the shared timer-cycle binding.
    pub open spec fn falls_back(self) -> bool {
        self is Timer1h || self is Timer2h || self is Timer4h
    }
}

/// One handset's bindings; `None` means the handset lacks that command.
pub struct Profile {
    pub sleep: Option<IrAction>,
    pub led: Option<IrAction>,
    pub timer_1h: Option<IrAction>,
    pub timer_2h: Option<IrAction>,
    pub timer_4h: Option<IrAction>,
    pub timer_cycle: Option<IrAction>,
}

/// The field of a profile that holds `slot`.
pub open spec fn profile_field(p: Profile, slot: Slot) -> Option<IrAction> {
    match slot {
        Slot::Sleep => p.sleep,
        Slot::Led => p.led,
        Slot::Timer1h => p.timer_1h,
        Slot::Timer2h => p.timer_2h,
        Slot::Timer4h => p.timer_4h,
        Slot::TimerCycle => p.timer_cycle,
    }
}

impl View for Profile {
    /// The bound slots, each with its action; a slot outside the domain is
    /// not supported.
    type V = Map<Slot, ActionModel>;

    open spec fn view(&self) -> Map<Slot, ActionModel> {
        Map::new(
            |s: Slot| profile_field(*self, s) is Some,
            |s: Slot| profile_field(*self, s)->Some_0@,
        )
    }
}

/// The waveform that `slot` resolves to in a profile model, if it is bound.
pub open spec fn resolve_slot(m: Map<Slot, ActionModel>, slot: Slot) -> Option<Seq<i32>> {
    if m.contains_key(slot) {
        Some(m[slot].waveform())
    } else {
        None
    }
}

/// The built-in profile: sleep on the captured sleep waveform, every timer
/// slot on the captured timer-cycle waveform, no LED.
pub open spec fn default_profile_model() -> Map<Slot, ActionModel> {
    map![
        Slot::Sleep => ActionModel::Captured(catalog_waveform(PatternName::SleepMode)),
        Slot::Timer1h => ActionModel::Captured(catalog_waveform(PatternName::TimerCycle)),
        Slot::Timer2h => ActionModel::Captured(catalog_waveform(PatternName::TimerCycle)),
        Slot::Timer4h => ActionModel::Captured(catalog_waveform(PatternName::TimerCycle)),
        Slot::TimerCycle => ActionModel::Captured(catalog_waveform(PatternName::TimerCycle)),
    ]
}

/// The built-in profile.
pub fn default_renesa_profile() -> (r: Profile)
    ensures
        r@ == default_profile_model(),
{
    let r = Profile {
        sleep: Some(IrAction::RawStatic(&SLEEP_MODE)),
        led: None,
        timer_1h: Some(IrAction::RawStatic(&TIMER_CYCLE)),
        timer_2h: Some(IrAction::RawStatic(&TIMER_CYCLE)),
        timer_4h: Some(IrAction::RawStatic(&TIMER_CYCLE)),
        timer_cycle: Some(IrAction::RawStatic(&TIMER_CYCLE)),
    };
    assert(r@ =~= default_profile_model());
    r
}

impl Profile {
    /// The action bound to `slot`, if any.
    pub fn slot(&self, slot: Slot) -> (r: Option<&IrAction>)
        ensures
            r is Some <==> self@.contains_key(slot),
            r is Some ==> *r->Some_0 == profile_field(*self, slot)->Some_0,
            r is Some ==> r->Some_0@ == self@[slot],
    {
        match slot {
            Slot::Sleep => self.sleep.as_ref(),
            Slot::Led => self.led.as_ref(),
            Slot::Timer1h => self.timer_1h.as_ref(),
            Slot::Timer2h => self.timer_2h.as_ref(),
            Slot::Timer4h => self.timer_4h.as_ref(),
            Slot::TimerCycle => self.timer_cycle.as_ref(),
        }
    }

    /// The waveform `slot` resolves to, or `None` where it is not bound.
    pub fn resolve(&self, slot: Slot) -> (r: Option<Waveform<'_>>)
        ensures
            r is Some <==> resolve_slot(self@, slot) is Some,
            r is Some ==> r->Some_0@ == resolve_slot(self@, slot)->Some_0,
    {
        match self.slot(slot) {
            Some(action) => Some(action.resolve()),
            None => None,
        }
    }
}

/// An action as a configuration document states it. Numbers keep the
/// document's values; they are cut to the width of the action's fields
/// (`i32` durations, a 16-bit address, an 8-bit command) on conversion.
pub enum IrActionSpec {
    Raw { pattern: Vec<u64> },
    Nec { address: u64, command: u64 },
}

impl View for IrActionSpec {
    /// The action the document entry converts to.
    type V = ActionModel;

    open spec fn view(&self) -> ActionModel {
        match self {
            IrActionSpec::Raw { pattern } => ActionModel::Owned(
                pattern@.map_values(|x: u64| x as i32),
            ),
            IrActionSpec::Nec { address, command } => ActionModel::Nec(
                *address as u16,
                *command as u8,
            ),
        }
    }
}

impl IrAction {
    /// Converts a document entry, cutting each number to its field's width.
    pub fn from(spec: &IrActionSpec) -> (r: IrAction)
        ensures
            r@ == spec@,
    {
        match spec {
            IrActionSpec::Raw { pattern } => {
                let mut out: Vec<i32> = Vec::with_capacity(pattern.len());
                let mut i: usize = 0;
                while i < pattern.len()
                    invariant
                        i <= pattern@.len(),
                        out@.len() == i,
                        forall|k: int| 0 <= k < i ==> out@[k] == pattern@[k] as i32,
                    decreases pattern@.len() - i,
                {
                    out.push(pattern[i] as i32);
                    i = i + 1;
                }
                assert(out@ =~= pattern@.map_values(|x: u64| x as i32));
                IrAction::Raw(out)
            },
            IrActionSpec::Nec { address, command } => IrAction::Nec {
                addr: *address as u16,
                cmd: *command as u8,
            },
        }
    }
}

/// The configuration form of a profile: only what the document states,
/// with no defaults.
pub struct ProfileSpec {
    pub sleep: Option<IrActionSpec>,
    pub led: Option<IrActionSpec>,
    pub timer_1h: Option<IrActionSpec>,
    pub timer_2h: Option<IrActionSpec>,
    pub timer_4h: Option<IrActionSpec>,
    pub timer_cycle: Option<IrActionSpec>,
}

/// The entry of a configuration that states `slot`.
pub open spec fn spec_field(p: ProfileSpec, slot: Slot) -> Option<IrActionSpec> {
    match slot {
        Slot::Sleep => p.sleep,
        Slot::Led => p.led,
        Slot::Timer1h => p.timer_1h,
        Slot::Timer2h => p.timer_2h,
        Slot::Timer4h => p.timer_4h,
        Slot::TimerCycle => p.timer_cycle,
    }
}

impl View for ProfileSpec {
    /// The slots the document states explicitly, each with its action.
    type V = Map<Slot, ActionModel>;

    open spec fn view(&self) -> Map<Slot, ActionModel> {
        Map::new(
            |s: Slot| spec_field(*self, s) is Some,
            |s: Slot| spec_field(*self, s)->Some_0@,
        )
    }
}

/// The profile a configuration defines, built on an empty profile: a slot
/// takes its own entry; a 1h, 2h or 4h timer without one takes the
/// timer-cycle entry; any other slot stays unbound.
pub open spec fn overlay(stated: Map<Slot, ActionModel>) -> Map<Slot, ActionModel> {
    Map::new(
        |s: Slot| stated.contains_key(s) || (s.falls_back() && stated.contains_key(Slot::TimerCycle)),
        |s: Slot|
            if stated.contains_key(s) {
                stated[s]
            } else {
                stated[Slot::TimerCycle]
            },
    )
}

impl ProfileSpec {
    /// A configuration that states nothing.
    pub fn new() -> (r: ProfileSpec)
        ensures
            r@ == Map::<Slot, ActionModel>::empty(),
            r.sleep is None,
            r.led is None,
            r.timer_1h is None,
            r.timer_2h is None,
            r.timer_4h is None,
            r.timer_cycle is None,
    {
        let r = ProfileSpec {
            sleep: None,
            led: None,
            timer_1h: None,
            timer_2h: None,
            timer_4h: None,
            timer_cycle: None,
        };
        assert(r@ =~= Map::<Slot, ActionModel>::empty());
        r
    }
}

/// Converts an entry, if there is one.
fn convert_entry(entry: &Option<IrActionSpec>) -> (r: Option<IrAction>)
    ensures
        r is Some <==> entry is Some,
        r is Some ==> r->Some_0@ == entry->Some_0@,
{
    match entry {
        Some(spec) => Some(IrAction::from(spec)),
        None => None,
    }
}

/// Converts `entry`, or `fallback` where `entry` is absent.
fn convert_with_fallback(entry: &Option<IrActionSpec>, fallback: &Option<IrActionSpec>) -> (r:
    Option<IrAction>)
    ensures
        r is Some <==> (entry is Some || fallback is Some),
        entry is Some ==> r->Some_0@ == entry->Some_0@,
        entry is None && fallback is Some ==> r->Some_0@ == fallback->Some_0@,
{
    match entry {
        Some(spec) => Some(IrAction::from(spec)),
        None => convert_entry(fallback),
    }
}

impl Profile {
    /// The profile a configuration defines (see `overlay`): nothing of any
    /// other profile carries over.
    pub fn from_spec(spec: &ProfileSpec) -> (r: Profile)
        ensures
            r@ == overlay(spec@),
    {
        let r = Profile {
            sleep: convert_entry(&spec.sleep),
            led: convert_entry(&spec.led),
            timer_1h: convert_with_fallback(&spec.timer_1h, &spec.timer_cycle),
            timer_2h: convert_with_fallback(&spec.timer_2h, &spec.timer_cycle),
            timer_4h: convert_with_fallback(&spec.timer_4h, &spec.timer_cycle),
            timer_cycle: convert_entry(&spec.timer_cycle),
        };
        assert(r@ =~= overlay(spec@));
        r
    }
}

/// In the built-in profile the four timer slots resolve to the same captured
/// timer-cycle waveform, sleep to the captured sleep waveform, and LED to
/// nothing.
pub proof fn lemma_default_profile()
    ensures
        resolve_slot(default_profile_model(), Slot::Timer1h) == Some(
            catalog_waveform(PatternName::TimerCycle),
        ),
        resolve_slot(default_profile_model(), Slot::Timer2h) == Some(
            catalog_waveform(PatternName::TimerCycle),
        ),
        resolve_slot(default_profile_model(), Slot::Timer4h) == Some(
            catalog_waveform(PatternName::TimerCycle),
        ),
        resolve_slot(default_profile_model(), Slot::TimerCycle) == Some(
            catalog_waveform(PatternName::TimerCycle),
        ),
        resolve_slot(default_profile_model(), Slot::Led) is None,
        resolve_slot(default_profile_model(), Slot::Sleep) == Some(
            catalog_waveform(PatternName::SleepMode),
        ),
{
}

/// In the profile a configuration defines, a 1h, 2h or 4h timer resolves to
/// its own entry where the configuration has one, else to the timer-cycle
/// entry, else to nothing; every other slot resolves to its own entry or to
/// nothing.
pub proof fn lemma_timer_fallback(spec: ProfileSpec, slot: Slot)
    ensures
        spec@.contains_key(slot) ==> resolve_slot(overlay(spec@), slot) == Some(
            spec@[slot].waveform(),
        ),
        slot.falls_back() && !spec@.contains_key(slot) && spec@.contains_key(Slot::TimerCycle)
            ==> resolve_slot(overlay(spec@), slot) == Some(spec@[Slot::TimerCycle].waveform()),
        slot.falls_back() && !spec@.contains_key(slot) && !spec@.contains_key(Slot::TimerCycle)
            ==> resolve_slot(overlay(spec@), slot) is None,
        !slot.falls_back() ==> resolve_slot(overlay(spec@), slot) == resolve_slot(spec@, slot),
{
}

} // verus!
