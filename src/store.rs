//! The active profile and how a configuration load replaces it.
use vstd::prelude::*;

use crate::action::{ActionModel, Waveform};
use crate::profile::{
    Profile, ProfileSpec, Slot, default_profile_model, default_renesa_profile, overlay,
    resolve_slot,
};

verus! {

/// Why a configuration could not be loaded.
#[derive(Clone, Copy, Debug, PartialEq, Eq, Structural)]
pub enum ProfileLoadError {
    /// The document could not be read.
    Unreadable,
    /// The document is not a valid configuration.
    Malformed,
}

/// What a load attempt brings: the stated slots, or nothing on failure.
pub open spec fn loaded_model(loaded: Result<ProfileSpec, ProfileLoadError>) -> Option<
    Map<Slot, ActionModel>,
> {
    match loaded {
        Ok(spec) => Some(spec@),
        Err(_) => None,
    }
}

/// The active profile after a load attempt: the configuration's profile on
/// success, the current one unchanged on failure.
pub open spec fn load_step(current: Map<Slot, ActionModel>, loaded: Option<Map<Slot, ActionModel>>) -> Map<
    Slot,
    ActionModel,
> {
    match loaded {
        Some(stated) => overlay(stated),
        None => current,
    }
}

/// Holds the one active profile. It is replaced whole, never edited in place.
pub struct ProfileStore {
    active: Profile,
}

impl View for ProfileStore {
    type V = Map<Slot, ActionModel>;

    closed spec fn view(&self) -> Map<Slot, ActionModel> {
        self.active@
    }
}

impl ProfileStore {
    /// A store whose active profile is the built-in one.
    pub fn new() -> (r: ProfileStore)
        ensures
            r@ == default_profile_model(),
    {
        ProfileStore { active: default_renesa_profile() }
    }

    /// A store whose active profile is `profile`.
    pub fn with_profile(profile: Profile) -> (r: ProfileStore)
        ensures
            r@ == profile@,
    {
        ProfileStore { active: profile }
    }

    /// The active profile.
    pub fn active(&self) -> (r: &Profile)
        ensures
            r@ == self@,
    {
        &self.active
    }

    /// Makes `profile` the active profile.
    pub fn replace(&mut self, profile: Profile)
        ensures
            final(self)@ == profile@,
    {
        self.active = profile;
    }

    /// Applies a load attempt: on success the configuration's profile becomes
    /// the active one, built afresh; on failure the active profile stays as
    /// it was and the error is handed back for diagnostics.
    pub fn load(&mut self, loaded: Result<ProfileSpec, ProfileLoadError>) -> (r: Result<
        (),
        ProfileLoadError,
    >)
        ensures
            final(self)@ == load_step(old(self)@, loaded_model(loaded)),
            r is Ok <==> loaded is Ok,
            loaded is Err ==> r == Err::<(), ProfileLoadError>(loaded->Err_0),
    {
        match loaded {
            Ok(spec) => {
                self.active = Profile::from_spec(&spec);
                Ok(())
            },
            Err(e) => Err(e),
        }
    }

    /// The waveform `slot` resolves to in the active profile, if bound.
    pub fn resolve(&self, slot: Slot) -> (r: Option<Waveform<'_>>)
        ensures
            r is Some <==> resolve_slot(self@, slot) is Some,
            r is Some ==> r->Some_0@ == resolve_slot(self@, slot)->Some_0,
    {
        self.active.resolve(slot)
    }
}

/// A failed load after a successful one leaves the successful one's profile
/// in place, whole: every slot resolves as in that profile.
pub proof fn lemma_failed_load_is_durable(
    before: Map<Slot, ActionModel>,
    good: ProfileSpec,
    error: ProfileLoadError,
)
    ensures
        load_step(load_step(before, loaded_model(Ok(good))), loaded_model(Err(error))) == overlay(
            good@,
        ),
        forall|slot: Slot|
            #[trigger] resolve_slot(
                load_step(load_step(before, loaded_model(Ok(good))), loaded_model(Err(error))),
                slot,
            ) == resolve_slot(overlay(good@), slot),
{
}

} // verus!
