//! Actions: the three ways a command can produce a waveform.
use vstd::prelude::*;

use crate::nec::{nec_encode_extended, nec_waveform};

verus! {

/// What an action is, as a mathematical value.
pub ghost enum ActionModel {
    /// A waveform of the built-in catalog.
    Captured(Seq<i32>),
    /// A waveform supplied by configuration.
    Owned(Seq<i32>),
    /// An NEC address and command, encoded when resolved.
    Nec(u16, u8),
}

impl ActionModel {
    /// The waveform the action produces.
    pub open spec fn waveform(self) -> Seq<i32> {
        match self {
            ActionModel::Captured(w) => w,
            ActionModel::Owned(w) => w,
            ActionModel::Nec(address, command) => nec_waveform(address, command),
        }
    }
}

/// A waveform handed out by an action: borrowed where the action holds it,
/// owned where it was encoded on demand.
pub enum Waveform<'a> {
    Borrowed(&'a [i32]),
    Owned(Vec<i32>),
}

impl<'a> View for Waveform<'a> {
    type V = Seq<i32>;

    open spec fn view(&self) -> Seq<i32> {
        match self {
            Waveform::Borrowed(s) => s@,
            Waveform::Owned(v) => v@,
        }
    }
}

impl<'a> Waveform<'a> {
    /// The durations, in microseconds.
    pub fn as_slice(&self) -> (r: &[i32])
        ensures
            r@ == self@,
    {
        match self {
            Waveform::Borrowed(s) => s,
            Waveform::Owned(v) => v.as_slice(),
        }
    }

    /// The number of durations.
    pub fn len(&self) -> (r: usize)
        ensures
            r == self@.len(),
    {
        self.as_slice().len()
    }
}

/// A command's waveform source.
pub enum IrAction {
    /// A waveform of the built-in catalog, used in place.
    RawStatic(&'static [i32]),
    /// A waveform supplied by configuration.
    Raw(Vec<i32>),
    /// An NEC frame, encoded each time it is resolved.
    Nec { addr: u16, cmd: u8 },
}

impl View for IrAction {
    type V = ActionModel;

    open spec fn view(&self) -> ActionModel {
        match self {
            IrAction::RawStatic(s) => ActionModel::Captured(s@),
            IrAction::Raw(v) => ActionModel::Owned(v@),
            IrAction::Nec { addr, cmd } => ActionModel::Nec(*addr, *cmd),
        }
    }
}

impl IrAction {
    /// The waveform this action stands for: the catalog's or the stored one
    /// as it is, or the NEC frame of the stored address and command.
    pub fn resolve(&self) -> (r: Waveform<'_>)
        ensures
            r@ == self@.waveform(),
    {
        match self {
            IrAction::RawStatic(s) => Waveform::Borrowed(s),
            IrAction::Raw(v) => Waveform::Borrowed(v.as_slice()),
            IrAction::Nec { addr, cmd } => Waveform::Owned(nec_encode_extended(*addr, *cmd)),
        }
    }
}

} // verus!
