//! Cyclic field selection for the interactive control surface.
//!
//! The vertical cursor walks a fixed 7-valued enumeration of channel
//! fields; `next` and `prev` are total, mutually inverse, and cycle with
//! period exactly 7.

use vstd::prelude::*;

verus! {

/// Vertical selection: which field of the current channel the cursor is on.
#[derive(Clone, Copy, Debug, PartialEq, Eq, Structural)]
pub enum Vsel {
    /// The measurement panel; confirming toggles the channel output.
    Measure,
    /// Voltage setpoint (editable).
    SetVolt,
    /// Current setpoint (editable).
    SetAmp,
    /// Over-voltage protection limit (editable).
    Ovp,
    /// Over-current protection limit (editable).
    Ocp,
    /// Over-voltage protection enabled flag (toggled).
    OvpOn,
    /// Over-current protection enabled flag (toggled).
    OcpOn,
}

/// Successor in the fixed cyclic order of the 7 fields.
pub open spec fn spec_next(v: Vsel) -> Vsel {
    match v {
        Vsel::Measure => Vsel::SetVolt,
        Vsel::SetVolt => Vsel::SetAmp,
        Vsel::SetAmp => Vsel::Ovp,
        Vsel::Ovp => Vsel::Ocp,
        Vsel::Ocp => Vsel::OvpOn,
        Vsel::OvpOn => Vsel::OcpOn,
        Vsel::OcpOn => Vsel::Measure,
    }
}

/// Predecessor in the fixed cyclic order of the 7 fields.
pub open spec fn spec_prev(v: Vsel) -> Vsel {
    match v {
        Vsel::Measure => Vsel::OcpOn,
        Vsel::SetVolt => Vsel::Measure,
        Vsel::SetAmp => Vsel::SetVolt,
        Vsel::Ovp => Vsel::SetAmp,
        Vsel::Ocp => Vsel::Ovp,
        Vsel::OvpOn => Vsel::Ocp,
        Vsel::OcpOn => Vsel::OvpOn,
    }
}

/// Position of the field inside the list widget it is rendered in, if any:
/// the setpoint list holds {SetVolt, SetAmp}, the limits list holds
/// {Ovp, Ocp, OvpOn, OcpOn}; the measurement panel is not a list.
pub open spec fn spec_list_idx(v: Vsel) -> Option<usize> {
    match v {
        Vsel::Measure => None,
        Vsel::SetVolt => Some(0usize),
        Vsel::SetAmp => Some(1usize),
        Vsel::Ovp => Some(0usize),
        Vsel::Ocp => Some(1usize),
        Vsel::OvpOn => Some(2usize),
        Vsel::OcpOn => Some(3usize),
    }
}

impl Vsel {
    /// Advance the cursor one field, wrapping from the last back to the first.
    pub fn next(&self) -> (r: Self)
        ensures
            r == spec_next(*self),
    {
        match self {
            Vsel::Measure => Vsel::SetVolt,
            Vsel::SetVolt => Vsel::SetAmp,
            Vsel::SetAmp => Vsel::Ovp,
            Vsel::Ovp => Vsel::Ocp,
            Vsel::Ocp => Vsel::OvpOn,
            Vsel::OvpOn => Vsel::OcpOn,
            Vsel::OcpOn => Vsel::Measure,
        }
    }

    /// Retreat the cursor one field, wrapping from the first back to the last.
    pub fn prev(&self) -> (r: Self)
        ensures
            r == spec_prev(*self),
    {
        match self {
            Vsel::Measure => Vsel::OcpOn,
            Vsel::SetVolt => Vsel::Measure,
            Vsel::SetAmp => Vsel::SetVolt,
            Vsel::Ovp => Vsel::SetAmp,
            Vsel::Ocp => Vsel::Ovp,
            Vsel::OvpOn => Vsel::Ocp,
            Vsel::OcpOn => Vsel::OvpOn,
        }
    }

    /// Index of the field inside the list widget it belongs to, if any.
    pub fn list_idx(&self) -> (r: Option<usize>)
        ensures
            r == spec_list_idx(*self),
    {
        match self {
            Vsel::Measure => None,
            Vsel::SetVolt => Some(0),
            Vsel::SetAmp => Some(1),
            Vsel::Ovp => Some(0),
            Vsel::Ocp => Some(1),
            Vsel::OvpOn => Some(2),
            Vsel::OcpOn => Some(3),
        }
    }
}

/// Law: the cursor order is cyclic with period exactly 7 — applying `next`
/// seven times returns every field to itself.
pub proof fn lemma_vsel_next_period_seven(v: Vsel)
    ensures
        spec_next(spec_next(spec_next(spec_next(spec_next(spec_next(spec_next(v))))))) == v,
{
}

/// Law: `prev` is the exact inverse of `next` on every field, in both
/// directions.
pub proof fn lemma_vsel_prev_inverts_next(v: Vsel)
    ensures
        spec_prev(spec_next(v)) == v,
        spec_next(spec_prev(v)) == v,
{
}

} // verus!
