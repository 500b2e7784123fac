//! Capability detection: whether deadline scheduling is usable on this host.
//! The probe itself runs in an isolated execution unit outside this crate;
//! this module decides what its outcomes mean.

use vstd::prelude::*;

verus! {

/// What one isolated scheduling probe established.
#[derive(Clone, Copy, Debug, Eq, PartialEq, Structural)]
pub enum ProbeVerdict {
    /// Deadline attributes were applied and the policy was reset back to
    /// normal: the real-time path is usable.
    Usable,
    /// The host rejected the deadline attributes (permission denied, feature
    /// absent): the expected negative outcome, not an error.
    Unsupported,
    /// The attributes were applied but the reset back to the normal policy
    /// did not succeed. This leaves a ghost real-time reservation able to
    /// starve the host; the process must terminate immediately.
    ResetFailed,
}

/// The verdict of one probe. `apply_accepted` is whether the deadline
/// attributes could be applied to the probe's execution unit;
/// `reset_accepted` is the outcome of the subsequent reset to the normal
/// policy, `None` when no reset was attempted because the apply was rejected.
pub fn probe_verdict(apply_accepted: bool, reset_accepted: Option<bool>) -> (v: ProbeVerdict)
    ensures
        v is Unsupported <==> !apply_accepted,
        v is Usable <==> (apply_accepted && reset_accepted == Some(true)),
        v is ResetFailed <==> (apply_accepted && reset_accepted != Some(true)),
{
    if !apply_accepted {
        ProbeVerdict::Unsupported
    } else {
        match reset_accepted {
            Some(true) => ProbeVerdict::Usable,
            _ => ProbeVerdict::ResetFailed,
        }
    }
}

/// The capability signal the strategy selector consumes: the real-time launch
/// is attempted only when the target has a native monitor at all and the
/// probe, when one ran, found deadline scheduling usable.
pub fn capability_usable(platform_supported: bool, verdict: Option<ProbeVerdict>) -> (b: bool)
    ensures
        b <==> (platform_supported && verdict == Some(ProbeVerdict::Usable)),
{
    match verdict {
        Some(ProbeVerdict::Usable) => platform_supported,
        _ => false,
    }
}

} // verus!
