//! Mapping processing options: the per-mapping flags and small enums the
//! processors exchange.

use vstd::prelude::*;

verus! {

/// When feedback is sent for a mapping.
#[derive(Clone, Copy, PartialEq, Eq, Debug, Structural)]
pub enum FeedbackSendBehavior {
    Normal,
    SendFeedbackAfterControl,
    PreventEchoFeedback,
}

impl Default for FeedbackSendBehavior {
    fn default() -> (r: Self)
        ensures
            r == FeedbackSendBehavior::Normal,
    {
        Self::Normal
    }
}

/// Per-mapping switches the processors consult.
#[derive(Clone, Copy, PartialEq, Eq, Debug, Structural)]
pub struct ProcessorMappingOptions {
    /// Whether the mapping's target is active. In the main processor this
    /// may be overridden by the target's own always-active result; the
    /// real-time processor always gets the effective result.
    pub target_is_active: bool,
    pub control_is_enabled: bool,
    pub feedback_is_enabled: bool,
    pub feedback_send_behavior: FeedbackSendBehavior,
}

/// Which world an unresolved target belongs to.
#[derive(Clone, Copy, PartialEq, Eq, Debug, Structural)]
pub enum UnresolvedTargetCategory {
    Reaper,
    Virtual,
}

/// Whether a mapping is being switched on or off.
#[derive(Clone, Copy, PartialEq, Eq, Debug, Structural)]
pub enum LifecyclePhase {
    Activation,
    Deactivation,
}

impl From<bool> for LifecyclePhase {
    /// `true` stands for activation.
    fn from(v: bool) -> (r: Self) {
        if v {
            LifecyclePhase::Activation
        } else {
            LifecyclePhase::Deactivation
        }
    }
}

impl vstd::std_specs::convert::FromSpecImpl<bool> for LifecyclePhase {
    open spec fn obeys_from_spec() -> bool {
        true
    }

    open spec fn from_spec(v: bool) -> LifecyclePhase {
        if v {
            LifecyclePhase::Activation
        } else {
            LifecyclePhase::Deactivation
        }
    }
}

} // verus!
