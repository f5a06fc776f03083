//! The toggle policy: which way the tunnel goes for a given active network.

use crate::model::option_view;
use crate::text::same_text;
use vstd::prelude::*;

verus! {

/// What is to happen to the tunnel.
#[derive(Clone, Copy, Debug, PartialEq, Eq, Structural)]
pub enum ToggleDecision {
    /// Bring the tunnel up.
    StartVpn,
    /// Bring the tunnel down.
    StopVpn,
}

/// The policy as a function: the tunnel is stopped exactly when the active
/// identity is the home identity, and started on every other input,
/// including the absence of an active network.
pub open spec fn decision_for(active: Option<Seq<char>>, home: Seq<char>) -> ToggleDecision {
    if active == Some(home) {
        ToggleDecision::StopVpn
    } else {
        ToggleDecision::StartVpn
    }
}

/// Decides the tunnel's direction from the active network identity and the
/// home identity.
pub fn decide(active: Option<&str>, home: &str) -> (decision: ToggleDecision)
    ensures
        decision == decision_for(option_view(active), home@),
        decision == ToggleDecision::StopVpn <==> (active matches Some(id) && id@ == home@),
{
    match active {
        Some(id) => {
            if same_text(id, home) {
                ToggleDecision::StopVpn
            } else {
                ToggleDecision::StartVpn
            }
        },
        None => ToggleDecision::StartVpn,
    }
}

} // verus!
