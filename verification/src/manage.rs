//! The manage tab. It has no behaviour yet: every event passes through to
//! the host's global bindings.

use vstd::prelude::*;

use crate::app::App;
use crate::events::InputEvent;

verus! {

pub struct ManagePage {
    pub expanded_help_message: bool,
}

impl Default for ManagePage {
    fn default() -> (r: Self)
        ensures
            !r.expanded_help_message,
    {
        ManagePage { expanded_help_message: false }
    }
}

/// Dispatches one input event to the manage page. The page handles nothing:
/// the event is always reported unused and the application is untouched.
pub fn event(app: &mut App, e: InputEvent) -> (r: bool)
    ensures
        r,
        *final(app) == *old(app),
{
    let _ = e;
    true
}

} // verus!
