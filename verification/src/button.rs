//! The decision half of button polling.
//!
//! A collaborator polls the two physical buttons each period and
//! debounces them; what gesture a poll amounts to is decided here. The
//! select button moves the carousel — a click forward, a double click
//! back — and the confirm button confirms with a click and exits with
//! a double click. At most one gesture is produced per poll, in that
//! priority order.

use vstd::prelude::*;

use crate::state::Btn;

verus! {

/// The gesture one poll of the two buttons produces.
pub open spec fn spec_button_event(
    select_clicked: bool,
    select_double_clicked: bool,
    confirm_clicked: bool,
    confirm_double_clicked: bool,
) -> Option<Btn> {
    if select_clicked {
        Some(Btn::Right)
    } else if select_double_clicked {
        Some(Btn::Left)
    } else if confirm_clicked {
        Some(Btn::Confirm)
    } else if confirm_double_clicked {
        Some(Btn::Exit)
    } else {
        None
    }
}

/// Decide the gesture for one debounced poll of the two buttons.
pub fn button_event(
    select_clicked: bool,
    select_double_clicked: bool,
    confirm_clicked: bool,
    confirm_double_clicked: bool,
) -> (r: Option<Btn>)
    ensures
        r == spec_button_event(
            select_clicked,
            select_double_clicked,
            confirm_clicked,
            confirm_double_clicked,
        ),
{
    if select_clicked {
        Some(Btn::Right)
    } else if select_double_clicked {
        Some(Btn::Left)
    } else if confirm_clicked {
        Some(Btn::Confirm)
    } else if confirm_double_clicked {
        Some(Btn::Exit)
    } else {
        None
    }
}

} // verus!
