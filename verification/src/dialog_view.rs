//! What the package dialogs show: which screen, which buttons, and the line
//! under the progress bar, decided from their state.
use vstd::prelude::*;
use crate::text::{cat3, decimal, str_owned, usize_text};

verus! {

/// The screens of a dialog that first reads what it is about.
#[derive(Clone, Copy, Debug, PartialEq, Eq, Structural)]
pub enum DetailsScreen {
    /// The dialog is closed.
    Hidden,
    /// The information is still being read.
    Loading,
    /// Nothing could be read.
    LoadFailed,
    /// The details, the progress and the buttons.
    Details,
}

pub open spec fn details_screen(shown: bool, loading: bool, has_details: bool) -> DetailsScreen {
    if !shown {
        DetailsScreen::Hidden
    } else if loading {
        DetailsScreen::Loading
    } else if has_details {
        DetailsScreen::Details
    } else {
        DetailsScreen::LoadFailed
    }
}

pub fn details_screen_of(shown: bool, loading: bool, has_details: bool) -> (r: DetailsScreen)
    ensures
        r == details_screen(shown, loading, has_details),
{
    if !shown {
        DetailsScreen::Hidden
    } else if loading {
        DetailsScreen::Loading
    } else if has_details {
        DetailsScreen::Details
    } else {
        DetailsScreen::LoadFailed
    }
}

/// The buttons under a dialog's details.
#[derive(Clone, Copy, Debug, PartialEq, Eq, Structural)]
pub enum ActionButtons {
    /// Only a button that closes the dialog.
    Close,
    /// "Cancel", beside the action's button shown as busy, which does nothing.
    CancelWhileBusy,
    /// "Cancel", and the button that starts the action.
    CancelOrStart,
}

pub open spec fn action_buttons(finished: bool, busy: bool) -> ActionButtons {
    if finished {
        ActionButtons::Close
    } else if busy {
        ActionButtons::CancelWhileBusy
    } else {
        ActionButtons::CancelOrStart
    }
}

pub fn action_buttons_of(finished: bool, busy: bool) -> (r: ActionButtons)
    ensures
        r == action_buttons(finished, busy),
{
    if finished {
        ActionButtons::Close
    } else if busy {
        ActionButtons::CancelWhileBusy
    } else {
        ActionButtons::CancelOrStart
    }
}

pub open spec fn text_opt(o: Option<String>) -> Option<Seq<char>> {
    match o {
        Some(s) => Some(s@),
        None => None,
    }
}

/// The line under the progress bar: the closing text once done, the last
/// progress while busy, nothing before the action starts.
pub open spec fn progress_line(done: bool, busy: bool, done_text: Seq<char>, progress: Seq<char>) -> Option<Seq<char>> {
    if done {
        Some(done_text)
    } else if busy {
        Some(progress)
    } else {
        None
    }
}

pub fn progress_line_of(done: bool, busy: bool, done_text: &str, progress: &str) -> (r: Option<String>)
    ensures
        text_opt(r) == progress_line(done, busy, done_text@, progress@),
{
    if done {
        Some(str_owned(done_text))
    } else if busy {
        Some(str_owned(progress))
    } else {
        None
    }
}

/// The heading of a list of dependencies.
pub open spec fn dependencies_label(n: nat) -> Seq<char> {
    "Dependencies ("@ + decimal(n) + ")"@
}

pub fn dependencies_label_of(n: usize) -> (r: String)
    ensures
        r@ == dependencies_label(n as nat),
{
    let d = usize_text(n);
    cat3("Dependencies (", d.as_str(), ")")
}

} // verus!
