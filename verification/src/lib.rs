//! Decisions of an interactive scraping session: hotkey chords become
//! application events, and a control loop turns those events and the answers
//! of a remote browser session into the next operation to perform.

use vstd::prelude::*;

pub mod app_events;
pub mod gadget_selector;
pub mod listener;

verus! {

/// The text shown to the operator at the start and on request.
pub const HELP_MSG: &'static str =
    "INSTRUCTIONS:\n\
1. Navigate to a web page and initialize the selector gadget by pressing `Alt+S`.\n\
2. Use the selector gadget to set the elements to scrape.\n\
3. Press `Alt+A` to get the selected elements.\n            \nHOTKEYS:\n\
- Alt+S  : Initialize selector gadget.\n\
- Alt+A  : Get selected elements. \n\
- Alt+H  : Show this help message. \n\
- Alt+Esc: quit the program.";

} // verus!
