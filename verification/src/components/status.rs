use vstd::prelude::*;

use crate::app::App;

verus! {

/// The (for now content-free) status view. Entering it resets the help bar
/// to the global key legend.
#[derive(Debug, PartialEq, Eq, Structural)]
pub struct Status {}

pub const STATUS_HELP: &'static str = "[ESC]Quit";

impl Status {
    pub fn new(app: &mut App) -> (r: Status)
        ensures
            final(app).help_text@ == STATUS_HELP@,
            final(app).running == old(app).running,
            r == (Status {  }),
    {
        app.help_text = String::from_str(STATUS_HELP);
        Status {  }
    }

    /// The status view reacts to no timer tick yet.
    pub fn tick(&mut self)
        ensures
            *final(self) == *old(self),
    {
    }
}

} // verus!
