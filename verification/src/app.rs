use vstd::prelude::*;

verus! {

/// Dashboard-wide state: whether the main loop keeps running, and the
/// help-bar text of the active view. Constructed once at startup and passed
/// by reference to every component that needs it.
pub struct App {
    pub running: bool,
    pub help_text: String,
}

impl Default for App {
    /// A freshly started dashboard: running, showing the status view's help
    /// line.
    fn default() -> (r: Self)
        ensures
            r.running,
            r.help_text@ == "[ESC]Quit"@,
    {
        App { running: true, help_text: String::from_str("[ESC]Quit") }
    }
}

} // verus!
