use vstd::prelude::*;

use crate::app::App;
use crate::components::UiAction;
use crate::event::Key;

verus! {

/// The profile-manager view: a cursor over the profile table. Row 0 is the
/// built-in fallback entry; row `i + 1` is the stored profile at index `i`.
#[derive(Debug, PartialEq, Eq, Structural)]
pub struct Profile {
    pub selected: usize,
}

pub const PROFILE_HELP: &'static str =
    "[ESC]Quit  [UP/DOWN]Move cursor  [ENTER]Activate  [A]Add  [D]Delete  [E]Edit  [U]Update";

/// What one key press does to the profile view when `total` profiles are
/// stored: the next cursor position and the action the view asks the
/// application to perform.
pub open spec fn profile_step(pre: Profile, total: usize, key: Key) -> (Profile, Option<UiAction>) {
    match key {
        Key::Up => (
            Profile { selected: if pre.selected > 0 { (pre.selected - 1) as usize } else { 0 } },
            None,
        ),
        Key::Down => (
            Profile {
                selected: if pre.selected < total {
                    (pre.selected + 1) as usize
                } else {
                    pre.selected
                },
            },
            None,
        ),
        Key::Enter => (
            pre,
            if pre.selected == 0 {
                Some(UiAction::ActivateFallback)
            } else {
                Some(UiAction::ActivateProfile((pre.selected - 1) as usize))
            },
        ),
        Key::Char(c) => (
            pre,
            if (c == 'u' || c == 'U') && pre.selected != 0 {
                Some(UiAction::RefreshAndActivate((pre.selected - 1) as usize))
            } else {
                None
            },
        ),
        _ => (pre, None),
    }
}

impl Profile {
    /// Entering the view puts the cursor on the fallback row and shows the
    /// view's key legend.
    pub fn new(app: &mut App) -> (r: Profile)
        ensures
            final(app).help_text@ == PROFILE_HELP@,
            final(app).running == old(app).running,
            r == (Profile { selected: 0 }),
    {
        app.help_text = String::from_str(PROFILE_HELP);
        Profile { selected: 0 }
    }

    /// The profile view reacts to no timer tick.
    pub fn tick(&mut self)
        ensures
            *final(self) == *old(self),
    {
    }

    /// Move the cursor or pick an action for the selected row, as
    /// `profile_step` says.
    pub fn handle_key(&mut self, total: usize, key: Key) -> (act: Option<UiAction>)
        ensures
            (*final(self), act) == profile_step(*old(self), total, key),
    {
        match key {
            Key::Up => {
                if self.selected > 0 {
                    self.selected = self.selected - 1;
                }
                None
            },
            Key::Down => {
                if self.selected < total {
                    self.selected = self.selected + 1;
                }
                None
            },
            Key::Enter => {
                if self.selected == 0 {
                    Some(UiAction::ActivateFallback)
                } else {
                    Some(UiAction::ActivateProfile(self.selected - 1))
                }
            },
            Key::Char(c) => {
                if (c == 'u' || c == 'U') && self.selected != 0 {
                    Some(UiAction::RefreshAndActivate(self.selected - 1))
                } else {
                    None
                }
            },
            _ => None,
        }
    }
}

} // verus!
