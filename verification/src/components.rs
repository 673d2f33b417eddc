pub mod profiles;
pub mod status;

use vstd::prelude::*;

use crate::app::App;
use crate::components::profiles::{profile_step, Profile, PROFILE_HELP};
use crate::components::status::{Status, STATUS_HELP};
use crate::event::Key;

verus! {

/// What a view asks the application to do in response to a key press. The
/// application performs the profile I/O and the controller calls; the views
/// only decide.
#[derive(Clone, Copy, Debug, PartialEq, Eq, Structural)]
pub enum UiAction {
    /// Activate the built-in fallback profile (row 0 of the table).
    ActivateFallback,
    /// Activate the stored profile at this registry index.
    ActivateProfile(usize),
    /// Refresh the stored profile at this registry index, then activate it.
    RefreshAndActivate(usize),
}

/// The root of the view dispatcher: which view owns the main band of the
/// frame.
pub struct Root {
    pub main_component: RootMainComponent,
}

/// The closed set of views. Only the status and profile-manager views carry
/// behavior; the remaining three are reachable but inert placeholders.
#[derive(Debug, PartialEq, Eq, Structural)]
pub enum RootMainComponent {
    Status(Status),
    Profiles(Profile),
    Proxies,
    Rules,
    Settings,
}

impl RootMainComponent {
    /// The view's position in the tab bar.
    pub open spec fn index_spec(self) -> int {
        match self {
            RootMainComponent::Status(_) => 0,
            RootMainComponent::Profiles(_) => 1,
            RootMainComponent::Proxies => 2,
            RootMainComponent::Rules => 3,
            RootMainComponent::Settings => 4,
        }
    }

    pub fn as_usize(&self) -> (r: usize)
        ensures
            r as int == self.index_spec(),
    {
        match self {
            RootMainComponent::Status(_) => 0,
            RootMainComponent::Profiles(_) => 1,
            RootMainComponent::Proxies => 2,
            RootMainComponent::Rules => 3,
            RootMainComponent::Settings => 4,
        }
    }
}

/// The view that function key `f` selects, in its freshly constructed state.
pub open spec fn view_for(f: u8) -> RootMainComponent
    recommends
        1 <= f <= 5,
{
    if f == 1 {
        RootMainComponent::Status(Status {  })
    } else if f == 2 {
        RootMainComponent::Profiles(Profile { selected: 0 })
    } else if f == 3 {
        RootMainComponent::Proxies
    } else if f == 4 {
        RootMainComponent::Rules
    } else {
        RootMainComponent::Settings
    }
}

/// The help-bar legend of the view that function key `f` selects.
pub open spec fn legend_for(f: u8) -> Seq<char> {
    if f == 2 {
        PROFILE_HELP@
    } else {
        STATUS_HELP@
    }
}

/// Esc and the interrupt combination stop the dashboard from any view.
pub open spec fn quit_key(key: Key) -> bool {
    key == Key::Esc || key == Key::CtrlC
}

/// Global view switching: a function key switches to its view if and only if
/// that view is not already active; the target is always freshly constructed.
pub open spec fn switch_step(main: RootMainComponent, key: Key) -> Option<RootMainComponent> {
    match key {
        Key::Function(f) => if 1 <= f <= 5 && view_for(f).index_spec() != main.index_spec() {
            Some(view_for(f))
        } else {
            None
        },
        _ => None,
    }
}

/// The help bar changes exactly when a view switch happens, to the new view's
/// legend.
pub open spec fn help_step(main: RootMainComponent, key: Key) -> Option<Seq<char>> {
    match key {
        Key::Function(f) => if switch_step(main, key) is Some {
            Some(legend_for(f))
        } else {
            None
        },
        _ => None,
    }
}

/// One dispatch cycle over the views: global switching first, then the key is
/// handed to the (possibly just entered) active view, which may answer with
/// an action.
pub open spec fn root_step(main: RootMainComponent, key: Key, total: usize) -> (
    RootMainComponent,
    Option<UiAction>,
) {
    let main1 = match switch_step(main, key) {
        Some(m) => m,
        None => main,
    };
    match main1 {
        RootMainComponent::Profiles(p) => {
            let (p2, act) = profile_step(p, total, key);
            (RootMainComponent::Profiles(p2), act)
        },
        _ => (main1, None),
    }
}

/// Pressing function key 2 on the status view switches to the profile
/// manager, with a fresh cursor and the profile legend in the help bar;
/// pressing function key 1 there again is a no-op: same view, no action, no
/// help change.
pub proof fn lemma_view_switching(total: usize)
    ensures
        root_step(RootMainComponent::Status(Status {  }), Key::Function(2), total) == (
            RootMainComponent::Profiles(Profile { selected: 0 }),
            None::<UiAction>,
        ),
        help_step(RootMainComponent::Status(Status {  }), Key::Function(2)) == Some(PROFILE_HELP@),
        root_step(RootMainComponent::Status(Status {  }), Key::Function(1), total) == (
            RootMainComponent::Status(Status {  }),
            None::<UiAction>,
        ),
        help_step(RootMainComponent::Status(Status {  }), Key::Function(1)) is None,
{
}

impl Root {
    /// A fresh dispatcher starts on the status view.
    pub fn new(app: &mut App) -> (r: Root)
        ensures
            r.main_component == RootMainComponent::Status(Status {  }),
            final(app).help_text@ == STATUS_HELP@,
            final(app).running == old(app).running,
    {
        Root { main_component: RootMainComponent::Status(Status::new(app)) }
    }

    /// Forward the timer tick to the active view. No view reacts to it yet,
    /// so the dispatcher is unchanged.
    pub fn tick(&mut self)
        ensures
            final(self).main_component == old(self).main_component,
    {
        match &mut self.main_component {
            RootMainComponent::Profiles(p) => p.tick(),
            _ => {},
        }
    }

    /// One key press: quit keys clear the running flag; function keys switch
    /// views; the active view then handles the key and may answer with an
    /// action for the application to perform.
    pub fn handle_key(&mut self, app: &mut App, total: usize, key: Key) -> (act: Option<UiAction>)
        ensures
            final(app).running == (old(app).running && !quit_key(key)),
            (final(self).main_component, act) == root_step(old(self).main_component, key, total),
            match help_step(old(self).main_component, key) {
                Some(l) => final(app).help_text@ == l,
                None => final(app).help_text == old(app).help_text,
            },
    {
        match key {
            Key::Esc | Key::CtrlC => {
                app.running = false;
            },
            Key::Function(f) => {
                if f == 1 {
                    if self.main_component.as_usize() != 0 {
                        self.main_component = RootMainComponent::Status(Status::new(app));
                    }
                } else if f == 2 {
                    if self.main_component.as_usize() != 1 {
                        self.main_component = RootMainComponent::Profiles(Profile::new(app));
                    }
                } else if f == 3 {
                    if self.main_component.as_usize() != 2 {
                        self.main_component = RootMainComponent::Proxies;
                        app.help_text = String::from_str(STATUS_HELP);
                    }
                } else if f == 4 {
                    if self.main_component.as_usize() != 3 {
                        self.main_component = RootMainComponent::Rules;
                        app.help_text = String::from_str(STATUS_HELP);
                    }
                } else if f == 5 {
                    if self.main_component.as_usize() != 4 {
                        self.main_component = RootMainComponent::Settings;
                        app.help_text = String::from_str(STATUS_HELP);
                    }
                }
            },
            _ => {},
        }
        match &mut self.main_component {
            RootMainComponent::Profiles(p) => p.handle_key(total, key),
            _ => None,
        }
    }
}

} // verus!
