//! The notification taxonomy of the log-only protocol revision: the whole
//! message body is a single event-name token and carries no arguments.

use vstd::prelude::*;

verus! {

use vstd::string::StringSliceAdditionalSpecFns;
use crate::text::bytes_eq;

#[derive(Debug, Clone, Copy, PartialEq, Eq, Structural)]
pub enum MissionControlEvent {
    /// Mission control activated.
    Enter,
    /// Mission control deactivated.
    Exit,
}

impl MissionControlEvent {
    /// Returns `true` if the mission control event is `Enter`.
    pub fn is_enter_event(&self) -> (r: bool)
        ensures
            r == (self is Enter),
    {
        matches!(self, Self::Enter)
    }

    /// Returns `true` if the mission control event is `Exit`.
    pub fn is_exit_event(&self) -> (r: bool)
        ensures
            r == (self is Exit),
    {
        matches!(self, Self::Exit)
    }
}

#[derive(Debug, Clone, Copy, PartialEq, Eq, Structural)]
pub enum SpaceEvent {
    /// The active space changed.
    Changed,
}

impl SpaceEvent {
    /// Returns `true` if the space event is `Changed`.
    pub fn is_change_event(&self) -> (r: bool)
        ensures
            r == (self is Changed),
    {
        matches!(self, Self::Changed)
    }
}

#[derive(Debug, Clone, Copy, PartialEq, Eq, Structural)]
pub enum DisplayEvent {
    /// A display was attached.
    Added,
    /// A display was removed.
    Removed,
    /// The display arrangement changed.
    Moved,
    /// A display changed resolution.
    Resized,
    /// The active display changed.
    Changed,
}

impl DisplayEvent {
    /// Returns `true` if the display event is `Added`.
    pub fn is_add_event(&self) -> (r: bool)
        ensures
            r == (self is Added),
    {
        matches!(self, Self::Added)
    }

    /// Returns `true` if the display event is `Removed`.
    pub fn is_remove_event(&self) -> (r: bool)
        ensures
            r == (self is Removed),
    {
        matches!(self, Self::Removed)
    }

    /// Returns `true` if the display event is `Moved`.
    pub fn is_move_event(&self) -> (r: bool)
        ensures
            r == (self is Moved),
    {
        matches!(self, Self::Moved)
    }

    /// Returns `true` if the display event is `Resized`.
    pub fn is_resize_event(&self) -> (r: bool)
        ensures
            r == (self is Resized),
    {
        matches!(self, Self::Resized)
    }

    /// Returns `true` if the display event is `Changed`.
    pub fn is_change_event(&self) -> (r: bool)
        ensures
            r == (self is Changed),
    {
        matches!(self, Self::Changed)
    }
}

#[derive(Debug, Clone, Copy, PartialEq, Eq, Structural)]
pub enum WindowEvent {
    /// A window was created.
    Created,
    /// A window was destroyed.
    Destroyed,
    /// A window became the key window.
    Focused,
    /// A window changed position.
    Moved,
    /// A window changed dimensions.
    Resized,
    /// A window was minimized.
    Minimized,
    /// A window was deminimized.
    Deminimized,
    /// A window changed its title.
    TitleChanged,
}

impl WindowEvent {
    /// Returns `true` if the window event is `Created`.
    pub fn is_create_event(&self) -> (r: bool)
        ensures
            r == (self is Created),
    {
        matches!(self, Self::Created)
    }

    /// Returns `true` if the window event is `Destroyed`.
    pub fn is_destory_event(&self) -> (r: bool)
        ensures
            r == (self is Destroyed),
    {
        matches!(self, Self::Destroyed)
    }

    /// Returns `true` if the window event is `Focused`.
    pub fn is_focus_event(&self) -> (r: bool)
        ensures
            r == (self is Focused),
    {
        matches!(self, Self::Focused)
    }

    /// Returns `true` if the window event is `Moved`.
    pub fn is_move_event(&self) -> (r: bool)
        ensures
            r == (self is Moved),
    {
        matches!(self, Self::Moved)
    }

    /// Returns `true` if the window event is `Resized`.
    pub fn is_resize_event(&self) -> (r: bool)
        ensures
            r == (self is Resized),
    {
        matches!(self, Self::Resized)
    }

    /// Returns `true` if the window event is `Minimized`.
    pub fn is_minimize_event(&self) -> (r: bool)
        ensures
            r == (self is Minimized),
    {
        matches!(self, Self::Minimized)
    }

    /// Returns `true` if the window event is `Deminimized`.
    pub fn is_deminimize_event(&self) -> (r: bool)
        ensures
            r == (self is Deminimized),
    {
        matches!(self, Self::Deminimized)
    }

    /// Returns `true` if the window event is `TitleChanged`.
    pub fn is_title_change_event(&self) -> (r: bool)
        ensures
            r == (self is TitleChanged),
    {
        matches!(self, Self::TitleChanged)
    }
}

#[derive(Debug, Clone, Copy, PartialEq, Eq, Structural)]
pub enum ApplicationEvent {
    /// A new application launched.
    Launched,
    /// An application terminated.
    Terminated,
    /// The front-most application changed.
    FrontSwitched,
    /// An application was activated.
    Activated,
    /// An application was deactivated.
    Deactivated,
    /// An application became visible.
    Visible,
    /// An application was hidden.
    Hidden,
}

impl ApplicationEvent {
    /// Returns `true` if the application event is `Launched`.
    pub fn is_launch_event(&self) -> (r: bool)
        ensures
            r == (self is Launched),
    {
        matches!(self, Self::Launched)
    }

    /// Returns `true` if the application event is `Terminated`.
    pub fn is_terminate_event(&self) -> (r: bool)
        ensures
            r == (self is Terminated),
    {
        matches!(self, Self::Terminated)
    }

    /// Returns `true` if the application event is `FrontSwitched`.
    pub fn is_front_switch_event(&self) -> (r: bool)
        ensures
            r == (self is FrontSwitched),
    {
        matches!(self, Self::FrontSwitched)
    }

    /// Returns `true` if the application event is `Activated`.
    pub fn is_activate_event(&self) -> (r: bool)
        ensures
            r == (self is Activated),
    {
        matches!(self, Self::Activated)
    }

    /// Returns `true` if the application event is `Deactivated`.
    pub fn is_deactivate_event(&self) -> (r: bool)
        ensures
            r == (self is Deactivated),
    {
        matches!(self, Self::Deactivated)
    }

    /// Returns `true` if the application event is `Visible`.
    pub fn is_visible_event(&self) -> (r: bool)
        ensures
            r == (self is Visible),
    {
        matches!(self, Self::Visible)
    }

    /// Returns `true` if the application event is `Hidden`.
    pub fn is_hidden_event(&self) -> (r: bool)
        ensures
            r == (self is Hidden),
    {
        matches!(self, Self::Hidden)
    }
}

#[derive(Debug, Clone, Copy, PartialEq, Eq, Structural)]
pub enum Event {
    /// Mission control events.
    MissionControl(MissionControlEvent),
    /// Window events.
    Window(WindowEvent),
    /// Display events.
    Display(DisplayEvent),
    /// Space events.
    Space(SpaceEvent),
    /// Application events.
    Application(ApplicationEvent),
}

/// A message whose text is not in the event vocabulary; it carries the raw
/// offending bytes.
#[derive(Debug, PartialEq, Eq)]
pub enum EventError {
    Unsupported(Vec<u8>),
}

/// The fixed vocabulary of this protocol revision: each spelling maps to
/// exactly one event, everything else is unsupported.
pub open spec fn spec_event(s: Seq<u8>) -> Option<Event> {
    if s == "window_focused".spec_bytes() {
        Some(Event::Window(WindowEvent::Focused))
    } else if s == "window_created".spec_bytes() {
        Some(Event::Window(WindowEvent::Created))
    } else if s == "window_moved".spec_bytes() {
        Some(Event::Window(WindowEvent::Moved))
    } else if s == "window_resized".spec_bytes() {
        Some(Event::Window(WindowEvent::Resized))
    } else if s == "window_destroyed".spec_bytes() {
        Some(Event::Window(WindowEvent::Destroyed))
    } else if s == "window_minimized".spec_bytes() {
        Some(Event::Window(WindowEvent::Minimized))
    } else if s == "window_deminimized".spec_bytes() {
        Some(Event::Window(WindowEvent::Deminimized))
    } else if s == "window_title_changed".spec_bytes() {
        Some(Event::Window(WindowEvent::TitleChanged))
    } else if s == "space_changed".spec_bytes() {
        Some(Event::Space(SpaceEvent::Changed))
    } else if s == "application_visible".spec_bytes() {
        Some(Event::Application(ApplicationEvent::Visible))
    } else if s == "application_hidden".spec_bytes() {
        Some(Event::Application(ApplicationEvent::Hidden))
    } else if s == "application_activated".spec_bytes() {
        Some(Event::Application(ApplicationEvent::Activated))
    } else if s == "application_deactivated".spec_bytes() {
        Some(Event::Application(ApplicationEvent::Deactivated))
    } else if s == "application_launched".spec_bytes() {
        Some(Event::Application(ApplicationEvent::Launched))
    } else if s == "application_terminated".spec_bytes() {
        Some(Event::Application(ApplicationEvent::Terminated))
    } else if s == "application_front_switched".spec_bytes() {
        Some(Event::Application(ApplicationEvent::FrontSwitched))
    } else if s == "mission_control_enter".spec_bytes() {
        Some(Event::MissionControl(MissionControlEvent::Enter))
    } else if s == "mission_control_exit".spec_bytes() {
        Some(Event::MissionControl(MissionControlEvent::Exit))
    } else if s == "display_added".spec_bytes() {
        Some(Event::Display(DisplayEvent::Added))
    } else if s == "display_removed".spec_bytes() {
        Some(Event::Display(DisplayEvent::Removed))
    } else if s == "display_moved".spec_bytes() {
        Some(Event::Display(DisplayEvent::Moved))
    } else if s == "display_resized".spec_bytes() {
        Some(Event::Display(DisplayEvent::Resized))
    } else if s == "display_changed".spec_bytes() {
        Some(Event::Display(DisplayEvent::Changed))
    } else {
        None
    }
}

impl Event {
    /// Decode a whole message body against the fixed vocabulary; anything
    /// outside it fails, carrying the offending bytes.
    pub fn from_bytes(bytes: &[u8]) -> (r: Result<Event, EventError>)
        ensures
            r is Ok <==> spec_event(bytes@) is Some,
            r matches Ok(e) ==> spec_event(bytes@) == Some(e),
            r matches Err(EventError::Unsupported(t)) ==> t@ == bytes@,
    {
        let e = if bytes_eq(bytes, "window_focused".as_bytes()) {
            Event::Window(WindowEvent::Focused)
        } else if bytes_eq(bytes, "window_created".as_bytes()) {
            Event::Window(WindowEvent::Created)
        } else if bytes_eq(bytes, "window_moved".as_bytes()) {
            Event::Window(WindowEvent::Moved)
        } else if bytes_eq(bytes, "window_resized".as_bytes()) {
            Event::Window(WindowEvent::Resized)
        } else if bytes_eq(bytes, "window_destroyed".as_bytes()) {
            Event::Window(WindowEvent::Destroyed)
        } else if bytes_eq(bytes, "window_minimized".as_bytes()) {
            Event::Window(WindowEvent::Minimized)
        } else if bytes_eq(bytes, "window_deminimized".as_bytes()) {
            Event::Window(WindowEvent::Deminimized)
        } else if bytes_eq(bytes, "window_title_changed".as_bytes()) {
            Event::Window(WindowEvent::TitleChanged)
        } else if bytes_eq(bytes, "space_changed".as_bytes()) {
            Event::Space(SpaceEvent::Changed)
        } else if bytes_eq(bytes, "application_visible".as_bytes()) {
            Event::Application(ApplicationEvent::Visible)
        } else if bytes_eq(bytes, "application_hidden".as_bytes()) {
            Event::Application(ApplicationEvent::Hidden)
        } else if bytes_eq(bytes, "application_activated".as_bytes()) {
            Event::Application(ApplicationEvent::Activated)
        } else if bytes_eq(bytes, "application_deactivated".as_bytes()) {
            Event::Application(ApplicationEvent::Deactivated)
        } else if bytes_eq(bytes, "application_launched".as_bytes()) {
            Event::Application(ApplicationEvent::Launched)
        } else if bytes_eq(bytes, "application_terminated".as_bytes()) {
            Event::Application(ApplicationEvent::Terminated)
        } else if bytes_eq(bytes, "application_front_switched".as_bytes()) {
            Event::Application(ApplicationEvent::FrontSwitched)
        } else if bytes_eq(bytes, "mission_control_enter".as_bytes()) {
            Event::MissionControl(MissionControlEvent::Enter)
        } else if bytes_eq(bytes, "mission_control_exit".as_bytes()) {
            Event::MissionControl(MissionControlEvent::Exit)
        } else if bytes_eq(bytes, "display_added".as_bytes()) {
            Event::Display(DisplayEvent::Added)
        } else if bytes_eq(bytes, "display_removed".as_bytes()) {
            Event::Display(DisplayEvent::Removed)
        } else if bytes_eq(bytes, "display_moved".as_bytes()) {
            Event::Display(DisplayEvent::Moved)
        } else if bytes_eq(bytes, "display_resized".as_bytes()) {
            Event::Display(DisplayEvent::Resized)
        } else if bytes_eq(bytes, "display_changed".as_bytes()) {
            Event::Display(DisplayEvent::Changed)
        } else {
            return Err(EventError::Unsupported(vstd::slice::slice_to_vec(bytes)));
        };
        Ok(e)
    }
}

} // verus!
