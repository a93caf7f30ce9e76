//! The notification taxonomy the automation engine consumes: a leading
//! event-name token plus positional arguments, decoded against a fixed
//! vocabulary.

use vstd::prelude::*;

verus! {

use vstd::string::StringSliceAdditionalSpecFns;
use crate::text::bytes_eq;
use crate::num::spec_parse_uint;
use crate::num::parse_u32;
use crate::codec::deep_tokens;
use crate::num::spec_dec;
use crate::num::u32_to_string;
use vstd::string::StringExecFns;

#[derive(Debug, Clone, Copy, PartialEq, Eq, Structural)]
pub enum MissionControlEvent {
    /// Mission control activated.
    Enter,
    /// Mission control deactivated.
    Exit,
}

#[derive(Debug, Clone, Copy, PartialEq, Eq, Structural)]
pub enum SpaceEvent {
    /// The active space changed; carries the new and the previous space id.
    Changed { space_id: u32, recent_space_id: u32 },
}

#[derive(Debug, Clone, Copy, PartialEq, Eq, Structural)]
pub enum DisplayEvent {
    /// A display was attached.
    Added,
    /// A display was removed.
    Removed,
    /// The display arrangement changed.
    Moved,
    /// A display changed resolution.
    Resized,
    /// The active display changed.
    Changed,
}

#[derive(Debug, Clone, Copy, PartialEq, Eq, Structural)]
pub enum WindowEvent {
    /// A window was created; carries the window id.
    Created { window_id: u32 },
    /// A window was destroyed; carries the window id.
    Destroyed { window_id: u32 },
    /// A window became the key window; carries the window id.
    Focused { window_id: u32 },
    /// A window changed position; carries the window id.
    Moved { window_id: u32 },
    /// A window changed dimensions; carries the window id.
    Resized { window_id: u32 },
    /// A window was minimized; carries the window id.
    Minimized { window_id: u32 },
    /// A window was deminimized; carries the window id.
    Deminimized { window_id: u32 },
}

#[derive(Debug, Clone, Copy, PartialEq, Eq, Structural)]
pub enum ApplicationEvent {
    /// A new application launched.
    Launched,
    /// An application terminated.
    Terminated,
    /// The front-most application changed.
    FrontSwitched,
    /// An application was activated.
    Activated,
    /// An application was deactivated.
    Deactivated,
    /// An application became visible.
    Visible,
    /// An application was hidden.
    Hidden,
}

#[derive(Debug, Clone, Copy, PartialEq, Eq, Structural)]
pub enum Event {
    /// Mission control events.
    MissionControl(MissionControlEvent),
    /// Window events.
    Window(WindowEvent),
    /// Display events.
    Display(DisplayEvent),
    /// Space events.
    Space(SpaceEvent),
    /// Application events.
    Application(ApplicationEvent),
}

/// Why an `event` request failed to decode.
#[derive(Debug, PartialEq, Eq)]
pub enum EventError {
    /// The request carried no tokens at all.
    NoToken,
    /// The leading token is outside the vocabulary; carries that token.
    Unsupported(Vec<u8>),
    /// The leading token requires a numeric argument that was not given;
    /// carries the leading token.
    MissingArgument(Vec<u8>),
    /// An argument is not an unsigned 32-bit numeral; carries that argument.
    InvalidArgument(Vec<u8>),
}

pub enum SpecEventError {
    NoToken,
    Unsupported(Seq<u8>),
    MissingArgument(Seq<u8>),
    InvalidArgument(Seq<u8>),
}

impl View for EventError {
    type V = SpecEventError;

    open spec fn view(&self) -> SpecEventError {
        match self {
            EventError::NoToken => SpecEventError::NoToken,
            EventError::Unsupported(t) => SpecEventError::Unsupported(t@),
            EventError::MissingArgument(t) => SpecEventError::MissingArgument(t@),
            EventError::InvalidArgument(t) => SpecEventError::InvalidArgument(t@),
        }
    }
}

/// Positional argument `i` read as an unsigned 32-bit decimal numeral.
pub open spec fn spec_id_arg(toks: Seq<Seq<u8>>, i: int) -> Result<u32, SpecEventError> {
    if toks.len() <= i {
        Err(SpecEventError::MissingArgument(toks[0]))
    } else {
        match spec_parse_uint(toks[i]) {
            Some(n) => if n <= u32::MAX {
                Ok(n as u32)
            } else {
                Err(SpecEventError::InvalidArgument(toks[i]))
            },
            None => Err(SpecEventError::InvalidArgument(toks[i])),
        }
    }
}

/// The decode relation of the event vocabulary: each known spelling maps to
/// exactly one event with exactly the arguments its token carries; an
/// unknown spelling fails carrying the raw token; a window event needs one
/// id argument and a space change needs two.
pub open spec fn spec_event(toks: Seq<Seq<u8>>) -> Result<Event, SpecEventError> {
    if toks.len() == 0 {
        Err(SpecEventError::NoToken)
    } else {
        let t = toks[0];
        if t == "window_focused".spec_bytes() {
            match spec_id_arg(toks, 1) {
                Ok(id) => Ok(Event::Window(WindowEvent::Focused { window_id: id })),
                Err(e) => Err(e),
            }
        } else if t == "window_created".spec_bytes() {
            match spec_id_arg(toks, 1) {
                Ok(id) => Ok(Event::Window(WindowEvent::Created { window_id: id })),
                Err(e) => Err(e),
            }
        } else if t == "window_moved".spec_bytes() {
            match spec_id_arg(toks, 1) {
                Ok(id) => Ok(Event::Window(WindowEvent::Moved { window_id: id })),
                Err(e) => Err(e),
            }
        } else if t == "window_resized".spec_bytes() {
            match spec_id_arg(toks, 1) {
                Ok(id) => Ok(Event::Window(WindowEvent::Resized { window_id: id })),
                Err(e) => Err(e),
            }
        } else if t == "window_destroyed".spec_bytes() {
            match spec_id_arg(toks, 1) {
                Ok(id) => Ok(Event::Window(WindowEvent::Destroyed { window_id: id })),
                Err(e) => Err(e),
            }
        } else if t == "window_minimized".spec_bytes() {
            match spec_id_arg(toks, 1) {
                Ok(id) => Ok(Event::Window(WindowEvent::Minimized { window_id: id })),
                Err(e) => Err(e),
            }
        } else if t == "window_deminimized".spec_bytes() {
            match spec_id_arg(toks, 1) {
                Ok(id) => Ok(Event::Window(WindowEvent::Deminimized { window_id: id })),
                Err(e) => Err(e),
            }
        } else if t == "space_changed".spec_bytes() {
            match spec_id_arg(toks, 1) {
                Ok(sid) => match spec_id_arg(toks, 2) {
                    Ok(rid) => Ok(
                        Event::Space(
                            SpaceEvent::Changed { space_id: sid, recent_space_id: rid },
                        ),
                    ),
                    Err(e) => Err(e),
                },
                Err(e) => Err(e),
            }
        } else if t == "application_visible".spec_bytes() {
            Ok(Event::Application(ApplicationEvent::Visible))
        } else if t == "application_hidden".spec_bytes() {
            Ok(Event::Application(ApplicationEvent::Hidden))
        } else if t == "application_launched".spec_bytes() {
            Ok(Event::Application(ApplicationEvent::Launched))
        } else if t == "application_terminated".spec_bytes() {
            Ok(Event::Application(ApplicationEvent::Terminated))
        } else if t == "application_front_switched".spec_bytes() {
            Ok(Event::Application(ApplicationEvent::FrontSwitched))
        } else if t == "application_activated".spec_bytes() {
            Ok(Event::Application(ApplicationEvent::Activated))
        } else if t == "application_deactivated".spec_bytes() {
            Ok(Event::Application(ApplicationEvent::Deactivated))
        } else if t == "mission_control_enter".spec_bytes() {
            Ok(Event::MissionControl(MissionControlEvent::Enter))
        } else if t == "mission_control_exit".spec_bytes() {
            Ok(Event::MissionControl(MissionControlEvent::Exit))
        } else if t == "display_added".spec_bytes() {
            Ok(Event::Display(DisplayEvent::Added))
        } else if t == "display_removed".spec_bytes() {
            Ok(Event::Display(DisplayEvent::Removed))
        } else if t == "display_moved".spec_bytes() {
            Ok(Event::Display(DisplayEvent::Moved))
        } else if t == "display_resized".spec_bytes() {
            Ok(Event::Display(DisplayEvent::Resized))
        } else if t == "display_changed".spec_bytes() {
            Ok(Event::Display(DisplayEvent::Changed))
        } else {
            Err(SpecEventError::Unsupported(t))
        }
    }
}

fn id_arg(toks: &[Vec<u8>], i: usize) -> (r: Result<u32, EventError>)
    requires
        toks@.len() > 0,
    ensures
        r matches Ok(v) ==> spec_id_arg(deep_tokens(toks@), i as int) == Ok::<u32, SpecEventError>(v),
        r matches Err(e) ==> spec_id_arg(deep_tokens(toks@), i as int) == Err::<u32, SpecEventError>(
            e@,
        ),
{
    if i >= toks.len() {
        Err(EventError::MissingArgument(vstd::slice::slice_to_vec(toks[0].as_slice())))
    } else {
        match parse_u32(toks[i].as_slice()) {
            Some(v) => Ok(v),
            None => Err(EventError::InvalidArgument(vstd::slice::slice_to_vec(toks[i].as_slice()))),
        }
    }
}

impl Event {
    /// Decode an `event` request's tokens: the leading token names the
    /// event, the remaining tokens are its positional arguments.
    pub fn parse(toks: &[Vec<u8>]) -> (r: Result<Event, EventError>)
        ensures
            r matches Ok(e) ==> spec_event(deep_tokens(toks@)) == Ok::<Event, SpecEventError>(e),
            r matches Err(e) ==> spec_event(deep_tokens(toks@)) == Err::<Event, SpecEventError>(e@),
    {
        if toks.len() == 0 {
            return Err(EventError::NoToken);
        }
        let t = toks[0].as_slice();
        proof {
            assert(deep_tokens(toks@)[0] == toks@[0]@);
        }
        if bytes_eq(t, "window_focused".as_bytes()) {
            match id_arg(toks, 1) {
                Ok(id) => Ok(Event::Window(WindowEvent::Focused { window_id: id })),
                Err(e) => Err(e),
            }
        } else if bytes_eq(t, "window_created".as_bytes()) {
            match id_arg(toks, 1) {
                Ok(id) => Ok(Event::Window(WindowEvent::Created { window_id: id })),
                Err(e) => Err(e),
            }
        } else if bytes_eq(t, "window_moved".as_bytes()) {
            match id_arg(toks, 1) {
                Ok(id) => Ok(Event::Window(WindowEvent::Moved { window_id: id })),
                Err(e) => Err(e),
            }
        } else if bytes_eq(t, "window_resized".as_bytes()) {
            match id_arg(toks, 1) {
                Ok(id) => Ok(Event::Window(WindowEvent::Resized { window_id: id })),
                Err(e) => Err(e),
            }
        } else if bytes_eq(t, "window_destroyed".as_bytes()) {
            match id_arg(toks, 1) {
                Ok(id) => Ok(Event::Window(WindowEvent::Destroyed { window_id: id })),
                Err(e) => Err(e),
            }
        } else if bytes_eq(t, "window_minimized".as_bytes()) {
            match id_arg(toks, 1) {
                Ok(id) => Ok(Event::Window(WindowEvent::Minimized { window_id: id })),
                Err(e) => Err(e),
            }
        } else if bytes_eq(t, "window_deminimized".as_bytes()) {
            match id_arg(toks, 1) {
                Ok(id) => Ok(Event::Window(WindowEvent::Deminimized { window_id: id })),
                Err(e) => Err(e),
            }
        } else if bytes_eq(t, "space_changed".as_bytes()) {
            match id_arg(toks, 1) {
                Ok(sid) => match id_arg(toks, 2) {
                    Ok(rid) => Ok(
                        Event::Space(
                            SpaceEvent::Changed { space_id: sid, recent_space_id: rid },
                        ),
                    ),
                    Err(e) => Err(e),
                },
                Err(e) => Err(e),
            }
        } else if bytes_eq(t, "application_visible".as_bytes()) {
            Ok(Event::Application(ApplicationEvent::Visible))
        } else if bytes_eq(t, "application_hidden".as_bytes()) {
            Ok(Event::Application(ApplicationEvent::Hidden))
        } else if bytes_eq(t, "application_launched".as_bytes()) {
            Ok(Event::Application(ApplicationEvent::Launched))
        } else if bytes_eq(t, "application_terminated".as_bytes()) {
            Ok(Event::Application(ApplicationEvent::Terminated))
        } else if bytes_eq(t, "application_front_switched".as_bytes()) {
            Ok(Event::Application(ApplicationEvent::FrontSwitched))
        } else if bytes_eq(t, "application_activated".as_bytes()) {
            Ok(Event::Application(ApplicationEvent::Activated))
        } else if bytes_eq(t, "application_deactivated".as_bytes()) {
            Ok(Event::Application(ApplicationEvent::Deactivated))
        } else if bytes_eq(t, "mission_control_enter".as_bytes()) {
            Ok(Event::MissionControl(MissionControlEvent::Enter))
        } else if bytes_eq(t, "mission_control_exit".as_bytes()) {
            Ok(Event::MissionControl(MissionControlEvent::Exit))
        } else if bytes_eq(t, "display_added".as_bytes()) {
            Ok(Event::Display(DisplayEvent::Added))
        } else if bytes_eq(t, "display_removed".as_bytes()) {
            Ok(Event::Display(DisplayEvent::Removed))
        } else if bytes_eq(t, "display_moved".as_bytes()) {
            Ok(Event::Display(DisplayEvent::Moved))
        } else if bytes_eq(t, "display_resized".as_bytes()) {
            Ok(Event::Display(DisplayEvent::Resized))
        } else if bytes_eq(t, "display_changed".as_bytes()) {
            Ok(Event::Display(DisplayEvent::Changed))
        } else {
            Err(EventError::Unsupported(vstd::slice::slice_to_vec(t)))
        }
    }
}

/// The one-line description of an event, as the daemon logs it.
pub open spec fn spec_describe(e: Event) -> Seq<char> {
    match e {
        Event::MissionControl(MissionControlEvent::Enter) => "Mission Control Enter"@,
        Event::MissionControl(MissionControlEvent::Exit) => "Mission Control Exit"@,
        Event::Window(WindowEvent::Created { window_id }) => "Window Created ("@ + spec_dec(
            window_id as nat,
        ) + ")"@,
        Event::Window(WindowEvent::Destroyed { window_id }) => "Window Destroyed: ("@ + spec_dec(
            window_id as nat,
        ) + ")"@,
        Event::Window(WindowEvent::Focused { window_id }) => "Window Focused: ("@ + spec_dec(
            window_id as nat,
        ) + ")"@,
        Event::Window(WindowEvent::Moved { window_id }) => "Window Moved: ("@ + spec_dec(
            window_id as nat,
        ) + ")"@,
        Event::Window(WindowEvent::Resized { window_id }) => "Window Resized: ("@ + spec_dec(
            window_id as nat,
        ) + ")"@,
        Event::Window(WindowEvent::Minimized { window_id }) => "Window Minimized: ("@ + spec_dec(
            window_id as nat,
        ) + ")"@,
        Event::Window(WindowEvent::Deminimized { window_id }) => "Window Deminimized: ("@
            + spec_dec(window_id as nat) + ")"@,
        Event::Display(DisplayEvent::Added) => "Display Added"@,
        Event::Display(DisplayEvent::Removed) => "Display Removed"@,
        Event::Display(DisplayEvent::Moved) => "Display Moved"@,
        Event::Display(DisplayEvent::Resized) => "Display Resized"@,
        Event::Display(DisplayEvent::Changed) => "Display Changed"@,
        Event::Space(SpaceEvent::Changed { space_id, recent_space_id }) => "Space Changed (r:"@
            + spec_dec(recent_space_id as nat) + ", n:"@ + spec_dec(space_id as nat) + ")"@,
        Event::Application(ApplicationEvent::Launched) => "Application Launched"@,
        Event::Application(ApplicationEvent::Terminated) => "Application Terminated"@,
        Event::Application(ApplicationEvent::FrontSwitched) => "Application Front Switched"@,
        Event::Application(ApplicationEvent::Activated) => "Application Activated"@,
        Event::Application(ApplicationEvent::Deactivated) => "Application Deactivated"@,
        Event::Application(ApplicationEvent::Visible) => "Application Visible"@,
        Event::Application(ApplicationEvent::Hidden) => "Application Hidden"@,
    }
}

impl Event {
    /// Render the event for a log line.
    pub fn describe(&self) -> (r: String)
        ensures
            r@ == spec_describe(*self),
    {
        match self {
            Event::MissionControl(MissionControlEvent::Enter) => "Mission Control Enter".to_owned(),
            Event::MissionControl(MissionControlEvent::Exit) => "Mission Control Exit".to_owned(),
            Event::Window(WindowEvent::Created { window_id }) => "Window Created (".to_owned()
                .concat(u32_to_string(*window_id).as_str()).concat(")"),
            Event::Window(WindowEvent::Destroyed { window_id }) => "Window Destroyed: ("
                .to_owned().concat(u32_to_string(*window_id).as_str()).concat(")"),
            Event::Window(WindowEvent::Focused { window_id }) => "Window Focused: (".to_owned()
                .concat(u32_to_string(*window_id).as_str()).concat(")"),
            Event::Window(WindowEvent::Moved { window_id }) => "Window Moved: (".to_owned()
                .concat(u32_to_string(*window_id).as_str()).concat(")"),
            Event::Window(WindowEvent::Resized { window_id }) => "Window Resized: (".to_owned()
                .concat(u32_to_string(*window_id).as_str()).concat(")"),
            Event::Window(WindowEvent::Minimized { window_id }) => "Window Minimized: ("
                .to_owned().concat(u32_to_string(*window_id).as_str()).concat(")"),
            Event::Window(WindowEvent::Deminimized { window_id }) => "Window Deminimized: ("
                .to_owned().concat(u32_to_string(*window_id).as_str()).concat(")"),
            Event::Display(DisplayEvent::Added) => "Display Added".to_owned(),
            Event::Display(DisplayEvent::Removed) => "Display Removed".to_owned(),
            Event::Display(DisplayEvent::Moved) => "Display Moved".to_owned(),
            Event::Display(DisplayEvent::Resized) => "Display Resized".to_owned(),
            Event::Display(DisplayEvent::Changed) => "Display Changed".to_owned(),
            Event::Space(SpaceEvent::Changed { space_id, recent_space_id }) => {
                "Space Changed (r:".to_owned().concat(
                    u32_to_string(*recent_space_id).as_str(),
                ).concat(", n:").concat(u32_to_string(*space_id).as_str()).concat(")")
            },
            Event::Application(ApplicationEvent::Launched) => "Application Launched".to_owned(),
            Event::Application(ApplicationEvent::Terminated) => "Application Terminated"
                .to_owned(),
            Event::Application(ApplicationEvent::FrontSwitched) => "Application Front Switched"
                .to_owned(),
            Event::Application(ApplicationEvent::Activated) => "Application Activated"
                .to_owned(),
            Event::Application(ApplicationEvent::Deactivated) => "Application Deactivated"
                .to_owned(),
            Event::Application(ApplicationEvent::Visible) => "Application Visible".to_owned(),
            Event::Application(ApplicationEvent::Hidden) => "Application Hidden".to_owned(),
        }
    }
}

} // verus!
