use vstd::prelude::*;

use crate::event::InputEvent;

verus! {

/// The allow-list of input-event kinds that the loop feeds to the panel.
/// Which kinds a host loop records is its own policy, so the list is a
/// parameter rather than a fixed rule.
#[derive(Debug, Clone, Copy)]
pub struct EventFilter {
    /// Record physical key transitions.
    pub keys: bool,
    /// Record printable-character input.
    pub characters: bool,
    /// Record input-method (IME) events.
    pub ime: bool,
}

impl EventFilter {
    /// Whether `e` passes this allow-list.
    pub open spec fn spec_allows(self, e: InputEvent) -> bool {
        match e {
            InputEvent::Key { .. } => self.keys,
            InputEvent::Character { .. } => self.characters,
            _ => self.ime,
        }
    }

    /// The allow-list that records every supported kind: key transitions,
    /// printable characters and IME events alike.
    pub fn all() -> (f: EventFilter)
        ensures
            f.keys,
            f.characters,
            f.ime,
    {
        EventFilter { keys: true, characters: true, ime: true }
    }

    /// Decides whether `e` passes this allow-list.
    pub fn allows(&self, e: &InputEvent) -> (r: bool)
        ensures
            r == self.spec_allows(*e),
    {
        match e {
            InputEvent::Key { .. } => self.keys,
            InputEvent::Character { .. } => self.characters,
            _ => self.ime,
        }
    }
}

/// A window event, as far as the loop's decisions read it.
#[derive(Debug, Clone)]
pub enum WindowEventKind {
    /// The window was resized to the given physical size.
    Resized {
        /// The new width in pixels.
        width: u32,
        /// The new height in pixels.
        height: u32,
    },
    /// The user asked to close the window.
    CloseRequested,
    /// A keyboard, character or IME event.
    Input(InputEvent),
    /// Any other window event.
    Other,
}

/// One event handed to the application loop by the host window system.
#[derive(Debug, Clone)]
pub enum LoopEvent {
    /// The host asked for the window to be redrawn.
    RedrawRequested,
    /// Every pending event of this cycle has been dispatched.
    MainEventsCleared,
    /// An event of this application's window.
    Window(WindowEventKind),
    /// Any other loop event (device events, lifecycle notifications, ...).
    Other,
}

/// What the loop does in answer to one event.
#[derive(Debug, Clone, Copy, PartialEq, Eq, Structural)]
pub enum LoopAction {
    /// Draw and present one frame.
    DrawFrame,
    /// Ask the host for a redraw.
    RequestRedraw,
    /// Reconfigure the drawing surface to the given size.
    Reconfigure {
        /// The new width in pixels.
        width: u32,
        /// The new height in pixels.
        height: u32,
    },
    /// Leave the event loop.
    Exit,
    /// Feed the input event to the panel.
    FeedInput,
    /// Do nothing.
    Ignore,
}

/// The loop's decision for `e` under the allow-list `filter`: a redraw
/// request draws a frame; the end of an event cycle asks for a redraw; a
/// resize reconfigures the surface unless either side is zero (a zero size
/// signals a minimized window and must not reach the surface); a close
/// request leaves the loop; an input event on the allow-list is fed to the
/// panel; everything else is ignored.
pub open spec fn spec_dispatch(e: LoopEvent, filter: EventFilter) -> LoopAction {
    match e {
        LoopEvent::RedrawRequested => LoopAction::DrawFrame,
        LoopEvent::MainEventsCleared => LoopAction::RequestRedraw,
        LoopEvent::Window(w) => match w {
            WindowEventKind::Resized { width, height } => if width > 0 && height > 0 {
                LoopAction::Reconfigure { width, height }
            } else {
                LoopAction::Ignore
            },
            WindowEventKind::CloseRequested => LoopAction::Exit,
            WindowEventKind::Input(ev) => if filter.spec_allows(ev) {
                LoopAction::FeedInput
            } else {
                LoopAction::Ignore
            },
            WindowEventKind::Other => LoopAction::Ignore,
        },
        LoopEvent::Other => LoopAction::Ignore,
    }
}

/// Decides the loop's action for one host event. The host performs the
/// returned action: it draws, requests a redraw, resizes the surface,
/// leaves the loop, or feeds the input event to the panel.
pub fn dispatch(e: &LoopEvent, filter: &EventFilter) -> (a: LoopAction)
    ensures
        a == spec_dispatch(*e, *filter),
{
    match e {
        LoopEvent::RedrawRequested => LoopAction::DrawFrame,
        LoopEvent::MainEventsCleared => LoopAction::RequestRedraw,
        LoopEvent::Window(w) => match w {
            WindowEventKind::Resized { width, height } => {
                if *width > 0 && *height > 0 {
                    LoopAction::Reconfigure { width: *width, height: *height }
                } else {
                    LoopAction::Ignore
                }
            },
            WindowEventKind::CloseRequested => LoopAction::Exit,
            WindowEventKind::Input(ev) => {
                if filter.allows(ev) {
                    LoopAction::FeedInput
                } else {
                    LoopAction::Ignore
                }
            },
            WindowEventKind::Other => LoopAction::Ignore,
        },
        LoopEvent::Other => LoopAction::Ignore,
    }
}

} // verus!
