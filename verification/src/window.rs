//! The window-facing edge: the tracked window size, and the decisions
//! the event-loop runner takes for each event it is delivered. The loop
//! itself, and the window it drives, live outside the library.

use vstd::prelude::*;

verus! {

/// A surface dimension clamped into the range the renderer accepts: at
/// least one, and small enough that the workgroup grid arithmetic over
/// it cannot overflow.
pub open spec fn clamped_dimension(v: u32) -> u32 {
    if v < 1 {
        1u32
    } else if v > 0xffff0000u32 {
        0xffff0000u32
    } else {
        v
    }
}

/// Clamp a surface dimension into the accepted range.
pub fn clamp_dimension(v: u32) -> (r: u32)
    ensures
        r == clamped_dimension(v),
{
    if v < 1 {
        1
    } else if v > 0xffff0000 {
        0xffff0000
    } else {
        v
    }
}

/// The window's client size, clamped to at least one in each dimension.
#[derive(Clone, Copy, PartialEq, Eq, Structural, Debug)]
pub struct WindowSize {
    pub width: usize,
    pub height: usize,
}

impl WindowSize {
    /// The clamped width.
    pub fn width(&self) -> (r: usize)
        ensures
            r == self.width,
    {
        self.width
    }

    /// The clamped height.
    pub fn height(&self) -> (r: usize)
        ensures
            r == self.height,
    {
        self.height
    }

    /// The size recorded for a resize event: both dimensions clamped
    /// into the accepted range.
    pub fn from_event(width: u32, height: u32) -> (r: WindowSize)
        ensures
            r.width == clamped_dimension(width) as usize,
            r.height == clamped_dimension(height) as usize,
    {
        WindowSize {
            width: clamp_dimension(width) as usize,
            height: clamp_dimension(height) as usize,
        }
    }
}

impl Default for WindowSize {
    /// Before any resize event arrives the size reads as one by one.
    fn default() -> (r: Self)
        ensures
            r.width == 1,
            r.height == 1,
    {
        WindowSize { width: 1, height: 1 }
    }
}

/// An event the windowing collaborator delivers to the runner.
#[derive(Clone, Copy, PartialEq, Eq, Structural, Debug)]
pub enum WindowEvent {
    /// The event loop just started.
    Init,
    /// The loop went idle: time to simulate and ask for a redraw.
    AboutToWait,
    /// A window asks to be redrawn.
    RedrawRequested,
    /// A window asks to close.
    CloseRequested,
    /// A window was resized.
    Resized { width: u32, height: u32 },
}

/// What the runner does in response to one event.
#[derive(Clone, Copy, PartialEq, Eq, Structural, Debug)]
pub enum EventAction {
    /// Keep polling instead of waiting for events.
    SetPollControlFlow,
    /// Advance the simulation, then request a redraw of the main window.
    UpdateAndRequestRedraw,
    /// Run the render schedule for this tick.
    RunRenderSchedule,
    /// Hide the main window and leave the event loop.
    HideWindowAndExit,
    /// Record the new, clamped window size.
    SetWindowSize { size: WindowSize },
    /// Nothing: the event concerns no window of ours.
    Ignore,
}

/// The event-loop runner's decisions, one event at a time. Window
/// events only count when they concern the main window.
pub struct WindowPlugin;

impl WindowPlugin {
    /// Decide what one delivered event means for the frame loop.
    pub fn runner_action(event: WindowEvent, is_main_window: bool) -> (r: EventAction)
        ensures
            r == match event {
                WindowEvent::Init => EventAction::SetPollControlFlow,
                WindowEvent::AboutToWait => EventAction::UpdateAndRequestRedraw,
                WindowEvent::RedrawRequested => if is_main_window {
                    EventAction::RunRenderSchedule
                } else {
                    EventAction::Ignore
                },
                WindowEvent::CloseRequested => if is_main_window {
                    EventAction::HideWindowAndExit
                } else {
                    EventAction::Ignore
                },
                WindowEvent::Resized { width, height } => if is_main_window {
                    EventAction::SetWindowSize {
                        size: WindowSize {
                            width: clamped_dimension(width) as usize,
                            height: clamped_dimension(height) as usize,
                        },
                    }
                } else {
                    EventAction::Ignore
                },
            },
    {
        match event {
            WindowEvent::Init => EventAction::SetPollControlFlow,
            WindowEvent::AboutToWait => EventAction::UpdateAndRequestRedraw,
            WindowEvent::RedrawRequested => {
                if is_main_window {
                    EventAction::RunRenderSchedule
                } else {
                    EventAction::Ignore
                }
            },
            WindowEvent::CloseRequested => {
                if is_main_window {
                    EventAction::HideWindowAndExit
                } else {
                    EventAction::Ignore
                }
            },
            WindowEvent::Resized { width, height } => {
                if is_main_window {
                    EventAction::SetWindowSize { size: WindowSize::from_event(width, height) }
                } else {
                    EventAction::Ignore
                }
            },
        }
    }
}

} // verus!
