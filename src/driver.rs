//! The decisions of the event loop: which window geometry to remember, when to stop,
//! and what to persist on exit.

use vstd::prelude::*;

use crate::config::{AppConfig, WindowConfig};

verus! {

/// A window event, as far as the event loop tells them apart.
#[derive(Clone, Copy, Debug, PartialEq, Eq, Structural)]
pub enum WindowEvent {
    /// The window's inner size changed.
    Resized { width: u32, height: u32 },
    /// The window's outer position changed.
    Moved { x: i32, y: i32 },
    /// The user asked to close the window.
    CloseRequested,
    /// Any other event; it goes to the input tracker.
    Other,
}

/// The state of the event loop.
pub struct DriverView {
    /// The last window position worth saving.
    pub position: (i32, i32),
    /// The last window size worth saving.
    pub size: (u32, u32),
    /// Whether the loop is to stop.
    pub exit_requested: bool,
}

/// What an event does to the loop's state, given whether the window is maximized: a
/// resize is remembered unless the window is maximized, a move only to a position with
/// both coordinates non-negative, and a close request stops the loop.
pub open spec fn after_event(v: DriverView, event: WindowEvent, maximized: bool) -> DriverView {
    match event {
        WindowEvent::Resized { width, height } => if maximized {
            v
        } else {
            DriverView { size: (width, height), ..v }
        },
        WindowEvent::Moved { x, y } => if x >= 0 && y >= 0 {
            DriverView { position: (x, y), ..v }
        } else {
            v
        },
        WindowEvent::CloseRequested => DriverView { exit_requested: true, ..v },
        WindowEvent::Other => v,
    }
}

/// Whether an event goes on to the input tracker: every event that the loop does not
/// take for itself.
pub open spec fn forwarded(event: WindowEvent, maximized: bool) -> bool {
    match event {
        WindowEvent::Resized { .. } => maximized,
        WindowEvent::Moved { x, y } => !(x >= 0 && y >= 0),
        WindowEvent::CloseRequested => false,
        WindowEvent::Other => true,
    }
}

/// The geometry saved on exit.
pub open spec fn saved_geometry(v: DriverView, maximized: bool) -> WindowConfig {
    WindowConfig {
        x: v.position.0,
        y: v.position.1,
        width: v.size.0,
        height: v.size.1,
        maximized,
    }
}

/// The event loop's own state: the window geometry to persist and the exit flag.
pub struct Driver {
    position: (i32, i32),
    size: (u32, u32),
    exit_requested: bool,
}

impl View for Driver {
    type V = DriverView;

    closed spec fn view(&self) -> DriverView {
        DriverView {
            position: self.position,
            size: self.size,
            exit_requested: self.exit_requested,
        }
    }
}

impl Driver {
    /// Starts tracking from the saved geometry, or, where none was saved, from the
    /// window's actual size and position (the origin where the position is unknown).
    pub fn new(
        saved: &Option<WindowConfig>,
        window_size: (u32, u32),
        window_position: Option<(i32, i32)>,
    ) -> (r: Driver)
        ensures
            r@.exit_requested == false,
            match *saved {
                Some(w) => r@.position == (w.x, w.y) && r@.size == (w.width, w.height),
                None => r@.size == window_size && r@.position == match window_position {
                    Some(p) => p,
                    None => (0i32, 0i32),
                },
            },
    {
        match saved {
            Some(w) => Driver {
                position: (w.x, w.y),
                size: (w.width, w.height),
                exit_requested: false,
            },
            None => {
                let position = match window_position {
                    Some(p) => p,
                    None => (0, 0),
                };
                Driver { position, size: window_size, exit_requested: false }
            },
        }
    }

    /// The remembered window position.
    pub fn position(&self) -> (r: (i32, i32))
        ensures
            r == self@.position,
    {
        self.position
    }

    /// The remembered window size.
    pub fn size(&self) -> (r: (u32, u32))
        ensures
            r == self@.size,
    {
        self.size
    }

    /// Whether the loop is to stop.
    pub fn exit_requested(&self) -> (r: bool)
        ensures
            r == self@.exit_requested,
    {
        self.exit_requested
    }

    /// Takes in one window event; returns whether the event goes on to the input tracker.
    pub fn handle_window_event(&mut self, event: WindowEvent, maximized: bool) -> (forward: bool)
        ensures
            final(self)@ == after_event(old(self)@, event, maximized),
            forward == forwarded(event, maximized),
    {
        match event {
            WindowEvent::Resized { width, height } => {
                if maximized {
                    true
                } else {
                    self.size = (width, height);
                    false
                }
            },
            WindowEvent::Moved { x, y } => {
                if x >= 0 && y >= 0 {
                    self.position = (x, y);
                    false
                } else {
                    true
                }
            },
            WindowEvent::CloseRequested => {
                self.exit_requested = true;
                false
            },
            WindowEvent::Other => true,
        }
    }

    /// Whether a frame is to be processed: none is once the loop is stopping.
    pub fn should_process_frame(&self) -> (r: bool)
        ensures
            r == !self@.exit_requested,
    {
        !self.exit_requested
    }

    /// Takes in how a frame went: a failed frame stops the loop.
    pub fn frame_finished(&mut self, succeeded: bool)
        ensures
            final(self)@ == (DriverView {
                exit_requested: old(self)@.exit_requested || !succeeded,
                ..old(self)@
            }),
    {
        if !succeeded {
            self.exit_requested = true;
        }
    }

    /// The geometry to save on exit.
    pub fn final_window_config(&self, maximized: bool) -> (r: WindowConfig)
        ensures
            r == saved_geometry(self@, maximized),
    {
        WindowConfig {
            x: self.position.0,
            y: self.position.1,
            width: self.size.0,
            height: self.size.1,
            maximized,
        }
    }

    /// Writes the geometry to save on exit into the config, and changes nothing else in it.
    pub fn persist<C: AppConfig>(&self, config: &mut C, maximized: bool)
        ensures
            final(config).window_view() == Some(saved_geometry(self@, maximized)),
            final(config).language_view() == old(config).language_view(),
    {
        let geometry = self.final_window_config(maximized);
        let slot = config.window_config_mut();
        *slot = Some(geometry);
    }
}

/// A resize while the window is maximized leaves the remembered geometry as it was; a
/// move to a position with a negative coordinate does too; a move to a position with
/// both coordinates non-negative is remembered.
pub proof fn lemma_geometry_tracking(v: DriverView, width: u32, height: u32, x: i32, y: i32, maximized: bool)
    ensures
        after_event(v, WindowEvent::Resized { width, height }, true) == v,
        !maximized ==> after_event(v, WindowEvent::Resized { width, height }, false).size == (width, height),
        (x < 0 || y < 0) ==> after_event(v, WindowEvent::Moved { x, y }, maximized) == v,
        (x >= 0 && y >= 0) ==> after_event(v, WindowEvent::Moved { x, y }, maximized) == (DriverView {
            position: (x, y),
            ..v
        }),
{
}

/// Once a close request has come, no later event lets a frame be processed.
pub proof fn lemma_no_frame_after_close(v: DriverView, event: WindowEvent, maximized: bool)
    requires
        v.exit_requested,
    ensures
        after_event(v, event, maximized).exit_requested,
{
}

} // verus!
