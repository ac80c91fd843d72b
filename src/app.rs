//! Setup parameters of an application and its initial state.

use vstd::prelude::*;

use crate::config::{AppConfig, WindowConfig};

verus! {

/// The window size used when the user config holds no window geometry.
pub const DEFAULT_WINDOW_SIZE: (u32, u32) = (1024, 600);

/// Static facts about an application, used for error reporting.
pub trait AppSetup {
    type Config: AppConfig;

    /// The app's pretty name, used for error reporting.
    fn pretty_name() -> &'static str {
        Self::Config::app_name()
    }

    /// The app's issue tracker link, used for error reporting.
    fn issue_tracker() -> Option<&'static str> {
        None
    }
}

/// Initial setup parameters for an application.
pub struct App {
    /// The window size to use when the user config doesn't exist.
    pub default_window_size: (u32, u32),
    /// The minimum window size.
    pub minimum_window_size: Option<(u32, u32)>,
}

impl Default for App {
    fn default() -> (r: Self)
        ensures
            r.default_window_size == DEFAULT_WINDOW_SIZE,
            r.minimum_window_size is None,
    {
        App { default_window_size: DEFAULT_WINDOW_SIZE, minimum_window_size: None }
    }
}

impl App {
    /// Starts building an app.
    pub fn build() -> (r: Self)
        ensures
            r.default_window_size == DEFAULT_WINDOW_SIZE,
            r.minimum_window_size is None,
    {
        Self::default()
    }

    /// Modifies the default window size.
    pub fn default_window_size(self, size: (u32, u32)) -> (r: Self)
        ensures
            r.default_window_size == size,
            r.minimum_window_size == self.minimum_window_size,
    {
        App { default_window_size: size, ..self }
    }

    /// Sets the minimum window size.
    pub fn minimum_window_size(self, size: (u32, u32)) -> (r: Self)
        ensures
            r.default_window_size == self.default_window_size,
            r.minimum_window_size == Some(size),
    {
        App { minimum_window_size: Some(size), ..self }
    }

    /// The inner size the window is created with: the saved one, or else the default.
    pub fn initial_window_size(&self, saved: &Option<WindowConfig>) -> (r: (u32, u32))
        ensures
            r == match *saved {
                Some(w) => (w.width, w.height),
                None => self.default_window_size,
            },
    {
        match saved {
            Some(w) => (w.width, w.height),
            None => self.default_window_size,
        }
    }

    /// Sets the initial state of the app.
    ///
    /// This must be the last function called on this builder, after which the event
    /// loop can be started.
    pub fn init_state<F, S, E>(self, init: F) -> (r: RunnableApp<F>)
        where
            F: FnOnce() -> Result<S, E>,
        ensures
            r.app == self,
            r.init_state == init,
    {
        RunnableApp { app: self, init_state: init }
    }
}

/// An `App` with the function that makes its initial state.
pub struct RunnableApp<F> {
    pub app: App,
    pub init_state: F,
}

impl<F> RunnableApp<F> {
    /// Makes the initial state, and gives it back with the setup parameters.
    pub fn start<S, E>(self) -> (r: (App, Result<S, E>))
        where
            F: FnOnce() -> Result<S, E>,
        requires
            self.init_state.requires(()),
        ensures
            r.0 == self.app,
            self.init_state.ensures((), r.1),
    {
        let RunnableApp { app, init_state } = self;
        let state = init_state();
        (app, state)
    }
}

} // verus!
