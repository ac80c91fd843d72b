//! Application bootstrapping: render-context negotiation, window-geometry tracking,
//! configuration records, input snapshots, clipboard access and error reporting around a
//! frame-driven event loop.

pub mod app;
pub mod clipboard;
pub mod config;
pub mod driver;
pub mod error;
pub mod fatal;
pub mod i18n;
pub mod input;
pub mod negotiation;

pub use app::{App, AppSetup, RunnableApp};
pub use clipboard::{
    ClipboardHandle, ClipboardImage, copy_image, copy_string, init, paste_image, paste_string,
};
pub use config::{AppConfig, ConfigFile, MyConfig, StoredConfig, StoredWindow, WindowConfig};
pub use driver::{Driver, WindowEvent};
pub use error::{ClipboardError, ClipboardFailure};
pub use fatal::{fatal_error_message, fatal_error_title};
pub use i18n::{LanguageError, LanguageMap, LanguageMapInit, report_language};
pub use input::{Button, CursorIcon, Input, InputEvent};
pub use negotiation::{ContextConfiguration, Negotiated, TriedConfigurations, negotiate};
