//! The persisted user configuration: window geometry and language.

use vstd::prelude::*;

verus! {

/// The language of a configuration that names none.
pub const DEFAULT_LANGUAGE: &'static str = "en-US";

/// Window position and size.
#[derive(Clone, Copy, Debug, PartialEq, Eq, Structural)]
pub struct WindowConfig {
    pub x: i32,
    pub y: i32,
    pub width: u32,
    pub height: u32,
    pub maximized: bool,
}

/// An application config record.
///
/// The record is owned by the event loop; the application's state reads it, and the
/// loop writes the final window geometry into it on exit.
pub trait AppConfig: Sized {
    /// The language the record names. Each record type states its own; the default, for
    /// record types that do not, is the empty language.
    open spec fn language_view(&self) -> Seq<char> {
        Seq::empty()
    }

    /// The window geometry the record holds. Each record type states its own; the
    /// default, for record types that do not, is no geometry.
    open spec fn window_view(&self) -> Option<WindowConfig> {
        None
    }

    /// Returns the name of the app, which determines where config files are saved.
    fn app_name() -> &'static str;

    /// Returns the language set in the config.
    fn language(&self) -> (r: &str)
        ensures
            r@ == self.language_view(),
    ;

    /// Returns the window config.
    fn window_config(&self) -> (r: &Option<WindowConfig>)
        ensures
            *r == self.window_view(),
    ;

    /// Gives write access to the window config, and to nothing else.
    fn window_config_mut(&mut self) -> (r: &mut Option<WindowConfig>)
        ensures
            *r == old(self).window_view(),
            final(self).window_view() == *final(r),
            final(self).language_view() == old(self).language_view(),
    ;
}

/// The plain contents of a config record.
pub struct ConfigView {
    pub language: Seq<char>,
    pub window: Option<WindowConfig>,
}

/// The configuration record of an app: its language and the last window geometry.
pub struct MyConfig {
    pub language: String,
    pub window: Option<WindowConfig>,
}

impl View for MyConfig {
    type V = ConfigView;

    open spec fn view(&self) -> ConfigView {
        ConfigView { language: self.language@, window: self.window }
    }
}

/// The record used when no usable one is on disk.
pub open spec fn default_config() -> ConfigView {
    ConfigView { language: DEFAULT_LANGUAGE@, window: None }
}

impl Default for MyConfig {
    fn default() -> (r: Self)
        ensures
            r@ == default_config(),
    {
        MyConfig { language: String::from_str(DEFAULT_LANGUAGE), window: None }
    }
}

impl AppConfig for MyConfig {
    open spec fn language_view(&self) -> Seq<char> {
        self.language@
    }

    open spec fn window_view(&self) -> Option<WindowConfig> {
        self.window
    }

    fn app_name() -> &'static str {
        "MyApp"
    }

    fn language(&self) -> (r: &str) {
        self.language.as_str()
    }

    fn window_config(&self) -> (r: &Option<WindowConfig>) {
        &self.window
    }

    fn window_config_mut(&mut self) -> (r: &mut Option<WindowConfig>) {
        &mut self.window
    }
}

/// A window record as found in a config file: each key may be missing.
#[derive(Clone, Copy, Debug, PartialEq, Eq, Structural)]
pub struct StoredWindow {
    pub x: Option<i32>,
    pub y: Option<i32>,
    pub width: Option<u32>,
    pub height: Option<u32>,
    pub maximized: Option<bool>,
}

/// A config record as found in a config file: each key may be missing.
pub struct StoredConfig {
    pub language: Option<String>,
    pub window: Option<StoredWindow>,
}

/// The plain contents of a stored record.
pub struct StoredView {
    pub language: Option<Seq<char>>,
    pub window: Option<StoredWindow>,
}

impl View for StoredConfig {
    type V = StoredView;

    open spec fn view(&self) -> StoredView {
        StoredView {
            language: match self.language {
                Some(l) => Some(l@),
                None => None,
            },
            window: self.window,
        }
    }
}

/// What was found where the config file should be.
pub enum ConfigFile {
    /// There is no file.
    Missing,
    /// There is a file, but its contents are not a config record.
    Unparseable,
    /// The record the file holds.
    Parsed(StoredConfig),
}

/// The geometry a stored window record gives: none unless position and size are all
/// there; `maximized` is false where it is missing, as older files do not hold it.
pub open spec fn window_of(s: StoredWindow) -> Option<WindowConfig> {
    if s.x is Some && s.y is Some && s.width is Some && s.height is Some {
        Some(
            WindowConfig {
                x: s.x->Some_0,
                y: s.y->Some_0,
                width: s.width->Some_0,
                height: s.height->Some_0,
                maximized: match s.maximized {
                    Some(m) => m,
                    None => false,
                },
            },
        )
    } else {
        None
    }
}

/// The window record that is written for a geometry: every key present.
pub open spec fn stored_window_of(w: WindowConfig) -> StoredWindow {
    StoredWindow {
        x: Some(w.x),
        y: Some(w.y),
        width: Some(w.width),
        height: Some(w.height),
        maximized: Some(w.maximized),
    }
}

/// The config a stored record gives: each missing key takes its default.
pub open spec fn config_of(s: StoredView) -> ConfigView {
    ConfigView {
        language: match s.language {
            Some(l) => l,
            None => default_config().language,
        },
        window: match s.window {
            Some(w) => window_of(w),
            None => None,
        },
    }
}

/// The record that is written for a config.
pub open spec fn stored_of(c: ConfigView) -> StoredView {
    StoredView {
        language: Some(c.language),
        window: match c.window {
            Some(w) => Some(stored_window_of(w)),
            None => None,
        },
    }
}

/// The config that loading gives for what was found on disk: the default where there
/// is no file or no record in it, else the record with defaults for missing keys.
pub open spec fn loaded_config(file: ConfigFile) -> ConfigView {
    match file {
        ConfigFile::Parsed(s) => config_of(s@),
        _ => default_config(),
    }
}

impl WindowConfig {
    /// The geometry of a stored window record, if it holds position and size.
    pub fn from_stored(s: &StoredWindow) -> (r: Option<WindowConfig>)
        ensures
            r == window_of(*s),
    {
        match (s.x, s.y, s.width, s.height) {
            (Some(x), Some(y), Some(width), Some(height)) => {
                let maximized = match s.maximized {
                    Some(m) => m,
                    None => false,
                };
                Some(WindowConfig { x, y, width, height, maximized })
            },
            _ => None,
        }
    }

    /// The record written to a config file for this geometry.
    pub fn to_stored(&self) -> (r: StoredWindow)
        ensures
            r == stored_window_of(*self),
    {
        StoredWindow {
            x: Some(self.x),
            y: Some(self.y),
            width: Some(self.width),
            height: Some(self.height),
            maximized: Some(self.maximized),
        }
    }
}

impl MyConfig {
    /// The config a stored record gives, with defaults for the keys it lacks.
    pub fn from_stored(s: StoredConfig) -> (r: MyConfig)
        ensures
            r@ == config_of(s@),
    {
        let language = match s.language {
            Some(l) => l,
            None => String::from_str(DEFAULT_LANGUAGE),
        };
        let window = match &s.window {
            Some(w) => WindowConfig::from_stored(w),
            None => None,
        };
        MyConfig { language, window }
    }

    /// The record written to the config file for this config.
    pub fn to_stored(&self) -> (r: StoredConfig)
        ensures
            r@ == stored_of(self@),
    {
        let window = match &self.window {
            Some(w) => Some(w.to_stored()),
            None => None,
        };
        StoredConfig { language: Some(self.language.clone()), window }
    }

    /// Loads the config from what was found on disk, and gives the record to write back
    /// at once: a missing or unparseable file is replaced by the default record, and a
    /// file that lacks keys gets them added.
    pub fn load(file: ConfigFile) -> (r: (MyConfig, StoredConfig))
        ensures
            r.0@ == loaded_config(file),
            r.1@ == stored_of(r.0@),
    {
        let config = match file {
            ConfigFile::Parsed(s) => MyConfig::from_stored(s),
            _ => MyConfig::default(),
        };
        let record = config.to_stored();
        (config, record)
    }
}

/// Loading never fails for want of a usable file: a missing or unparseable file gives
/// the default config, and each key a file lacks takes its default (no window geometry
/// where the window record lacks position or size, not maximized where it lacks that).
pub proof fn lemma_load_falls_back_to_defaults(s: StoredView, w: StoredWindow)
    ensures
        loaded_config(ConfigFile::Missing) == default_config(),
        loaded_config(ConfigFile::Unparseable) == default_config(),
        s.language is None ==> config_of(s).language == default_config().language,
        s.window is None ==> config_of(s).window is None,
        (w.x is None || w.y is None || w.width is None || w.height is None) ==> window_of(w) is None,
        (w.x is Some && w.y is Some && w.width is Some && w.height is Some && w.maximized is None)
            ==> (window_of(w) matches Some(g) && !g.maximized),
{
}

/// Writing a config and reading the record back gives the same config.
pub proof fn lemma_stored_round_trip(c: ConfigView)
    ensures
        config_of(stored_of(c)) == c,
{
}

/// Saving what was loaded is idempotent: loading the record written once and writing it
/// again gives the very same record.
pub proof fn lemma_save_after_load_idempotent(s: StoredView)
    ensures
        stored_of(config_of(stored_of(config_of(s)))) == stored_of(config_of(s)),
{
    lemma_stored_round_trip(config_of(s));
}

} // verus!
