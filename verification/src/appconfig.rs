//! The application settings and their defaults.

use vstd::prelude::*;

verus! {

/// The file the settings are stored in, relative to the working directory.
pub const SETTINGS_FILE: &'static str = "settings.json";

/// The name of the application's own directory inside the user's data
/// directory.
pub const APP_DATA_NAME: &'static str = "MudSaver";

/// The user's settings: the colour theme of the interface and which of the
/// two games it offers.
#[derive(Clone, Debug)]
pub struct Settings {
    color: String,
    enable_mudrunner: bool,
    enable_snowrunner: bool,
}

/// Whether a game is offered when the settings do not say.
pub fn default_enabled() -> (res: bool)
    ensures
        res,
{
    true
}

/// The colour theme used when the settings do not name one.
pub fn default_color() -> (res: String)
    ensures
        res@ == "teal"@,
{
    String::from_str("teal")
}

/// The settings in use when none could be loaded, or where a setting is
/// missing from the stored ones.
pub open spec fn default_settings() -> (Seq<char>, bool, bool) {
    ("teal"@, true, true)
}

/// The settings stored with some of them possibly missing, each missing one
/// replaced by its default.
pub open spec fn with_defaults(
    color: Option<Seq<char>>,
    enable_mudrunner: Option<bool>,
    enable_snowrunner: Option<bool>,
) -> (Seq<char>, bool, bool) {
    (
        match color {
            Some(c) => c,
            None => default_settings().0,
        },
        match enable_mudrunner {
            Some(b) => b,
            None => default_settings().1,
        },
        match enable_snowrunner {
            Some(b) => b,
            None => default_settings().2,
        },
    )
}

impl Settings {
    /// The colour theme, as text.
    pub closed spec fn color(&self) -> Seq<char> {
        self.color@
    }

    /// Whether MudRunner savegames are managed.
    pub closed spec fn mudrunner_enabled(&self) -> bool {
        self.enable_mudrunner
    }

    /// Whether SnowRunner savegames are managed.
    pub closed spec fn snowrunner_enabled(&self) -> bool {
        self.enable_snowrunner
    }

    /// The three settings together.
    pub open spec fn values(&self) -> (Seq<char>, bool, bool) {
        (self.color(), self.mudrunner_enabled(), self.snowrunner_enabled())
    }

    /// Settings with the given colour theme and games.
    pub fn new(color: String, enable_mudrunner: bool, enable_snowrunner: bool) -> (res: Settings)
        ensures
            res.values() == (color@, enable_mudrunner, enable_snowrunner),
    {
        Settings { color, enable_mudrunner, enable_snowrunner }
    }

    /// Settings read from storage, where each setting that is missing takes
    /// its default.
    pub fn from_stored(
        color: Option<String>,
        enable_mudrunner: Option<bool>,
        enable_snowrunner: Option<bool>,
    ) -> (res: Settings)
        ensures
            res.values() == with_defaults(
                match color {
                    Some(c) => Some(c@),
                    None => None,
                },
                enable_mudrunner,
                enable_snowrunner,
            ),
    {
        let color = match color {
            Some(c) => c,
            None => default_color(),
        };
        let enable_mudrunner = match enable_mudrunner {
            Some(b) => b,
            None => default_enabled(),
        };
        let enable_snowrunner = match enable_snowrunner {
            Some(b) => b,
            None => default_enabled(),
        };
        Settings { color, enable_mudrunner, enable_snowrunner }
    }

    /// The default settings: the "teal" theme, both games enabled.
    pub fn default() -> (res: Settings)
        ensures
            res.values() == default_settings(),
    {
        Settings {
            color: default_color(),
            enable_mudrunner: default_enabled(),
            enable_snowrunner: default_enabled(),
        }
    }

    /// Replaces the settings in use by those freshly loaded from storage.
    pub fn reload(&mut self, loaded: Settings)
        ensures
            final(self).values() == loaded.values(),
    {
        *self = loaded;
    }

    /// The colour theme.
    pub fn get_color(&self) -> (res: String)
        ensures
            res@ == self.color(),
    {
        self.color.clone()
    }

    /// Whether MudRunner savegames are managed.
    pub fn is_mudrunner_enabled(&self) -> (res: bool)
        ensures
            res == self.mudrunner_enabled(),
    {
        self.enable_mudrunner
    }

    /// Whether SnowRunner savegames are managed.
    pub fn is_snowrunner_enabled(&self) -> (res: bool)
        ensures
            res == self.snowrunner_enabled(),
    {
        self.enable_snowrunner
    }
}

/// The settings to start with: those loaded from storage where loading
/// succeeded (`Some`), the defaults where it failed (`None`).
pub fn try_load(loaded: Option<Settings>) -> (res: Settings)
    ensures
        loaded matches Some(s) ==> res.values() == s.values(),
        loaded is None ==> res.values() == default_settings(),
{
    match loaded {
        Some(s) => s,
        None => Settings::default(),
    }
}

/// Stored settings that name no setting at all are the default settings,
/// and stored settings that name every setting are taken as they are.
pub proof fn lemma_stored_settings_defaults(color: Seq<char>, enable_mudrunner: bool, enable_snowrunner: bool)
    ensures
        with_defaults(None, None, None) == default_settings(),
        with_defaults(Some(color), Some(enable_mudrunner), Some(enable_snowrunner))
            == (color, enable_mudrunner, enable_snowrunner),
{
}

} // verus!
