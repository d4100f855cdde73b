//! The application configuration: a flat settings map, the migration from
//! the older format with one field per API key, and the choice between the
//! two when the file is read.
use vstd::prelude::*;
use crate::settings::Settings;
use crate::store::{join_path, path_join};
use crate::text::owned;

verus! {

/// The configuration: settings such as `GEMINI_API_KEY`.
pub struct Config {
    pub settings: Settings,
}

impl Default for Config {
    fn default() -> (r: Config)
        ensures
            r.settings@ == Map::<Seq<char>, Seq<char>>::empty(),
    {
        Config { settings: Settings::new() }
    }
}

/// The older configuration format, read only to migrate it.
pub struct LegacyConfig {
    pub gemini_api_key: Option<String>,
    pub openai_api_key: Option<String>,
    pub anthropic_api_key: Option<String>,
}

/// The settings a legacy configuration migrates to: each key that was given
/// under its settings name.
pub open spec fn legacy_settings(old: LegacyConfig) -> Map<Seq<char>, Seq<char>> {
    let a = match old.gemini_api_key {
        Some(v) => Map::empty().insert("GEMINI_API_KEY"@, v@),
        None => Map::empty(),
    };
    let b = match old.openai_api_key {
        Some(v) => a.insert("OPENAI_API_KEY"@, v@),
        None => a,
    };
    match old.anthropic_api_key {
        Some(v) => b.insert("ANTHROPIC_API_KEY"@, v@),
        None => b,
    }
}

impl Config {
    /// The configuration a legacy one migrates to.
    pub fn from_legacy(old: LegacyConfig) -> (r: Config)
        ensures
            r.settings@ == legacy_settings(old),
    {
        let ghost g = old;
        let mut settings = Settings::new();
        match old.gemini_api_key {
            Some(v) => settings.insert(owned("GEMINI_API_KEY"), v),
            None => {},
        }
        match old.openai_api_key {
            Some(v) => settings.insert(owned("OPENAI_API_KEY"), v),
            None => {},
        }
        match old.anthropic_api_key {
            Some(v) => settings.insert(owned("ANTHROPIC_API_KEY"), v),
            None => {},
        }
        let r = Config { settings };
        assert(r.settings@ =~= legacy_settings(g));
        r
    }
}

/// The configuration read from the file's contents: the current format when
/// it parsed and has settings, else the migrated legacy format when that
/// parsed, else the default.
pub open spec fn chosen_settings(
    current: Option<Map<Seq<char>, Seq<char>>>,
    legacy: Option<LegacyConfig>,
) -> Map<Seq<char>, Seq<char>> {
    match current {
        Some(m) if m != Map::<Seq<char>, Seq<char>>::empty() => m,
        _ => match legacy {
            Some(old) => legacy_settings(old),
            None => Map::empty(),
        },
    }
}

/// Chooses the configuration from what the file's contents parsed as.
pub fn choose_config(current: Option<Config>, legacy: Option<LegacyConfig>) -> (r: Config)
    ensures
        r.settings@ == chosen_settings(
            match current {
                Some(c) => Some(c.settings@),
                None => None,
            },
            legacy,
        ),
{
    match current {
        Some(c) => {
            if !c.settings.is_empty() {
                return c;
            }
        },
        None => {},
    }
    match legacy {
        Some(old) => Config::from_legacy(old),
        None => Config::default(),
    }
}

/// The configuration file in the configuration directory.
pub fn config_path(config_dir: &str) -> (r: String)
    ensures
        r@ == path_join(config_dir@, "config.json"@),
{
    join_path(config_dir, "config.json")
}

} // verus!
