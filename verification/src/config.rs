//! The daemon's configuration model, its defaults and its lookups.

use vstd::prelude::*;
use crate::text::{
    concat3, contains, ends_with, lowercase, occurs_at, lowercase_of, starts_with, string_from_chars, to_chars, trim_end_matches,
    trim_end_matches_exec,
};

verus! {

/// Qualifier passed to the platform directory lookup.
pub const QUALIFIER: &'static str = "com";

/// Organization passed to the platform directory lookup.
pub const ORGANIZATION: &'static str = "voxnut";

/// Application name passed to the platform directory lookup.
pub const APPLICATION: &'static str = "any-games-discord-rich-presence";

/// The file name of the configuration file inside the configuration directory.
pub const CONFIG_FILE_NAME: &'static str = "config.toml";

/// Shared Discord application Client ID used when no per-game one is set.
pub const DEFAULT_CLIENT_ID: &'static str = "1539094427459649686";

/// Placeholder replaced by the game title in the shared-mode templates.
pub const GAME_TITLE_PLACEHOLDER: &'static str = "{game_title}";

/// Default state line of shared mode.
pub const DEFAULT_SHARED_STATE: &'static str = "Reading / In-Game";

/// Number of executables ignored by default.
pub const DEFAULT_IGNORED_COUNT: usize = 80;

/// Template content for a fresh configuration file.
pub const CONFIG_TEMPLATE: &'static str = r#"# Any Game Discord Rich Presence Daemon Configuration

[general]
# Default Discord Application Client ID used for Shared Mode (Zero Setup).
# In Shared Mode, Discord displays "Playing <App Name>", Details = "<Game Name>", Large Image = Cover Art.
# You can replace this with your own Discord Application Client ID created at:
# https://discord.com/developers/applications
default_client_id = "1539094427459649686"

# Polling frequency in seconds to check for active game processes (default: 3)
poll_interval_secs = 3

# Show elapsed playtime timer (default: true)
show_elapsed_time = true

# Template for Shared Mode details line ({game_title} will be replaced with detected title)
shared_details_template = "{game_title}"

# Template for Shared Mode state line
shared_state_template = "Reading / In-Game"

[api]
# VNDB (The Visual Novel Database) Token (from https://vndb.org/u/tokens)
vndb_token = ""

# SteamGridDB API Key (Recommended for general game cover art lookups)
# Get a free key at: https://www.steamgriddb.com/profile/preferences/api
steamgriddb_api_key = ""

# IGDB / Twitch API Credentials (Optional alternative metadata provider)
# Get credentials at: https://dev.twitch.tv/console/apps
igdb_client_id = ""
igdb_client_secret = ""

# List of process executables to ignore (case-insensitive)
ignored_processes = [
    "explorer.exe",
    "chrome.exe",
    "firefox.exe",
    "msedge.exe",
    "discord.exe",
    "spotify.exe",
    "code.exe",
    "steam.exe",
    "steamwebhelper.exe",
    "epicgameslauncher.exe"
]

# ==============================================================================
# PER-GAME CONFIGURATION & OVERRIDES
# ==============================================================================
# You can define custom behavior for any game executable (with or without .exe).

# Example 1: Shared Mode with custom display name and image
# [games.eldenring]
# display_name = "Elden Ring: Shadow of the Erdtree"
# image_url = "https://images.igdb.com/igdb/image/upload/t_cover_big/co49x5.jpg"
# state = "Exploring the Lands Between"
# button_1_label = "Game Info"
# button_1_url = "https://en.bandainamcoent.eu/elden-ring/elden-ring"

# Example 2: Per-Game Mode (Power User)
# Set your own Discord Application Client ID so the header says "Playing Hollow Knight"
# [games.hollow_knight]
# client_id = "123456789012345678"
# display_name = "Hollow Knight"
# details = "Exploring Hallownest"
# state = "Steel Soul Mode"
# image_url = "https://cdn2.steamgriddb.com/grid/6cf6c986c753b879c3886f4a860b86a8.png"

# Example 3: Ignore a specific binary
# [games.benchmark_tool]
# ignore = true
"#;

/// Top-level application configuration.
#[derive(Clone, Debug)]
pub struct AppConfig {
    /// Global settings
    pub general: GeneralConfig,
    /// API keys for metadata lookups
    pub api: ApiConfig,
    /// Executable names to explicitly ignore (case-insensitive)
    pub ignored_processes: Vec<String>,
    /// Per-game manual overrides, keyed by executable name
    /// (e.g. "eldenring", "witcher3.exe", "hollow_knight"); each key occurs once.
    pub games: Vec<(String, GameOverride)>,
}

/// Global settings.
#[derive(Clone, Debug)]
pub struct GeneralConfig {
    /// Default Discord Application Client ID (shared mode)
    pub default_client_id: String,
    /// Interval in seconds between process table scans
    pub poll_interval_secs: u64,
    /// Details line template in shared mode; `{game_title}` is replaced
    pub shared_details_template: String,
    /// State line template in shared mode; `{game_title}` is replaced
    pub shared_state_template: String,
    /// Show elapsed play time in Rich Presence
    pub show_elapsed_time: bool,
}

/// Credentials of the metadata providers.
#[derive(Clone, Debug)]
pub struct ApiConfig {
    /// VNDB API token
    pub vndb_token: Option<String>,
    /// SteamGridDB API key
    pub steamgriddb_api_key: Option<String>,
    /// IGDB client ID (Twitch developer portal)
    pub igdb_client_id: Option<String>,
    /// IGDB client secret (Twitch developer portal)
    pub igdb_client_secret: Option<String>,
}

/// Manual overrides for one game.
#[derive(Clone, Debug)]
pub struct GameOverride {
    /// Friendly display name for the game
    pub display_name: Option<String>,
    /// Discord Application Client ID for per-game mode
    pub client_id: Option<String>,
    /// URL or asset key of the main art
    pub image_url: Option<String>,
    /// URL or asset key of the small badge art
    pub small_image_url: Option<String>,
    /// Hover text of the large image
    pub large_text: Option<String>,
    /// Hover text of the small image
    pub small_text: Option<String>,
    /// Custom details line
    pub details: Option<String>,
    /// Custom state line
    pub state: Option<String>,
    /// Label of the first button
    pub button_1_label: Option<String>,
    /// URL of the first button
    pub button_1_url: Option<String>,
    /// Label of the second button
    pub button_2_label: Option<String>,
    /// URL of the second button
    pub button_2_url: Option<String>,
    /// Never publish presence for this game
    pub ignore: bool,
}

// ---------------------------------------------------------------------------
// Specifications
// ---------------------------------------------------------------------------

/// The override stored under `key`: the first entry whose key equals it.
pub open spec fn lookup_game(games: Seq<(String, GameOverride)>, key: Seq<char>) -> Option<GameOverride>
    decreases games.len(),
{
    if games.len() == 0 {
        None
    } else if games[0].0@ == key {
        Some(games[0].1)
    } else {
        lookup_game(games.drop_first(), key)
    }
}

/// No key occurs twice among the overrides.
pub open spec fn keys_distinct(games: Seq<(String, GameOverride)>) -> bool {
    forall|i: int, j: int| 0 <= i < j < games.len() ==> games[i].0@ != games[j].0@
}

/// The lowercase form of an executable name.
pub open spec fn lower_name(exe: Seq<char>) -> Seq<char> {
    lowercase_of(exe)
}

/// The lowercase form of an executable name without its `.exe` suffixes.
pub open spec fn stem_name(exe: Seq<char>) -> Seq<char> {
    trim_end_matches(lowercase_of(exe), ".exe"@)
}

/// The override stored for an executable whose lowercase name is `lower`,
/// whether the game was configured with or without `.exe`: the one under
/// `lower`, else the one under `lower` without `.exe` ("game"), else the one
/// under that stem with `.exe` ("game.exe").
pub open spec fn override_in(games: Seq<(String, GameOverride)>, lower: Seq<char>) -> Option<GameOverride> {
    let stem = trim_end_matches(lower, ".exe"@);
    match lookup_game(games, lower) {
        Some(o) => Some(o),
        None => match lookup_game(games, stem) {
            Some(o) => Some(o),
            None => lookup_game(games, stem + ".exe"@),
        },
    }
}

/// The override that applies to an executable: the one found under its
/// lowercase name, with or without `.exe`.
pub open spec fn override_for(games: Seq<(String, GameOverride)>, exe: Seq<char>) -> Option<GameOverride> {
    override_in(games, lower_name(exe))
}

/// A lowercased ignore-list entry names the executable whose lowercase name
/// is `lower`: equal, or equal once both are stripped of `.exe`.
pub open spec fn lowered_entry_names(entry_lower: Seq<char>, lower: Seq<char>) -> bool {
    entry_lower == lower || trim_end_matches(entry_lower, ".exe"@) == trim_end_matches(lower, ".exe"@)
}

/// An entry of the ignore list names the executable: equal once lowercased,
/// or equal once lowercased and stripped of `.exe`.
pub open spec fn ignore_entry_matches(entry: Seq<char>, exe: Seq<char>) -> bool {
    lowered_entry_names(lowercase_of(entry), lower_name(exe))
}

/// Whether presence is never published for an executable: its override
/// (looked up by its lowercase name) says `ignore`, or an entry of the ignore
/// list names it.
pub open spec fn ignored(config: AppConfig, exe: Seq<char>) -> bool {
    (match override_for(config.games@, lower_name(exe)) {
        Some(o) => o.ignore,
        None => false,
    }) || exists|i: int|
        0 <= i < config.ignored_processes@.len() && #[trigger] ignore_entry_matches(
            config.ignored_processes@[i]@,
            exe,
        )
}

/// The executables ignored by default, before lowercasing.
pub open spec fn default_ignored_names() -> Seq<Seq<char>> {
    seq![
        "system"@,
        "system idle process"@,
        "smss.exe"@,
        "csrss.exe"@,
        "wininit.exe"@,
        "services.exe"@,
        "lsass.exe"@,
        "svchost.exe"@,
        "fontdrvhost.exe"@,
        "dwm.exe"@,
        "explorer.exe"@,
        "sihost.exe"@,
        "taskhostw.exe"@,
        "ctfmon.exe"@,
        "conhost.exe"@,
        "runtimebroker.exe"@,
        "shellexperiencehost.exe"@,
        "searchhost.exe"@,
        "startmenuexperiencehost.exe"@,
        "lockapp.exe"@,
        "securityhealthsystray.exe"@,
        "securityhealthservice.exe"@,
        "wlanext.exe"@,
        "audiodg.exe"@,
        "spoolsv.exe"@,
        "wmiprvse.exe"@,
        "smartscreen.exe"@,
        "textinputhost.exe"@,
        "applicationframehost.exe"@,
        "compattelrunner.exe"@,
        "chrome.exe"@,
        "firefox.exe"@,
        "msedge.exe"@,
        "brave.exe"@,
        "opera.exe"@,
        "vivaldi.exe"@,
        "code.exe"@,
        "cursor.exe"@,
        "idea64.exe"@,
        "pycharm64.exe"@,
        "rustrover64.exe"@,
        "cmd.exe"@,
        "powershell.exe"@,
        "pwsh.exe"@,
        "wt.exe"@,
        "windowsterminal.exe"@,
        "git.exe"@,
        "cargo.exe"@,
        "rustc.exe"@,
        "node.exe"@,
        "python.exe"@,
        "discord.exe"@,
        "discordcanary.exe"@,
        "discordptb.exe"@,
        "slack.exe"@,
        "teams.exe"@,
        "spotify.exe"@,
        "vlc.exe"@,
        "obs64.exe"@,
        "obs32.exe"@,
        "telegram.exe"@,
        "steam.exe"@,
        "steamservice.exe"@,
        "steamwebhelper.exe"@,
        "epicgameslauncher.exe"@,
        "unrealcefsubprocess.exe"@,
        "galaxyclient.exe"@,
        "galaxyclientservice.exe"@,
        "ea.exe"@,
        "eadesktop.exe"@,
        "eabackgroundservice.exe"@,
        "origin.exe"@,
        "battle.net.exe"@,
        "agent.exe"@,
        "riotclientservices.exe"@,
        "riotclientux.exe"@,
        "nvcontainer.exe"@,
        "geforceexperience.exe"@,
        "radeonsoftware.exe"@,
        "any-games-discord-rich-presence.exe"@
    ]
}

/// A relative path that `Path::join` appends as it is: not empty, starting
/// with neither `/` nor `.`, made of ASCII letters, digits, `.`, `_`, `-`
/// and `/` (so it carries no root and no drive prefix on any platform).
pub open spec fn plain_relative_path(name: Seq<char>) -> bool {
    name.len() > 0 && name[0] != '/' && name[0] != '.' && forall|i: int|
        0 <= i < name.len() ==> {
            let c = #[trigger] name[i];
            ('a' <= c <= 'z') || ('A' <= c <= 'Z') || ('0' <= c <= '9') || c == '.' || c == '_'
                || c == '-' || c == '/'
        }
}

/// A path of one component: it holds no `/`.
pub open spec fn single_component(name: Seq<char>) -> bool {
    forall|i: int| 0 <= i < name.len() ==> #[trigger] name[i] != '/'
}

/// A Windows verbatim path, starting `\\?\`: `Path::join` onto it rebuilds
/// the whole path from its components.
pub open spec fn verbatim_path(base: Seq<char>) -> bool {
    starts_with(base, seq!['\\', '\\', '?', '\\'])
}

/// `r` is `name` joined onto `base`: it starts with `base`, ends with
/// `name`, and has at most one character (a separator) between them.
pub open spec fn joins(r: Seq<char>, base: Seq<char>, name: Seq<char>) -> bool {
    starts_with(r, base) && ends_with(r, name) && base.len() + name.len() <= r.len() <= base.len()
        + name.len() + 1
}

// ---------------------------------------------------------------------------
// Calls into the platform
// ---------------------------------------------------------------------------

/// An application name that every platform's project directory keeps as
/// it is: ASCII lowercase letters, digits and `-` (Linux lowercases the name
/// and drops its whitespace, macOS turns spaces into `-`, Windows keeps it).
pub open spec fn kept_app_name(application: Seq<char>) -> bool {
    forall|i: int|
        0 <= i < application.len() ==> {
            let c = #[trigger] application[i];
            ('a' <= c <= 'z') || ('0' <= c <= '9') || c == '-'
        }
}

/// `directories::ProjectDirs::from` followed by `config_dir`, as text. The
/// directory depends on the environment of the process (home directory,
/// XDG variables, known folders), so its place is not stated; `None` where
/// no home directory is found. On every platform the directory is a base
/// joined with a project path that holds the application name (Linux:
/// `<config home>/<app>`, macOS: `.../Application Support/<qualifier>.<org>.<app>`,
/// Windows: `<roaming>\<org>\<app>\config`), so a name kept as it is
/// occurs in the result.
#[verifier::external_body]
fn project_config_dir(qualifier: &str, organization: &str, application: &str) -> (r: Option<String>)
    ensures
        kept_app_name(application@) ==> (r matches Some(d) ==> contains(d@, application@)),
{
    match directories::ProjectDirs::from(qualifier, organization, application) {
        Some(dirs) => Some(dirs.config_dir().to_string_lossy().into_owned()),
        None => None,
    }
}

/// `directories::ProjectDirs::from` followed by `cache_dir`, as text. The
/// directory depends on the environment of the process, so its place is not
/// stated; `None` where no home directory is found. On every platform it is a
/// base joined with a project path that holds the application name (Linux:
/// `<cache home>/<app>`, macOS: `.../Caches/<qualifier>.<org>.<app>`,
/// Windows: `<local>\<org>\<app>\cache`), so a name kept as it is occurs
/// in the result.
#[verifier::external_body]
fn project_cache_dir(qualifier: &str, organization: &str, application: &str) -> (r: Option<String>)
    ensures
        kept_app_name(application@) ==> (r matches Some(d) ==> contains(d@, application@)),
{
    match directories::ProjectDirs::from(qualifier, organization, application) {
        Some(dirs) => Some(dirs.cache_dir().to_string_lossy().into_owned()),
        None => None,
    }
}

/// `Path::join` of a plain relative path onto a directory, as text. The
/// separator it inserts is the platform's and is absent where `base` is
/// empty or already ends with one, so only this is stated: the result starts
/// with `base`, ends with `name` and has at most one character between them.
/// Onto a Windows verbatim path the documentation says only that the new
/// path is normalized (its `.` and `..` references removed) and keeps its
/// verbatim prefix, so there the result is stated to stay verbatim, and only
/// a name of one component is stated to end it.
#[verifier::external_body]
pub fn path_join(base: &str, name: &str) -> (r: String)
    requires
        plain_relative_path(name@),
    ensures
        !verbatim_path(base@) ==> joins(r@, base@, name@),
        verbatim_path(base@) ==> verbatim_path(r@),
        single_component(name@) ==> ends_with(r@, name@),
{
    std::path::Path::new(base).join(name).to_string_lossy().into_owned()
}

// ---------------------------------------------------------------------------
// Defaults
// ---------------------------------------------------------------------------

/// The shared Client ID.
pub fn default_client_id() -> (r: String)
    ensures
        r@ == DEFAULT_CLIENT_ID@,
{
    DEFAULT_CLIENT_ID.to_owned()
}

/// Seconds between two scans of the process table.
pub fn default_poll_interval_secs() -> (r: u64)
    ensures
        r == 3,
{
    3
}

/// The details template of shared mode: the bare game title.
pub fn default_shared_details() -> (r: String)
    ensures
        r@ == GAME_TITLE_PLACEHOLDER@,
{
    GAME_TITLE_PLACEHOLDER.to_owned()
}

/// The state template of shared mode.
pub fn default_shared_state() -> (r: String)
    ensures
        r@ == DEFAULT_SHARED_STATE@,
{
    DEFAULT_SHARED_STATE.to_owned()
}

/// `true`, the default of flags that are on unless set.
pub fn default_true() -> (r: bool)
    ensures
        r,
{
    true
}

/// The `i`-th executable ignored by default.
fn default_ignored_name(i: usize) -> (r: &'static str)
    requires
        i < DEFAULT_IGNORED_COUNT,
    ensures
        r@ == default_ignored_names()[i as int],
{
    match i {
        0 => "system",
        1 => "system idle process",
        2 => "smss.exe",
        3 => "csrss.exe",
        4 => "wininit.exe",
        5 => "services.exe",
        6 => "lsass.exe",
        7 => "svchost.exe",
        8 => "fontdrvhost.exe",
        9 => "dwm.exe",
        10 => "explorer.exe",
        11 => "sihost.exe",
        12 => "taskhostw.exe",
        13 => "ctfmon.exe",
        14 => "conhost.exe",
        15 => "runtimebroker.exe",
        16 => "shellexperiencehost.exe",
        17 => "searchhost.exe",
        18 => "startmenuexperiencehost.exe",
        19 => "lockapp.exe",
        20 => "securityhealthsystray.exe",
        21 => "securityhealthservice.exe",
        22 => "wlanext.exe",
        23 => "audiodg.exe",
        24 => "spoolsv.exe",
        25 => "wmiprvse.exe",
        26 => "smartscreen.exe",
        27 => "textinputhost.exe",
        28 => "applicationframehost.exe",
        29 => "compattelrunner.exe",
        30 => "chrome.exe",
        31 => "firefox.exe",
        32 => "msedge.exe",
        33 => "brave.exe",
        34 => "opera.exe",
        35 => "vivaldi.exe",
        36 => "code.exe",
        37 => "cursor.exe",
        38 => "idea64.exe",
        39 => "pycharm64.exe",
        40 => "rustrover64.exe",
        41 => "cmd.exe",
        42 => "powershell.exe",
        43 => "pwsh.exe",
        44 => "wt.exe",
        45 => "windowsterminal.exe",
        46 => "git.exe",
        47 => "cargo.exe",
        48 => "rustc.exe",
        49 => "node.exe",
        50 => "python.exe",
        51 => "discord.exe",
        52 => "discordcanary.exe",
        53 => "discordptb.exe",
        54 => "slack.exe",
        55 => "teams.exe",
        56 => "spotify.exe",
        57 => "vlc.exe",
        58 => "obs64.exe",
        59 => "obs32.exe",
        60 => "telegram.exe",
        61 => "steam.exe",
        62 => "steamservice.exe",
        63 => "steamwebhelper.exe",
        64 => "epicgameslauncher.exe",
        65 => "unrealcefsubprocess.exe",
        66 => "galaxyclient.exe",
        67 => "galaxyclientservice.exe",
        68 => "ea.exe",
        69 => "eadesktop.exe",
        70 => "eabackgroundservice.exe",
        71 => "origin.exe",
        72 => "battle.net.exe",
        73 => "agent.exe",
        74 => "riotclientservices.exe",
        75 => "riotclientux.exe",
        76 => "nvcontainer.exe",
        77 => "geforceexperience.exe",
        78 => "radeonsoftware.exe",
        _ => "any-games-discord-rich-presence.exe",
    }
}

/// The executables ignored by default, lowercased.
pub fn default_ignored_processes() -> (r: Vec<String>)
    ensures
        r@.len() == default_ignored_names().len(),
        forall|i: int| 0 <= i < r@.len() ==> #[trigger] r@[i]@ == lowercase_of(default_ignored_names()[i]),
{
    let mut r: Vec<String> = Vec::new();
    let mut i: usize = 0;
    while i < DEFAULT_IGNORED_COUNT
        invariant
            i <= DEFAULT_IGNORED_COUNT,
            DEFAULT_IGNORED_COUNT == default_ignored_names().len(),
            r@.len() == i,
            forall|j: int| 0 <= j < i ==> #[trigger] r@[j]@ == lowercase_of(default_ignored_names()[j]),
        decreases DEFAULT_IGNORED_COUNT - i,
    {
        r.push(lowercase(default_ignored_name(i)));
        i = i + 1;
    }
    r
}

impl Default for GeneralConfig {
    fn default() -> (r: Self)
        ensures
            r.default_client_id@ == DEFAULT_CLIENT_ID@,
            r.poll_interval_secs == 3,
            r.shared_details_template@ == GAME_TITLE_PLACEHOLDER@,
            r.shared_state_template@ == DEFAULT_SHARED_STATE@,
            r.show_elapsed_time,
    {
        GeneralConfig {
            default_client_id: default_client_id(),
            poll_interval_secs: default_poll_interval_secs(),
            shared_details_template: default_shared_details(),
            shared_state_template: default_shared_state(),
            show_elapsed_time: true,
        }
    }
}

impl Default for ApiConfig {
    fn default() -> (r: Self)
        ensures
            r.vndb_token is None,
            r.steamgriddb_api_key is None,
            r.igdb_client_id is None,
            r.igdb_client_secret is None,
    {
        ApiConfig {
            vndb_token: None,
            steamgriddb_api_key: None,
            igdb_client_id: None,
            igdb_client_secret: None,
        }
    }
}

impl Default for GameOverride {
    fn default() -> (r: Self)
        ensures
            r.display_name is None,
            r.client_id is None,
            r.image_url is None,
            r.small_image_url is None,
            r.large_text is None,
            r.small_text is None,
            r.details is None,
            r.state is None,
            r.button_1_label is None,
            r.button_1_url is None,
            r.button_2_label is None,
            r.button_2_url is None,
            !r.ignore,
    {
        GameOverride {
            display_name: None,
            client_id: None,
            image_url: None,
            small_image_url: None,
            large_text: None,
            small_text: None,
            details: None,
            state: None,
            button_1_label: None,
            button_1_url: None,
            button_2_label: None,
            button_2_url: None,
            ignore: false,
        }
    }
}

impl Default for AppConfig {
    fn default() -> (r: Self)
        ensures
            r.general.default_client_id@ == DEFAULT_CLIENT_ID@,
            r.general.poll_interval_secs == 3,
            r.general.shared_details_template@ == GAME_TITLE_PLACEHOLDER@,
            r.general.shared_state_template@ == DEFAULT_SHARED_STATE@,
            r.general.show_elapsed_time,
            r.api.vndb_token is None,
            r.api.steamgriddb_api_key is None,
            r.api.igdb_client_id is None,
            r.api.igdb_client_secret is None,
            r.ignored_processes@.len() == default_ignored_names().len(),
            forall|i: int|
                0 <= i < r.ignored_processes@.len() ==> #[trigger] r.ignored_processes@[i]@
                    == lowercase_of(default_ignored_names()[i]),
            r.games@.len() == 0,
    {
        AppConfig {
            general: GeneralConfig::default(),
            api: ApiConfig::default(),
            ignored_processes: default_ignored_processes(),
            games: Vec::new(),
        }
    }
}

} // verus!

verus! {

impl AppConfig {
    /// The index of the first override stored under `key`, if any.
    fn game_index(&self, key: &String) -> (r: Option<usize>)
        ensures
            match r {
                Some(i) => i < self.games@.len() && lookup_game(self.games@, key@) == Some(
                    self.games@[i as int].1,
                ) && self.games@[i as int].0@ == key@ && forall|j: int|
                    0 <= j < i ==> #[trigger] self.games@[j].0@ != key@,
                None => lookup_game(self.games@, key@) is None,
            },
    {
        let mut i: usize = 0;
        assert(self.games@.subrange(0, self.games@.len() as int) =~= self.games@);
        while i < self.games.len()
            invariant
                i <= self.games@.len(),
                lookup_game(self.games@.subrange(i as int, self.games@.len() as int), key@)
                    == lookup_game(self.games@, key@),
                forall|j: int| 0 <= j < i ==> #[trigger] self.games@[j].0@ != key@,
            decreases self.games@.len() - i,
        {
            let ghost rest = self.games@.subrange(i as int, self.games@.len() as int);
            if self.games[i].0 == *key {
                return Some(i);
            }
            assert(rest.drop_first() =~= self.games@.subrange(i + 1, self.games@.len() as int));
            i = i + 1;
        }
        None
    }

    /// Store `ov` under `key`, as a map's insert does: an override already
    /// stored under `key` is replaced, otherwise the entry is added. Every
    /// other key keeps its override, and keys that were distinct stay so.
    pub fn insert_game(&mut self, key: String, ov: GameOverride)
        ensures
            lookup_game(final(self).games@, key@) == Some(ov),
            forall|k: Seq<char>|
                k != key@ ==> #[trigger] lookup_game(final(self).games@, k) == lookup_game(
                    old(self).games@,
                    k,
                ),
            keys_distinct(old(self).games@) ==> keys_distinct(final(self).games@),
            final(self).general == old(self).general,
            final(self).api == old(self).api,
            final(self).ignored_processes == old(self).ignored_processes,
    {
        let ghost before = self.games@;
        match self.game_index(&key) {
            Some(i) => {
                let ghost k = key@;
                self.games.set(i, (key, ov));
                proof {
                    lemma_lookup_update(before, i as int, self.games@[i as int], k, k);
                    assert forall|q: Seq<char>| q != k implies #[trigger] lookup_game(self.games@, q)
                        == lookup_game(before, q) by {
                        lemma_lookup_update(before, i as int, self.games@[i as int], k, q);
                    }
                    assert forall|a: int, b: int|
                        keys_distinct(before) && 0 <= a < b < self.games@.len() implies self.games@[a].0@
                        != self.games@[b].0@ by {
                        assert(self.games@[a].0@ == before[a].0@);
                        assert(self.games@[b].0@ == before[b].0@);
                    }
                }
            },
            None => {
                let ghost k = key@;
                self.games.push((key, ov));
                proof {
                    let x = self.games@.last();
                    assert(self.games@ =~= before.push(x));
                    lemma_lookup_push(before, x, k);
                    assert forall|q: Seq<char>| q != k implies #[trigger] lookup_game(self.games@, q)
                        == lookup_game(before, q) by {
                        lemma_lookup_push(before, x, q);
                    }
                    lemma_lookup_none(before, k);
                    assert forall|a: int, b: int|
                        keys_distinct(before) && 0 <= a < b < self.games@.len() implies self.games@[a].0@
                        != self.games@[b].0@ by {
                        if b == before.len() {
                            assert(before[a].0@ != k);
                        }
                    }
                }
            },
        }
    }

    /// Find the override for an executable whose lowercase name is `lower`,
    /// checking that name, the name without `.exe` ("game") and the name
    /// with `.exe` ("game.exe").
    pub fn find_lowered_override(&self, lower: &str) -> (r: Option<&GameOverride>)
        ensures
            match r {
                Some(o) => override_in(self.games@, lower@) == Some(*o),
                None => override_in(self.games@, lower@) is None,
            },
    {
        let low = lower.to_owned();
        let ext = to_chars(".exe");
        let stem_chars = trim_end_matches_exec(&to_chars(lower), &ext);
        let stem = string_from_chars(&stem_chars);
        match self.game_index(&low) {
            Some(i) => Some(&self.games[i].1),
            None => match self.game_index(&stem) {
                Some(i) => Some(&self.games[i].1),
                None => {
                    let with_ext = concat3(stem.as_str(), ".exe", "");
                    proof {
                        reveal_strlit("");
                        assert(with_ext@ =~= stem@ + ".exe"@);
                    }
                    match self.game_index(&with_ext) {
                        Some(i) => Some(&self.games[i].1),
                        None => None,
                    }
                },
            },
        }
    }

    /// Find the override for an executable name, checking both "game" and
    /// "game.exe" (case-insensitive).
    pub fn find_game_override(&self, exe_name: &str) -> (r: Option<&GameOverride>)
        ensures
            match r {
                Some(o) => override_for(self.games@, exe_name@) == Some(*o),
                None => override_for(self.games@, exe_name@) is None,
            },
    {
        let lower = lowercase(exe_name);
        self.find_lowered_override(lower.as_str())
    }

    /// Whether an executable whose lowercase name is `lower` is ignored,
    /// given whether its override says `ignore` and the ignore-list entries
    /// lowercased: so if the override says so, or if an entry names it (equal,
    /// or equal once both are stripped of `.exe`).
    pub fn ignored_given(override_ignore: bool, lower: &str, lowered_entries: &Vec<String>) -> (r: bool)
        ensures
            r == (override_ignore || exists|i: int|
                0 <= i < lowered_entries@.len() && #[trigger] lowered_entry_names(
                    lowered_entries@[i]@,
                    lower@,
                )),
    {
        if override_ignore {
            return true;
        }
        let low = lower.to_owned();
        let ext = to_chars(".exe");
        let stem = string_from_chars(&trim_end_matches_exec(&to_chars(lower), &ext));
        let mut i: usize = 0;
        while i < lowered_entries.len()
            invariant
                i <= lowered_entries@.len(),
                low@ == lower@,
                ext@ == ".exe"@,
                stem@ == trim_end_matches(lower@, ".exe"@),
                forall|j: int| 0 <= j < i ==> !#[trigger] lowered_entry_names(lowered_entries@[j]@, lower@),
            decreases lowered_entries@.len() - i,
        {
            let e = &lowered_entries[i];
            let e_stem = string_from_chars(&trim_end_matches_exec(&to_chars(e.as_str()), &ext));
            if *e == low || e_stem == stem {
                assert(lowered_entry_names(lowered_entries@[i as int]@, lower@));
                return true;
            }
            i = i + 1;
        }
        false
    }

    /// Check if a process is ignored: by an override with `ignore`, or by the
    /// ignore list (case-insensitive, with or without `.exe`).
    pub fn is_ignored(&self, exe_name: &str) -> (r: bool)
        ensures
            r == ignored(*self, exe_name@),
    {
        let lower = lowercase(exe_name);
        let override_ignore = match self.find_game_override(lower.as_str()) {
            Some(ov) => ov.ignore,
            None => false,
        };
        let mut lowered: Vec<String> = Vec::new();
        let mut i: usize = 0;
        while i < self.ignored_processes.len()
            invariant
                i <= self.ignored_processes@.len(),
                lowered@.len() == i,
                forall|j: int|
                    0 <= j < i ==> #[trigger] lowered@[j]@ == lowercase_of(self.ignored_processes@[j]@),
            decreases self.ignored_processes@.len() - i,
        {
            lowered.push(lowercase(self.ignored_processes[i].as_str()));
            i = i + 1;
        }
        let r = Self::ignored_given(override_ignore, lower.as_str(), &lowered);
        proof {
            assert forall|j: int| 0 <= j < lowered@.len() implies #[trigger] lowered_entry_names(
                lowered@[j]@,
                lower@,
            ) == ignore_entry_matches(self.ignored_processes@[j]@, exe_name@) by {}
            if r && !override_ignore {
                let j = choose|j: int| 0 <= j < lowered@.len() && #[trigger] lowered_entry_names(
                    lowered@[j]@,
                    lower@,
                );
                assert(ignore_entry_matches(self.ignored_processes@[j]@, exe_name@));
            }
            if !r {
                assert forall|j: int| 0 <= j < self.ignored_processes@.len() implies !#[trigger] ignore_entry_matches(
                    self.ignored_processes@[j]@,
                    exe_name@,
                ) by {
                    assert(!lowered_entry_names(lowered@[j]@, lower@));
                }
            }
        }
        r
    }

    /// Template content for a fresh config file.
    pub fn generate_template() -> (r: &'static str)
        ensures
            r@ == CONFIG_TEMPLATE@,
    {
        CONFIG_TEMPLATE
    }

    /// The configuration directory given what the platform lookup found:
    /// that directory, or `./config` where it found none.
    pub fn config_dir_or_default(found: Option<String>) -> (r: String)
        ensures
            match found {
                Some(d) => r@ == d@,
                None => r@ == "./config"@,
            },
    {
        match found {
            Some(d) => d,
            None => "./config".to_owned(),
        }
    }

    /// The cache directory given what the platform lookup found: that
    /// directory, or `./cache` where it found none.
    pub fn cache_dir_or_default(found: Option<String>) -> (r: String)
        ensures
            match found {
                Some(d) => r@ == d@,
                None => r@ == "./cache"@,
            },
    {
        match found {
            Some(d) => d,
            None => "./cache".to_owned(),
        }
    }

    /// The standard configuration directory of this platform and user, or
    /// `./config` where the platform has none. Where it is found, the
    /// directory holds the application's name.
    pub fn get_config_dir() -> (r: String)
        ensures
            r@ == "./config"@ || contains(r@, APPLICATION@),
    {
        proof {
            reveal_strlit("any-games-discord-rich-presence");
        }
        Self::config_dir_or_default(project_config_dir(QUALIFIER, ORGANIZATION, APPLICATION))
    }

    /// The standard cache directory (for the metadata database), or
    /// `./cache` where the platform has none. Where it is found, the
    /// directory holds the application's name.
    pub fn get_cache_dir() -> (r: String)
        ensures
            r@ == "./cache"@ || contains(r@, APPLICATION@),
    {
        proof {
            reveal_strlit("any-games-discord-rich-presence");
        }
        Self::cache_dir_or_default(project_cache_dir(QUALIFIER, ORGANIZATION, APPLICATION))
    }

    /// The configuration file inside the directory `dir`.
    pub fn config_file_path_in(dir: &str) -> (r: String)
        ensures
            !verbatim_path(dir@) ==> joins(r@, dir@, CONFIG_FILE_NAME@),
            verbatim_path(dir@) ==> verbatim_path(r@),
            ends_with(r@, CONFIG_FILE_NAME@),
    {
        proof {
            reveal_strlit("config.toml");
        }
        path_join(dir, CONFIG_FILE_NAME)
    }

    /// The default configuration file path: `config.toml` inside the
    /// standard configuration directory, so under `./config` or under a
    /// directory that holds the application's name (a Windows verbatim
    /// directory aside, which the join normalizes).
    pub fn get_config_file_path() -> (r: String)
        ensures
            ends_with(r@, CONFIG_FILE_NAME@),
            !verbatim_path(r@) ==> (starts_with(r@, "./config"@) || contains(r@, APPLICATION@)),
    {
        let dir = Self::get_config_dir();
        let r = Self::config_file_path_in(dir.as_str());
        proof {
            reveal_strlit("./config");
            if !verbatim_path(r@) {
                assert(!verbatim_path(dir@));
                if dir@ == "./config"@ {
                    assert(r@.subrange(0, dir@.len() as int) == dir@);
                } else {
                    let i = choose|i: int| occurs_at(dir@, APPLICATION@, i);
                    assert(r@.subrange(0, dir@.len() as int) == dir@);
                    assert(r@.subrange(i, i + APPLICATION@.len()) =~= dir@.subrange(
                        i,
                        i + APPLICATION@.len(),
                    ));
                    assert(occurs_at(r@, APPLICATION@, i));
                }
            }
        }
        r
    }
}

} // verus!

verus! {

/// Executable names are matched case-insensitively: two names with the same
/// lowercase form find the same override and are ignored alike.
pub proof fn lookups_ignore_case(config: AppConfig, a: Seq<char>, b: Seq<char>)
    requires
        lowercase_of(a) == lowercase_of(b),
    ensures
        override_for(config.games@, a) == override_for(config.games@, b),
        ignored(config, a) == ignored(config, b),
{
    let list = config.ignored_processes@;
    if exists|i: int| 0 <= i < list.len() && #[trigger] ignore_entry_matches(list[i]@, a) {
        let i = choose|i: int| 0 <= i < list.len() && #[trigger] ignore_entry_matches(list[i]@, a);
        assert(ignore_entry_matches(list[i]@, b));
    }
    if exists|i: int| 0 <= i < list.len() && #[trigger] ignore_entry_matches(list[i]@, b) {
        let i = choose|i: int| 0 <= i < list.len() && #[trigger] ignore_entry_matches(list[i]@, b);
        assert(ignore_entry_matches(list[i]@, a));
    }
}

/// An override marked `ignore`, stored under the lowercase name of an
/// executable, makes that executable ignored whatever the ignore list says.
pub proof fn ignore_flag_wins(config: AppConfig, exe: Seq<char>, o: GameOverride)
    requires
        override_for(config.games@, lower_name(exe)) == Some(o),
        o.ignore,
    ensures
        ignored(config, exe),
{
}

/// Every entry of the ignore list is ignored, under its own name.
pub proof fn listed_names_are_ignored(config: AppConfig, i: int)
    requires
        0 <= i < config.ignored_processes@.len(),
    ensures
        ignored(config, config.ignored_processes@[i]@),
{
    assert(ignore_entry_matches(config.ignored_processes@[i]@, config.ignored_processes@[i]@));
}

} // verus!

verus! {

/// With no key stored twice, as in a map, the override found under a key is
/// the entry stored under that key, wherever it stands among the entries.
pub proof fn lookup_finds_the_entry(games: Seq<(String, GameOverride)>, i: int)
    requires
        keys_distinct(games),
        0 <= i < games.len(),
    ensures
        lookup_game(games, games[i].0@) == Some(games[i].1),
    decreases i,
{
    if i > 0 {
        let rest = games.drop_first();
        assert(games[0].0@ != games[i].0@);
        assert forall|a: int, b: int| 0 <= a < b < rest.len() implies rest[a].0@ != rest[b].0@ by {
            assert(rest[a] == games[a + 1]);
            assert(rest[b] == games[b + 1]);
        }
        assert(rest[i - 1] == games[i]);
        lookup_finds_the_entry(rest, i - 1);
    }
}

} // verus!

verus! {

/// Looking up a key after an entry is added at the end: the first entry
/// under the key as before, else the added one.
proof fn lemma_lookup_push(games: Seq<(String, GameOverride)>, x: (String, GameOverride), k: Seq<char>)
    ensures
        lookup_game(games.push(x), k) == match lookup_game(games, k) {
            Some(o) => Some(o),
            None => if x.0@ == k {
                Some(x.1)
            } else {
                None
            },
        },
    decreases games.len(),
{
    assert(games.push(x)[0] == if games.len() > 0 { games[0] } else { x });
    if games.len() > 0 {
        lemma_lookup_push(games.drop_first(), x, k);
        assert(games.push(x).drop_first() =~= games.drop_first().push(x));
        assert(lookup_game(games.push(x), k) == if games[0].0@ == k {
            Some(games[0].1)
        } else {
            lookup_game(games.drop_first().push(x), k)
        });
    } else {
        assert(games.push(x).drop_first() =~= Seq::<(String, GameOverride)>::empty());
        assert(lookup_game(games.push(x), k) == if x.0@ == k {
            Some(x.1)
        } else {
            lookup_game(Seq::<(String, GameOverride)>::empty(), k)
        });
    }
}

/// A key found under no entry occurs as no entry's key.
proof fn lemma_lookup_none(games: Seq<(String, GameOverride)>, k: Seq<char>)
    requires
        lookup_game(games, k) is None,
    ensures
        forall|j: int| 0 <= j < games.len() ==> #[trigger] games[j].0@ != k,
    decreases games.len(),
{
    if games.len() > 0 {
        lemma_lookup_none(games.drop_first(), k);
        assert forall|j: int| 0 <= j < games.len() implies #[trigger] games[j].0@ != k by {
            if j > 0 {
                assert(games[j] == games.drop_first()[j - 1]);
            }
        }
    }
}

/// Replacing the first entry under a key by another with the same key:
/// that key finds the new entry, every other key what it found before.
proof fn lemma_lookup_update(
    games: Seq<(String, GameOverride)>,
    i: int,
    x: (String, GameOverride),
    k: Seq<char>,
    q: Seq<char>,
)
    requires
        0 <= i < games.len(),
        games[i].0@ == k,
        x.0@ == k,
        forall|j: int| 0 <= j < i ==> #[trigger] games[j].0@ != k,
    ensures
        lookup_game(games.update(i, x), k) == Some(x.1),
        q != k ==> lookup_game(games.update(i, x), q) == lookup_game(games, q),
    decreases i,
{
    if i > 0 {
        let rest = games.drop_first();
        assert forall|j: int| 0 <= j < i - 1 implies #[trigger] rest[j].0@ != k by {
            assert(rest[j] == games[j + 1]);
        }
        assert(games[0].0@ != k);
        lemma_lookup_update(rest, i - 1, x, k, q);
        assert(games.update(i, x).drop_first() =~= rest.update(i - 1, x));
        assert(games.update(i, x)[0] == games[0]);
    } else {
        assert(games.update(i, x).drop_first() =~= games.drop_first());
        assert(games.update(i, x)[0] == x);
    }
}

} // verus!
