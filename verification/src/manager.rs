//! Deciding what to publish: the Client ID of a game, the presence
//! payload, the daemon's status and its reaction to process events.

use vstd::prelude::*;
use crate::config::{AppConfig, GameOverride, GAME_TITLE_PLACEHOLDER};
use crate::game_db::GameMetadata;
use crate::packet::{ActivityAssets, ActivityButton, ActivityPayload, ActivityTimestamps};
use crate::process::{GameProcess, ProcessEvent};
use crate::text::{
    clone_opt, is_blank, opt_view, replace_all, replace_all_exec, starts_with, string_from_chars,
    to_chars, trim,
};

verus! {

/// The state line of per-game mode when the override sets none.
pub const PER_GAME_DEFAULT_STATE: &'static str = "Reading / In-Game";

/// The override as a value.
pub open spec fn ov_value(ov: Option<&GameOverride>) -> Option<GameOverride> {
    match ov {
        Some(o) => Some(*o),
        None => None,
    }
}

/// A text field of the override, if there is an override and it sets it.
pub open spec fn ov_text(ov: Option<GameOverride>, pick: spec_fn(GameOverride) -> Option<String>) -> Option<
    Seq<char>,
> {
    match ov {
        Some(o) => opt_view(pick(o)),
        None => None,
    }
}

/// `a` if it is set, else `b`.
pub open spec fn or_else(a: Option<Seq<char>>, b: Seq<char>) -> Seq<char> {
    match a {
        Some(x) => x,
        None => b,
    }
}

/// `a` if it is set, else `b`.
pub open spec fn first_set(a: Option<Seq<char>>, b: Option<Seq<char>>) -> Option<Seq<char>> {
    match a {
        Some(x) => Some(x),
        None => b,
    }
}

/// A shared-mode template with the game title filled in.
pub open spec fn fill_template(template: Seq<char>, title: Seq<char>) -> Seq<char> {
    replace_all(template, GAME_TITLE_PLACEHOLDER@, title)
}

/// The details line: in per-game mode the override's, if any; in shared
/// mode the override's, else the details template with the title.
pub open spec fn presence_details(ov: Option<GameOverride>, config: AppConfig, title: Seq<char>, per_game: bool) -> Option<
    Seq<char>,
> {
    if per_game {
        ov_text(ov, |o: GameOverride| o.details)
    } else {
        Some(
            or_else(
                ov_text(ov, |o: GameOverride| o.details),
                fill_template(config.general.shared_details_template@, title),
            ),
        )
    }
}

/// The state line: the override's; otherwise in per-game mode
/// "Reading / In-Game", in shared mode the state template with the title.
pub open spec fn presence_state(ov: Option<GameOverride>, config: AppConfig, title: Seq<char>, per_game: bool) -> Option<
    Seq<char>,
> {
    if per_game {
        Some(or_else(ov_text(ov, |o: GameOverride| o.state), PER_GAME_DEFAULT_STATE@))
    } else {
        Some(
            or_else(
                ov_text(ov, |o: GameOverride| o.state),
                fill_template(config.general.shared_state_template@, title),
            ),
        )
    }
}

/// The buttons the override defines: each of the two whose label and URL
/// are both set, in order.
pub open spec fn presence_buttons(ov: Option<GameOverride>) -> Seq<(Seq<char>, Seq<char>)> {
    match ov {
        None => seq![],
        Some(o) => {
            let first: Seq<(Seq<char>, Seq<char>)> = match (o.button_1_label, o.button_1_url) {
                (Some(l), Some(u)) => seq![(l@, u@)],
                _ => seq![],
            };
            let second: Seq<(Seq<char>, Seq<char>)> = match (o.button_2_label, o.button_2_url) {
                (Some(l), Some(u)) => seq![(l@, u@)],
                _ => seq![],
            };
            first + second
        },
    }
}

/// The views of a list of buttons.
pub open spec fn button_views(b: Seq<ActivityButton>) -> Seq<(Seq<char>, Seq<char>)> {
    b.map_values(|x: ActivityButton| (x.label@, x.url@))
}

/// The payload's timestamps: the process start time if elapsed time is
/// shown.
pub open spec fn presence_timestamps(config: AppConfig, proc: GameProcess) -> Option<ActivityTimestamps> {
    if config.general.show_elapsed_time {
        Some(ActivityTimestamps { start: Some(proc.start_time), end: None })
    } else {
        None
    }
}

/// The payload's assets: the override's art, else the metadata's; the large
/// text is the override's, else the title; none at all without any image.
pub open spec fn assets_match(r: Option<ActivityAssets>, ov: Option<GameOverride>, meta: GameMetadata) -> bool {
    let large = first_set(ov_text(ov, |o: GameOverride| o.image_url), opt_view(meta.image_url));
    let small = first_set(
        ov_text(ov, |o: GameOverride| o.small_image_url),
        opt_view(meta.small_image_url),
    );
    if large is None && small is None {
        r is None
    } else {
        r matches Some(a) && opt_view(a.large_image) == large && opt_view(a.small_image) == small
            && opt_view(a.large_text) == Some(
            or_else(ov_text(ov, |o: GameOverride| o.large_text), meta.display_name@),
        ) && opt_view(a.small_text) == ov_text(ov, |o: GameOverride| o.small_text)
    }
}

/// The payload published for a game.
pub open spec fn payload_matches(
    r: ActivityPayload,
    proc: GameProcess,
    meta: GameMetadata,
    ov: Option<GameOverride>,
    config: AppConfig,
    per_game: bool,
) -> bool {
    &&& opt_view(r.details) == presence_details(ov, config, meta.display_name@, per_game)
    &&& opt_view(r.state) == presence_state(ov, config, meta.display_name@, per_game)
    &&& r.timestamps == presence_timestamps(config, proc)
    &&& assets_match(r.assets, ov, meta)
    &&& (if presence_buttons(ov).len() == 0 {
        r.buttons is None
    } else {
        r.buttons matches Some(b) && button_views(b@) == presence_buttons(ov)
    })
    &&& r.instance == Some(false)
}

/// A copy of the override's text field, if there is an override.
fn pick_text(field: Option<&Option<String>>) -> (r: Option<String>)
    ensures
        match field {
            Some(f) => r == *f,
            None => r is None,
        },
{
    match field {
        Some(f) => clone_opt(f),
        None => None,
    }
}

/// A shared-mode template with the game title filled in.
pub fn fill_template_exec(template: &String, title: &String) -> (r: String)
    ensures
        r@ == fill_template(template@, title@),
{
    let t = to_chars(template.as_str());
    let p = to_chars(GAME_TITLE_PLACEHOLDER);
    proof {
        reveal_strlit("{game_title}");
    }
    let v = to_chars(title.as_str());
    string_from_chars(&replace_all_exec(&t, &p, &v))
}

/// The Rich Presence payload for a game process with its metadata, its
/// override and the configuration, in per-game or shared mode.
pub fn build_activity_payload(
    proc: &GameProcess,
    metadata: &GameMetadata,
    game_ov: Option<&GameOverride>,
    config: &AppConfig,
    is_per_game: bool,
) -> (r: ActivityPayload)
    ensures
        payload_matches(r, *proc, *metadata, ov_value(game_ov), *config, is_per_game),
{
    let ghost ov = ov_value(game_ov);
    let ov_details = pick_text(
        match game_ov {
            Some(o) => Some(&o.details),
            None => None,
        },
    );
    assert(opt_view(ov_details) == ov_text(ov, |o: GameOverride| o.details));
    let ov_state = pick_text(
        match game_ov {
            Some(o) => Some(&o.state),
            None => None,
        },
    );
    assert(opt_view(ov_state) == ov_text(ov, |o: GameOverride| o.state));
    let (details, state) = if is_per_game {
        let s = match ov_state {
            Some(s) => s,
            None => PER_GAME_DEFAULT_STATE.to_owned(),
        };
        (ov_details, Some(s))
    } else {
        let d = match ov_details {
            Some(d) => d,
            None => fill_template_exec(&config.general.shared_details_template, &metadata.display_name),
        };
        let s = match ov_state {
            Some(s) => s,
            None => fill_template_exec(&config.general.shared_state_template, &metadata.display_name),
        };
        (Some(d), Some(s))
    };

    let timestamps = if config.general.show_elapsed_time {
        Some(ActivityTimestamps { start: Some(proc.start_time), end: None })
    } else {
        None
    };

    let large_image = match pick_text(
        match game_ov {
            Some(o) => Some(&o.image_url),
            None => None,
        },
    ) {
        Some(u) => Some(u),
        None => clone_opt(&metadata.image_url),
    };
    assert(opt_view(large_image) == first_set(
        ov_text(ov, |o: GameOverride| o.image_url),
        opt_view(metadata.image_url),
    ));
    let small_image = match pick_text(
        match game_ov {
            Some(o) => Some(&o.small_image_url),
            None => None,
        },
    ) {
        Some(u) => Some(u),
        None => clone_opt(&metadata.small_image_url),
    };
    assert(opt_view(small_image) == first_set(
        ov_text(ov, |o: GameOverride| o.small_image_url),
        opt_view(metadata.small_image_url),
    ));
    let large_text = match pick_text(
        match game_ov {
            Some(o) => Some(&o.large_text),
            None => None,
        },
    ) {
        Some(t) => Some(t),
        None => Some(metadata.display_name.clone()),
    };
    assert(opt_view(large_text) == Some(
        or_else(ov_text(ov, |o: GameOverride| o.large_text), metadata.display_name@),
    ));
    let small_text = pick_text(
        match game_ov {
            Some(o) => Some(&o.small_text),
            None => None,
        },
    );
    assert(opt_view(small_text) == ov_text(ov, |o: GameOverride| o.small_text));

    let assets = if large_image.is_some() || small_image.is_some() {
        Some(ActivityAssets { large_image, large_text, small_image, small_text })
    } else {
        None
    };

    let mut buttons: Vec<ActivityButton> = Vec::new();
    if let Some(o) = game_ov {
        if let (Some(l1), Some(u1)) = (&o.button_1_label, &o.button_1_url) {
            buttons.push(ActivityButton { label: l1.clone(), url: u1.clone() });
        }
        let ghost after_first = button_views(buttons@);
        if let (Some(l2), Some(u2)) = (&o.button_2_label, &o.button_2_url) {
            let ghost before = buttons@;
            buttons.push(ActivityButton { label: l2.clone(), url: u2.clone() });
            assert(button_views(buttons@) =~= button_views(before).push((l2@, u2@)));
        }
        assert(button_views(buttons@) =~= presence_buttons(ov));
    } else {
        assert(button_views(buttons@) =~= presence_buttons(ov));
    }
    let buttons_opt = if buttons.len() > 0 {
        Some(buttons)
    } else {
        None
    };

    ActivityPayload {
        details,
        state,
        timestamps,
        assets,
        buttons: buttons_opt,
        instance: Some(false),
    }
}

} // verus!

verus! {

/// The daemon's status as the tray shows it.
pub struct DaemonStatus {
    pub is_paused: bool,
    pub is_discord_connected: bool,
    pub current_game: Option<String>,
    pub current_client_id: Option<String>,
    pub active_mode: String,
}

/// The Client ID a game is published under, and whether that is per-game
/// mode: the override's Client ID when it is set and not blank, else the
/// shared default.
pub open spec fn target_client(ov: Option<GameOverride>, config: AppConfig) -> (Seq<char>, bool) {
    match ov {
        Some(o) => match o.client_id {
            Some(cid) => if trim(cid@).len() > 0 {
                (cid@, true)
            } else {
                (config.general.default_client_id@, false)
            },
            None => (config.general.default_client_id@, false),
        },
        None => (config.general.default_client_id@, false),
    }
}

/// What is published for a started game once the connection to Discord was
/// attempted: its payload when connected; nothing when the connection
/// failed, so that the game is published on a later attempt.
pub fn payload_after_connect(
    connected: bool,
    proc: &GameProcess,
    metadata: &GameMetadata,
    game_ov: Option<&GameOverride>,
    config: &AppConfig,
    is_per_game: bool,
) -> (r: Option<ActivityPayload>)
    ensures
        connected ==> (r matches Some(a) && payload_matches(
            a,
            *proc,
            *metadata,
            ov_value(game_ov),
            *config,
            is_per_game,
        )),
        !connected ==> r is None,
{
    if connected {
        Some(build_activity_payload(proc, metadata, game_ov, config, is_per_game))
    } else {
        None
    }
}

/// The Client ID to publish a game under, and whether that is per-game mode.
pub fn choose_client_id(game_ov: Option<&GameOverride>, config: &AppConfig) -> (r: (String, bool))
    ensures
        (r.0@, r.1) == target_client(ov_value(game_ov), *config),
{
    if let Some(ov) = game_ov {
        if let Some(cid) = &ov.client_id {
            if !is_blank(cid.as_str()) {
                return (cid.clone(), true);
            }
        }
    }
    (config.general.default_client_id.clone(), false)
}

/// The metadata used when resolution failed: the clean name, no art.
pub fn fallback_metadata(proc: &GameProcess) -> (r: GameMetadata)
    ensures
        r@ == (proc.clean_name@, None::<Seq<char>>, None::<Seq<char>>, "fallback"@),
{
    GameMetadata {
        display_name: proc.clean_name.clone(),
        image_url: None,
        small_image_url: None,
        source: "fallback".to_owned(),
    }
}

/// The status line's mode: "Shared Mode" or "Per-Game Mode" while a game is
/// published (by whether its Client ID is the default), else "Idle".
pub open spec fn mode_of(has_game: bool, client_id: Option<Seq<char>>, default_id: Seq<char>) -> Seq<char> {
    match client_id {
        Some(cid) if has_game => if cid == default_id {
            "Shared Mode"@
        } else {
            "Per-Game Mode"@
        },
        _ => "Idle"@,
    }
}

/// What the manager does about a change of the active game.
pub enum PresenceAction {
    /// Nothing
    Nothing,
    /// Resolve and publish presence for this game
    Publish(GameProcess),
    /// Clear the presence of this game
    Clear(GameProcess),
}

/// The manager's own state: whether it is paused and which game it
/// publishes.
pub struct RpcManager {
    is_paused: bool,
    current_game_proc: Option<GameProcess>,
}

impl RpcManager {
    /// Whether watching is paused.
    pub closed spec fn paused(&self) -> bool {
        self.is_paused
    }

    /// The game whose presence is published.
    pub closed spec fn current(&self) -> Option<GameProcess> {
        self.current_game_proc
    }

    /// A manager that watches and publishes nothing yet.
    pub fn new() -> (r: Self)
        ensures
            !r.paused(),
            r.current() is None,
    {
        RpcManager { is_paused: false, current_game_proc: None }
    }

    /// Pause or resume watching.
    pub fn set_paused(&mut self, paused: bool)
        ensures
            final(self).paused() == paused,
            final(self).current() == old(self).current(),
    {
        self.is_paused = paused;
    }

    /// Whether watching is paused.
    pub fn is_paused(&self) -> (r: bool)
        ensures
            r == self.paused(),
    {
        self.is_paused
    }

    /// Whether a tick scans the process table: only while not paused.
    pub fn should_poll(&self) -> (r: bool)
        ensures
            r == !self.paused(),
    {
        !self.is_paused
    }

    /// React to a change of the active game: a started game, or the new
    /// game of a switch, is published and becomes current; a stopped game
    /// is cleared; a switch to no game clears the current one.
    pub fn on_process_event(&mut self, event: ProcessEvent) -> (r: PresenceAction)
        ensures
            final(self).paused() == old(self).paused(),
            match event {
                ProcessEvent::Started(p) => r == PresenceAction::Publish(p) && final(self).current()
                    == Some(p),
                ProcessEvent::Stopped(p) => r == PresenceAction::Clear(p) && final(self).current() is None,
                ProcessEvent::Changed { previous: _, current: Some(c) } => r == PresenceAction::Publish(
                    c,
                ) && final(self).current() == Some(c),
                ProcessEvent::Changed { previous: _, current: None } => match old(self).current() {
                    Some(prev) => r == PresenceAction::Clear(prev) && final(self).current() is None,
                    None => r == PresenceAction::Nothing && final(self).current() is None,
                },
            },
    {
        match event {
            ProcessEvent::Started(p) => {
                self.current_game_proc = Some(p.clone());
                PresenceAction::Publish(p)
            },
            ProcessEvent::Stopped(p) => {
                self.current_game_proc = None;
                PresenceAction::Clear(p)
            },
            ProcessEvent::Changed { previous: _, current } => match current {
                Some(c) => {
                    self.current_game_proc = Some(c.clone());
                    PresenceAction::Publish(c)
                },
                None => {
                    let prev = self.current_game_proc.take();
                    match prev {
                        Some(p) => PresenceAction::Clear(p),
                        None => PresenceAction::Nothing,
                    }
                },
            },
        }
    }

    /// The daemon's status, given the IPC connection state and the
    /// configured default Client ID.
    pub fn get_status(&self, is_connected: bool, client_id: Option<&str>, default_client_id: &str) -> (r:
        DaemonStatus)
        ensures
            r.is_paused == self.paused(),
            r.is_discord_connected == is_connected,
            opt_view(r.current_game) == match self.current() {
                Some(p) => Some(p.clean_name@),
                None => None,
            },
            opt_view(r.current_client_id) == match client_id {
                Some(c) => Some(c@),
                None => None,
            },
            r.active_mode@ == mode_of(
                self.current() is Some,
                match client_id {
                    Some(c) => Some(c@),
                    None => None,
                },
                default_client_id@,
            ),
    {
        let game_name = match &self.current_game_proc {
            Some(p) => Some(p.clean_name.clone()),
            None => None,
        };
        let cid: Option<String> = match client_id {
            Some(c) => Some(c.to_owned()),
            None => None,
        };
        let active_mode = match client_id {
            Some(c) if self.current_game_proc.is_some() => {
                let a = c.to_owned();
                let b = default_client_id.to_owned();
                if a == b {
                    "Shared Mode".to_owned()
                } else {
                    "Per-Game Mode".to_owned()
                }
            },
            _ => "Idle".to_owned(),
        };
        DaemonStatus {
            is_paused: self.is_paused,
            is_discord_connected: is_connected,
            current_game: game_name,
            current_client_id: cid,
            active_mode,
        }
    }

    /// Shutting down: the game whose presence is to be cleared, if any; no
    /// game is current afterwards.
    pub fn shutdown(&mut self) -> (r: Option<GameProcess>)
        ensures
            r == old(self).current(),
            final(self).current() is None,
            final(self).paused() == old(self).paused(),
    {
        self.current_game_proc.take()
    }
}

} // verus!

verus! {

/// With the default details template (just the placeholder) and no details
/// in an override, shared mode shows the game title as the details line.
pub proof fn shared_mode_details_show_title(ov: Option<GameOverride>, config: AppConfig, title: Seq<char>)
    requires
        config.general.shared_details_template@ == GAME_TITLE_PLACEHOLDER@,
        ov_text(ov, |o: GameOverride| o.details) is None,
    ensures
        presence_details(ov, config, title, false) == Some(title),
{
    reveal_strlit("{game_title}");
    let p = GAME_TITLE_PLACEHOLDER@;
    assert(p.len() == 12);
    assert(starts_with(p, p)) by {
        assert(p.subrange(0, p.len() as int) =~= p);
    }
    assert(p.subrange(p.len() as int, p.len() as int) =~= Seq::<char>::empty());
    assert(replace_all(Seq::<char>::empty(), p, title) == Seq::<char>::empty());
    assert(replace_all(p, p, title) == title + replace_all(Seq::<char>::empty(), p, title));
    assert(title + Seq::<char>::empty() =~= title);
}

/// A Client ID set in a game's override (and not blank) publishes the game
/// in per-game mode under that ID; otherwise the game is published in
/// shared mode under the default ID.
pub proof fn per_game_client_id_wins(o: GameOverride, config: AppConfig)
    ensures
        (o.client_id matches Some(cid) && trim(cid@).len() > 0) ==> target_client(Some(o), config)
            == (o.client_id->0@, true),
        !(o.client_id matches Some(cid) && trim(cid@).len() > 0) ==> target_client(Some(o), config)
            == (config.general.default_client_id@, false),
{
}

} // verus!

verus! {

/// The cover shown by a test presence when none is given.
pub const DEFAULT_TEST_COVER: &'static str = "https://cdn2.steamgriddb.com/grid/6cf6c986c753b879c3886f4a860b86a8.png";

/// The state line of a test presence.
pub const TEST_PRESENCE_STATE: &'static str = "Testing Generic RPC Daemon";

/// The activity of a test presence for `title`, started at `now` (seconds
/// since the Unix epoch), with the given cover or the default one.
pub fn test_presence_activity(title: &str, cover_url: Option<String>, now: u64) -> (r: ActivityPayload)
    ensures
        opt_view(r.details) == Some(title@),
        opt_view(r.state) == Some(TEST_PRESENCE_STATE@),
        r.timestamps == Some(ActivityTimestamps { start: Some(now), end: None }),
        r.assets matches Some(a) && opt_view(a.large_image) == Some(
            match cover_url {
                Some(c) => c@,
                None => DEFAULT_TEST_COVER@,
            },
        ) && opt_view(a.large_text) == Some(title@) && a.small_image is None && a.small_text is None,
        r.buttons is None,
        r.instance == Some(false),
{
    let large_image = match cover_url {
        Some(c) => c,
        None => DEFAULT_TEST_COVER.to_owned(),
    };
    ActivityPayload {
        details: Some(title.to_owned()),
        state: Some(TEST_PRESENCE_STATE.to_owned()),
        timestamps: Some(ActivityTimestamps { start: Some(now), end: None }),
        assets: Some(
            ActivityAssets {
                large_image: Some(large_image),
                large_text: Some(title.to_owned()),
                small_image: None,
                small_text: None,
            },
        ),
        buttons: None,
        instance: Some(false),
    }
}

} // verus!

verus! {

/// The details and state lines an override sets are published exactly as
/// it sets them, in shared and in per-game mode alike. Only a line the
/// override leaves unset comes from elsewhere: in shared mode from its
/// template with every `{game_title}` replaced by the game's title; in
/// per-game mode the state is "Reading / In-Game" and there are no details.
pub proof fn override_lines_are_published(
    a: ActivityPayload,
    proc: GameProcess,
    meta: GameMetadata,
    ov: Option<GameOverride>,
    config: AppConfig,
    per_game: bool,
)
    requires
        payload_matches(a, proc, meta, ov, config, per_game),
    ensures
        ov matches Some(o) ==> (o.state matches Some(st) ==> opt_view(a.state) == Some(st@)),
        ov matches Some(o) ==> (o.details matches Some(d) ==> opt_view(a.details) == Some(d@)),
        (!per_game && !(ov matches Some(o) && o.state is Some)) ==> opt_view(a.state) == Some(
            replace_all(config.general.shared_state_template@, "{game_title}"@, meta.display_name@),
        ),
        (!per_game && !(ov matches Some(o) && o.details is Some)) ==> opt_view(a.details) == Some(
            replace_all(config.general.shared_details_template@, "{game_title}"@, meta.display_name@),
        ),
        (per_game && !(ov matches Some(o) && o.state is Some)) ==> opt_view(a.state) == Some(
            "Reading / In-Game"@,
        ),
        (per_game && !(ov matches Some(o) && o.details is Some)) ==> a.details is None,
{
}

/// The cover published is the override's image when it sets one, else the
/// metadata's; likewise for the small image. The large text is the
/// override's, else the game's title. With no image at all there are no
/// assets. Elapsed time starts at the process's start time when shown.
pub proof fn override_art_is_published(
    a: ActivityPayload,
    proc: GameProcess,
    meta: GameMetadata,
    ov: Option<GameOverride>,
    config: AppConfig,
    per_game: bool,
)
    requires
        payload_matches(a, proc, meta, ov, config, per_game),
    ensures
        ov matches Some(o) ==> (o.image_url matches Some(u) ==> (a.assets matches Some(x)
            && opt_view(x.large_image) == Some(u@))),
        ov matches Some(o) ==> (o.small_image_url matches Some(u) ==> (a.assets matches Some(x)
            && opt_view(x.small_image) == Some(u@))),
        !(ov matches Some(o) && o.image_url is Some) ==> (meta.image_url matches Some(u) ==> (
        a.assets matches Some(x) && opt_view(x.large_image) == Some(u@))),
        a.assets matches Some(x) ==> opt_view(x.large_text) == Some(
            match ov {
                Some(o) => match o.large_text {
                    Some(t) => t@,
                    None => meta.display_name@,
                },
                None => meta.display_name@,
            },
        ),
        (!(ov matches Some(o) && (o.image_url is Some || o.small_image_url is Some))
            && meta.image_url is None && meta.small_image_url is None) ==> a.assets is None,
        config.general.show_elapsed_time ==> a.timestamps == Some(
            ActivityTimestamps { start: Some(proc.start_time), end: None },
        ),
        !config.general.show_elapsed_time ==> a.timestamps is None,
{
}

} // verus!
