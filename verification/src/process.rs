//! Recognising running games in a snapshot of the process table and
//! tracking which one is active.

use vstd::prelude::*;
use crate::config::{override_for, ignored, lookup_game, AppConfig, GameOverride};
use crate::text::{
    ascii_char, ascii_lower, ascii_text, clone_opt, contains, contains_str, ends_with, ends_with_str, lowercase, lowercase_of,
    opt_str_eq, opt_view, string_from_chars, to_chars, trim_end_matches, trim_end_matches_str,
};

verus! {

/// A running process identified as a game.
#[derive(Debug)]
pub struct GameProcess {
    /// Process ID
    pub pid: u32,
    /// Executable name as the system reports it
    pub exe_name: String,
    /// Normalised executable name (see `clean_executable_name`)
    pub clean_name: String,
    /// Full path of the executable, as text, where the system knows it
    pub exe_path: Option<String>,
    /// Start time in seconds since the Unix epoch
    pub start_time: u64,
}

/// One row of the process table as the system reports it.
#[derive(Clone, Debug)]
pub struct ProcessSnapshot {
    /// Process ID
    pub pid: u32,
    /// Executable name
    pub name: String,
    /// Full path of the executable, as text, where known
    pub exe_path: Option<String>,
    /// Start time in seconds since the Unix epoch; 0 where unknown
    pub start_time: u64,
}

/// A change of the active game.
pub enum ProcessEvent {
    /// A game became active while none was
    Started(GameProcess),
    /// The active game is gone and none replaces it
    Stopped(GameProcess),
    /// Another game replaced the active one
    Changed { previous: Option<GameProcess>, current: Option<GameProcess> },
}

/// What a game process is, as plain values: pid, executable name, clean
/// name, path and start time.
pub type GameProcessView = (u32, Seq<char>, Seq<char>, Option<Seq<char>>, u64);

impl View for GameProcess {
    type V = GameProcessView;

    open spec fn view(&self) -> GameProcessView {
        (self.pid, self.exe_name@, self.clean_name@, opt_view(self.exe_path), self.start_time)
    }
}

/// The views of an optional game process.
pub open spec fn opt_proc_view(o: Option<GameProcess>) -> Option<GameProcessView> {
    match o {
        Some(p) => Some(p@),
        None => None,
    }
}

impl Clone for GameProcess {
    fn clone(&self) -> (r: Self)
        ensures
            r == *self,
    {
        GameProcess {
            pid: self.pid,
            exe_name: self.exe_name.clone(),
            clean_name: self.clean_name.clone(),
            exe_path: clone_opt(&self.exe_path),
            start_time: self.start_time,
        }
    }
}

/// A copy of an optional game process.
pub fn clone_opt_proc(o: &Option<GameProcess>) -> (r: Option<GameProcess>)
    ensures
        r == *o,
{
    match o {
        Some(p) => Some(p.clone()),
        None => None,
    }
}

/// Whether two optional game processes are the same (all fields equal).
pub fn same_game(a: &Option<GameProcess>, b: &Option<GameProcess>) -> (r: bool)
    ensures
        r == (opt_proc_view(*a) == opt_proc_view(*b)),
{
    match (a, b) {
        (Some(x), Some(y)) => {
            x.pid == y.pid && x.exe_name == y.exe_name && x.clean_name == y.clean_name
                && opt_str_eq(&x.exe_path, &y.exe_path) && x.start_time == y.start_time
        },
        (None, None) => true,
        _ => false,
    }
}

// ---------------------------------------------------------------------------
// Name normalisation and heuristics
// ---------------------------------------------------------------------------

/// Suffixes that engines attach to executable names, stripped in this order.
pub open spec fn engine_suffixes() -> Seq<Seq<char>> {
    seq![
        "-win64-shipping"@,
        "_win64_shipping"@,
        "-shipping"@,
        "_shipping"@,
        "-x64"@,
        "_x64"@,
        "-x86"@,
        "_x86"@,
        "_dx11"@,
        "_dx12"@,
        "-dx11"@,
        "-dx12"@,
        "_steam"@,
        "-steam"@,
    ]
}

/// `s` with each pattern of `pats` stripped repeatedly from its end, one
/// pattern after the other.
pub open spec fn strip_each(s: Seq<char>, pats: Seq<Seq<char>>) -> Seq<char>
    decreases pats.len(),
{
    if pats.len() == 0 {
        s
    } else {
        strip_each(trim_end_matches(s, pats[0]), pats.drop_first())
    }
}

/// The normalised form of a lowercased executable name: `.exe` removed from
/// its end, then each engine suffix removed from its end in turn.
pub open spec fn clean_lowered(lower: Seq<char>) -> Seq<char> {
    strip_each(trim_end_matches(lower, ".exe"@), engine_suffixes())
}

/// The normalised name of an executable: lowercased, `.exe` removed from
/// its end, then each engine suffix removed from its end in turn.
pub open spec fn clean_name(raw: Seq<char>) -> Seq<char> {
    clean_lowered(lowercase_of(raw))
}

/// Path fragments of game libraries and game directories.
pub open spec fn game_dir_markers() -> Seq<Seq<char>> {
    seq![
        "steamapps\\common"@,
        "steamapps/common"@,
        "epic games"@,
        "gog games"@,
        "ubisoft game launcher\\games"@,
        "ea games"@,
        "xboxgames"@,
        "riot games"@,
        "\\games\\"@,
        "/games/"@,
    ]
}

/// Path fragments of system directories.
pub open spec fn system_dir_markers() -> Seq<Seq<char>> {
    seq![
        "c:\\windows\\system32"@,
        "c:\\windows\\syswow64"@,
        "c:\\windows\\winsxs"@,
        "c:\\windows\\systemapps"@,
        "/usr/lib"@,
        "/usr/bin"@,
        "/system/"@,
    ]
}

/// Some marker of `markers` occurs in `s`.
pub open spec fn contains_any(s: Seq<char>, markers: Seq<Seq<char>>) -> bool {
    exists|i: int| 0 <= i < markers.len() && contains(s, #[trigger] markers[i])
}

/// Whether a (lowercase) path lies in a system directory.
pub open spec fn system_path(path: Seq<char>) -> bool {
    contains_any(path, system_dir_markers())
}

/// Whether an executable is likely a game, given its lowercase name and its
/// lowercase path: the path lies in a game library; otherwise, the name
/// carries an engine's shipping suffix or names Unity's crash handler, and
/// it is no crash handler.
pub open spec fn likely_game_lowered(lower: Seq<char>, path_lower: Option<Seq<char>>) -> bool {
    if path_lower is Some && contains_any(path_lower->0, game_dir_markers()) {
        true
    } else if ends_with(lower, "-win64-shipping.exe"@) || ends_with(lower, "_shipping.exe"@)
        || contains(lower, "unitycrashhandler"@) {
        !contains(lower, "crashhandler"@)
    } else {
        false
    }
}

/// Whether an executable is likely a game: its path (lowercased) lies in a
/// game library; otherwise, its lowercase name carries an engine's shipping
/// suffix or names Unity's crash handler, and it is no crash handler.
pub open spec fn likely_game(exe: Seq<char>, path: Option<Seq<char>>) -> bool {
    likely_game_lowered(
        lowercase_of(exe),
        match path {
            Some(p) => Some(lowercase_of(p)),
            None => None,
        },
    )
}

fn engine_suffix(i: usize) -> (r: &'static str)
    requires
        i < 14,
    ensures
        r@ == engine_suffixes()[i as int],
{
    match i {
        0 => "-win64-shipping",
        1 => "_win64_shipping",
        2 => "-shipping",
        3 => "_shipping",
        4 => "-x64",
        5 => "_x64",
        6 => "-x86",
        7 => "_x86",
        8 => "_dx11",
        9 => "_dx12",
        10 => "-dx11",
        11 => "-dx12",
        12 => "_steam",
        _ => "-steam",
    }
}

proof fn lemma_strip_each_step(s: Seq<char>, pats: Seq<Seq<char>>, i: int)
    requires
        0 <= i < pats.len(),
    ensures
        strip_each(s, pats.subrange(i, pats.len() as int)) == strip_each(
            trim_end_matches(s, pats[i]),
            pats.subrange(i + 1, pats.len() as int),
        ),
{
    assert(pats.subrange(i, pats.len() as int).drop_first() =~= pats.subrange(
        i + 1,
        pats.len() as int,
    ));
}

/// Normalize a lowercased executable name: without `.exe`, `_shipping`,
/// `-win64-shipping`, `_x64`, `_dx12`, `-steam` and the like.
pub fn clean_lowered_name(lower: &str) -> (r: String)
    ensures
        r@ == clean_lowered(lower@),
{
    let mut name = trim_end_matches_str(&to_chars(lower), ".exe");
    let ghost start = name@;
    let mut i: usize = 0;
    assert(engine_suffixes().subrange(0, 14) =~= engine_suffixes());
    while i < 14
        invariant
            i <= 14,
            engine_suffixes().len() == 14,
            strip_each(name@, engine_suffixes().subrange(i as int, 14)) == strip_each(
                start,
                engine_suffixes(),
            ),
        decreases 14 - i,
    {
        proof {
            lemma_strip_each_step(name@, engine_suffixes(), i as int);
        }
        name = trim_end_matches_str(&name, engine_suffix(i));
        i = i + 1;
    }
    assert(engine_suffixes().subrange(14, 14) =~= Seq::<Seq<char>>::empty());
    string_from_chars(&name)
}

/// Clean and normalize an executable name (lowercase, without `.exe`,
/// `_Shipping`, `-Win64-Shipping`, `_x64`, `_DX12`, `-Steam` and the like).
pub fn clean_executable_name(raw: &str) -> (r: String)
    ensures
        r@ == clean_name(raw@),
{
    let lower = lowercase(raw);
    clean_lowered_name(lower.as_str())
}

fn game_dir_marker(i: usize) -> (r: &'static str)
    requires
        i < 10,
    ensures
        r@ == game_dir_markers()[i as int],
{
    match i {
        0 => "steamapps\\common",
        1 => "steamapps/common",
        2 => "epic games",
        3 => "gog games",
        4 => "ubisoft game launcher\\games",
        5 => "ea games",
        6 => "xboxgames",
        7 => "riot games",
        8 => "\\games\\",
        _ => "/games/",
    }
}

fn system_dir_marker(i: usize) -> (r: &'static str)
    requires
        i < 7,
    ensures
        r@ == system_dir_markers()[i as int],
{
    match i {
        0 => "c:\\windows\\system32",
        1 => "c:\\windows\\syswow64",
        2 => "c:\\windows\\winsxs",
        3 => "c:\\windows\\systemapps",
        4 => "/usr/lib",
        5 => "/usr/bin",
        _ => "/system/",
    }
}

/// Whether the path lies in a game library.
fn in_game_dir(path_lower: &Vec<char>) -> (r: bool)
    ensures
        r == contains_any(path_lower@, game_dir_markers()),
{
    let mut i: usize = 0;
    while i < 10
        invariant
            i <= 10,
            game_dir_markers().len() == 10,
            forall|j: int| 0 <= j < i ==> !contains(path_lower@, #[trigger] game_dir_markers()[j]),
        decreases 10 - i,
    {
        if contains_str(path_lower, game_dir_marker(i)) {
            return true;
        }
        i = i + 1;
    }
    false
}

/// Whether a process is likely a game, from its lowercase name and the
/// lowercase text of its path.
pub fn is_likely_game_lowered(lower_name: &str, lower_path: Option<&str>) -> (r: bool)
    ensures
        r == likely_game_lowered(
            lower_name@,
            match lower_path {
                Some(p) => Some(p@),
                None => None,
            },
        ),
{
    let lower = to_chars(lower_name);
    if let Some(path) = lower_path {
        let p = to_chars(path);
        if in_game_dir(&p) {
            return true;
        }
    }
    if ends_with_str(&lower, "-win64-shipping.exe") || ends_with_str(&lower, "_shipping.exe")
        || contains_str(&lower, "unitycrashhandler") {
        return !contains_str(&lower, "crashhandler");
    }
    false
}

/// Heuristically determine if a process is likely a game, from its name and
/// the text of its path.
pub fn is_likely_game(exe_name: &str, exe_path: Option<&str>) -> (r: bool)
    ensures
        r == likely_game(
            exe_name@,
            match exe_path {
                Some(p) => Some(p@),
                None => None,
            },
        ),
{
    let lower = lowercase(exe_name);
    match exe_path {
        Some(path) => {
            let p = lowercase(path);
            is_likely_game_lowered(lower.as_str(), Some(p.as_str()))
        },
        None => is_likely_game_lowered(lower.as_str(), None),
    }
}

/// Check if a (lowercase) path is in a system directory.
pub fn is_system_path(path_str: &str) -> (r: bool)
    ensures
        r == system_path(path_str@),
{
    let p = to_chars(path_str);
    let mut i: usize = 0;
    while i < 7
        invariant
            i <= 7,
            system_dir_markers().len() == 7,
            p@ == path_str@,
            forall|j: int| 0 <= j < i ==> !contains(p@, #[trigger] system_dir_markers()[j]),
        decreases 7 - i,
    {
        if contains_str(&p, system_dir_marker(i)) {
            return true;
        }
        i = i + 1;
    }
    false
}

} // verus!

verus! {

// ---------------------------------------------------------------------------
// Choosing the active game
// ---------------------------------------------------------------------------

/// The process has an explicit override in the configuration.
pub open spec fn explicit(config: AppConfig, p: GameProcess) -> bool {
    override_for(config.games@, p.exe_name@) is Some
}

/// The most recently started process of `s` (among the explicit ones only,
/// if `only_explicit`); of several started at the same second, the last.
pub open spec fn latest(s: Seq<GameProcess>, config: AppConfig, only_explicit: bool) -> Option<
    GameProcess,
>
    decreases s.len(),
{
    if s.len() == 0 {
        None
    } else {
        let prev = latest(s.drop_last(), config, only_explicit);
        let x = s.last();
        if (!only_explicit || explicit(config, x)) && (match prev {
            None => true,
            Some(q) => q.start_time <= x.start_time,
        }) {
            Some(x)
        } else {
            prev
        }
    }
}

/// The game to publish among the candidates: the latest explicitly
/// configured one if there is any, else the latest of all.
pub open spec fn best_game(s: Seq<GameProcess>, config: AppConfig) -> Option<GameProcess> {
    match latest(s, config, true) {
        Some(p) => Some(p),
        None => latest(s, config, false),
    }
}

fn latest_exec(candidates: &Vec<GameProcess>, config: &AppConfig, only_explicit: bool) -> (r:
    Option<GameProcess>)
    ensures
        r == latest(candidates@, *config, only_explicit),
{
    let mut best: Option<GameProcess> = None;
    let mut i: usize = 0;
    assert(candidates@.subrange(0, 0) =~= Seq::<GameProcess>::empty());
    while i < candidates.len()
        invariant
            i <= candidates@.len(),
            best == latest(candidates@.subrange(0, i as int), *config, only_explicit),
        decreases candidates@.len() - i,
    {
        let ghost prefix = candidates@.subrange(0, i + 1);
        assert(prefix.drop_last() =~= candidates@.subrange(0, i as int));
        let p = &candidates[i];
        let keep = !only_explicit || config.find_game_override(p.exe_name.as_str()).is_some();
        let newer = match &best {
            None => true,
            Some(q) => q.start_time <= p.start_time,
        };
        if keep && newer {
            best = Some(p.clone());
        }
        i = i + 1;
    }
    assert(candidates@.subrange(0, candidates@.len() as int) =~= candidates@);
    best
}

/// Select the game to publish: priority to explicitly configured games, then
/// the most recent start time.
pub fn select_best_game(candidates: &Vec<GameProcess>, config: &AppConfig) -> (r: Option<
    GameProcess,
>)
    ensures
        r == best_game(candidates@, *config),
{
    if candidates.len() == 0 {
        return None;
    }
    match latest_exec(candidates, config, true) {
        Some(p) => Some(p),
        None => latest_exec(candidates, config, false),
    }
}

// ---------------------------------------------------------------------------
// Watching the process table
// ---------------------------------------------------------------------------

/// A row of the process table is a game candidate: not ignored, not in a
/// system directory, with a non-empty clean name, and either configured
/// explicitly or likely a game.
pub open spec fn qualifies(config: AppConfig, s: ProcessSnapshot) -> bool {
    &&& !ignored(config, s.name@)
    &&& !(match s.exe_path {
        Some(p) => system_path(lowercase_of(p@)),
        None => false,
    })
    &&& clean_name(s.name@).len() > 0
    &&& (override_for(config.games@, s.name@) is Some || likely_game(s.name@, opt_view(s.exe_path)))
}

/// The candidate a qualifying row becomes; a row without a start time gets
/// the time of the scan.
pub open spec fn candidate_view(s: ProcessSnapshot, now: u64) -> GameProcessView {
    (
        s.pid,
        s.name@,
        clean_name(s.name@),
        opt_view(s.exe_path),
        if s.start_time > 0 {
            s.start_time
        } else {
            now
        },
    )
}

/// The candidates of a snapshot, in the snapshot's order.
pub open spec fn candidate_views(snaps: Seq<ProcessSnapshot>, config: AppConfig, now: u64) -> Seq<
    GameProcessView,
>
    decreases snaps.len(),
{
    if snaps.len() == 0 {
        seq![]
    } else {
        let prev = candidate_views(snaps.drop_last(), config, now);
        if qualifies(config, snaps.last()) {
            prev.push(candidate_view(snaps.last(), now))
        } else {
            prev
        }
    }
}

/// The views of a sequence of game processes.
pub open spec fn proc_views(s: Seq<GameProcess>) -> Seq<GameProcessView> {
    s.map_values(|p: GameProcess| p@)
}

/// The event that reports the active game going from `prev` to `cur`: none
/// if it stayed the same.
pub open spec fn event_for(prev: Option<GameProcess>, cur: Option<GameProcess>) -> Option<
    ProcessEvent,
> {
    if opt_proc_view(prev) == opt_proc_view(cur) {
        None
    } else {
        match (prev, cur) {
            (None, Some(c)) => Some(ProcessEvent::Started(c)),
            (Some(p), None) => Some(ProcessEvent::Stopped(p)),
            _ => Some(ProcessEvent::Changed { previous: prev, current: cur }),
        }
    }
}

/// The candidate a qualifying row becomes.
fn to_candidate(s: &ProcessSnapshot, now: u64) -> (r: GameProcess)
    ensures
        r@ == candidate_view(*s, now),
{
    GameProcess {
        pid: s.pid,
        exe_name: s.name.clone(),
        clean_name: clean_executable_name(s.name.as_str()),
        exe_path: clone_opt(&s.exe_path),
        start_time: if s.start_time > 0 {
            s.start_time
        } else {
            now
        },
    }
}

/// Whether a row of the process table is a game candidate.
pub fn is_candidate(config: &AppConfig, s: &ProcessSnapshot) -> (r: bool)
    ensures
        r == qualifies(*config, *s),
{
    if config.is_ignored(s.name.as_str()) {
        return false;
    }
    if let Some(path) = &s.exe_path {
        let lower = lowercase(path.as_str());
        if is_system_path(lower.as_str()) {
            return false;
        }
    }
    let clean = clean_executable_name(s.name.as_str());
    if clean.as_str().is_empty() {
        return false;
    }
    let is_explicit = config.find_game_override(s.name.as_str()).is_some();
    let path_str: Option<&str> = match &s.exe_path {
        Some(p) => Some(p.as_str()),
        None => None,
    };
    is_explicit || is_likely_game(s.name.as_str(), path_str)
}

/// Tracks the active game across scans of the process table.
pub struct ProcessWatcher {
    /// Currently tracked active game (if any)
    active_game: Option<GameProcess>,
    /// The game candidates found by the last scan
    running_candidates: Vec<GameProcess>,
}

impl ProcessWatcher {
    /// The active game.
    pub closed spec fn active(&self) -> Option<GameProcess> {
        self.active_game
    }

    /// The candidates found by the last scan.
    pub closed spec fn candidates(&self) -> Seq<GameProcess> {
        self.running_candidates@
    }

    /// A watcher that tracks no game yet.
    pub fn new() -> (r: Self)
        ensures
            r.active() is None,
            r.candidates().len() == 0,
    {
        ProcessWatcher { active_game: None, running_candidates: Vec::new() }
    }

    /// Take a scan of the process table (`snapshot`, taken at `now`) and
    /// return the change in the active game, if any.
    pub fn poll(&mut self, snapshot: &Vec<ProcessSnapshot>, now: u64, config: &AppConfig) -> (r:
        Option<ProcessEvent>)
        ensures
            proc_views(final(self).candidates()) == candidate_views(snapshot@, *config, now),
            final(self).active() == best_game(final(self).candidates(), *config),
            r == event_for(old(self).active(), final(self).active()),
    {
        let mut current: Vec<GameProcess> = Vec::new();
        let mut i: usize = 0;
        assert(snapshot@.subrange(0, 0) =~= Seq::<ProcessSnapshot>::empty());
        assert(proc_views(current@) =~= Seq::<GameProcessView>::empty());
        while i < snapshot.len()
            invariant
                i <= snapshot@.len(),
                proc_views(current@) == candidate_views(
                    snapshot@.subrange(0, i as int),
                    *config,
                    now,
                ),
            decreases snapshot@.len() - i,
        {
            let ghost prefix = snapshot@.subrange(0, i + 1);
            assert(prefix.drop_last() =~= snapshot@.subrange(0, i as int));
            let s = &snapshot[i];
            if is_candidate(config, s) {
                let ghost before = current@;
                let c = to_candidate(s, now);
                current.push(c);
                assert(proc_views(current@) =~= proc_views(before).push(c@));
            }
            i = i + 1;
        }
        assert(snapshot@.subrange(0, snapshot@.len() as int) =~= snapshot@);
        let best = select_best_game(&current, config);
        let event = if !same_game(&self.active_game, &best) {
            let prev = clone_opt_proc(&self.active_game);
            self.active_game = clone_opt_proc(&best);
            match (prev, best) {
                (None, Some(curr)) => Some(ProcessEvent::Started(curr)),
                (Some(p), None) => Some(ProcessEvent::Stopped(p)),
                (p, c) => Some(ProcessEvent::Changed { previous: p, current: c }),
            }
        } else {
            self.active_game = best;
            None
        };
        self.running_candidates = current;
        event
    }

    /// The active game, if any.
    pub fn current_active_game(&self) -> (r: Option<&GameProcess>)
        ensures
            match r {
                Some(p) => self.active() == Some(*p),
                None => self.active() is None,
            },
    {
        match &self.active_game {
            Some(p) => Some(p),
            None => None,
        }
    }
}

} // verus!

verus! {

// ---------------------------------------------------------------------------
// Listing candidates by name
// ---------------------------------------------------------------------------

/// `a` comes no later than `b` in lexicographic order of characters.
pub open spec fn lex_le(a: Seq<char>, b: Seq<char>) -> bool
    decreases a.len(),
{
    if a.len() == 0 {
        true
    } else if b.len() == 0 {
        false
    } else if a[0] != b[0] {
        a[0] < b[0]
    } else {
        lex_le(a.drop_first(), b.drop_first())
    }
}

proof fn lemma_lex_total(a: Seq<char>, b: Seq<char>)
    ensures
        lex_le(a, b) || lex_le(b, a),
    decreases a.len(),
{
    if a.len() > 0 && b.len() > 0 && a[0] == b[0] {
        lemma_lex_total(a.drop_first(), b.drop_first());
    }
}

proof fn lemma_lex_trans(a: Seq<char>, b: Seq<char>, c: Seq<char>)
    requires
        lex_le(a, b),
        lex_le(b, c),
    ensures
        lex_le(a, c),
    decreases a.len(),
{
    if a.len() > 0 && b.len() > 0 && c.len() > 0 && a[0] == b[0] && b[0] == c[0] {
        lemma_lex_trans(a.drop_first(), b.drop_first(), c.drop_first());
    }
}

/// Whether `a` comes no later than `b`.
fn lex_le_exec(a: &String, b: &String) -> (r: bool)
    ensures
        r == lex_le(a@, b@),
{
    let x = to_chars(a.as_str());
    let y = to_chars(b.as_str());
    let mut i: usize = 0;
    assert(x@.subrange(0, x@.len() as int) =~= x@);
    assert(y@.subrange(0, y@.len() as int) =~= y@);
    while i < x.len() && i < y.len() && x[i] == y[i]
        invariant
            i <= x@.len(),
            i <= y@.len(),
            lex_le(x@.subrange(i as int, x@.len() as int), y@.subrange(i as int, y@.len() as int))
                == lex_le(x@, y@),
        decreases x@.len() - i,
    {
        assert(x@.subrange(i as int, x@.len() as int).drop_first() =~= x@.subrange(
            i + 1,
            x@.len() as int,
        ));
        assert(y@.subrange(i as int, y@.len() as int).drop_first() =~= y@.subrange(
            i + 1,
            y@.len() as int,
        ));
        i = i + 1;
    }
    if i == x.len() {
        true
    } else if i == y.len() {
        false
    } else {
        x[i] < y[i]
    }
}

/// The candidates are listed by clean name.
pub open spec fn sorted_by_clean_name(s: Seq<GameProcess>) -> bool {
    forall|i: int, j: int| 0 <= i < j < s.len() ==> lex_le(#[trigger] s[i].clean_name@, #[trigger] s[j].clean_name@)
}

fn sorted_by_name(v: &Vec<GameProcess>) -> (r: Vec<GameProcess>)
    ensures
        r@.to_multiset() == v@.to_multiset(),
        sorted_by_clean_name(r@),
{
    broadcast use vstd::seq_lib::group_to_multiset_ensures;

    let mut out: Vec<GameProcess> = Vec::new();
    let mut i: usize = 0;
    assert(v@.subrange(0, 0) =~= Seq::<GameProcess>::empty());
    while i < v.len()
        invariant
            i <= v@.len(),
            out@.to_multiset() == v@.subrange(0, i as int).to_multiset(),
            sorted_by_clean_name(out@),
        decreases v@.len() - i,
    {
        let c = v[i].clone();
        let mut pos: usize = 0;
        while pos < out.len() && lex_le_exec(&out[pos].clean_name, &c.clean_name)
            invariant
                pos <= out@.len(),
                forall|k: int| 0 <= k < pos ==> lex_le(#[trigger] out@[k].clean_name@, c.clean_name@),
            decreases out@.len() - pos,
        {
            pos = pos + 1;
        }
        proof {
            if pos < out@.len() {
                lemma_lex_total(out@[pos as int].clean_name@, c.clean_name@);
                assert forall|k: int| pos <= k < out@.len() implies lex_le(
                    c.clean_name@,
                    #[trigger] out@[k].clean_name@,
                ) by {
                    if k > pos {
                        lemma_lex_trans(
                            c.clean_name@,
                            out@[pos as int].clean_name@,
                            out@[k].clean_name@,
                        );
                    }
                }
            }
        }
        let ghost old_out = out@;
        out.insert(pos, c);
        proof {
            old_out.insert_ensures(pos as int, v@[i as int]);
            assert(out@.remove(pos as int) =~= old_out);
            assert(out@[pos as int] == v@[i as int]);
            out@.to_multiset_ensures();
            old_out.to_multiset_ensures();
            assert(out@.remove(pos as int).to_multiset() =~= out@.to_multiset().remove(out@[pos as int]));
            assert(out@.contains(v@[i as int]));
            assert(out@.to_multiset().count(v@[i as int]) > 0);
            assert(out@.to_multiset() =~= old_out.to_multiset().insert(v@[i as int]));
            assert(v@.subrange(0, i + 1) =~= v@.subrange(0, i as int).push(v@[i as int]));
            v@.subrange(0, i as int).to_multiset_ensures();
            assert(v@.subrange(0, i as int).push(v@[i as int]).to_multiset() =~= v@.subrange(
                0,
                i as int,
            ).to_multiset().insert(v@[i as int]));
            assert forall|a: int, b: int| 0 <= a < b < out@.len() implies lex_le(
                #[trigger] out@[a].clean_name@,
                #[trigger] out@[b].clean_name@,
            ) by {
                if a < pos && b < pos {
                } else if a < pos && b == pos {
                } else if a < pos && b > pos {
                    lemma_lex_trans(out@[a].clean_name@, c.clean_name@, out@[b].clean_name@);
                } else if a == pos {
                } else {
                    assert(out@[a] == old_out[a - 1]);
                    assert(out@[b] == old_out[b - 1]);
                }
            }
        }
        i = i + 1;
    }
    assert(v@.subrange(0, v@.len() as int) =~= v@);
    out
}

impl ProcessWatcher {
    /// Scan the process table and list all game candidates by clean name
    /// (for diagnostics).
    pub fn scan_all_candidates(&mut self, snapshot: &Vec<ProcessSnapshot>, now: u64, config: &AppConfig) -> (r:
        Vec<GameProcess>)
        ensures
            proc_views(final(self).candidates()) == candidate_views(snapshot@, *config, now),
            final(self).active() == best_game(final(self).candidates(), *config),
            r@.to_multiset() == final(self).candidates().to_multiset(),
            sorted_by_clean_name(r@),
    {
        self.poll(snapshot, now, config);
        sorted_by_name(&self.running_candidates)
    }
}

} // verus!

verus! {

proof fn lemma_latest(s: Seq<GameProcess>, config: AppConfig, only_explicit: bool)
    ensures
        latest(s, config, only_explicit) matches Some(p) ==> {
            &&& s.contains(p)
            &&& (!only_explicit || explicit(config, p))
            &&& forall|i: int|
                0 <= i < s.len() && (!only_explicit || explicit(config, #[trigger] s[i]))
                    ==> s[i].start_time <= p.start_time
        },
        latest(s, config, only_explicit) is None ==> forall|i: int|
            0 <= i < s.len() ==> only_explicit && !explicit(config, #[trigger] s[i]),
    decreases s.len(),
{
    if s.len() > 0 {
        let prefix = s.drop_last();
        lemma_latest(prefix, config, only_explicit);
        assert forall|i: int| 0 <= i < s.len() - 1 implies #[trigger] s[i] == prefix[i] by {}
        if let Some(p) = latest(s, config, only_explicit) {
            if p == s.last() {
                assert(s[s.len() - 1] == p);
            } else {
                let k = choose|k: int| 0 <= k < prefix.len() && prefix[k] == p;
                assert(s[k] == p);
            }
        }
    }
}

/// The game chosen among the candidates is one of them; if any candidate is
/// configured explicitly, it is an explicitly configured one started no
/// earlier than any other explicitly configured one; otherwise it was
/// started no earlier than any candidate. Without candidates none is chosen.
pub proof fn best_game_prefers_explicit(s: Seq<GameProcess>, config: AppConfig)
    ensures
        s.len() == 0 ==> best_game(s, config) is None,
        (exists|i: int| 0 <= i < s.len() && explicit(config, #[trigger] s[i])) ==> (best_game(
            s,
            config,
        ) matches Some(p) && s.contains(p) && explicit(config, p) && forall|j: int|
            0 <= j < s.len() && explicit(config, #[trigger] s[j]) ==> s[j].start_time
                <= p.start_time),
        (s.len() > 0 && !exists|i: int| 0 <= i < s.len() && explicit(config, #[trigger] s[i]))
            ==> (best_game(s, config) matches Some(p) && s.contains(p) && forall|j: int|
            0 <= j < s.len() ==> #[trigger] s[j].start_time <= p.start_time),
{
    lemma_latest(s, config, true);
    lemma_latest(s, config, false);
    if exists|i: int| 0 <= i < s.len() && explicit(config, #[trigger] s[i]) {
        let i = choose|i: int| 0 <= i < s.len() && explicit(config, #[trigger] s[i]);
        assert(latest(s, config, true) is Some);
    }
    if s.len() > 0 && latest(s, config, false) is None {
        // the first candidate would have to be excluded, which only the
        // explicit-only search does
        assert(!explicit(config, s[0]));
    }
}

proof fn lemma_latest_views(s1: Seq<GameProcess>, s2: Seq<GameProcess>, config: AppConfig, only_explicit: bool)
    requires
        proc_views(s1) == proc_views(s2),
    ensures
        opt_proc_view(latest(s1, config, only_explicit)) == opt_proc_view(
            latest(s2, config, only_explicit),
        ),
    decreases s1.len(),
{
    assert(s1.len() == proc_views(s1).len());
    assert(s2.len() == proc_views(s2).len());
    if s1.len() > 0 {
        assert(proc_views(s1.drop_last()) =~= proc_views(s1).drop_last());
        assert(proc_views(s2.drop_last()) =~= proc_views(s2).drop_last());
        lemma_latest_views(s1.drop_last(), s2.drop_last(), config, only_explicit);
        assert(proc_views(s1)[s1.len() - 1] == s1.last()@);
        assert(proc_views(s2)[s2.len() - 1] == s2.last()@);
    }
}

/// Polling again on the same snapshot of the process table reports
/// nothing: candidates that are the same yield the same chosen game, so the
/// active game does not change.
pub proof fn polling_again_reports_nothing(c1: Seq<GameProcess>, c2: Seq<GameProcess>, config: AppConfig)
    requires
        proc_views(c1) == proc_views(c2),
    ensures
        opt_proc_view(best_game(c1, config)) == opt_proc_view(best_game(c2, config)),
        event_for(best_game(c1, config), best_game(c2, config)) is None,
{
    lemma_latest_views(c1, c2, config, true);
    lemma_latest_views(c1, c2, config, false);
}

} // verus!

verus! {

/// Every candidate's process ID is that of a row of the snapshot.
proof fn lemma_candidate_pids_from(snaps: Seq<ProcessSnapshot>, config: AppConfig, now: u64)
    ensures
        forall|i: int|
            0 <= i < candidate_views(snaps, config, now).len() ==> exists|k: int|
                0 <= k < snaps.len() && snaps[k].pid == (#[trigger] candidate_views(snaps, config, now)[i]).0,
    decreases snaps.len(),
{
    if snaps.len() > 0 {
        let init = snaps.drop_last();
        lemma_candidate_pids_from(init, config, now);
        let cv = candidate_views(snaps, config, now);
        let prev = candidate_views(init, config, now);
        assert forall|i: int| 0 <= i < cv.len() implies exists|k: int|
            0 <= k < snaps.len() && snaps[k].pid == (#[trigger] cv[i]).0 by {
            if i < prev.len() {
                assert(cv[i] == prev[i]);
                let k = choose|k: int| 0 <= k < init.len() && init[k].pid == prev[i].0;
                assert(snaps[k] == init[k]);
            } else {
                assert(snaps[snaps.len() - 1].pid == cv[i].0);
            }
        }
    }
}

/// The candidates of a snapshot in which no process ID occurs twice (as the
/// system's process table has it) hold no process ID twice either: like a
/// map keyed by process ID.
pub proof fn candidate_pids_are_distinct(snaps: Seq<ProcessSnapshot>, config: AppConfig, now: u64)
    requires
        forall|i: int, j: int| 0 <= i < j < snaps.len() ==> snaps[i].pid != snaps[j].pid,
    ensures
        forall|i: int, j: int|
            0 <= i < j < candidate_views(snaps, config, now).len() ==> candidate_views(snaps, config, now)[i].0
                != candidate_views(snaps, config, now)[j].0,
    decreases snaps.len(),
{
    if snaps.len() > 0 {
        let init = snaps.drop_last();
        assert forall|i: int, j: int| 0 <= i < j < init.len() implies init[i].pid != init[j].pid by {
            assert(init[i] == snaps[i]);
            assert(init[j] == snaps[j]);
        }
        candidate_pids_are_distinct(init, config, now);
        lemma_candidate_pids_from(init, config, now);
        let cv = candidate_views(snaps, config, now);
        let prev = candidate_views(init, config, now);
        assert forall|i: int, j: int| 0 <= i < j < cv.len() implies cv[i].0 != cv[j].0 by {
            if j < prev.len() {
                assert(cv[i] == prev[i]);
                assert(cv[j] == prev[j]);
            } else {
                assert(cv[i] == prev[i]);
                assert(cv[j].0 == snaps.last().pid);
                let k = choose|k: int| 0 <= k < init.len() && init[k].pid == (#[trigger] prev[i]).0;
                assert(init[k] == snaps[k]);
            }
        }
    }
}

} // verus!

verus! {

/// Some override is stored under `key`: it is found.
proof fn lemma_stored_key_found(games: Seq<(String, GameOverride)>, key: Seq<char>, i: int)
    requires
        0 <= i < games.len(),
        games[i].0@ == key,
    ensures
        lookup_game(games, key) is Some,
    decreases i,
{
    if i > 0 && games[0].0@ != key {
        assert(games.drop_first()[i - 1] == games[i]);
        lemma_stored_key_found(games.drop_first(), key, i - 1);
    }
}

/// A process whose executable has an override in the configuration (stored
/// under its lowercase name) is a candidate, whatever its path and name look
/// like, as long as it is not ignored, not in a system directory and its
/// clean name is not empty.
pub proof fn configured_games_are_candidates(config: AppConfig, s: ProcessSnapshot, i: int)
    requires
        0 <= i < config.games@.len(),
        config.games@[i].0@ == lowercase_of(s.name@),
        !ignored(config, s.name@),
        s.exe_path matches Some(p) ==> !system_path(lowercase_of(p@)),
        clean_name(s.name@).len() > 0,
    ensures
        qualifies(config, s),
{
    lemma_stored_key_found(config.games@, lowercase_of(s.name@), i);
}

/// An executable whose path, lowercased, lies in a game library (Steam's
/// `steamapps\common`, Epic Games, GOG Games, Ubisoft's games, EA Games,
/// Xbox games, Riot Games, or any `games` directory) is likely a game,
/// whatever its name.
pub proof fn library_paths_hold_games(exe: Seq<char>, path: Seq<char>)
    requires
        ({
            let p = lowercase_of(path);
            ||| contains(p, "steamapps\\common"@)
            ||| contains(p, "steamapps/common"@)
            ||| contains(p, "epic games"@)
            ||| contains(p, "gog games"@)
            ||| contains(p, "ubisoft game launcher\\games"@)
            ||| contains(p, "ea games"@)
            ||| contains(p, "xboxgames"@)
            ||| contains(p, "riot games"@)
            ||| contains(p, "\\games\\"@)
            ||| contains(p, "/games/"@)
        }),
    ensures
        likely_game(exe, Some(path)),
{
    let m = game_dir_markers();
    assert(m[0] == "steamapps\\common"@);
    assert(m[1] == "steamapps/common"@);
    assert(m[2] == "epic games"@);
    assert(m[3] == "gog games"@);
    assert(m[4] == "ubisoft game launcher\\games"@);
    assert(m[5] == "ea games"@);
    assert(m[6] == "xboxgames"@);
    assert(m[7] == "riot games"@);
    assert(m[8] == "\\games\\"@);
    assert(m[9] == "/games/"@);
}

/// A character that ends one of the engine suffixes.
pub open spec fn ends_an_engine_suffix(c: char) -> bool {
    c == 'g' || c == '4' || c == '6' || c == '1' || c == '2' || c == 'm'
}

proof fn lemma_not_ends_at(x: Seq<char>, p: Seq<char>, t: int)
    requires
        0 <= t < p.len(),
        t < x.len(),
        x[x.len() - 1 - t] != p[p.len() - 1 - t],
    ensures
        !ends_with(x, p),
{
    if ends_with(x, p) {
        assert(x.subrange(x.len() - p.len(), x.len() as int)[p.len() - 1 - t] == x[x.len() - 1 - t]);
    }
}

proof fn lemma_suffix_shapes(j: int)
    requires
        0 <= j < 14,
    ensures
        engine_suffixes()[j].len() >= 4,
        ends_an_engine_suffix(engine_suffixes()[j].last()),
        engine_suffixes()[j].last() != 'e',
        forall|i: int|
            0 <= i < engine_suffixes()[j].len() ==> {
                let c = #[trigger] engine_suffixes()[j][i];
                ascii_char(c) && ascii_lower(c) == c
            },
{
    reveal_strlit("-win64-shipping");
    reveal_strlit("_win64_shipping");
    reveal_strlit("-shipping");
    reveal_strlit("_shipping");
    reveal_strlit("-x64");
    reveal_strlit("_x64");
    reveal_strlit("-x86");
    reveal_strlit("_x86");
    reveal_strlit("_dx11");
    reveal_strlit("_dx12");
    reveal_strlit("-dx11");
    reveal_strlit("-dx12");
    reveal_strlit("_steam");
    reveal_strlit("-steam");
}

/// An earlier engine suffix does not end a word followed by a later one.
proof fn lemma_no_earlier_suffix(lw: Seq<char>, j: int, k: int)
    requires
        0 <= j < k < 14,
        lw.len() == 0 || !ends_an_engine_suffix(lw.last()),
    ensures
        !ends_with(lw + engine_suffixes()[k], engine_suffixes()[j]),
{
    reveal_strlit("-win64-shipping");
    reveal_strlit("_win64_shipping");
    reveal_strlit("-shipping");
    reveal_strlit("_shipping");
    reveal_strlit("-x64");
    reveal_strlit("_x64");
    reveal_strlit("-x86");
    reveal_strlit("_x86");
    reveal_strlit("_dx11");
    reveal_strlit("_dx12");
    reveal_strlit("-dx11");
    reveal_strlit("-dx12");
    reveal_strlit("_steam");
    reveal_strlit("-steam");
    let sj = engine_suffixes()[j];
    let sk = engine_suffixes()[k];
    let x = lw + sk;
    lemma_suffix_shapes(j);
    lemma_suffix_shapes(k);
    assert(x.last() == sk.last());
    assert forall|t: int| 0 <= t < sk.len() implies #[trigger] x[x.len() - 1 - t] == sk[sk.len() - 1 - t] by {}
    if lw.len() > 0 {
        assert(x[x.len() - 1 - sk.len()] == lw.last());
    }
    if sj.len() > x.len() {
    } else if sj.last() != sk.last() {
        lemma_not_ends_at(x, sj, 0);
    } else if j == 0 && k == 1 {
        if x.len() > 8 {
            lemma_not_ends_at(x, sj, 8);
        }
    } else if j == 0 && k == 2 {
        if x.len() > 9 {
            lemma_not_ends_at(x, sj, 9);
        }
    } else if j == 0 && k == 3 {
        if x.len() > 8 {
            lemma_not_ends_at(x, sj, 8);
        }
    } else if j == 1 && k == 2 {
        if x.len() > 8 {
            lemma_not_ends_at(x, sj, 8);
        }
    } else if j == 1 && k == 3 {
        if x.len() > 9 {
            lemma_not_ends_at(x, sj, 9);
        }
    } else if j == 2 && k == 3 {
        if x.len() > 8 {
            lemma_not_ends_at(x, sj, 8);
        }
    } else if j == 4 && k == 5 {
        if x.len() > 3 {
            lemma_not_ends_at(x, sj, 3);
        }
    } else if j == 6 && k == 7 {
        if x.len() > 3 {
            lemma_not_ends_at(x, sj, 3);
        }
    } else if j == 8 && k == 10 {
        if x.len() > 4 {
            lemma_not_ends_at(x, sj, 4);
        }
    } else if j == 9 && k == 11 {
        if x.len() > 4 {
            lemma_not_ends_at(x, sj, 4);
        }
    } else if j == 12 && k == 13 {
        if x.len() > 5 {
            lemma_not_ends_at(x, sj, 5);
        }
    } else {
        assert(false);
    }
}

/// Stripping the engine suffixes from position `j` of their list on, from a
/// word followed by suffix `k` (while `j <= k`) or from the word alone
/// (once `j > k`), leaves the word.
proof fn lemma_strip_from(x: Seq<char>, lw: Seq<char>, k: int, j: int)
    requires
        0 <= k < 14,
        0 <= j <= 14,
        lw.len() == 0 || !ends_an_engine_suffix(lw.last()),
        j <= k ==> x == lw + engine_suffixes()[k],
        j > k ==> x == lw,
    ensures
        strip_each(x, engine_suffixes().subrange(j, 14)) == lw,
    decreases 14 - j,
{
    let pats = engine_suffixes().subrange(j, 14);
    if j == 14 {
        assert(pats.len() == 0);
    } else {
        assert(pats[0] == engine_suffixes()[j]);
        assert(pats.drop_first() =~= engine_suffixes().subrange(j + 1, 14));
        let sj = engine_suffixes()[j];
        lemma_suffix_shapes(j);
        if j < k {
            lemma_no_earlier_suffix(lw, j, k);
            assert(trim_end_matches(x, sj) == x);
            lemma_strip_from(x, lw, k, j + 1);
        } else {
            if lw.len() > 0 {
                lemma_not_ends_at(lw, sj, 0);
            }
            assert(trim_end_matches(lw, sj) == lw);
            if j == k {
                assert(x.subrange(x.len() - sj.len(), x.len() as int) =~= sj);
                assert(x.subrange(0, x.len() - sj.len()) =~= lw);
                assert(trim_end_matches(x, sj) == trim_end_matches(lw, sj));
            }
            lemma_strip_from(lw, lw, k, j + 1);
        }
    }
}

proof fn lemma_clean_with_suffix(w: Seq<char>, k: int)
    requires
        0 <= k < 14,
        ascii_text(w),
        w.len() == 0 || !ends_an_engine_suffix(ascii_lower(w.last())),
    ensures
        clean_name(w + engine_suffixes()[k] + ".exe"@) == lowercase_of(w),
{
    reveal_strlit(".exe");
    let sk = engine_suffixes()[k];
    lemma_suffix_shapes(k);
    let raw = w + sk + ".exe"@;
    let lw = lowercase_of(w);
    assert(ascii_text(raw)) by {
        assert forall|i: int| 0 <= i < raw.len() implies ascii_char(#[trigger] raw[i]) by {
            if i < w.len() {
                assert(raw[i] == w[i]);
            } else if i < w.len() + sk.len() {
                assert(raw[i] == sk[i - w.len()]);
            }
        }
    }
    let l = lowercase_of(raw);
    assert(l =~= lw + sk + ".exe"@) by {
        assert forall|i: int| 0 <= i < l.len() implies #[trigger] l[i] == (lw + sk + ".exe"@)[i] by {
            if i < w.len() {
                assert(raw[i] == w[i]);
            } else if i < w.len() + sk.len() {
                assert(raw[i] == sk[i - w.len()]);
            }
        }
    }
    let ls = lw + sk;
    assert(l.subrange(l.len() - 4, l.len() as int) =~= ".exe"@);
    assert(l.subrange(0, l.len() - 4) =~= ls);
    assert(ls.last() == sk.last());
    lemma_not_ends_at(ls, ".exe"@, 0);
    assert(trim_end_matches(ls, ".exe"@) == ls);
    assert(trim_end_matches(l, ".exe"@) == ls);
    if w.len() > 0 {
        assert(lw.last() == ascii_lower(w.last()));
    }
    lemma_strip_from(ls, lw, k, 0);
    assert(engine_suffixes().subrange(0, 14) =~= engine_suffixes());
}

/// A name made of a word followed by one of the engine suffixes and `.exe`
/// cleans to the word lowercased, whatever the case of the name, for a word
/// (of ASCII characters) that does not itself end the way an engine suffix
/// does.
pub proof fn engine_suffixes_are_stripped(w: Seq<char>)
    requires
        ascii_text(w),
        w.len() == 0 || !ends_an_engine_suffix(ascii_lower(w.last())),
    ensures
        clean_name(w + "-win64-shipping"@ + ".exe"@) == lowercase_of(w),
        clean_name(w + "_win64_shipping"@ + ".exe"@) == lowercase_of(w),
        clean_name(w + "-shipping"@ + ".exe"@) == lowercase_of(w),
        clean_name(w + "_shipping"@ + ".exe"@) == lowercase_of(w),
        clean_name(w + "-x64"@ + ".exe"@) == lowercase_of(w),
        clean_name(w + "_x64"@ + ".exe"@) == lowercase_of(w),
        clean_name(w + "-x86"@ + ".exe"@) == lowercase_of(w),
        clean_name(w + "_x86"@ + ".exe"@) == lowercase_of(w),
        clean_name(w + "_dx11"@ + ".exe"@) == lowercase_of(w),
        clean_name(w + "_dx12"@ + ".exe"@) == lowercase_of(w),
        clean_name(w + "-dx11"@ + ".exe"@) == lowercase_of(w),
        clean_name(w + "-dx12"@ + ".exe"@) == lowercase_of(w),
        clean_name(w + "_steam"@ + ".exe"@) == lowercase_of(w),
        clean_name(w + "-steam"@ + ".exe"@) == lowercase_of(w),
{
    assert(engine_suffixes()[0] == "-win64-shipping"@);
    lemma_clean_with_suffix(w, 0);
    assert(engine_suffixes()[1] == "_win64_shipping"@);
    lemma_clean_with_suffix(w, 1);
    assert(engine_suffixes()[2] == "-shipping"@);
    lemma_clean_with_suffix(w, 2);
    assert(engine_suffixes()[3] == "_shipping"@);
    lemma_clean_with_suffix(w, 3);
    assert(engine_suffixes()[4] == "-x64"@);
    lemma_clean_with_suffix(w, 4);
    assert(engine_suffixes()[5] == "_x64"@);
    lemma_clean_with_suffix(w, 5);
    assert(engine_suffixes()[6] == "-x86"@);
    lemma_clean_with_suffix(w, 6);
    assert(engine_suffixes()[7] == "_x86"@);
    lemma_clean_with_suffix(w, 7);
    assert(engine_suffixes()[8] == "_dx11"@);
    lemma_clean_with_suffix(w, 8);
    assert(engine_suffixes()[9] == "_dx12"@);
    lemma_clean_with_suffix(w, 9);
    assert(engine_suffixes()[10] == "-dx11"@);
    lemma_clean_with_suffix(w, 10);
    assert(engine_suffixes()[11] == "-dx12"@);
    lemma_clean_with_suffix(w, 11);
    assert(engine_suffixes()[12] == "_steam"@);
    lemma_clean_with_suffix(w, 12);
    assert(engine_suffixes()[13] == "-steam"@);
    lemma_clean_with_suffix(w, 13);
}

/// A path in a Windows system directory (`system32`, `syswow64`, `winsxs`,
/// `systemapps` under `c:\windows`) or under `/usr/lib`, `/usr/bin` or a
/// `/system/` directory is a system path.
pub proof fn system_directories_are_recognised(path: Seq<char>)
    requires
        ({
            ||| contains(path, "c:\\windows\\system32"@)
            ||| contains(path, "c:\\windows\\syswow64"@)
            ||| contains(path, "c:\\windows\\winsxs"@)
            ||| contains(path, "c:\\windows\\systemapps"@)
            ||| contains(path, "/usr/lib"@)
            ||| contains(path, "/usr/bin"@)
            ||| contains(path, "/system/"@)
        }),
    ensures
        system_path(path),
{
    let m = system_dir_markers();
    assert(m[0] == "c:\\windows\\system32"@);
    assert(m[1] == "c:\\windows\\syswow64"@);
    assert(m[2] == "c:\\windows\\winsxs"@);
    assert(m[3] == "c:\\windows\\systemapps"@);
    assert(m[4] == "/usr/lib"@);
    assert(m[5] == "/usr/bin"@);
    assert(m[6] == "/system/"@);
}

/// Outside a game library, an executable whose lowercase name ends in
/// `-win64-shipping.exe` or `_shipping.exe` (as Unreal builds do) is likely
/// a game unless it is a crash handler; a crash handler is never one; and a
/// name with neither is not.
pub proof fn engine_names_outside_libraries(lower: Seq<char>, path_lower: Option<Seq<char>>)
    requires
        !(path_lower matches Some(p) && contains_any(p, game_dir_markers())),
    ensures
        ((ends_with(lower, "-win64-shipping.exe"@) || ends_with(lower, "_shipping.exe"@)) && !contains(
            lower,
            "crashhandler"@,
        )) ==> likely_game_lowered(lower, path_lower),
        contains(lower, "crashhandler"@) ==> !likely_game_lowered(lower, path_lower),
        (!ends_with(lower, "-win64-shipping.exe"@) && !ends_with(lower, "_shipping.exe"@) && !contains(
            lower,
            "unitycrashhandler"@,
        )) ==> !likely_game_lowered(lower, path_lower),
{
}

} // verus!
