//! Requests to and answers from the metadata providers (VNDB, SteamGridDB,
//! IGDB): the URLs, headers and bodies sent, and what each answer means.

use vstd::prelude::*;
use vstd::utf8::encode_utf8;
use crate::game_db::{IgdbGameInfo, ResolvedGameInfo, VndbGameInfo};
use crate::packet::{decimal, decimal_string};
use crate::text::{
    clone_opt, concat3, is_blank, opt_view, replace_all, replace_all_exec, string_from_chars,
    to_chars, trim, trimmed,
};

verus! {

/// Why a lookup failed outright (as opposed to finding nothing).
#[derive(Debug, PartialEq, Eq, Structural)]
pub enum LookupError {
    /// The request could not be sent or its answer not received
    RequestFailed,
    /// The answer could not be read as the expected JSON
    UnreadableResponse,
    /// The service refused the request
    Rejected,
}

/// How an HTTP exchange ended, before its body is looked at.
#[derive(Debug, PartialEq, Eq, Structural)]
pub enum HttpOutcome {
    /// The request could not be sent or no answer came
    SendFailed,
    /// The answer's status is not a success
    ErrorStatus,
    /// The answer's status is a success; its body follows
    Success,
}

// ---------------------------------------------------------------------------
// Percent-encoding
// ---------------------------------------------------------------------------

/// Bytes that percent-encoding leaves as they are: ASCII letters, digits and
/// `-`, `.`, `_`, `~`.
pub open spec fn url_safe(b: u8) -> bool {
    (48 <= b <= 57) || (65 <= b <= 90) || (97 <= b <= 122) || b == 45 || b == 46 || b == 95 || b
        == 126
}

/// The uppercase hexadecimal digit for `d` (below 16).
pub open spec fn hex_digit(d: u8) -> char {
    if d < 10 {
        (48 + d) as char
    } else {
        (55 + d) as char
    }
}

/// The percent-encoding of `bytes`: safe bytes as they are, every other
/// byte as `%` and two uppercase hexadecimal digits.
pub open spec fn percent_encoded(bytes: Seq<u8>) -> Seq<char>
    decreases bytes.len(),
{
    if bytes.len() == 0 {
        seq![]
    } else {
        let b = bytes[0];
        (if url_safe(b) {
            seq![b as char]
        } else {
            seq!['%', hex_digit(b >> 4u8), hex_digit(b & 15u8)]
        }) + percent_encoded(bytes.drop_first())
    }
}

/// `urlencoding::encode`: the percent-encoding of the UTF-8 bytes of `s`
/// (every byte except ASCII alphanumerics and `-`, `_`, `.`, `~` becomes
/// `%XX` with uppercase hexadecimal digits), as its documentation and source
/// define it.
#[verifier::external_body]
fn url_encode(s: &str) -> (r: String)
    ensures
        r@ == percent_encoded(encode_utf8(s@)),
{
    urlencoding::encode(s).into_owned()
}

// ---------------------------------------------------------------------------
// SteamGridDB
// ---------------------------------------------------------------------------

/// The SteamGridDB search endpoint; the encoded term follows it.
pub const SGDB_SEARCH_PREFIX: &'static str = "https://www.steamgriddb.com/api/v2/search/autocomplete/";

/// The SteamGridDB grid endpoint; the game ID follows it.
pub const SGDB_GRID_PREFIX: &'static str = "https://www.steamgriddb.com/api/v2/grids/game/";

/// The filters of a grid request: cover sizes, styles and static images.
pub const SGDB_GRID_QUERY: &'static str = "?dimensions=600x900,512x512,1024x1024,920x430&styles=alternate,official&types=static";

/// The SteamGridDB icon endpoint; the game ID follows it.
pub const SGDB_ICON_PREFIX: &'static str = "https://www.steamgriddb.com/api/v2/icons/game/";

/// The prefix of a bearer `Authorization` header value.
pub const BEARER: &'static str = "Bearer ";

/// The `Authorization` header of SteamGridDB requests: `Bearer <key>`, the
/// key trimmed.
pub fn sgdb_auth_header(api_key: &str) -> (r: String)
    ensures
        r@ == BEARER@ + trim(api_key@),
{
    let k = trimmed(api_key);
    let r = concat3(BEARER, k.as_str(), "");
    proof {
        reveal_strlit("");
        assert(r@ =~= BEARER@ + trim(api_key@));
    }
    r
}

/// The search URL for a term: the endpoint followed by the percent-encoded
/// term.
pub fn sgdb_search_url(term: &str) -> (r: String)
    ensures
        r@ == SGDB_SEARCH_PREFIX@ + percent_encoded(encode_utf8(term@)),
{
    let enc = url_encode(term);
    let r = concat3(SGDB_SEARCH_PREFIX, enc.as_str(), "");
    proof {
        reveal_strlit("");
        assert(r@ =~= SGDB_SEARCH_PREFIX@ + percent_encoded(encode_utf8(term@)));
    }
    r
}

/// The URL of the cover grids of a game.
pub fn sgdb_grid_url(game_id: u64) -> (r: String)
    ensures
        r@ == SGDB_GRID_PREFIX@ + decimal(game_id as nat) + SGDB_GRID_QUERY@,
{
    let id = decimal_string(game_id as u128);
    concat3(SGDB_GRID_PREFIX, id.as_str(), SGDB_GRID_QUERY)
}

/// The URL of the icons of a game.
pub fn sgdb_icon_url(game_id: u64) -> (r: String)
    ensures
        r@ == SGDB_ICON_PREFIX@ + decimal(game_id as nat),
{
    let id = decimal_string(game_id as u128);
    let r = concat3(SGDB_ICON_PREFIX, id.as_str(), "");
    proof {
        reveal_strlit("");
        assert(r@ =~= SGDB_ICON_PREFIX@ + decimal(game_id as nat));
    }
    r
}

/// A game found by a SteamGridDB search.
pub struct SgdbGame {
    pub id: u64,
    pub name: String,
}

/// The first URL of a list of images, if there is any.
pub fn first_url(data: Option<Vec<String>>) -> (r: Option<String>)
    ensures
        match data {
            Some(v) => if v@.len() > 0 {
                r == Some(v@[0])
            } else {
                r is None
            },
            None => r is None,
        },
{
    match data {
        Some(mut v) => if v.len() > 0 {
            Some(v.remove(0))
        } else {
            None
        },
        None => None,
    }
}

/// Where a SteamGridDB lookup stands.
pub enum SgdbStage {
    /// Waiting for the search
    Search,
    /// Waiting for the grids of the game found
    Grid { id: u64, name: String },
    /// Waiting for the icons of the game found
    Icon { id: u64, name: String, image: Option<String> },
    /// Over
    Done,
}

/// What a SteamGridDB lookup does next.
pub enum SgdbAction {
    /// Send a GET request to this URL (with the authorization header)
    Get(String),
    /// The lookup is over
    Finish(Result<Option<ResolvedGameInfo>, LookupError>),
}

/// One SteamGridDB lookup in progress.
pub struct SgdbLookup {
    pub stage: SgdbStage,
}

/// The action finishes the lookup with `res`.
pub open spec fn sgdb_finishes(a: SgdbAction, res: Result<Option<ResolvedGameInfo>, LookupError>) -> bool {
    a matches SgdbAction::Finish(x) && x == res
}

/// The action fetches `url`.
pub open spec fn sgdb_gets(a: SgdbAction, url: Seq<char>) -> bool {
    a matches SgdbAction::Get(u) && u@ == url
}

/// The first URL of a list of images, if the list came back and is not
/// empty.
pub open spec fn first_of(data: Option<Option<Vec<String>>>) -> Option<String> {
    match data {
        Some(Some(v)) => if v@.len() > 0 {
            Some(v@[0])
        } else {
            None
        },
        _ => None,
    }
}

impl SgdbLookup {
    /// Begin looking a term up: nothing to look up with a blank API key,
    /// otherwise search for the term.
    pub fn start(api_key: &str, term: &str) -> (r: (SgdbLookup, SgdbAction))
        ensures
            trim(api_key@).len() == 0 ==> r.0.stage is Done && sgdb_finishes(r.1, Ok(None)),
            trim(api_key@).len() > 0 ==> r.0.stage is Search && sgdb_gets(
                r.1,
                SGDB_SEARCH_PREFIX@ + percent_encoded(encode_utf8(term@)),
            ),
    {
        if is_blank(api_key) {
            return (SgdbLookup { stage: SgdbStage::Done }, SgdbAction::Finish(Ok(None)));
        }
        (SgdbLookup { stage: SgdbStage::Search }, SgdbAction::Get(sgdb_search_url(term)))
    }

    /// The search came back. A failed request or an unreadable answer fail
    /// the lookup; an error status, no data or no game find nothing; the
    /// first game found has its grids fetched next.
    pub fn on_search(&mut self, outcome: HttpOutcome, games: Option<Option<Vec<SgdbGame>>>) -> (r:
        SgdbAction)
        requires
            old(self).stage is Search,
        ensures
            match outcome {
                HttpOutcome::SendFailed => final(self).stage is Done && sgdb_finishes(
                    r,
                    Err(LookupError::RequestFailed),
                ),
                HttpOutcome::ErrorStatus => final(self).stage is Done && sgdb_finishes(r, Ok(None)),
                HttpOutcome::Success => match games {
                    None => final(self).stage is Done && sgdb_finishes(
                        r,
                        Err(LookupError::UnreadableResponse),
                    ),
                    Some(data) => match data {
                        Some(list) if list@.len() > 0 => {
                            &&& final(self).stage matches SgdbStage::Grid { id, name }
                            &&& final(self).stage->Grid_id == list@[0].id
                            &&& final(self).stage->Grid_name@ == list@[0].name@
                            &&& sgdb_gets(
                                r,
                                SGDB_GRID_PREFIX@ + decimal(list@[0].id as nat) + SGDB_GRID_QUERY@,
                            )
                        },
                        _ => final(self).stage is Done && sgdb_finishes(r, Ok(None)),
                    },
                },
            },
    {
        match outcome {
            HttpOutcome::SendFailed => {
                self.stage = SgdbStage::Done;
                SgdbAction::Finish(Err(LookupError::RequestFailed))
            },
            HttpOutcome::ErrorStatus => {
                self.stage = SgdbStage::Done;
                SgdbAction::Finish(Ok(None))
            },
            HttpOutcome::Success => match games {
                None => {
                    self.stage = SgdbStage::Done;
                    SgdbAction::Finish(Err(LookupError::UnreadableResponse))
                },
                Some(data) => match data {
                    Some(mut list) => {
                        if list.len() > 0 {
                            let g = list.remove(0);
                            let url = sgdb_grid_url(g.id);
                            self.stage = SgdbStage::Grid { id: g.id, name: g.name };
                            SgdbAction::Get(url)
                        } else {
                            self.stage = SgdbStage::Done;
                            SgdbAction::Finish(Ok(None))
                        }
                    },
                    None => {
                        self.stage = SgdbStage::Done;
                        SgdbAction::Finish(Ok(None))
                    },
                },
            },
        }
    }

    /// The grids came back (`None` when the request or its answer failed in
    /// any way): the first grid is the cover; the icons are fetched next.
    pub fn on_grids(&mut self, grids: Option<Option<Vec<String>>>) -> (r: SgdbAction)
        requires
            old(self).stage is Grid,
        ensures
            final(self).stage is Icon,
            final(self).stage->Icon_id == old(self).stage->Grid_id,
            final(self).stage->Icon_name == old(self).stage->Grid_name,
            final(self).stage->image == first_of(grids),
            sgdb_gets(r, SGDB_ICON_PREFIX@ + decimal(old(self).stage->Grid_id as nat)),
    {
        let image = match grids {
            Some(data) => first_url(data),
            None => None,
        };
        let mut stage = SgdbStage::Done;
        std::mem::swap(&mut stage, &mut self.stage);
        match stage {
            SgdbStage::Grid { id, name } => {
                let url = sgdb_icon_url(id);
                self.stage = SgdbStage::Icon { id, name, image };
                SgdbAction::Get(url)
            },
            _ => {
                proof {
                    assert(false);
                }
                SgdbAction::Finish(Ok(None))
            },
        }
    }

    /// The icons came back (`None` when the request or its answer failed in
    /// any way): the lookup finds the game, with its cover and first icon.
    pub fn on_icons(&mut self, icons: Option<Option<Vec<String>>>) -> (r: SgdbAction)
        requires
            old(self).stage is Icon,
        ensures
            final(self).stage is Done,
            sgdb_finishes(
                r,
                Ok(
                    Some(
                        ResolvedGameInfo {
                            display_name: old(self).stage->Icon_name,
                            image_url: old(self).stage->image,
                            icon_url: first_of(icons),
                        },
                    ),
                ),
            ),
    {
        let icon = match icons {
            Some(data) => first_url(data),
            None => None,
        };
        let mut stage = SgdbStage::Done;
        std::mem::swap(&mut stage, &mut self.stage);
        match stage {
            SgdbStage::Icon { id: _, name, image } => SgdbAction::Finish(
                Ok(Some(ResolvedGameInfo { display_name: name, image_url: image, icon_url: icon })),
            ),
            _ => {
                proof {
                    assert(false);
                }
                SgdbAction::Finish(Ok(None))
            },
        }
    }
}

} // verus!

verus! {

// ---------------------------------------------------------------------------
// VNDB
// ---------------------------------------------------------------------------

/// The VNDB search endpoint.
pub const VNDB_ENDPOINT: &'static str = "https://api.vndb.org/kana/vn";

/// The fields requested of each visual novel.
pub const VNDB_FIELDS: &'static str = "title, alttitle, titles.lang, titles.title, titles.latin, titles.main, image.url";

/// The prefix of a VNDB token `Authorization` header value.
pub const TOKEN_PREFIX: &'static str = "Token ";

/// The body of a VNDB search: filter `["search", "=", term]`, the fields
/// above, one result.
pub struct VndbSearchRequest {
    pub filters: Vec<String>,
    pub fields: String,
    pub results: u32,
}

/// One title of a visual novel.
pub struct VndbTitle {
    pub lang: Option<String>,
    pub title: String,
    pub main: Option<bool>,
}

/// A visual novel found by a search.
pub struct VndbEntry {
    pub title: String,
    pub alttitle: Option<String>,
    pub titles: Option<Vec<VndbTitle>>,
    pub image_url: Option<String>,
}

/// The body of the search for `term`.
pub fn vndb_search_request(term: &str) -> (r: VndbSearchRequest)
    ensures
        r.filters@.len() == 3,
        r.filters@[0]@ == "search"@,
        r.filters@[1]@ == "="@,
        r.filters@[2]@ == term@,
        r.fields@ == VNDB_FIELDS@,
        r.results == 1,
{
    let mut filters: Vec<String> = Vec::new();
    filters.push("search".to_owned());
    filters.push("=".to_owned());
    filters.push(term.to_owned());
    VndbSearchRequest { filters, fields: VNDB_FIELDS.to_owned(), results: 1 }
}

/// The `Authorization` header of VNDB requests: `Token <token>`, the token
/// trimmed, when a token that is not blank is configured.
pub fn vndb_auth_header(token: &Option<String>) -> (r: Option<String>)
    ensures
        match token {
            Some(t) => if trim(t@).len() > 0 {
                r matches Some(h) && h@ == TOKEN_PREFIX@ + trim(t@)
            } else {
                r is None
            },
            None => r is None,
        },
{
    match token {
        Some(t) => {
            let clean = trimmed(t.as_str());
            if clean.as_str().is_empty() {
                None
            } else {
                let h = concat3(TOKEN_PREFIX, clean.as_str(), "");
                proof {
                    reveal_strlit("");
                    assert(h@ =~= TOKEN_PREFIX@ + trim(t@));
                }
                Some(h)
            }
        },
        None => None,
    }
}

/// A title of the list qualifies: in Japanese (or, without `ja`, marked as
/// the main title) and not blank.
pub open spec fn title_qualifies(t: VndbTitle, ja: bool) -> bool {
    (if ja {
        opt_view(t.lang) == Some("ja"@)
    } else {
        t.main == Some(true)
    }) && trim(t.title@).len() > 0
}

/// The first qualifying title of the list.
pub open spec fn first_title(list: Seq<VndbTitle>, ja: bool) -> Option<Seq<char>>
    decreases list.len(),
{
    if list.len() == 0 {
        None
    } else if title_qualifies(list[0], ja) {
        Some(list[0].title@)
    } else {
        first_title(list.drop_first(), ja)
    }
}

/// The name shown for a visual novel: its title; when the original title is
/// preferred, the first Japanese title of its list, else its first main
/// title, else its alternative title, each only if not blank, else its
/// title.
pub open spec fn vndb_name(e: VndbEntry, prefer_original: bool) -> Seq<char> {
    if !prefer_original {
        e.title@
    } else {
        let from_titles = match e.titles {
            Some(list) => match first_title(list@, true) {
                Some(t) => Some(t),
                None => first_title(list@, false),
            },
            None => None,
        };
        match from_titles {
            Some(t) => t,
            None => match e.alttitle {
                Some(a) => if trim(a@).len() > 0 {
                    a@
                } else {
                    e.title@
                },
                None => e.title@,
            },
        }
    }
}

fn first_title_exec(list: &Vec<VndbTitle>, ja: bool) -> (r: Option<String>)
    ensures
        opt_view(r) == first_title(list@, ja),
{
    let mut i: usize = 0;
    assert(list@.subrange(0, list@.len() as int) =~= list@);
    while i < list.len()
        invariant
            i <= list@.len(),
            first_title(list@.subrange(i as int, list@.len() as int), ja) == first_title(list@, ja),
        decreases list@.len() - i,
    {
        let ghost rest = list@.subrange(i as int, list@.len() as int);
        assert(rest.drop_first() =~= list@.subrange(i + 1, list@.len() as int));
        let t = &list[i];
        let right_kind = if ja {
            match &t.lang {
                Some(l) => {
                    let ja_text = "ja".to_owned();
                    *l == ja_text
                },
                None => false,
            }
        } else {
            match t.main {
                Some(m) => m,
                None => false,
            }
        };
        if right_kind && !is_blank(t.title.as_str()) {
            return Some(t.title.clone());
        }
        i = i + 1;
    }
    None
}

/// The name shown for a visual novel.
pub fn vndb_display_name(e: &VndbEntry, prefer_original: bool) -> (r: String)
    ensures
        r@ == vndb_name(*e, prefer_original),
{
    if !prefer_original {
        return e.title.clone();
    }
    let from_titles = match &e.titles {
        Some(list) => match first_title_exec(list, true) {
            Some(t) => Some(t),
            None => first_title_exec(list, false),
        },
        None => None,
    };
    match from_titles {
        Some(t) => t,
        None => match &e.alttitle {
            Some(a) => if !is_blank(a.as_str()) {
                a.clone()
            } else {
                e.title.clone()
            },
            None => e.title.clone(),
        },
    }
}

/// What a VNDB search answered: a failed request or an unreadable answer
/// fail the lookup; an error status or no result find nothing; otherwise the
/// first visual novel, with its name and cover.
pub fn vndb_outcome(outcome: HttpOutcome, results: Option<Vec<VndbEntry>>, prefer_original: bool) -> (r:
    Result<Option<VndbGameInfo>, LookupError>)
    ensures
        match outcome {
            HttpOutcome::SendFailed => r == Err::<Option<VndbGameInfo>, LookupError>(LookupError::RequestFailed),
            HttpOutcome::ErrorStatus => r == Ok::<Option<VndbGameInfo>, LookupError>(None),
            HttpOutcome::Success => match results {
                None => r == Err::<Option<VndbGameInfo>, LookupError>(LookupError::UnreadableResponse),
                Some(list) => if list@.len() == 0 {
                    r == Ok::<Option<VndbGameInfo>, LookupError>(None)
                } else {
                    r matches Ok(Some(info)) && info.display_name@ == vndb_name(list@[0], prefer_original)
                        && info.image_url == list@[0].image_url
                },
            },
        },
{
    match outcome {
        HttpOutcome::SendFailed => Err(LookupError::RequestFailed),
        HttpOutcome::ErrorStatus => Ok(None),
        HttpOutcome::Success => match results {
            None => Err(LookupError::UnreadableResponse),
            Some(list) => if list.len() == 0 {
                Ok(None)
            } else {
                let vn = &list[0];
                let display_name = vndb_display_name(vn, prefer_original);
                Ok(Some(VndbGameInfo { display_name, image_url: clone_opt(&vn.image_url) }))
            },
        },
    }
}

// ---------------------------------------------------------------------------
// IGDB
// ---------------------------------------------------------------------------

/// The Twitch OAuth token endpoint.
pub const TWITCH_TOKEN_PREFIX: &'static str = "https://id.twitch.tv/oauth2/token?client_id=";

/// The IGDB games endpoint.
pub const IGDB_GAMES_ENDPOINT: &'static str = "https://api.igdb.com/v4/games";

/// The IGDB cover image URL prefix; the image ID and `.jpg` follow it.
pub const IGDB_COVER_PREFIX: &'static str = "https://images.igdb.com/igdb/image/upload/t_cover_big/";

/// Whether IGDB can be asked: client ID and secret are both not blank.
pub fn igdb_is_configured(client_id: &str, client_secret: &str) -> (r: bool)
    ensures
        r == (trim(client_id@).len() > 0 && trim(client_secret@).len() > 0),
{
    !is_blank(client_id) && !is_blank(client_secret)
}

/// The token request URL, with the trimmed credentials.
pub fn igdb_token_url(client_id: &str, client_secret: &str) -> (r: String)
    ensures
        r@ == TWITCH_TOKEN_PREFIX@ + trim(client_id@) + "&client_secret="@ + trim(client_secret@)
            + "&grant_type=client_credentials"@,
{
    let id = trimmed(client_id);
    let sec = trimmed(client_secret);
    let a = concat3(TWITCH_TOKEN_PREFIX, id.as_str(), "&client_secret=");
    let r = concat3(a.as_str(), sec.as_str(), "&grant_type=client_credentials");
    r
}

/// How long a token is used, in seconds: a minute less than it lives, if it
/// lives longer than a minute.
pub open spec fn token_ttl(expires_in: u64) -> u64 {
    if expires_in > 60 {
        (expires_in - 60) as u64
    } else {
        expires_in
    }
}

/// How long a token is used, in seconds.
pub fn token_ttl_secs(expires_in: u64) -> (r: u64)
    ensures
        r == token_ttl(expires_in),
{
    if expires_in > 60 {
        expires_in - 60
    } else {
        expires_in
    }
}

/// An access token and the moment (in milliseconds of a monotonic clock) it
/// stops being used.
pub struct TokenState {
    pub access_token: String,
    pub expires_at_ms: u64,
}

/// The cached token, if there is one and it is still valid at `now_ms`.
pub fn cached_token(state: &Option<TokenState>, now_ms: u64) -> (r: Option<String>)
    ensures
        match state {
            Some(s) => if now_ms < s.expires_at_ms {
                r == Some(s.access_token)
            } else {
                r is None
            },
            None => r is None,
        },
{
    match state {
        Some(s) => if now_ms < s.expires_at_ms {
            Some(s.access_token.clone())
        } else {
            None
        },
        None => None,
    }
}

/// The state kept for a token obtained at `now_ms` that lives `expires_in`
/// seconds.
pub fn token_state_after(access_token: String, expires_in: u64, now_ms: u64) -> (r: TokenState)
    requires
        now_ms + token_ttl(expires_in) * 1000 <= u64::MAX,
    ensures
        r.access_token == access_token,
        r.expires_at_ms == now_ms + token_ttl(expires_in) * 1000,
{
    let ttl = token_ttl_secs(expires_in);
    assert(ttl * 1000 <= u64::MAX);
    TokenState { access_token, expires_at_ms: now_ms + ttl * 1000 }
}

/// What the token request answered: a failed request fails, an error status
/// is a rejection, an unreadable answer fails; otherwise the token and its
/// lifetime in seconds.
pub fn token_outcome(outcome: HttpOutcome, parsed: Option<(String, u64)>) -> (r: Result<(String, u64), LookupError>)
    ensures
        match outcome {
            HttpOutcome::SendFailed => r == Err::<(String, u64), LookupError>(LookupError::RequestFailed),
            HttpOutcome::ErrorStatus => r == Err::<(String, u64), LookupError>(LookupError::Rejected),
            HttpOutcome::Success => match parsed {
                None => r == Err::<(String, u64), LookupError>(LookupError::UnreadableResponse),
                Some(p) => r == Ok::<(String, u64), LookupError>(p),
            },
        },
{
    match outcome {
        HttpOutcome::SendFailed => Err(LookupError::RequestFailed),
        HttpOutcome::ErrorStatus => Err(LookupError::Rejected),
        HttpOutcome::Success => match parsed {
            None => Err(LookupError::UnreadableResponse),
            Some(p) => Ok(p),
        },
    }
}

/// The IGDB query for a term: the term quoted, with its double quotes
/// escaped, asking for the name and cover of one game.
pub open spec fn igdb_query_text(term: Seq<char>) -> Seq<char> {
    "search \""@ + replace_all(term, "\""@, "\\\""@) + "\"; fields name, cover.image_id; limit 1;"@
}

/// The IGDB query for a term.
pub fn igdb_query(term: &str) -> (r: String)
    ensures
        r@ == igdb_query_text(term@),
{
    let t = to_chars(term);
    let q = to_chars("\"");
    proof {
        reveal_strlit("\"");
    }
    let esc = to_chars("\\\"");
    let escaped = string_from_chars(&replace_all_exec(&t, &q, &esc));
    concat3("search \"", escaped.as_str(), "\"; fields name, cover.image_id; limit 1;")
}

/// The cover image URL of an IGDB image ID.
pub fn igdb_cover_url(image_id: &str) -> (r: String)
    ensures
        r@ == IGDB_COVER_PREFIX@ + image_id@ + ".jpg"@,
{
    concat3(IGDB_COVER_PREFIX, image_id, ".jpg")
}

/// The `Authorization` header of IGDB requests: `Bearer <token>`.
pub fn igdb_auth_header(token: &str) -> (r: String)
    ensures
        r@ == BEARER@ + token@,
{
    let r = concat3(BEARER, token, "");
    proof {
        reveal_strlit("");
        assert(r@ =~= BEARER@ + token@);
    }
    r
}

/// A game found by an IGDB search: its name and its cover's image ID.
pub struct IgdbGame {
    pub name: String,
    pub cover_image_id: Option<String>,
}

/// What an IGDB search answered: a failed request or an unreadable answer
/// fail the lookup; an error status or no game find nothing; otherwise the
/// first game, with its cover URL if it has a cover image.
pub fn igdb_outcome(outcome: HttpOutcome, games: Option<Vec<IgdbGame>>) -> (r: Result<Option<IgdbGameInfo>, LookupError>)
    ensures
        match outcome {
            HttpOutcome::SendFailed => r == Err::<Option<IgdbGameInfo>, LookupError>(LookupError::RequestFailed),
            HttpOutcome::ErrorStatus => r == Ok::<Option<IgdbGameInfo>, LookupError>(None),
            HttpOutcome::Success => match games {
                None => r == Err::<Option<IgdbGameInfo>, LookupError>(LookupError::UnreadableResponse),
                Some(list) => if list@.len() == 0 {
                    r == Ok::<Option<IgdbGameInfo>, LookupError>(None)
                } else {
                    r matches Ok(Some(info)) && info.display_name == list@[0].name && opt_view(info.image_url)
                        == match list@[0].cover_image_id {
                        Some(id) => Some(IGDB_COVER_PREFIX@ + id@ + ".jpg"@),
                        None => None,
                    }
                },
            },
        },
{
    match outcome {
        HttpOutcome::SendFailed => Err(LookupError::RequestFailed),
        HttpOutcome::ErrorStatus => Ok(None),
        HttpOutcome::Success => match games {
            None => Err(LookupError::UnreadableResponse),
            Some(list) => if list.len() == 0 {
                Ok(None)
            } else {
                let g = &list[0];
                let image_url = match &g.cover_image_id {
                    Some(id) => Some(igdb_cover_url(id.as_str())),
                    None => None,
                };
                Ok(Some(IgdbGameInfo { display_name: g.name.clone(), image_url }))
            },
        },
    }
}

/// What an IGDB lookup does first: nothing without credentials; else use the
/// cached token or fetch one.
pub enum IgdbStart {
    /// Not configured: nothing is found
    NotConfigured,
    /// Query with this valid cached token
    UseToken(String),
    /// Fetch a token from this URL first
    FetchToken(String),
}

/// The first step of an IGDB lookup.
pub fn igdb_start(client_id: &str, client_secret: &str, state: &Option<TokenState>, now_ms: u64) -> (r:
    IgdbStart)
    ensures
        !(trim(client_id@).len() > 0 && trim(client_secret@).len() > 0) ==> r is NotConfigured,
        (trim(client_id@).len() > 0 && trim(client_secret@).len() > 0) ==> match state {
            Some(s) if now_ms < s.expires_at_ms => r == IgdbStart::UseToken(s.access_token),
            _ => r matches IgdbStart::FetchToken(u) && u@ == TWITCH_TOKEN_PREFIX@ + trim(client_id@)
                + "&client_secret="@ + trim(client_secret@) + "&grant_type=client_credentials"@,
        },
{
    if !igdb_is_configured(client_id, client_secret) {
        return IgdbStart::NotConfigured;
    }
    match cached_token(state, now_ms) {
        Some(t) => IgdbStart::UseToken(t),
        None => IgdbStart::FetchToken(igdb_token_url(client_id, client_secret)),
    }
}

/// After the token request: a token to query with, or none (an
/// authentication failure makes the lookup find nothing).
pub fn igdb_token_for_query(token: Result<(String, u64), LookupError>) -> (r: Option<String>)
    ensures
        match token {
            Ok(p) => r == Some(p.0),
            Err(_) => r is None,
        },
{
    match token {
        Ok(p) => Some(p.0),
        Err(_) => None,
    }
}

} // verus!

verus! {

/// A token is used no longer than it lives, and a minute less when it lives
/// longer than a minute.
pub proof fn token_ttl_bounds(expires_in: u64)
    ensures
        token_ttl(expires_in) <= expires_in,
        expires_in > 60 ==> token_ttl(expires_in) == expires_in - 60,
{
}

/// Text made only of characters that percent-encoding keeps is encoded as
/// itself.
pub proof fn safe_bytes_encode_as_themselves(bytes: Seq<u8>)
    requires
        forall|i: int| 0 <= i < bytes.len() ==> url_safe(#[trigger] bytes[i]),
    ensures
        percent_encoded(bytes) == bytes.map_values(|b: u8| b as char),
    decreases bytes.len(),
{
    if bytes.len() > 0 {
        let rest = bytes.drop_first();
        assert forall|i: int| 0 <= i < rest.len() implies url_safe(#[trigger] rest[i]) by {
            assert(rest[i] == bytes[i + 1]);
        }
        safe_bytes_encode_as_themselves(rest);
        assert(bytes.map_values(|b: u8| b as char) =~= seq![bytes[0] as char] + rest.map_values(
            |b: u8| b as char,
        ));
    }
}

} // verus!
