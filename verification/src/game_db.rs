//! Game metadata and the order in which its sources are consulted.

use vstd::prelude::*;
use crate::config::{override_for, AppConfig};
use crate::sanitizer::{display_title, sanitize_to_display_title};
use crate::text::{clone_opt, concat3, is_blank, opt_view, trim};

verus! {

/// What is shown of a game: its name, its art and where they came from.
#[derive(Debug)]
pub struct GameMetadata {
    pub display_name: String,
    pub image_url: Option<String>,
    pub small_image_url: Option<String>,
    pub source: String,
}

/// A VNDB match: the title and the cover image.
#[derive(Clone, Debug)]
pub struct VndbGameInfo {
    pub display_name: String,
    pub image_url: Option<String>,
}

/// A SteamGridDB match: the name, the first cover grid and the first icon.
#[derive(Clone, Debug)]
pub struct ResolvedGameInfo {
    pub display_name: String,
    pub image_url: Option<String>,
    pub icon_url: Option<String>,
}

/// An IGDB match: the name and the cover image.
#[derive(Clone, Debug)]
pub struct IgdbGameInfo {
    pub display_name: String,
    pub image_url: Option<String>,
}

/// A cached row of the metadata database.
#[derive(Clone, Debug)]
pub struct CachedMetadata {
    pub query_key: String,
    pub display_name: String,
    pub image_url: Option<String>,
    pub small_image_url: Option<String>,
    pub provider: String,
    pub cached_at: u64,
}

/// What game metadata is, as plain values: name, image, small image and
/// source.
pub type GameMetadataView = (Seq<char>, Option<Seq<char>>, Option<Seq<char>>, Seq<char>);

impl View for GameMetadata {
    type V = GameMetadataView;

    open spec fn view(&self) -> GameMetadataView {
        (self.display_name@, opt_view(self.image_url), opt_view(self.small_image_url), self.source@)
    }
}

impl Clone for GameMetadata {
    fn clone(&self) -> (r: Self)
        ensures
            r == *self,
    {
        GameMetadata {
            display_name: self.display_name.clone(),
            image_url: clone_opt(&self.image_url),
            small_image_url: clone_opt(&self.small_image_url),
            source: self.source.clone(),
        }
    }
}

} // verus!

verus! {

/// A metadata provider.
#[derive(Debug, PartialEq, Eq, Structural)]
pub enum Provider {
    Vndb,
    SteamGridDb,
    Igdb,
}

impl Clone for Provider {
    fn clone(&self) -> (r: Self)
        ensures
            r == *self,
    {
        match self {
            Provider::Vndb => Provider::Vndb,
            Provider::SteamGridDb => Provider::SteamGridDb,
            Provider::Igdb => Provider::Igdb,
        }
    }
}

impl Copy for Provider {}

/// The name under which a provider's results are cached and reported.
pub open spec fn provider_name(p: Provider) -> Seq<char> {
    match p {
        Provider::Vndb => "vndb"@,
        Provider::SteamGridDb => "steamgriddb"@,
        Provider::Igdb => "igdb"@,
    }
}

/// The name under which a provider's results are cached and reported.
pub fn provider_label(p: Provider) -> (r: &'static str)
    ensures
        r@ == provider_name(p),
{
    match p {
        Provider::Vndb => "vndb",
        Provider::SteamGridDb => "steamgriddb",
        Provider::Igdb => "igdb",
    }
}

/// Which providers a resolver consults, and with which credentials. VNDB is
/// always consulted (with a token if one is configured); SteamGridDB when an
/// API key that is not blank is configured; IGDB when a client ID and a
/// client secret that are not blank are configured.
pub struct GameResolver {
    pub vndb_token: Option<String>,
    pub steamgriddb_api_key: Option<String>,
    pub igdb_credentials: Option<(String, String)>,
}

impl GameResolver {
    /// Whether SteamGridDB is consulted.
    pub open spec fn sgdb_enabled(&self) -> bool {
        self.steamgriddb_api_key is Some
    }

    /// Whether IGDB is consulted.
    pub open spec fn igdb_enabled(&self) -> bool {
        self.igdb_credentials is Some
    }

    /// The providers a configuration enables, with their credentials.
    pub fn new(config: &crate::config::AppConfig) -> (r: Self)
        ensures
            opt_view(r.vndb_token) == opt_view(config.api.vndb_token),
            match config.api.steamgriddb_api_key {
                Some(k) => if trim(k@).len() == 0 {
                    r.steamgriddb_api_key is None
                } else {
                    r.steamgriddb_api_key matches Some(rk) && rk@ == k@
                },
                None => r.steamgriddb_api_key is None,
            },
            match (config.api.igdb_client_id, config.api.igdb_client_secret) {
                (Some(id), Some(sec)) => if trim(id@).len() == 0 || trim(sec@).len() == 0 {
                    r.igdb_credentials is None
                } else {
                    r.igdb_credentials matches Some(c) && c.0@ == id@ && c.1@ == sec@
                },
                _ => r.igdb_credentials is None,
            },
    {
        let vndb_token = clone_opt(&config.api.vndb_token);
        let steamgriddb_api_key = match &config.api.steamgriddb_api_key {
            Some(k) => if is_blank(k.as_str()) {
                None
            } else {
                Some(k.clone())
            },
            None => None,
        };
        let igdb_credentials = match (&config.api.igdb_client_id, &config.api.igdb_client_secret) {
            (Some(id), Some(sec)) => if is_blank(id.as_str()) || is_blank(sec.as_str()) {
                None
            } else {
                Some((id.clone(), sec.clone()))
            },
            _ => None,
        };
        GameResolver { vndb_token, steamgriddb_api_key, igdb_credentials }
    }
}

/// The provider consulted after `after` (or first, for `None`), if any.
pub open spec fn next_provider(r: GameResolver, after: Option<Provider>) -> Option<Provider> {
    match after {
        None => Some(Provider::Vndb),
        Some(Provider::Vndb) => if r.sgdb_enabled() {
            Some(Provider::SteamGridDb)
        } else if r.igdb_enabled() {
            Some(Provider::Igdb)
        } else {
            None
        },
        Some(Provider::SteamGridDb) => if r.igdb_enabled() {
            Some(Provider::Igdb)
        } else {
            None
        },
        Some(Provider::Igdb) => None,
    }
}

/// A provider's match, as the resolver uses it.
pub struct ProviderMatch {
    pub display_name: String,
    pub image_url: Option<String>,
    pub small_image_url: Option<String>,
}

/// A row to store in the metadata cache.
pub struct CacheWrite {
    pub query_key: String,
    pub display_name: String,
    pub image_url: Option<String>,
    pub small_image_url: Option<String>,
    pub provider: String,
}

/// What the resolver asks for next.
pub enum ResolveAction {
    /// Look the key up in the metadata cache
    LookupCache { key: String },
    /// Ask a provider about the query
    Query { provider: Provider, query: String },
    /// Resolution is over: the metadata, and the row to cache if any
    Finish { metadata: GameMetadata, store: Option<CacheWrite> },
}

/// What came back from the last request.
pub enum ResolveEvent {
    /// The cache holds a row for the key
    CacheHit(CachedMetadata),
    /// The cache holds no row for the key, or could not be read
    CacheMiss,
    /// The provider found the game
    Found(ProviderMatch),
    /// The provider found nothing
    NotFound,
    /// The provider could not be asked or its answer not read
    Failed,
}

/// Where a resolution stands.
#[derive(Debug, PartialEq, Eq, Structural)]
pub enum ResolveStage {
    /// Waiting for the cache
    Cache,
    /// Waiting for a provider
    Asking(Provider),
    /// Over
    Finished,
}

/// One metadata resolution in progress.
pub struct Resolution {
    /// The normalised executable name: the cache key
    pub clean_name: String,
    /// The search query sent to providers
    pub query: String,
    /// Where it stands
    pub stage: ResolveStage,
}

/// The source reported for a cache hit: `cache (<provider>)`.
pub open spec fn cache_source(provider: Seq<char>) -> Seq<char> {
    "cache ("@ + provider + ")"@
}

/// The metadata a cache hit answers with.
pub open spec fn hit_metadata(c: CachedMetadata) -> GameMetadataView {
    (c.display_name@, opt_view(c.image_url), opt_view(c.small_image_url), cache_source(c.provider@))
}

/// The small image a provider's match contributes: SteamGridDB's icon; the
/// other providers contribute none.
pub open spec fn match_small_image(p: Provider, m: ProviderMatch) -> Option<Seq<char>> {
    if p == Provider::SteamGridDb {
        opt_view(m.small_image_url)
    } else {
        None
    }
}

/// The metadata a provider's match answers with.
pub open spec fn found_metadata(p: Provider, m: ProviderMatch) -> GameMetadataView {
    (m.display_name@, opt_view(m.image_url), match_small_image(p, m), provider_name(p))
}

/// The cache row stored for a provider's match under a clean name.
pub open spec fn found_row(clean: Seq<char>, p: Provider, m: ProviderMatch) -> (
    Seq<char>,
    Seq<char>,
    Option<Seq<char>>,
    Option<Seq<char>>,
    Seq<char>,
) {
    (clean, m.display_name@, opt_view(m.image_url), match_small_image(p, m), provider_name(p))
}

/// The fields of a cached row.
pub open spec fn row_of(c: CachedMetadata) -> (
    Seq<char>,
    Seq<char>,
    Option<Seq<char>>,
    Option<Seq<char>>,
    Seq<char>,
) {
    (c.query_key@, c.display_name@, opt_view(c.image_url), opt_view(c.small_image_url), c.provider@)
}

/// The action that finishes with the given metadata and cache row.
pub open spec fn finishes_with(
    a: ResolveAction,
    meta: GameMetadataView,
    store: Option<(Seq<char>, Seq<char>, Option<Seq<char>>, Option<Seq<char>>, Seq<char>)>,
) -> bool {
    a matches ResolveAction::Finish { metadata, store: s } && metadata@ == meta && match (s, store) {
        (None, None) => true,
        (Some(w), Some(v)) => (w.query_key@, w.display_name@, opt_view(w.image_url), opt_view(
            w.small_image_url,
        ), w.provider@) == v,
        _ => false,
    }
}

/// The action that asks `next` (or falls back to the sanitised title, when
/// no provider is left) after a provider had nothing.
pub open spec fn after_miss(res: Resolution, next: Option<Provider>, a: ResolveAction) -> bool {
    match next {
        Some(p) => a matches ResolveAction::Query { provider, query } && provider == p && query@
            == res.query@,
        None => finishes_with(
            a,
            (display_title(res.clean_name@), None, None, "fallback"@),
            Some((res.clean_name@, display_title(res.clean_name@), None, None, "fallback"@)),
        ),
    }
}

impl Resolution {
    /// Begin resolving metadata for an executable: a manual override with a
    /// display name answers at once; otherwise the cache is asked first.
    pub fn start(exe_name: &str, clean_name: &str, config: &AppConfig) -> (r: (Resolution, ResolveAction))
        ensures
            r.0.clean_name@ == clean_name@,
            r.0.query@ == display_title(clean_name@),
            match override_for(config.games@, exe_name@) {
                Some(o) if o.display_name is Some => {
                    &&& r.0.stage == ResolveStage::Finished
                    &&& finishes_with(
                        r.1,
                        (o.display_name->0@, opt_view(o.image_url), opt_view(o.small_image_url), "manual_config"@),
                        None,
                    )
                },
                _ => {
                    &&& r.0.stage == ResolveStage::Cache
                    &&& r.1 matches ResolveAction::LookupCache { key } && key@ == clean_name@
                },
            },
    {
        let res_clean = clean_name.to_owned();
        let query = sanitize_to_display_title(clean_name);
        if let Some(game_ov) = config.find_game_override(exe_name) {
            if let Some(custom_name) = &game_ov.display_name {
                let metadata = GameMetadata {
                    display_name: custom_name.clone(),
                    image_url: clone_opt(&game_ov.image_url),
                    small_image_url: clone_opt(&game_ov.small_image_url),
                    source: "manual_config".to_owned(),
                };
                let res = Resolution { clean_name: res_clean, query, stage: ResolveStage::Finished };
                return (res, ResolveAction::Finish { metadata, store: None });
            }
        }
        let key = clean_name.to_owned();
        (Resolution { clean_name: res_clean, query, stage: ResolveStage::Cache }, ResolveAction::LookupCache { key })
    }

    /// The action after a provider had nothing: the next provider, or the
    /// fallback title.
    fn miss(&mut self, resolver: &GameResolver, next: Option<Provider>) -> (r: ResolveAction)
        requires
            next == next_provider(*resolver, match old(self).stage {
                ResolveStage::Asking(p) => Some(p),
                _ => None,
            }),
        ensures
            final(self).clean_name == old(self).clean_name,
            final(self).query == old(self).query,
            after_miss(*old(self), next, r),
            match next {
                Some(p) => final(self).stage == ResolveStage::Asking(p),
                None => final(self).stage == ResolveStage::Finished,
            },
    {
        match next {
            Some(p) => {
                self.stage = ResolveStage::Asking(p);
                ResolveAction::Query { provider: p, query: self.query.clone() }
            },
            None => {
                self.stage = ResolveStage::Finished;
                let title = sanitize_to_display_title(self.clean_name.as_str());
                let metadata = GameMetadata {
                    display_name: title.clone(),
                    image_url: None,
                    small_image_url: None,
                    source: "fallback".to_owned(),
                };
                let store = CacheWrite {
                    query_key: self.clean_name.clone(),
                    display_name: title,
                    image_url: None,
                    small_image_url: None,
                    provider: "fallback".to_owned(),
                };
                ResolveAction::Finish { metadata, store: Some(store) }
            },
        }
    }

    /// Advance the resolution with what came back from the last request.
    /// A cache hit answers from the cache; a miss asks the first provider;
    /// a provider's match answers and is cached under the clean name; a
    /// provider with nothing (or failing) hands over to the next one, and
    /// when none is left the sanitised title answers and is cached. A
    /// finished resolution asks for nothing more.
    pub fn step(&mut self, resolver: &GameResolver, event: ResolveEvent) -> (r: Option<ResolveAction>)
        ensures
            final(self).clean_name == old(self).clean_name,
            final(self).query == old(self).query,
            match old(self).stage {
                ResolveStage::Finished => r is None && final(self).stage == ResolveStage::Finished,
                ResolveStage::Cache => match event {
                    ResolveEvent::CacheHit(c) => {
                        &&& final(self).stage == ResolveStage::Finished
                        &&& r matches Some(a) && finishes_with(a, hit_metadata(c), None)
                    },
                    _ => {
                        &&& final(self).stage == ResolveStage::Asking(Provider::Vndb)
                        &&& r matches Some(a) && after_miss(*old(self), Some(Provider::Vndb), a)
                    },
                },
                ResolveStage::Asking(p) => match event {
                    ResolveEvent::Found(m) => {
                        &&& final(self).stage == ResolveStage::Finished
                        &&& r matches Some(a) && finishes_with(
                            a,
                            found_metadata(p, m),
                            Some(found_row(old(self).clean_name@, p, m)),
                        )
                    },
                    _ => r matches Some(a) && after_miss(
                        *old(self),
                        next_provider(*resolver, Some(p)),
                        a,
                    ) && match next_provider(*resolver, Some(p)) {
                        Some(q) => final(self).stage == ResolveStage::Asking(q),
                        None => final(self).stage == ResolveStage::Finished,
                    },
                },
            },
    {
        match self.stage {
            ResolveStage::Finished => None,
            ResolveStage::Cache => match event {
                ResolveEvent::CacheHit(c) => {
                    self.stage = ResolveStage::Finished;
                    let source = concat3("cache (", c.provider.as_str(), ")");
                    let metadata = GameMetadata {
                        display_name: c.display_name,
                        image_url: c.image_url,
                        small_image_url: c.small_image_url,
                        source,
                    };
                    Some(ResolveAction::Finish { metadata, store: None })
                },
                _ => {
                    let next = Some(Provider::Vndb);
                    Some(self.miss(resolver, next))
                },
            },
            ResolveStage::Asking(p) => match event {
                ResolveEvent::Found(m) => {
                    self.stage = ResolveStage::Finished;
                    let small = if p == Provider::SteamGridDb {
                        clone_opt(&m.small_image_url)
                    } else {
                        None
                    };
                    let name = provider_label(p);
                    let store = CacheWrite {
                        query_key: self.clean_name.clone(),
                        display_name: m.display_name.clone(),
                        image_url: clone_opt(&m.image_url),
                        small_image_url: clone_opt(&small),
                        provider: name.to_owned(),
                    };
                    let metadata = GameMetadata {
                        display_name: m.display_name,
                        image_url: m.image_url,
                        small_image_url: small,
                        source: name.to_owned(),
                    };
                    Some(ResolveAction::Finish { metadata, store: Some(store) })
                },
                _ => {
                    let next = if p == Provider::Vndb {
                        if resolver.steamgriddb_api_key.is_some() {
                            Some(Provider::SteamGridDb)
                        } else if resolver.igdb_credentials.is_some() {
                            Some(Provider::Igdb)
                        } else {
                            None
                        }
                    } else if p == Provider::SteamGridDb {
                        if resolver.igdb_credentials.is_some() {
                            Some(Provider::Igdb)
                        } else {
                            None
                        }
                    } else {
                        None
                    };
                    Some(self.miss(resolver, next))
                },
            },
        }
    }
}

} // verus!

verus! {

/// The rank of a provider in the order they are asked.
pub open spec fn provider_rank(p: Provider) -> int {
    match p {
        Provider::Vndb => 0,
        Provider::SteamGridDb => 1,
        Provider::Igdb => 2,
    }
}

/// Providers are asked in the order VNDB, SteamGridDB, IGDB, each at most
/// once, skipping those not configured; VNDB is always asked first.
pub proof fn providers_asked_in_order(r: GameResolver, p: Provider)
    ensures
        next_provider(r, None) == Some(Provider::Vndb),
        next_provider(r, Some(p)) matches Some(q) ==> provider_rank(q) > provider_rank(p),
        next_provider(r, Some(p)) == Some(Provider::SteamGridDb) ==> r.sgdb_enabled(),
        next_provider(r, Some(p)) == Some(Provider::Igdb) ==> r.igdb_enabled(),
{
}

/// A provider's match that was cached under a clean name, read back from
/// the cache, answers with the same name and art, reported as coming from
/// the cache of that provider.
pub proof fn cached_match_reads_back(clean: Seq<char>, p: Provider, m: ProviderMatch, c: CachedMetadata)
    requires
        row_of(c) == found_row(clean, p, m),
    ensures
        hit_metadata(c) == (
            found_metadata(p, m).0,
            found_metadata(p, m).1,
            found_metadata(p, m).2,
            cache_source(provider_name(p)),
        ),
{
}

/// The fallback title that was cached under a clean name when no provider
/// found the game, read back from the cache, answers with the same title
/// and no art, reported as coming from the cache of the fallback.
pub proof fn cached_fallback_reads_back(clean: Seq<char>, c: CachedMetadata)
    requires
        row_of(c) == (clean, display_title(clean), None::<Seq<char>>, None::<Seq<char>>, "fallback"@),
    ensures
        hit_metadata(c) == (display_title(clean), None::<Seq<char>>, None::<Seq<char>>, cache_source(
            "fallback"@,
        )),
{
}

} // verus!

verus! {

/// The key a query is cached under: its lowercase form.
pub fn cache_key(query_key: &str) -> (r: String)
    ensures
        r@ == crate::text::lowercase_of(query_key@),
{
    crate::text::lowercase(query_key)
}

/// The row stored for a cache write made at `now` (seconds since the Unix
/// epoch), under the lowercase form of its key.
pub fn cached_row(w: &CacheWrite, now: u64) -> (r: CachedMetadata)
    ensures
        r.query_key@ == crate::text::lowercase_of(w.query_key@),
        r.display_name == w.display_name,
        r.image_url == w.image_url,
        r.small_image_url == w.small_image_url,
        r.provider == w.provider,
        r.cached_at == now,
{
    CachedMetadata {
        query_key: cache_key(w.query_key.as_str()),
        display_name: w.display_name.clone(),
        image_url: clone_opt(&w.image_url),
        small_image_url: clone_opt(&w.small_image_url),
        provider: w.provider.clone(),
        cached_at: now,
    }
}

} // verus!

verus! {

/// Whether a resolver consults a provider: VNDB always, SteamGridDB with an
/// API key, IGDB with client credentials.
pub open spec fn consults(r: GameResolver, p: Provider) -> bool {
    match p {
        Provider::Vndb => true,
        Provider::SteamGridDb => r.steamgriddb_api_key is Some,
        Provider::Igdb => r.igdb_credentials is Some,
    }
}

/// Every provider the resolver consults is asked before the fallback, in
/// the order VNDB, SteamGridDB, IGDB: after a provider that found nothing
/// (or failed), the one asked next is the first consulted provider ranked
/// after it, and the fallback comes only when no consulted provider is left.
pub proof fn every_configured_provider_is_asked(r: GameResolver, p: Provider, q: Provider)
    ensures
        next_provider(r, None) == Some(Provider::Vndb),
        (consults(r, q) && provider_rank(p) < provider_rank(q) && (forall|m: Provider|
            consults(r, m) && provider_rank(p) < #[trigger] provider_rank(m) ==> provider_rank(q)
                <= provider_rank(m))) ==> next_provider(r, Some(p)) == Some(q),
        (forall|m: Provider| consults(r, m) ==> #[trigger] provider_rank(m) <= provider_rank(p))
            ==> next_provider(r, Some(p)) is None,
{
    assert(provider_rank(Provider::SteamGridDb) == 1);
    assert(provider_rank(Provider::Igdb) == 2);
    assert(provider_rank(Provider::Vndb) == 0);
}

} // verus!
