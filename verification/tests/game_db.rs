use any_games_discord_rich_presence::config::{AppConfig, GameOverride};
use any_games_discord_rich_presence::game_db::{
    cache_key, cached_row, CacheWrite, CachedMetadata, GameResolver, Provider, ProviderMatch,
    Resolution, ResolveAction, ResolveEvent, ResolveStage,
};

fn resolver(sgdb: bool, igdb: bool) -> GameResolver {
    let mut c = AppConfig::default();
    if sgdb {
        c.api.steamgriddb_api_key = Some("key".to_string());
    }
    if igdb {
        c.api.igdb_client_id = Some("id".to_string());
        c.api.igdb_client_secret = Some("secret".to_string());
    }
    GameResolver::new(&c)
}

#[test]
fn resolver_enables_configured_providers() {
    let mut c = AppConfig::default();
    c.api.steamgriddb_api_key = Some("  ".to_string());
    c.api.igdb_client_id = Some("id".to_string());
    let r = GameResolver::new(&c);
    assert!(r.steamgriddb_api_key.is_none());
    assert!(r.igdb_credentials.is_none());
    assert!(r.vndb_token.is_none());
    let r2 = resolver(true, true);
    assert_eq!(r2.steamgriddb_api_key.as_deref(), Some("key"));
    assert_eq!(r2.igdb_credentials.as_ref().unwrap().1, "secret");
}

#[test]
fn manual_override_answers_first() {
    let mut c = AppConfig::default();
    let mut ov = GameOverride::default();
    ov.display_name = Some("Elden Ring: Shadow of the Erdtree".to_string());
    ov.image_url = Some("https://img".to_string());
    c.games.push(("eldenring".to_string(), ov));
    let (res, action) = Resolution::start("eldenring.exe", "eldenring", &c);
    assert!(res.stage == ResolveStage::Finished);
    match action {
        ResolveAction::Finish { metadata, store } => {
            assert_eq!(metadata.display_name, "Elden Ring: Shadow of the Erdtree");
            assert_eq!(metadata.source, "manual_config");
            assert_eq!(metadata.image_url.as_deref(), Some("https://img"));
            assert!(store.is_none());
        }
        _ => panic!("expected finish"),
    }
}

#[test]
fn cache_hit_answers_without_providers() {
    let c = AppConfig::default();
    let r = resolver(true, true);
    let (mut res, action) = Resolution::start("eldenring.exe", "eldenring", &c);
    match action {
        ResolveAction::LookupCache { key } => assert_eq!(key, "eldenring"),
        _ => panic!("expected a cache lookup"),
    }
    let hit = CachedMetadata {
        query_key: "eldenring".to_string(),
        display_name: "ELDEN RING".to_string(),
        image_url: Some("u".to_string()),
        small_image_url: None,
        provider: "steamgriddb".to_string(),
        cached_at: 0,
    };
    match res.step(&r, ResolveEvent::CacheHit(hit)) {
        Some(ResolveAction::Finish { metadata, store }) => {
            assert_eq!(metadata.display_name, "ELDEN RING");
            assert_eq!(metadata.source, "cache (steamgriddb)");
            assert!(store.is_none());
        }
        _ => panic!("expected finish"),
    }
    assert!(res.step(&r, ResolveEvent::NotFound).is_none());
}

#[test]
fn providers_are_asked_in_order_and_the_match_is_cached() {
    let c = AppConfig::default();
    let r = resolver(true, true);
    let (mut res, _) = Resolution::start("hollow_knight.exe", "hollow_knight", &c);
    assert_eq!(res.query, "Hollow Knight");
    match res.step(&r, ResolveEvent::CacheMiss) {
        Some(ResolveAction::Query { provider, query }) => {
            assert_eq!(provider, Provider::Vndb);
            assert_eq!(query, "Hollow Knight");
        }
        _ => panic!("expected vndb"),
    }
    match res.step(&r, ResolveEvent::Failed) {
        Some(ResolveAction::Query { provider, .. }) => assert_eq!(provider, Provider::SteamGridDb),
        _ => panic!("expected steamgriddb"),
    }
    let m = ProviderMatch {
        display_name: "Hollow Knight".to_string(),
        image_url: Some("grid".to_string()),
        small_image_url: Some("icon".to_string()),
    };
    match res.step(&r, ResolveEvent::Found(m)) {
        Some(ResolveAction::Finish { metadata, store }) => {
            assert_eq!(metadata.source, "steamgriddb");
            assert_eq!(metadata.small_image_url.as_deref(), Some("icon"));
            let w = store.unwrap();
            assert_eq!(w.query_key, "hollow_knight");
            assert_eq!(w.provider, "steamgriddb");
            assert_eq!(w.image_url.as_deref(), Some("grid"));
        }
        _ => panic!("expected finish"),
    }
}

#[test]
fn only_steamgriddb_keeps_its_icon() {
    let c = AppConfig::default();
    let r = resolver(false, false);
    let (mut res, _) = Resolution::start("x", "x", &c);
    res.step(&r, ResolveEvent::CacheMiss);
    let m = ProviderMatch {
        display_name: "X".to_string(),
        image_url: None,
        small_image_url: Some("icon".to_string()),
    };
    match res.step(&r, ResolveEvent::Found(m)) {
        Some(ResolveAction::Finish { metadata, store }) => {
            assert_eq!(metadata.source, "vndb");
            assert!(metadata.small_image_url.is_none());
            assert!(store.unwrap().small_image_url.is_none());
        }
        _ => panic!("expected finish"),
    }
}

#[test]
fn nothing_found_falls_back_to_the_sanitised_title() {
    let c = AppConfig::default();
    let r = resolver(false, true);
    let (mut res, _) = Resolution::start("monster_hunter_world.exe", "monster_hunter_world", &c);
    res.step(&r, ResolveEvent::CacheMiss);
    match res.step(&r, ResolveEvent::NotFound) {
        Some(ResolveAction::Query { provider, .. }) => assert_eq!(provider, Provider::Igdb),
        _ => panic!("expected igdb"),
    }
    match res.step(&r, ResolveEvent::NotFound) {
        Some(ResolveAction::Finish { metadata, store }) => {
            assert_eq!(metadata.display_name, "Monster Hunter World");
            assert_eq!(metadata.source, "fallback");
            let w = store.unwrap();
            assert_eq!(w.provider, "fallback");
            assert_eq!(w.display_name, "Monster Hunter World");
        }
        _ => panic!("expected finish"),
    }
}

#[test]
fn cache_rows_use_lowercase_keys() {
    assert_eq!(cache_key("EldenRing"), "eldenring");
    let w = CacheWrite {
        query_key: "Hollow_Knight".to_string(),
        display_name: "Hollow Knight".to_string(),
        image_url: None,
        small_image_url: Some("i".to_string()),
        provider: "igdb".to_string(),
    };
    let row = cached_row(&w, 77);
    assert_eq!(row.query_key, "hollow_knight");
    assert_eq!(row.cached_at, 77);
    assert_eq!(row.small_image_url.as_deref(), Some("i"));
}
