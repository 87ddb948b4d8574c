use any_games_discord_rich_presence::providers::{
    cached_token, first_url, igdb_auth_header, igdb_cover_url, igdb_is_configured, igdb_outcome,
    igdb_query, igdb_start, igdb_token_for_query, igdb_token_url, sgdb_auth_header, sgdb_grid_url,
    sgdb_icon_url, sgdb_search_url, token_outcome, token_state_after, token_ttl_secs,
    vndb_auth_header, vndb_display_name, vndb_outcome, vndb_search_request, HttpOutcome, IgdbGame,
    IgdbStart, LookupError, SgdbAction, SgdbGame, SgdbLookup, SgdbStage, TokenState, VndbEntry,
    VndbTitle,
};

#[test]
fn steamgriddb_requests() {
    assert_eq!(sgdb_auth_header("  abc \n"), "Bearer abc");
    assert_eq!(
        sgdb_search_url("Elden Ring: Nightreign"),
        "https://www.steamgriddb.com/api/v2/search/autocomplete/Elden%20Ring%3A%20Nightreign"
    );
    assert_eq!(sgdb_search_url("é~_.-"), "https://www.steamgriddb.com/api/v2/search/autocomplete/%C3%A9~_.-");
    assert_eq!(
        sgdb_grid_url(123),
        "https://www.steamgriddb.com/api/v2/grids/game/123?dimensions=600x900,512x512,1024x1024,920x430&styles=alternate,official&types=static"
    );
    assert_eq!(sgdb_icon_url(9), "https://www.steamgriddb.com/api/v2/icons/game/9");
    assert_eq!(first_url(Some(vec!["a".to_string(), "b".to_string()])), Some("a".to_string()));
    assert_eq!(first_url(Some(Vec::new())), None);
    assert_eq!(first_url(None), None);
}

#[test]
fn steamgriddb_lookup_walks_search_grid_icon() {
    let (lookup, action) = SgdbLookup::start(" ", "x");
    assert!(matches!(lookup.stage, SgdbStage::Done));
    assert!(matches!(action, SgdbAction::Finish(Ok(None))));

    let (mut lookup, action) = SgdbLookup::start("key", "Hollow Knight");
    match action {
        SgdbAction::Get(u) => assert!(u.ends_with("/Hollow%20Knight")),
        _ => panic!("expected a search"),
    }
    let games = vec![SgdbGame { id: 5, name: "Hollow Knight".to_string() }, SgdbGame { id: 6, name: "Other".to_string() }];
    match lookup.on_search(HttpOutcome::Success, Some(Some(games))) {
        SgdbAction::Get(u) => assert!(u.starts_with("https://www.steamgriddb.com/api/v2/grids/game/5?")),
        _ => panic!("expected grids"),
    }
    match lookup.on_grids(None) {
        SgdbAction::Get(u) => assert_eq!(u, "https://www.steamgriddb.com/api/v2/icons/game/5"),
        _ => panic!("expected icons"),
    }
    match lookup.on_icons(Some(Some(vec!["icon".to_string()]))) {
        SgdbAction::Finish(Ok(Some(info))) => {
            assert_eq!(info.display_name, "Hollow Knight");
            assert!(info.image_url.is_none());
            assert_eq!(info.icon_url.as_deref(), Some("icon"));
        }
        _ => panic!("expected a match"),
    }
}

#[test]
fn steamgriddb_search_failures() {
    let (mut l, _) = SgdbLookup::start("key", "x");
    assert!(matches!(l.on_search(HttpOutcome::SendFailed, None), SgdbAction::Finish(Err(LookupError::RequestFailed))));
    let (mut l, _) = SgdbLookup::start("key", "x");
    assert!(matches!(l.on_search(HttpOutcome::ErrorStatus, None), SgdbAction::Finish(Ok(None))));
    let (mut l, _) = SgdbLookup::start("key", "x");
    assert!(matches!(l.on_search(HttpOutcome::Success, None), SgdbAction::Finish(Err(LookupError::UnreadableResponse))));
    let (mut l, _) = SgdbLookup::start("key", "x");
    assert!(matches!(l.on_search(HttpOutcome::Success, Some(None)), SgdbAction::Finish(Ok(None))));
    let (mut l, _) = SgdbLookup::start("key", "x");
    assert!(matches!(l.on_search(HttpOutcome::Success, Some(Some(Vec::new()))), SgdbAction::Finish(Ok(None))));
}

fn title(lang: Option<&str>, t: &str, main: Option<bool>) -> VndbTitle {
    VndbTitle { lang: lang.map(|s| s.to_string()), title: t.to_string(), main }
}

#[test]
fn vndb_requests_and_names() {
    let req = vndb_search_request("steins gate");
    assert_eq!(req.filters, vec!["search".to_string(), "=".to_string(), "steins gate".to_string()]);
    assert_eq!(req.results, 1);
    assert_eq!(vndb_auth_header(&Some(" tok ".to_string())), Some("Token tok".to_string()));
    assert_eq!(vndb_auth_header(&Some("  ".to_string())), None);
    assert_eq!(vndb_auth_header(&None), None);
    let e = VndbEntry {
        title: "Steins;Gate".to_string(),
        alttitle: Some("シュタインズ・ゲート".to_string()),
        titles: Some(vec![title(Some("en"), "Steins;Gate", Some(true)), title(Some("ja"), " ", None), title(Some("ja"), "シュタゲ", None)]),
        image_url: Some("https://t.vndb.org/cv/1.jpg".to_string()),
    };
    assert_eq!(vndb_display_name(&e, false), "Steins;Gate");
    assert_eq!(vndb_display_name(&e, true), "シュタゲ");
    let e2 = VndbEntry { title: "T".to_string(), alttitle: Some("Alt".to_string()), titles: None, image_url: None };
    assert_eq!(vndb_display_name(&e2, true), "Alt");
    let e3 = VndbEntry { title: "T".to_string(), alttitle: Some(" ".to_string()), titles: Some(vec![title(None, "Main", Some(true))]), image_url: None };
    assert_eq!(vndb_display_name(&e3, true), "Main");
}

#[test]
fn vndb_outcomes() {
    assert_eq!(vndb_outcome(HttpOutcome::SendFailed, None, false).err(), Some(LookupError::RequestFailed));
    assert!(matches!(vndb_outcome(HttpOutcome::ErrorStatus, None, false), Ok(None)));
    assert_eq!(vndb_outcome(HttpOutcome::Success, None, false).err(), Some(LookupError::UnreadableResponse));
    assert!(matches!(vndb_outcome(HttpOutcome::Success, Some(Vec::new()), false), Ok(None)));
    let e = VndbEntry { title: "T".to_string(), alttitle: None, titles: None, image_url: Some("i".to_string()) };
    let info = vndb_outcome(HttpOutcome::Success, Some(vec![e]), true).unwrap().unwrap();
    assert_eq!(info.display_name, "T");
    assert_eq!(info.image_url.as_deref(), Some("i"));
}

#[test]
fn igdb_requests() {
    assert!(igdb_is_configured("id", "sec"));
    assert!(!igdb_is_configured("id", " "));
    assert_eq!(
        igdb_token_url(" id ", "sec\n"),
        "https://id.twitch.tv/oauth2/token?client_id=id&client_secret=sec&grant_type=client_credentials"
    );
    assert_eq!(igdb_query("Say \"hi\""), "search \"Say \\\"hi\\\"\"; fields name, cover.image_id; limit 1;");
    assert_eq!(igdb_cover_url("co49x5"), "https://images.igdb.com/igdb/image/upload/t_cover_big/co49x5.jpg");
    assert_eq!(igdb_auth_header("t"), "Bearer t");
}

#[test]
fn igdb_tokens() {
    assert_eq!(token_ttl_secs(3600), 3540);
    assert_eq!(token_ttl_secs(30), 30);
    let st = token_state_after("tok".to_string(), 100, 1_000);
    assert_eq!(st.expires_at_ms, 41_000);
    let some = Some(TokenState { access_token: "tok".to_string(), expires_at_ms: 5_000 });
    assert_eq!(cached_token(&some, 4_999), Some("tok".to_string()));
    assert_eq!(cached_token(&some, 5_000), None);
    assert!(matches!(igdb_start("id", "sec", &some, 10), IgdbStart::UseToken(t) if t == "tok"));
    assert!(matches!(igdb_start("id", "sec", &some, 6_000), IgdbStart::FetchToken(_)));
    assert!(matches!(igdb_start("", "sec", &some, 10), IgdbStart::NotConfigured));
    assert_eq!(token_outcome(HttpOutcome::ErrorStatus, None).err(), Some(LookupError::Rejected));
    assert_eq!(token_outcome(HttpOutcome::SendFailed, None).err(), Some(LookupError::RequestFailed));
    assert_eq!(token_outcome(HttpOutcome::Success, None).err(), Some(LookupError::UnreadableResponse));
    assert_eq!(token_outcome(HttpOutcome::Success, Some(("a".to_string(), 5))).unwrap().1, 5);
    assert_eq!(igdb_token_for_query(Ok(("a".to_string(), 5))), Some("a".to_string()));
    assert_eq!(igdb_token_for_query(Err(LookupError::Rejected)), None);
}

#[test]
fn igdb_outcomes() {
    let games = vec![IgdbGame { name: "Elden Ring".to_string(), cover_image_id: Some("co49x5".to_string()) }];
    let info = igdb_outcome(HttpOutcome::Success, Some(games)).unwrap().unwrap();
    assert_eq!(info.display_name, "Elden Ring");
    assert_eq!(info.image_url.as_deref(), Some("https://images.igdb.com/igdb/image/upload/t_cover_big/co49x5.jpg"));
    let no_cover = vec![IgdbGame { name: "X".to_string(), cover_image_id: None }];
    assert!(igdb_outcome(HttpOutcome::Success, Some(no_cover)).unwrap().unwrap().image_url.is_none());
    assert!(matches!(igdb_outcome(HttpOutcome::ErrorStatus, None), Ok(None)));
    assert_eq!(igdb_outcome(HttpOutcome::Success, None).err(), Some(LookupError::UnreadableResponse));
    assert_eq!(igdb_outcome(HttpOutcome::SendFailed, None).err(), Some(LookupError::RequestFailed));
}
