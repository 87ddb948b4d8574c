use any_games_discord_rich_presence::config::{AppConfig, GameOverride};
use any_games_discord_rich_presence::game_db::GameMetadata;
use any_games_discord_rich_presence::manager::{
    build_activity_payload, choose_client_id, fallback_metadata, fill_template_exec,
    payload_after_connect,
    test_presence_activity, PresenceAction, RpcManager,
};
use any_games_discord_rich_presence::process::{GameProcess, ProcessEvent};

fn proc_named(pid: u32, clean: &str, start: u64) -> GameProcess {
    GameProcess {
        pid,
        exe_name: format!("{}.exe", clean),
        clean_name: clean.to_string(),
        exe_path: None,
        start_time: start,
    }
}

fn meta(name: &str, image: Option<&str>, small: Option<&str>) -> GameMetadata {
    GameMetadata {
        display_name: name.to_string(),
        image_url: image.map(|s| s.to_string()),
        small_image_url: small.map(|s| s.to_string()),
        source: "test".to_string(),
    }
}

#[test]
fn shared_mode_payload_uses_templates_and_metadata_art() {
    let config = AppConfig::default();
    let p = proc_named(7, "eldenring", 1234);
    let m = meta("Elden Ring", Some("https://img/cover.png"), None);
    let a = build_activity_payload(&p, &m, None, &config, false);
    assert_eq!(a.details.as_deref(), Some("Elden Ring"));
    assert_eq!(a.state.as_deref(), Some("Reading / In-Game"));
    let ts = a.timestamps.unwrap();
    assert_eq!(ts.start, Some(1234));
    assert_eq!(ts.end, None);
    let assets = a.assets.unwrap();
    assert_eq!(assets.large_image.as_deref(), Some("https://img/cover.png"));
    assert_eq!(assets.large_text.as_deref(), Some("Elden Ring"));
    assert!(assets.small_image.is_none());
    assert!(a.buttons.is_none());
    assert_eq!(a.instance, Some(false));
}

#[test]
fn shared_templates_fill_every_placeholder() {
    let mut config = AppConfig::default();
    config.general.shared_state_template = "Playing {game_title}: {game_title}".to_string();
    config.general.show_elapsed_time = false;
    let a = build_activity_payload(&proc_named(1, "x", 5), &meta("X", None, None), None, &config, false);
    assert_eq!(a.state.as_deref(), Some("Playing X: X"));
    assert!(a.timestamps.is_none());
    assert!(a.assets.is_none());
    assert_eq!(fill_template_exec(&"{game_title}!".to_string(), &"Y".to_string()), "Y!");
}

#[test]
fn per_game_mode_payload_uses_override_fields_and_buttons() {
    let config = AppConfig::default();
    let mut ov = GameOverride::default();
    ov.client_id = Some("123456789012345678".to_string());
    ov.details = Some("Hallownest".to_string());
    ov.image_url = Some("https://img/hk.png".to_string());
    ov.small_text = Some("badge".to_string());
    ov.button_1_label = Some("Info".to_string());
    ov.button_1_url = Some("https://hk".to_string());
    ov.button_2_label = Some("Only label".to_string());
    let (cid, per_game) = choose_client_id(Some(&ov), &config);
    assert_eq!(cid, "123456789012345678");
    assert!(per_game);
    let a = build_activity_payload(&proc_named(2, "hollow_knight", 9), &meta("Hollow Knight", Some("https://meta"), Some("https://icon")), Some(&ov), &config, per_game);
    assert_eq!(a.details.as_deref(), Some("Hallownest"));
    assert_eq!(a.state.as_deref(), Some("Reading / In-Game"));
    let assets = a.assets.unwrap();
    assert_eq!(assets.large_image.as_deref(), Some("https://img/hk.png"));
    assert_eq!(assets.small_image.as_deref(), Some("https://icon"));
    assert_eq!(assets.small_text.as_deref(), Some("badge"));
    let buttons = a.buttons.unwrap();
    assert_eq!(buttons.len(), 1);
    assert_eq!(buttons[0].label, "Info");
    assert_eq!(buttons[0].url, "https://hk");
}

#[test]
fn blank_override_client_id_keeps_shared_mode() {
    let config = AppConfig::default();
    let mut ov = GameOverride::default();
    ov.client_id = Some("   ".to_string());
    let (cid, per_game) = choose_client_id(Some(&ov), &config);
    assert_eq!(cid, "1539094427459649686");
    assert!(!per_game);
    let (cid2, per_game2) = choose_client_id(None, &config);
    assert_eq!(cid2, "1539094427459649686");
    assert!(!per_game2);
}

#[test]
fn manager_reacts_to_process_events() {
    let mut m = RpcManager::new();
    assert!(!m.is_paused());
    assert!(m.should_poll());
    match m.on_process_event(ProcessEvent::Started(proc_named(1, "a", 1))) {
        PresenceAction::Publish(p) => assert_eq!(p.pid, 1),
        _ => panic!("expected publish"),
    }
    let st = m.get_status(true, Some("1539094427459649686"), "1539094427459649686");
    assert_eq!(st.current_game.as_deref(), Some("a"));
    assert_eq!(st.active_mode, "Shared Mode");
    assert!(st.is_discord_connected);
    let st2 = m.get_status(true, Some("42"), "1539094427459649686");
    assert_eq!(st2.active_mode, "Per-Game Mode");
    match m.on_process_event(ProcessEvent::Changed { previous: None, current: None }) {
        PresenceAction::Clear(p) => assert_eq!(p.pid, 1),
        _ => panic!("expected clear"),
    }
    assert!(matches!(m.on_process_event(ProcessEvent::Changed { previous: None, current: None }), PresenceAction::Nothing));
    let st3 = m.get_status(false, None, "x");
    assert_eq!(st3.active_mode, "Idle");
    assert!(st3.current_game.is_none());
    m.set_paused(true);
    assert!(m.is_paused());
    assert!(!m.should_poll());
    assert!(m.get_status(false, None, "x").is_paused);
}

#[test]
fn stop_and_shutdown_clear_the_current_game() {
    let mut m = RpcManager::new();
    m.on_process_event(ProcessEvent::Started(proc_named(5, "g", 1)));
    match m.on_process_event(ProcessEvent::Stopped(proc_named(5, "g", 1))) {
        PresenceAction::Clear(p) => assert_eq!(p.pid, 5),
        _ => panic!("expected clear"),
    }
    m.on_process_event(ProcessEvent::Started(proc_named(6, "h", 1)));
    assert_eq!(m.shutdown().unwrap().pid, 6);
    assert!(m.shutdown().is_none());
}

#[test]
fn fallback_and_test_presence() {
    let f = fallback_metadata(&proc_named(1, "witcher3", 0));
    assert_eq!(f.display_name, "witcher3");
    assert_eq!(f.source, "fallback");
    assert!(f.image_url.is_none());
    let t = test_presence_activity("Hollow Knight", None, 99);
    assert_eq!(t.details.as_deref(), Some("Hollow Knight"));
    assert_eq!(t.state.as_deref(), Some("Testing Generic RPC Daemon"));
    let assets = t.assets.unwrap();
    assert_eq!(assets.large_image.as_deref(), Some("https://cdn2.steamgriddb.com/grid/6cf6c986c753b879c3886f4a860b86a8.png"));
    let t2 = test_presence_activity("X", Some("https://c".to_string()), 1);
    assert_eq!(t2.assets.unwrap().large_image.as_deref(), Some("https://c"));
}

#[test]
fn nothing_is_published_before_a_connection() {
    let config = AppConfig::default();
    let p = proc_named(9, "hollow_knight", 77);
    let m = meta("Hollow Knight", None, None);
    assert!(payload_after_connect(false, &p, &m, None, &config, false).is_none());
    let a = payload_after_connect(true, &p, &m, None, &config, false).unwrap();
    assert_eq!(a.details.as_deref(), Some("Hollow Knight"));
}
