use any_games_discord_rich_presence::config::{
    default_client_id, default_ignored_processes, default_poll_interval_secs,
    default_shared_details, default_shared_state, default_true, AppConfig, GameOverride,
    DEFAULT_IGNORED_COUNT,
};

fn config_with(games: Vec<(&str, GameOverride)>) -> AppConfig {
    let mut c = AppConfig::default();
    c.games = games.into_iter().map(|(k, v)| (k.to_string(), v)).collect();
    c
}

#[test]
fn defaults_match_the_documented_values() {
    assert_eq!(default_client_id(), "1539094427459649686");
    assert_eq!(default_poll_interval_secs(), 3);
    assert_eq!(default_shared_details(), "{game_title}");
    assert_eq!(default_shared_state(), "Reading / In-Game");
    assert!(default_true());
    let ignored = default_ignored_processes();
    assert_eq!(ignored.len(), DEFAULT_IGNORED_COUNT);
    assert_eq!(ignored[0], "system");
    assert!(ignored.iter().any(|p| p == "discord.exe"));
    assert_eq!(ignored.last().unwrap(), "any-games-discord-rich-presence.exe");
    let c = AppConfig::default();
    assert!(c.games.is_empty());
    assert!(c.general.show_elapsed_time);
    assert!(c.api.steamgriddb_api_key.is_none());
}

#[test]
fn ignore_list_is_case_insensitive_with_or_without_exe() {
    let c = AppConfig::default();
    assert!(c.is_ignored("Chrome.EXE"));
    assert!(c.is_ignored("chrome"));
    assert!(c.is_ignored("System Idle Process"));
    assert!(!c.is_ignored("eldenring.exe"));
}

#[test]
fn override_ignore_flag_ignores_a_game() {
    let mut ov = GameOverride::default();
    ov.ignore = true;
    let c = config_with(vec![("benchmark_tool", ov)]);
    assert!(c.is_ignored("Benchmark_Tool.exe"));
    assert!(!c.is_ignored("other.exe"));
}

#[test]
fn overrides_are_found_by_name_or_stem() {
    let mut ov = GameOverride::default();
    ov.display_name = Some("Elden Ring".to_string());
    let mut ov2 = GameOverride::default();
    ov2.display_name = Some("Witcher".to_string());
    let c = config_with(vec![("eldenring", ov), ("witcher3.exe", ov2)]);
    assert_eq!(c.find_game_override("EldenRing.exe").unwrap().display_name.as_deref(), Some("Elden Ring"));
    assert_eq!(c.find_game_override("eldenring").unwrap().display_name.as_deref(), Some("Elden Ring"));
    assert_eq!(c.find_game_override("Witcher3.EXE").unwrap().display_name.as_deref(), Some("Witcher"));
    assert_eq!(c.find_game_override("witcher3").unwrap().display_name.as_deref(), Some("Witcher"));
    assert!(c.find_game_override("unknown.exe").is_none());
}

#[test]
fn template_holds_the_default_client_id() {
    let t = AppConfig::generate_template();
    assert!(t.starts_with("# Any Game Discord Rich Presence Daemon Configuration"));
    assert!(t.contains("default_client_id = \"1539094427459649686\""));
    assert!(t.contains("[api]"));
}

#[test]
fn directories_fall_back_to_local_ones() {
    assert_eq!(AppConfig::config_dir_or_default(None), "./config");
    assert_eq!(AppConfig::cache_dir_or_default(None), "./cache");
    assert_eq!(AppConfig::config_dir_or_default(Some("/x".to_string())), "/x");
    assert_eq!(AppConfig::cache_dir_or_default(Some("/y".to_string())), "/y");
}

#[test]
fn config_file_path_is_joined_onto_the_directory() {
    let p = AppConfig::config_file_path_in("/home/u/.config/app");
    assert_eq!(p, format!("/home/u/.config/app{}config.toml", std::path::MAIN_SEPARATOR));
    assert_eq!(AppConfig::config_file_path_in("/dir/"), "/dir/config.toml");
    assert!(AppConfig::get_config_file_path().ends_with("config.toml"));
    assert!(!AppConfig::get_config_dir().is_empty());
    assert!(!AppConfig::get_cache_dir().is_empty());
}

#[test]
fn platform_directories_hold_the_application_name() {
    let c = AppConfig::get_config_dir();
    assert!(c == "./config" || c.contains("any-games-discord-rich-presence"), "{}", c);
    let k = AppConfig::get_cache_dir();
    assert!(k == "./cache" || k.contains("any-games-discord-rich-presence"), "{}", k);
}

#[test]
fn a_key_with_exe_is_found_for_a_name_without_it() {
    let c = config_with(vec![("witcher3.exe", GameOverride::default())]);
    assert!(c.find_game_override("witcher3").is_some());
    assert!(c.find_lowered_override("witcher3").is_some());
    assert!(c.find_lowered_override("witcher3.exe").is_some());
    assert!(c.find_lowered_override("Witcher3").is_none());
}

#[test]
fn ignoring_given_the_lowercased_names() {
    let entries = vec!["chrome.exe".to_string(), "steam".to_string()];
    assert!(AppConfig::ignored_given(true, "anything", &entries));
    assert!(AppConfig::ignored_given(false, "chrome", &entries));
    assert!(AppConfig::ignored_given(false, "steam.exe", &entries));
    assert!(!AppConfig::ignored_given(false, "Chrome.exe", &entries));
    assert!(!AppConfig::ignored_given(false, "eldenring.exe", &entries));
}

#[test]
fn inserting_a_game_replaces_its_override() {
    let mut c = AppConfig::default();
    let mut a = GameOverride::default();
    a.display_name = Some("A".to_string());
    let mut b = GameOverride::default();
    b.display_name = Some("B".to_string());
    c.insert_game("game".to_string(), a);
    c.insert_game("other.exe".to_string(), GameOverride::default());
    c.insert_game("game".to_string(), b);
    assert_eq!(c.games.len(), 2);
    assert_eq!(c.find_game_override("GAME.exe").unwrap().display_name.as_deref(), Some("B"));
}
