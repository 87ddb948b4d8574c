use any_games_discord_rich_presence::config::{AppConfig, GameOverride};
use any_games_discord_rich_presence::process::{
    clean_executable_name, clean_lowered_name, is_candidate, is_likely_game, is_likely_game_lowered,
    is_system_path, select_best_game,
    GameProcess, ProcessEvent, ProcessSnapshot, ProcessWatcher,
};

fn snap(pid: u32, name: &str, path: Option<&str>, start: u64) -> ProcessSnapshot {
    ProcessSnapshot { pid, name: name.to_string(), exe_path: path.map(|p| p.to_string()), start_time: start }
}

fn game(pid: u32, name: &str, start: u64) -> GameProcess {
    GameProcess {
        pid,
        exe_name: name.to_string(),
        clean_name: clean_executable_name(name),
        exe_path: None,
        start_time: start,
    }
}

#[test]
fn clean_names_drop_engine_suffixes() {
    assert_eq!(clean_executable_name("Hollow_Knight-Win64-Shipping.exe"), "hollow_knight");
    assert_eq!(clean_executable_name("Witcher3.exe"), "witcher3");
    assert_eq!(clean_executable_name("game_x64_dx12.exe"), "game_x64");
    assert_eq!(clean_executable_name("game_dx12_x64.exe"), "game");
    assert_eq!(clean_executable_name("Portal-Steam"), "portal");
    assert_eq!(clean_executable_name("_shipping.exe"), "");
}

#[test]
fn game_heuristics_use_library_paths_and_engine_names() {
    assert!(is_likely_game("eldenring.exe", Some("C:\\Program Files (x86)\\Steam\\steamapps\\common\\ELDEN RING\\eldenring.exe")));
    assert!(is_likely_game("hk", Some("/home/u/Games/hk/hk")));
    assert!(is_likely_game("Game-Win64-Shipping.exe", None));
    assert!(!is_likely_game("UnityCrashHandler64.exe", None));
    assert!(!is_likely_game("notepad.exe", Some("C:\\Windows\\notepad.exe")));
}

#[test]
fn system_paths_are_recognised() {
    assert!(is_system_path("c:\\windows\\system32\\svchost.exe"));
    assert!(is_system_path("/usr/bin/bash"));
    assert!(!is_system_path("d:\\games\\x.exe"));
}

#[test]
fn explicit_games_win_over_newer_ones() {
    let mut c = AppConfig::default();
    c.games.push(("old".to_string(), GameOverride::default()));
    let cands = vec![game(1, "old.exe", 10), game(2, "new.exe", 50)];
    assert_eq!(select_best_game(&cands, &c).unwrap().pid, 1);
    let plain = AppConfig::default();
    assert_eq!(select_best_game(&cands, &plain).unwrap().pid, 2);
    let ties = vec![game(3, "a.exe", 7), game(4, "b.exe", 7)];
    assert_eq!(select_best_game(&ties, &plain).unwrap().pid, 4);
    assert!(select_best_game(&Vec::new(), &plain).is_none());
}

#[test]
fn candidates_are_filtered() {
    let c = AppConfig::default();
    assert!(is_candidate(&c, &snap(1, "Game-Win64-Shipping.exe", None, 5)));
    assert!(!is_candidate(&c, &snap(2, "chrome.exe", Some("c:\\games\\chrome.exe"), 5)));
    assert!(!is_candidate(&c, &snap(3, "x.exe", Some("C:\\Windows\\System32\\x.exe"), 5)));
    assert!(!is_candidate(&c, &snap(4, "notes.exe", None, 5)));
}

#[test]
fn poll_reports_start_switch_and_stop_once() {
    let c = AppConfig::default();
    let mut w = ProcessWatcher::new();
    let first = vec![snap(10, "a_shipping.exe", None, 100), snap(11, "explorer.exe", None, 1)];
    match w.poll(&first, 500, &c) {
        Some(ProcessEvent::Started(p)) => {
            assert_eq!(p.pid, 10);
            assert_eq!(p.clean_name, "a");
            assert_eq!(p.start_time, 100);
        }
        _ => panic!("expected a start"),
    }
    assert!(w.poll(&first, 600, &c).is_none());
    assert_eq!(w.current_active_game().unwrap().pid, 10);
    let second = vec![snap(10, "a_shipping.exe", None, 100), snap(12, "b_shipping.exe", None, 0)];
    match w.poll(&second, 700, &c) {
        Some(ProcessEvent::Changed { previous, current }) => {
            assert_eq!(previous.unwrap().pid, 10);
            let cur = current.unwrap();
            assert_eq!(cur.pid, 12);
            assert_eq!(cur.start_time, 700);
        }
        _ => panic!("expected a switch"),
    }
    match w.poll(&Vec::new(), 800, &c) {
        Some(ProcessEvent::Stopped(p)) => assert_eq!(p.pid, 12),
        _ => panic!("expected a stop"),
    }
    assert!(w.current_active_game().is_none());
}

#[test]
fn scan_lists_candidates_by_clean_name() {
    let c = AppConfig::default();
    let mut w = ProcessWatcher::new();
    let s = vec![
        snap(1, "zeta_shipping.exe", None, 1),
        snap(2, "alpha_shipping.exe", None, 2),
        snap(3, "mid_shipping.exe", None, 3),
    ];
    let list = w.scan_all_candidates(&s, 10, &c);
    let names: Vec<&str> = list.iter().map(|p| p.clean_name.as_str()).collect();
    assert_eq!(names, vec!["alpha", "mid", "zeta"]);
    assert_eq!(w.current_active_game().unwrap().pid, 3);
}

#[test]
fn name_logic_on_lowercased_text() {
    assert_eq!(clean_lowered_name("hollow_knight-win64-shipping.exe"), "hollow_knight");
    assert_eq!(clean_lowered_name("Portal-Steam"), "Portal-Steam");
    assert!(is_likely_game_lowered("game-win64-shipping.exe", None));
    assert!(!is_likely_game_lowered("Game-Win64-Shipping.exe", None));
    assert!(is_likely_game_lowered("x.exe", Some("d:/games/x/x.exe")));
    assert!(!is_likely_game_lowered("unitycrashhandler64.exe", None));
}
