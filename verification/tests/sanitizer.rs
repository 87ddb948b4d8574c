use any_games_discord_rich_presence::sanitizer::{sanitize_to_display_title, title_from_lowered_name};

#[test]
fn test_sanitizer() {
    assert_eq!(sanitize_to_display_title("elden_ring.exe"), "Elden Ring");
    assert_eq!(sanitize_to_display_title("hollow-knight.exe"), "Hollow Knight");
    assert_eq!(sanitize_to_display_title("witcher3"), "Witcher3");
    assert_eq!(sanitize_to_display_title("cyberpunk2077.exe"), "Cyberpunk2077");
}

#[test]
fn sanitizer_handles_case_dots_and_repeated_separators() {
    assert_eq!(sanitize_to_display_title("MONSTER_HUNTER_WORLD.EXE"), "Monster Hunter World");
    assert_eq!(sanitize_to_display_title("steins.gate__0"), "Steins Gate 0");
    assert_eq!(sanitize_to_display_title("  spaced   name  "), "Spaced Name");
}

#[test]
fn sanitizer_strips_repeated_exe_suffix() {
    assert_eq!(sanitize_to_display_title("game.exe.exe"), "Game");
}

#[test]
fn sanitizer_keeps_names_without_words() {
    assert_eq!(sanitize_to_display_title("___"), "___");
    assert_eq!(sanitize_to_display_title(".exe"), ".exe");
    assert_eq!(sanitize_to_display_title(""), "");
}

#[test]
fn sanitizer_uppercases_non_ascii_first_letters() {
    assert_eq!(sanitize_to_display_title("ökonomie_spiel"), "Ökonomie Spiel");
}

#[test]
fn title_from_the_lowercased_name() {
    assert_eq!(title_from_lowered_name("ELDEN_RING.EXE", "elden_ring.exe"), "Elden Ring");
    assert_eq!(title_from_lowered_name("___", "___"), "___");
}

#[test]
fn sanitizing_twice_changes_nothing_more() {
    for raw in ["elden_ring.exe", "MONSTER-hunter.world", "x.exe.exe", "  a__b  ", "___", "Witcher3"] {
        let once = sanitize_to_display_title(raw);
        assert_eq!(sanitize_to_display_title(&once), once);
    }
}
