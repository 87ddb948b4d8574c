use any_games_discord_rich_presence::manager::RpcManager;
use any_games_discord_rich_presence::tray::{
    command_for, gamepad_icon_rgba, on_tray_command, pause_label, status_text, LoopAction,
    TrayCommand, TrayMenuItem,
};

#[test]
fn status_lines_and_labels() {
    assert_eq!(status_text(true, Some("x")), "Status: Paused");
    assert_eq!(status_text(false, Some("eldenring")), "Playing: eldenring");
    assert_eq!(status_text(false, None), "Status: Watching for Games");
    assert_eq!(pause_label(true), "Resume Watching");
    assert_eq!(pause_label(false), "Pause Watching");
}

#[test]
fn menu_items_map_to_commands() {
    assert_eq!(command_for(TrayMenuItem::Status), None);
    assert_eq!(command_for(TrayMenuItem::Pause), Some(TrayCommand::TogglePause));
    assert_eq!(command_for(TrayMenuItem::Quit), Some(TrayCommand::Quit));
    assert_eq!(command_for(TrayMenuItem::ClearCache), Some(TrayCommand::ClearCache));
}

#[test]
fn toggling_pause_twice_restores_it() {
    let mut m = RpcManager::new();
    assert_eq!(on_tray_command(&mut m, TrayCommand::TogglePause), LoopAction::UpdateStatus);
    assert!(m.is_paused());
    on_tray_command(&mut m, TrayCommand::TogglePause);
    assert!(!m.is_paused());
    assert_eq!(on_tray_command(&mut m, TrayCommand::Quit), LoopAction::Shutdown);
    assert_eq!(on_tray_command(&mut m, TrayCommand::ReloadConfig), LoopAction::ReloadConfig);
}

#[test]
fn icon_pixels() {
    let px = gamepad_icon_rgba();
    assert_eq!(px.len(), 4096);
    let at = |x: usize, y: usize| &px[(y * 32 + x) * 4..(y * 32 + x) * 4 + 4];
    assert_eq!(at(0, 0), &[0, 0, 0, 0]);
    assert_eq!(at(4, 8), &[88, 101, 242, 255]);
    assert_eq!(at(9, 15), &[255, 255, 255, 255]);
    assert_eq!(at(15, 14), &[50, 60, 160, 255]);
    assert_eq!(at(25, 15), &[255, 255, 255, 255]);
    assert_eq!(at(31, 31), &[0, 0, 0, 0]);
}
