use any_games_discord_rich_presence::ipc::{
    close_frame, handshake_frame, pipe_names, socket_dirs, socket_paths, ConnectPlan, IpcError,
    IpcSession,
};

#[test]
fn connecting_twice_with_the_same_id_does_nothing() {
    let mut s = IpcSession::new();
    assert!(!s.is_connected());
    assert_eq!(s.connect_plan("1"), ConnectPlan::Connect { disconnect_first: false });
    s.on_connect_result("1", true);
    assert!(s.is_connected());
    assert_eq!(s.active_client_id(), Some("1"));
    assert_eq!(s.connect_plan("1"), ConnectPlan::AlreadyConnected);
    assert_eq!(s.connect_plan("2"), ConnectPlan::Connect { disconnect_first: true });
    s.on_connect_result("2", false);
    assert!(!s.is_connected());
    assert_eq!(s.active_client_id(), None);
    s.on_connect_result("3", true);
    s.on_disconnected();
    assert_eq!(s.active_client_id(), None);
}

#[test]
fn frames_are_only_sent_when_connected() {
    let mut s = IpcSession::new();
    assert_eq!(s.activity_frame("{}"), Err(IpcError::NotConnected));
    assert_eq!(s.clear_frame("{}"), None);
    s.on_connect_result("1", true);
    assert_eq!(s.activity_frame("{}").unwrap(), vec![1, 0, 0, 0, 2, 0, 0, 0, b'{', b'}']);
    assert_eq!(s.clear_frame("{}").unwrap()[0], 1);
    assert_eq!(close_frame(), vec![2, 0, 0, 0, 2, 0, 0, 0, b'{', b'}']);
    assert_eq!(handshake_frame("{}")[0], 0);
}

#[test]
fn socket_directories_and_paths() {
    let d = socket_dirs(&Some("/run/user/1000".to_string()), &None, &Some("/t".to_string()), &None);
    assert_eq!(
        d,
        vec![
            "/run/user/1000".to_string(),
            "/t".to_string(),
            "/tmp".to_string(),
            "/run/user/1000/app/com.discordapp.Discord".to_string(),
            "/run/user/1000/app/com.discordapp.DiscordCanary".to_string(),
        ]
    );
    assert_eq!(socket_dirs(&None, &None, &None, &None), vec!["/tmp".to_string()]);
    let p = socket_paths(&vec!["/tmp".to_string(), "/x/".to_string()]);
    assert_eq!(p.len(), 20);
    assert_eq!(p[0], "/tmp/discord-ipc-0");
    assert_eq!(p[9], "/tmp/discord-ipc-9");
    assert_eq!(p[10], "/x/discord-ipc-0");
    let n = pipe_names();
    assert_eq!(n.len(), 10);
    assert_eq!(n[3], r"\\.\pipe\discord-ipc-3");
}
