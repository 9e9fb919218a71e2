use mpris_ctl::command::{list_names_call, Command, MethodCall, CALL_TIMEOUT_MS};
use mpris_ctl::discovery::{get_players, Player};
use mpris_ctl::run::{decide, no_player_message, Action, Plan};

fn player(name: &str) -> Player {
    Player::new(name.to_string()).unwrap()
}

fn call(dest: &str, member: &str) -> MethodCall {
    MethodCall {
        destination: dest.to_string(),
        path: "/org/mpris/MediaPlayer2".to_string(),
        interface: "org.mpris.MediaPlayer2.Player".to_string(),
        member: member.to_string(),
    }
}

#[test]
fn command_method_names() {
    assert_eq!(Command::PlayPause.method(), "PlayPause");
    assert_eq!(Command::Play.method(), "Play");
    assert_eq!(Command::Pause.method(), "Pause");
    assert_eq!(Command::Stop.method(), "Stop");
    assert_eq!(Command::Next.method(), "Next");
}

#[test]
fn each_command_addresses_its_method() {
    let p = player("org.mpris.MediaPlayer2.vlc");
    let d = "org.mpris.MediaPlayer2.vlc";
    assert_eq!(p.play_pause(), call(d, "PlayPause"));
    assert_eq!(p.play(), call(d, "Play"));
    assert_eq!(p.pause(), call(d, "Pause"));
    assert_eq!(p.stop(), call(d, "Stop"));
    assert_eq!(p.next(), call(d, "Next"));
    assert_eq!(p.send_mpris_command(Command::Stop), call(d, "Stop"));
}

#[test]
fn list_names_query() {
    let c = list_names_call();
    assert_eq!(c.destination, "org.freedesktop.DBus");
    assert_eq!(c.path, "/");
    assert_eq!(c.interface, "org.freedesktop.DBus");
    assert_eq!(c.member, "ListNames");
}

#[test]
fn timeout_is_two_seconds() {
    assert_eq!(CALL_TIMEOUT_MS, 2000);
}

#[test]
fn action_commands() {
    assert_eq!(Action::ListAll.command(), None);
    assert_eq!(Action::PlayPause.command(), Some(Command::PlayPause));
    assert_eq!(Action::Play.command(), Some(Command::Play));
    assert_eq!(Action::Pause.command(), Some(Command::Pause));
    assert_eq!(Action::Stop.command(), Some(Command::Stop));
    assert_eq!(Action::Next.command(), Some(Command::Next));
}

#[test]
fn no_player_reports_and_sends_nothing() {
    for a in [
        Action::PlayPause,
        Action::Play,
        Action::Pause,
        Action::Stop,
        Action::Next,
    ] {
        assert!(matches!(decide(a, &Vec::new()), Plan::NoPlayer));
    }
    assert_eq!(no_player_message(), "No player found");
}

#[test]
fn no_player_after_filter() {
    let ps = get_players(&vec!["org.freedesktop.DBus".to_string(), ":1.7".to_string()]);
    assert!(matches!(decide(Action::PlayPause, &ps), Plan::NoPlayer));
}

#[test]
fn command_targets_first_player() {
    let ps = vec![
        player("org.mpris.MediaPlayer2.vlc"),
        player("org.mpris.MediaPlayer2.spotify"),
    ];
    match decide(Action::Pause, &ps) {
        Plan::Dispatch(c) => assert_eq!(c, call("org.mpris.MediaPlayer2.vlc", "Pause")),
        other => panic!("unexpected plan {:?}", other),
    }
}

#[test]
fn list_prints_every_player_and_dispatches_nothing() {
    let ps = vec![
        player("org.mpris.MediaPlayer2.vlc"),
        player("org.mpris.MediaPlayer2.spotify"),
    ];
    match decide(Action::ListAll, &ps) {
        Plan::List(lines) => assert_eq!(
            lines,
            vec!["org.mpris.MediaPlayer2.vlc", "org.mpris.MediaPlayer2.spotify"]
        ),
        other => panic!("unexpected plan {:?}", other),
    }
}

#[test]
fn list_with_no_player_is_empty() {
    match decide(Action::ListAll, &Vec::new()) {
        Plan::List(lines) => assert!(lines.is_empty()),
        other => panic!("unexpected plan {:?}", other),
    }
}
