use musicctl::backend::{BackendKind, RemoteCall};
use musicctl::dispatch::{
    absorb, listing, notification, report, shown, task_for, Answer, Command, Notification, Task,
};
use musicctl::error::McError;
use musicctl::track::MusicInfo;

fn song(artist: &str, title: &str, album: &str, cover: &str) -> MusicInfo {
    MusicInfo {
        artist: artist.to_string(),
        title: title.to_string(),
        album: album.to_string(),
        cover: cover.to_string(),
    }
}

fn answer(name: &str, info: Result<Option<MusicInfo>, McError>) -> Answer {
    Answer { name: name.to_string(), info }
}

#[test]
fn run_without_a_command_shows_the_track() {
    assert_eq!(Command::default(), Command::Info);
}

#[test]
fn commands_without_a_call_do_not_depend_on_the_player() {
    for kind in [BackendKind::Mpris, BackendKind::RadioTray, BackendKind::ShairportSync] {
        assert_eq!(task_for(Command::List, kind), Task::ListAll);
        assert_eq!(task_for(Command::Info, kind), Task::ShowActive);
        assert_eq!(task_for(Command::Vinfo, kind), Task::NotifyActive);
        assert_eq!(task_for(Command::Mute, kind), Task::Unsupported);
        assert_eq!(task_for(Command::Stop, kind), Task::Send(RemoteCall::Stop));
    }
}

#[test]
fn controls_become_the_calls_of_the_protocol() {
    for kind in [BackendKind::Mpris, BackendKind::ShairportSync] {
        assert_eq!(task_for(Command::Play, kind), Task::Send(RemoteCall::PlayPause));
        assert_eq!(task_for(Command::Next, kind), Task::Send(RemoteCall::Next));
        assert_eq!(task_for(Command::Prev, kind), Task::Send(RemoteCall::Previous));
    }
    let radio = BackendKind::RadioTray;
    assert_eq!(task_for(Command::Play, radio), Task::Send(RemoteCall::Play));
    assert_eq!(task_for(Command::Next, radio), Task::Send(RemoteCall::NextStation));
    assert_eq!(task_for(Command::Prev, radio), Task::Send(RemoteCall::PreviousStation));
}

#[test]
fn report_line_is_name_colon_track() {
    assert_eq!(
        report("vlc (MPRIS)", &song("Nina Simone", "Sinnerman", "Pastel Blues", "c")),
        "vlc (MPRIS): 'Pastel Blues' Sinnerman by Nina Simone"
    );
    assert_eq!(report("RadioTrayNG", &song("", "", "", "")), "RadioTrayNG: ");
    assert_eq!(report("", &song("x", "", "", "")), ": x");
}

#[test]
fn absorbed_failure_counts_as_no_track() {
    assert_eq!(absorb(Err(McError::Transport("gone".to_string()))), None);
    assert_eq!(absorb(Err(McError::NoActive)), None);
    assert_eq!(absorb(Ok(None)), None);
    assert_eq!(absorb(Ok(Some(song("a", "b", "c", "d")))), Some(song("a", "b", "c", "d")));
}

#[test]
fn listing_has_a_line_for_each_player_with_a_track() {
    let answers = vec![
        answer("Foo (MPRIS)", Ok(Some(song("A1", "T1", "", "")))),
        answer("Bar (MPRIS)", Ok(None)),
        answer("ShairportSync", Err(McError::Transport("gone".to_string()))),
        answer("RadioTrayNG", Ok(Some(song("", "News", "Station", "")))),
        answer("Baz (MPRIS)", Err(McError::Decode("bad".to_string()))),
    ];
    assert_eq!(
        listing(&answers),
        vec!["Foo (MPRIS): T1 by A1", "RadioTrayNG: 'Station' News by "]
    );
}

#[test]
fn listing_of_no_tracks_is_empty() {
    assert!(listing(&Vec::new()).is_empty());
    let answers = vec![answer("a", Ok(None)), answer("b", Err(McError::NoActive))];
    assert!(listing(&answers).is_empty());
}

#[test]
fn listing_keeps_the_order_of_the_players() {
    let answers = vec![
        answer("z", Ok(Some(song("1", "", "", "")))),
        answer("a", Ok(Some(song("2", "", "", "")))),
        answer("z", Ok(Some(song("3", "", "", "")))),
    ];
    assert_eq!(listing(&answers), vec!["z: 1", "a: 2", "z: 3"]);
}

#[test]
fn shown_track_is_one_report_line() {
    assert_eq!(
        shown("vlc (MPRIS)", Ok(Some(song("A", "T", "", "")))),
        Ok(Some("vlc (MPRIS): T by A".to_string()))
    );
}

#[test]
fn player_without_a_track_shows_nothing() {
    assert_eq!(shown("vlc (MPRIS)", Ok(None)), Ok(None));
}

#[test]
fn failure_to_answer_ends_the_showing_with_that_failure() {
    assert_eq!(
        shown("vlc (MPRIS)", Err(McError::Transport("gone".to_string()))),
        Err(McError::Transport("gone".to_string()))
    );
    assert_eq!(
        shown("RadioTrayNG", Err(McError::Decode("bad".to_string()))),
        Err(McError::Decode("bad".to_string()))
    );
}

#[test]
fn notification_carries_cover_track_and_name() {
    let note = notification(
        "vlc (MPRIS)",
        Ok(Some(song("Nina Simone", "Sinnerman", "Pastel Blues", "file:///c.png"))),
    );
    assert_eq!(
        note,
        Some(Notification {
            replaces_id: 0,
            icon: "file:///c.png".to_string(),
            summary: "'Pastel Blues' Sinnerman by Nina Simone".to_string(),
            body: "vlc (MPRIS)".to_string(),
            expire_timeout: 0,
        })
    );
}

#[test]
fn nothing_is_notified_without_a_track() {
    assert_eq!(notification("vlc (MPRIS)", Ok(None)), None);
    assert_eq!(notification("vlc (MPRIS)", Err(McError::Transport("gone".to_string()))), None);
    assert_eq!(notification("RadioTrayNG", Err(McError::Decode("bad".to_string()))), None);
}
