use nokota::app::AppState;
use nokota::app_actions::PlayPlaylist;
use nokota::app_actions::StateMutation;
use nokota::audio_player::AudioPlayer;
use nokota::audio_player::SinkCommand;
use nokota::playlist::Playlist;
use nokota::track::Track;

fn track(title: &str, ms: u64) -> Track {
    Track::new(
        format!("/music/{title}.mp3"),
        String::from(title),
        String::from("someone"),
        ms,
    )
}

#[test]
fn play_mutation_leaves_playback_loaded_and_running() {
    // Whatever played before — here: something paused — queueing a
    // playlist with a track and playing leaves the sink loaded and not
    // paused.
    let mut state = AppState::new(Vec::new(), Vec::new());
    state.player.pause();
    assert!(state.player.is_paused());
    assert!(state.player.empty());

    let playlist = Playlist::new(
        String::from("Mix"),
        vec![track("one", 65000)],
        String::from("mix.toml"),
    );
    StateMutation::Play(PlayPlaylist::new(playlist)).mutate_state(&mut state);

    assert!(!state.player.empty());
    assert!(!state.player.is_paused());
    assert_eq!(state.player.get_current().map(|t| t.title.as_str()), Some("one"));
}

#[test]
fn playlist_plays_front_to_back() {
    let mut player = AudioPlayer::new();
    player.queue_playlist(vec![track("one", 1000), track("two", 1000), track("three", 1000)]);
    player.play();
    assert_eq!(player.get_current().map(|t| t.title.as_str()), Some("one"));

    // The sink drains; the next tick moves on and remembers the track.
    player.observe_sink(true, 1000);
    player.tick();
    assert_eq!(player.get_current().map(|t| t.title.as_str()), Some("two"));
    assert_eq!(player.history.len(), 1);
    assert_eq!(player.history[0].title, "one");
}

#[test]
fn sink_commands_record_the_decisions_in_order() {
    let mut player = AudioPlayer::new();
    player.queue_playlist(vec![track("one", 1000)]);
    player.play();
    player.pause();
    let commands = player.take_commands();
    assert_eq!(commands.len(), 4);
    assert!(matches!(commands[0], SinkCommand::Clear));
    match &commands[1] {
        SinkCommand::Append(t) => assert_eq!(t.title, "one"),
        _ => panic!("expected the track to be handed to the sink"),
    }
    assert!(matches!(commands[2], SinkCommand::Play));
    assert!(matches!(commands[3], SinkCommand::Pause));
    assert_eq!(player.take_commands().len(), 0);
}

#[test]
fn paused_player_ignores_ticks() {
    let mut player = AudioPlayer::new();
    player.queue_playlist(vec![track("one", 1000)]);
    player.pause();
    player.tick();
    assert!(player.get_current().is_none());
    assert!(player.empty());
}

#[test]
fn progress_label_shows_elapsed_and_total() {
    let mut player = AudioPlayer::new();
    assert_eq!(player.get_progress_label(), "00:00:00|NAN");

    player.queue_playlist(vec![track("one", 3661000)]);
    player.play();
    player.observe_sink(false, 61000);
    assert_eq!(player.get_progress_label(), "00:01:01|01:01:01");
    assert_eq!(player.get_progress(), (61000, 3661000));
}

#[test]
fn playlist_duration_sums_track_lengths() {
    let playlist = Playlist::new(
        String::from("Mix"),
        vec![track("one", 1500), track("two", 2500)],
        String::from("mix.toml"),
    );
    assert_eq!(playlist.get_duration(), 4000);

    let empty = Playlist::new(String::from("Empty"), Vec::new(), String::from("e.toml"));
    assert_eq!(empty.get_duration(), 0);
}

#[test]
fn track_row_carries_title_artist_and_clock_label() {
    // Would fail if the duration formatter handed its input back instead
    // of a clock label.
    let row = track("one", 3661000).data();
    assert_eq!(row, vec![
        String::from("one"),
        String::from("someone"),
        String::from("01:01:01"),
    ]);
}

#[test]
fn clear_log_mutation_drops_the_lines() {
    let mut state = AppState::new(Vec::new(), vec![String::from("a"), String::from("b")]);
    StateMutation::Clear(nokota::app_actions::ClearLog).mutate_state(&mut state);
    assert!(state.log_lines.is_empty());
}

#[test]
fn pause_and_resume_mutations_toggle_the_sink() {
    let mut state = AppState::new(Vec::new(), Vec::new());
    StateMutation::Pause.mutate_state(&mut state);
    assert!(state.player.is_paused());
    StateMutation::Resume.mutate_state(&mut state);
    assert!(!state.player.is_paused());
}
