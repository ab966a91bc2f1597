use music_player::audio::{
    complete_load, find_track, get_current_track, get_current_track_info,
    get_playback_position, list_music, play_music, play_next, play_previous, set_tracks,
    set_volume,
};
use music_player::models::{
    copy_text, copy_tracks, AudioState, IndexedFolder, LoadRequest, MusicFile, Phase,
    PlaybackError, SinkCommand, DEFAULT_VOLUME_BITS,
};

const SEC: u64 = 1_000_000_000;
const SEC_SPAN: u128 = 1_000_000_000;

fn track(path: &str, title: &str) -> MusicFile {
    MusicFile {
        path: path.to_string(),
        name: format!("{}.flac", path),
        artist: Some("artist".to_string()),
        album: None,
        title: Some(title.to_string()),
        thumbnail: None,
    }
}

fn session(paths: &[&str], current: &str) -> AudioState {
    let mut state = AudioState::new();
    set_tracks(&mut state, paths.iter().map(|p| track(p, p)).collect());
    let request = play_music(&state, current.to_string());
    assert_eq!(complete_load(&mut state, request, Ok(None), 0), Ok(()));
    state
}

fn play_of(path: &str) -> LoadRequest {
    LoadRequest { path: path.to_string(), volume: DEFAULT_VOLUME_BITS, seek_to: None, start: true }
}

#[test]
fn set_tracks_replaces_the_catalog_and_nothing_else() {
    let mut state = session(&["a", "b"], "a");
    let before = state.clone();
    set_tracks(&mut state, vec![track("x", "one"), track("y", "two"), track("z", "three")]);
    assert_eq!(list_music(&state), vec![track("x", "one"), track("y", "two"), track("z", "three")]);
    assert_eq!(state.current_track, before.current_track);
    assert_eq!(state.sink, before.sink);
    assert_eq!(state.playback_start, before.playback_start);
    assert_eq!(state.volume, before.volume);
    set_tracks(&mut state, Vec::new());
    assert!(list_music(&state).is_empty());
}

#[test]
fn copies_are_equal_to_what_they_copy() {
    let one = track("a", "first");
    assert_eq!(one.duplicate(), one);
    let list = vec![track("a", "first"), track("b", "second")];
    assert_eq!(copy_tracks(&list), list);
    assert_eq!(copy_text(&Some("text".to_string())), Some("text".to_string()));
    assert_eq!(copy_text(&None), None);
    let folder = IndexedFolder { id: 7, path: "/music".to_string(), last_indexed: "now".to_string() };
    assert_eq!(folder.clone(), folder);
}

#[test]
fn find_track_gives_the_first_match() {
    let tracks = vec![track("a", "1"), track("b", "2"), track("a", "3"), track("c", "4")];
    assert_eq!(find_track(&tracks, &"a".to_string()), Some(0));
    assert_eq!(find_track(&tracks, &"b".to_string()), Some(1));
    assert_eq!(find_track(&tracks, &"c".to_string()), Some(3));
    assert_eq!(find_track(&tracks, &"d".to_string()), None);
    assert_eq!(find_track(&Vec::new(), &"a".to_string()), None);
}

#[test]
fn current_track_info_is_the_first_entry_with_the_path() {
    let mut state = AudioState::new();
    assert_eq!(get_current_track(&state), None);
    assert_eq!(get_current_track_info(&state), None);
    set_tracks(&mut state, vec![track("a", "first"), track("b", "second"), track("b", "third")]);
    let request = play_music(&state, "b".to_string());
    complete_load(&mut state, request, Ok(None), 0).unwrap();
    assert_eq!(get_current_track(&state), Some("b".to_string()));
    assert_eq!(get_current_track_info(&state), Some(track("b", "second")));
}

#[test]
fn current_track_info_is_absent_for_a_stale_path() {
    let mut state = session(&["a", "b"], "a");
    set_tracks(&mut state, vec![track("x", "x")]);
    assert_eq!(get_current_track(&state), Some("a".to_string()));
    assert_eq!(get_current_track_info(&state), None);
    assert_eq!(play_next(&state), None);
    assert_eq!(play_previous(&state), None);
}

#[test]
fn next_and_previous_move_by_one_entry() {
    let mut state = session(&["a", "b", "c"], "b");
    set_volume(&mut state, 0.3f32.to_bits());
    let next = play_next(&state).unwrap();
    assert_eq!(next, LoadRequest { volume: 0.3f32.to_bits(), ..play_of("c") });
    let previous = play_previous(&state).unwrap();
    assert_eq!(previous, LoadRequest { volume: 0.3f32.to_bits(), ..play_of("a") });
    complete_load(&mut state, next, Ok(Some(5 * SEC_SPAN)), 3 * SEC).unwrap();
    assert_eq!(get_current_track(&state), Some("c".to_string()));
    assert_eq!(state.phase(), Phase::Playing);
}

#[test]
fn next_at_the_last_entry_does_nothing() {
    let state = session(&["a", "b"], "b");
    let before = state.clone();
    assert_eq!(play_next(&state), None);
    assert_eq!(state, before);
    assert_eq!(get_current_track(&state), Some("b".to_string()));
}

#[test]
fn previous_at_the_first_entry_does_nothing() {
    let state = session(&["a", "b"], "a");
    let before = state.clone();
    assert_eq!(play_previous(&state), None);
    assert_eq!(state, before);
    assert_eq!(get_current_track(&state), Some("a".to_string()));
}

#[test]
fn next_and_previous_without_track_or_catalog_do_nothing() {
    let mut state = AudioState::new();
    assert_eq!(play_next(&state), None);
    assert_eq!(play_previous(&state), None);
    set_tracks(&mut state, vec![track("a", "a")]);
    assert_eq!(play_next(&state), None);
    let only = session(&["a"], "a");
    assert_eq!(play_next(&only), None);
    assert_eq!(play_previous(&only), None);
}

#[test]
fn next_goes_by_the_first_occurrence_of_the_path() {
    let state = session(&["a", "b", "a"], "a");
    assert_eq!(play_next(&state), Some(play_of("b")));
    assert_eq!(play_previous(&state), None);
}

#[test]
fn end_of_track_advances_to_the_next_entry() {
    let mut state = AudioState::new();
    set_tracks(&mut state, vec![track("A", "a"), track("B", "b")]);
    let request = play_music(&state, "A".to_string());
    complete_load(&mut state, request, Ok(Some(10 * SEC_SPAN)), 0).unwrap();

    let (elapsed, total, command) = get_playback_position(&mut state, 10 * SEC, 0);
    assert_eq!(elapsed, 10 * SEC_SPAN);
    assert_eq!(total, Some(10 * SEC_SPAN));
    assert_eq!(command, SinkCommand::Load(play_of("B")));
    assert_eq!(state.playback_start, None);

    if let SinkCommand::Load(request) = command {
        complete_load(&mut state, request, Ok(Some(20 * SEC_SPAN)), 10 * SEC).unwrap();
    }
    assert_eq!(get_current_track(&state), Some("B".to_string()));
    assert_eq!(state.phase(), Phase::Playing);
    let (elapsed, total, command) = get_playback_position(&mut state, 10 * SEC, 1);
    assert_eq!(elapsed, 0);
    assert_eq!(total, Some(20 * SEC_SPAN));
    assert_eq!(command, SinkCommand::Nothing);
}

#[test]
fn end_of_track_is_seen_once_when_the_advance_fails() {
    let mut state = session(&["a", "b"], "a");
    let (_, _, command) = get_playback_position(&mut state, 10 * SEC, 0);
    assert_eq!(command, SinkCommand::Load(play_of("b")));
    let (elapsed, _, again) = get_playback_position(&mut state, 11 * SEC, 0);
    assert_eq!(again, SinkCommand::Nothing);
    assert_eq!(elapsed, 0);
    if let SinkCommand::Load(request) = command {
        assert_eq!(
            complete_load(&mut state, request, Err(PlaybackError::DecodeError), 11 * SEC),
            Err(PlaybackError::DecodeError)
        );
    }
    assert_eq!(state.phase(), Phase::Idle);
    assert_eq!(get_playback_position(&mut state, 12 * SEC, 0).2, SinkCommand::Nothing);
}

#[test]
fn end_of_the_last_track_stops_the_clock() {
    let mut state = session(&["a", "b"], "b");
    let (elapsed, _, command) = get_playback_position(&mut state, 20 * SEC, 0);
    assert_eq!(elapsed, 20 * SEC_SPAN);
    assert_eq!(command, SinkCommand::Nothing);
    assert_eq!(state.playback_start, None);
    assert_eq!(get_current_track(&state), Some("b".to_string()));
    let first = get_playback_position(&mut state, 21 * SEC, 0).0;
    let second = get_playback_position(&mut state, 99 * SEC, 0).0;
    assert_eq!(first, second);
}

#[test]
fn exhausted_output_while_paused_does_not_advance() {
    let mut state = session(&["a", "b"], "a");
    music_player::audio::pause_music(&mut state, 2 * SEC);
    let before = state.clone();
    let (elapsed, _, command) = get_playback_position(&mut state, 30 * SEC, 0);
    assert_eq!(elapsed, 2 * SEC_SPAN);
    assert_eq!(command, SinkCommand::Nothing);
    assert_eq!(state, before);
}
