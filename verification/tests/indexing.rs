use music_player::indexing::{
    audio_files, count_distinct, describe_track, folder_changed, is_audio_file,
    is_supported_extension, pick_tags, FileEntry, TrackTags,
};
use music_player::models::MusicFile;

fn paths(list: &[&str]) -> Vec<String> {
    list.iter().map(|p| p.to_string()).collect()
}

#[test]
fn supported_extensions_are_the_four() {
    for extension in ["mp3", "wav", "flac", "ogg"] {
        assert!(is_supported_extension(extension));
    }
    for extension in ["", "mp4", "MP3", "txt", "mp3 ", "oga", "fla"] {
        assert!(!is_supported_extension(extension));
    }
}

#[test]
fn audio_file_goes_by_the_lowercase_extension() {
    assert!(is_audio_file(true, Some("mp3")));
    assert!(is_audio_file(true, Some("MP3")));
    assert!(is_audio_file(true, Some("Flac")));
    assert!(is_audio_file(true, Some("OGG")));
    assert!(is_audio_file(true, Some("wAv")));
    assert!(!is_audio_file(true, Some("jpg")));
    assert!(!is_audio_file(true, Some("")));
    assert!(!is_audio_file(true, None));
    assert!(!is_audio_file(false, Some("mp3")));
    assert!(!is_audio_file(false, None));
}

#[test]
fn described_track_carries_the_tags() {
    let tags = TrackTags {
        artist: Some("Artist".to_string()),
        album: None,
        title: Some("Title".to_string()),
    };
    assert_eq!(
        describe_track("/m/a.mp3".to_string(), "a.mp3".to_string(), Some(tags)),
        MusicFile {
            path: "/m/a.mp3".to_string(),
            name: "a.mp3".to_string(),
            artist: Some("Artist".to_string()),
            album: None,
            title: Some("Title".to_string()),
            thumbnail: None,
        }
    );
}

#[test]
fn described_track_without_tags_has_absent_fields() {
    assert_eq!(
        describe_track("/m/b.ogg".to_string(), "b.ogg".to_string(), None),
        MusicFile {
            path: "/m/b.ogg".to_string(),
            name: "b.ogg".to_string(),
            artist: None,
            album: None,
            title: None,
            thumbnail: None,
        }
    );
}

#[test]
fn distinct_count_ignores_repeats() {
    assert_eq!(count_distinct(&paths(&[])), 0);
    assert_eq!(count_distinct(&paths(&["a"])), 1);
    assert_eq!(count_distinct(&paths(&["a", "b", "a", "c", "b", "a"])), 3);
    assert_eq!(count_distinct(&paths(&["a", "a", "a"])), 1);
}

#[test]
fn folder_is_unchanged_when_the_store_matches_the_disk() {
    assert!(!folder_changed(&paths(&[]), 0, &paths(&[])));
    assert!(!folder_changed(&paths(&["a", "b", "c"]), 3, &paths(&["c", "a", "b"])));
    assert!(!folder_changed(&paths(&["a", "b", "a"]), 2, &paths(&["b", "a"])));
}

#[test]
fn folder_changed_when_the_counts_differ() {
    assert!(folder_changed(&paths(&["a", "b", "c"]), 2, &paths(&["a", "b"])));
    assert!(folder_changed(&paths(&["a"]), 2, &paths(&["a", "b"])));
    assert!(folder_changed(&paths(&[]), 1, &paths(&["a"])));
    assert!(folder_changed(&paths(&["a"]), -1, &paths(&["a"])));
}

#[test]
fn folder_changed_when_a_stored_path_is_gone() {
    assert!(folder_changed(&paths(&["a", "b", "x"]), 3, &paths(&["a", "b", "c"])));
    assert!(folder_changed(&paths(&["a", "b"]), 2, &paths(&["a", "B"])));
}

fn entry(path: &str, is_file: bool, extension: Option<&str>) -> FileEntry {
    FileEntry {
        path: path.to_string(),
        name: path.rsplit('/').next().unwrap().to_string(),
        is_file,
        extension: extension.map(|e| e.to_string()),
    }
}

#[test]
fn audio_files_keeps_the_audio_entries_in_order() {
    let entries = vec![
        entry("/m", false, None),
        entry("/m/b.MP3", true, Some("MP3")),
        entry("/m/cover.jpg", true, Some("jpg")),
        entry("/m/a.flac", true, Some("flac")),
        entry("/m/album.ogg", false, Some("ogg")),
        entry("/m/README", true, None),
        entry("/m/c.Wav", true, Some("Wav")),
    ];
    let found = audio_files(&entries);
    assert_eq!(
        found,
        vec![
            entry("/m/b.MP3", true, Some("MP3")),
            entry("/m/a.flac", true, Some("flac")),
            entry("/m/c.Wav", true, Some("Wav")),
        ]
    );
    assert!(audio_files(&Vec::new()).is_empty());
    assert_eq!(entries[1].duplicate(), entries[1]);
}

#[test]
fn primary_tag_goes_before_the_first_tag() {
    let primary = || TrackTags { artist: Some("p".to_string()), album: None, title: None };
    let first = || TrackTags { artist: None, album: Some("f".to_string()), title: None };
    let picked = pick_tags(Some(primary()), Some(first())).unwrap();
    assert_eq!((picked.artist, picked.album), (Some("p".to_string()), None));
    let picked = pick_tags(None, Some(first())).unwrap();
    assert_eq!((picked.artist, picked.album), (None, Some("f".to_string())));
    let picked = pick_tags(Some(primary()), None).unwrap();
    assert_eq!(picked.artist, Some("p".to_string()));
    assert!(pick_tags(None, None).is_none());
}
