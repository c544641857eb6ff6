use impulse::browser::{
    has_audio_extension, is_audio_extension, is_audio_file, Browser, FileEntry, Listed,
};

fn listed(path: &str, is_dir: bool) -> Listed {
    Listed { path: String::from(path), is_dir }
}

fn music() -> Vec<Listed> {
    vec![
        listed("/music/zebra.mp3", false),
        listed("/music/notes.txt", false),
        listed("/music/Rock", true),
        listed("/music/alpha.FLAC", false),
        listed("/music/Jazz", true),
        listed("/music/cover.jpg", false),
        listed("/music/beta.ogg", false),
    ]
}

fn browser() -> Browser {
    let mut browser = Browser::new(String::from("/music"));
    assert!(browser.needs_listing());
    browser.load_entries(music());
    assert!(!browser.needs_listing());
    browser
}

#[test]
fn audio_files_are_known_by_their_extension() {
    for name in ["a.mp3", "a.flac", "a.ogg", "a.wav", "a.m4a", "a.aac", "a.alac", "a.opus"] {
        assert!(is_audio_file(name), "{}", name);
    }
    assert!(is_audio_file("/music/Song.MP3"));
    assert!(is_audio_file("/music/a.b.Flac"));
    assert!(!is_audio_file("/music/notes.txt"));
    assert!(!is_audio_file("/music/mp3"));
    assert!(!is_audio_file("/music/.mp3"));
    assert!(!is_audio_file("/music/song"));
    assert!(is_audio_file("/music/song.mp3/"));
    assert!(!is_audio_file(""));
    assert!(has_audio_extension("OPUS"));
    assert!(!has_audio_extension("mp4"));
    assert!(is_audio_extension("wav"));
    assert!(!is_audio_extension("WAV"));
}

#[test]
fn entries_know_their_path_name_and_kind() {
    let dir = FileEntry::Directory(String::from("/music/Rock"));
    let up = FileEntry::ParentDirectory(String::from("/"));
    let file = FileEntry::AudioFile(String::from("/music/Rock/song.mp3"));
    assert_eq!(dir.path(), "/music/Rock");
    assert_eq!(dir.name(), "Rock");
    assert!(dir.is_dir());
    assert_eq!(up.path(), "/");
    assert_eq!(up.name(), "..");
    assert!(up.is_dir());
    assert_eq!(file.path(), "/music/Rock/song.mp3");
    assert_eq!(file.name(), "song.mp3");
    assert!(!file.is_dir());
    assert_eq!(FileEntry::Directory(String::from("/")).name(), "");
    assert_eq!(FileEntry::AudioFile(String::from("/music/..")).name(), "");
}

#[test]
fn listing_is_sorted_with_the_parent_first() {
    let browser = browser();
    let expected = vec![
        FileEntry::ParentDirectory(String::from("/")),
        FileEntry::Directory(String::from("/music/Jazz")),
        FileEntry::Directory(String::from("/music/Rock")),
        FileEntry::AudioFile(String::from("/music/alpha.FLAC")),
        FileEntry::AudioFile(String::from("/music/beta.ogg")),
        FileEntry::AudioFile(String::from("/music/zebra.mp3")),
    ];
    assert_eq!(browser.entries(), &expected[..]);
    assert_eq!(browser.selected(), 0);
    assert_eq!(browser.current_dir(), "/music");
    assert_eq!(browser.selected_entry(), Some(&expected[0]));
}

#[test]
fn sorting_goes_by_code_points_and_keeps_equal_names_in_order() {
    let mut browser = Browser::new(String::from("/"));
    browser.load_entries(vec![
        listed("/b/same.mp3", false),
        listed("/a/same.mp3", false),
        listed("/x/b.mp3", false),
        listed("/x/B.mp3", false),
        listed("/x/ab.mp3", false),
        listed("/x/a.mp3", false),
    ]);
    let names: Vec<&str> = browser.entries().iter().map(|entry| entry.path()).collect();
    assert_eq!(
        names,
        vec!["/x/B.mp3", "/x/a.mp3", "/x/ab.mp3", "/x/b.mp3", "/b/same.mp3", "/a/same.mp3"]
    );
}

#[test]
fn root_has_no_parent_entry() {
    let mut browser = Browser::new(String::from("/"));
    browser.load_entries(vec![listed("/music", true)]);
    assert_eq!(browser.entries(), &[FileEntry::Directory(String::from("/music"))][..]);
    browser.go_parent();
    assert!(!browser.needs_listing());
    assert_eq!(browser.current_dir(), "/");
}

#[test]
fn empty_directory() {
    let mut browser = Browser::new(String::from("/"));
    browser.load_entries(Vec::new());
    assert!(browser.entries().is_empty());
    assert_eq!(browser.selected(), 0);
    assert_eq!(browser.selected_entry(), None);
    browser.select_next();
    assert_eq!(browser.selected(), 0);
    browser.select_last();
    assert_eq!(browser.selected(), 0);
    browser.select_prev();
    assert_eq!(browser.selected(), 0);
    assert_eq!(browser.enter_selected(), None);
    assert!(!browser.needs_listing());
}

#[test]
fn selection_moves_and_stops_at_the_ends() {
    let mut browser = browser();
    browser.select_prev();
    assert_eq!(browser.selected(), 0);
    browser.select_next();
    assert_eq!(browser.selected(), 1);
    browser.select_last();
    assert_eq!(browser.selected(), 5);
    browser.select_next();
    assert_eq!(browser.selected(), 5);
    browser.select_prev();
    assert_eq!(browser.selected(), 4);
    browser.select_first();
    assert_eq!(browser.selected(), 0);
}

#[test]
fn selecting_by_path() {
    let mut browser = browser();
    browser.select_entry_by_path("/music/beta.ogg");
    assert_eq!(browser.selected(), 4);
    browser.select_entry_by_path("/music/none.ogg");
    assert_eq!(browser.selected(), 4);
    browser.select_entry_by_path("/");
    assert_eq!(browser.selected(), 0);
}

#[test]
fn entering_a_file_hands_out_its_path() {
    let mut browser = browser();
    browser.select_entry_by_path("/music/zebra.mp3");
    assert_eq!(browser.enter_selected(), Some(String::from("/music/zebra.mp3")));
    assert!(!browser.needs_listing());
    assert_eq!(browser.current_dir(), "/music");
    assert_eq!(browser.selected(), 5);
}

#[test]
fn entering_a_directory_and_coming_back_restores_the_selection() {
    let mut browser = browser();
    browser.select_entry_by_path("/music/Rock");
    assert_eq!(browser.selected(), 2);
    assert_eq!(browser.enter_selected(), None);
    assert!(browser.needs_listing());
    assert_eq!(browser.current_dir(), "/music/Rock");
    assert!(browser.entries().is_empty());
    browser.load_entries(vec![listed("/music/Rock/one.mp3", false)]);
    assert_eq!(
        browser.entries(),
        &[
            FileEntry::ParentDirectory(String::from("/music")),
            FileEntry::AudioFile(String::from("/music/Rock/one.mp3")),
        ][..]
    );
    assert_eq!(browser.selected(), 0);
    browser.select_next();

    browser.go_parent();
    assert!(browser.needs_listing());
    assert_eq!(browser.current_dir(), "/music");
    browser.load_entries(music());
    assert_eq!(browser.selected(), 2);

    browser.select_entry_by_path("/music/Rock");
    assert_eq!(browser.enter_selected(), None);
    browser.load_entries(vec![
        listed("/music/Rock/one.mp3", false),
        listed("/music/Rock/two.mp3", false),
    ]);
    assert_eq!(browser.selected(), 1);
}

#[test]
fn remembered_selection_is_held_inside_a_shorter_listing() {
    let mut browser = browser();
    browser.select_last();
    browser.remember_selection();
    browser.load_entries(vec![listed("/music/only.mp3", false)]);
    assert_eq!(browser.selected(), 1);
    browser.navigate_to(String::from("/music"), true);
    browser.load_entries(Vec::new());
    assert_eq!(browser.entries(), &[FileEntry::ParentDirectory(String::from("/"))][..]);
    assert_eq!(browser.selected(), 0);
}

#[test]
fn navigating_needs_a_directory() {
    let mut browser = browser();
    browser.navigate_to(String::from("/music/zebra.mp3"), false);
    assert_eq!(browser.current_dir(), "/music");
    assert!(!browser.needs_listing());
    browser.navigate_to(String::from("/other"), true);
    assert_eq!(browser.current_dir(), "/other");
    assert!(browser.needs_listing());
}

#[test]
fn entering_the_parent_entry_moves_up() {
    let mut browser = browser();
    browser.select_first();
    assert_eq!(browser.enter_selected(), None);
    assert_eq!(browser.current_dir(), "/");
    assert!(browser.needs_listing());
}
