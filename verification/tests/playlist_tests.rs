use impulse::playlist::{
    is_playlist_extension, is_playlist_file, playlist_filename, Playlist, PlaylistError,
    PlaylistManager,
};

#[test]
fn test_playlist_new() {
    let playlist = Playlist::new("Test".to_string(), String::from("/test/playlist.m3u"));
    assert_eq!(playlist.name, "Test");
    assert_eq!(playlist.path, String::from("/test/playlist.m3u"));
    assert!(playlist.tracks.is_empty());
}

#[test]
fn test_playlist_add_track() {
    let mut playlist = Playlist::new("Test".to_string(), String::from("/test/playlist.m3u"));
    playlist.add_track(String::from("/music/track1.mp3"));
    playlist.add_track(String::from("/music/track2.mp3"));

    assert_eq!(playlist.tracks.len(), 2);
    assert_eq!(playlist.tracks[0], String::from("/music/track1.mp3"));
    assert_eq!(playlist.tracks[1], String::from("/music/track2.mp3"));
}

#[test]
fn test_playlist_remove_track() {
    let mut playlist = Playlist::new("Test".to_string(), String::from("/test/playlist.m3u"));
    playlist.add_track(String::from("/music/track1.mp3"));
    playlist.add_track(String::from("/music/track2.mp3"));
    playlist.add_track(String::from("/music/track3.mp3"));

    playlist.remove_track(1);
    assert_eq!(playlist.tracks.len(), 2);
    assert_eq!(playlist.tracks[0], String::from("/music/track1.mp3"));
    assert_eq!(playlist.tracks[1], String::from("/music/track3.mp3"));
}

#[test]
fn test_playlist_remove_track_out_of_bounds() {
    let mut playlist = Playlist::new("Test".to_string(), String::from("/test/playlist.m3u"));
    playlist.add_track(String::from("/music/track1.mp3"));

    playlist.remove_track(5);
    assert_eq!(playlist.tracks.len(), 1);
}

#[test]
fn test_playlist_filename_basic() {
    assert_eq!(playlist_filename("my playlist"), "my playlist.m3u");
    assert_eq!(playlist_filename("test"), "test.m3u");
}

#[test]
fn test_playlist_filename_with_slashes() {
    assert_eq!(playlist_filename("my/playlist"), "my_playlist.m3u");
    assert_eq!(playlist_filename("my\\playlist"), "my_playlist.m3u");
}

#[test]
fn test_playlist_filename_empty() {
    assert_eq!(playlist_filename(""), "playlist.m3u");
    assert_eq!(playlist_filename("   "), "playlist.m3u");
}

#[test]
fn test_playlist_filename_already_has_extension() {
    assert_eq!(playlist_filename("test.m3u"), "test.m3u");
    assert_eq!(playlist_filename("test.m3u8"), "test.m3u8");
}

#[test]
fn test_playlist_save_and_load() {
    let temp_file = String::from("/tmp/test_playlist.m3u");

    let mut playlist = Playlist::new("Test".to_string(), temp_file.clone());
    playlist.add_track(String::from("/music/track1.mp3"));
    playlist.add_track(String::from("/music/track2.mp3"));

    // Save
    let content = playlist.save();

    // Load
    let loaded = Playlist::load(&temp_file, &content);
    assert_eq!(loaded.name, "test_playlist");
    assert_eq!(loaded.tracks.len(), 2);
    assert_eq!(loaded.tracks[0], String::from("/music/track1.mp3"));
    assert_eq!(loaded.tracks[1], String::from("/music/track2.mp3"));
}

#[test]
fn test_playlist_load_ignores_comments() {
    let temp_file = String::from("/tmp/test_playlist_comments.m3u");

    let content = "#EXTM3U\n# This is a comment\n/music/track1.mp3\n  \n/music/track2.mp3\n";

    let loaded = Playlist::load(&temp_file, content);
    assert_eq!(loaded.tracks.len(), 2);
    assert_eq!(loaded.tracks[0], String::from("/music/track1.mp3"));
    assert_eq!(loaded.tracks[1], String::from("/music/track2.mp3"));
}

#[test]
fn playlist_file_text() {
    let mut playlist = Playlist::new("Test".to_string(), String::from("/p/test.m3u"));
    assert_eq!(playlist.save(), "#EXTM3U\n");
    playlist.add_track(String::from("/music/track1.mp3"));
    playlist.add_track(String::from("relative/track 2.flac"));
    assert_eq!(playlist.save(), "#EXTM3U\n/music/track1.mp3\nrelative/track 2.flac\n");
}

#[test]
fn playlist_lines_are_trimmed() {
    let loaded = Playlist::load(
        "/lists/Road Trip.m3u8",
        "  /a.mp3  \r\n\t#EXTINF:1,x\r\n/b.mp3\r\n\r\n /c d.mp3",
    );
    assert_eq!(loaded.name, "Road Trip");
    assert_eq!(loaded.path, "/lists/Road Trip.m3u8");
    assert_eq!(loaded.tracks, vec!["/a.mp3", "/b.mp3", "/c d.mp3"]);
    assert_eq!(Playlist::load("/", "").name, "Unnamed");
    assert!(Playlist::load("/x.m3u", "").tracks.is_empty());
    assert_eq!(Playlist::load(".hidden", "x").name, ".hidden");
}

#[test]
fn playlist_files_are_known_by_their_extension() {
    assert!(is_playlist_file("/lists/a.m3u"));
    assert!(is_playlist_file("/lists/a.m3u8"));
    assert!(!is_playlist_file("/lists/a.M3U"));
    assert!(!is_playlist_file("/lists/a.txt"));
    assert!(!is_playlist_file("/lists/m3u"));
    assert!(is_playlist_extension("m3u"));
    assert!(!is_playlist_extension("m3u9"));
}

#[test]
fn manager_keeps_playlists_sorted_by_name() {
    let mut manager = PlaylistManager::new(String::from("/lists"));
    assert_eq!(manager.playlist_dir(), "/lists");
    assert!(manager.playlists().is_empty());
    assert!(manager.get_playlist(0).is_none());
    let mut first = Playlist::new(String::from("same"), String::from("/lists/1.m3u"));
    first.add_track(String::from("/one.mp3"));
    manager.load_playlists(vec![
        Playlist::new(String::from("zulu"), String::from("/lists/z.m3u")),
        first,
        Playlist::new(String::from("Alpha"), String::from("/lists/A.m3u")),
        Playlist::new(String::from("same"), String::from("/lists/2.m3u")),
        Playlist::new(String::from("alpha"), String::from("/lists/a.m3u")),
    ]);
    let paths: Vec<&str> = manager.playlists().iter().map(|list| list.path.as_str()).collect();
    assert_eq!(
        paths,
        vec!["/lists/A.m3u", "/lists/a.m3u", "/lists/1.m3u", "/lists/2.m3u", "/lists/z.m3u"]
    );
    assert_eq!(manager.get_playlist(2).unwrap().tracks.len(), 1);
    assert!(manager.get_playlist(5).is_none());
    manager.load_playlists(Vec::new());
    assert!(manager.playlists().is_empty());
}

#[test]
fn manager_creates_and_deletes_playlists() {
    let mut manager = PlaylistManager::new(String::from("/lists"));
    let playlist = manager.new_playlist(String::from("road/trip\\mix"));
    assert_eq!(playlist.name, "road/trip\\mix");
    assert_eq!(playlist.path, "/lists/road_trip_mix.m3u");
    assert!(playlist.tracks.is_empty());
    assert_eq!(manager.new_playlist(String::from(" a.m3u ")).path, "/lists/ a.m3u .m3u");
    assert!(manager.playlists().is_empty());
    manager.create_playlist(playlist);
    manager.create_playlist(Playlist::new(String::from("b"), String::from("/lists/b.m3u")));
    assert_eq!(manager.playlists().len(), 2);
    assert_eq!(manager.playlists()[0].name, "road/trip\\mix");
    manager.delete_playlist(5);
    assert_eq!(manager.playlists().len(), 2);
    manager.delete_playlist(0);
    assert_eq!(manager.playlists().len(), 1);
    assert_eq!(manager.playlists()[0].name, "b");
}

#[test]
fn manager_changes_playlists_in_place() {
    let mut manager = PlaylistManager::new(String::from("/lists"));
    manager.create_playlist(Playlist::new(String::from("a"), String::from("/lists/a.m3u")));
    manager.create_playlist(Playlist::new(String::from("b"), String::from("/lists/b.m3u")));
    manager.get_playlist_mut(1).unwrap().add_track(String::from("/x.mp3"));
    assert!(manager.get_playlist_mut(2).is_none());
    manager.playlists_mut()[0].name = String::from("renamed");
    assert_eq!(manager.playlists()[0].name, "renamed");
    assert_eq!(manager.playlists()[1].tracks, vec!["/x.mp3"]);
}

#[test]
fn empty_playlists_are_not_saved() {
    let manager = PlaylistManager::new(String::from("/lists"));
    assert_eq!(manager.save_playlist("mix", &[]).unwrap_err(), PlaylistError::Empty);
    let tracks = vec![String::from("/a.mp3"), String::from("/b.mp3")];
    let playlist = manager.save_playlist("  my/mix ", &tracks).unwrap();
    assert_eq!(playlist.name, "my/mix");
    assert_eq!(playlist.path, "/lists/my_mix.m3u");
    assert_eq!(playlist.tracks, tracks);
    let unnamed = manager.save_playlist("  ", &tracks).unwrap();
    assert_eq!(unnamed.name, "playlist");
    assert_eq!(unnamed.path, "/lists/playlist.m3u");
    assert_eq!(manager.save_playlist("x.m3u8", &tracks).unwrap().path, "/lists/x.m3u8");
}
