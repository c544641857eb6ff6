use impulse::metadata::{
    cover_art_candidates, cover_art_names, has_image_extension, is_image_extension, is_image_file,
    TagKey, TrackMetadata,
};

fn with_duration(secs: Option<u64>) -> TrackMetadata {
    let mut metadata = TrackMetadata::default();
    metadata.duration_secs = secs;
    metadata
}

#[test]
fn default_metadata_knows_nothing() {
    let metadata = TrackMetadata::default();
    assert!(metadata.title.is_none());
    assert!(metadata.artist.is_none());
    assert!(metadata.album.is_none());
    assert!(metadata.album_artist.is_none());
    assert!(metadata.year.is_none());
    assert!(metadata.genre.is_none());
    assert!(metadata.track_number.is_none());
    assert!(metadata.disc_number.is_none());
    assert!(metadata.duration_secs.is_none());
    assert!(metadata.cover_art.is_none());
    assert!(metadata.needs_external_cover());
}

#[test]
fn durations_are_shown_with_colons() {
    assert_eq!(with_duration(None).format_duration(), "Unknown");
    assert_eq!(with_duration(Some(0)).format_duration(), "0:00");
    assert_eq!(with_duration(Some(5)).format_duration(), "0:05");
    assert_eq!(with_duration(Some(59)).format_duration(), "0:59");
    assert_eq!(with_duration(Some(60)).format_duration(), "1:00");
    assert_eq!(with_duration(Some(185)).format_duration(), "3:05");
    assert_eq!(with_duration(Some(3599)).format_duration(), "59:59");
    assert_eq!(with_duration(Some(3600)).format_duration(), "1:00:00");
    assert_eq!(with_duration(Some(3725)).format_duration(), "1:02:05");
    assert_eq!(with_duration(Some(360_000)).format_duration(), "100:00:00");
    assert_eq!(
        with_duration(Some(u64::MAX)).format_duration(),
        "5124095576030431:00:15"
    );
}

#[test]
fn duration_comes_from_time_base_and_frames() {
    let mut metadata = TrackMetadata::default();
    metadata.probe_duration(Some((1, 44_100)), Some(44_100 * 180));
    assert_eq!(metadata.duration_secs, Some(180));
    metadata.probe_duration(Some((1, 48_000)), Some(48_000 * 61 + 47_999));
    assert_eq!(metadata.duration_secs, Some(61));
    metadata.probe_duration(Some((1, 1_000)), None);
    assert_eq!(metadata.duration_secs, Some(61));
    metadata.probe_duration(None, Some(5));
    assert_eq!(metadata.duration_secs, Some(61));
    metadata.probe_duration(Some((3, 2)), Some(7));
    assert_eq!(metadata.duration_secs, Some(10));
}

#[test]
fn tags_are_read_in_order() {
    let mut metadata = TrackMetadata::default();
    metadata.read_tags(vec![
        (TagKey::TrackTitle, String::from("Song")),
        (TagKey::Artist, String::from("Singer")),
        (TagKey::Album, String::from("Record")),
        (TagKey::AlbumArtist, String::from("Band")),
        (TagKey::Date, String::from("1999")),
        (TagKey::Genre, String::from("Jazz")),
        (TagKey::TrackNumber, String::from("3")),
        (TagKey::DiscNumber, String::from("1")),
        (TagKey::Other, String::from("ignored")),
    ]);
    assert_eq!(metadata.title.as_deref(), Some("Song"));
    assert_eq!(metadata.artist.as_deref(), Some("Singer"));
    assert_eq!(metadata.album.as_deref(), Some("Record"));
    assert_eq!(metadata.album_artist.as_deref(), Some("Band"));
    assert_eq!(metadata.year.as_deref(), Some("1999"));
    assert_eq!(metadata.genre.as_deref(), Some("Jazz"));
    assert_eq!(metadata.track_number.as_deref(), Some("3"));
    assert_eq!(metadata.disc_number.as_deref(), Some("1"));
    assert!(metadata.duration_secs.is_none());

    metadata.read_tags(vec![
        (TagKey::ReleaseDate, String::from("2001")),
        (TagKey::TrackTitle, String::from("First")),
        (TagKey::TrackTitle, String::from("Second")),
    ]);
    assert_eq!(metadata.year.as_deref(), Some("2001"));
    assert_eq!(metadata.title.as_deref(), Some("Second"));
    assert_eq!(metadata.artist.as_deref(), Some("Singer"));

    metadata.read_tags(Vec::new());
    assert_eq!(metadata.title.as_deref(), Some("Second"));
}

#[test]
fn first_picture_is_the_cover() {
    let mut metadata = TrackMetadata::default();
    metadata.read_visuals(Vec::new());
    assert!(metadata.cover_art.is_none());
    metadata.read_visuals(vec![vec![1, 2, 3], vec![4, 5]]);
    assert_eq!(metadata.cover_art, Some(vec![1, 2, 3]));
    assert!(!metadata.needs_external_cover());
    metadata.read_visuals(Vec::new());
    assert_eq!(metadata.cover_art, Some(vec![1, 2, 3]));
    metadata.read_visuals(vec![vec![9]]);
    assert_eq!(metadata.cover_art, Some(vec![9]));
}

#[test]
fn cover_art_is_looked_for_under_the_usual_names() {
    let names = cover_art_names();
    assert_eq!(names.len(), 24);
    assert_eq!(names[0], "cover.jpg");
    assert_eq!(names[5], "folder.png");
    assert_eq!(names[14], "albumart.png");
    assert_eq!(names[15], "Cover.jpg");
    assert_eq!(names[23], "Album.png");

    let candidates = cover_art_candidates("/music/Band/Record/01 song.mp3");
    assert_eq!(candidates.len(), 24);
    assert_eq!(candidates[0], "/music/Band/Record/cover.jpg");
    assert_eq!(candidates[1], "/music/Band/Record/cover.jpeg");
    assert_eq!(candidates[23], "/music/Band/Record/Album.png");
    assert_eq!(cover_art_candidates("song.mp3")[3], "folder.jpg");
    assert!(cover_art_candidates("/").is_empty());
    assert!(cover_art_candidates("").is_empty());
}

#[test]
fn pictures_are_known_by_their_extension() {
    for name in ["a.jpg", "a.jpeg", "a.png", "a.gif", "a.webp", "/x/Front.JPG", "b.PnG"] {
        assert!(is_image_file(name), "{}", name);
    }
    assert!(!is_image_file("a.bmp"));
    assert!(!is_image_file("jpg"));
    assert!(!is_image_file("a.mp3"));
    assert!(has_image_extension("WEBP"));
    assert!(!has_image_extension("tiff"));
    assert!(is_image_extension("gif"));
    assert!(!is_image_extension("GIF"));
}
