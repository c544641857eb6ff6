use impulse::matching::{
    artist_dir_matches, best_match, best_score, is_artist_dir, is_plain, load_songs_from_file,
    match_score, normalize_for_matching, normalize_lowercase, parse_query, score_comparable,
    split_query, EXACT_MATCH_BONUS,
};

#[test]
fn test_normalize_for_matching_lowercase() {
    assert_eq!(normalize_for_matching("HELLO WORLD"), "hello world");
    assert_eq!(normalize_for_matching("MiXeD CaSe"), "mixed case");
}

#[test]
fn test_normalize_for_matching_quotes() {
    assert_eq!(normalize_for_matching("don't"), "dont");
    assert_eq!(normalize_for_matching("don't"), "dont");
    assert_eq!(normalize_for_matching("say \"hello\""), "say hello");
    assert_eq!(normalize_for_matching("\u{201c}quoted\u{201d}"), "quoted");
    assert_eq!(
        normalize_for_matching("\u{201c}also quoted\u{201d}"),
        "also quoted"
    );
    assert_eq!(normalize_for_matching("`backtick`"), "backtick");
}

#[test]
fn test_normalize_for_matching_ampersand() {
    assert_eq!(normalize_for_matching("rock & roll"), "rock and roll");
    assert_eq!(normalize_for_matching("R&B"), "randb");
    assert_eq!(normalize_for_matching("A & B & C"), "a and b and c");
}

#[test]
fn test_normalize_for_matching_special_chars() {
    assert_eq!(normalize_for_matching("hello@world"), "helloworld");
    assert_eq!(normalize_for_matching("test#123"), "test123");
    assert_eq!(normalize_for_matching("a/b/c"), "abc");
    assert_eq!(normalize_for_matching("hello!world?"), "helloworld");
}

#[test]
fn test_normalize_for_matching_whitespace() {
    assert_eq!(normalize_for_matching("hello   world"), "hello world");
    assert_eq!(normalize_for_matching("  trim  me  "), "trim me");
    assert_eq!(normalize_for_matching("a\tb\nc"), "a b c");
}

#[test]
fn test_normalize_for_matching_alphanumeric() {
    assert_eq!(normalize_for_matching("test123"), "test123");
    assert_eq!(normalize_for_matching("abc 123 xyz 789"), "abc 123 xyz 789");
}

#[test]
fn test_normalize_for_matching_combined() {
    assert_eq!(
        normalize_for_matching("The Beatles' \"Hey Jude\" & More"),
        "the beatles hey jude and more"
    );
    assert_eq!(
        normalize_for_matching("AC/DC - Back in Black (Live)"),
        "acdc back in black live"
    );
    assert_eq!(
        normalize_for_matching("It's a   Beautiful  Day!"),
        "its a beautiful day"
    );
}

#[test]
fn test_normalize_for_matching_empty() {
    assert_eq!(normalize_for_matching(""), "");
    assert_eq!(normalize_for_matching("   "), "");
    assert_eq!(normalize_for_matching("@#$%"), "");
}

#[test]
fn test_normalize_for_matching_unicode() {
    assert_eq!(normalize_for_matching("café"), "caf");
    assert_eq!(normalize_for_matching("naïve"), "nave");
    assert_eq!(normalize_for_matching("Björk"), "bjrk");
}

#[test]
fn test_find_matching_song_no_dash() {
    // Query without dash should return None
    let result = parse_query("Just A Song Name");
    assert!(result.is_none());
}

#[test]
fn test_find_matching_song_in_subdirectory() {
    // Song in album subdirectory
    let (artist, song) = parse_query("The Third Artist - best song").unwrap();
    assert!(artist_dir_matches("The Third Artist", &artist));
    let stems = vec![String::from("best song")];
    let result = best_match(&stems, &song);
    assert!(result.is_some());
    assert!(stems[result.unwrap()].contains("best song"));
}

#[test]
fn queries_are_cut_at_the_first_dash() {
    assert_eq!(
        split_query("Artist One - song1"),
        Some((String::from("Artist One"), String::from("song1")))
    );
    assert_eq!(
        split_query("  AC/DC -  Back - in  -Black "),
        Some((String::from("AC/DC"), String::from("Back-in-Black")))
    );
    assert_eq!(split_query("a-"), Some((String::from("a"), String::new())));
    assert_eq!(split_query("-"), Some((String::new(), String::new())));
    assert_eq!(split_query("--"), Some((String::new(), String::from("-"))));
    assert_eq!(split_query("no dash"), None);
    assert_eq!(split_query(""), None);
    assert_eq!(
        parse_query("The Beatles - Hey Jude!"),
        Some((String::from("the beatles"), String::from("hey jude")))
    );
    assert_eq!(
        parse_query("AC/DC - Back - In & Out"),
        Some((String::from("acdc"), String::from("backin and out")))
    );
    assert_eq!(parse_query("nothing here"), None);
}

#[test]
fn artist_directories_hold_the_name_of_the_artist() {
    assert!(artist_dir_matches("Artist One", "artist one"));
    assert!(artist_dir_matches("The Third Artist (Live!)", "third artist"));
    assert!(artist_dir_matches("Anything", ""));
    assert!(!artist_dir_matches("Artist Two", "artist one"));
    assert!(!artist_dir_matches("Art", "artist"));
    assert!(is_artist_dir("abc", "bc"));
    assert!(!is_artist_dir("abc", "cb"));
    assert!(is_artist_dir("", ""));
}

#[test]
fn exact_matches_score_ten_thousand_more() {
    assert_eq!(EXACT_MATCH_BONUS, 10000);
    assert_eq!(match_score("Song1", "song1"), Some(10005));
    assert_eq!(match_score("01 - Song1 (live)", "song1"), Some(5));
    assert_eq!(match_score("track one", "song1"), None);
    assert_eq!(match_score("anything", ""), Some(0));
    assert_eq!(match_score("!!!", ""), Some(10000));
    assert_eq!(score_comparable("Song1", "song1"), None);
    assert_eq!(score_comparable("best song", "best song"), Some(10009));
}

#[test]
fn first_of_the_best_matches_wins() {
    let stems: Vec<String> = ["intro", "my song live", "My Song", "my song", "outro"]
        .iter()
        .map(|stem| stem.to_string())
        .collect();
    assert_eq!(best_match(&stems, "my song"), Some(2));
    assert_eq!(best_match(&stems[..2], "my song"), Some(1));
    assert_eq!(best_match(&stems, "o"), Some(0));
    assert_eq!(best_match(&stems, "nothing"), None);
    assert_eq!(best_match(&[], "my song"), None);
    assert_eq!(best_score(&[None, Some(3), Some(7), Some(7), None, Some(2)]), Some(2));
    assert_eq!(best_score(&[Some(0)]), Some(0));
    assert_eq!(best_score(&[None, None]), None);
    assert_eq!(best_score(&[]), None);
}

#[test]
fn song_lists_hold_one_query_a_line() {
    assert_eq!(
        load_songs_from_file("Artist One - song1\nArtist Two - track one\n"),
        vec!["Artist One - song1", "Artist Two - track one"]
    );
    assert_eq!(
        load_songs_from_file(
            "1. Artist One - song1\n2. Artist Two - track one\n3. The Third Artist - best song\n"
        ),
        vec!["Artist One - song1", "Artist Two - track one", "The Third Artist - best song"]
    );
    assert_eq!(
        load_songs_from_file("\nArtist One - song1\n\n\nArtist Two - track one\n\n"),
        vec!["Artist One - song1", "Artist Two - track one"]
    );
    assert_eq!(
        load_songs_from_file("  12.  a - b  \r\n...\n 3 \n\u{663} . x - y"),
        vec!["a - b", "x - y"]
    );
    assert!(load_songs_from_file("").is_empty());
    assert!(load_songs_from_file("\n\n").is_empty());
}

#[test]
fn lowercase_texts_are_made_comparable() {
    assert_eq!(normalize_lowercase("rock & roll"), "rock and roll");
    assert_eq!(normalize_lowercase("Rock & Roll"), "Rock and Roll");
    assert_eq!(normalize_lowercase(" a\u{a0}\u{2003}b "), "a b");
    assert_eq!(normalize_lowercase("&"), "and");
    assert_eq!(normalize_lowercase("a-b"), "ab");
    assert!(is_plain('a') && is_plain('z') && is_plain('A') && is_plain('Z'));
    assert!(is_plain('0') && is_plain('9'));
    assert!(!is_plain(' ') && !is_plain('\u{e9}') && !is_plain('_') && !is_plain('{'));
    assert_eq!(normalize_for_matching("\u{130}stanbul \u{212a}"), "istanbul k");
}

/// A music library in memory: the directories of the artists with the files
/// in them, named without their extension.
fn create_test_music_library() -> Vec<(&'static str, Vec<&'static str>)> {
    vec![
        ("Artist One", vec!["song1", "song2"]),
        ("Artist Two", vec!["track one"]),
        ("The Third Artist", vec!["best song"]),
    ]
}

/// Looks each query of `content` up in `library`, as the program does on
/// disk: the first directory of the artist that holds a match decides.
fn load_songs(content: &str, library: &[(&'static str, Vec<&'static str>)]) -> Vec<String> {
    let mut found_tracks = Vec::new();
    for query in load_songs_from_file(content) {
        let Some((artist, song)) = parse_query(&query) else {
            continue;
        };
        for (dir, files) in library {
            if !artist_dir_matches(dir, &artist) {
                continue;
            }
            let stems: Vec<String> = files.iter().map(|file| file.to_string()).collect();
            if let Some(index) = best_match(&stems, &song) {
                found_tracks.push(format!("{}/{}.mp3", dir, stems[index]));
                break;
            }
        }
    }
    found_tracks
}

#[test]
fn test_load_songs_from_file_single_file() {
    let music_dir = create_test_music_library();

    let result = load_songs("Artist One - song1\nArtist Two - track one\n", &music_dir);
    assert_eq!(result.len(), 2);
}

#[test]
fn test_load_songs_from_file_with_numbers() {
    let music_dir = create_test_music_library();

    let result = load_songs(
        "1. Artist One - song1\n2. Artist Two - track one\n3. The Third Artist - best song\n",
        &music_dir,
    );
    assert_eq!(result.len(), 3);
}

#[test]
fn test_load_songs_from_file_empty_lines() {
    let music_dir = create_test_music_library();

    let result = load_songs(
        "\nArtist One - song1\n\n\nArtist Two - track one\n\n",
        &music_dir,
    );
    assert_eq!(result.len(), 2);
}

#[test]
fn test_load_songs_from_file_nonexistent_songs() {
    let music_dir = create_test_music_library();

    let result = load_songs(
        "Artist One - song1\nNonexistent Artist - fake song\nArtist Two - track one\n",
        &music_dir,
    );
    // Should find 2 out of 3 songs (the middle one doesn't exist)
    assert_eq!(result.len(), 2);
}

#[test]
fn test_load_songs_from_multiple_files() {
    let music_dir = create_test_music_library();

    // Simulate loading from multiple files
    let mut all_tracks = Vec::new();
    all_tracks.extend(load_songs("Artist One - song1\n", &music_dir));
    all_tracks.extend(load_songs("Artist Two - track one\n", &music_dir));
    all_tracks.extend(load_songs("The Third Artist - best song\n", &music_dir));

    assert_eq!(all_tracks.len(), 3);
}

#[test]
fn test_load_songs_sequential_order() {
    let music_dir = create_test_music_library();

    let result = load_songs(
        "Artist Two - track one\nArtist One - song1\nArtist One - song2\n",
        &music_dir,
    );
    assert_eq!(result.len(), 3);

    // Verify order is preserved
    assert!(result[0].contains("track one"));
    assert!(result[1].contains("song1"));
    assert!(result[2].contains("song2"));
}
