use smtc2web_dev::media::art::{
    generate_song_id, is_art_due, AlbumArtCache, ART_REFRESH_SECS, CACHE_CAPACITY,
};
use smtc2web_dev::song::{format_duration, Progress, Song};

#[test]
fn durations_have_two_digits() {
    assert_eq!(format_duration(0), "00:00");
    assert_eq!(format_duration(9), "00:09");
    assert_eq!(format_duration(65), "01:05");
    assert_eq!(format_duration(3599), "59:59");
    assert_eq!(format_duration(3600), "60:00");
    assert_eq!(format_duration(360_000), "6000:00");
    assert_eq!(format_duration(u64::MAX), "307445734561825860:15");
}

#[test]
fn different_durations_look_different() {
    let mut seen: Vec<String> = Vec::new();
    for secs in 0..10_000u64 {
        seen.push(format_duration(secs));
    }
    seen.sort();
    seen.dedup();
    assert_eq!(seen.len(), 10_000);
}

#[test]
fn a_default_song_is_empty() {
    let song = Song::default();
    assert_eq!(song.title, "");
    assert_eq!(song.artist, "");
    assert_eq!(song.album, "");
    assert_eq!(song.album_art, None);
    assert_eq!(song.position, None);
    assert_eq!(song.duration, None);
    assert_eq!(song.progress, None);
    assert!(!song.is_playing);
    assert_eq!(song.last_update, 0);
    assert_eq!(song.font_family, "");
    assert_eq!(song.clone(), song);
}

#[test]
fn a_timeline_is_set_only_with_a_duration() {
    let mut song = Song::default();
    song.set_timeline(61, 0);
    assert_eq!(song, Song::default());
    song.set_timeline(61, 122);
    assert_eq!(song.position, Some("01:01".to_string()));
    assert_eq!(song.duration, Some("02:02".to_string()));
    assert_eq!(song.progress, Some(Progress { position_secs: 61, duration_secs: 122 }));
    song.set_timeline(7, 0);
    assert_eq!(song.position, Some("01:01".to_string()));
}

#[test]
fn song_ids_join_title_artist_and_album() {
    assert_eq!(generate_song_id("a", "b", "c"), "a|b|c");
    assert_eq!(generate_song_id("", "", ""), "||");
    assert_ne!(generate_song_id("a", "b", "c"), generate_song_id("a", "bc", ""));
    // Titles and artists that hold the bar can be mistaken for one another.
    assert_eq!(generate_song_id("a|b", "c", "d"), generate_song_id("a", "b|c", "d"));
}

#[test]
fn stored_art_comes_back() {
    let mut cache = AlbumArtCache::new();
    assert_eq!(cache.get_cached_album_art("x"), None);
    cache.set_cached_album_art("x", "one".to_string(), 5);
    cache.set_cached_album_art("y", "two".to_string(), 6);
    assert_eq!(cache.get_cached_album_art("x"), Some("one".to_string()));
    cache.set_cached_album_art("x", "three".to_string(), 7);
    assert_eq!(cache.get_cached_album_art("x"), Some("three".to_string()));
    assert_eq!(cache.get_cached_album_art("y"), Some("two".to_string()));
}

#[test]
fn a_full_cache_gives_up_what_was_stored_first() {
    assert_eq!(CACHE_CAPACITY, 30);
    let mut cache = AlbumArtCache::new();
    for i in 0..30u64 {
        cache.set_cached_album_art(&format!("song{}", i), format!("art{}", i), 100 + i);
    }
    for i in 0..30u64 {
        assert_eq!(cache.get_cached_album_art(&format!("song{}", i)), Some(format!("art{}", i)));
    }
    // Storing art for a song once more makes it younger.
    cache.set_cached_album_art("song0", "again".to_string(), 200);
    cache.set_cached_album_art("song30", "art30".to_string(), 201);
    assert_eq!(cache.get_cached_album_art("song0"), Some("again".to_string()));
    assert_eq!(cache.get_cached_album_art("song1"), None);
    assert_eq!(cache.get_cached_album_art("song2"), Some("art2".to_string()));
    assert_eq!(cache.get_cached_album_art("song30"), Some("art30".to_string()));
}

#[test]
fn art_that_is_older_than_all_others_is_not_kept() {
    let mut cache = AlbumArtCache::new();
    for i in 0..30u64 {
        cache.set_cached_album_art(&format!("song{}", i), format!("art{}", i), 100 + i);
    }
    // The clock was set back.
    cache.set_cached_album_art("late", "art".to_string(), 1);
    assert_eq!(cache.get_cached_album_art("late"), None);
    assert_eq!(cache.get_cached_album_art("song0"), Some("art0".to_string()));
}

#[test]
fn art_is_due_when_missing_or_of_another_song_and_old() {
    assert_eq!(ART_REFRESH_SECS, 30);
    assert!(is_art_due(false, "a", "a", 0, 0));
    assert!(!is_art_due(true, "a", "a", 1000, 0));
    assert!(!is_art_due(true, "a", "b", 30, 0));
    assert!(is_art_due(true, "a", "b", 31, 0));
    // A clock that was set back does not make art old.
    assert!(!is_art_due(true, "a", "b", 0, 500));
}
