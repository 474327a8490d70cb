use smtc2web_dev::media::appname::{
    get_fallback_display_name, get_store_app_display_name, is_store_app, DisplayNames, PackageEntry,
};
use smtc2web_dev::media::art::AlbumArtCache;
use smtc2web_dev::media::mpris::{MprisSession, PlaybackStatus, PlayerEntry, TrackMetadata};
use smtc2web_dev::media::poll::{obtain_art, AlbumArt, ArtPlan, PollState};
use smtc2web_dev::media::smtc::{
    apply_timeline, thumbnail_fits, EventState, MediaProperties, Timeline,
};
use smtc2web_dev::media::switch::{SessionSwitch, SwitchAction, SwitchEvent, Topic};
use smtc2web_dev::media::{MediaSession, SessionInfo};
use smtc2web_dev::song::{Progress, Song};

fn text(s: &str) -> Option<String> {
    Some(s.to_string())
}

fn player(bus: &str, identity: &str, status: Option<PlaybackStatus>) -> PlayerEntry {
    PlayerEntry { bus_name: bus.to_string(), identity: identity.to_string(), status }
}

fn track(art_url: Option<&str>) -> TrackMetadata {
    TrackMetadata {
        title: text("t"),
        artists: Some(vec!["x".to_string(), "y".to_string()]),
        album: text("al"),
        art_url: art_url.map(|u| u.to_string()),
        length_micros: Some(122_999_999),
    }
}

#[test]
fn playing_players_are_found_first() {
    let session = MprisSession::new("*").unwrap();
    let players = vec![
        player("a", "A", None),
        player("b", "B", Some(PlaybackStatus::Paused)),
        player("c", "C", Some(PlaybackStatus::Playing)),
        player("d", "D", Some(PlaybackStatus::Playing)),
    ];
    assert_eq!(session.find_player(&players), Ok(2));
    let players = vec![
        player("a", "A", Some(PlaybackStatus::Stopped)),
        player("b", "B", Some(PlaybackStatus::Paused)),
    ];
    assert_eq!(session.find_player(&players), Ok(1));
    let players = vec![player("a", "A", None), player("b", "B", Some(PlaybackStatus::Stopped))];
    assert_eq!(session.find_player(&players), Ok(0));
}

#[test]
fn players_that_the_filter_does_not_admit_are_passed_over() {
    let session = MprisSession::new("vlc").unwrap();
    let players = vec![
        player("org.spotify", "Spotify", Some(PlaybackStatus::Playing)),
        player("org.x", "VLC media player", Some(PlaybackStatus::Stopped)),
    ];
    assert_eq!(session.find_player(&players), Ok(1));
    assert_eq!(session.find_player(&Vec::new()), Err("No players found".to_string()));
    assert_eq!(
        session.find_player(&vec![player("a", "b", None)]),
        Err("No matching player found".to_string())
    );
}

#[test]
fn artists_are_separated_by_commas() {
    let list = |names: &[&str]| names.iter().map(|s| s.to_string()).collect::<Vec<String>>();
    assert_eq!(MprisSession::format_artist_list(&list(&[])), "");
    assert_eq!(MprisSession::format_artist_list(&list(&["a"])), "a");
    assert_eq!(MprisSession::format_artist_list(&list(&["a", "b", "c"])), "a, b, c");
}

#[test]
fn a_player_reports_its_track() {
    let mut session = MprisSession::new("*").unwrap();
    let entry = player("bus", "Name", None);
    let info = session.poll_current(
        &entry,
        Some(PlaybackStatus::Playing),
        track(None),
        Some(61_000_000),
    );
    assert_eq!(info.title, "t");
    assert_eq!(info.artist, "x, y");
    assert_eq!(info.album, "al");
    assert!(info.is_playing);
    assert_eq!(info.position_secs, 61);
    assert_eq!(info.duration_secs, 122);
    assert_eq!(info.app_id, "bus");
    assert_eq!(info.app_name, "Name");

    let nothing = TrackMetadata {
        title: None,
        artists: None,
        album: None,
        art_url: None,
        length_micros: None,
    };
    let info = session.poll_current(&entry, Some(PlaybackStatus::Paused), nothing, None);
    assert_eq!((info.title.as_str(), info.artist.as_str(), info.album.as_str()), ("", "", ""));
    assert!(!info.is_playing);
    assert_eq!((info.position_secs, info.duration_secs), (0, 0));
}

#[test]
fn times_beyond_a_signed_number_count_as_none() {
    let mut session = MprisSession::new("*").unwrap();
    let entry = player("bus", "Name", None);
    let at = |session: &mut MprisSession, micros: u128| {
        session.poll_current(&entry, None, track(None), Some(micros)).position_secs
    };
    assert_eq!(at(&mut session, 9_223_372_036_854_775_807), 9_223_372_036_854);
    assert_eq!(at(&mut session, 9_223_372_036_854_775_808), 0);
    assert_eq!(at(&mut session, 18_446_744_073_709_551_616 + 5_000_000), 5);
}

#[test]
fn art_is_read_from_the_file_that_the_player_tells() {
    let mut session = MprisSession::new("*").unwrap();
    let mut cache = AlbumArtCache::new();
    let entry = player("bus", "Name", None);
    assert_eq!(session.art_file("x, y", "t", "al", &cache), None);

    session.poll_current(&entry, None, track(Some("file:///tmp/cover.png")), None);
    assert_eq!(session.art_file("x, y", "t", "al", &cache), text("/tmp/cover.png"));
    // A track without art leaves the address as it is.
    session.poll_current(&entry, None, track(Some("")), None);
    assert_eq!(session.art_file("x, y", "t", "al", &cache), text("/tmp/cover.png"));

    assert_eq!(session.get_album_art_base64("x, y", "t", "al", &mut cache, None, 1), None);
    let art = session.get_album_art_base64(
        "x, y",
        "t",
        "al",
        &mut cache,
        Some(vec![1, 2, 3, 255]),
        1,
    );
    assert_eq!(art, text("data:image/png;base64,AQID/w=="));
    assert_eq!(cache.get_cached_album_art("t|x, y|al"), art);

    // From then on it comes from the cache.
    assert_eq!(session.art_file("x, y", "t", "al", &cache), None);
    let again =
        session.get_album_art_base64("x, y", "t", "al", &mut cache, Some(vec![9]), 2);
    assert_eq!(again, art);
}

#[test]
fn art_that_is_no_file_is_not_read() {
    let mut session = MprisSession::new("*").unwrap();
    let mut cache = AlbumArtCache::new();
    let entry = player("bus", "Name", None);
    session.poll_current(&entry, None, track(Some("https://x/cover.png")), None);
    assert_eq!(session.art_file("x, y", "t", "al", &cache), None);
    assert_eq!(
        session.get_album_art_base64("x, y", "t", "al", &mut cache, Some(vec![1]), 1),
        None
    );
    session.poll_current(&entry, None, track(Some("file:///music/cover.unknown")), None);
    let art = session.get_album_art_base64("x, y", "t", "al", &mut cache, Some(vec![]), 1);
    assert_eq!(art, text("data:application/octet-stream;base64,"));
}

fn info(title: &str, playing: bool, position: u64) -> SessionInfo {
    SessionInfo {
        title: title.to_string(),
        artist: "ar".to_string(),
        album: "al".to_string(),
        is_playing: playing,
        position_secs: position,
        duration_secs: 200,
        app_id: "id".to_string(),
        app_name: "name".to_string(),
    }
}

struct FixedSession {
    art: Option<String>,
}

impl MediaSession for FixedSession {
    fn new(process_filter: &str) -> Result<Self, String> {
        Ok(FixedSession { art: Some(process_filter.to_string()) })
    }

    fn poll_current(&self) -> Option<SessionInfo> {
        None
    }

    fn get_album_art_base64(&self, artist: &str, title: &str, album: &str) -> Option<String> {
        self.art.as_ref().map(|a| format!("{}:{}:{}:{}", a, artist, title, album))
    }
}

#[test]
fn sessions_are_asked_for_art_only_where_it_is_fetched() {
    let session = <FixedSession as MediaSession>::new("f").unwrap();
    match obtain_art(&session, &info("t", true, 0), ArtPlan::Fetch) {
        AlbumArt::Fetched(art) => assert_eq!(art, text("f:ar:t:al")),
        other => panic!("{:?}", other),
    }
    match obtain_art(&session, &info("t", true, 0), ArtPlan::UseCached("kept".to_string())) {
        AlbumArt::Cached(art) => assert_eq!(art, "kept"),
        other => panic!("{:?}", other),
    }
}

#[test]
fn a_round_publishes_the_reported_song() {
    let mut state = PollState::new();
    let mut cache = AlbumArtCache::new();
    let first = info("t", true, 50);
    assert!(matches!(state.plan_art(&first, &cache, 1000), ArtPlan::Fetch));
    let tick = state.finish_round(
        Some((first, AlbumArt::Fetched(text("art")))),
        1000,
        &mut cache,
        1001,
    );
    assert_eq!(tick.pause_ms, 200);
    let song = tick.publish.unwrap();
    assert_eq!(song.title, "t");
    assert_eq!(song.artist, "ar");
    assert_eq!(song.album, "al");
    assert_eq!(song.album_art, text("art"));
    assert_eq!(song.position, text("00:50"));
    assert_eq!(song.duration, text("03:20"));
    assert_eq!(song.progress, Some(Progress { position_secs: 50, duration_secs: 200 }));
    assert!(song.is_playing);
    assert_eq!(song.last_update, 1000);
    assert_eq!(cache.get_cached_album_art("t|ar|al"), text("art"));
    assert_eq!((state.app_id.as_str(), state.app_name.as_str()), ("id", "name"));
    assert_eq!(state.last_art_update, 1000);
    assert_eq!(state.last_song, song);

    // The same song at the same place is no news until it is old.
    match state.plan_art(&info("t", true, 50), &cache, 1005) {
        ArtPlan::UseCached(art) => assert_eq!(art, "art"),
        other => panic!("{:?}", other),
    }
    let kept = || AlbumArt::Cached("art".to_string());
    let tick = state.finish_round(Some((info("t", true, 50), kept())), 1010, &mut cache, 1010);
    assert_eq!(tick.publish, None);
    let tick = state.finish_round(Some((info("t", true, 50), kept())), 1011, &mut cache, 1011);
    assert_eq!(tick.publish.unwrap().last_update, 1011);
    let tick = state.finish_round(Some((info("t", false, 50), kept())), 1012, &mut cache, 1012);
    assert!(!tick.publish.unwrap().is_playing);
    assert_eq!(tick.pause_ms, 1000);
    let tick = state.finish_round(Some((info("t", false, 51), kept())), 1012, &mut cache, 1012);
    assert_eq!(tick.publish.unwrap().position, text("00:51"));
}

#[test]
fn a_round_without_a_player_publishes_nothing_playing() {
    let mut state = PollState::new();
    let mut cache = AlbumArtCache::new();
    state.finish_round(
        Some((info("t", true, 50), AlbumArt::Fetched(None))),
        1000,
        &mut cache,
        1000,
    );
    let tick = state.finish_round(None, 1001, &mut cache, 1001);
    assert_eq!(tick.publish, Some(Song::default()));
    assert_eq!(tick.pause_ms, 500);
    assert_eq!(state.last_song, Song::default());
    assert_eq!(state.last_position, None);
    assert_eq!(cache.get_cached_album_art("t|ar|al"), None);
}

#[test]
fn cached_art_of_another_song_is_fetched_anew_when_old() {
    let mut state = PollState::new();
    let mut cache = AlbumArtCache::new();
    cache.set_cached_album_art("u|ar|al", "old".to_string(), 1);
    state.finish_round(
        Some((info("t", true, 0), AlbumArt::Fetched(text("art")))),
        1000,
        &mut cache,
        1000,
    );
    assert!(matches!(state.plan_art(&info("u", true, 0), &cache, 1030), ArtPlan::UseCached(_)));
    assert!(matches!(state.plan_art(&info("u", true, 0), &cache, 1031), ArtPlan::Fetch));
    assert!(matches!(state.plan_art(&info("t", true, 0), &cache, 9999), ArtPlan::UseCached(_)));
}

#[test]
fn store_apps_are_told_by_their_identifier() {
    assert!(is_store_app("Spotify.Spotify_zpdnekdrzrea0!Spotify"));
    assert!(!is_store_app("Spotify.exe"));
    assert!(!is_store_app("a!b"));
    assert!(!is_store_app("a_b"));
}

#[test]
fn packages_name_store_apps() {
    let entry = |family: Option<&str>, name: Option<&str>| PackageEntry {
        family: family.map(|s| s.to_string()),
        display_name: name.map(|s| s.to_string()),
    };
    let packages = vec![
        entry(None, Some("X")),
        entry(Some("F_1"), None),
        entry(Some("F_1"), Some("")),
        entry(Some("F_1"), Some("F_1")),
        entry(Some("F_1"), Some("Music")),
        entry(Some("F_1"), Some("Other")),
    ];
    assert_eq!(get_store_app_display_name("F_1!App", &packages), text("Music"));
    assert_eq!(get_store_app_display_name("F_1", &packages), text("Music"));
    assert_eq!(get_store_app_display_name("G_1!App", &packages), None);
}

#[test]
fn long_identifiers_are_cut() {
    assert_eq!(get_fallback_display_name("short.exe"), "short.exe");
    assert_eq!(get_fallback_display_name("12345678901234567890"), "12345678901234567890");
    assert_eq!(get_fallback_display_name("123456789012345678901"), "12345678901234567890...");
}

#[test]
fn names_are_remembered() {
    let mut names = DisplayNames::new();
    assert!(!names.needs_packages(""));
    assert_eq!(names.get_app_display_name("", &Vec::new()), "");
    assert!(names.needs_packages("F_1!App"));
    assert!(!names.needs_packages("player.exe"));
    let packages = vec![PackageEntry { family: text("F_1"), display_name: text("Music") }];
    assert_eq!(names.get_app_display_name("F_1!App", &packages), "Music");
    assert!(!names.needs_packages("F_1!App"));
    assert_eq!(names.get_app_display_name("F_1!App", &Vec::new()), "Music");
    // Without a package the identifier is shown, and goes on being shown.
    assert_eq!(names.get_app_display_name("G_1!App", &Vec::new()), "G_1!App");
    let late = vec![PackageEntry { family: text("G_1"), display_name: text("Late") }];
    assert_eq!(names.get_app_display_name("G_1!App", &late), "G_1!App");
    assert_eq!(
        names.get_app_display_name("a-very-long-name-of-a-player.exe", &packages),
        "a-very-long-name-of-..."
    );
}

#[test]
fn names_that_cannot_be_cut_are_refused() {
    let mut names = DisplayNames::new();
    let packages = vec![PackageEntry { family: text("F_1"), display_name: text("Music") }];
    // The twentieth byte stands inside the last letter.
    let uncut = "1234567890123456789\u{4e2d}";
    assert!(!names.can_name(uncut, &packages));
    assert!(names.can_name("12345678901234567890\u{4e2d}", &packages));
    assert!(names.can_name("", &packages));
    // An identifier that has a name need not be cut.
    let store = "F_1!34567890123456789\u{4e2d}";
    let split = "F_1!567890123456789\u{4e2d}";
    assert!(names.can_name(store, &packages));
    assert!(names.can_name(split, &packages));
    assert!(!names.can_name(split, &Vec::new()));
    assert_eq!(names.get_app_display_name(split, &packages), "Music");
    assert!(names.can_name(split, &Vec::new()));
}

#[test]
fn thumbnails_have_a_size() {
    assert!(!thumbnail_fits(0));
    assert!(thumbnail_fits(1));
    assert!(thumbnail_fits(10 * 1024 * 1024));
    assert!(!thumbnail_fits(10 * 1024 * 1024 + 1));
}

#[test]
fn timelines_count_in_ticks() {
    let mut song = Song::default();
    apply_timeline(&mut song, None);
    assert_eq!(song, Song::default());
    apply_timeline(&mut song, Some(Timeline { position: 10_000_000, end_time: 9_999_999 }));
    assert_eq!(song, Song::default());
    apply_timeline(&mut song, Some(Timeline { position: 619_999_999, end_time: 2_000_000_000 }));
    assert_eq!(song.position, text("01:01"));
    assert_eq!(song.duration, text("03:20"));
    assert_eq!(song.progress, Some(Progress { position_secs: 61, duration_secs: 200 }));
}

#[test]
fn negative_times_wrap_around() {
    let mut song = Song::default();
    apply_timeline(&mut song, Some(Timeline { position: -10_000_000, end_time: 2_000_000_000 }));
    assert_eq!(
        song.progress,
        Some(Progress { position_secs: 18_446_744_073_709_551_615, duration_secs: 200 })
    );
    let mut song = Song::default();
    apply_timeline(&mut song, Some(Timeline { position: 0, end_time: -9_999_999 }));
    assert_eq!(song.progress, None);
}

fn properties(title: &str) -> Option<MediaProperties> {
    Some(MediaProperties {
        title: title.to_string(),
        artist: "ar".to_string(),
        album: "al".to_string(),
    })
}

#[test]
fn events_update_the_published_song() {
    let mut state = EventState::new("*");
    let mut cache = AlbumArtCache::new();
    assert!(state.full_state_wants_thumbnail(&properties("t"), 100, &cache));
    state.update_full_state(
        true,
        properties("t"),
        Some(Timeline { position: 0, end_time: 2_000_000_000 }),
        Some(vec![1, 2, 3, 255]),
        100,
        &mut cache,
        100,
    );
    assert_eq!(state.published.title, "t");
    assert_eq!(state.published.album_art, text("data:image/jpeg;base64,AQID/w=="));
    assert_eq!(state.published.position, text("00:00"));
    assert_eq!(state.published.last_update, 100);
    assert_eq!(state.published, state.last_song);
    assert_eq!(state.last_position, text("00:00"));
    assert_eq!(state.last_song_id, "t|ar|al");
    assert_eq!(state.last_art_update, 100);
    assert_eq!(cache.get_cached_album_art("t|ar|al"), state.published.album_art);

    state.update_playback(false, None, 101);
    assert!(!state.published.is_playing);
    assert_eq!(state.published.title, "t");
    assert_eq!(state.published.last_update, 101);

    state.update_timeline(Some(Timeline { position: 20_000_000, end_time: 2_000_000_000 }));
    assert_eq!(state.published.position, text("00:02"));
    assert_eq!(state.last_position, text("00:02"));
    assert_eq!(state.published.last_update, 101);

    // Art that cannot be read leaves what was shown.
    assert!(state.media_wants_thumbnail(&properties("u"), 102, &cache));
    state.update_media(properties("u"), None, 102, &mut cache, 102);
    assert_eq!(state.published.title, "u");
    assert_eq!(state.published.album_art, text("data:image/jpeg;base64,AQID/w=="));
    assert_eq!(state.last_song_id, "u|ar|al");
    assert_eq!(state.last_art_update, 100);

    // Properties that cannot be read leave the song.
    assert!(state.media_wants_thumbnail(&None, 103, &cache));
    assert!(!state.media_wants_thumbnail(&properties("t"), 103, &cache));
    state.update_media(properties("t"), None, 103, &mut cache, 103);
    assert_eq!(state.published.album_art, text("data:image/jpeg;base64,AQID/w=="));

    state.clear_state();
    assert_eq!(state.published, Song::default());
    assert_eq!(state.last_song, Song::default());
    assert_eq!(state.last_position, None);
    assert_eq!((state.app_id.as_str(), state.app_name.as_str()), ("", ""));
    assert_eq!(state.process_filter, "*");
}

fn found(id: &str) -> SwitchEvent {
    SwitchEvent::Found { app_id: id.to_string(), app_name: "name".to_string() }
}

#[test]
fn a_change_of_session_subscribes_to_everything() {
    let mut state = EventState::new("spotify");
    let mut switch = SessionSwitch::start(true);
    let mut actions = vec![switch.action];
    while switch.action != SwitchAction::Finish {
        let event = match switch.action {
            SwitchAction::FindSession => found("Spotify.exe"),
            _ => SwitchEvent::Done,
        };
        switch.on_session_changed(event, &mut state);
        actions.push(switch.action);
    }
    assert_eq!(
        actions,
        vec![
            SwitchAction::Detach,
            SwitchAction::FindSession,
            SwitchAction::Refresh,
            SwitchAction::Subscribe(Topic::Playback),
            SwitchAction::Subscribe(Topic::Media),
            SwitchAction::Subscribe(Topic::Timeline),
            SwitchAction::Keep,
            SwitchAction::Finish,
        ]
    );
    assert!(switch.playback && switch.media && switch.timeline);
    assert_eq!((state.app_id.as_str(), state.app_name.as_str()), ("Spotify.exe", "name"));
}

#[test]
fn sessions_that_are_not_admitted_are_forgotten() {
    for event in [found("vlc.exe"), SwitchEvent::Failed] {
        let mut state = EventState::new("spotify");
        state.app_id = "old".to_string();
        state.published.title = "t".to_string();
        let mut switch = SessionSwitch::start(false);
        assert_eq!(switch.action, SwitchAction::FindSession);
        switch.on_session_changed(event, &mut state);
        assert_eq!(switch.action, SwitchAction::Finish);
        assert_eq!(state.app_id, "");
        assert_eq!(state.published, Song::default());
    }
}

#[test]
fn a_failed_subscription_takes_the_others_back() {
    let run = |fails_at: SwitchAction| {
        let mut state = EventState::new("*");
        let mut switch = SessionSwitch::start(false);
        let mut undone: Vec<Topic> = Vec::new();
        while switch.action != SwitchAction::Finish {
            if let SwitchAction::Unsubscribe(topic) = switch.action {
                undone.push(topic);
            }
            let event = match switch.action {
                SwitchAction::FindSession => found("x"),
                action if action == fails_at => SwitchEvent::Failed,
                _ => SwitchEvent::Done,
            };
            switch.on_session_changed(event, &mut state);
        }
        assert!(!switch.playback && !switch.media && !switch.timeline);
        undone
    };
    assert_eq!(run(SwitchAction::Subscribe(Topic::Playback)), vec![]);
    assert_eq!(run(SwitchAction::Subscribe(Topic::Media)), vec![Topic::Playback]);
    assert_eq!(
        run(SwitchAction::Subscribe(Topic::Timeline)),
        vec![Topic::Playback, Topic::Media]
    );
}
