//! The media session that the system reports by events: what each event makes of the record of
//! the song, and how the session that is followed is changed.
use vstd::prelude::*;
use super::art::{generate_song_id, is_art_due, AlbumArtCache};
use crate::encode::data_uri_of;
use crate::song::Song;
use crate::text::copy_opt;
#[allow(unused_imports)]
use crate::encode::{base64_text, data_uri};
#[allow(unused_imports)]
use crate::song::{clock, no_song, timed, Progress, SongView};
#[allow(unused_imports)]
use crate::text::opt_text;

verus! {

/// The largest thumbnail that is read, in bytes.
pub const MAX_THUMBNAIL_BYTES: u64 = 10_485_760;

/// The media type that a thumbnail is given.
pub const THUMBNAIL_TYPE: &'static str = "image/jpeg";

/// A reading of the session's timeline, in units of 100 nanoseconds.
#[derive(Clone, Copy, Debug, PartialEq, Eq, Structural)]
pub struct Timeline {
    pub position: i64,
    pub end_time: i64,
}

/// The properties of the song that a session plays. Whatever could not be read is empty.
#[derive(Debug)]
pub struct MediaProperties {
    pub title: String,
    pub artist: String,
    pub album: String,
}

/// What is remembered from one event to the next, and the record that listeners see.
pub struct EventState {
    pub process_filter: String,
    pub published: Song,
    pub last_song: Song,
    pub last_position: Option<String>,
    pub last_song_id: String,
    pub last_art_update: u64,
    pub app_id: String,
    pub app_name: String,
}

/// The values that an [`EventState`] holds.
#[verifier::ext_equal]
pub struct EventView {
    pub process_filter: Seq<char>,
    pub published: SongView,
    pub last_song: SongView,
    pub last_position: Option<Seq<char>>,
    pub last_song_id: Seq<char>,
    pub last_art_update: u64,
    pub app_id: Seq<char>,
    pub app_name: Seq<char>,
}

impl View for EventState {
    type V = EventView;

    open spec fn view(&self) -> EventView {
        EventView {
            process_filter: self.process_filter@,
            published: self.published@,
            last_song: self.last_song@,
            last_position: opt_text(self.last_position),
            last_song_id: self.last_song_id@,
            last_art_update: self.last_art_update,
            app_id: self.app_id@,
            app_name: self.app_name@,
        }
    }
}

/// Units of 100 nanoseconds as whole seconds, rounded towards zero. A negative count of seconds
/// wraps around, as it does when it is read as an unsigned number of 64 bits.
pub open spec fn seconds_of(ticks: i64) -> u64 {
    if ticks >= 0 {
        (ticks / 10_000_000) as u64
    } else if ticks > -10_000_000 {
        0
    } else {
        (0x1_0000_0000_0000_0000 - (-ticks) / 10_000_000) as u64
    }
}

/// A record after a reading of the timeline, if there was one.
pub open spec fn with_timeline(
    song: SongView,
    timeline: Option<Timeline>,
) -> SongView {
    match timeline {
        Some(t) => timed(song, seconds_of(t.position), seconds_of(t.end_time)),
        None => song,
    }
}

/// A record after a reading of the properties of the song, if there was one.
pub open spec fn with_properties(
    song: SongView,
    properties: Option<MediaProperties>,
) -> SongView {
    match properties {
        Some(p) => SongView {
            title: p.title@,
            artist: p.artist@,
            album: p.album@,
            ..song
        },
        None => song,
    }
}

/// The identifier of the song of a record.
pub open spec fn id_of(song: SongView) -> Seq<char> {
    super::art::song_id(song.title, song.artist, song.album)
}

/// Whether a thumbnail is to be fetched for the song of a record.
pub open spec fn wants_thumbnail(
    state: EventView,
    song: SongView,
    cache: Map<Seq<char>, super::art::CachedArt>,
    timestamp: u64,
) -> bool {
    super::art::art_due(
        cache.contains_key(id_of(song)),
        id_of(song),
        state.last_song_id,
        timestamp,
        state.last_art_update,
    )
}

/// The art that a thumbnail gives.
pub open spec fn thumbnail_art(thumbnail: Seq<u8>) -> Seq<char> {
    data_uri(THUMBNAIL_TYPE@, thumbnail)
}

/// A record with the art of its song. Art that is not due comes from the cache; if it is due and
/// there is no thumbnail, the record keeps the art that it has.
pub open spec fn with_art(
    state: EventView,
    song: SongView,
    cache: Map<Seq<char>, super::art::CachedArt>,
    thumbnail: Option<Vec<u8>>,
    timestamp: u64,
) -> SongView {
    SongView {
        album_art: if !wants_thumbnail(state, song, cache, timestamp) {
            Some(cache[id_of(song)].art)
        } else {
            match thumbnail {
                Some(data) => Some(thumbnail_art(data@)),
                None => song.album_art,
            }
        },
        ..song
    }
}

/// What is remembered after the art of a song was looked up.
pub open spec fn after_art(
    state: EventView,
    song: SongView,
    cache: Map<Seq<char>, super::art::CachedArt>,
    thumbnail: Option<Vec<u8>>,
    timestamp: u64,
) -> EventView {
    EventView {
        last_song_id: id_of(song),
        last_art_update: if wants_thumbnail(state, song, cache, timestamp) && thumbnail is Some {
            timestamp
        } else {
            state.last_art_update
        },
        ..state
    }
}

/// The cache after the art of a song was looked up: a thumbnail that was due is stored.
pub open spec fn cache_after_art(
    state: EventView,
    song: SongView,
    before: Map<Seq<char>, super::art::CachedArt>,
    thumbnail: Option<Vec<u8>>,
    timestamp: u64,
    stored_at: u64,
    after: Map<Seq<char>, super::art::CachedArt>,
) -> bool {
    if wants_thumbnail(state, song, before, timestamp) && thumbnail is Some {
        super::art::stores(before, id_of(song), thumbnail_art(thumbnail->0@), stored_at, after)
    } else {
        after == before
    }
}

/// What is remembered after a record was published.
pub open spec fn after_publishing(state: EventView, song: SongView) -> EventView {
    EventView { published: song, last_song: song, last_position: song.position, ..state }
}

/// What is remembered when no session is followed.
pub open spec fn cleared(state: EventView) -> EventView {
    EventView {
        published: no_song(),
        last_song: no_song(),
        last_position: None,
        app_id: seq![],
        app_name: seq![],
        ..state
    }
}

/// The record of a session before its art is looked up.
pub open spec fn full_song(
    is_playing: bool,
    properties: Option<MediaProperties>,
    timeline: Option<Timeline>,
    timestamp: u64,
) -> SongView {
    with_timeline(
        with_properties(
            SongView {
                last_update: timestamp,
                is_playing,
                ..no_song()
            },
            properties,
        ),
        timeline,
    )
}

/// The last record with a new reading of the properties, before its art is looked up.
pub open spec fn media_song(
    state: EventView,
    properties: Option<MediaProperties>,
    timestamp: u64,
) -> SongView {
    with_properties(
        SongView { last_update: timestamp, ..state.last_song },
        properties,
    )
}

/// The last record with a new reading of the playback.
pub open spec fn playback_song(
    state: EventView,
    is_playing: bool,
    timeline: Option<Timeline>,
    timestamp: u64,
) -> SongView {
    with_timeline(
        SongView { last_update: timestamp, is_playing, ..state.last_song },
        timeline,
    )
}

fn seconds(ticks: i64) -> (secs: u64)
    ensures
        secs == seconds_of(ticks),
{
    if ticks >= 0 {
        (ticks / 10_000_000) as u64
    } else if ticks > -10_000_000 {
        0
    } else {
        let magnitude: u128 = (-(ticks as i128)) as u128;
        (0x1_0000_0000_0000_0000u128 - magnitude / 10_000_000) as u64
    }
}

/// Whether a thumbnail of this many bytes is read.
pub fn thumbnail_fits(size: u64) -> (fits: bool)
    ensures
        fits == (0 < size <= MAX_THUMBNAIL_BYTES),
{
    size != 0 && size <= MAX_THUMBNAIL_BYTES
}

/// Takes over a reading of the session's timeline, if there was one.
pub fn apply_timeline(song: &mut Song, timeline: Option<Timeline>)
    ensures
        final(song)@ == with_timeline(old(song)@, timeline),
{
    if let Some(t) = timeline {
        song.set_timeline(seconds(t.position), seconds(t.end_time));
    }
}

/// Takes over a reading of the properties of the song, if there was one.
fn apply_properties(song: &mut Song, properties: &Option<MediaProperties>)
    ensures
        final(song)@ == with_properties(old(song)@, *properties),
{
    if let Some(p) = properties {
        song.title = p.title.clone();
        song.artist = p.artist.clone();
        song.album = p.album.clone();
    }
}

impl EventState {
    /// The state before the first event.
    pub fn new(process_filter: &str) -> (state: Self)
        ensures
            state@ == (EventView {
                process_filter: process_filter@,
                published: no_song(),
                last_song: no_song(),
                last_position: None,
                last_song_id: seq![],
                last_art_update: 0,
                app_id: seq![],
                app_name: seq![],
            }),
    {
        EventState {
            process_filter: process_filter.to_owned(),
            published: Song::default(),
            last_song: Song::default(),
            last_position: None,
            last_song_id: String::new(),
            last_art_update: 0,
            app_id: String::new(),
            app_name: String::new(),
        }
    }

    /// Forgets the song: no session is followed.
    pub fn clear_state(&mut self)
        ensures
            final(self)@ == cleared(old(self)@),
            final(self).published@ == no_song(),
            final(self).last_song@ == no_song(),
            final(self).last_position is None,
            final(self).app_id@.len() == 0,
            final(self).app_name@.len() == 0,
            final(self).process_filter@ == old(self).process_filter@,
    {
        self.published = Song::default();
        self.last_song = Song::default();
        self.last_position = None;
        self.app_id = String::new();
        self.app_name = String::new();
    }

    fn publish(&mut self, song: Song)
        ensures
            final(self)@ == after_publishing(old(self)@, song@),
    {
        self.last_song = song.clone();
        self.last_position = copy_opt(&song.position);
        self.published = song;
    }

    fn wants(&self, song: &Song, cache: &AlbumArtCache, timestamp: u64) -> (wanted: bool)
        ensures
            wanted == wants_thumbnail(self@, song@, cache@, timestamp),
    {
        let id = generate_song_id(song.title.as_str(), song.artist.as_str(), song.album.as_str());
        is_art_due(
            cache.get_cached_album_art(id.as_str()).is_some(),
            id.as_str(),
            self.last_song_id.as_str(),
            timestamp,
            self.last_art_update,
        )
    }

    /// Looks up the art of a song. The thumbnail counts only if one is wanted.
    pub fn update_song_art(
        &mut self,
        song: &mut Song,
        thumbnail: Option<Vec<u8>>,
        timestamp: u64,
        cache: &mut AlbumArtCache,
        stored_at: u64,
    )
        ensures
            final(song)@ == with_art(old(self)@, old(song)@, old(cache)@, thumbnail, timestamp),
            final(self)@ == after_art(old(self)@, old(song)@, old(cache)@, thumbnail, timestamp),
            cache_after_art(
                old(self)@,
                old(song)@,
                old(cache)@,
                thumbnail,
                timestamp,
                stored_at,
                final(cache)@,
            ),
            ({
                let id = old(song)@.title + seq!['|'] + old(song)@.artist + seq!['|']
                    + old(song)@.album;
                let last = old(self)@;
                old(cache)@.contains_key(id) && (id == last.last_song_id || timestamp
                    - last.last_art_update <= 30) ==> opt_text(final(song).album_art) == Some(
                    old(cache)@[id].art,
                )
            }),
            final(song).title@ == old(song).title@,
            final(song).artist@ == old(song).artist@,
            final(song).album@ == old(song).album@,
            final(song).is_playing == old(song).is_playing,
    {
        assert(old(song).title@ + seq!['|'] + old(song).artist@ + seq!['|'] + old(song).album@
            =~= id_of(old(song)@));
        let id = generate_song_id(song.title.as_str(), song.artist.as_str(), song.album.as_str());
        let kept = cache.get_cached_album_art(id.as_str());
        if is_art_due(
            kept.is_some(),
            id.as_str(),
            self.last_song_id.as_str(),
            timestamp,
            self.last_art_update,
        ) {
            if let Some(data) = thumbnail {
                let uri = data_uri_of(THUMBNAIL_TYPE, &data);
                cache.set_cached_album_art(id.as_str(), uri.clone(), stored_at);
                song.album_art = Some(uri);
                self.last_art_update = timestamp;
            }
        } else {
            song.album_art = kept;
        }
        self.last_song_id = id;
    }

    fn build_full_song(
        is_playing: bool,
        properties: &Option<MediaProperties>,
        timeline: Option<Timeline>,
        timestamp: u64,
    ) -> (song: Song)
        ensures
            song@ == full_song(is_playing, *properties, timeline, timestamp),
    {
        let mut song = Song::default();
        song.last_update = timestamp;
        song.is_playing = is_playing;
        apply_properties(&mut song, properties);
        apply_timeline(&mut song, timeline);
        song
    }

    fn build_media_song(&self, properties: &Option<MediaProperties>, timestamp: u64) -> (song: Song)
        ensures
            song@ == media_song(self@, *properties, timestamp),
    {
        let mut song = self.last_song.clone();
        song.last_update = timestamp;
        apply_properties(&mut song, properties);
        song
    }

    /// Whether a thumbnail is to be fetched before [`EventState::update_full_state`].
    pub fn full_state_wants_thumbnail(
        &self,
        properties: &Option<MediaProperties>,
        timestamp: u64,
        cache: &AlbumArtCache,
    ) -> (wanted: bool)
        ensures
            wanted == wants_thumbnail(
                self@,
                full_song(false, *properties, None, timestamp),
                cache@,
                timestamp,
            ),
    {
        let song = Self::build_full_song(false, properties, None, timestamp);
        self.wants(&song, cache, timestamp)
    }

    /// Whether a thumbnail is to be fetched before [`EventState::update_media`].
    pub fn media_wants_thumbnail(
        &self,
        properties: &Option<MediaProperties>,
        timestamp: u64,
        cache: &AlbumArtCache,
    ) -> (wanted: bool)
        ensures
            wanted == wants_thumbnail(
                self@,
                media_song(self@, *properties, timestamp),
                cache@,
                timestamp,
            ),
    {
        let song = self.build_media_song(properties, timestamp);
        self.wants(&song, cache, timestamp)
    }

    /// Makes the record of the session anew and publishes it.
    pub fn update_full_state(
        &mut self,
        is_playing: bool,
        properties: Option<MediaProperties>,
        timeline: Option<Timeline>,
        thumbnail: Option<Vec<u8>>,
        timestamp: u64,
        cache: &mut AlbumArtCache,
        stored_at: u64,
    )
        ensures
            ({
                let song = full_song(is_playing, properties, timeline, timestamp);
                &&& final(self)@ == after_publishing(
                    after_art(old(self)@, song, old(cache)@, thumbnail, timestamp),
                    with_art(old(self)@, song, old(cache)@, thumbnail, timestamp),
                )
                &&& cache_after_art(
                    old(self)@,
                    song,
                    old(cache)@,
                    thumbnail,
                    timestamp,
                    stored_at,
                    final(cache)@,
                )
            }),
            final(self).published.is_playing == is_playing,
            final(self).published.last_update == timestamp,
            properties matches Some(p) ==> final(self).published.title@ == p.title@,
            properties matches Some(p) ==> final(self).published.artist@ == p.artist@,
            properties matches Some(p) ==> final(self).published.album@ == p.album@,
    {
        let mut song = Self::build_full_song(is_playing, &properties, timeline, timestamp);
        self.update_song_art(&mut song, thumbnail, timestamp, cache, stored_at);
        self.publish(song);
    }

    /// Publishes the last record with a new reading of the playback.
    pub fn update_playback(
        &mut self,
        is_playing: bool,
        timeline: Option<Timeline>,
        timestamp: u64,
    )
        ensures
            final(self)@ == after_publishing(
                old(self)@,
                playback_song(old(self)@, is_playing, timeline, timestamp),
            ),
            final(self).published.is_playing == is_playing,
            final(self).published.last_update == timestamp,
            final(self).published.title@ == old(self).last_song.title@,
            final(self).published.artist@ == old(self).last_song.artist@,
            final(self).published.album@ == old(self).last_song.album@,
            opt_text(final(self).published.album_art) == opt_text(old(self).last_song.album_art),
    {
        let mut song = self.last_song.clone();
        song.is_playing = is_playing;
        song.last_update = timestamp;
        apply_timeline(&mut song, timeline);
        self.publish(song);
    }

    /// Publishes the last record with a new reading of the properties of the song.
    pub fn update_media(
        &mut self,
        properties: Option<MediaProperties>,
        thumbnail: Option<Vec<u8>>,
        timestamp: u64,
        cache: &mut AlbumArtCache,
        stored_at: u64,
    )
        ensures
            ({
                let song = media_song(old(self)@, properties, timestamp);
                let shown = with_art(old(self)@, song, old(cache)@, thumbnail, timestamp);
                &&& final(self)@ == (EventView {
                    published: shown,
                    last_song: shown,
                    ..after_art(old(self)@, song, old(cache)@, thumbnail, timestamp)
                })
                &&& cache_after_art(
                    old(self)@,
                    song,
                    old(cache)@,
                    thumbnail,
                    timestamp,
                    stored_at,
                    final(cache)@,
                )
            }),
            final(self).published.is_playing == old(self).last_song.is_playing,
            final(self).published.last_update == timestamp,
            properties matches Some(p) ==> final(self).published.title@ == p.title@,
            properties matches Some(p) ==> final(self).published.artist@ == p.artist@,
            properties matches Some(p) ==> final(self).published.album@ == p.album@,
    {
        let mut song = self.build_media_song(&properties, timestamp);
        self.update_song_art(&mut song, thumbnail, timestamp, cache, stored_at);
        self.last_song = song.clone();
        self.published = song;
    }

    /// Publishes the last record with a new reading of the timeline.
    pub fn update_timeline(&mut self, timeline: Option<Timeline>)
        ensures
            final(self)@ == after_publishing(
                old(self)@,
                with_timeline(old(self)@.last_song, timeline),
            ),
            final(self).published.is_playing == old(self).last_song.is_playing,
            final(self).published.last_update == old(self).last_song.last_update,
            final(self).published.title@ == old(self).last_song.title@,
            final(self).published.artist@ == old(self).last_song.artist@,
            final(self).published.album@ == old(self).last_song.album@,
            opt_text(final(self).published.album_art) == opt_text(old(self).last_song.album_art),
    {
        let mut song = self.last_song.clone();
        apply_timeline(&mut song, timeline);
        self.publish(song);
    }
}

/// What listeners see is what is remembered.
pub open spec fn in_step(state: EventView) -> bool {
    &&& state.published == state.last_song
    &&& state.last_position == state.last_song.position
}

/// What listeners see is what is remembered: no event changes the one without the other.
pub proof fn events_keep_in_step(
    state: EventView,
    song: SongView,
    cache: Map<Seq<char>, super::art::CachedArt>,
    properties: Option<MediaProperties>,
    thumbnail: Option<Vec<u8>>,
    timestamp: u64,
)
    requires
        in_step(state),
    ensures
        in_step(cleared(state)),
        in_step(after_publishing(state, song)),
        in_step(
            after_publishing(after_art(state, song, cache, thumbnail, timestamp), song),
        ),
        ({
            let song = media_song(state, properties, timestamp);
            let shown = with_art(state, song, cache, thumbnail, timestamp);
            in_step(
                EventView {
                    published: shown,
                    last_song: shown,
                    ..after_art(state, song, cache, thumbnail, timestamp)
                },
            )
        }),
{
}

/// Whether a thumbnail is wanted depends on the song alone, not on how it is being played: what
/// is asked before the session is read in full holds for the record that is then made.
pub proof fn thumbnail_depends_on_the_song(
    state: EventView,
    is_playing: bool,
    properties: Option<MediaProperties>,
    timeline: Option<Timeline>,
    timestamp: u64,
    cache: Map<Seq<char>, super::art::CachedArt>,
)
    ensures
        wants_thumbnail(
            state,
            full_song(is_playing, properties, timeline, timestamp),
            cache,
            timestamp,
        ) == wants_thumbnail(
            state,
            full_song(false, properties, None, timestamp),
            cache,
            timestamp,
        ),
{
}

/// Whole seconds are counted from units of 100 nanoseconds.
pub proof fn ticks_are_tenths_of_microseconds(ticks: i64)
    requires
        ticks >= 0,
    ensures
        seconds_of(ticks) * 10_000_000 <= ticks < (seconds_of(ticks) + 1) * 10_000_000,
{
}

/// A reading of the timeline that has at least a second sets the times of a record to what was
/// read; no other reading changes the record.
pub proof fn readings_of_the_timeline_set_the_times(song: SongView, timeline: Timeline)
    requires
        timeline.position >= 0,
        timeline.end_time >= 0,
    ensures
        with_timeline(song, None) == song,
        timeline.end_time < 10_000_000 ==> with_timeline(song, Some(timeline)) == song,
        timeline.end_time >= 10_000_000 ==> {
            let after = with_timeline(song, Some(timeline));
            let position_secs = (timeline.position / 10_000_000) as u64;
            let duration_secs = (timeline.end_time / 10_000_000) as u64;
            &&& after.position == Some(clock(position_secs))
            &&& after.duration == Some(clock(duration_secs))
            &&& after.progress == Some(Progress { position_secs, duration_secs })
            &&& after == (SongView {
                position: after.position,
                duration: after.duration,
                progress: after.progress,
                ..song
            })
        },
{
}

/// What is remembered beside the record does not change when a record is published.
pub open spec fn same_session(before: EventView, after: EventView) -> bool {
    &&& after.process_filter == before.process_filter
    &&& after.app_id == before.app_id
    &&& after.app_name == before.app_name
}

/// After a playback event listeners see whether the song plays as the event read it, whatever they
/// saw before, and the time of the event. Title, artist, album and art are those of the last
/// record, and without a timeline the times are too.
pub proof fn playback_events_tell_what_they_read(
    state: EventView,
    is_playing: bool,
    timeline: Option<Timeline>,
    timestamp: u64,
)
    ensures
        ({
            let next = after_publishing(
                state,
                playback_song(state, is_playing, timeline, timestamp),
            );
            &&& next.published.is_playing == is_playing
            &&& next.published.last_update == timestamp
            &&& next.published.title == state.last_song.title
            &&& next.published.artist == state.last_song.artist
            &&& next.published.album == state.last_song.album
            &&& next.published.album_art == state.last_song.album_art
            &&& next.published.font_family == state.last_song.font_family
            &&& timeline is None ==> {
                &&& next.published.position == state.last_song.position
                &&& next.published.duration == state.last_song.duration
                &&& next.published.progress == state.last_song.progress
            }
            &&& next.last_song == next.published
            &&& next.last_position == next.published.position
            &&& next.last_song_id == state.last_song_id
            &&& next.last_art_update == state.last_art_update
            &&& same_session(state, next)
        }),
        timeline is Some && timeline->0.end_time >= 10_000_000 && timeline->0.position >= 0 ==> {
            let shown = playback_song(state, is_playing, timeline, timestamp);
            &&& shown.position == Some(clock((timeline->0.position / 10_000_000) as u64))
            &&& shown.duration == Some(clock((timeline->0.end_time / 10_000_000) as u64))
        },
{
}

/// A song that is paused and resumed is shown as playing again, however often it happens.
pub proof fn resumed_songs_are_shown_as_playing(
    state: EventView,
    paused_at: u64,
    resumed_at: u64,
    paused_timeline: Option<Timeline>,
    resumed_timeline: Option<Timeline>,
)
    ensures
        ({
            let paused = after_publishing(
                state,
                playback_song(state, false, paused_timeline, paused_at),
            );
            let resumed = after_publishing(
                paused,
                playback_song(paused, true, resumed_timeline, resumed_at),
            );
            &&& !paused.published.is_playing
            &&& resumed.published.is_playing
            &&& resumed.published.title == state.last_song.title
        }),
{
}

/// After a timeline event listeners see the last record with the times that were read.
pub proof fn timeline_events_change_the_times_only(state: EventView, timeline: Option<Timeline>)
    ensures
        ({
            let next = after_publishing(state, with_timeline(state.last_song, timeline));
            &&& next.published.is_playing == state.last_song.is_playing
            &&& next.published.last_update == state.last_song.last_update
            &&& next.published.title == state.last_song.title
            &&& next.published.artist == state.last_song.artist
            &&& next.published.album == state.last_song.album
            &&& next.published.album_art == state.last_song.album_art
            &&& next.last_song == next.published
            &&& next.last_position == next.published.position
            &&& same_session(state, next)
        }),
        timeline is Some && timeline->0.end_time >= 10_000_000 && timeline->0.position >= 0 ==> {
            let shown = with_timeline(state.last_song, timeline);
            &&& shown.position == Some(clock((timeline->0.position / 10_000_000) as u64))
            &&& shown.duration == Some(clock((timeline->0.end_time / 10_000_000) as u64))
        },
{
}

/// After a media event listeners see the title, artist and album that were read, or those of the
/// last record if nothing could be read, and the time of the event. Whether the song plays, and its
/// times, are those of the last record.
pub proof fn media_events_tell_what_they_read(
    state: EventView,
    properties: Option<MediaProperties>,
    cache: Map<Seq<char>, super::art::CachedArt>,
    thumbnail: Option<Vec<u8>>,
    timestamp: u64,
)
    ensures
        ({
            let shown = with_art(
                state,
                media_song(state, properties, timestamp),
                cache,
                thumbnail,
                timestamp,
            );
            &&& shown.is_playing == state.last_song.is_playing
            &&& shown.last_update == timestamp
            &&& shown.position == state.last_song.position
            &&& shown.duration == state.last_song.duration
            &&& shown.progress == state.last_song.progress
            &&& properties matches Some(p) ==> {
                &&& shown.title == p.title@
                &&& shown.artist == p.artist@
                &&& shown.album == p.album@
            }
            &&& properties is None ==> {
                &&& shown.title == state.last_song.title
                &&& shown.artist == state.last_song.artist
                &&& shown.album == state.last_song.album
            }
        }),
{
}

/// When a session is read in full listeners see what was read of it and nothing of the last record:
/// what could not be read is empty.
pub proof fn full_readings_owe_nothing_to_the_last_song(
    state: EventView,
    is_playing: bool,
    properties: Option<MediaProperties>,
    timeline: Option<Timeline>,
    cache: Map<Seq<char>, super::art::CachedArt>,
    thumbnail: Option<Vec<u8>>,
    timestamp: u64,
)
    ensures
        ({
            let song = full_song(is_playing, properties, timeline, timestamp);
            let shown = with_art(state, song, cache, thumbnail, timestamp);
            let next = after_publishing(
                after_art(state, song, cache, thumbnail, timestamp),
                shown,
            );
            &&& next.published == shown
            &&& next.last_song == shown
            &&& next.last_position == shown.position
            &&& same_session(state, next)
            &&& shown.is_playing == is_playing
            &&& shown.last_update == timestamp
            &&& shown.font_family.len() == 0
            &&& song.album_art is None
            &&& properties matches Some(p) ==> {
                &&& shown.title == p.title@
                &&& shown.artist == p.artist@
                &&& shown.album == p.album@
            }
            &&& properties is None ==> {
                &&& shown.title.len() == 0
                &&& shown.artist.len() == 0
                &&& shown.album.len() == 0
            }
            &&& timeline is None ==> {
                &&& shown.position is None
                &&& shown.duration is None
                &&& shown.progress is None
            }
            &&& timeline is Some && timeline->0.end_time >= 10_000_000 && timeline->0.position >= 0 ==> {
                &&& shown.position == Some(clock((timeline->0.position / 10_000_000) as u64))
                &&& shown.duration == Some(clock((timeline->0.end_time / 10_000_000) as u64))
            }
        }),
{
}

/// Art that is kept for a song is shown with it, whatever art was shown before, unless the song is
/// another than the last and art was last fetched more than half a minute ago.
pub proof fn kept_art_is_shown(
    state: EventView,
    song: SongView,
    cache: Map<Seq<char>, super::art::CachedArt>,
    thumbnail: Option<Vec<u8>>,
    timestamp: u64,
    id: Seq<char>,
)
    requires
        id == song.title + seq!['|'] + song.artist + seq!['|'] + song.album,
        cache.contains_key(id),
        id == state.last_song_id || timestamp - state.last_art_update <= 30,
    ensures
        with_art(state, song, cache, thumbnail, timestamp).album_art == Some(cache[id].art),
        after_art(state, song, cache, thumbnail, timestamp).last_song_id == id,
        after_art(state, song, cache, thumbnail, timestamp).last_art_update
            == state.last_art_update,
{
    assert(id =~= id_of(song));
}

/// A thumbnail is shown with a song of which no art is kept, and with one whose art was last looked
/// up long ago and for another song. If none could be read, the art that was shown stays. Either
/// way the song is the last one whose art was looked up.
pub proof fn due_thumbnails_are_shown(
    state: EventView,
    song: SongView,
    cache: Map<Seq<char>, super::art::CachedArt>,
    thumbnail: Option<Vec<u8>>,
    timestamp: u64,
    id: Seq<char>,
)
    requires
        id == song.title + seq!['|'] + song.artist + seq!['|'] + song.album,
        !cache.contains_key(id) || (id != state.last_song_id && timestamp - state.last_art_update
            > 30),
    ensures
        thumbnail matches Some(data) ==> {
            &&& with_art(state, song, cache, thumbnail, timestamp).album_art == Some(
                "data:image/jpeg;base64,"@ + base64_text(data@),
            )
            &&& after_art(state, song, cache, thumbnail, timestamp).last_art_update == timestamp
        },
        thumbnail is None ==> {
            &&& with_art(state, song, cache, thumbnail, timestamp).album_art == song.album_art
            &&& after_art(state, song, cache, thumbnail, timestamp).last_art_update
                == state.last_art_update
        },
        after_art(state, song, cache, thumbnail, timestamp).last_song_id == id,
{
    assert(id =~= id_of(song));
    if let Some(data) = thumbnail {
        reveal_strlit("data:image/jpeg;base64,");
        reveal_strlit("data:");
        reveal_strlit("image/jpeg");
        reveal_strlit(";base64,");
        assert(thumbnail_art(data@) =~= "data:image/jpeg;base64,"@ + base64_text(data@));
    }
}

/// Looking up the art of a song changes nothing of its record but the art.
pub proof fn looking_up_art_changes_the_art_only(
    state: EventView,
    song: SongView,
    cache: Map<Seq<char>, super::art::CachedArt>,
    thumbnail: Option<Vec<u8>>,
    timestamp: u64,
)
    ensures
        ({
            let shown = with_art(state, song, cache, thumbnail, timestamp);
            &&& shown.title == song.title
            &&& shown.artist == song.artist
            &&& shown.album == song.album
            &&& shown.is_playing == song.is_playing
            &&& shown.position == song.position
            &&& shown.duration == song.duration
            &&& shown.progress == song.progress
            &&& shown.last_update == song.last_update
        }),
        ({
            let next = after_art(state, song, cache, thumbnail, timestamp);
            &&& next.published == state.published
            &&& next.last_song == state.last_song
            &&& next.last_position == state.last_position
            &&& same_session(state, next)
        }),
{
}

/// A thumbnail that is shown is kept for its song, and for no other.
pub proof fn shown_thumbnails_are_kept(
    state: EventView,
    song: SongView,
    before: Map<Seq<char>, super::art::CachedArt>,
    data: Vec<u8>,
    timestamp: u64,
    stored_at: u64,
    after: Map<Seq<char>, super::art::CachedArt>,
    id: Seq<char>,
)
    requires
        id == song.title + seq!['|'] + song.artist + seq!['|'] + song.album,
        cache_after_art(state, song, before, Some(data), timestamp, stored_at, after),
        before.dom().finite(),
        before.len() < 30,
    ensures
        before.contains_key(id) && (id == state.last_song_id || timestamp - state.last_art_update
            <= 30) ==> after == before,
        !before.contains_key(id) ==> {
            &&& after.contains_key(id)
            &&& Some(after[id].art) == with_art(state, song, before, Some(data), timestamp).album_art
        },
        forall|other: Seq<char>|
            other != id ==> (#[trigger] after.contains_key(other) <==> before.contains_key(other)),
        forall|other: Seq<char>|
            other != id && before.contains_key(other) ==> #[trigger] after[other]
                == before[other],
{
    assert(id =~= id_of(song));
    if wants_thumbnail(state, song, before, timestamp) {
        super::art::little_art_is_all_kept(before, id, thumbnail_art(data@), stored_at, after);
    }
}

/// A session that is left takes its song and its application along; the filter stays.
pub proof fn clearing_forgets_the_session(state: EventView)
    ensures
        ({
            let next = cleared(state);
            &&& next.published == no_song()
            &&& next.last_song == no_song()
            &&& next.last_position is None
            &&& next.app_id.len() == 0
            &&& next.app_name.len() == 0
            &&& next.process_filter == state.process_filter
            &&& next.last_song_id == state.last_song_id
            &&& next.last_art_update == state.last_art_update
        }),
        ({
            let song = no_song();
            &&& song.title.len() == 0
            &&& song.artist.len() == 0
            &&& song.album.len() == 0
            &&& song.album_art is None
            &&& song.position is None
            &&& song.duration is None
            &&& song.progress is None
            &&& !song.is_playing
            &&& song.last_update == 0
            &&& song.font_family.len() == 0
        }),
{
}

/// A thumbnail is read if it has any bytes and at most ten mebibytes.
pub proof fn thumbnails_have_at_most_ten_mebibytes(size: u64, fits: bool)
    requires
        call_ensures(thumbnail_fits, (size,), fits),
    ensures
        fits <==> 1 <= size <= 10 * 1024 * 1024,
{
}

/// Before a session is read in full, a thumbnail is asked for if and only if no art of the song is
/// kept, or the song is another than the last and art was last fetched more than half a minute ago.
pub proof fn full_readings_ask_for_due_thumbnails(
    state: &EventState,
    properties: &Option<MediaProperties>,
    timestamp: u64,
    cache: &AlbumArtCache,
    wanted: bool,
    id: Seq<char>,
)
    requires
        call_ensures(
            EventState::full_state_wants_thumbnail,
            (state, properties, timestamp, cache),
            wanted,
        ),
        properties matches Some(p) ==> id == p.title@ + seq!['|'] + p.artist@ + seq!['|']
            + p.album@,
        properties is None ==> id == seq!['|', '|'],
    ensures
        wanted <==> !cache@.contains_key(id) || (id != state.last_song_id@ && timestamp
            - state.last_art_update > 30),
{
    assert(id =~= id_of(full_song(false, *properties, None, timestamp)));
}

/// Before a media event is taken in, a thumbnail is asked for under the same condition.
pub proof fn media_events_ask_for_due_thumbnails(
    state: &EventState,
    properties: &Option<MediaProperties>,
    timestamp: u64,
    cache: &AlbumArtCache,
    wanted: bool,
    id: Seq<char>,
)
    requires
        call_ensures(
            EventState::media_wants_thumbnail,
            (state, properties, timestamp, cache),
            wanted,
        ),
        properties matches Some(p) ==> id == p.title@ + seq!['|'] + p.artist@ + seq!['|']
            + p.album@,
        properties is None ==> id == state.last_song.title@ + seq!['|'] + state.last_song.artist@
            + seq!['|'] + state.last_song.album@,
    ensures
        wanted <==> !cache@.contains_key(id) || (id != state.last_song_id@ && timestamp
            - state.last_art_update > 30),
{
    assert(id =~= id_of(media_song(state@, *properties, timestamp)));
}

/// Before the first event nothing is remembered but the filter.
pub proof fn events_begin_with_nothing(process_filter: &str, state: EventState)
    requires
        call_ensures(EventState::new, (process_filter,), state),
    ensures
        state.process_filter@ == process_filter@,
        state.published@ == no_song(),
        state.last_song@ == no_song(),
        state.last_position is None,
        state.last_song_id@.len() == 0,
        state.last_art_update == 0,
        state.app_id@.len() == 0,
        state.app_name@.len() == 0,
{
}

/// Less than a second before zero counts as none; more wraps around, by as many seconds as it is
/// before zero.
pub proof fn negative_ticks_wrap_around(ticks: i64)
    requires
        ticks < 0,
    ensures
        ticks > -10_000_000 ==> seconds_of(ticks) == 0,
        ticks <= -10_000_000 ==> seconds_of(ticks) + (-ticks) / 10_000_000
            == 0x1_0000_0000_0000_0000,
{
}

} // verus!
