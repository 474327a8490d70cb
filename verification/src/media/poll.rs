//! Polling a media session: what one round of polling asks for, publishes and remembers.
use vstd::prelude::*;
use super::art::{generate_song_id, is_art_due, AlbumArtCache};
use super::{MediaSession, SessionInfo};
use crate::song::Song;
use crate::text::{copy_opt, opt_eq};
#[allow(unused_imports)]
use crate::song::{clock, no_song, timed, Progress, SongView};
#[allow(unused_imports)]
use crate::text::opt_text;

verus! {

/// The pause, in milliseconds, after a round in which no player was found.
pub const IDLE_PAUSE_MS: u64 = 500;

/// The pause after a round in which the player was playing.
pub const PLAYING_PAUSE_MS: u64 = 200;

/// The pause after a round in which the player was not playing.
pub const PAUSED_PAUSE_MS: u64 = 1000;

/// The age, in seconds, up to which an unchanged record is not published again.
pub const MAX_AGE_SECS: u64 = 10;

/// What is remembered from one round of polling to the next.
pub struct PollState {
    pub last_song: Song,
    pub last_position: Option<String>,
    pub last_song_id: String,
    pub last_art_update: u64,
    pub app_id: String,
    pub app_name: String,
}

/// The values that a [`PollState`] holds.
#[verifier::ext_equal]
pub struct PollView {
    pub last_song: SongView,
    pub last_position: Option<Seq<char>>,
    pub last_song_id: Seq<char>,
    pub last_art_update: u64,
    pub app_id: Seq<char>,
    pub app_name: Seq<char>,
}

impl View for PollState {
    type V = PollView;

    open spec fn view(&self) -> PollView {
        PollView {
            last_song: self.last_song@,
            last_position: opt_text(self.last_position),
            last_song_id: self.last_song_id@,
            last_art_update: self.last_art_update,
            app_id: self.app_id@,
            app_name: self.app_name@,
        }
    }
}

/// Where the art of the polled song is to come from.
#[derive(Debug, PartialEq)]
pub enum ArtPlan {
    /// From the cache, which holds this art.
    UseCached(String),
    /// From the media session.
    Fetch,
}

/// The art of the polled song.
#[derive(Debug, PartialEq)]
pub enum AlbumArt {
    /// It was in the cache.
    Cached(String),
    /// The media session was asked for it.
    Fetched(Option<String>),
}

/// What a round of polling ends with.
pub struct Tick {
    /// The record to publish, if there is one.
    pub publish: Option<Song>,
    /// The pause before the next round, in milliseconds.
    pub pause_ms: u64,
}

/// The identifier of a reported song.
pub open spec fn reported_id(info: super::SessionView) -> Seq<char> {
    super::art::song_id(info.title, info.artist, info.album)
}

/// Whether the media session is to be asked for the art of the reported song.
pub open spec fn fetches(
    state: PollView,
    info: super::SessionView,
    cache: Map<Seq<char>, super::art::CachedArt>,
    timestamp: u64,
) -> bool {
    super::art::art_due(
        cache.contains_key(reported_id(info)),
        reported_id(info),
        state.last_song_id,
        timestamp,
        state.last_art_update,
    )
}

/// The art of a round, whichever way it came.
pub open spec fn art_text(art: AlbumArt) -> Option<Seq<char>> {
    match art {
        AlbumArt::Cached(a) => Some(a@),
        AlbumArt::Fetched(a) => opt_text(a),
    }
}

/// The record of a reported song.
pub open spec fn reported_song(
    info: super::SessionView,
    art: Option<Seq<char>>,
    timestamp: u64,
) -> SongView {
    timed(
        SongView {
            title: info.title,
            artist: info.artist,
            album: info.album,
            album_art: art,
            is_playing: info.is_playing,
            last_update: timestamp,
            ..no_song()
        },
        info.position_secs,
        info.duration_secs,
    )
}

/// Whether a record is to be published: something that listeners see has changed, or the last
/// record that was published has grown old.
pub open spec fn is_news(state: PollView, song: SongView, timestamp: u64) -> bool {
    ||| song.is_playing != state.last_song.is_playing
    ||| song.position != state.last_position
    ||| song.title != state.last_song.title
    ||| song.artist != state.last_song.artist
    ||| song.album != state.last_song.album
    ||| song.album_art != state.last_song.album_art
    ||| timestamp - state.last_song.last_update > MAX_AGE_SECS
}

/// What is remembered after a round in which no player was found.
pub open spec fn after_idle(state: PollView) -> PollView {
    PollView { last_song: no_song(), last_position: None, ..state }
}

/// What is remembered after a round in which a player reported a song.
pub open spec fn after_report(
    state: PollView,
    info: super::SessionView,
    art: AlbumArt,
    timestamp: u64,
) -> PollView {
    let song = reported_song(info, art_text(art), timestamp);
    let news = is_news(state, song, timestamp);
    PollView {
        last_song: if news {
            song
        } else {
            state.last_song
        },
        last_position: if news {
            song.position
        } else {
            state.last_position
        },
        last_song_id: if art is Fetched {
            reported_id(info)
        } else {
            state.last_song_id
        },
        last_art_update: if art is Fetched {
            timestamp
        } else {
            state.last_art_update
        },
        app_id: info.app_id,
        app_name: info.app_name,
    }
}

/// What a round of polling remembers.
pub open spec fn after_round(
    state: PollView,
    polled: Option<(super::SessionView, AlbumArt)>,
    timestamp: u64,
) -> PollView {
    match polled {
        None => after_idle(state),
        Some((info, art)) => after_report(state, info, art, timestamp),
    }
}

/// The record that a round of polling publishes, if it publishes one.
pub open spec fn published(
    state: PollView,
    polled: Option<(super::SessionView, AlbumArt)>,
    timestamp: u64,
) -> Option<SongView> {
    match polled {
        None => Some(no_song()),
        Some((info, art)) => {
            let song = reported_song(info, art_text(art), timestamp);
            if is_news(state, song, timestamp) {
                Some(song)
            } else {
                None
            }
        },
    }
}

/// The pause after a round of polling, in milliseconds.
pub open spec fn pause_after(polled: Option<(super::SessionView, AlbumArt)>) -> u64 {
    match polled {
        None => IDLE_PAUSE_MS,
        Some((info, _)) => if info.is_playing {
            PLAYING_PAUSE_MS
        } else {
            PAUSED_PAUSE_MS
        },
    }
}

/// What a round polled, as values.
pub open spec fn polled_view(polled: Option<(SessionInfo, AlbumArt)>) -> Option<
    (super::SessionView, AlbumArt),
> {
    match polled {
        None => None,
        Some((info, art)) => Some((info@, art)),
    }
}

/// The cache after a round: art that was fetched is stored for the reported song.
pub open spec fn cache_after_round(
    polled: Option<(super::SessionView, AlbumArt)>,
    before: Map<Seq<char>, super::art::CachedArt>,
    stored_at: u64,
    after: Map<Seq<char>, super::art::CachedArt>,
) -> bool {
    match polled {
        Some((info, AlbumArt::Fetched(Some(art)))) => super::art::stores(
            before,
            reported_id(info),
            art@,
            stored_at,
            after,
        ),
        _ => after == before,
    }
}

/// A record that may be absent, as values.
pub open spec fn opt_song(song: Option<Song>) -> Option<SongView> {
    match song {
        Some(s) => Some(s@),
        None => None,
    }
}

/// `answer` is what the media session may answer when it is asked for the art of the reported
/// song.
pub open spec fn may_answer<S: MediaSession>(
    session: &S,
    info: super::SessionView,
    answer: Option<String>,
) -> bool {
    exists|artist: &str, title: &str, album: &str|
        artist@ == info.artist && title@ == info.title && album@ == info.album
            && #[trigger] call_ensures(
            S::get_album_art_base64,
            (session, artist, title, album),
            answer,
        )
}

/// Gets the art of the reported song from where the plan says.
pub fn obtain_art<S: MediaSession>(session: &S, info: &SessionInfo, plan: ArtPlan) -> (art: AlbumArt)
    ensures
        plan matches ArtPlan::UseCached(kept) ==> art == AlbumArt::Cached(kept),
        plan is Fetch ==> (art matches AlbumArt::Fetched(answer) && may_answer(
            session,
            info@,
            answer,
        )),
{
    match plan {
        ArtPlan::UseCached(kept) => AlbumArt::Cached(kept),
        ArtPlan::Fetch => {
            let (artist, title, album) = (
                info.artist.as_str(),
                info.title.as_str(),
                info.album.as_str(),
            );
            let answer = session.get_album_art_base64(artist, title, album);
            assert(may_answer(session, info@, answer));
            AlbumArt::Fetched(answer)
        },
    }
}

impl PollState {
    /// The state before the first round.
    pub fn new() -> (state: Self)
        ensures
            state@ == (PollView {
                last_song: no_song(),
                last_position: None,
                last_song_id: seq![],
                last_art_update: 0,
                app_id: seq![],
                app_name: seq![],
            }),
    {
        PollState {
            last_song: Song::default(),
            last_position: None,
            last_song_id: String::new(),
            last_art_update: 0,
            app_id: String::new(),
            app_name: String::new(),
        }
    }

    /// Where the art of the reported song is to come from.
    pub fn plan_art(&self, info: &SessionInfo, cache: &AlbumArtCache, timestamp: u64) -> (plan:
        ArtPlan)
        ensures
            plan is Fetch <==> fetches(self@, info@, cache@, timestamp),
            plan matches ArtPlan::UseCached(art) ==> cache@.contains_key(reported_id(info@))
                && art@ == cache@[reported_id(info@)].art,
    {
        let id = generate_song_id(info.title.as_str(), info.artist.as_str(), info.album.as_str());
        let kept = cache.get_cached_album_art(id.as_str());
        match kept {
            Some(art) => if is_art_due(
                true,
                id.as_str(),
                self.last_song_id.as_str(),
                timestamp,
                self.last_art_update,
            ) {
                ArtPlan::Fetch
            } else {
                ArtPlan::UseCached(art)
            },
            None => ArtPlan::Fetch,
        }
    }

    /// Takes in what a round polled: `None` if no player was found, else the report and the art
    /// of its song, which came from where [`PollState::plan_art`] said. Fetched art is stored in
    /// the cache, at the second `stored_at`.
    pub fn finish_round(
        &mut self,
        polled: Option<(SessionInfo, AlbumArt)>,
        timestamp: u64,
        cache: &mut AlbumArtCache,
        stored_at: u64,
    ) -> (tick: Tick)
        ensures
            final(self)@ == after_round(old(self)@, polled_view(polled), timestamp),
            opt_song(tick.publish) == published(old(self)@, polled_view(polled), timestamp),
            tick.pause_ms == pause_after(polled_view(polled)),
            polled is None ==> tick.publish is Some,
            polled is Some && tick.publish is Some ==> {
                let (info, _) = polled->0;
                let song = tick.publish->0;
                &&& song.title@ == info.title@
                &&& song.artist@ == info.artist@
                &&& song.album@ == info.album@
                &&& song.is_playing == info.is_playing
                &&& song.last_update == timestamp
            },
            polled matches Some((info, _)) ==> final(self).app_id@ == info.app_id@,
            polled matches Some((info, _)) ==> final(self).app_name@ == info.app_name@,
            cache_after_round(polled_view(polled), old(cache)@, stored_at, final(cache)@),
            polled matches Some((info, AlbumArt::Fetched(Some(art)))) ==> super::art::stores(
                old(cache)@,
                reported_id(info@),
                art@,
                stored_at,
                final(cache)@,
            ),
            !(polled matches Some((_, AlbumArt::Fetched(Some(_))))) ==> final(cache)@ == old(
                cache,
            )@,
    {
        match polled {
            None => {
                self.last_song = Song::default();
                self.last_position = None;
                Tick { publish: Some(Song::default()), pause_ms: IDLE_PAUSE_MS }
            },
            Some((info, art)) => {
                let mut song = Song::default();
                song.last_update = timestamp;
                song.is_playing = info.is_playing;
                song.title = info.title;
                song.artist = info.artist;
                song.album = info.album;
                self.app_id = info.app_id;
                self.app_name = info.app_name;
                match art {
                    AlbumArt::Cached(a) => {
                        song.album_art = Some(a);
                    },
                    AlbumArt::Fetched(fetched) => {
                        let id = generate_song_id(
                            song.title.as_str(),
                            song.artist.as_str(),
                            song.album.as_str(),
                        );
                        if let Some(a) = &fetched {
                            cache.set_cached_album_art(id.as_str(), a.clone(), stored_at);
                        }
                        song.album_art = fetched;
                        self.last_song_id = id;
                        self.last_art_update = timestamp;
                    },
                }
                song.set_timeline(info.position_secs, info.duration_secs);
                let news = song.is_playing != self.last_song.is_playing || !opt_eq(
                    &song.position,
                    &self.last_position,
                ) || song.title != self.last_song.title || song.artist != self.last_song.artist
                    || song.album != self.last_song.album || !opt_eq(
                    &song.album_art,
                    &self.last_song.album_art,
                ) || timestamp.saturating_sub(self.last_song.last_update) > MAX_AGE_SECS;
                let pause_ms: u64 = if song.is_playing {
                    PLAYING_PAUSE_MS
                } else {
                    PAUSED_PAUSE_MS
                };
                if news {
                    self.last_song = song.clone();
                    self.last_position = copy_opt(&song.position);
                    Tick { publish: Some(song), pause_ms }
                } else {
                    Tick { publish: None, pause_ms }
                }
            },
        }
    }
}

/// The remembered song is the one that listeners see: if it was so before a round, it is so
/// after it, whether or not the round publishes a record.
pub proof fn remembered_song_is_the_published_one(
    state: PollView,
    shown: SongView,
    polled: Option<(super::SessionView, AlbumArt)>,
    timestamp: u64,
)
    requires
        state.last_song == shown,
        state.last_position == shown.position,
    ensures
        ({
            let next = after_round(state, polled, timestamp);
            let shown_next = match published(state, polled, timestamp) {
                Some(song) => song,
                None => shown,
            };
            next.last_song == shown_next && next.last_position == shown_next.position
        }),
{
}

/// As long as a player is found, what listeners see is what the player reports, but for a
/// duration, a progress and a time of update that are at most as old as the oldest record that
/// is not published again.
pub proof fn shown_song_is_current(
    state: PollView,
    info: super::SessionView,
    art: AlbumArt,
    timestamp: u64,
)
    requires
        state.last_position == state.last_song.position,
    ensures
        ({
            let shown = after_round(state, Some((info, art)), timestamp).last_song;
            let song = reported_song(info, art_text(art), timestamp);
            &&& shown.title == info.title
            &&& shown.artist == info.artist
            &&& shown.album == info.album
            &&& shown.is_playing == info.is_playing
            &&& shown.album_art == art_text(art)
            &&& shown.position == song.position
            &&& timestamp - shown.last_update <= MAX_AGE_SECS
        }),
{
}

/// A record that is published holds what the player reported and the art that was found, and
/// nothing of the record before it.
pub proof fn published_records_hold_the_report(
    state: PollView,
    info: super::SessionView,
    art: AlbumArt,
    timestamp: u64,
)
    ensures
        published(state, Some((info, art)), timestamp) matches Some(song) ==> {
            &&& song.title == info.title
            &&& song.artist == info.artist
            &&& song.album == info.album
            &&& song.is_playing == info.is_playing
            &&& song.last_update == timestamp
            &&& song.font_family.len() == 0
            &&& info.duration_secs > 0 ==> {
                &&& song.position == Some(clock(info.position_secs))
                &&& song.duration == Some(clock(info.duration_secs))
                &&& song.progress == Some(
                    Progress {
                        position_secs: info.position_secs,
                        duration_secs: info.duration_secs,
                    },
                )
            }
            &&& info.duration_secs == 0 ==> {
                &&& song.position is None
                &&& song.duration is None
                &&& song.progress is None
            }
        },
        published(state, Some((info, art)), timestamp) matches Some(song) ==> match art {
            AlbumArt::Cached(kept) => song.album_art == Some(kept@),
            AlbumArt::Fetched(Some(found)) => song.album_art == Some(found@),
            AlbumArt::Fetched(None) => song.album_art is None,
        },
{
}

/// A report is published if it differs from the last record in what listeners see, or if that
/// record is more than ten seconds old; and not otherwise.
pub proof fn only_news_is_published(
    state: PollView,
    info: super::SessionView,
    art: AlbumArt,
    timestamp: u64,
)
    ensures
        published(state, Some((info, art)), timestamp) is Some <==> {
            ||| info.title != state.last_song.title
            ||| info.artist != state.last_song.artist
            ||| info.album != state.last_song.album
            ||| info.is_playing != state.last_song.is_playing
            ||| art_text(art) != state.last_song.album_art
            ||| info.duration_secs > 0 && Some(clock(info.position_secs)) != state.last_position
            ||| info.duration_secs == 0 && state.last_position is Some
            ||| timestamp > state.last_song.last_update + 10
        },
{
}

/// A song that moves on is published at each second, and a song that is paused or resumed at once.
pub proof fn changes_are_published_at_once(
    state: PollView,
    info: super::SessionView,
    art: AlbumArt,
    timestamp: u64,
    last_secs: u64,
)
    requires
        state.last_position == Some(clock(last_secs)),
        info.duration_secs > 0,
        info.position_secs != last_secs || info.is_playing != state.last_song.is_playing,
    ensures
        published(state, Some((info, art)), timestamp) is Some,
{
    if info.position_secs != last_secs && clock(info.position_secs) == clock(last_secs) {
        crate::song::clock_is_injective(info.position_secs, last_secs);
    }
}

/// Without a player nothing playing is published, and nothing is remembered of the song.
pub proof fn idle_rounds_show_no_song(state: PollView, timestamp: u64)
    ensures
        published(state, None, timestamp) == Some(no_song()),
        ({
            let next = after_round(state, None, timestamp);
            &&& next.last_song == no_song()
            &&& next.last_position is None
            &&& next.last_song_id == state.last_song_id
            &&& next.last_art_update == state.last_art_update
            &&& next.app_id == state.app_id
            &&& next.app_name == state.app_name
        }),
        ({
            let song = no_song();
            &&& song.title.len() == 0
            &&& song.artist.len() == 0
            &&& song.album.len() == 0
            &&& song.album_art is None
            &&& !song.is_playing
            &&& song.last_update == 0
        }),
{
}

/// A round with a player remembers its application. If art was fetched, it remembers the song as
/// the last one whose art was, and when; otherwise it leaves both.
pub proof fn rounds_remember_application_and_fetch(
    state: PollView,
    info: super::SessionView,
    art: AlbumArt,
    timestamp: u64,
)
    ensures
        ({
            let next = after_round(state, Some((info, art)), timestamp);
            &&& next.app_id == info.app_id
            &&& next.app_name == info.app_name
            &&& art is Fetched ==> {
                &&& next.last_song_id == info.title + seq!['|'] + info.artist + seq!['|']
                    + info.album
                &&& next.last_art_update == timestamp
            }
            &&& art is Cached ==> {
                &&& next.last_song_id == state.last_song_id
                &&& next.last_art_update == state.last_art_update
            }
        }),
{
    assert(info.title + seq!['|'] + info.artist + seq!['|'] + info.album =~= reported_id(info));
}

/// Rounds follow each other after a fifth of a second while a song plays, after a second while it
/// does not, and after half a second without a player.
pub proof fn rounds_follow_by_state(info: super::SessionView, art: AlbumArt)
    ensures
        info.is_playing ==> pause_after(Some((info, art))) == 200,
        !info.is_playing ==> pause_after(Some((info, art))) == 1000,
        pause_after(None) == 500,
{
}

/// A session is asked for art if none is kept for the song, or if the song is another than the last
/// whose art was fetched and that was more than half a minute ago. Otherwise the art is what the
/// cache holds for the song.
pub proof fn art_comes_from_the_cache_or_the_session(
    state: &PollState,
    info: &SessionInfo,
    cache: &AlbumArtCache,
    timestamp: u64,
    plan: ArtPlan,
    id: Seq<char>,
)
    requires
        call_ensures(PollState::plan_art, (state, info, cache, timestamp), plan),
        id == info.title@ + seq!['|'] + info.artist@ + seq!['|'] + info.album@,
    ensures
        plan is Fetch <==> !cache@.contains_key(id) || (id != state.last_song_id@ && timestamp
            > state.last_art_update + 30),
        plan matches ArtPlan::UseCached(art) ==> cache@.contains_key(id) && art@ == cache@[id].art,
{
    assert(id =~= reported_id(info@));
}

/// Art that was fetched is found for its song from then on, as long as the cache has room; a round
/// that fetched none leaves the cache.
pub proof fn fetched_art_is_kept(
    info: super::SessionView,
    art: String,
    before: Map<Seq<char>, super::art::CachedArt>,
    stored_at: u64,
    after: Map<Seq<char>, super::art::CachedArt>,
    kept: Map<Seq<char>, super::art::CachedArt>,
    cached: String,
)
    requires
        cache_after_round(
            Some((info, AlbumArt::Fetched(Some(art)))),
            before,
            stored_at,
            after,
        ),
        cache_after_round(Some((info, AlbumArt::Cached(cached))), before, stored_at, kept),
        before.dom().finite(),
        before.len() < 30,
    ensures
        ({
            let id = info.title + seq!['|'] + info.artist + seq!['|'] + info.album;
            &&& after.contains_key(id)
            &&& after[id].art == art@
            &&& after[id].stored_at == stored_at
        }),
        kept == before,
        cache_after_round(None, before, stored_at, before),
        cache_after_round(Some((info, AlbumArt::Fetched(None))), before, stored_at, before),
{
    assert(info.title + seq!['|'] + info.artist + seq!['|'] + info.album =~= reported_id(info));
    super::art::little_art_is_all_kept(before, reported_id(info), art@, stored_at, after);
}

/// Before the first round nothing is remembered.
pub proof fn polling_begins_with_nothing(state: PollState)
    requires
        call_ensures(PollState::new, (), state),
    ensures
        state.last_song@ == no_song(),
        state.last_position is None,
        state.last_song_id@.len() == 0,
        state.last_art_update == 0,
        state.app_id@.len() == 0,
        state.app_name@.len() == 0,
{
}

} // verus!
