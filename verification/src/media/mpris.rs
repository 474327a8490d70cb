//! Players that announce themselves over MPRIS: which of them is followed, what it reports, and
//! the art of its song.
use vstd::prelude::*;
use super::art::{generate_song_id, AlbumArtCache};
use super::filter::matches_process_filter;
use super::SessionInfo;
use crate::encode::{data_uri_of, guess_media_type};
use crate::text::{chars_of, join, starts_with, string_of};
#[allow(unused_imports)]
use crate::encode::{base64_text, data_uri, extension_type, guessed};
#[allow(unused_imports)]
use super::filter::{is_rule, rule_admits};
#[allow(unused_imports)]
use crate::text::{joined, lowercase, opt_text, texts, trim};

verus! {

/// Whether a player plays.
#[derive(Clone, Copy, Debug, PartialEq, Eq, Structural)]
pub enum PlaybackStatus {
    Playing,
    Paused,
    Stopped,
}

/// A player on the bus.
#[derive(Debug)]
pub struct PlayerEntry {
    pub bus_name: String,
    pub identity: String,
    /// `None` if the player does not tell.
    pub status: Option<PlaybackStatus>,
}

/// What a player tells of its track. Whatever it does not tell is `None`.
#[derive(Debug)]
pub struct TrackMetadata {
    pub title: Option<String>,
    pub artists: Option<Vec<String>>,
    pub album: Option<String>,
    pub art_url: Option<String>,
    pub length_micros: Option<u128>,
}

/// A session that follows one of the players on the bus.
#[derive(Debug)]
pub struct MprisSession {
    process_filter: String,
    last_art_url: Option<String>,
}

/// The values that an [`MprisSession`] holds.
#[verifier::ext_equal]
pub struct MprisView {
    pub process_filter: Seq<char>,
    pub last_art_url: Option<Seq<char>>,
}

impl View for MprisSession {
    type V = MprisView;

    closed spec fn view(&self) -> MprisView {
        MprisView {
            process_filter: self.process_filter@,
            last_art_url: opt_text(self.last_art_url),
        }
    }
}

/// Playing players come first, paused ones second. A player that does not tell its status
/// counts as stopped.
pub open spec fn rank(player: PlayerEntry) -> int {
    match player.status {
        Some(PlaybackStatus::Playing) => 0,
        Some(PlaybackStatus::Paused) => 1,
        _ => 2,
    }
}

/// The session's filter admits the player.
pub open spec fn followed(session: MprisView, player: PlayerEntry) -> bool {
    super::filter::admits(session.process_filter, player.bus_name@, player.identity@)
}

/// `k` is the player to follow: of the players that the filter admits, no other has a lower
/// rank, and none of the same rank was found before it.
pub open spec fn chosen(session: MprisView, players: Seq<PlayerEntry>, k: int) -> bool {
    &&& 0 <= k < players.len()
    &&& followed(session, players[k])
    &&& forall|j: int|
        0 <= j < players.len() && #[trigger] followed(session, players[j]) ==> rank(players[k])
            < rank(players[j]) || (rank(players[k]) == rank(players[j]) && k <= j)
}

/// Microseconds as whole seconds. The count is read as a signed number of 64 bits, and a
/// negative number counts as none.
pub open spec fn whole_seconds(micros: Option<u128>) -> u64 {
    match micros {
        Some(m) => {
            let low = m % 0x1_0000_0000_0000_0000;
            if low < 0x8000_0000_0000_0000 {
                (low / 1_000_000) as u64
            } else {
                0
            }
        },
        None => 0,
    }
}

/// A text that may be absent, with nothing in its place.
pub open spec fn or_empty(s: Option<String>) -> Seq<char> {
    match s {
        Some(t) => t@,
        None => seq![],
    }
}

/// The artists of a track.
pub open spec fn artist_text(artists: Option<Vec<String>>) -> Seq<char> {
    match artists {
        Some(list) => joined(texts(list@), ", "@),
        None => seq![],
    }
}

/// The report on the track of a player.
pub open spec fn report(
    player: PlayerEntry,
    status: Option<PlaybackStatus>,
    track: TrackMetadata,
    position_micros: Option<u128>,
) -> super::SessionView {
    super::SessionView {
        title: or_empty(track.title),
        artist: artist_text(track.artists),
        album: or_empty(track.album),
        is_playing: status == Some(PlaybackStatus::Playing),
        position_secs: whole_seconds(position_micros),
        duration_secs: whole_seconds(track.length_micros),
        app_id: player.bus_name@,
        app_name: player.identity@,
    }
}

/// A session after its player told of a track: it remembers the address of the track's art, if there
/// is one.
pub open spec fn after_poll(session: MprisView, track: TrackMetadata) -> MprisView {
    MprisView {
        last_art_url: if or_empty(track.art_url).len() > 0 {
            Some(or_empty(track.art_url))
        } else {
            session.last_art_url
        },
        ..session
    }
}

/// The path of the file that an address stands for, if it is the address of a file.
pub open spec fn file_path(url: Option<Seq<char>>) -> Option<Seq<char>> {
    match url {
        Some(u) => if "file://"@.is_prefix_of(u) {
            Some(u.skip("file://"@.len() as int))
        } else {
            None
        },
        None => None,
    }
}

/// A data URI of the content of a file, with the media type that is guessed from its path.
pub open spec fn is_art_of(path: Seq<char>, data: Seq<u8>, uri: Seq<char>) -> bool {
    exists|kind: Seq<char>| #[trigger]
        guessed(path, kind) && uri == data_uri(kind, data)
}

/// `art` answers a request for the art of a song: it is what the cache holds, or else a data URI of
/// the file that the player told of, of which `file` was read and which is then stored.
pub open spec fn answers_with_art(
    session: MprisView,
    id: Seq<char>,
    file: Option<Vec<u8>>,
    before: Map<Seq<char>, super::art::CachedArt>,
    stored_at: u64,
    art: Option<Seq<char>>,
    after: Map<Seq<char>, super::art::CachedArt>,
) -> bool {
    if before.contains_key(id) {
        art == Some(before[id].art) && after == before
    } else {
        match (file_path(session.last_art_url), file) {
            (Some(path), Some(data)) => {
                &&& art is Some
                &&& is_art_of(path, data@, art->0)
                &&& super::art::stores(before, id, art->0, stored_at, after)
            },
            _ => art is None && after == before,
        }
    }
}

fn rank_of(player: &PlayerEntry) -> (r: u8)
    ensures
        r == rank(*player),
{
    match player.status {
        Some(PlaybackStatus::Playing) => 0,
        Some(PlaybackStatus::Paused) => 1,
        _ => 2,
    }
}

fn whole_seconds_of(micros: Option<u128>) -> (secs: u64)
    ensures
        secs == whole_seconds(micros),
{
    match micros {
        Some(m) => {
            let low: u128 = m % 0x1_0000_0000_0000_0000;
            if low < 0x8000_0000_0000_0000 {
                (low / 1_000_000) as u64
            } else {
                0
            }
        },
        None => 0,
    }
}

fn take_or_empty(s: Option<String>) -> (t: String)
    ensures
        t@ == or_empty(s),
{
    match s {
        Some(t) => t,
        None => String::new(),
    }
}

impl MprisSession {
    /// A session that follows the players that the filter admits.
    pub fn new(process_filter: &str) -> (session: Result<Self, String>)
        ensures
            session matches Ok(s) && s@ == (MprisView {
                process_filter: process_filter@,
                last_art_url: None,
            }),
    {
        Ok(MprisSession { process_filter: process_filter.to_owned(), last_art_url: None })
    }

    /// The position of the player to follow among those on the bus.
    pub fn find_player(&self, players: &Vec<PlayerEntry>) -> (player: Result<usize, String>)
        ensures
            player matches Ok(k) ==> chosen(self@, players@, k as int),
            player is Ok <==> exists|j: int|
                0 <= j < players.len() && #[trigger] followed(self@, players@[j]),
            player matches Err(e) ==> e@ == if players.len() == 0 {
                "No players found"@
            } else {
                "No matching player found"@
            },
    {
        if players.is_empty() {
            return Err("No players found".to_owned());
        }
        let mut best: Option<usize> = None;
        let mut i: usize = 0;
        while i < players.len()
            invariant
                i <= players.len(),
                best matches Some(k) ==> k < i && followed(self@, players@[k as int]) && (forall|
                    j: int,
                |
                    0 <= j < i && #[trigger] followed(self@, players@[j]) ==> rank(
                        players@[k as int],
                    ) < rank(players@[j]) || (rank(players@[k as int]) == rank(players@[j]) && k
                        <= j)),
                best is None ==> forall|j: int|
                    0 <= j < i ==> !#[trigger] followed(self@, players@[j]),
            decreases players.len() - i,
        {
            let player = &players[i];
            if matches_process_filter(
                self.process_filter.as_str(),
                player.bus_name.as_str(),
                player.identity.as_str(),
            ) {
                match best {
                    Some(k) => {
                        if rank_of(player) < rank_of(&players[k]) {
                            best = Some(i);
                        }
                    },
                    None => {
                        best = Some(i);
                    },
                }
            }
            i += 1;
        }
        match best {
            Some(k) => Ok(k),
            None => Err("No matching player found".to_owned()),
        }
    }

    /// The artists of a track, separated by commas.
    pub fn format_artist_list(artists: &Vec<String>) -> (text: String)
        ensures
            text@ == joined(texts(artists@), ", "@),
    {
        join(artists, ", ")
    }

    /// The report on the followed player, whose status is asked for once more. The address of the
    /// track's art is remembered, if the player tells one.
    pub fn poll_current(
        &mut self,
        player: &PlayerEntry,
        status: Option<PlaybackStatus>,
        track: TrackMetadata,
        position_micros: Option<u128>,
    ) -> (info: SessionInfo)
        ensures
            info@ == report(*player, status, track, position_micros),
            info.app_id@ == player.bus_name@,
            info.app_name@ == player.identity@,
            info.is_playing <==> status == Some(PlaybackStatus::Playing),
            final(self)@ == after_poll(old(self)@, track),
            or_empty(track.art_url).len() > 0 ==> final(self)@.last_art_url == Some(
                or_empty(track.art_url),
            ),
            final(self)@.process_filter == old(self)@.process_filter,
    {
        let is_playing = match status {
            Some(PlaybackStatus::Playing) => true,
            _ => false,
        };
        let artist = match &track.artists {
            Some(list) => Self::format_artist_list(list),
            None => String::new(),
        };
        let art_url = take_or_empty(track.art_url);
        if !art_url.as_str().is_empty() {
            self.last_art_url = Some(art_url);
        }
        SessionInfo {
            title: take_or_empty(track.title),
            artist,
            album: take_or_empty(track.album),
            is_playing,
            position_secs: whole_seconds_of(position_micros),
            duration_secs: whole_seconds_of(track.length_micros),
            app_id: player.bus_name.clone(),
            app_name: player.identity.clone(),
        }
    }

    fn art_path(&self) -> (path: Option<String>)
        ensures
            opt_text(path) == file_path(self@.last_art_url),
    {
        match &self.last_art_url {
            Some(url) => {
                let chars = chars_of(url.as_str());
                let scheme = chars_of("file://");
                if !starts_with(&chars, &scheme) {
                    return None;
                }
                assert(url@.skip("file://"@.len() as int) =~= chars@.subrange(
                    scheme.len() as int,
                    chars.len() as int,
                ));
                Some(string_of(&chars, scheme.len(), chars.len()))
            },
            None => None,
        }
    }

    /// The file that has to be read for the art of a song: none if its art is in the cache, or if
    /// the player told no file.
    pub fn art_file(&self, artist: &str, title: &str, album: &str, cache: &AlbumArtCache) -> (path:
        Option<String>)
        ensures
            opt_text(path) == if cache@.contains_key(
                super::art::song_id(title@, artist@, album@),
            ) {
                None
            } else {
                file_path(self@.last_art_url)
            },
    {
        let id = generate_song_id(title, artist, album);
        match cache.get_cached_album_art(id.as_str()) {
            Some(_) => None,
            None => self.art_path(),
        }
    }

    /// The art of a song as a data URI. It comes from the cache, or from the file that
    /// [`MprisSession::art_file`] names, of which `file` is what was read. Art from a file is
    /// stored in the cache, at the second `stored_at`.
    pub fn get_album_art_base64(
        &self,
        artist: &str,
        title: &str,
        album: &str,
        cache: &mut AlbumArtCache,
        file: Option<Vec<u8>>,
        stored_at: u64,
    ) -> (art: Option<String>)
        ensures
            answers_with_art(
                self@,
                super::art::song_id(title@, artist@, album@),
                file,
                old(cache)@,
                stored_at,
                opt_text(art),
                final(cache)@,
            ),
            old(cache)@.contains_key(super::art::song_id(title@, artist@, album@)) ==> {
                &&& opt_text(art) == Some(
                    old(cache)@[super::art::song_id(title@, artist@, album@)].art,
                )
                &&& final(cache)@ == old(cache)@
            },
            !old(cache)@.contains_key(super::art::song_id(title@, artist@, album@)) ==> {
                match (file_path(self@.last_art_url), file) {
                    (Some(path), Some(data)) => {
                        &&& art matches Some(uri) && is_art_of(path, data@, uri@)
                        &&& super::art::stores(
                            old(cache)@,
                            super::art::song_id(title@, artist@, album@),
                            art->0@,
                            stored_at,
                            final(cache)@,
                        )
                    },
                    _ => art is None && final(cache)@ == old(cache)@,
                }
            },
    {
        let id = generate_song_id(title, artist, album);
        let kept = cache.get_cached_album_art(id.as_str());
        if kept.is_some() {
            return kept;
        }
        match (self.art_path(), file) {
            (Some(path), Some(data)) => {
                let kind = guess_media_type(path.as_str());
                let uri = data_uri_of(kind.as_str(), &data);
                assert(guessed(path@, kind@));
                assert(is_art_of(path@, data@, uri@));
                cache.set_cached_album_art(id.as_str(), uri.clone(), stored_at);
                Some(uri)
            },
            _ => None,
        }
    }
}

/// A player that plays is never passed over for one that does not, and a paused one never for a
/// stopped one.
pub proof fn playing_players_come_first(
    session: MprisView,
    players: Seq<PlayerEntry>,
    k: int,
    j: int,
)
    requires
        chosen(session, players, k),
        0 <= j < players.len(),
        followed(session, players[j]),
    ensures
        players[j].status == Some(PlaybackStatus::Playing) ==> players[k].status == Some(
            PlaybackStatus::Playing,
        ),
        players[j].status == Some(PlaybackStatus::Paused) ==> players[k].status == Some(
            PlaybackStatus::Playing,
        ) || players[k].status == Some(PlaybackStatus::Paused),
{
}

/// A session follows the players that its filter admits, from the beginning.
pub proof fn sessions_take_their_filter(
    process_filter: &str,
    session: Result<MprisSession, String>,
)
    requires
        call_ensures(MprisSession::new, (process_filter,), session),
    ensures
        session is Ok,
        session->Ok_0@.process_filter == process_filter@,
        session->Ok_0@.last_art_url is None,
{
}

/// Some player is followed if a line of the filter, without the white space around it and in
/// lowercase, stands in the lowercase bus name of a player on the bus, or in its lowercase identity.
pub proof fn players_are_found_by_bus_name_or_identity(
    session: &MprisSession,
    players: &Vec<PlayerEntry>,
    found: Result<usize, String>,
    player: int,
    i: int,
    j: int,
    at: int,
)
    requires
        call_ensures(MprisSession::find_player, (session, players), found),
        0 <= player < players@.len(),
        is_rule(session@.process_filter, i, j),
        lowercase(trim(session@.process_filter.subrange(i, j))).len() > 0,
        0 <= at,
        ({
            let pattern = lowercase(trim(session@.process_filter.subrange(i, j)));
            let end = at + pattern.len();
            let bus_name = lowercase(players@[player].bus_name@);
            let identity = lowercase(players@[player].identity@);
            ||| end <= bus_name.len() && bus_name.subrange(at, end) == pattern
            ||| end <= identity.len() && identity.subrange(at, end) == pattern
        }),
    ensures
        found is Ok,
{
    rule_admits(
        session@.process_filter,
        players@[player].bus_name@,
        players@[player].identity@,
        i,
        j,
        at,
    );
    assert(followed(session@, players@[player]));
}

/// With a filter that admits all, any player on the bus is enough; with none on the bus, none is
/// found.
pub proof fn a_star_follows_any_player(
    session: &MprisSession,
    players: &Vec<PlayerEntry>,
    found: Result<usize, String>,
)
    requires
        call_ensures(MprisSession::find_player, (session, players), found),
        trim(session@.process_filter).len() == 0 || trim(session@.process_filter) == "*"@,
    ensures
        players@.len() > 0 <==> found is Ok,
        players@.len() == 0 ==> (found matches Err(e) && e@ == "No players found"@),
{
    if players@.len() > 0 {
        assert(followed(session@, players@[0]));
    }
}

/// The player that is found is one that the filter admits by its bus name and identity. None that
/// the filter admits is passed over if it plays and the found one does not, if it is paused and the
/// found one neither plays nor is paused, or if it comes before one that does the same.
pub proof fn found_player_is_the_first_of_the_best(
    session: &MprisSession,
    players: &Vec<PlayerEntry>,
    found: Result<usize, String>,
    other: int,
)
    requires
        call_ensures(MprisSession::find_player, (session, players), found),
    ensures
        found matches Ok(k) ==> k < players@.len() && super::filter::admits(
            session@.process_filter,
            players@[k as int].bus_name@,
            players@[k as int].identity@,
        ),
        found is Ok && 0 <= other < players@.len() && super::filter::admits(
            session@.process_filter,
            players@[other].bus_name@,
            players@[other].identity@,
        ) ==> {
            let k = found->Ok_0 as int;
            let chosen = players@[k].status;
            let rival = players@[other].status;
            &&& rival == Some(PlaybackStatus::Playing) ==> chosen == Some(PlaybackStatus::Playing)
            &&& rival == Some(PlaybackStatus::Paused) ==> chosen == Some(PlaybackStatus::Playing)
                || chosen == Some(PlaybackStatus::Paused)
            &&& chosen == rival ==> k <= other
        },
        found is Err ==> forall|p: int|
            0 <= p < players@.len() ==> !super::filter::admits(
                session@.process_filter,
                #[trigger] players@[p].bus_name@,
                players@[p].identity@,
            ),
{
    if 0 <= other < players@.len() {
        assert(followed(session@, players@[other]) == super::filter::admits(
            session@.process_filter,
            players@[other].bus_name@,
            players@[other].identity@,
        ));
    }
    if found is Err {
        assert forall|p: int| 0 <= p < players@.len() implies !super::filter::admits(
            session@.process_filter,
            #[trigger] players@[p].bus_name@,
            players@[p].identity@,
        ) by {
            assert(!followed(session@, players@[p]));
        }
    }
}

/// A report holds what the player tells of its track, and nothing where it tells nothing; the
/// player's bus name and identity; and whether it plays.
pub proof fn reports_tell_what_the_player_tells(
    player: PlayerEntry,
    status: Option<PlaybackStatus>,
    track: TrackMetadata,
    position_micros: Option<u128>,
)
    ensures
        ({
            let info = report(player, status, track, position_micros);
            &&& track.title matches Some(t) ==> info.title == t@
            &&& track.title is None ==> info.title.len() == 0
            &&& track.album matches Some(a) ==> info.album == a@
            &&& track.album is None ==> info.album.len() == 0
            &&& track.artists is None ==> info.artist.len() == 0
            &&& info.is_playing <==> status == Some(PlaybackStatus::Playing)
            &&& info.app_id == player.bus_name@
            &&& info.app_name == player.identity@
        }),
        ({
            let info = report(player, status, track, position_micros);
            &&& track.artists is Some && track.artists->0@.len() == 0 ==> info.artist.len() == 0
            &&& track.artists is Some && track.artists->0@.len() == 1 ==> info.artist
                == track.artists->0@[0]@
            &&& track.artists is Some && track.artists->0@.len() == 2 ==> info.artist
                == track.artists->0@[0]@ + ", "@ + track.artists->0@[1]@
        }),
        ({
            let info = report(player, status, track, position_micros);
            &&& position_micros is Some && position_micros->0 < 0x8000_0000_0000_0000 ==> {
                &&& info.position_secs * 1_000_000 <= position_micros->0
                &&& position_micros->0 < (info.position_secs + 1) * 1_000_000
            }
            &&& track.length_micros is Some && track.length_micros->0 < 0x8000_0000_0000_0000 ==> {
                &&& info.duration_secs * 1_000_000 <= track.length_micros->0
                &&& track.length_micros->0 < (info.duration_secs + 1) * 1_000_000
            }
            &&& position_micros is None ==> info.position_secs == 0
            &&& track.length_micros is None ==> info.duration_secs == 0
        }),
{
    if let Some(list) = track.artists {
        let names = texts(list@);
        if list@.len() == 2 {
            assert(names.drop_last() =~= seq![list@[0]@]);
            assert(joined(names.drop_last(), ", "@) == list@[0]@);
        }
    }
}

/// The names of artists are joined as a list of two parts is: one part, a comma and a space, and
/// the other.
pub proof fn artists_are_separated_by_commas(
    first: &Vec<String>,
    second: &Vec<String>,
    both: &Vec<String>,
    first_text: String,
    second_text: String,
    text: String,
)
    requires
        call_ensures(MprisSession::format_artist_list, (first,), first_text),
        call_ensures(MprisSession::format_artist_list, (second,), second_text),
        call_ensures(MprisSession::format_artist_list, (both,), text),
        both@ == first@ + second@,
        first@.len() > 0,
        second@.len() > 0,
    ensures
        text@ == first_text@ + ", "@ + second_text@,
        first@.len() == 1 ==> first_text@ == first@[0]@,
{
    assert(texts(both@) =~= texts(first@) + texts(second@));
    crate::text::joining_is_by_parts(texts(first@), texts(second@), seq![], ", "@);
}

/// The art of a song is read from the file whose address the player told last: what stands behind
/// `file://`. No file is read if the art is kept, or if the address is that of anything else.
pub proof fn art_is_read_from_the_told_file(
    session: &MprisSession,
    artist: &str,
    title: &str,
    album: &str,
    cache: &AlbumArtCache,
    path: Option<String>,
    file: Seq<char>,
)
    requires
        call_ensures(MprisSession::art_file, (session, artist, title, album, cache), path),
    ensures
        cache@.contains_key(title@ + seq!['|'] + artist@ + seq!['|'] + album@) ==> path is None,
        !cache@.contains_key(title@ + seq!['|'] + artist@ + seq!['|'] + album@)
            && session@.last_art_url == Some("file://"@ + file) ==> (path matches Some(p) && p@
            == file),
        session@.last_art_url is None ==> path is None,
        session@.last_art_url matches Some(url) && (url.len() < 7 || url.take(7) != "file://"@)
            ==> path is None,
{
    assert(title@ + seq!['|'] + artist@ + seq!['|'] + album@ =~= super::art::song_id(
        title@,
        artist@,
        album@,
    ));
    reveal_strlit("file://");
    let url = "file://"@ + file;
    assert(url.skip(7) =~= file);
    assert("file://"@.is_prefix_of(url)) by {
        assert(url.subrange(0, 7) =~= "file://"@);
    }
    if let Some(told) = session@.last_art_url {
        if "file://"@.is_prefix_of(told) {
            assert(told.take(7) =~= "file://"@);
        }
    }
}

/// Art from a file is a data URI of its content. Its media type is that of the file's extension,
/// where all platforms agree on it.
pub proof fn art_is_a_data_uri(path: Seq<char>, data: Seq<u8>, uri: Seq<char>)
    requires
        is_art_of(path, data, uri),
    ensures
        exists|kind: Seq<char>| #[trigger]
            crate::encode::guessed(path, kind) && uri == "data:"@ + kind + ";base64,"@
                + base64_text(data),
        crate::encode::is_settled(path) && crate::encode::extension_of(path) is Some ==> uri
            == "data:"@ + extension_type(crate::encode::extension_of(path)->0) + ";base64,"@
            + base64_text(data),
{
}

/// The address of art that a player told last is the one that is remembered, whatever was remembered
/// before; a track without art, or with an empty address, leaves it. The filter stays.
pub proof fn the_last_art_address_is_remembered(session: MprisView, track: TrackMetadata)
    ensures
        track.art_url matches Some(url) && url@.len() > 0 ==> after_poll(
            session,
            track,
        ).last_art_url == Some(track.art_url->0@),
        track.art_url is None || track.art_url->0@.len() == 0 ==> after_poll(
            session,
            track,
        ).last_art_url == session.last_art_url,
        after_poll(session, track).process_filter == session.process_filter,
{
}

/// Times count in whole seconds as far as a signed number of 64 bits holds their microseconds; one
/// that such a number takes for negative counts as none, and what goes beyond 64 bits is lost.
pub proof fn times_are_signed_numbers(micros: u128)
    ensures
        whole_seconds(Some(micros)) == whole_seconds(
            Some((micros % 0x1_0000_0000_0000_0000) as u128),
        ),
        micros < 0x8000_0000_0000_0000 ==> whole_seconds(Some(micros)) == micros / 1_000_000,
        0x8000_0000_0000_0000 <= micros < 0x1_0000_0000_0000_0000 ==> whole_seconds(Some(micros))
            == 0,
        whole_seconds(None) == 0,
{
}

/// Art that is kept for a song is the answer, whatever file the player tells of. Otherwise the
/// content of the file, as a data URI, is the answer, and is kept for the song from then on. Without
/// a file, or if it cannot be read, there is no art, and nothing is kept.
pub proof fn art_is_kept_or_read(
    session: MprisView,
    id: Seq<char>,
    file: Option<Vec<u8>>,
    before: Map<Seq<char>, super::art::CachedArt>,
    stored_at: u64,
    art: Option<Seq<char>>,
    after: Map<Seq<char>, super::art::CachedArt>,
    path: Seq<char>,
)
    requires
        answers_with_art(session, id, file, before, stored_at, art, after),
        before.dom().finite(),
        before.len() < 30,
    ensures
        before.contains_key(id) ==> art == Some(before[id].art) && after == before,
        !before.contains_key(id) && session.last_art_url == Some("file://"@ + path) && file is Some
            ==> {
            &&& art is Some
            &&& is_art_of(path, file->0@, art->0)
            &&& after.contains_key(id)
            &&& after[id].art == art->0
            &&& after[id].stored_at == stored_at
        },
        !before.contains_key(id) && (file is None || session.last_art_url is None) ==> art is None
            && after == before,
{
    reveal_strlit("file://");
    let url = "file://"@ + path;
    assert(url.skip(7) =~= path);
    assert("file://"@.is_prefix_of(url)) by {
        assert(url.subrange(0, 7) =~= "file://"@);
    }
    if !before.contains_key(id) && file_path(session.last_art_url) is Some && file is Some {
        super::art::little_art_is_all_kept(before, id, art->0, stored_at, after);
    }
}

} // verus!
