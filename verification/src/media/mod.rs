//! Media sessions: what a player reports, which player is followed, and the record of the song
//! that is kept from one report to the next.
pub mod appname;
pub mod art;
pub mod filter;
pub mod mpris;
pub mod poll;
pub mod smtc;
pub mod switch;

use vstd::prelude::*;

verus! {

/// What a media session reports of the song that is being played.
#[derive(Debug, PartialEq)]
pub struct SessionInfo {
    pub title: String,
    pub artist: String,
    pub album: String,
    pub is_playing: bool,
    pub position_secs: u64,
    pub duration_secs: u64,
    pub app_id: String,
    pub app_name: String,
}

/// The values that a [`SessionInfo`] holds.
#[verifier::ext_equal]
pub struct SessionView {
    pub title: Seq<char>,
    pub artist: Seq<char>,
    pub album: Seq<char>,
    pub is_playing: bool,
    pub position_secs: u64,
    pub duration_secs: u64,
    pub app_id: Seq<char>,
    pub app_name: Seq<char>,
}

impl View for SessionInfo {
    type V = SessionView;

    open spec fn view(&self) -> SessionView {
        SessionView {
            title: self.title@,
            artist: self.artist@,
            album: self.album@,
            is_playing: self.is_playing,
            position_secs: self.position_secs,
            duration_secs: self.duration_secs,
            app_id: self.app_id@,
            app_name: self.app_name@,
        }
    }
}

impl Clone for SessionInfo {
    fn clone(&self) -> (copy: Self)
        ensures
            copy == *self,
    {
        SessionInfo {
            title: self.title.clone(),
            artist: self.artist.clone(),
            album: self.album.clone(),
            is_playing: self.is_playing,
            position_secs: self.position_secs,
            duration_secs: self.duration_secs,
            app_id: self.app_id.clone(),
            app_name: self.app_name.clone(),
        }
    }
}

impl Default for SessionInfo {
    fn default() -> (info: Self)
        ensures
            info@ == (SessionView {
                title: seq![],
                artist: seq![],
                album: seq![],
                is_playing: false,
                position_secs: 0,
                duration_secs: 0,
                app_id: seq![],
                app_name: seq![],
            }),
    {
        SessionInfo {
            title: String::new(),
            artist: String::new(),
            album: String::new(),
            is_playing: false,
            position_secs: 0,
            duration_secs: 0,
            app_id: String::new(),
            app_name: String::new(),
        }
    }
}

/// A source of reports on what is being played.
pub trait MediaSession: Send + 'static {
    /// Opens a session that follows the players that the filter admits.
    fn new(process_filter: &str) -> Result<Self, String> where Self: Sized;

    /// What the followed player plays now, or nothing if there is no such player.
    fn poll_current(&self) -> Option<SessionInfo>;

    /// The album art of a song as a data URI.
    fn get_album_art_base64(&self, artist: &str, title: &str, album: &str) -> Option<String>;
}

} // verus!
