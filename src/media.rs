use vstd::prelude::*;

use crate::error::BridgeError;
use crate::sessions::text_view;
use crate::text::{after_last, after_last_of, strip_exe, strip_exe_of};

verus! {

/// Playback status of a media transport session.
#[derive(Debug, Clone, Copy, PartialEq, Eq)]
pub enum PlaybackStatus {
    Closed,
    Opened,
    Changing,
    Stopped,
    Playing,
    Paused,
}

/// What is playing now, as shown to the user.
#[derive(Debug, Clone, PartialEq, Eq)]
pub struct MediaInfo {
    pub title: String,
    pub artist: String,
    pub album: Option<String>,
    pub is_playing: bool,
    pub app_name: Option<String>,
}

pub struct MediaView {
    pub title: Seq<char>,
    pub artist: Seq<char>,
    pub album: Option<Seq<char>>,
    pub is_playing: bool,
    pub app_name: Option<Seq<char>>,
}

impl View for MediaInfo {
    type V = MediaView;

    open spec fn view(&self) -> MediaView {
        MediaView {
            title: self.title@,
            artist: self.artist@,
            album: text_view(self.album),
            is_playing: self.is_playing,
            app_name: text_view(self.app_name),
        }
    }
}

/// What the platform reported about the current transport session. `None`
/// marks a value that could not be read.
#[derive(Debug, Clone, PartialEq, Eq)]
pub struct MediaRecord {
    pub title: Option<String>,
    pub artist: Option<String>,
    pub album: Option<String>,
    pub status: PlaybackStatus,
    pub source_app_id: Option<String>,
}

/// Application name of a source identifier: its last path segment, without a
/// trailing ".exe".
pub open spec fn app_name_of(id: Seq<char>) -> Seq<char> {
    strip_exe(after_last(id, '\\'))
}

pub open spec fn text_or_empty(o: Option<Seq<char>>) -> Seq<char> {
    match o {
        Some(s) => s,
        None => Seq::empty(),
    }
}

/// The now-playing record for a transport session.
pub open spec fn media_of(r: MediaRecord) -> MediaView {
    MediaView {
        title: text_or_empty(text_view(r.title)),
        artist: text_or_empty(text_view(r.artist)),
        album: match text_view(r.album) {
            Some(a) => if a.len() > 0 {
                Some(a)
            } else {
                None
            },
            None => None,
        },
        is_playing: r.status == PlaybackStatus::Playing,
        app_name: match text_view(r.source_app_id) {
            Some(id) => Some(app_name_of(id)),
            None => None,
        },
    }
}

/// Application name of a source identifier.
pub fn app_name_from_id(id: &str) -> (r: String)
    ensures
        r@ == app_name_of(id@),
{
    let segment = after_last_of(id, '\\');
    strip_exe_of(segment.as_str())
}

fn text_or_new(o: Option<String>) -> (r: String)
    ensures
        r@ == text_or_empty(text_view(o)),
{
    match o {
        Some(s) => s,
        None => String::new(),
    }
}

/// The now-playing record, or `None` when no transport session is active.
pub fn get_media_session(session: Option<MediaRecord>) -> (r: Option<MediaInfo>)
    ensures
        session is None ==> r is None,
        session is Some ==> r is Some && r->0@ == media_of(session->0),
{
    let rec = match session {
        Some(rec) => rec,
        None => {
            return None;
        },
    };
    let album = match rec.album {
        Some(a) => if a.unicode_len() > 0 {
            Some(a)
        } else {
            None
        },
        None => None,
    };
    let app_name = match &rec.source_app_id {
        Some(id) => Some(app_name_from_id(id.as_str())),
        None => None,
    };
    let is_playing = match rec.status {
        PlaybackStatus::Playing => true,
        _ => false,
    };
    Some(
        MediaInfo {
            title: text_or_new(rec.title),
            artist: text_or_new(rec.artist),
            album,
            is_playing,
            app_name,
        },
    )
}

/// The session a transport command goes to; commands need an active one.
pub fn command_session<T>(session: Option<T>) -> (r: Result<T, BridgeError>)
    ensures
        session is None ==> r == Err::<T, BridgeError>(BridgeError::NoActiveSession),
        session is Some ==> r == Ok::<T, BridgeError>(session->0),
{
    match session {
        Some(s) => Ok(s),
        None => Err(BridgeError::NoActiveSession),
    }
}

} // verus!
