//! The player as the plugins' effects see it.

use crate::plugin_api::{playback_of, text_of, texts_of, PlaybackState, PlaybackView};
use vstd::prelude::*;

verus! {

/// A request that the app hands to the network side.
#[derive(Debug)]
pub enum IoEvent {
    PausePlayback,
    /// Context, tracks and offset to start with; without any, playback is resumed.
    StartPlayback(Option<String>, Option<Vec<String>>, Option<usize>),
    NextTrack,
    PreviousTrack,
    Seek(u32),
    Shuffle(bool),
    /// Query and country.
    GetSearchResults(String, Option<String>),
}

/// What an [`IoEvent`] holds.
pub enum IoEventView {
    PausePlayback,
    StartPlayback(Option<Seq<char>>, Option<Seq<Seq<char>>>, Option<usize>),
    NextTrack,
    PreviousTrack,
    Seek(u32),
    Shuffle(bool),
    GetSearchResults(Seq<char>, Option<Seq<char>>),
}

impl View for IoEvent {
    type V = IoEventView;

    open spec fn view(&self) -> IoEventView {
        match *self {
            IoEvent::PausePlayback => IoEventView::PausePlayback,
            IoEvent::StartPlayback(context, uris, offset) => IoEventView::StartPlayback(
                text_of(context),
                match uris {
                    Some(list) => Some(texts_of(list@)),
                    None => None,
                },
                offset,
            ),
            IoEvent::NextTrack => IoEventView::NextTrack,
            IoEvent::PreviousTrack => IoEventView::PreviousTrack,
            IoEvent::Seek(ms) => IoEventView::Seek(ms),
            IoEvent::Shuffle(on) => IoEventView::Shuffle(on),
            IoEvent::GetSearchResults(query, country) => IoEventView::GetSearchResults(
                query@,
                text_of(country),
            ),
        }
    }
}

/// The part of the player that effects read and change.
pub struct App {
    pub current_playback_context: Option<PlaybackState>,
    /// Country of the signed-in user.
    pub user_country: Option<String>,
    /// Volume that was asked for and not sent yet.
    pub pending_volume: Option<u8>,
    pub status_message: Option<String>,
    pub status_message_is_error: bool,
    /// Second at which the status message expires.
    pub status_message_expires_at: u64,
    /// The current second.
    pub now: u64,
    /// Requests for the network side, in the order in which they were dispatched.
    pub io_events: Vec<IoEvent>,
}

/// What an [`App`] holds.
#[verifier::ext_equal]
pub struct AppView {
    pub current_playback_context: Option<PlaybackView>,
    pub user_country: Option<Seq<char>>,
    pub pending_volume: Option<u8>,
    pub status_message: Option<Seq<char>>,
    pub status_message_is_error: bool,
    pub status_message_expires_at: u64,
    pub now: u64,
    pub io_events: Seq<IoEventView>,
}

impl View for App {
    type V = AppView;

    open spec fn view(&self) -> AppView {
        AppView {
            current_playback_context: playback_of(self.current_playback_context),
            user_country: text_of(self.user_country),
            pending_volume: self.pending_volume,
            status_message: text_of(self.status_message),
            status_message_is_error: self.status_message_is_error,
            status_message_expires_at: self.status_message_expires_at,
            now: self.now,
            io_events: self.io_events@.map_values(|event: IoEvent| event@),
        }
    }
}

/// The second `ttl` seconds after `now`, or the last one that can be told.
pub open spec fn expiry(now: u64, ttl: u64) -> u64 {
    if now + ttl > u64::MAX {
        u64::MAX
    } else {
        (now + ttl) as u64
    }
}

impl AppView {
    /// Whether the player is known to be playing.
    pub open spec fn is_playing(self) -> bool {
        self.current_playback_context matches Some(playback) && playback.is_playing
    }

    /// Whether the player is known to shuffle.
    pub open spec fn is_shuffling(self) -> bool {
        self.current_playback_context matches Some(playback) && playback.shuffle
    }

    /// Whether an error message is shown that has not expired.
    pub open spec fn shows_error(self) -> bool {
        self.status_message is Some && self.status_message_is_error && self.now
            < self.status_message_expires_at
    }

    /// The app after it dispatched a request.
    pub open spec fn dispatched(self, event: IoEventView) -> AppView {
        AppView { io_events: self.io_events.push(event), ..self }
    }

    /// The app with another status message.
    pub open spec fn with_status(self, message: Seq<char>, is_error: bool, ttl: u64) -> AppView {
        AppView {
            status_message: Some(message),
            status_message_is_error: is_error,
            status_message_expires_at: expiry(self.now, ttl),
            ..self
        }
    }

    /// The app after playback was toggled.
    pub open spec fn playback_toggled(self) -> AppView {
        if self.is_playing() {
            self.dispatched(IoEventView::PausePlayback)
        } else {
            self.dispatched(IoEventView::StartPlayback(None, None, None))
        }
    }

    /// The app after shuffling was toggled. Without playback there is nothing to toggle.
    pub open spec fn shuffle_toggled(self) -> AppView {
        match self.current_playback_context {
            Some(playback) => self.dispatched(IoEventView::Shuffle(!playback.shuffle)),
            None => self,
        }
    }

    /// The app after a seek. Without a track there is nothing to seek in.
    pub open spec fn sought(self, ms: u32) -> AppView {
        match self.current_playback_context {
            Some(playback) if playback.track is Some => self.dispatched(IoEventView::Seek(ms)),
            _ => self,
        }
    }

    /// The app after a normal status message, which does not replace an error message that has
    /// not expired.
    pub open spec fn notified(self, message: Seq<char>, ttl: u64) -> AppView {
        if self.shows_error() {
            self
        } else {
            self.with_status(message, false, ttl)
        }
    }
}

impl App {
    /// An app that plays nothing.
    pub fn new(now: u64) -> (app: App)
        ensures
            app@ == (AppView {
                current_playback_context: None,
                user_country: None,
                pending_volume: None,
                status_message: None,
                status_message_is_error: false,
                status_message_expires_at: 0,
                now,
                io_events: Seq::empty(),
            }),
    {
        let app = App {
            current_playback_context: None,
            user_country: None,
            pending_volume: None,
            status_message: None,
            status_message_is_error: false,
            status_message_expires_at: 0,
            now,
            io_events: Vec::new(),
        };
        assert(app@.io_events =~= Seq::empty());
        app
    }

    /// Hands a request to the network side.
    pub fn dispatch(&mut self, event: IoEvent)
        ensures
            final(self)@ == old(self)@.dispatched(event@),
    {
        self.io_events.push(event);
        assert(self@.io_events =~= old(self)@.io_events.push(event@));
    }

    /// Takes the oldest request that was not taken yet.
    pub fn take_event(&mut self) -> (event: Option<IoEvent>)
        ensures
            match event {
                Some(e) => {
                    &&& old(self)@.io_events.len() > 0
                    &&& e@ == old(self)@.io_events[0]
                    &&& final(self)@ == (AppView {
                        io_events: old(self)@.io_events.remove(0),
                        ..old(self)@
                    })
                },
                None => old(self)@.io_events.len() == 0 && final(self)@ == old(self)@,
            },
    {
        if self.io_events.len() == 0 {
            None
        } else {
            let event = self.io_events.remove(0);
            assert(self@.io_events =~= old(self)@.io_events.remove(0));
            Some(event)
        }
    }

    /// Country of the signed-in user.
    pub fn get_user_country(&self) -> (country: Option<String>)
        ensures
            text_of(country) == self@.user_country,
    {
        match &self.user_country {
            Some(country) => Some(country.clone()),
            None => None,
        }
    }

    /// Pauses a player that plays, and resumes one that does not.
    pub fn toggle_playback(&mut self)
        ensures
            final(self)@ == old(self)@.playback_toggled(),
    {
        let playing = match &self.current_playback_context {
            Some(playback) => playback.is_playing,
            None => false,
        };
        if playing {
            self.dispatch(IoEvent::PausePlayback);
        } else {
            self.dispatch(IoEvent::StartPlayback(None, None, None));
        }
    }

    /// Asks for the next track.
    pub fn next_track(&mut self)
        ensures
            final(self)@ == old(self)@.dispatched(IoEventView::NextTrack),
    {
        self.dispatch(IoEvent::NextTrack);
    }

    /// Asks for the previous track.
    pub fn previous_track(&mut self)
        ensures
            final(self)@ == old(self)@.dispatched(IoEventView::PreviousTrack),
    {
        self.dispatch(IoEvent::PreviousTrack);
    }

    /// Seeks in the current track, if there is one.
    pub fn seek_to(&mut self, ms: u32)
        ensures
            final(self)@ == old(self)@.sought(ms),
    {
        let has_track = match &self.current_playback_context {
            Some(playback) => playback.track.is_some(),
            None => false,
        };
        if has_track {
            self.dispatch(IoEvent::Seek(ms));
        }
    }

    /// Notes the volume to be sent.
    pub fn set_volume_percent(&mut self, percent: u8)
        ensures
            final(self)@ == (AppView { pending_volume: Some(percent), ..old(self)@ }),
    {
        self.pending_volume = Some(percent);
    }

    /// Turns shuffling on where it is off, and off where it is on.
    pub fn shuffle(&mut self)
        ensures
            final(self)@ == old(self)@.shuffle_toggled(),
    {
        let wanted = match &self.current_playback_context {
            Some(playback) => Some(!playback.shuffle),
            None => None,
        };
        if let Some(on) = wanted {
            self.dispatch(IoEvent::Shuffle(on));
        }
    }

    /// Shows a message for `ttl` seconds, unless an error message is shown that has not expired.
    pub fn set_status_message(&mut self, message: String, ttl: u64)
        ensures
            final(self)@ == old(self)@.notified(message@, ttl),
    {
        if self.status_message.is_some() && self.status_message_is_error && self.now
            < self.status_message_expires_at {
            return;
        }
        self.status_message = Some(message);
        self.status_message_is_error = false;
        self.status_message_expires_at = self.now.saturating_add(ttl);
    }

    /// Shows an error message for `ttl` seconds, whatever is shown.
    pub fn set_error_status_message(&mut self, message: String, ttl: u64)
        ensures
            final(self)@ == old(self)@.with_status(message@, true, ttl),
    {
        self.status_message = Some(message);
        self.status_message_is_error = true;
        self.status_message_expires_at = self.now.saturating_add(ttl);
    }
}

/// All of an app is seen: its view holds each of its fields, and its requests in order.
pub proof fn apps_are_seen_whole(app: App)
    ensures
        match app.current_playback_context {
            Some(playback) => app@.current_playback_context == Some(playback@),
            None => app@.current_playback_context is None,
        },
        match app.user_country {
            Some(country) => app@.user_country == Some(country@),
            None => app@.user_country is None,
        },
        app@.pending_volume == app.pending_volume,
        match app.status_message {
            Some(message) => app@.status_message == Some(message@),
            None => app@.status_message is None,
        },
        app@.status_message_is_error == app.status_message_is_error,
        app@.status_message_expires_at == app.status_message_expires_at,
        app@.now == app.now,
        app@.io_events.len() == app.io_events@.len(),
        forall|i: int|
            0 <= i < app.io_events@.len() ==> #[trigger] app@.io_events[i] == app.io_events@[i]@,
{
}

/// All of a request is seen: which one it is, and what it carries.
pub proof fn requests_are_seen_whole(event: IoEvent)
    ensures
        match event {
            IoEvent::PausePlayback => event@ == IoEventView::PausePlayback,
            IoEvent::StartPlayback(context, uris, offset) => {
                &&& event@ matches IoEventView::StartPlayback(seen_context, seen_uris, seen_offset)
                &&& seen_context is Some == context is Some
                &&& context matches Some(text) ==> seen_context == Some(text@)
                &&& seen_uris is Some == uris is Some
                &&& uris matches Some(list) ==> {
                    &&& seen_uris->0.len() == list@.len()
                    &&& forall|i: int|
                        0 <= i < list@.len() ==> #[trigger] seen_uris->0[i] == list@[i]@
                }
                &&& seen_offset == offset
            },
            IoEvent::NextTrack => event@ == IoEventView::NextTrack,
            IoEvent::PreviousTrack => event@ == IoEventView::PreviousTrack,
            IoEvent::Seek(ms) => event@ == IoEventView::Seek(ms),
            IoEvent::Shuffle(on) => event@ == IoEventView::Shuffle(on),
            IoEvent::GetSearchResults(query, Some(country)) => event@
                == IoEventView::GetSearchResults(query@, Some(country@)),
            IoEvent::GetSearchResults(query, None) => event@ == IoEventView::GetSearchResults(
                query@,
                None,
            ),
        },
{
}

} // verus!
