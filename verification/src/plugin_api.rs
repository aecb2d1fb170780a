//! The data that plugins read: the current playback, its track and the devices.

use vstd::prelude::*;

verus! {

/// Version of the plugin interface, which scripts read as `spotatui.api_version`.
pub const API_VERSION: u64 = 1;

/// A track as plugins see it.
#[derive(Debug)]
pub struct TrackInfo {
    pub uri: Option<String>,
    pub name: String,
    pub artists: Vec<String>,
    pub album: String,
    pub duration_ms: u64,
}

/// A playback device as plugins see it.
#[derive(Debug)]
pub struct DeviceInfo {
    pub id: Option<String>,
    pub name: String,
    pub is_active: bool,
    pub volume_percent: Option<u8>,
}

/// A snapshot of the player.
#[derive(Debug)]
pub struct PlaybackState {
    pub track: Option<TrackInfo>,
    pub is_playing: bool,
    pub progress_ms: u64,
    pub shuffle: bool,
    pub repeat: String,
    pub volume_percent: Option<u8>,
    pub device: Option<DeviceInfo>,
}

/// What a [`TrackInfo`] holds.
#[verifier::ext_equal]
pub struct TrackView {
    pub uri: Option<Seq<char>>,
    pub name: Seq<char>,
    pub artists: Seq<Seq<char>>,
    pub album: Seq<char>,
    pub duration_ms: u64,
}

/// What a [`DeviceInfo`] holds.
#[verifier::ext_equal]
pub struct DeviceView {
    pub id: Option<Seq<char>>,
    pub name: Seq<char>,
    pub is_active: bool,
    pub volume_percent: Option<u8>,
}

/// What a [`PlaybackState`] holds.
#[verifier::ext_equal]
pub struct PlaybackView {
    pub track: Option<TrackView>,
    pub is_playing: bool,
    pub progress_ms: u64,
    pub shuffle: bool,
    pub repeat: Seq<char>,
    pub volume_percent: Option<u8>,
    pub device: Option<DeviceView>,
}

/// The characters of an optional text.
pub open spec fn text_of(text: Option<String>) -> Option<Seq<char>> {
    match text {
        Some(s) => Some(s@),
        None => None,
    }
}

/// The characters of each text in a list.
pub open spec fn texts_of(texts: Seq<String>) -> Seq<Seq<char>> {
    texts.map_values(|s: String| s@)
}

/// What an optional track holds.
pub open spec fn track_of(track: Option<TrackInfo>) -> Option<TrackView> {
    match track {
        Some(t) => Some(t@),
        None => None,
    }
}

/// What an optional device holds.
pub open spec fn device_of(device: Option<DeviceInfo>) -> Option<DeviceView> {
    match device {
        Some(d) => Some(d@),
        None => None,
    }
}

/// What an optional playback snapshot holds.
pub open spec fn playback_of(playback: Option<PlaybackState>) -> Option<PlaybackView> {
    match playback {
        Some(p) => Some(p@),
        None => None,
    }
}

/// What each device in a list holds.
pub open spec fn devices_of(devices: Seq<DeviceInfo>) -> Seq<DeviceView> {
    devices.map_values(|d: DeviceInfo| d@)
}

impl View for TrackInfo {
    type V = TrackView;

    open spec fn view(&self) -> TrackView {
        TrackView {
            uri: text_of(self.uri),
            name: self.name@,
            artists: texts_of(self.artists@),
            album: self.album@,
            duration_ms: self.duration_ms,
        }
    }
}

impl View for DeviceInfo {
    type V = DeviceView;

    open spec fn view(&self) -> DeviceView {
        DeviceView {
            id: text_of(self.id),
            name: self.name@,
            is_active: self.is_active,
            volume_percent: self.volume_percent,
        }
    }
}

impl View for PlaybackState {
    type V = PlaybackView;

    open spec fn view(&self) -> PlaybackView {
        PlaybackView {
            track: track_of(self.track),
            is_playing: self.is_playing,
            progress_ms: self.progress_ms,
            shuffle: self.shuffle,
            repeat: self.repeat@,
            volume_percent: self.volume_percent,
            device: device_of(self.device),
        }
    }
}

/// A copy of an optional text.
fn clone_text(text: &Option<String>) -> (copy: Option<String>)
    ensures
        text_of(copy) == text_of(*text),
{
    match text {
        Some(s) => Some(s.clone()),
        None => None,
    }
}

/// A copy of a list of texts.
fn clone_texts(texts: &Vec<String>) -> (copy: Vec<String>)
    ensures
        texts_of(copy@) == texts_of(texts@),
{
    let mut copy: Vec<String> = Vec::new();
    for i in 0..texts.len()
        invariant
            copy@.len() == i,
            forall|j: int| 0 <= j < i ==> copy@[j]@ == texts@[j]@,
    {
        copy.push(texts[i].clone());
    }
    assert(texts_of(copy@) =~= texts_of(texts@));
    copy
}

impl Clone for TrackInfo {
    fn clone(&self) -> (copy: Self)
        ensures
            copy@ == self@,
    {
        TrackInfo {
            uri: clone_text(&self.uri),
            name: self.name.clone(),
            artists: clone_texts(&self.artists),
            album: self.album.clone(),
            duration_ms: self.duration_ms,
        }
    }
}

impl Clone for DeviceInfo {
    fn clone(&self) -> (copy: Self)
        ensures
            copy@ == self@,
    {
        DeviceInfo {
            id: clone_text(&self.id),
            name: self.name.clone(),
            is_active: self.is_active,
            volume_percent: self.volume_percent,
        }
    }
}

impl Clone for PlaybackState {
    fn clone(&self) -> (copy: Self)
        ensures
            copy@ == self@,
    {
        PlaybackState {
            track: match &self.track {
                Some(track) => Some(track.clone()),
                None => None,
            },
            is_playing: self.is_playing,
            progress_ms: self.progress_ms,
            shuffle: self.shuffle,
            repeat: self.repeat.clone(),
            volume_percent: self.volume_percent,
            device: match &self.device {
                Some(device) => Some(device.clone()),
                None => None,
            },
        }
    }
}

/// A copy of a list of devices.
pub fn clone_devices(devices: &Vec<DeviceInfo>) -> (copy: Vec<DeviceInfo>)
    ensures
        devices_of(copy@) == devices_of(devices@),
{
    let mut copy: Vec<DeviceInfo> = Vec::new();
    for i in 0..devices.len()
        invariant
            copy@.len() == i,
            forall|j: int| 0 <= j < i ==> copy@[j]@ == devices@[j]@,
    {
        copy.push(devices[i].clone());
    }
    assert(devices_of(copy@) =~= devices_of(devices@));
    copy
}

/// All of a track is seen: its view holds each of its fields.
pub proof fn tracks_are_seen_whole(track: TrackInfo)
    ensures
        track_of(Some(track)) == Some(track@),
        track_of(None) is None,
        match track.uri {
            Some(uri) => track@.uri == Some(uri@),
            None => track@.uri is None,
        },
        track@.name == track.name@,
        track@.artists.len() == track.artists@.len(),
        forall|i: int|
            0 <= i < track.artists@.len() ==> #[trigger] track@.artists[i] == track.artists@[i]@,
        track@.album == track.album@,
        track@.duration_ms == track.duration_ms,
{
}

/// All of a device is seen: its view holds each of its fields.
pub proof fn devices_are_seen_whole(device: DeviceInfo)
    ensures
        device_of(Some(device)) == Some(device@),
        device_of(None) is None,
        match device.id {
            Some(id) => device@.id == Some(id@),
            None => device@.id is None,
        },
        device@.name == device.name@,
        device@.is_active == device.is_active,
        device@.volume_percent == device.volume_percent,
{
}

/// All of a playback snapshot is seen: its view holds each of its fields.
pub proof fn playbacks_are_seen_whole(playback: PlaybackState)
    ensures
        playback_of(Some(playback)) == Some(playback@),
        playback_of(None) is None,
        match playback.track {
            Some(track) => playback@.track == Some(track@),
            None => playback@.track is None,
        },
        playback@.is_playing == playback.is_playing,
        playback@.progress_ms == playback.progress_ms,
        playback@.shuffle == playback.shuffle,
        playback@.repeat == playback.repeat@,
        playback@.volume_percent == playback.volume_percent,
        match playback.device {
            Some(device) => playback@.device == Some(device@),
            None => playback@.device is None,
        },
{
}

/// All of a list is seen, item by item and in order.
pub proof fn lists_are_seen_whole(texts: Seq<String>, devices: Seq<DeviceInfo>)
    ensures
        texts_of(texts).len() == texts.len(),
        forall|i: int| 0 <= i < texts.len() ==> #[trigger] texts_of(texts)[i] == texts[i]@,
        devices_of(devices).len() == devices.len(),
        forall|i: int| 0 <= i < devices.len() ==> #[trigger] devices_of(devices)[i] == devices[i]@,
{
}

} // verus!
