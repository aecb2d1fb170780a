//! The events that plugins subscribe to.

use crate::plugin_api::{
    playback_of, texts_of, track_of, PlaybackState, PlaybackView, TrackInfo, TrackView,
};
use vstd::prelude::*;

verus! {

/// Something that happened to the player, for which a plugin can register a handler.
#[derive(Debug, Clone, Copy, PartialEq, Eq, Structural)]
pub enum ScriptEvent {
    Start,
    TrackChange,
    PlaybackStateChange,
    Seek,
    VolumeChange,
    QueueChange,
}

impl ScriptEvent {
    /// The name under which scripts know the event.
    pub open spec fn label(self) -> Seq<char> {
        match self {
            ScriptEvent::Start => "start"@,
            ScriptEvent::TrackChange => "track_change"@,
            ScriptEvent::PlaybackStateChange => "playback_state_change"@,
            ScriptEvent::Seek => "seek"@,
            ScriptEvent::VolumeChange => "volume_change"@,
            ScriptEvent::QueueChange => "queue_change"@,
        }
    }

    /// The name under which scripts know the event.
    pub fn name(self) -> (name: &'static str)
        ensures
            name@ == self.label(),
    {
        match self {
            ScriptEvent::Start => "start",
            ScriptEvent::TrackChange => "track_change",
            ScriptEvent::PlaybackStateChange => "playback_state_change",
            ScriptEvent::Seek => "seek",
            ScriptEvent::VolumeChange => "volume_change",
            ScriptEvent::QueueChange => "queue_change",
        }
    }
}

/// Every event, in the order in which messages list them.
pub open spec fn every_event() -> Seq<ScriptEvent> {
    seq![
        ScriptEvent::Start,
        ScriptEvent::TrackChange,
        ScriptEvent::PlaybackStateChange,
        ScriptEvent::Seek,
        ScriptEvent::VolumeChange,
        ScriptEvent::QueueChange,
    ]
}

/// Every event, in the order in which messages list them.
pub fn all_events() -> (events: Vec<ScriptEvent>)
    ensures
        events@ == every_event(),
{
    let events = vec![
        ScriptEvent::Start,
        ScriptEvent::TrackChange,
        ScriptEvent::PlaybackStateChange,
        ScriptEvent::Seek,
        ScriptEvent::VolumeChange,
        ScriptEvent::QueueChange,
    ];
    assert(events@ =~= every_event());
    events
}

/// No event is missing from the list of events.
pub proof fn every_event_is_listed(event: ScriptEvent)
    ensures
        every_event().contains(event),
{
    let index: int = match event {
        ScriptEvent::Start => 0,
        ScriptEvent::TrackChange => 1,
        ScriptEvent::PlaybackStateChange => 2,
        ScriptEvent::Seek => 3,
        ScriptEvent::VolumeChange => 4,
        ScriptEvent::QueueChange => 5,
    };
    assert(every_event()[index] == event);
}

/// Different events have different names.
pub proof fn labels_are_distinct(a: ScriptEvent, b: ScriptEvent)
    requires
        a.label() == b.label(),
    ensures
        a == b,
{
    reveal_strlit("start");
    reveal_strlit("track_change");
    reveal_strlit("playback_state_change");
    reveal_strlit("seek");
    reveal_strlit("volume_change");
    reveal_strlit("queue_change");
    assert("start"@.len() == 5);
    assert("track_change"@.len() == 12);
    assert("playback_state_change"@.len() == 21);
    assert("seek"@.len() == 4);
    assert("volume_change"@.len() == 13);
    assert("queue_change"@.len() == 12);
    assert("track_change"@[0] == 't');
    assert("queue_change"@[0] == 'q');
}

/// The event with the given name, if there is one.
pub open spec fn event_named(name: Seq<char>) -> Option<ScriptEvent> {
    if exists|event: ScriptEvent| event.label() == name {
        Some(choose|event: ScriptEvent| event.label() == name)
    } else {
        None
    }
}

/// The event named `name`, or nothing where no event has that name.
pub fn parse_event(name: &String) -> (event: Option<ScriptEvent>)
    ensures
        event == event_named(name@),
        event matches Some(e) ==> e.label() == name@,
        event is None ==> forall|e: ScriptEvent| e.label() != name@,
{
    let events = all_events();
    for i in 0..events.len()
        invariant
            events@ == every_event(),
            forall|j: int| 0 <= j < i ==> events@[j].label() != name@,
    {
        let candidate = events[i].name().to_owned();
        if candidate == *name {
            proof {
                let chosen = choose|event: ScriptEvent| event.label() == name@;
                assert(events@[i as int].label() == name@);
                labels_are_distinct(chosen, events@[i as int]);
            }
            return Some(events[i]);
        }
    }
    assert forall|e: ScriptEvent| e.label() != name@ by {
        every_event_is_listed(e);
    }
    None
}

/// Names in a row, each after the first behind a comma and a space.
pub open spec fn comma_separated(events: Seq<ScriptEvent>) -> Seq<char>
    decreases events.len(),
{
    if events.len() == 0 {
        Seq::empty()
    } else if events.len() == 1 {
        events[0].label()
    } else {
        comma_separated(events.drop_last()) + ", "@ + events.last().label()
    }
}

/// The names of all events in a row.
pub fn valid_event_names() -> (names: String)
    ensures
        names@ == comma_separated(every_event()),
{
    let events = all_events();
    let mut names = String::new();
    for i in 0..events.len()
        invariant
            events@ == every_event(),
            names@ == comma_separated(events@.take(i as int)),
    {
        if i > 0 {
            names.append(", ");
        }
        names.append(events[i].name());
        assert(events@.take(i + 1).drop_last() =~= events@.take(i as int));
        assert(events@.take(i + 1).last() == events@[i as int]);
        assert(names@ =~= comma_separated(events@.take(i + 1)));
    }
    assert(events@.take(events@.len() as int) =~= events@);
    names
}

/// What a script is told that names an event which does not exist.
pub open spec fn unknown_event_text(name: Seq<char>) -> Seq<char> {
    "spotatui.on: unknown event '"@ + name + "'; valid events: "@ + comma_separated(every_event())
}

/// What a script is told that names an event which does not exist.
pub fn unknown_event_message(name: &String) -> (message: String)
    ensures
        message@ == unknown_event_text(name@),
{
    let mut message = "spotatui.on: unknown event '".to_owned();
    message.append(name.as_str());
    message.append("'; valid events: ");
    message.append(valid_event_names().as_str());
    message
}

/// The largest jump of the playback position, in milliseconds, that is not taken for a seek.
///
/// Positions are polled, so that between two snapshots playback goes on by seconds.
pub const SEEK_TOLERANCE_MS: u64 = 3_000;

/// Whether two snapshots hold the same track, or none. Tracks are told apart by their URI, and by
/// their name where neither has one.
pub open spec fn same_track(old: Option<TrackView>, new: Option<TrackView>) -> bool {
    match (old, new) {
        (Some(a), Some(b)) => if a.uri is None && b.uri is None {
            a.name == b.name
        } else {
            a.uri == b.uri
        },
        (None, None) => true,
        _ => false,
    }
}

/// The track of an optional snapshot.
pub open spec fn track_in(playback: Option<PlaybackView>) -> Option<TrackView> {
    match playback {
        Some(p) => p.track,
        None => None,
    }
}

/// Whether an optional snapshot says that the player is playing.
pub open spec fn playing_in(playback: Option<PlaybackView>) -> bool {
    playback matches Some(p) && p.is_playing
}

/// Whether a position jumped further than the tolerance, in either direction.
pub open spec fn jumped(old_ms: u64, new_ms: u64) -> bool {
    new_ms > old_ms + SEEK_TOLERANCE_MS || old_ms > new_ms + SEEK_TOLERANCE_MS
}

/// What a snapshot of the player and its queue holds.
#[verifier::ext_equal]
pub struct SnapshotView {
    pub playback: Option<PlaybackView>,
    pub queue: Option<Seq<Seq<char>>>,
}

/// Whether an event happened between two snapshots.
pub open spec fn happened(event: ScriptEvent, old: SnapshotView, new: SnapshotView) -> bool {
    match event {
        ScriptEvent::Start => false,
        ScriptEvent::TrackChange => !same_track(track_in(old.playback), track_in(new.playback)),
        ScriptEvent::PlaybackStateChange => playing_in(old.playback) != playing_in(new.playback),
        ScriptEvent::Seek => {
            &&& old.playback matches Some(a)
            &&& new.playback matches Some(b)
            &&& a.track is Some
            &&& same_track(a.track, b.track)
            &&& jumped(a.progress_ms, b.progress_ms)
        },
        ScriptEvent::VolumeChange => {
            &&& old.playback matches Some(a)
            &&& new.playback matches Some(b)
            &&& a.volume_percent != b.volume_percent
        },
        ScriptEvent::QueueChange => old.queue != new.queue,
    }
}

/// The events that happened between two snapshots, each at most once.
pub open spec fn events_between(old: SnapshotView, new: SnapshotView) -> Seq<ScriptEvent> {
    every_event().filter(|event: ScriptEvent| happened(event, old, new))
}

/// What an optional queue holds.
pub open spec fn queue_of(queue: Option<Vec<String>>) -> Option<Seq<Seq<char>>> {
    match queue {
        Some(uris) => Some(texts_of(uris@)),
        None => None,
    }
}

/// What a playback snapshot and a queue hold together.
pub open spec fn snapshot_of(
    playback: Option<PlaybackState>,
    queue: Option<Vec<String>>,
) -> SnapshotView {
    SnapshotView { playback: playback_of(playback), queue: queue_of(queue) }
}

fn tracks_agree(old: &TrackInfo, new: &TrackInfo) -> (same: bool)
    ensures
        same == same_track(Some(old@), Some(new@)),
{
    match (&old.uri, &new.uri) {
        (Some(a), Some(b)) => *a == *b,
        (None, None) => old.name == new.name,
        _ => false,
    }
}

fn optional_tracks_agree(old: &Option<TrackInfo>, new: &Option<TrackInfo>) -> (same: bool)
    ensures
        same == same_track(track_of(*old), track_of(*new)),
{
    match (old, new) {
        (Some(a), Some(b)) => tracks_agree(a, b),
        (None, None) => true,
        _ => false,
    }
}

fn track_changed(old: &Option<PlaybackState>, new: &Option<PlaybackState>) -> (changed: bool)
    ensures
        changed == !same_track(track_in(playback_of(*old)), track_in(playback_of(*new))),
{
    match (old, new) {
        (Some(a), Some(b)) => !optional_tracks_agree(&a.track, &b.track),
        (Some(a), None) => a.track.is_some(),
        (None, Some(b)) => b.track.is_some(),
        (None, None) => false,
    }
}

fn is_playing_in(playback: &Option<PlaybackState>) -> (playing: bool)
    ensures
        playing == playing_in(playback_of(*playback)),
{
    match playback {
        Some(p) => p.is_playing,
        None => false,
    }
}

fn position_jumped(old_ms: u64, new_ms: u64) -> (jump: bool)
    ensures
        jump == jumped(old_ms, new_ms),
{
    if new_ms > old_ms {
        new_ms - old_ms > SEEK_TOLERANCE_MS
    } else {
        old_ms - new_ms > SEEK_TOLERANCE_MS
    }
}

fn percents_agree(old: &Option<u8>, new: &Option<u8>) -> (same: bool)
    ensures
        same == (*old == *new),
{
    match (old, new) {
        (Some(a), Some(b)) => *a == *b,
        (None, None) => true,
        _ => false,
    }
}

fn texts_agree(old: &Vec<String>, new: &Vec<String>) -> (same: bool)
    ensures
        same == (texts_of(old@) == texts_of(new@)),
{
    if old.len() != new.len() {
        assert(texts_of(old@).len() != texts_of(new@).len());
        return false;
    }
    for i in 0..old.len()
        invariant
            old@.len() == new@.len(),
            forall|j: int| 0 <= j < i ==> old@[j]@ == new@[j]@,
    {
        if old[i] != new[i] {
            assert(texts_of(old@)[i as int] != texts_of(new@)[i as int]);
            return false;
        }
    }
    assert(texts_of(old@) =~= texts_of(new@));
    true
}

fn queues_agree(old: &Option<Vec<String>>, new: &Option<Vec<String>>) -> (same: bool)
    ensures
        same == (queue_of(*old) == queue_of(*new)),
{
    match (old, new) {
        (Some(a), Some(b)) => texts_agree(a, b),
        (None, None) => true,
        _ => false,
    }
}

fn has_happened(
    event: ScriptEvent,
    old: &Option<PlaybackState>,
    old_queue: &Option<Vec<String>>,
    new: &Option<PlaybackState>,
    new_queue: &Option<Vec<String>>,
) -> (yes: bool)
    ensures
        yes == happened(event, snapshot_of(*old, *old_queue), snapshot_of(*new, *new_queue)),
{
    match event {
        ScriptEvent::Start => false,
        ScriptEvent::TrackChange => track_changed(old, new),
        ScriptEvent::PlaybackStateChange => is_playing_in(old) != is_playing_in(new),
        ScriptEvent::Seek => match (old, new) {
            (Some(a), Some(b)) => a.track.is_some() && optional_tracks_agree(&a.track, &b.track)
                && position_jumped(a.progress_ms, b.progress_ms),
            _ => false,
        },
        ScriptEvent::VolumeChange => match (old, new) {
            (Some(a), Some(b)) => !percents_agree(&a.volume_percent, &b.volume_percent),
            _ => false,
        },
        ScriptEvent::QueueChange => !queues_agree(old_queue, new_queue),
    }
}

/// The events that happened between two snapshots of the player and its queue.
pub fn diff_events(
    old: &Option<PlaybackState>,
    old_queue: &Option<Vec<String>>,
    new: &Option<PlaybackState>,
    new_queue: &Option<Vec<String>>,
) -> (events: Vec<ScriptEvent>)
    ensures
        events@ == events_between(snapshot_of(*old, *old_queue), snapshot_of(*new, *new_queue)),
{
    let ghost before = snapshot_of(*old, *old_queue);
    let ghost after = snapshot_of(*new, *new_queue);
    let ghost pred = |event: ScriptEvent| happened(event, before, after);
    let candidates = all_events();
    let mut events: Vec<ScriptEvent> = Vec::new();
    proof {
        reveal(Seq::filter);
    }
    assert(candidates@.take(0).filter(pred) =~= Seq::empty());
    for i in 0..candidates.len()
        invariant
            candidates@ == every_event(),
            before == snapshot_of(*old, *old_queue),
            after == snapshot_of(*new, *new_queue),
            pred == |event: ScriptEvent| happened(event, before, after),
            events@ == candidates@.take(i as int).filter(pred),
    {
        let candidate = candidates[i];
        proof {
            reveal(Seq::filter);
            assert(candidates@.take(i + 1).drop_last() =~= candidates@.take(i as int));
            assert(candidates@.take(i + 1).last() == candidate);
        }
        if has_happened(candidate, old, old_queue, new, new_queue) {
            events.push(candidate);
        }
    }
    assert(candidates@.take(candidates@.len() as int) =~= candidates@);
    events
}

/// Exactly the events that happened are reported.
pub proof fn reported_events_happened(old: SnapshotView, new: SnapshotView, event: ScriptEvent)
    ensures
        events_between(old, new).contains(event) <==> happened(event, old, new),
{
    broadcast use vstd::seq_lib::group_filter_ensures;

    let pred = |e: ScriptEvent| happened(e, old, new);
    every_event_is_listed(event);
    let index = choose|i: int| 0 <= i < every_event().len() && every_event()[i] == event;
    if happened(event, old, new) {
        assert(pred(every_event()[index]));
        assert(every_event().filter(pred).contains(every_event()[index]));
    }
    if events_between(old, new).contains(event) {
        let at = choose|i: int|
            0 <= i < every_event().filter(pred).len() && every_event().filter(pred)[i] == event;
        assert(pred(every_event().filter(pred)[at]));
    }
}

/// Between a snapshot and itself nothing happened.
pub proof fn nothing_happens_without_change(snapshot: SnapshotView)
    ensures
        events_between(snapshot, snapshot) == Seq::<ScriptEvent>::empty(),
{
    let events = events_between(snapshot, snapshot);
    if events.len() > 0 {
        assert(events.contains(events[0]));
        reported_events_happened(snapshot, snapshot, events[0]);
    }
}

/// No event is reported twice.
pub proof fn each_event_is_reported_once(old: SnapshotView, new: SnapshotView)
    ensures
        events_between(old, new).no_duplicates(),
{
    filtered_events_stay_distinct(every_event(), |event: ScriptEvent| happened(event, old, new));
}

proof fn filtered_events_stay_distinct(events: Seq<ScriptEvent>, pred: spec_fn(ScriptEvent) -> bool)
    requires
        events.no_duplicates(),
    ensures
        events.filter(pred).no_duplicates(),
    decreases events.len(),
{
    reveal(Seq::filter);
    if events.len() > 0 {
        let earlier = events.drop_last();
        filtered_events_stay_distinct(earlier, pred);
        assert forall|i: int| 0 <= i < earlier.filter(pred).len() implies #[trigger] earlier.filter(
            pred,
        )[i] != events.last() by {
            earlier.lemma_filter_contains_rev(pred, earlier.filter(pred)[i]);
        }
    }
}

/// Each event is known to scripts under its own name, and is found under that name.
pub proof fn events_are_found_under_their_names(event: ScriptEvent)
    ensures
        event_named(event.label()) == Some(event),
        match event {
            ScriptEvent::Start => event.label() == "start"@,
            ScriptEvent::TrackChange => event.label() == "track_change"@,
            ScriptEvent::PlaybackStateChange => event.label() == "playback_state_change"@,
            ScriptEvent::Seek => event.label() == "seek"@,
            ScriptEvent::VolumeChange => event.label() == "volume_change"@,
            ScriptEvent::QueueChange => event.label() == "queue_change"@,
        },
{
    let found = choose|e: ScriptEvent| e.label() == event.label();
    labels_are_distinct(found, event);
}

/// A script that names an event which does not exist is told that name, and the names of all events
/// that do exist.
pub proof fn unknown_events_are_told_with_the_known(name: Seq<char>)
    ensures
        unknown_event_text(name) == "spotatui.on: unknown event '"@ + name + "'; valid events: "@
            + ("start"@ + ", "@ + "track_change"@ + ", "@ + "playback_state_change"@ + ", "@
            + "seek"@ + ", "@ + "volume_change"@ + ", "@ + "queue_change"@),
{
    let events = every_event();
    assert(comma_separated(events.take(1)) == "start"@);
    assert(events.take(2).drop_last() =~= events.take(1));
    assert(events.take(3).drop_last() =~= events.take(2));
    assert(events.take(4).drop_last() =~= events.take(3));
    assert(events.take(5).drop_last() =~= events.take(4));
    assert(events.drop_last() =~= events.take(5));
    assert(comma_separated(events.take(2)) == "start"@ + ", "@ + "track_change"@);
    assert(comma_separated(events.take(3)) == comma_separated(events.take(2)) + ", "@
        + "playback_state_change"@);
    assert(comma_separated(events.take(4)) == comma_separated(events.take(3)) + ", "@ + "seek"@);
    assert(comma_separated(events.take(5)) == comma_separated(events.take(4)) + ", "@
        + "volume_change"@);
    assert(comma_separated(events) == comma_separated(events.take(5)) + ", "@ + "queue_change"@);
}

/// Between two snapshots of a player, a change of the playback state is reported just where one
/// says that it plays and the other that it does not, in either direction. Where there is no
/// snapshot, nothing plays.
pub proof fn flips_of_the_playback_state_are_reported(
    old: Option<PlaybackState>,
    old_queue: Option<Vec<String>>,
    new: Option<PlaybackState>,
    new_queue: Option<Vec<String>>,
    events: Seq<ScriptEvent>,
    back: Seq<ScriptEvent>,
)
    requires
        events == events_between(snapshot_of(old, old_queue), snapshot_of(new, new_queue)),
        back == events_between(snapshot_of(new, new_queue), snapshot_of(old, old_queue)),
    ensures
        events.contains(ScriptEvent::PlaybackStateChange) == back.contains(
            ScriptEvent::PlaybackStateChange,
        ),
        events.contains(ScriptEvent::PlaybackStateChange) == match (old, new) {
            (Some(a), Some(b)) => a.is_playing != b.is_playing,
            (Some(a), None) => a.is_playing,
            (None, Some(b)) => b.is_playing,
            (None, None) => false,
        },
{
    let event = ScriptEvent::PlaybackStateChange;
    reported_events_happened(snapshot_of(old, old_queue), snapshot_of(new, new_queue), event);
    reported_events_happened(snapshot_of(new, new_queue), snapshot_of(old, old_queue), event);
}

/// A change of track is reported just where the track of one snapshot is not that of the other, in
/// either direction. Of two tracks with URIs, and of one with and one without, the URIs tell; of
/// two tracks without, the names. A track that comes or goes is a change, too.
pub proof fn changes_of_track_are_reported(
    old: Option<PlaybackState>,
    old_queue: Option<Vec<String>>,
    new: Option<PlaybackState>,
    new_queue: Option<Vec<String>>,
    events: Seq<ScriptEvent>,
    back: Seq<ScriptEvent>,
)
    requires
        events == events_between(snapshot_of(old, old_queue), snapshot_of(new, new_queue)),
        back == events_between(snapshot_of(new, new_queue), snapshot_of(old, old_queue)),
    ensures
        events.contains(ScriptEvent::TrackChange) == back.contains(ScriptEvent::TrackChange),
        match (old, new) {
            (Some(a), Some(b)) => match (a.track, b.track) {
                (Some(s), Some(t)) => match (s.uri, t.uri) {
                    (Some(u), Some(v)) => events.contains(ScriptEvent::TrackChange) == (u@ != v@),
                    (None, None) => events.contains(ScriptEvent::TrackChange) == (s.name@
                        != t.name@),
                    _ => events.contains(ScriptEvent::TrackChange),
                },
                (None, None) => !events.contains(ScriptEvent::TrackChange),
                _ => events.contains(ScriptEvent::TrackChange),
            },
            (Some(a), None) => events.contains(ScriptEvent::TrackChange) == a.track is Some,
            (None, Some(b)) => events.contains(ScriptEvent::TrackChange) == b.track is Some,
            (None, None) => !events.contains(ScriptEvent::TrackChange),
        },
{
    let event = ScriptEvent::TrackChange;
    reported_events_happened(snapshot_of(old, old_queue), snapshot_of(new, new_queue), event);
    reported_events_happened(snapshot_of(new, new_queue), snapshot_of(old, old_queue), event);
}

/// A seek is reported just where the same track is at positions more than three seconds apart, in
/// either direction. So a seek and a change of track are never reported together.
pub proof fn jumps_within_a_track_are_reported(
    old: Option<PlaybackState>,
    old_queue: Option<Vec<String>>,
    new: Option<PlaybackState>,
    new_queue: Option<Vec<String>>,
    events: Seq<ScriptEvent>,
    back: Seq<ScriptEvent>,
)
    requires
        events == events_between(snapshot_of(old, old_queue), snapshot_of(new, new_queue)),
        back == events_between(snapshot_of(new, new_queue), snapshot_of(old, old_queue)),
    ensures
        events.contains(ScriptEvent::Seek) == back.contains(ScriptEvent::Seek),
        events.contains(ScriptEvent::Seek) ==> !events.contains(ScriptEvent::TrackChange),
        events.contains(ScriptEvent::Seek) == match (old, new) {
            (Some(a), Some(b)) => {
                &&& a.track is Some
                &&& b.track is Some
                &&& !events.contains(ScriptEvent::TrackChange)
                &&& b.progress_ms - a.progress_ms > 3_000 || a.progress_ms - b.progress_ms > 3_000
            },
            _ => false,
        },
{
    let before = snapshot_of(old, old_queue);
    let after = snapshot_of(new, new_queue);
    reported_events_happened(before, after, ScriptEvent::Seek);
    reported_events_happened(after, before, ScriptEvent::Seek);
    reported_events_happened(before, after, ScriptEvent::TrackChange);
}

/// A change of volume is reported just where two snapshots name different volumes, in either
/// direction; one that names none differs from one that names some.
pub proof fn changes_of_volume_are_reported(
    old: Option<PlaybackState>,
    old_queue: Option<Vec<String>>,
    new: Option<PlaybackState>,
    new_queue: Option<Vec<String>>,
    events: Seq<ScriptEvent>,
    back: Seq<ScriptEvent>,
)
    requires
        events == events_between(snapshot_of(old, old_queue), snapshot_of(new, new_queue)),
        back == events_between(snapshot_of(new, new_queue), snapshot_of(old, old_queue)),
    ensures
        events.contains(ScriptEvent::VolumeChange) == back.contains(ScriptEvent::VolumeChange),
        events.contains(ScriptEvent::VolumeChange) == match (old, new) {
            (Some(a), Some(b)) => a.volume_percent != b.volume_percent,
            _ => false,
        },
{
    let event = ScriptEvent::VolumeChange;
    reported_events_happened(snapshot_of(old, old_queue), snapshot_of(new, new_queue), event);
    reported_events_happened(snapshot_of(new, new_queue), snapshot_of(old, old_queue), event);
}

/// A change of the queue is reported just where the queues differ in length or in an entry, or
/// where one of them is not known, in either direction and whatever the player does.
pub proof fn changes_of_the_queue_are_reported(
    old: Option<PlaybackState>,
    old_queue: Option<Vec<String>>,
    new: Option<PlaybackState>,
    new_queue: Option<Vec<String>>,
    events: Seq<ScriptEvent>,
    back: Seq<ScriptEvent>,
)
    requires
        events == events_between(snapshot_of(old, old_queue), snapshot_of(new, new_queue)),
        back == events_between(snapshot_of(new, new_queue), snapshot_of(old, old_queue)),
    ensures
        events.contains(ScriptEvent::QueueChange) == back.contains(ScriptEvent::QueueChange),
        events.contains(ScriptEvent::QueueChange) == match (old_queue, new_queue) {
            (Some(a), Some(b)) => a@.len() != b@.len() || exists|i: int|
                0 <= i < a@.len() && (#[trigger] a@[i])@ != b@[i]@,
            (None, None) => false,
            _ => true,
        },
{
    let event = ScriptEvent::QueueChange;
    reported_events_happened(snapshot_of(old, old_queue), snapshot_of(new, new_queue), event);
    reported_events_happened(snapshot_of(new, new_queue), snapshot_of(old, old_queue), event);
    if let (Some(a), Some(b)) = (old_queue, new_queue) {
        if texts_of(a@) == texts_of(b@) {
            assert(texts_of(a@).len() == a@.len() && texts_of(b@).len() == b@.len());
            assert forall|i: int| 0 <= i < a@.len() implies (#[trigger] a@[i])@ == b@[i]@ by {
                assert(texts_of(a@)[i] == texts_of(b@)[i]);
            }
        } else if a@.len() == b@.len() {
            if forall|i: int| 0 <= i < a@.len() ==> (#[trigger] a@[i])@ == b@[i]@ {
                assert(texts_of(a@) =~= texts_of(b@));
            }
        }
    }
}

/// The start is no change: it is never reported, whatever the snapshots are.
pub proof fn starts_are_not_reported(old: SnapshotView, new: SnapshotView)
    ensures
        !events_between(old, new).contains(ScriptEvent::Start),
{
    reported_events_happened(old, new, ScriptEvent::Start);
}

/// Where two events are reported, a change of track comes before one of the playback state, that
/// before a seek, that before a change of volume, and that before a change of the queue.
pub proof fn events_are_reported_in_order(old: SnapshotView, new: SnapshotView, i: int, j: int)
    requires
        0 <= i < j < events_between(old, new).len(),
    ensures
        match (events_between(old, new)[i], events_between(old, new)[j]) {
            (ScriptEvent::TrackChange, later) => !(later is TrackChange),
            (ScriptEvent::PlaybackStateChange, later) => !(later is TrackChange)
                && !(later is PlaybackStateChange),
            (ScriptEvent::Seek, later) => later is VolumeChange || later is QueueChange,
            (ScriptEvent::VolumeChange, later) => later is QueueChange,
            _ => false,
        },
{
    let pred = |event: ScriptEvent| happened(event, old, new);
    let events = events_between(old, new);
    let (p, q) = filtered_events_stay_in_order(every_event(), pred, i, j);
    assert(events.contains(events[i]));
    assert(events.contains(events[j]));
    starts_are_not_reported(old, new);
}

proof fn filtered_events_stay_in_order(
    events: Seq<ScriptEvent>,
    pred: spec_fn(ScriptEvent) -> bool,
    i: int,
    j: int,
) -> (places: (int, int))
    requires
        0 <= i < j < events.filter(pred).len(),
    ensures
        0 <= places.0 < places.1 < events.len(),
        events[places.0] == events.filter(pred)[i],
        events[places.1] == events.filter(pred)[j],
    decreases events.len(),
{
    reveal(Seq::filter);
    let earlier = events.drop_last();
    if j < earlier.filter(pred).len() {
        filtered_events_stay_in_order(earlier, pred, i, j)
    } else {
        earlier.lemma_filter_contains_rev(pred, earlier.filter(pred)[i]);
        let place = choose|k: int|
            0 <= k < earlier.len() && earlier[k] == earlier.filter(pred)[i];
        (place, events.len() - 1)
    }
}

} // verus!
