use spotatui::events::{
    all_events, diff_events, parse_event, unknown_event_message, valid_event_names, ScriptEvent,
};
use spotatui::harness::{playback, track};

#[test]
fn diff_none_to_some_is_track_change() {
    let new = Some(playback(Some(track("uri:1", "A")), true, 0));
    let q = Some(vec![]);
    let events = diff_events(&None, &None, &new, &q);
    assert!(events.contains(&ScriptEvent::TrackChange));
    // None -> playing also flips is_playing.
    assert!(events.contains(&ScriptEvent::PlaybackStateChange));
}

#[test]
fn diff_track_change_on_different_uri() {
    let old = Some(playback(Some(track("uri:1", "A")), true, 0));
    let new = Some(playback(Some(track("uri:2", "B")), true, 0));
    let q = Some(vec![]);
    let events = diff_events(&old, &q, &new, &q);
    assert!(events.contains(&ScriptEvent::TrackChange));
    assert!(!events.contains(&ScriptEvent::PlaybackStateChange));
}

#[test]
fn diff_play_pause_flip() {
    let old = Some(playback(Some(track("uri:1", "A")), true, 1000));
    let new = Some(playback(Some(track("uri:1", "A")), false, 1000));
    let q = Some(vec![]);
    let events = diff_events(&old, &q, &new, &q);
    assert_eq!(events, vec![ScriptEvent::PlaybackStateChange]);
}

#[test]
fn diff_seek_backward_beyond_threshold() {
    let old = Some(playback(Some(track("uri:1", "A")), true, 10_000));
    let new = Some(playback(Some(track("uri:1", "A")), true, 5_000));
    let q = Some(vec![]);
    let events = diff_events(&old, &q, &new, &q);
    assert!(events.contains(&ScriptEvent::Seek));
}

#[test]
fn diff_seek_forward_beyond_threshold() {
    let old = Some(playback(Some(track("uri:1", "A")), true, 1_000));
    let new = Some(playback(Some(track("uri:1", "A")), true, 9_000));
    let q = Some(vec![]);
    let events = diff_events(&old, &q, &new, &q);
    assert!(events.contains(&ScriptEvent::Seek));
}

#[test]
fn diff_small_forward_jump_is_not_seek() {
    // 3s forward jump is within Connect polling tolerance.
    let old = Some(playback(Some(track("uri:1", "A")), true, 1_000));
    let new = Some(playback(Some(track("uri:1", "A")), true, 4_000));
    let q = Some(vec![]);
    let events = diff_events(&old, &q, &new, &q);
    assert!(!events.contains(&ScriptEvent::Seek));
}

#[test]
fn diff_volume_change() {
    let old = Some(playback(Some(track("uri:1", "A")), true, 1_000));
    let mut new = playback(Some(track("uri:1", "A")), true, 1_000);
    new.volume_percent = Some(80);
    let q = Some(vec![]);
    let events = diff_events(&old, &q, &Some(new), &q);
    assert!(events.contains(&ScriptEvent::VolumeChange));
}

#[test]
fn diff_queue_change() {
    let old = Some(playback(Some(track("uri:1", "A")), true, 1_000));
    let new = old.clone();
    let old_q = Some(vec!["a".to_string()]);
    let new_q = Some(vec!["a".to_string(), "b".to_string()]);
    let events = diff_events(&old, &old_q, &new, &new_q);
    assert_eq!(events, vec![ScriptEvent::QueueChange]);
}

#[test]
fn without_change_nothing_is_reported() {
    let state = Some(playback(Some(track("uri:1", "A")), true, 1_000));
    let q = Some(vec!["a".to_string()]);
    assert!(diff_events(&state, &q, &state, &q).is_empty());
    assert!(diff_events(&None, &None, &None, &None).is_empty());
}

#[test]
fn changes_are_reported_once_and_in_order() {
    let old = Some(playback(Some(track("uri:1", "A")), true, 0));
    let mut new = playback(Some(track("uri:2", "A")), false, 9_000);
    new.volume_percent = None;
    let new = Some(new);
    let q1 = Some(vec!["a".to_string()]);
    let q2 = Some(vec!["b".to_string()]);
    let expected = vec![
        ScriptEvent::TrackChange,
        ScriptEvent::PlaybackStateChange,
        ScriptEvent::VolumeChange,
        ScriptEvent::QueueChange,
    ];
    assert_eq!(diff_events(&old, &q1, &new, &q2), expected);
}

#[test]
fn the_tolerance_is_three_seconds() {
    let at = |ms: u64| Some(playback(Some(track("uri:1", "A")), true, ms));
    assert!(diff_events(&at(0), &None, &at(3_000), &None).is_empty());
    assert_eq!(diff_events(&at(0), &None, &at(3_001), &None), vec![ScriptEvent::Seek]);
    assert!(diff_events(&at(3_000), &None, &at(0), &None).is_empty());
    assert_eq!(diff_events(&at(3_001), &None, &at(0), &None), vec![ScriptEvent::Seek]);
    assert_eq!(diff_events(&at(0), &None, &at(u64::MAX), &None), vec![ScriptEvent::Seek]);
}

#[test]
fn tracks_without_uri_are_told_apart_by_name() {
    let local = |name: &str| {
        let mut t = track("", name);
        t.uri = None;
        Some(playback(Some(t), true, 0))
    };
    assert!(diff_events(&local("A"), &None, &local("A"), &None).is_empty());
    assert_eq!(
        diff_events(&local("A"), &None, &local("B"), &None),
        vec![ScriptEvent::TrackChange]
    );
    let remote = Some(playback(Some(track("uri:1", "A")), true, 0));
    assert_eq!(diff_events(&local("A"), &None, &remote, &None), vec![ScriptEvent::TrackChange]);
}

#[test]
fn names_are_parsed_back() {
    for event in all_events() {
        assert_eq!(parse_event(&event.name().to_string()), Some(event));
    }
    assert_eq!(parse_event(&"bogus_event".to_string()), None);
    assert_eq!(parse_event(&"Start".to_string()), None);
    assert_eq!(parse_event(&String::new()), None);
}

#[test]
fn messages_list_all_names() {
    assert_eq!(
        valid_event_names(),
        "start, track_change, playback_state_change, seek, volume_change, queue_change"
    );
    assert_eq!(
        unknown_event_message(&"x".to_string()),
        "spotatui.on: unknown event 'x'; valid events: start, track_change, \
         playback_state_change, seek, volume_change, queue_change"
    );
}
