use spotatui::app::{App, IoEvent};
use spotatui::effects::{apply_effects, effective_is_playing, ScriptEffect};
use spotatui::engine::ScriptEngine;
use spotatui::harness::{playback, track};
use spotatui::plugin_api::{DeviceInfo, PlaybackState};

fn make_app() -> App {
    App::new(0)
}

fn make_device() -> DeviceInfo {
    DeviceInfo {
        id: Some("dev-test".to_string()),
        name: "Test Device".to_string(),
        is_active: true,
        volume_percent: Some(50),
    }
}

fn make_context(is_playing: bool, shuffle_state: bool) -> PlaybackState {
    let mut context = playback(None, is_playing, 0);
    context.shuffle = shuffle_state;
    context.device = Some(make_device());
    context
}

fn make_context_with_track(is_playing: bool) -> PlaybackState {
    let mut context = playback(Some(track("4uLU6hMCjMI75M1A2tKUQC", "Test Song")), is_playing, 0);
    context.device = Some(make_device());
    context
}

fn drained(app: &mut App, effects: Vec<ScriptEffect>) {
    let mut engine = ScriptEngine::new().unwrap();
    for effect in effects {
        engine.queue(effect);
    }
    engine.drain_effects(app);
}

#[test]
fn drain_pause_while_playing_dispatches_pause_playback() {
    let mut app = make_app();
    app.current_playback_context = Some(make_context(true, false));
    drained(&mut app, vec![ScriptEffect::Pause]);
    match app.take_event() {
        Some(IoEvent::PausePlayback) => {}
        _ => panic!("expected PausePlayback, got unexpected variant (IoEvent is not Debug)"),
    }
}

#[test]
fn drain_pause_while_already_paused_is_noop() {
    let mut app = make_app();
    app.current_playback_context = Some(make_context(false, false));
    drained(&mut app, vec![ScriptEffect::Pause]);
    assert!(app.take_event().is_none(), "expected no IoEvent dispatched");
}

#[test]
fn drain_play_while_paused_dispatches_start_playback() {
    let mut app = make_app();
    app.current_playback_context = Some(make_context(false, false));
    drained(&mut app, vec![ScriptEffect::Play]);
    match app.take_event() {
        Some(IoEvent::StartPlayback(None, None, None)) => {}
        _ => panic!(
            "expected StartPlayback(None,None,None), got unexpected variant (IoEvent is not Debug)"
        ),
    }
}

#[test]
fn drain_play_while_already_playing_is_noop() {
    let mut app = make_app();
    app.current_playback_context = Some(make_context(true, false));
    drained(&mut app, vec![ScriptEffect::Play]);
    assert!(app.take_event().is_none(), "expected no IoEvent dispatched");
}

#[test]
fn drain_shuffle_true_when_off_dispatches_shuffle_true() {
    let mut app = make_app();
    app.current_playback_context = Some(make_context(false, false));
    drained(&mut app, vec![ScriptEffect::SetShuffle(true)]);
    match app.take_event() {
        Some(IoEvent::Shuffle(true)) => {}
        _ => panic!("expected Shuffle(true), got unexpected variant (IoEvent is not Debug)"),
    }
}

#[test]
fn drain_shuffle_false_when_already_off_is_noop() {
    let mut app = make_app();
    app.current_playback_context = Some(make_context(false, false));
    drained(&mut app, vec![ScriptEffect::SetShuffle(false)]);
    assert!(app.take_event().is_none(), "expected no IoEvent dispatched");
}

#[test]
fn drain_set_volume_sets_pending_volume() {
    let mut app = make_app();
    drained(&mut app, vec![ScriptEffect::SetVolume(80)]);
    assert_eq!(app.pending_volume, Some(80));
}

#[test]
fn drain_seek_with_track_context_dispatches_seek() {
    let mut app = make_app();
    app.current_playback_context = Some(make_context_with_track(true));
    drained(&mut app, vec![ScriptEffect::Seek(30_000)]);
    match app.take_event() {
        Some(IoEvent::Seek(ms)) => assert_eq!(ms, 30_000),
        _ => panic!("expected Seek(30000), got unexpected variant (IoEvent is not Debug)"),
    }
}

#[test]
fn drain_notify_error_sets_error_flag_on_app() {
    let mut app = make_app();
    drained(&mut app, vec![ScriptEffect::NotifyError("plugin crashed".to_string(), 6)]);
    assert_eq!(app.status_message.as_deref(), Some("plugin crashed"));
    assert!(app.status_message_is_error);
}

#[test]
fn drain_notify_error_blocks_subsequent_normal_notify() {
    let mut app = make_app();
    drained(
        &mut app,
        vec![
            ScriptEffect::NotifyError("error msg".to_string(), 6),
            ScriptEffect::Notify("normal msg".to_string(), 4),
        ],
    );
    assert_eq!(app.status_message.as_deref(), Some("error msg"));
    assert!(app.status_message_is_error);
}

#[test]
fn an_expired_error_gives_way() {
    let mut app = make_app();
    drained(&mut app, vec![ScriptEffect::NotifyError("error msg".to_string(), 6)]);
    app.now = 5;
    drained(&mut app, vec![ScriptEffect::Notify("early".to_string(), 4)]);
    assert_eq!(app.status_message.as_deref(), Some("error msg"));
    app.now = 6;
    drained(&mut app, vec![ScriptEffect::Notify("late".to_string(), 4)]);
    assert_eq!(app.status_message.as_deref(), Some("late"));
    assert!(!app.status_message_is_error);
    assert_eq!(app.status_message_expires_at, 10);
}

#[test]
fn errors_replace_errors_and_expiry_saturates() {
    let mut app = App::new(u64::MAX - 1);
    drained(
        &mut app,
        vec![
            ScriptEffect::NotifyError("first".to_string(), 1),
            ScriptEffect::NotifyError("second".to_string(), 9),
        ],
    );
    assert_eq!(app.status_message.as_deref(), Some("second"));
    assert_eq!(app.status_message_expires_at, u64::MAX);
}

#[test]
fn tracks_are_skipped_and_searches_carry_the_country() {
    let mut app = make_app();
    app.user_country = Some("SE".to_string());
    apply_effects(
        vec![
            ScriptEffect::Next,
            ScriptEffect::Previous,
            ScriptEffect::Search("daft punk".to_string()),
        ],
        &mut app,
    );
    assert!(matches!(app.take_event(), Some(IoEvent::NextTrack)));
    assert!(matches!(app.take_event(), Some(IoEvent::PreviousTrack)));
    match app.take_event() {
        Some(IoEvent::GetSearchResults(query, country)) => {
            assert_eq!(query, "daft punk");
            assert_eq!(country.as_deref(), Some("SE"));
        }
        _ => panic!("expected search results"),
    }
    assert!(app.take_event().is_none());
}

#[test]
fn without_playback_play_resumes_and_the_rest_is_noop() {
    let mut app = make_app();
    assert!(!effective_is_playing(&app));
    apply_effects(
        vec![
            ScriptEffect::Pause,
            ScriptEffect::Seek(1),
            ScriptEffect::SetShuffle(true),
            ScriptEffect::SetShuffle(false),
            ScriptEffect::Play,
        ],
        &mut app,
    );
    assert!(matches!(app.take_event(), Some(IoEvent::StartPlayback(None, None, None))));
    assert!(app.take_event().is_none());
    app.current_playback_context = Some(make_context(true, false));
    assert!(effective_is_playing(&app));
}

#[test]
fn shuffle_off_when_on_dispatches_shuffle_false() {
    let mut app = make_app();
    app.current_playback_context = Some(make_context(true, true));
    drained(&mut app, vec![ScriptEffect::SetShuffle(true), ScriptEffect::SetShuffle(false)]);
    assert!(matches!(app.take_event(), Some(IoEvent::Shuffle(false))));
    assert!(app.take_event().is_none());
}

#[test]
fn draining_in_parts_is_draining_at_once() {
    let first = || vec![ScriptEffect::NotifyError("e".to_string(), 2), ScriptEffect::Next];
    let second = || vec![ScriptEffect::Notify("n".to_string(), 2), ScriptEffect::SetVolume(3)];
    let mut parts = make_app();
    apply_effects(first(), &mut parts);
    apply_effects(second(), &mut parts);
    let mut whole = make_app();
    apply_effects(first().into_iter().chain(second()).collect(), &mut whole);
    assert_eq!(parts.status_message, whole.status_message);
    assert_eq!(parts.pending_volume, whole.pending_volume);
    assert_eq!(format!("{:?}", parts.io_events), format!("{:?}", whole.io_events));
}
