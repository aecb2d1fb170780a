use spotatui::effects::ScriptEffect;
use spotatui::engine::ScriptEngine;
use spotatui::events::ScriptEvent;
use spotatui::harness::{drain, playback, sole_effect, track, ActionError};
use spotatui::plugin_api::DeviceInfo;

/// Takes the effect of an engine that must hold exactly one.
fn one(engine: &mut ScriptEngine) -> ScriptEffect {
    sole_effect(engine).expect("expected exactly one effect")
}

fn run_action(src: &str) -> ScriptEffect {
    spotatui::harness::run_action(src).unwrap()
}

// --- handler registration + emission ---

#[test]
fn track_change_handler_queues_notify() {
    let mut engine = ScriptEngine::new().unwrap();
    engine
        .load_source(
            "test",
            r#"
        spotatui.on("track_change", function(pb)
          spotatui.notify("now: " .. pb.track.name, 5)
        end)
      "#,
        )
        .unwrap();

    engine.set_playback(Some(playback(Some(track("uri:1", "Song A")), true, 0)));
    engine.emit(ScriptEvent::TrackChange).unwrap();

    match one(&mut engine) {
        ScriptEffect::Notify(msg, ttl) => {
            assert_eq!(msg, "now: Song A");
            assert_eq!(ttl, 5);
        }
        other => panic!("unexpected effect: {:?}", std::mem::discriminant(&other)),
    }
}

#[test]
fn erroring_handler_is_disabled_after_one_strike() {
    let mut engine = ScriptEngine::new().unwrap();
    engine
        .load_source(
            "bad",
            r#"
        spotatui.on("start", function() error("boom") end)
        spotatui.on("start", function() spotatui.notify("healthy", 1) end)
      "#,
        )
        .unwrap();

    engine.emit(ScriptEvent::Start).unwrap();
    let first = drain(&mut engine);
    // One error notify (from the bad handler) plus the healthy notify.
    assert_eq!(first.len(), 2);
    match &first[0] {
        ScriptEffect::NotifyError(m, 6) => assert!(m.contains("error in on_start")),
        _ => panic!("expected error notify first"),
    }
    match &first[1] {
        ScriptEffect::Notify(m, 1) => assert_eq!(m, "healthy"),
        _ => panic!("expected healthy notify second"),
    }

    // Second emit: bad handler removed, only the healthy one fires (no new error).
    engine.emit(ScriptEvent::Start).unwrap();
    match one(&mut engine) {
        ScriptEffect::Notify(m, 1) => assert_eq!(m, "healthy"),
        _ => panic!("expected only the healthy notify"),
    }
}

#[test]
fn unknown_event_name_is_an_error() {
    let mut engine = ScriptEngine::new().unwrap();
    let result = engine.load_source("test", r#"spotatui.on("bogus_event", function() end)"#);
    assert!(result.is_err());
}

// --- action functions queue the right effect ---

#[test]
fn action_play_queues_play() {
    assert!(matches!(run_action("spotatui.play()"), ScriptEffect::Play));
}

#[test]
fn action_pause_queues_pause() {
    assert!(matches!(run_action("spotatui.pause()"), ScriptEffect::Pause));
}

#[test]
fn action_next_queues_next() {
    assert!(matches!(run_action("spotatui.next()"), ScriptEffect::Next));
}

#[test]
fn action_previous_queues_previous() {
    assert!(matches!(run_action("spotatui.previous()"), ScriptEffect::Previous));
}

#[test]
fn action_seek_queues_seek() {
    match run_action("spotatui.seek(12345)") {
        ScriptEffect::Seek(ms) => assert_eq!(ms, 12345),
        other => panic!("unexpected effect: {:?}", std::mem::discriminant(&other)),
    }
}

#[test]
fn action_set_volume_clamps_above_100() {
    match run_action("spotatui.set_volume(250)") {
        ScriptEffect::SetVolume(v) => assert_eq!(v, 100),
        other => panic!("unexpected effect: {:?}", std::mem::discriminant(&other)),
    }
    match run_action("spotatui.set_volume(-10)") {
        ScriptEffect::SetVolume(v) => assert_eq!(v, 0),
        other => panic!("unexpected effect: {:?}", std::mem::discriminant(&other)),
    }
}

#[test]
fn action_shuffle_queues_set_shuffle() {
    match run_action("spotatui.shuffle(true)") {
        ScriptEffect::SetShuffle(on) => assert!(on),
        other => panic!("unexpected effect: {:?}", std::mem::discriminant(&other)),
    }
    match run_action("spotatui.shuffle(false)") {
        ScriptEffect::SetShuffle(on) => assert!(!on),
        other => panic!("unexpected effect: {:?}", std::mem::discriminant(&other)),
    }
}

#[test]
fn action_search_queues_search_effect() {
    match run_action(r#"spotatui.search("daft punk")"#) {
        ScriptEffect::Search(q) => assert_eq!(q, "daft punk"),
        _ => panic!("expected a Search effect"),
    }
}

#[test]
fn action_notify_default_ttl_is_4() {
    match run_action(r#"spotatui.notify("hi")"#) {
        ScriptEffect::Notify(m, ttl) => {
            assert_eq!(m, "hi");
            assert_eq!(ttl, 4);
        }
        _ => panic!("expected a Notify effect"),
    }
}

// --- the table and its functions ---

fn notified(engine: &mut ScriptEngine, src: &str) -> String {
    engine.load_source("probe", src).unwrap();
    match one(engine) {
        ScriptEffect::Notify(m, _) => m,
        _ => panic!("expected a Notify effect"),
    }
}

#[test]
fn table_holds_version_and_functions() {
    let mut engine = ScriptEngine::new().unwrap();
    let text = notified(
        &mut engine,
        r#"
        local names = {}
        for name, value in pairs(spotatui) do
          table.insert(names, name .. ":" .. type(value))
        end
        table.sort(names)
        spotatui.notify(table.concat(names, " "))
      "#,
    );
    assert_eq!(
        text,
        "api_version:number current_track:function devices:function log:function next:function \
         notify:function on:function pause:function play:function playback:function \
         previous:function search:function seek:function set_volume:function shuffle:function"
    );
    assert_eq!(notified(&mut engine, "spotatui.notify(tostring(spotatui.api_version))"), "1");
}

#[test]
fn volume_within_range_is_kept() {
    assert!(matches!(run_action("spotatui.set_volume(0)"), ScriptEffect::SetVolume(0)));
    assert!(matches!(run_action("spotatui.set_volume(37)"), ScriptEffect::SetVolume(37)));
    assert!(matches!(run_action("spotatui.set_volume(100)"), ScriptEffect::SetVolume(100)));
    assert!(matches!(
        run_action("spotatui.set_volume(math.mininteger)"),
        ScriptEffect::SetVolume(0)
    ));
}

#[test]
fn notify_keeps_a_given_ttl() {
    match run_action(r#"spotatui.notify("hi", 9)"#) {
        ScriptEffect::Notify(m, ttl) => {
            assert_eq!(m, "hi");
            assert_eq!(ttl, 9);
        }
        _ => panic!("expected a Notify effect"),
    }
}

#[test]
fn arguments_that_do_not_fit_are_errors() {
    for src in [
        "spotatui.seek(-1)",
        "spotatui.seek(4294967296)",
        "spotatui.seek({})",
        "spotatui.set_volume('loud')",
        "spotatui.search({})",
        "spotatui.notify()",
        "spotatui.notify('x', -1)",
        "spotatui.log({})",
        "spotatui.on('start')",
    ] {
        match spotatui::harness::run_action(src) {
            Err(ActionError::Failed(e)) => assert!(!e.message.is_empty()),
            other => panic!("{src}: {other:?}"),
        }
    }
}

#[test]
fn run_action_tells_the_number_of_effects() {
    assert!(matches!(
        spotatui::harness::run_action("spotatui.play() spotatui.pause()"),
        Err(ActionError::EffectCount(2))
    ));
    assert!(matches!(spotatui::harness::run_action(""), Err(ActionError::EffectCount(0))));
    match spotatui::harness::run_action("error('boom')") {
        Err(ActionError::Failed(e)) => assert!(e.message.contains("boom")),
        other => panic!("{other:?}"),
    }
}

#[test]
fn effects_come_in_call_order_and_earlier_ones_stay() {
    let mut engine = ScriptEngine::new().unwrap();
    engine.queue(ScriptEffect::Next);
    engine
        .load_source("a", "spotatui.play() spotatui.seek(1) spotatui.set_volume(101)")
        .unwrap();
    assert!(engine.load_source("b", "spotatui.shuffle(true) error('late')").is_err());
    let effects = drain(&mut engine);
    assert_eq!(effects.len(), 5);
    assert!(matches!(effects[0], ScriptEffect::Next));
    assert!(matches!(effects[1], ScriptEffect::Play));
    assert!(matches!(effects[2], ScriptEffect::Seek(1)));
    assert!(matches!(effects[3], ScriptEffect::SetVolume(100)));
    assert!(matches!(effects[4], ScriptEffect::SetShuffle(true)));
    assert!(drain(&mut engine).is_empty());
}

#[test]
fn unknown_event_message_lists_the_valid_ones() {
    let mut engine = ScriptEngine::new().unwrap();
    let error = engine
        .load_source("test", r#"spotatui.on("bogus_event", function() end)"#)
        .unwrap_err();
    assert!(error.message.contains(
        "spotatui.on: unknown event 'bogus_event'; valid events: start, track_change, \
         playback_state_change, seek, volume_change, queue_change"
    ));
}

#[test]
fn a_refused_subscription_can_be_caught() {
    let mut engine = ScriptEngine::new().unwrap();
    let text = notified(
        &mut engine,
        r#"
        local ok = pcall(spotatui.on, "bogus_event", function() spotatui.pause() end)
        spotatui.notify(tostring(ok))
      "#,
    );
    assert_eq!(text, "false");
    engine.emit(ScriptEvent::Start).unwrap();
    assert!(drain(&mut engine).is_empty());
}

#[test]
fn handlers_run_in_order_for_their_event_only() {
    let mut engine = ScriptEngine::new().unwrap();
    engine
        .load_source(
            "a",
            r#"
        spotatui.on("seek", function() spotatui.notify("a1") end)
        spotatui.on("start", function() spotatui.notify("a2") end)
      "#,
        )
        .unwrap();
    engine.load_source("b", r#"spotatui.on("seek", function() spotatui.notify("b1") end)"#).unwrap();
    engine.emit(ScriptEvent::Seek).unwrap();
    let effects = drain(&mut engine);
    assert_eq!(effects.len(), 2);
    assert!(matches!(&effects[0], ScriptEffect::Notify(m, 4) if m == "a1"));
    assert!(matches!(&effects[1], ScriptEffect::Notify(m, 4) if m == "b1"));
}

#[test]
fn a_handler_registered_by_a_handler_waits_for_the_next_event() {
    let mut engine = ScriptEngine::new().unwrap();
    engine
        .load_source(
            "a",
            r#"
        spotatui.on("start", function()
          spotatui.on("start", function() spotatui.next() end)
          error("once")
        end)
      "#,
        )
        .unwrap();
    engine.emit(ScriptEvent::Start).unwrap();
    let first = drain(&mut engine);
    assert_eq!(first.len(), 1);
    match &first[0] {
        ScriptEffect::NotifyError(m, 6) => assert!(m.starts_with("a: error in on_start: ")),
        _ => panic!("expected error notify"),
    }
    engine.emit(ScriptEvent::Start).unwrap();
    assert!(matches!(one(&mut engine), ScriptEffect::Next));
}

#[test]
fn handler_without_playback_gets_nil() {
    let mut engine = ScriptEngine::new().unwrap();
    engine
        .load_source(
            "a",
            r#"spotatui.on("start", function(pb) spotatui.notify(type(pb)) end)"#,
        )
        .unwrap();
    engine.emit(ScriptEvent::Start).unwrap();
    assert!(matches!(one(&mut engine), ScriptEffect::Notify(m, 4) if m == "nil"));
}

#[test]
fn reads_without_playback_are_nil() {
    let mut engine = ScriptEngine::new().unwrap();
    let text = notified(
        &mut engine,
        r#"
        local pb, track = spotatui.playback(), spotatui.current_track()
        spotatui.notify(type(pb) .. " " .. type(track) .. " " .. #spotatui.devices())
      "#,
    );
    assert_eq!(text, "nil nil 0");
}

#[test]
fn reads_show_every_field() {
    let mut engine = ScriptEngine::new().unwrap();
    let mut state = playback(Some(track("uri:1", "Song A")), true, 1234);
    state.device = Some(DeviceInfo {
        id: None,
        name: "Kitchen".to_string(),
        is_active: true,
        volume_percent: Some(70),
    });
    engine.set_playback(Some(state));
    engine.set_devices(vec![
        DeviceInfo {
            id: Some("one".to_string()),
            name: "Desk".to_string(),
            is_active: false,
            volume_percent: None,
        },
        DeviceInfo {
            id: Some("two".to_string()),
            name: "Kitchen".to_string(),
            is_active: true,
            volume_percent: Some(70),
        },
    ]);
    let text = notified(
        &mut engine,
        r#"
        local pb = spotatui.playback()
        local t = pb.track
        local d = spotatui.devices()
        spotatui.notify(table.concat({
          t.uri, t.name, #t.artists, t.artists[1], t.album, t.duration_ms,
          tostring(pb.is_playing), pb.progress_ms, tostring(pb.shuffle), pb.repeat_ or pb["repeat"],
          pb.volume_percent, pb.device.name, type(pb.device.id), pb.device.volume_percent,
          #d, d[1].id, d[1].name, tostring(d[1].is_active), type(d[1].volume_percent),
          d[2].id, tostring(d[2].is_active), d[2].volume_percent,
          spotatui.current_track().name,
        }, " "))
      "#,
    );
    assert_eq!(
        text,
        "uri:1 Song A 1 Artist Album 200000 true 1234 false off 50 Kitchen userdata 70 \
         2 one Desk false userdata two true 70 Song A"
    );
}

#[test]
fn an_absent_track_is_a_placeholder_in_the_snapshot() {
    let mut engine = ScriptEngine::new().unwrap();
    engine.set_playback(Some(playback(None, false, 0)));
    let text = notified(
        &mut engine,
        r#"spotatui.notify(type(spotatui.playback().track) .. " " .. type(spotatui.current_track()))"#,
    );
    assert_eq!(text, "userdata nil");
}

#[test]
fn actions_return_nothing() {
    let mut engine = ScriptEngine::new().unwrap();
    let text = notified(
        &mut engine,
        "spotatui.notify(select('#', spotatui.log('x')) .. ' ' .. select('#', spotatui.playback()))",
    );
    assert_eq!(text, "0 1");
}

#[test]
fn logged_lines_are_marked_and_kept_in_order() {
    let mut engine = ScriptEngine::new().unwrap();
    engine.load_source("a", "spotatui.log('one') spotatui.log('two')").unwrap();
    assert_eq!(engine.take_log(), vec!["[lua] one".to_string(), "[lua] two".to_string()]);
    assert!(engine.take_log().is_empty());
    assert!(drain(&mut engine).is_empty());
}

#[test]
fn reads_and_calls_leave_the_snapshot_alone() {
    let mut engine = ScriptEngine::new().unwrap();
    engine.set_playback(Some(playback(Some(track("uri:1", "Song A")), true, 0)));
    let text = notified(
        &mut engine,
        r#"
        local pb = spotatui.playback()
        pb.track.name = "changed"
        spotatui.notify(spotatui.playback().track.name)
      "#,
    );
    assert_eq!(text, "Song A");
}

#[test]
fn arguments_are_converted_as_lua_does() {
    assert!(matches!(run_action("spotatui.seek('12')"), ScriptEffect::Seek(12)));
    assert!(matches!(run_action("spotatui.seek(7.9, 'ignored')"), ScriptEffect::Seek(7)));
    assert!(matches!(run_action("spotatui.set_volume('55')"), ScriptEffect::SetVolume(55)));
    assert!(matches!(run_action("spotatui.search(5)"), ScriptEffect::Search(q) if q == "5"));
    assert!(matches!(run_action("spotatui.shuffle()"), ScriptEffect::SetShuffle(false)));
    assert!(matches!(run_action("spotatui.shuffle(0)"), ScriptEffect::SetShuffle(true)));
    assert!(matches!(run_action("spotatui.notify('x', nil)"), ScriptEffect::Notify(_, 4)));
    assert!(matches!(run_action("spotatui.play('ignored')"), ScriptEffect::Play));
    assert!(matches!(run_action("spotatui.seek(4294967295)"), ScriptEffect::Seek(u32::MAX)));
}

#[test]
fn the_position_of_a_bad_argument_is_told() {
    match spotatui::harness::run_action("spotatui.notify('x', {})") {
        Err(ActionError::Failed(e)) => assert!(e.message.contains("bad argument #2")),
        other => panic!("{other:?}"),
    }
}

#[test]
fn a_function_that_raises_an_error_does_nothing() {
    let mut engine = ScriptEngine::new().unwrap();
    engine
        .load_source(
            "a",
            r#"
        pcall(spotatui.seek, {})
        pcall(spotatui.log, {})
        pcall(spotatui.on, "start", 1)
        pcall(spotatui.on, "bogus", function() end)
      "#,
        )
        .unwrap();
    assert!(drain(&mut engine).is_empty());
    assert!(engine.take_log().is_empty());
    engine.emit(ScriptEvent::Start).unwrap();
    assert!(drain(&mut engine).is_empty());
}

#[test]
fn an_event_without_handlers_does_nothing() {
    let mut engine = ScriptEngine::new().unwrap();
    engine.load_source("a", "spotatui.on('seek', function() spotatui.play() end)").unwrap();
    engine.emit(ScriptEvent::QueueChange).unwrap();
    assert!(drain(&mut engine).is_empty());
    engine.emit(ScriptEvent::Seek).unwrap();
    assert!(matches!(spotatui::harness::one(&mut engine), ScriptEffect::Play));
}

#[test]
fn each_lost_handler_is_announced_under_its_plugin() {
    let mut engine = ScriptEngine::new().unwrap();
    let source = "spotatui.on('start', function() error('boom') end)";
    engine.load_source("one", source).unwrap();
    engine.load_source("two", source).unwrap();
    engine.emit(ScriptEvent::Start).unwrap();
    let effects = drain(&mut engine);
    assert_eq!(effects.len(), 2);
    for (effect, plugin) in effects.iter().zip(["one", "two"]) {
        match effect {
            ScriptEffect::NotifyError(m, 6) => {
                assert!(m.starts_with(&format!("{plugin}: error in on_start: ")));
                assert!(m.contains("boom"));
            }
            other => panic!("{other:?}"),
        }
    }
    engine.emit(ScriptEvent::Start).unwrap();
    assert!(drain(&mut engine).is_empty());
}

#[test]
fn finalizers_can_call_script_functions() {
    let mut engine = ScriptEngine::new().unwrap();
    engine
        .load_source(
            "a",
            r#"
        setmetatable({}, { __gc = function() spotatui.play() end })
        collectgarbage()
        kept = setmetatable({}, { __gc = function() spotatui.pause() end })
      "#,
        )
        .unwrap();
    assert!(matches!(one(&mut engine), ScriptEffect::Play));
    drop(engine);
}

#[test]
fn a_script_keeps_what_it_took_from_the_table() {
    let mut engine = ScriptEngine::new().unwrap();
    engine.load_source("a", "local play = spotatui.play; spotatui = nil; play()").unwrap();
    assert!(matches!(one(&mut engine), ScriptEffect::Play));
    assert!(engine.load_source("b", "spotatui.play()").is_err());
}

#[test]
fn handlers_do_not_use_up_references() {
    let mut engine = ScriptEngine::new().unwrap();
    engine
        .load_source(
            "a",
            r#"
        local function nothing() end
        for i = 1, 1100000 do spotatui.on("seek", nothing) end
        spotatui.play()
      "#,
        )
        .unwrap();
    assert!(matches!(one(&mut engine), ScriptEffect::Play));
}

#[test]
fn long_lists_do_not_use_up_references() {
    let mut engine = ScriptEngine::new().unwrap();
    let mut song = track("uri:1", "Song A");
    song.artists = vec![String::new(); 1_100_000];
    engine.set_playback(Some(playback(Some(song), true, 0)));
    let text = notified(&mut engine, "spotatui.notify(tostring(#spotatui.current_track().artists))");
    assert_eq!(text, "1100000");
}

#[test]
fn many_arguments_do_not_use_up_references() {
    let mut engine = ScriptEngine::new().unwrap();
    engine
        .load_source(
            "a",
            r#"
        local texts = {}
        for i = 1, 600000 do texts[i] = "t" .. i end
        spotatui.log(table.unpack(texts))
      "#,
        )
        .unwrap();
    assert_eq!(engine.take_log(), vec!["[lua] t1".to_string()]);
}

#[test]
fn a_repeated_action_queues_its_effect_each_time() {
    let mut engine = ScriptEngine::new().unwrap();
    engine.load_source("a", "for i = 1, 5 do spotatui.next() end").unwrap();
    let effects = drain(&mut engine);
    assert_eq!(effects.len(), 5);
    assert!(effects.iter().all(|effect| matches!(effect, ScriptEffect::Next)));
}

#[test]
fn a_number_out_of_range_is_told_by_its_type() {
    match spotatui::harness::run_action("spotatui.seek(-1.0)") {
        Err(ActionError::Failed(e)) => {
            assert!(e.message.contains("bad argument #1"));
            assert!(e.message.contains("error converting Lua integer to u32 (out of range)"));
        }
        other => panic!("{other:?}"),
    }
}

#[test]
fn many_failing_handlers_are_all_removed() {
    let mut engine = ScriptEngine::new().unwrap();
    engine
        .load_source(
            "a",
            r#"
        for i = 1, 200 do
          spotatui.on("start", function() error("boom " .. i) end)
          spotatui.on("seek", function() spotatui.pause() end)
        end
        spotatui.on("start", function() spotatui.play() end)
      "#,
        )
        .unwrap();
    engine.emit(ScriptEvent::Start).unwrap();
    let effects = drain(&mut engine);
    assert_eq!(effects.len(), 201);
    for (i, effect) in effects[..200].iter().enumerate() {
        let expected = format!("boom {}", i + 1);
        assert!(matches!(effect, ScriptEffect::NotifyError(m, 6) if m.contains(&expected)));
    }
    assert!(matches!(effects[200], ScriptEffect::Play));
    engine.emit(ScriptEvent::Start).unwrap();
    assert!(matches!(one(&mut engine), ScriptEffect::Play));
    engine.emit(ScriptEvent::Seek).unwrap();
    assert_eq!(drain(&mut engine).len(), 200);
}

#[test]
fn finalizers_are_heard_when_garbage_is_collected() {
    let mut engine = ScriptEngine::new().unwrap();
    engine
        .load_source(
            "a",
            r#"
        collectgarbage("stop")
        setmetatable({}, { __gc = function() spotatui.log("bye") spotatui.play() end })
      "#,
        )
        .unwrap();
    assert!(engine.take_log().is_empty());
    engine.collect_garbage().unwrap();
    assert_eq!(engine.take_log(), vec!["[lua] bye".to_string()]);
    assert!(matches!(one(&mut engine), ScriptEffect::Play));
}
