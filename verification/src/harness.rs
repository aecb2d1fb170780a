//! Helpers for trying out plugins: sample data, and running a piece of script.

use crate::effects::{effects_of, EffectView, ScriptEffect};
use crate::engine::{source_loaded, ScriptEngine, ScriptError};
use crate::interpreter::{error_text, keeping, out_of_resources};
use crate::plugin_api::{track_of, PlaybackState, PlaybackView, TrackInfo, TrackView};
use crate::shared::{fresh_shared, SharedView};
use mlua::Error;
use vstd::prelude::*;

verus! {

/// A sample track with the given URI and name.
pub fn track(uri: &str, name: &str) -> (track: TrackInfo)
    ensures
        track@ == (TrackView {
            uri: Some(uri@),
            name: name@,
            artists: seq!["Artist"@],
            album: "Album"@,
            duration_ms: 200_000,
        }),
{
    let track = TrackInfo {
        uri: Some(uri.to_owned()),
        name: name.to_owned(),
        artists: vec!["Artist".to_owned()],
        album: "Album".to_owned(),
        duration_ms: 200_000,
    };
    assert(track@.artists =~= seq!["Artist"@]);
    track
}

/// A sample playback snapshot: repeat and shuffling off, half volume, no device.
pub fn playback(track: Option<TrackInfo>, is_playing: bool, progress_ms: u64) -> (playback:
    PlaybackState)
    ensures
        playback@ == (PlaybackView {
            track: track_of(track),
            is_playing,
            progress_ms,
            shuffle: false,
            repeat: "off"@,
            volume_percent: Some(50),
            device: None,
        }),
{
    PlaybackState {
        track,
        is_playing,
        progress_ms,
        shuffle: false,
        repeat: "off".to_owned(),
        volume_percent: Some(50),
        device: None,
    }
}

/// Takes all queued effects out of an engine, in the order in which they were queued.
pub fn drain(engine: &mut ScriptEngine) -> (effects: Vec<ScriptEffect>)
    requires
        old(engine).well_formed(),
    ensures
        effects_of(effects@) == old(engine)@.effects,
        final(engine)@ == (SharedView { effects: Seq::empty(), ..old(engine)@ }),
        final(engine).interpreter() == keeping(
            old(engine).interpreter(),
            Some(final(engine)@.store()),
        ),
        final(engine).well_formed(),
{
    engine.take_effects()
}

/// Takes the only queued effect out of an engine.
///
/// Where there is none or more than one, the queue is emptied all the same, and the number of
/// effects that were in it comes back.
pub fn sole_effect(engine: &mut ScriptEngine) -> (effect: Result<ScriptEffect, usize>)
    requires
        old(engine).well_formed(),
    ensures
        match effect {
            Ok(e) => old(engine)@.effects == seq![e@],
            Err(count) => old(engine)@.effects.len() == count && count != 1,
        },
        final(engine)@ == (SharedView { effects: Seq::empty(), ..old(engine)@ }),
        final(engine).interpreter() == keeping(
            old(engine).interpreter(),
            Some(final(engine)@.store()),
        ),
        final(engine).well_formed(),
{
    let mut effects = drain(engine);
    assert(effects_of(effects@).len() == effects@.len());
    if effects.len() == 1 {
        let effect = effects.remove(0);
        assert(old(engine)@.effects =~= seq![effect@]);
        Ok(effect)
    } else {
        Err(effects.len())
    }
}

/// Takes the queued effect out of an engine that holds exactly one.
pub fn one(engine: &mut ScriptEngine) -> (effect: ScriptEffect)
    requires
        old(engine).well_formed(),
        old(engine)@.effects.len() == 1,
    ensures
        old(engine)@.effects == seq![effect@],
        final(engine)@ == (SharedView { effects: Seq::empty(), ..old(engine)@ }),
        final(engine).interpreter() == keeping(
            old(engine).interpreter(),
            Some(final(engine)@.store()),
        ),
        final(engine).well_formed(),
{
    let mut effects = drain(engine);
    assert(effects_of(effects@).len() == effects@.len());
    let effect = effects.remove(0);
    assert(old(engine)@.effects =~= seq![effect@]);
    effect
}

/// Why running a piece of script gave no effect.
#[derive(Debug)]
pub enum ActionError {
    /// There was no engine to run it on.
    NoEngine(ScriptError),
    /// The script failed.
    Failed(ScriptError),
    /// The script queued this many effects in place of one.
    EffectCount(usize),
}

/// Whether running a source as the plugin `test` on a new engine left the given effects queued,
/// with the given outcome.
pub open spec fn effects_left(
    source: Seq<char>,
    effects: Seq<EffectView>,
    outcome: Result<(), ScriptError>,
) -> bool {
    exists|fresh: ScriptEngine, after: ScriptEngine|
        {
            &&& #[trigger] source_loaded(
                fresh.interpreter(),
                "test"@,
                source,
                after.interpreter(),
                outcome,
            )
            &&& fresh@ == fresh_shared()
            &&& fresh.offers_api()
            &&& after@.effects == effects
        }
}

/// Whether running a source on a new engine failed with the given error.
pub open spec fn source_failed(source: Seq<char>, error: ScriptError) -> bool {
    exists|effects: Seq<EffectView>| #[trigger] effects_left(source, effects, Err(error))
}

/// Whether running a source on a new engine succeeded and left so many effects queued.
pub open spec fn effect_count_left(source: Seq<char>, count: nat) -> bool {
    exists|effects: Seq<EffectView>| #[trigger]
        effects_left(source, effects, Ok(())) && effects.len() == count
}

/// Runs a piece of script on a new engine and gives back the one effect that it queues.
pub fn run_action(source: &str) -> (effect: Result<ScriptEffect, ActionError>)
    ensures
        effect matches Ok(e) ==> effects_left(source@, seq![e@], Ok(())),
        effect matches Err(ActionError::NoEngine(error)) ==> exists|cause: Error|
            #[trigger] out_of_resources(cause) && error.message@ == error_text(cause),
        effect matches Err(ActionError::Failed(error)) ==> source_failed(source@, error),
        effect matches Err(ActionError::EffectCount(count)) ==> count != 1 && effect_count_left(
            source@,
            count as nat,
        ),
{
    let mut engine = match ScriptEngine::new() {
        Ok(engine) => engine,
        Err(error) => return Err(ActionError::NoEngine(error)),
    };
    let ghost fresh = engine;
    let outcome = engine.load_source("test", source);
    let ghost after = engine;
    assert(source_loaded(fresh.interpreter(), "test"@, source@, after.interpreter(), outcome));
    assert(effects_left(source@, after@.effects, outcome));
    assert(outcome matches Ok(unit) ==> unit == ());
    assert(outcome is Ok ==> effects_left(source@, after@.effects, Ok(())));
    match outcome {
        Ok(_) => match sole_effect(&mut engine) {
            Ok(effect) => Ok(effect),
            Err(count) => Err(ActionError::EffectCount(count)),
        },
        Err(error) => {
            assert(effects_left(source@, after@.effects, Err(error)));
            assert(source_failed(source@, error));
            Err(ActionError::Failed(error))
        },
    }
}

/// The effects that are said to be left by a source are those that running it, as the plugin `test`
/// and on an engine that is new, leaves in the queue.
pub proof fn left_effects_are_those_of_the_source(
    source: Seq<char>,
    effects: Seq<EffectView>,
    outcome: Result<(), ScriptError>,
) -> (engines: (ScriptEngine, ScriptEngine))
    requires
        effects_left(source, effects, outcome),
    ensures
        engines.0@ == fresh_shared(),
        engines.0.offers_api(),
        source_loaded(
            engines.0.interpreter(),
            "test"@,
            source,
            engines.1.interpreter(),
            outcome,
        ),
        engines.1@.effects == effects,
{
    choose|fresh: ScriptEngine, after: ScriptEngine|
        {
            &&& #[trigger] source_loaded(
                fresh.interpreter(),
                "test"@,
                source,
                after.interpreter(),
                outcome,
            )
            &&& fresh@ == fresh_shared()
            &&& fresh.offers_api()
            &&& after@.effects == effects
        }
}

/// A source is said to have failed, or to have left so many effects, only where running it did
/// that.
pub proof fn failures_and_counts_are_those_of_the_source(
    source: Seq<char>,
    error: ScriptError,
    count: nat,
) -> (effects: (Seq<EffectView>, Seq<EffectView>))
    ensures
        source_failed(source, error) ==> effects_left(source, effects.0, Err(error)),
        effect_count_left(source, count) ==> effects_left(source, effects.1, Ok(()))
            && effects.1.len() == count,
{
    let failed = choose|effects: Seq<EffectView>| #[trigger]
        effects_left(source, effects, Err(error));
    let counted = choose|effects: Seq<EffectView>| #[trigger]
        effects_left(source, effects, Ok(())) && effects.len() == count;
    (failed, counted)
}

} // verus!
