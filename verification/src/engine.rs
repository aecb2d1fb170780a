//! The engine that loads plugins and runs their handlers.

use crate::api::{install_api, is_api_table, query_api};
use crate::app::App;
use crate::effects::{after_effects, apply_effects, effects_of, EffectView, ScriptEffect};
use crate::events::ScriptEvent;
use crate::handlers::{
    count_handlers, create_handlers, handler_callback, handler_event, handler_plugin,
    remove_handler,
};
use crate::interpreter::{
    call_function, collect, engine_room, error_message, error_text, finalized, function_called,
    garbage_collected, global_in, globals_kept, group_undisturbed, handlers_in, is_scalar, keeping,
    new_interpreter, only_script_calls, out_of_resources, put_shared, release_value, room,
    run_source, script_calls_in_steps, script_state, settled, settled_by_script_calls,
    settled_in_steps, source_ran, take_shared, undisturbed, undisturbed_by_nothing,
    undisturbed_by_script_calls, undisturbed_states_only_grow, ScalarView,
};
use crate::plugin_api::{
    devices_of, playback_of, text_of, texts_of, DeviceInfo, PlaybackState, PlaybackView,
};
use crate::shared::{
    after_failure, calls_only_append, errors_after_push, errors_in, fresh_shared, reached_by_calls,
    reached_from_itself, reached_in_steps, reply_to, scripts_queue_no_errors, HandlerView, Query,
    ScriptShared, SharedView, StoreView,
};
use crate::values::{shows_playback, shows_reply};
use mlua::{Error, Lua, Value};
use vstd::prelude::*;

verus! {

broadcast use group_undisturbed;

/// Why a plugin could not be loaded, an event not be emitted, or an interpreter not be made.
#[derive(Debug)]
pub struct ScriptError {
    pub message: String,
}

/// The interpreter, which keeps the state that it shares with the player.
pub struct ScriptEngine {
    lua: Lua,
}

impl View for ScriptEngine {
    type V = SharedView;

    closed spec fn view(&self) -> SharedView {
        script_state(self.lua)->0
    }
}

/// What the engine reports of what the interpreter said.
pub open spec fn reports(outcome: Result<(), ScriptError>, ran: Result<(), Error>) -> bool {
    match ran {
        Ok(_) => outcome is Ok,
        Err(error) => outcome matches Err(e) && e.message@ == error_text(error),
    }
}

fn report(ran: Result<(), Error>) -> (outcome: Result<(), ScriptError>)
    ensures
        reports(outcome, ran),
{
    match &ran {
        Ok(_) => Ok(()),
        Err(error) => Err(ScriptError { message: error_message(error) }),
    }
}

impl ScriptEngine {
    /// The interpreter.
    pub closed spec fn interpreter(self) -> Lua {
        self.lua
    }

    /// Whether the interpreter keeps the shared state and a list of handlers, and has room for the
    /// references that the engine needs.
    pub open spec fn well_formed(self) -> bool {
        script_state(self.interpreter()) == Some(self@) && room(self.interpreter()) >= engine_room()
    }

    /// Whether scripts find the complete `spotatui` table.
    pub closed spec fn offers_api(self) -> bool {
        is_api_table(global_in(self.lua, "spotatui"@))
    }

    /// An engine with no plugin loaded. It fails only where Lua is out of memory or of
    /// stack space.
    pub fn new() -> (engine: Result<ScriptEngine, ScriptError>)
        ensures
            match engine {
                Ok(e) => e@ == fresh_shared() && e.offers_api() && e.well_formed(),
                Err(e) => exists|cause: Error|
                    #[trigger] out_of_resources(cause) && e.message@ == error_text(cause),
            },
    {
        let mut lua = new_interpreter();
        if let Err(error) = create_handlers(&mut lua) {
            return Err(ScriptError { message: error_message(&error) });
        }
        proof {
            reveal(globals_kept);
        }
        match install_api(&mut lua) {
            Ok(_) => {
                proof {
                    reveal(undisturbed);
                }
                put_shared(&mut lua, ScriptShared::new());
                Ok(ScriptEngine { lua })
            },
            Err(error) => Err(ScriptError { message: error_message(&error) }),
        }
    }

    /// Takes the shared state out of the interpreter.
    fn take_state(&mut self) -> (shared: ScriptShared)
        requires
            old(self).well_formed(),
        ensures
            shared@ == old(self)@.store(),
            final(self).lua == keeping(old(self).lua, None),
            handlers_in(final(self).lua) == Some(old(self)@.handlers),
            room(final(self).lua) >= engine_room(),
    {
        match take_shared(&mut self.lua) {
            Some(shared) => {
                assert(shared@ =~= old(self)@.store());
                shared
            },
            None => ScriptShared::new(),
        }
    }

    /// Puts a shared state into the interpreter that was taken out of it before.
    fn put_state(&mut self, shared: ScriptShared)
        requires
            handlers_in(old(self).lua) is Some,
            room(old(self).lua) >= engine_room(),
        ensures
            final(self).well_formed(),
            final(self)@ == shared@.with_handlers(handlers_in(old(self).lua)->0),
            final(self)@.store() == shared@,
            forall|start: Lua, kept: Option<StoreView>|
                old(self).lua == #[trigger] keeping(start, kept) ==> final(self).lua == keeping(
                    start,
                    Some(shared@),
                ),
    {
        put_shared(&mut self.lua, shared);
        assert(self@.store() =~= shared@);
    }

    /// Gives scripts another playback snapshot to read.
    pub fn set_playback(&mut self, playback: Option<PlaybackState>)
        requires
            old(self).well_formed(),
        ensures
            final(self).well_formed(),
            final(self)@ == (SharedView { playback: playback_of(playback), ..old(self)@ }),
            final(self).interpreter() == keeping(
                old(self).interpreter(),
                Some(final(self)@.store()),
            ),
    {
        let mut shared = self.take_state();
        shared.playback = playback;
        self.put_state(shared);
    }

    /// Gives scripts another list of devices to read.
    pub fn set_devices(&mut self, devices: Vec<DeviceInfo>)
        requires
            old(self).well_formed(),
        ensures
            final(self).well_formed(),
            final(self)@ == (SharedView { devices: devices_of(devices@), ..old(self)@ }),
            final(self).interpreter() == keeping(
                old(self).interpreter(),
                Some(final(self)@.store()),
            ),
    {
        let mut shared = self.take_state();
        shared.devices = devices;
        self.put_state(shared);
    }

    /// Appends an effect to the queue.
    pub fn queue(&mut self, effect: ScriptEffect)
        requires
            old(self).well_formed(),
        ensures
            final(self).well_formed(),
            final(self)@ == (SharedView { effects: old(self)@.effects.push(effect@), ..old(self)@ }),
            final(self).interpreter() == keeping(
                old(self).interpreter(),
                Some(final(self)@.store()),
            ),
    {
        let mut shared = self.take_state();
        shared.queue(effect);
        self.put_state(shared);
    }

    /// Takes all queued effects out of the queue, in the order in which they were queued.
    pub fn take_effects(&mut self) -> (effects: Vec<ScriptEffect>)
        requires
            old(self).well_formed(),
        ensures
            final(self).well_formed(),
            effects_of(effects@) == old(self)@.effects,
            final(self)@ == (SharedView { effects: Seq::empty(), ..old(self)@ }),
            final(self).interpreter() == keeping(
                old(self).interpreter(),
                Some(final(self)@.store()),
            ),
    {
        let mut shared = self.take_state();
        let effects = shared.take_effects();
        self.put_state(shared);
        effects
    }

    /// Takes all lines that scripts logged, in the order in which they were logged.
    pub fn take_log(&mut self) -> (lines: Vec<String>)
        requires
            old(self).well_formed(),
        ensures
            final(self).well_formed(),
            texts_of(lines@) == old(self)@.log,
            final(self)@ == (SharedView { log: Seq::empty(), ..old(self)@ }),
            final(self).interpreter() == keeping(
                old(self).interpreter(),
                Some(final(self)@.store()),
            ),
    {
        let mut shared = self.take_state();
        let lines = shared.take_log();
        self.put_state(shared);
        lines
    }

    /// Loads a plugin: runs its source, with what it registers going under its name.
    ///
    /// Whatever the source does, it reaches the shared state and the handlers through script calls
    /// only, also where it fails.
    pub fn load_source(&mut self, name: &str, source: &str) -> (outcome: Result<(), ScriptError>)
        requires
            old(self).well_formed(),
        ensures
            source_loaded(
                old(self).interpreter(),
                name@,
                source@,
                final(self).interpreter(),
                outcome,
            ),
            reached_by_calls(SharedView { current_plugin: name@, ..old(self)@ }, final(self)@),
            final(self).well_formed(),
    {
        let mut shared = self.take_state();
        shared.current_plugin = name.to_owned();
        self.put_state(shared);
        assert(self.lua == named(old(self).lua, name@));
        let ran = run_source(&mut self.lua, name, source);
        proof {
            reveal(only_script_calls);
            assert(source_ran(named(old(self).lua, name@), name@, source@, self.lua, ran));
        }
        report(ran)
    }

    /// Collects garbage, so that the finalizers of what scripts no longer use run while what they
    /// queue and log is still heard.
    pub fn collect_garbage(&mut self) -> (outcome: Result<(), ScriptError>)
        requires
            old(self).well_formed(),
        ensures
            undisturbed(old(self).interpreter(), final(self).interpreter()),
            final(self).well_formed(),
            match outcome {
                Ok(_) => garbage_collected(old(self).interpreter(), final(self).interpreter()),
                Err(e) => exists|cause: Error|
                    #[trigger] out_of_resources(cause) && e.message@ == error_text(cause),
            },
    {
        let collected = collect(&mut self.lua);
        proof {
            undisturbed_states_only_grow(old(self).lua, self.lua);
        }
        report(collected)
    }

    /// Drains the queued effects into the app.
    pub fn drain_effects(&mut self, app: &mut App)
        requires
            old(self).well_formed(),
        ensures
            final(self).well_formed(),
            final(app)@ == after_effects(old(app)@, old(self)@.effects),
            final(self)@ == (SharedView { effects: Seq::empty(), ..old(self)@ }),
            final(self).interpreter() == keeping(
                old(self).interpreter(),
                Some(final(self)@.store()),
            ),
    {
        let effects = self.take_effects();
        apply_effects(effects, app);
    }
}

/// The interpreter with another name of the current plugin.
pub open spec fn named(lua: Lua, plugin: Seq<char>) -> Lua {
    keeping(lua, Some(StoreView { current_plugin: plugin, ..script_state(lua)->0.store() }))
}

/// Whether running a source as the plugin `name` took an interpreter from one state to another, and
/// the given outcome was reported.
pub open spec fn source_loaded(
    before: Lua,
    name: Seq<char>,
    source: Seq<char>,
    after: Lua,
    outcome: Result<(), ScriptError>,
) -> bool {
    &&& script_state(named(before, name)) == Some(
        SharedView { current_plugin: name, ..script_state(before)->0 },
    )
    &&& exists|ran: Result<(), Error>| #[trigger]
        source_ran(named(before, name), name, source, after, ran) && reports(outcome, ran)
}

/// What a failed call says, if it failed.
pub open spec fn failure_of(outcome: Result<(), Error>) -> Option<Seq<char>> {
    match outcome {
        Ok(_) => None,
        Err(error) => Some(error_text(error)),
    }
}

/// Whether the handler at an index was called once, with the playback snapshot, or with `nil` where
/// there is none. Whatever it does, it reaches the shared state and the handlers through script
/// calls only.
pub open spec fn handler_ran(
    before: Lua,
    index: int,
    after: Lua,
    failure: Option<Seq<char>>,
) -> bool {
    &&& only_script_calls(before, after)
    &&& exists|ready: Lua, argument: Value, outcome: Result<(), Error>|
        {
            &&& #[trigger] function_called(
                ready,
                script_state(before)->0.handlers[index].callback,
                argument,
                after,
                outcome,
            )
            &&& undisturbed(before, ready)
            &&& only_script_calls(ready, after)
            &&& shows_reply(argument, reply_to(script_state(before)->0.store(), Query::Playback))
            &&& failure == failure_of(outcome)
        }
}

/// Whether the handler at an index, which failed, was removed and a message that says so queued.
pub open spec fn handler_struck(before: Lua, index: int, failure: Seq<char>, after: Lua) -> bool {
    &&& finalized(before).is_prefix_of(finalized(after))
    &&& script_state(after) == Some(after_failure(settled(before, after), index, failure))
}

/// Whether the visit of the handler at an index took the interpreter from one state to another.
/// One that is registered for the event is run, and removed where it fails.
pub open spec fn handler_visited(
    before: Lua,
    event: ScriptEvent,
    index: int,
    after: Lua,
    removed: bool,
) -> bool {
    if script_state(before)->0.handlers[index].event != event.label() {
        !removed && undisturbed(before, after)
    } else {
        exists|ready: Lua, left: Lua, failure: Option<Seq<char>>|
            {
                &&& undisturbed(before, ready)
                &&& #[trigger] handler_ran(ready, index, left, failure)
                &&& match failure {
                    Some(text) => removed && handler_struck(left, index, text, after),
                    None => !removed && after == left,
                }
            }
    }
}

/// Whether the visit of the handler at an index was cut short because Lua ran out of resources,
/// possibly after the handler was run and failed.
pub open spec fn visit_failed(
    before: Lua,
    event: ScriptEvent,
    index: int,
    after: Lua,
    error: Error,
) -> bool {
    &&& out_of_resources(error)
    &&& {
        ||| undisturbed(before, after)
        ||| exists|ready: Lua, left: Lua, text: Seq<char>|
            {
                &&& script_state(before)->0.handlers[index].event == event.label()
                &&& undisturbed(before, ready)
                &&& #[trigger] handler_ran(ready, index, left, Some(text))
                &&& undisturbed(left, after)
            }
    }
}

/// Whether visiting the handlers at `index` and behind it, up to the first `count`, one after the
/// other, took the interpreter from one state to another.
pub open spec fn handlers_visited(
    before: Lua,
    event: ScriptEvent,
    index: int,
    count: int,
    after: Lua,
    outcome: Result<(), Error>,
) -> bool
    decreases count - index,
{
    if index >= count {
        after == before && outcome is Ok
    } else {
        ||| outcome matches Err(error) && visit_failed(before, event, index, after, error)
        ||| exists|next: Lua, removed: bool|
            {
                &&& #[trigger] handler_visited(before, event, index, next, removed)
                &&& if removed {
                    handlers_visited(next, event, index, count - 1, after, outcome)
                } else {
                    handlers_visited(next, event, index + 1, count, after, outcome)
                }
            }
    }
}

/// Whether all handlers that are registered at the start were visited.
pub open spec fn all_visited(
    before: Lua,
    event: ScriptEvent,
    after: Lua,
    outcome: Result<(), Error>,
) -> bool {
    ||| outcome matches Err(error) && out_of_resources(error) && undisturbed(before, after)
    ||| exists|counted: Lua|
        {
            &&& #[trigger] undisturbed(before, counted)
            &&& handlers_visited(
                counted,
                event,
                0,
                script_state(counted)->0.handlers.len() as int,
                after,
                outcome,
            )
        }
}

/// Whether emitting an event took an interpreter from one state to another, and the given outcome
/// was reported: all handlers were visited, unless Lua ran out of resources.
pub open spec fn event_emitted(
    before: Lua,
    event: ScriptEvent,
    after: Lua,
    outcome: Result<(), ScriptError>,
) -> bool {
    exists|visited: Result<(), Error>| #[trigger]
        all_visited(before, event, after, visited) && reports(outcome, visited)
}

/// Whether an interpreter keeps a shared state and a list of handlers, and has room for what the
/// engine needs.
spec fn running(lua: Lua) -> bool {
    script_state(lua) is Some && room(lua) >= engine_room()
}

/// Calls the handler at a position, counted from one, with the playback snapshot, and gives back
/// what it says if it fails.
fn run_handler(lua: &mut Lua, position: usize) -> (outcome: Result<Option<String>, Error>)
    requires
        running(*old(lua)),
        1 <= position <= script_state(*old(lua))->0.handlers.len(),
    ensures
        running(*final(lua)),
        match outcome {
            Ok(failure) => handler_ran(*old(lua), position - 1, *final(lua), text_of(failure)),
            Err(e) => out_of_resources(e) && undisturbed(*old(lua), *final(lua)),
        },
{
    broadcast use {undisturbed_by_script_calls, script_calls_in_steps};

    let made = query_api(lua, Query::Playback);
    let ghost asked = *lua;
    proof {
        undisturbed_states_only_grow(*old(lua), asked);
    }
    let argument = made?;
    match handler_callback(lua, position) {
        Ok(callback) => {
            let ghost ready = *lua;
            proof {
                undisturbed_states_only_grow(asked, ready);
            }
            let called = call_function(lua, callback, argument);
            let failure = match &called {
                Ok(_) => None,
                Err(error) => Some(error_message(error)),
            };
            proof {
                assert(undisturbed(*old(lua), ready));
                assert(only_script_calls(*old(lua), *lua));
                grown_by_script_calls(*old(lua), *lua);
                assert(callback == script_state(*old(lua))->0.handlers[position - 1].callback);
                assert(function_called(ready, callback, argument, *lua, called));
                assert(text_of(failure) == failure_of(called));
            }
            Ok(failure)
        },
        Err(error) => {
            release_value(lua, argument);
            proof {
                undisturbed_states_only_grow(*old(lua), *lua);
            }
            Err(error)
        },
    }
}

/// Removes the handler at a position, counted from one, which failed, and queues a message that
/// says so.
fn strike(lua: &mut Lua, position: usize, event: ScriptEvent, failure: &str) -> (outcome: Result<
    (),
    Error,
>)
    requires
        running(*old(lua)),
        1 <= position <= script_state(*old(lua))->0.handlers.len(),
        script_state(*old(lua))->0.handlers[position - 1].event == event.label(),
    ensures
        running(*final(lua)),
        match outcome {
            Ok(_) => handler_struck(*old(lua), position - 1, failure@, *final(lua)),
            Err(e) => out_of_resources(e) && undisturbed(*old(lua), *final(lua)),
        },
{
    let read = handler_plugin(lua, position);
    let ghost named = *lua;
    proof {
        undisturbed_states_only_grow(*old(lua), named);
    }
    let plugin = read?;
    let removed = remove_handler(lua, position);
    let ghost shorter = *lua;
    proof {
        if removed is Err {
            undisturbed_states_only_grow(named, shorter);
        }
        settled_by_script_calls(named, shorter);
        calls_only_append(script_state(named)->0, settled(named, shorter));
    }
    removed?;
    if let Some(mut shared) = take_shared(lua) {
        shared.announce_failure(plugin, event, failure);
        put_shared(lua, shared);
    }
    proof {
        settled_in_steps(*old(lua), named, *lua);
        assert(settled(named, *lua) == settled(named, shorter));
        assert(script_state(*lua)->0 =~= after_failure(
            settled(*old(lua), *lua),
            position - 1,
            failure@,
        ));
    }
    Ok(())
}

/// Visits the handlers in order.
fn visit_handlers(lua: &mut Lua, event: ScriptEvent) -> (outcome: Result<(), Error>)
    requires
        running(*old(lua)),
    ensures
        running(*final(lua)),
        all_visited(*old(lua), event, *final(lua), outcome),
{
    let counted = count_handlers(lua);
    let ghost start = *lua;
    proof {
        undisturbed_states_only_grow(*old(lua), start);
    }
    let mut count: usize = counted?;
    let ghost total = count as int;
    let mut index: usize = 0;
    while index < count
        invariant
            running(*lua),
            index <= count <= script_state(*lua)->0.handlers.len(),
            undisturbed(*old(lua), start),
            total == script_state(start)->0.handlers.len(),
            forall|after: Lua, outcome: Result<(), Error>| #[trigger]
                handlers_visited(*lua, event, index as int, count as int, after, outcome)
                    ==> handlers_visited(start, event, 0, total, after, outcome),
        decreases count - index,
    {
        let ghost before = *lua;
        let ghost at = index as int;
        let ghost limit = count as int;
        let read = handler_event(lua, index + 1);
        let ghost ready = *lua;
        proof {
            undisturbed_states_only_grow(before, ready);
        }
        let name = match read {
            Ok(name) => name,
            Err(error) => {
                assert(visit_failed(before, event, at, ready, error));
                assert(handlers_visited(before, event, at, limit, ready, Err(error)));
                return Err(error);
            },
        };
        let ghost mut removed = false;
        if name == event.name().to_owned() {
            let ran = run_handler(lua, index + 1);
            let ghost left = *lua;
            match ran {
                Ok(None) => {
                    proof {
                        assert(handler_ran(ready, at, left, None));
                        assert(handler_visited(before, event, at, left, false));
                        grown_by_script_calls(ready, left);
                    }
                    index = index + 1;
                },
                Ok(Some(failure)) => {
                    proof {
                        grown_by_script_calls(ready, left);
                    }
                    let struck = strike(lua, index + 1, event, failure.as_str());
                    proof {
                        assert(handler_ran(ready, at, left, Some(failure@)));
                    }
                    match struck {
                        Ok(_) => {
                            proof {
                                assert(handler_visited(before, event, at, *lua, true));
                                settled_by_script_calls(left, *lua);
                                calls_only_append(script_state(left)->0, settled(left, *lua));
                                removed = true;
                            }
                            count = count - 1;
                        },
                        Err(error) => {
                            assert(visit_failed(before, event, at, *lua, error));
                            assert(handlers_visited(before, event, at, limit, *lua, Err(error)));
                            return Err(error);
                        },
                    }
                },
                Err(error) => {
                    assert(visit_failed(before, event, at, *lua, error));
                    assert(handlers_visited(before, event, at, limit, *lua, Err(error)));
                    return Err(error);
                },
            }
        } else {
            assert(handler_visited(before, event, at, *lua, false));
            index = index + 1;
        }
        assert(handler_visited(before, event, at, *lua, removed));
        assert forall|after: Lua, outcome: Result<(), Error>|
            #[trigger] handlers_visited(*lua, event, index as int, count as int, after, outcome)
            implies handlers_visited(start, event, 0, total, after, outcome) by {
            assert(handlers_visited(before, event, at, limit, after, outcome));
        }
    }
    assert(handlers_visited(*lua, event, index as int, count as int, *lua, Ok(())));
    Ok(())
}

/// Script calls keep the state and add to the handlers.
proof fn grown_by_script_calls(before: Lua, after: Lua)
    requires
        only_script_calls(before, after),
        script_state(before) is Some,
    ensures
        script_state(after) is Some,
        reached_by_calls(script_state(before)->0, script_state(after)->0),
        script_state(before)->0.handlers.is_prefix_of(script_state(after)->0.handlers),
{
    reveal(only_script_calls);
    calls_only_append(script_state(before)->0, script_state(after)->0);
}

impl ScriptEngine {
    /// Runs the handlers that were registered for an event, in the order of their registration.
    ///
    /// A handler that fails is removed, and a message that says so is queued. An error says that
    /// Lua ran out of memory or of stack space before all handlers were run.
    pub fn emit(&mut self, event: ScriptEvent) -> (outcome: Result<(), ScriptError>)
        requires
            old(self).well_formed(),
        ensures
            event_emitted(old(self).interpreter(), event, final(self).interpreter(), outcome),
            final(self).well_formed(),
    {
        let visited = visit_handlers(&mut self.lua, event);
        assert(all_visited(old(self).lua, event, self.lua, visited));
        report(visited)
    }
}

/// The handlers that wait for other events, in order.
pub open spec fn handlers_elsewhere(
    handlers: Seq<HandlerView>,
    event: ScriptEvent,
) -> Seq<HandlerView> {
    handlers.filter(|h: HandlerView| h.event != event.label())
}

/// What the visit of a handler does: some row of script calls, and where the handler is removed, a
/// message behind that.
proof fn visit_step(
    before: Lua,
    event: ScriptEvent,
    index: int,
    after: Lua,
    removed: bool,
) -> (middle: (SharedView, Seq<char>))
    requires
        script_state(before) is Some,
        0 <= index < script_state(before)->0.handlers.len(),
        handler_visited(before, event, index, after, removed),
    ensures
        script_state(after) is Some,
        finalized(before).is_prefix_of(finalized(after)),
        reached_by_calls(script_state(before)->0, middle.0),
        removed ==> script_state(before)->0.handlers[index].event == event.label(),
        script_state(after)->0 == if removed {
            after_failure(middle.0, index, middle.1)
        } else {
            middle.0
        },
{
    broadcast use {undisturbed_by_script_calls, script_calls_in_steps};

    let s = script_state(before)->0;
    if s.handlers[index].event != event.label() {
        grown_by_script_calls(before, after);
        reveal(only_script_calls);
        (script_state(after)->0, Seq::empty())
    } else {
        let (ready, left, failure) = choose|ready: Lua, left: Lua, failure: Option<Seq<char>>|
            {
                &&& undisturbed(before, ready)
                &&& #[trigger] handler_ran(ready, index, left, failure)
                &&& match failure {
                    Some(text) => removed && handler_struck(left, index, text, after),
                    None => !removed && after == left,
                }
            };
        assert(only_script_calls(before, left));
        grown_by_script_calls(before, left);
        assert(finalized(before).is_prefix_of(finalized(left))) by {
            reveal(only_script_calls);
        }
        match failure {
            Some(text) => {
                settled_by_script_calls(left, after);
                reached_in_steps(s, script_state(left)->0, settled(left, after));
                (settled(left, after), text)
            },
            None => (script_state(left)->0, Seq::empty()),
        }
    }
}

/// What a visit that is cut short does: some row of script calls.
proof fn visit_cut(before: Lua, event: ScriptEvent, index: int, after: Lua, error: Error)
    requires
        script_state(before) is Some,
        visit_failed(before, event, index, after, error),
    ensures
        script_state(after) is Some,
        finalized(before).is_prefix_of(finalized(after)),
        reached_by_calls(script_state(before)->0, script_state(after)->0),
{
    broadcast use {undisturbed_by_script_calls, script_calls_in_steps};

    if !undisturbed(before, after) {
        let (ready, left, text) = choose|ready: Lua, left: Lua, text: Seq<char>|
            {
                &&& undisturbed(before, ready)
                &&& #[trigger] handler_ran(ready, index, left, Some(text))
                &&& undisturbed(left, after)
            };
        assert(only_script_calls(before, left));
        assert(only_script_calls(left, after));
    }
    assert(only_script_calls(before, after));
    reveal(only_script_calls);
}

/// What emitting an event keeps: the playback snapshot, the devices and the name of the current
/// plugin are the same, no effect and no logged line is taken back, and no handler that waits for
/// another event is removed.
pub open spec fn kept_by_emitting(
    before: SharedView,
    event: ScriptEvent,
    after: SharedView,
) -> bool {
    &&& after.playback == before.playback
    &&& after.devices == before.devices
    &&& after.current_plugin == before.current_plugin
    &&& before.effects.is_prefix_of(after.effects)
    &&& before.log.is_prefix_of(after.log)
    &&& handlers_elsewhere(before.handlers, event).is_prefix_of(
        handlers_elsewhere(after.handlers, event),
    )
}

/// What emitting an event announces: the handlers become fewer by no more than the error messages
/// that are queued. Without one, all handlers are still there.
pub open spec fn announced_by_emitting(before: SharedView, after: SharedView) -> bool {
    &&& errors_in(before.effects).len() <= errors_in(after.effects).len()
    &&& before.handlers.len() + errors_in(before.effects).len() <= after.handlers.len() + errors_in(
        after.effects,
    ).len()
    &&& errors_in(after.effects).len() == errors_in(before.effects).len()
        ==> before.handlers.is_prefix_of(after.handlers)
}

proof fn calls_keep(before: SharedView, event: ScriptEvent, after: SharedView)
    requires
        reached_by_calls(before, after),
    ensures
        kept_by_emitting(before, event, after),
        announced_by_emitting(before, after),
{
    calls_only_append(before, after);
    scripts_queue_no_errors(before, after);
    elsewhere_of_longer(before.handlers, after.handlers, event);
}

proof fn visiting_keeps(
    before: Lua,
    event: ScriptEvent,
    index: int,
    count: int,
    after: Lua,
    outcome: Result<(), Error>,
)
    requires
        script_state(before) is Some,
        0 <= index <= count <= script_state(before)->0.handlers.len(),
        handlers_visited(before, event, index, count, after, outcome),
    ensures
        script_state(after) is Some,
        finalized(before).is_prefix_of(finalized(after)),
        kept_by_emitting(script_state(before)->0, event, script_state(after)->0),
        announced_by_emitting(script_state(before)->0, script_state(after)->0),
    decreases count - index,
{
    let s = script_state(before)->0;
    if index >= count {
        reached_from_itself(s);
        calls_keep(s, event, s);
    } else if outcome matches Err(error) && visit_failed(before, event, index, after, error) {
        visit_cut(before, event, index, after, outcome->Err_0);
        calls_keep(s, event, script_state(after)->0);
    } else {
        let (next, removed) = choose|next: Lua, removed: bool|
            {
                &&& #[trigger] handler_visited(before, event, index, next, removed)
                &&& if removed {
                    handlers_visited(next, event, index, count - 1, after, outcome)
                } else {
                    handlers_visited(next, event, index + 1, count, after, outcome)
                }
            };
        let (middle, text) = visit_step(before, event, index, next, removed);
        let t = script_state(next)->0;
        calls_only_append(s, middle);
        calls_keep(s, event, middle);
        if removed {
            elsewhere_of_shorter(middle.handlers, index, event);
            errors_after_push(middle.effects, t.effects.last());
            assert(t.effects =~= middle.effects.push(t.effects.last()));
            visiting_keeps(next, event, index, count - 1, after, outcome);
        } else {
            visiting_keeps(next, event, index + 1, count, after, outcome);
        }
    }
}

/// Emitting an event keeps what [`kept_by_emitting`] says and announces what
/// [`announced_by_emitting`] says, also where it is cut short.
pub proof fn emitting_keeps_and_announces(
    before: Lua,
    event: ScriptEvent,
    after: Lua,
    outcome: Result<(), ScriptError>,
)
    requires
        event_emitted(before, event, after, outcome),
        script_state(before) is Some,
    ensures
        script_state(after) is Some,
        kept_by_emitting(script_state(before)->0, event, script_state(after)->0),
        announced_by_emitting(script_state(before)->0, script_state(after)->0),
{
    let visited = choose|visited: Result<(), Error>| #[trigger]
        all_visited(before, event, after, visited) && reports(outcome, visited);
    let s = script_state(before)->0;
    if undisturbed(before, after) {
        undisturbed_by_script_calls(before, after);
        grown_by_script_calls(before, after);
        calls_keep(s, event, script_state(after)->0);
    } else {
        let counted = choose|counted: Lua|
            {
                &&& #[trigger] undisturbed(before, counted)
                &&& handlers_visited(
                    counted,
                    event,
                    0,
                    script_state(counted)->0.handlers.len() as int,
                    after,
                    visited,
                )
            };
        let count = script_state(counted)->0.handlers.len() as int;
        undisturbed_by_script_calls(before, counted);
        grown_by_script_calls(before, counted);
        calls_keep(s, event, script_state(counted)->0);
        visiting_keeps(counted, event, 0, count, after, visited);
    }
}

/// An event for which no handler is registered changes nothing, where no finalizer makes a call
/// meanwhile.
pub proof fn unheard_events_change_nothing(
    before: Lua,
    event: ScriptEvent,
    after: Lua,
    outcome: Result<(), ScriptError>,
)
    requires
        event_emitted(before, event, after, outcome),
        script_state(before) is Some,
        forall|i: int|
            0 <= i < script_state(before)->0.handlers.len() ==> (
            #[trigger] script_state(before)->0.handlers[i]).event != event.label(),
        finalized(after) == finalized(before),
    ensures
        script_state(after) == script_state(before),
{
    let visited = choose|visited: Result<(), Error>| #[trigger]
        all_visited(before, event, after, visited) && reports(outcome, visited);
    if undisturbed(before, after) {
        undisturbed_states_only_grow(before, after);
    } else {
        let counted = choose|counted: Lua|
            {
                &&& #[trigger] undisturbed(before, counted)
                &&& handlers_visited(
                    counted,
                    event,
                    0,
                    script_state(counted)->0.handlers.len() as int,
                    after,
                    visited,
                )
            };
        let count = script_state(counted)->0.handlers.len() as int;
        undisturbed_states_only_grow(before, counted);
        visiting_keeps(counted, event, 0, count, after, visited);
        assert(finalized(before).is_prefix_of(finalized(counted))) by {
            reveal(undisturbed);
        }
        assert(finalized(counted) =~= finalized(before));
        visiting_strangers(counted, event, 0, count, after, visited);
    }
}

proof fn visiting_strangers(
    before: Lua,
    event: ScriptEvent,
    index: int,
    count: int,
    after: Lua,
    outcome: Result<(), Error>,
)
    requires
        script_state(before) is Some,
        0 <= index <= count <= script_state(before)->0.handlers.len(),
        handlers_visited(before, event, index, count, after, outcome),
        forall|i: int|
            0 <= i < script_state(before)->0.handlers.len() ==> (
            #[trigger] script_state(before)->0.handlers[i]).event != event.label(),
        finalized(after) == finalized(before),
    ensures
        script_state(after) == script_state(before),
    decreases count - index,
{
    if index >= count {
    } else if outcome matches Err(error) && undisturbed(before, after) {
        undisturbed_states_only_grow(before, after);
    } else {
        assert(script_state(before)->0.handlers[index].event != event.label());
        let (next, removed) = choose|next: Lua, removed: bool|
            {
                &&& #[trigger] handler_visited(before, event, index, next, removed)
                &&& if removed {
                    handlers_visited(next, event, index, count - 1, after, outcome)
                } else {
                    handlers_visited(next, event, index + 1, count, after, outcome)
                }
            };
        undisturbed_states_only_grow(before, next);
        visiting_keeps(next, event, index + 1, count, after, outcome);
        assert(finalized(before).is_prefix_of(finalized(next))) by {
            reveal(undisturbed);
        }
        assert(finalized(next) =~= finalized(before));
        visiting_strangers(next, event, index + 1, count, after, outcome);
    }
}

proof fn elsewhere_of_longer(short: Seq<HandlerView>, long: Seq<HandlerView>, event: ScriptEvent)
    requires
        short.is_prefix_of(long),
    ensures
        handlers_elsewhere(short, event).is_prefix_of(handlers_elsewhere(long, event)),
{
    let rest = long.skip(short.len() as int);
    assert(long =~= short + rest);
    Seq::filter_distributes_over_add(short, rest, |h: HandlerView| h.event != event.label());
}

proof fn elsewhere_of_shorter(handlers: Seq<HandlerView>, index: int, event: ScriptEvent)
    requires
        0 <= index < handlers.len(),
        handlers[index].event == event.label(),
    ensures
        handlers_elsewhere(handlers.remove(index), event) == handlers_elsewhere(handlers, event),
{
    let pred = |h: HandlerView| h.event != event.label();
    let front = handlers.take(index);
    let back = handlers.skip(index + 1);
    let middle = seq![handlers[index]];
    assert(handlers.remove(index) =~= front + back);
    assert(handlers =~= front + (middle + back));
    Seq::filter_distributes_over_add(front, back, pred);
    Seq::filter_distributes_over_add(middle, back, pred);
    Seq::filter_distributes_over_add(front, middle + back, pred);
    assert(middle.filter(pred) =~= Seq::empty()) by {
        reveal(Seq::filter);
        let nothing = Seq::<HandlerView>::empty();
        assert(middle.drop_last() =~= nothing);
        assert(nothing.filter(pred) =~= nothing);
        assert(!pred(middle.last()));
    }
    assert(middle.filter(pred) + back.filter(pred) =~= back.filter(pred));
}

/// The call of one handler while an event is emitted.
pub struct HandlerCall {
    /// The interpreter just before the call.
    pub ready: Lua,
    /// What the handler is called with.
    pub argument: Value,
    /// How the call ends.
    pub outcome: Result<(), Error>,
    /// The interpreter just after the call.
    pub left: Lua,
    /// Where the handler then stands in the list, if it failed.
    pub position: int,
    /// The interpreter once a handler that failed is dealt with.
    pub done: Lua,
}

/// Whether a handler was called, with the playback snapshot or with `nil` where there is none, and
/// did nothing but script calls to what the script functions read and change. One that failed is
/// gone from the list then, and an error message says which plugin's handler failed, for which
/// event and why; what finalizers called meanwhile stands before that.
pub open spec fn handler_called(
    handler: HandlerView,
    playback: Option<PlaybackView>,
    call: HandlerCall,
) -> bool {
    &&& function_called(call.ready, handler.callback, call.argument, call.left, call.outcome)
    &&& only_script_calls(call.ready, call.left)
    &&& match playback {
        Some(snapshot) => shows_playback(call.argument, snapshot),
        None => is_scalar(call.argument, ScalarView::Nil),
    }
    &&& match call.outcome {
        Ok(_) => call.done == call.left,
        Err(error) => {
            let state = settled(call.left, call.done);
            &&& finalized(call.left).is_prefix_of(finalized(call.done))
            &&& 0 <= call.position < state.handlers.len()
            &&& state.handlers[call.position] == handler
            &&& script_state(call.done) == Some(
                SharedView {
                    handlers: state.handlers.remove(call.position),
                    effects: state.effects.push(
                        EffectView::NotifyError(
                            handler.plugin + ": error in on_"@ + handler.event + ": "@ + error_text(
                                error,
                            ),
                            6,
                        ),
                    ),
                    ..state
                },
            )
        },
    }
}

/// Whether calls followed each other, with nothing but calls of finalizers before, between and
/// behind them.
pub open spec fn called_in_turn(before: Lua, calls: Seq<HandlerCall>, after: Lua) -> bool {
    &&& calls.len() == 0 ==> undisturbed(before, after)
    &&& calls.len() > 0 ==> undisturbed(before, calls.first().ready) && undisturbed(
        calls.last().done,
        after,
    )
    &&& forall|i: int, j: int|
        #![trigger calls[i], calls[j]]
        0 <= i && j == i + 1 && j < calls.len() ==> undisturbed(calls[i].done, calls[j].ready)
}

/// The handlers that wait for an event, in order.
pub open spec fn handlers_waiting(
    handlers: Seq<HandlerView>,
    event: ScriptEvent,
) -> Seq<HandlerView> {
    handlers.filter(|h: HandlerView| h.event == event.label())
}

proof fn first_waiting(handlers: Seq<HandlerView>, index: int, count: int, event: ScriptEvent)
    requires
        0 <= index < count <= handlers.len(),
    ensures
        handlers_waiting(handlers.subrange(index, count), event) == if handlers[index].event
            == event.label() {
            seq![handlers[index]] + handlers_waiting(handlers.subrange(index + 1, count), event)
        } else {
            handlers_waiting(handlers.subrange(index + 1, count), event)
        },
{
    let pred = |h: HandlerView| h.event == event.label();
    let first = seq![handlers[index]];
    let rest = handlers.subrange(index + 1, count);
    assert(handlers.subrange(index, count) =~= first + rest);
    Seq::filter_distributes_over_add(first, rest, pred);
    reveal(Seq::filter);
    let nothing = Seq::<HandlerView>::empty();
    assert(first.drop_last() =~= nothing);
    assert(nothing.filter(pred) =~= nothing);
    if pred(first.last()) {
        assert(first.filter(pred) =~= first);
    } else {
        assert(first.filter(pred) =~= nothing);
        assert(nothing + rest.filter(pred) =~= rest.filter(pred));
    }
}

/// A row of calls with one more before it.
proof fn called_before(
    before: Lua,
    call: HandlerCall,
    next: Lua,
    later: Seq<HandlerCall>,
    after: Lua,
)
    requires
        undisturbed(before, call.ready),
        call.done == next,
        called_in_turn(next, later, after),
    ensures
        called_in_turn(before, seq![call] + later, after),
{
    let calls = seq![call] + later;
    if later.len() > 0 {
        assert(calls.last() == later.last());
        assert(calls[1] == later[0]);
    }
    assert forall|i: int, j: int|
        #![trigger calls[i], calls[j]]
        0 <= i && j == i + 1 && j < calls.len() implies undisturbed(
        calls[i].done,
        calls[j].ready,
    ) by {
        assert(calls[j] == later[j - 1]);
        if i > 0 {
            assert(calls[i] == later[i - 1]);
        }
    }
}

proof fn visits_call_in_turn(
    before: Lua,
    event: ScriptEvent,
    index: int,
    count: int,
    after: Lua,
    outcome: Result<(), Error>,
) -> (calls: Seq<HandlerCall>)
    requires
        script_state(before) is Some,
        0 <= index <= count <= script_state(before)->0.handlers.len(),
        handlers_visited(before, event, index, count, after, outcome),
        outcome is Ok,
    ensures
        called_in_turn(before, calls, after),
        calls.len() == handlers_waiting(
            script_state(before)->0.handlers.subrange(index, count),
            event,
        ).len(),
        forall|i: int|
            0 <= i < calls.len() ==> handler_called(
                handlers_waiting(
                    script_state(before)->0.handlers.subrange(index, count),
                    event,
                )[i],
                script_state(before)->0.playback,
                #[trigger] calls[i],
            ),
    decreases count - index,
{
    let s = script_state(before)->0;
    let waiting = handlers_waiting(s.handlers.subrange(index, count), event);
    if index >= count {
        undisturbed_by_nothing(before);
        reveal(Seq::filter);
        assert(s.handlers.subrange(index, count) =~= Seq::empty());
        Seq::empty()
    } else {
        let (next, removed) = choose|next: Lua, removed: bool|
            {
                &&& #[trigger] handler_visited(before, event, index, next, removed)
                &&& if removed {
                    handlers_visited(next, event, index, count - 1, after, outcome)
                } else {
                    handlers_visited(next, event, index + 1, count, after, outcome)
                }
            };
        first_waiting(s.handlers, index, count, event);
        let rest = s.handlers.subrange(index + 1, count);
        let (middle, text) = visit_step(before, event, index, next, removed);
        calls_only_append(s, middle);
        let t = script_state(next)->0;
        if s.handlers[index].event != event.label() {
            assert(t.handlers.subrange(index + 1, count) =~= rest);
            let later = visits_call_in_turn(next, event, index + 1, count, after, outcome);
            assert(undisturbed(before, next));
            later
        } else {
            let call = visit_calls(before, event, index, next, removed);
            let later = if removed {
                assert(t.handlers.subrange(index, count - 1) =~= rest);
                visits_call_in_turn(next, event, index, count - 1, after, outcome)
            } else {
                assert(t.handlers.subrange(index + 1, count) =~= rest);
                visits_call_in_turn(next, event, index + 1, count, after, outcome)
            };
            called_before(before, call, next, later, after);
            let calls = seq![call] + later;
            assert forall|i: int| 0 <= i < calls.len() implies handler_called(
                waiting[i],
                s.playback,
                #[trigger] calls[i],
            ) by {
                if i > 0 {
                    assert(calls[i] == later[i - 1]);
                    assert(waiting[i] == handlers_waiting(rest, event)[i - 1]);
                }
            }
            calls
        }
    }
}

/// The call that the visit of a handler which waits for the event is.
proof fn visit_calls(
    before: Lua,
    event: ScriptEvent,
    index: int,
    after: Lua,
    removed: bool,
) -> (call: HandlerCall)
    requires
        script_state(before) is Some,
        0 <= index < script_state(before)->0.handlers.len(),
        script_state(before)->0.handlers[index].event == event.label(),
        handler_visited(before, event, index, after, removed),
    ensures
        undisturbed(before, call.ready),
        handler_called(
            script_state(before)->0.handlers[index],
            script_state(before)->0.playback,
            call,
        ),
        call.done == after,
{
    let s = script_state(before)->0;
    let (ready, left, failure) = choose|ready: Lua, left: Lua, failure: Option<Seq<char>>|
        {
            &&& undisturbed(before, ready)
            &&& #[trigger] handler_ran(ready, index, left, failure)
            &&& match failure {
                Some(text) => removed && handler_struck(left, index, text, after),
                None => !removed && after == left,
            }
        };
    undisturbed_states_only_grow(before, ready);
    assert(script_state(ready)->0.handlers[index] == s.handlers[index]);
    let (called, argument, outcome) = choose|
        called: Lua,
        argument: Value,
        outcome: Result<(), Error>,
    |
        {
            &&& #[trigger] function_called(
                called,
                script_state(ready)->0.handlers[index].callback,
                argument,
                left,
                outcome,
            )
            &&& undisturbed(ready, called)
            &&& only_script_calls(called, left)
            &&& shows_reply(argument, reply_to(script_state(ready)->0.store(), Query::Playback))
            &&& failure == failure_of(outcome)
        };
    let call = HandlerCall { ready: called, argument, outcome, left, position: index, done: after };
    grown_by_script_calls(ready, left);
    if let Err(error) = outcome {
        settled_by_script_calls(left, after);
        calls_only_append(script_state(left)->0, settled(left, after));
        assert(settled(left, after).handlers[index] == s.handlers[index]);
    }
    call
}

/// Where emitting an event succeeds, each handler in the list that waits for that event was called
/// once, in the order of the list, with the playback snapshot; one that failed is gone and
/// announced; and nothing else happened. The list is that at the start, behind which only
/// finalizers may have put more before the first call.
pub proof fn waiting_handlers_are_called_in_turn(
    before: Lua,
    event: ScriptEvent,
    after: Lua,
    outcome: Result<(), ScriptError>,
) -> (run: (Seq<HandlerView>, Seq<HandlerCall>))
    requires
        event_emitted(before, event, after, outcome),
        script_state(before) is Some,
        outcome is Ok,
    ensures
        script_state(before)->0.handlers.is_prefix_of(run.0),
        finalized(after) == finalized(before) ==> run.0 == script_state(before)->0.handlers,
        run.1.len() == run.0.filter(|h: HandlerView| h.event == event.label()).len(),
        forall|i: int|
            0 <= i < run.1.len() ==> handler_called(
                run.0.filter(|h: HandlerView| h.event == event.label())[i],
                script_state(before)->0.playback,
                #[trigger] run.1[i],
            ),
        called_in_turn(before, run.1, after),
{
    let visited = choose|visited: Result<(), Error>| #[trigger]
        all_visited(before, event, after, visited) && reports(outcome, visited);
    let counted = choose|counted: Lua|
        {
            &&& #[trigger] undisturbed(before, counted)
            &&& handlers_visited(
                counted,
                event,
                0,
                script_state(counted)->0.handlers.len() as int,
                after,
                visited,
            )
        };
    undisturbed_states_only_grow(before, counted);
    let handlers = script_state(counted)->0.handlers;
    let count = handlers.len() as int;
    let calls = visits_call_in_turn(counted, event, 0, count, after, visited);
    assert(handlers.subrange(0, count) =~= handlers);
    if finalized(after) == finalized(before) {
        visiting_keeps(counted, event, 0, count, after, visited);
        assert(finalized(before).is_prefix_of(finalized(counted))) by {
            reveal(undisturbed);
        }
        assert(finalized(counted) =~= finalized(before));
    }
    (handlers, calls)
}

/// Emitting an event fails only where Lua is out of memory or of stack space.
pub proof fn emitting_fails_only_without_resources(
    before: Lua,
    event: ScriptEvent,
    after: Lua,
    outcome: Result<(), ScriptError>,
) -> (cause: Error)
    requires
        event_emitted(before, event, after, outcome),
        outcome is Err,
    ensures
        out_of_resources(cause),
        outcome->Err_0.message@ == error_text(cause),
{
    let visited = choose|visited: Result<(), Error>| #[trigger]
        all_visited(before, event, after, visited) && reports(outcome, visited);
    let cause = visited->Err_0;
    if !out_of_resources(cause) {
        let counted = choose|counted: Lua|
            {
                &&& #[trigger] undisturbed(before, counted)
                &&& handlers_visited(
                    counted,
                    event,
                    0,
                    script_state(counted)->0.handlers.len() as int,
                    after,
                    visited,
                )
            };
        let count = script_state(counted)->0.handlers.len() as int;
        visiting_fails_only_without_resources(counted, event, 0, count, after, visited);
    }
    cause
}

proof fn visiting_fails_only_without_resources(
    before: Lua,
    event: ScriptEvent,
    index: int,
    count: int,
    after: Lua,
    outcome: Result<(), Error>,
)
    requires
        handlers_visited(before, event, index, count, after, outcome),
        outcome is Err,
    ensures
        out_of_resources(outcome->Err_0),
    decreases count - index,
{
    if !visit_failed(before, event, index, after, outcome->Err_0) {
        let (next, removed) = choose|next: Lua, removed: bool|
            {
                &&& #[trigger] handler_visited(before, event, index, next, removed)
                &&& if removed {
                    handlers_visited(next, event, index, count - 1, after, outcome)
                } else {
                    handlers_visited(next, event, index + 1, count, after, outcome)
                }
            };
        if removed {
            visiting_fails_only_without_resources(next, event, index, count - 1, after, outcome);
        } else {
            visiting_fails_only_without_resources(next, event, index + 1, count, after, outcome);
        }
    }
}

/// Loading a plugin runs its whole source once, under its name and with nothing changed before but
/// the name of the current plugin, and reports just what comes of that.
pub proof fn loading_runs_the_source(
    before: Lua,
    name: Seq<char>,
    source: Seq<char>,
    after: Lua,
    outcome: Result<(), ScriptError>,
) -> (ran: Result<(), Error>)
    requires
        source_loaded(before, name, source, after, outcome),
    ensures
        source_ran(
            keeping(
                before,
                Some(
                    StoreView {
                        playback: script_state(before)->0.playback,
                        devices: script_state(before)->0.devices,
                        effects: script_state(before)->0.effects,
                        current_plugin: name,
                        log: script_state(before)->0.log,
                    },
                ),
            ),
            name,
            source,
            after,
            ran,
        ),
        match ran {
            Ok(_) => outcome is Ok,
            Err(error) => outcome matches Err(e) && e.message@ == error_text(error),
        },
{
    choose|ran: Result<(), Error>| #[trigger]
        source_ran(named(before, name), name, source, after, ran) && reports(outcome, ran)
}

/// An engine that offers the interface to scripts does so in the global variable `spotatui`.
pub proof fn engines_offer_the_table(engine: ScriptEngine)
    ensures
        engine.offers_api() == is_api_table(global_in(engine.interpreter(), "spotatui"@)),
        engine.well_formed() ==> script_state(engine.interpreter()) == Some(engine@),
{
}

} // verus!
