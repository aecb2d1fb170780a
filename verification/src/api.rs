//! The `spotatui` table that scripts see, and what its functions do.

use crate::events::{parse_event, unknown_event_message, unknown_event_text, ScriptEvent};
use crate::handlers::push_handler;
use crate::interpreter::{
    callback_home, finalized, finalizer_calls, global_in, globals_kept, globals_kept_in_steps,
    group_undisturbed, held, home, homed, is_record, is_scalar, new_record, only_script_calls,
    out_of_resources, put_shared, raised, record_of, room, runtime_error, scalar_value,
    script_calls_in_steps, script_room, script_state, set_global, settled, settled_by_script_calls,
    table_home, table_in, table_value, take_shared, undisturbed, undisturbed_by_nothing,
    undisturbed_by_script_calls, undisturbed_states_only_grow, untouched, Scalar, ScalarView,
};
use crate::plugin_api::API_VERSION;
use crate::shared::{
    after_call, callbacks_are_registered, calls_only_append, queued_effect, reached_by_one_call,
    reached_in_steps, refusal, reply_to, ApiCall, CallView, HandlerView, Query, SharedView,
};
use crate::values::{
    attach, reply_value, shows_devices, shows_playback, shows_reply, shows_track, value_made,
};
use mlua::{Error, Function, Lua, Table, Value};
use vstd::prelude::*;

verus! {

broadcast use {group_undisturbed, globals_kept_in_steps};

/// A function of the `spotatui` table.
#[derive(Debug, Clone, Copy, PartialEq, Eq, Structural)]
pub enum ApiFunction {
    On,
    Playback,
    CurrentTrack,
    Devices,
    Play,
    Pause,
    Next,
    Previous,
    Seek,
    SetVolume,
    Shuffle,
    Search,
    Notify,
    Log,
}

/// Whether a value is the Lua function that stands for a function of the `spotatui` table.
pub uninterp spec fn is_api_function(value: Value, function: ApiFunction) -> bool;

/// What a script function raises that a finalizer calls while the interpreter is dropped.
pub open spec fn gone_text() -> Seq<char> {
    "spotatui: the interpreter is gone"@
}

/// Whether script functions can run on an interpreter: it keeps a shared state and a list of
/// handlers, and has room for the references that they need.
pub open spec fn ready(lua: Lua) -> bool {
    script_state(lua) is Some && room(lua) >= script_room()
}

/// Whether a script call was carried out, and nothing else happened but for calls of finalizers.
///
/// Only a subscription can fail: where it names an event that does not exist, or where Lua runs out
/// of resources. Then nothing is changed. All other calls run no finalizers.
pub open spec fn call_served(
    before: Lua,
    call: CallView,
    after: Lua,
    outcome: Result<(), Error>,
) -> bool {
    match (refusal(call), outcome) {
        (Some(message), _) => after == before && outcome == Err::<(), Error>(raised(message)),
        (None, Ok(_)) => {
            &&& finalized(before).is_prefix_of(finalized(after))
            &&& !(call is On) ==> finalized(after) == finalized(before)
            &&& script_state(after) == Some(after_call(settled(before, after), call))
        },
        (None, Err(e)) => call is On && out_of_resources(e) && undisturbed(before, after),
    }
}

/// A script call that was carried out is one, next to those of finalizers.
proof fn served_by_script_calls(
    before: Lua,
    call: CallView,
    after: Lua,
    outcome: Result<(), Error>,
)
    requires
        call_served(before, call, after, outcome),
        home(after) == home(before),
        script_state(before) is Some,
    ensures
        only_script_calls(before, after),
{
    undisturbed_by_nothing(before);
    if refusal(call) is None && outcome is Ok {
        let middle = settled(before, after);
        reached_by_one_call(middle, call);
        settled_by_script_calls(before, after);
        reached_in_steps(script_state(before)->0, middle, after_call(middle, call));
        reveal(only_script_calls);
    } else {
        undisturbed_by_script_calls(before, after);
    }
}

/// Carries out a script call on the shared state that the interpreter keeps.
pub(crate) fn call_api(lua: &mut Lua, call: ApiCall) -> (outcome: Result<(), Error>)
    requires
        script_state(*old(lua)) is Some,
    ensures
        call_served(*old(lua), call@, *final(lua), outcome),
        only_script_calls(*old(lua), *final(lua)),
        room(*final(lua)) >= room(*old(lua)),
{
    match take_shared(lua) {
        Some(mut shared) => {
            shared.serve(call);
            put_shared(lua, shared);
        },
        None => return Err(runtime_error("spotatui: the interpreter is gone".to_owned())),
    }
    proof {
        assert(finalizer_calls(*old(lua), *lua) =~= Seq::empty());
        served_by_script_calls(*old(lua), call@, *lua, Ok(()));
    }
    Ok(())
}

/// Registers a callback for the event of the given name, under the name of the current plugin.
pub(crate) fn subscribe(lua: &mut Lua, event: String, callback: Function) -> (outcome: Result<
    (),
    Error,
>)
    requires
        ready(*old(lua)),
        callback_home(callback) == home(*old(lua)),
    ensures
        call_served(*old(lua), CallView::On(event@, callback), *final(lua), outcome),
        only_script_calls(*old(lua), *final(lua)),
        room(*final(lua)) >= room(*old(lua)),
{
    let plugin = match take_shared(lua) {
        Some(shared) => {
            let plugin = shared.current_plugin.clone();
            put_shared(lua, shared);
            plugin
        },
        None => return Err(runtime_error("spotatui: the interpreter is gone".to_owned())),
    };
    assert(*lua == *old(lua));
    let outcome = match parse_event(&event) {
        Some(_) => {
            let pushed = push_handler(lua, event.as_str(), plugin.as_str(), callback);
            proof {
                settled_by_script_calls(*old(lua), *lua);
                calls_only_append(script_state(*old(lua))->0, settled(*old(lua), *lua));
                if pushed is Err {
                    undisturbed_by_script_calls(*old(lua), *lua);
                }
            }
            pushed
        },
        None => Err(runtime_error(unknown_event_message(&event))),
    };
    proof {
        served_by_script_calls(*old(lua), CallView::On(event@, callback), *lua, outcome);
    }
    outcome
}

/// Whether a query was answered from the shared state that the interpreter keeps, and nothing
/// happened but for calls of finalizers.
pub open spec fn query_served(
    before: Lua,
    query: Query,
    after: Lua,
    outcome: Result<Value, Error>,
) -> bool {
    let reply = reply_to(script_state(before)->0.store(), query);
    &&& undisturbed(before, after)
    &&& reply is Nothing ==> after == before
    &&& match outcome {
        Ok(value) => shows_reply(value, reply),
        Err(e) => out_of_resources(e),
    }
}

/// Answers a query from the shared state that the interpreter keeps.
pub(crate) fn query_api(lua: &mut Lua, query: Query) -> (outcome: Result<Value, Error>)
    requires
        ready(*old(lua)),
    ensures
        query_served(*old(lua), query, *final(lua), outcome),
        only_script_calls(*old(lua), *final(lua)),
        match outcome {
            Ok(value) => {
                &&& homed(value, home(*final(lua)))
                &&& held(value) <= 1
                &&& room(*final(lua)) >= room(*old(lua)) - held(value)
            },
            Err(_) => room(*final(lua)) >= room(*old(lua)),
        },
{
    broadcast use undisturbed_by_script_calls;

    let reply = match take_shared(lua) {
        Some(shared) => {
            assert(shared@ =~= script_state(*old(lua))->0.store());
            let reply = shared.answer(query);
            put_shared(lua, shared);
            reply
        },
        None => return Err(runtime_error("spotatui: the interpreter is gone".to_owned())),
    };
    assert(*lua == *old(lua));
    reply_value(lua, reply)
}

/// Whether a script call was carried out on an interpreter that may be gone: while it is dropped,
/// finalizers of scripts still run.
pub open spec fn served_if_alive(
    lua: Option<Lua>,
    call: CallView,
    outcome: Result<(), Error>,
) -> bool {
    match lua {
        Some(before) => exists|after: Lua| #[trigger]
            call_served(before, call, after, outcome) && only_script_calls(before, after),
        None => outcome == Err::<(), Error>(raised(gone_text())),
    }
}

/// Carries out a script call on an interpreter that may be gone.
fn run_if_alive(lua: Option<Lua>, call: ApiCall) -> (outcome: Result<(), Error>)
    requires
        lua matches Some(l) ==> ready(l),
    ensures
        served_if_alive(lua, call@, outcome),
{
    match lua {
        Some(mut lua) => call_api(&mut lua, call),
        None => Err(runtime_error("spotatui: the interpreter is gone".to_owned())),
    }
}

/// `spotatui.on(event, callback)`
fn on(lua: Option<Lua>, event: String, callback: Function) -> (outcome: Result<(), Error>)
    requires
        lua matches Some(l) ==> ready(l) && callback_home(callback) == home(l),
    ensures
        served_if_alive(lua, CallView::On(event@, callback), outcome),
{
    match lua {
        Some(mut lua) => subscribe(&mut lua, event, callback),
        None => Err(runtime_error("spotatui: the interpreter is gone".to_owned())),
    }
}

/// `spotatui.playback()`, `spotatui.current_track()` and `spotatui.devices()`
fn answer(lua: Option<Lua>, query: Query) -> (outcome: Result<Value, Error>)
    requires
        lua matches Some(l) ==> ready(l),
    ensures
        match lua {
            Some(before) => exists|after: Lua| #[trigger]
                query_served(before, query, after, outcome) && only_script_calls(before, after),
            None => outcome == Err::<Value, Error>(raised(gone_text())),
        },
{
    match lua {
        Some(mut lua) => query_api(&mut lua, query),
        None => Err(runtime_error("spotatui: the interpreter is gone".to_owned())),
    }
}

/// A script function without arguments that queues one fixed effect.
#[derive(Debug, Clone, Copy, PartialEq, Eq, Structural)]
pub enum PlainAction {
    Play,
    Pause,
    Next,
    Previous,
}

impl PlainAction {
    /// The function that runs the action.
    pub open spec fn function(self) -> ApiFunction {
        match self {
            PlainAction::Play => ApiFunction::Play,
            PlainAction::Pause => ApiFunction::Pause,
            PlainAction::Next => ApiFunction::Next,
            PlainAction::Previous => ApiFunction::Previous,
        }
    }

    /// The script call that the action is.
    pub open spec fn call(self) -> CallView {
        match self {
            PlainAction::Play => CallView::Play,
            PlainAction::Pause => CallView::Pause,
            PlainAction::Next => CallView::Next,
            PlainAction::Previous => CallView::Previous,
        }
    }
}

/// `spotatui.play()`, `spotatui.pause()`, `spotatui.next()` and `spotatui.previous()`
fn act(lua: Option<Lua>, action: PlainAction) -> (outcome: Result<(), Error>)
    requires
        lua matches Some(l) ==> ready(l),
    ensures
        served_if_alive(lua, action.call(), outcome),
{
    let call = match action {
        PlainAction::Play => ApiCall::Play,
        PlainAction::Pause => ApiCall::Pause,
        PlainAction::Next => ApiCall::Next,
        PlainAction::Previous => ApiCall::Previous,
    };
    run_if_alive(lua, call)
}

/// `spotatui.seek(ms)`
fn seek(lua: Option<Lua>, ms: u32) -> (outcome: Result<(), Error>)
    requires
        lua matches Some(l) ==> ready(l),
    ensures
        served_if_alive(lua, CallView::Seek(ms), outcome),
{
    run_if_alive(lua, ApiCall::Seek(ms))
}

/// `spotatui.set_volume(percent)`
fn set_volume(lua: Option<Lua>, percent: i64) -> (outcome: Result<(), Error>)
    requires
        lua matches Some(l) ==> ready(l),
    ensures
        served_if_alive(lua, CallView::SetVolume(percent), outcome),
{
    run_if_alive(lua, ApiCall::SetVolume(percent))
}

/// `spotatui.shuffle(enabled)`
fn shuffle(lua: Option<Lua>, enabled: bool) -> (outcome: Result<(), Error>)
    requires
        lua matches Some(l) ==> ready(l),
    ensures
        served_if_alive(lua, CallView::Shuffle(enabled), outcome),
{
    run_if_alive(lua, ApiCall::Shuffle(enabled))
}

/// `spotatui.search(query)`
fn search(lua: Option<Lua>, query: String) -> (outcome: Result<(), Error>)
    requires
        lua matches Some(l) ==> ready(l),
    ensures
        served_if_alive(lua, CallView::Search(query@), outcome),
{
    run_if_alive(lua, ApiCall::Search(query))
}

/// `spotatui.notify(message, ttl)`
fn notify(lua: Option<Lua>, message: String, ttl: Option<u64>) -> (outcome: Result<(), Error>)
    requires
        lua matches Some(l) ==> ready(l),
    ensures
        served_if_alive(lua, CallView::Notify(message@, ttl), outcome),
{
    run_if_alive(lua, ApiCall::Notify(message, ttl))
}

/// `spotatui.log(message)`
fn log(lua: Option<Lua>, message: String) -> (outcome: Result<(), Error>)
    requires
        lua matches Some(l) ==> ready(l),
    ensures
        served_if_alive(lua, CallView::Log(message@), outcome),
{
    run_if_alive(lua, ApiCall::Log(message))
}

/// The function that runs a query.
pub open spec fn query_function_of(query: Query) -> ApiFunction {
    match query {
        Query::Playback => ApiFunction::Playback,
        Query::CurrentTrack => ApiFunction::CurrentTrack,
        Query::Devices => ApiFunction::Devices,
    }
}

// The Lua functions below are made by `mlua::Lua::create_function`. Whenever a script calls one,
// `mlua` converts the arguments, raising an error where they do not fit, and hands them to a
// function from above, and what that returns to the script. The arguments belong to the Lua state
// of the function, which keeps a shared state and a list of handlers before any script runs. There
// is always room for what a script function needs: of the eighteen places on the auxiliary stack,
// the library takes no more than twelve at once, and `mlua` sets two aside for errors.
// `mlua::WeakLua::try_upgrade` gives no interpreter while the Lua state is closed.

/// `mlua::Lua::create_function` for a text and a function, which go to [`on`]. The call fails only
/// where Lua is out of memory or of stack space.
#[verifier::external_body]
fn on_function(lua: &mut Lua) -> (value: Result<Value, Error>)
    requires
        room(*old(lua)) >= 1,
    ensures
        undisturbed(*old(lua), *final(lua)),
        globals_kept(*old(lua), *final(lua)),
        match value {
            Ok(v) => {
                &&& is_api_function(v, ApiFunction::On)
                &&& homed(v, home(*final(lua)))
                &&& held(v) == 1
                &&& room(*final(lua)) >= room(*old(lua)) - 1
            },
            Err(e) => out_of_resources(e) && room(*final(lua)) >= room(*old(lua)),
        },
{
    lua.create_function(|lua, (event, callback): (String, Function)| {
        on(lua.weak().try_upgrade(), event, callback)
    })
    .map(Value::Function)
}

/// `mlua::Lua::create_function` for a query, without arguments, which goes to [`answer`]. The call
/// fails only where Lua is out of memory or of stack space.
#[verifier::external_body]
fn query_function(lua: &mut Lua, query: Query) -> (value: Result<Value, Error>)
    requires
        room(*old(lua)) >= 1,
    ensures
        undisturbed(*old(lua), *final(lua)),
        globals_kept(*old(lua), *final(lua)),
        match value {
            Ok(v) => {
                &&& is_api_function(v, query_function_of(query))
                &&& homed(v, home(*final(lua)))
                &&& held(v) == 1
                &&& room(*final(lua)) >= room(*old(lua)) - 1
            },
            Err(e) => out_of_resources(e) && room(*final(lua)) >= room(*old(lua)),
        },
{
    lua.create_function(move |lua, ()| answer(lua.weak().try_upgrade(), query)).map(Value::Function)
}

/// `mlua::Lua::create_function` for an action, without arguments, which goes to [`act`]. The call
/// fails only where Lua is out of memory or of stack space.
#[verifier::external_body]
fn action_function(lua: &mut Lua, action: PlainAction) -> (value: Result<Value, Error>)
    requires
        room(*old(lua)) >= 1,
    ensures
        undisturbed(*old(lua), *final(lua)),
        globals_kept(*old(lua), *final(lua)),
        match value {
            Ok(v) => {
                &&& is_api_function(v, action.function())
                &&& homed(v, home(*final(lua)))
                &&& held(v) == 1
                &&& room(*final(lua)) >= room(*old(lua)) - 1
            },
            Err(e) => out_of_resources(e) && room(*final(lua)) >= room(*old(lua)),
        },
{
    lua.create_function(move |lua, ()| act(lua.weak().try_upgrade(), action)).map(Value::Function)
}

/// `mlua::Lua::create_function` for a number that fits in `u32`, which goes to [`seek`]. The call
/// fails only where Lua is out of memory or of stack space.
#[verifier::external_body]
fn seek_function(lua: &mut Lua) -> (value: Result<Value, Error>)
    requires
        room(*old(lua)) >= 1,
    ensures
        undisturbed(*old(lua), *final(lua)),
        globals_kept(*old(lua), *final(lua)),
        match value {
            Ok(v) => {
                &&& is_api_function(v, ApiFunction::Seek)
                &&& homed(v, home(*final(lua)))
                &&& held(v) == 1
                &&& room(*final(lua)) >= room(*old(lua)) - 1
            },
            Err(e) => out_of_resources(e) && room(*final(lua)) >= room(*old(lua)),
        },
{
    lua.create_function(|lua, ms: u32| seek(lua.weak().try_upgrade(), ms)).map(Value::Function)
}

/// `mlua::Lua::create_function` for a number that fits in `i64`, which goes to [`set_volume`]. The
/// call fails only where Lua is out of memory or of stack space.
#[verifier::external_body]
fn set_volume_function(lua: &mut Lua) -> (value: Result<Value, Error>)
    requires
        room(*old(lua)) >= 1,
    ensures
        undisturbed(*old(lua), *final(lua)),
        globals_kept(*old(lua), *final(lua)),
        match value {
            Ok(v) => {
                &&& is_api_function(v, ApiFunction::SetVolume)
                &&& homed(v, home(*final(lua)))
                &&& held(v) == 1
                &&& room(*final(lua)) >= room(*old(lua)) - 1
            },
            Err(e) => out_of_resources(e) && room(*final(lua)) >= room(*old(lua)),
        },
{
    lua.create_function(|lua, percent: i64| set_volume(lua.weak().try_upgrade(), percent))
        .map(Value::Function)
}

/// `mlua::Lua::create_function` for what Lua takes for true or false, which goes to [`shuffle`].
/// The call fails only where Lua is out of memory or of stack space.
#[verifier::external_body]
fn shuffle_function(lua: &mut Lua) -> (value: Result<Value, Error>)
    requires
        room(*old(lua)) >= 1,
    ensures
        undisturbed(*old(lua), *final(lua)),
        globals_kept(*old(lua), *final(lua)),
        match value {
            Ok(v) => {
                &&& is_api_function(v, ApiFunction::Shuffle)
                &&& homed(v, home(*final(lua)))
                &&& held(v) == 1
                &&& room(*final(lua)) >= room(*old(lua)) - 1
            },
            Err(e) => out_of_resources(e) && room(*final(lua)) >= room(*old(lua)),
        },
{
    lua.create_function(|lua, enabled: bool| shuffle(lua.weak().try_upgrade(), enabled))
        .map(Value::Function)
}

/// `mlua::Lua::create_function` for a text, which goes to [`search`]. The call fails only where Lua
/// is out of memory or of stack space.
#[verifier::external_body]
fn search_function(lua: &mut Lua) -> (value: Result<Value, Error>)
    requires
        room(*old(lua)) >= 1,
    ensures
        undisturbed(*old(lua), *final(lua)),
        globals_kept(*old(lua), *final(lua)),
        match value {
            Ok(v) => {
                &&& is_api_function(v, ApiFunction::Search)
                &&& homed(v, home(*final(lua)))
                &&& held(v) == 1
                &&& room(*final(lua)) >= room(*old(lua)) - 1
            },
            Err(e) => out_of_resources(e) && room(*final(lua)) >= room(*old(lua)),
        },
{
    lua.create_function(|lua, query: String| search(lua.weak().try_upgrade(), query))
        .map(Value::Function)
}

/// `mlua::Lua::create_function` for a text and a number that fits in `u64` and may be absent,
/// which go to [`notify`]. The call fails only where Lua is
/// out of memory or of stack space.
#[verifier::external_body]
fn notify_function(lua: &mut Lua) -> (value: Result<Value, Error>)
    requires
        room(*old(lua)) >= 1,
    ensures
        undisturbed(*old(lua), *final(lua)),
        globals_kept(*old(lua), *final(lua)),
        match value {
            Ok(v) => {
                &&& is_api_function(v, ApiFunction::Notify)
                &&& homed(v, home(*final(lua)))
                &&& held(v) == 1
                &&& room(*final(lua)) >= room(*old(lua)) - 1
            },
            Err(e) => out_of_resources(e) && room(*final(lua)) >= room(*old(lua)),
        },
{
    lua.create_function(|lua, (message, ttl): (String, Option<u64>)| {
        notify(lua.weak().try_upgrade(), message, ttl)
    })
    .map(Value::Function)
}

/// `mlua::Lua::create_function` for a text, which goes to [`log`]. The call fails only where Lua is
/// out of memory or of stack space.
#[verifier::external_body]
fn log_function(lua: &mut Lua) -> (value: Result<Value, Error>)
    requires
        room(*old(lua)) >= 1,
    ensures
        undisturbed(*old(lua), *final(lua)),
        globals_kept(*old(lua), *final(lua)),
        match value {
            Ok(v) => {
                &&& is_api_function(v, ApiFunction::Log)
                &&& homed(v, home(*final(lua)))
                &&& held(v) == 1
                &&& room(*final(lua)) >= room(*old(lua)) - 1
            },
            Err(e) => out_of_resources(e) && room(*final(lua)) >= room(*old(lua)),
        },
{
    lua.create_function(|lua, message: String| log(lua.weak().try_upgrade(), message))
        .map(Value::Function)
}

/// The functions of the `spotatui` table under their names.
pub open spec fn api_functions() -> Seq<(Seq<char>, ApiFunction)> {
    seq![
        ("on"@, ApiFunction::On),
        ("playback"@, ApiFunction::Playback),
        ("current_track"@, ApiFunction::CurrentTrack),
        ("devices"@, ApiFunction::Devices),
        ("play"@, ApiFunction::Play),
        ("pause"@, ApiFunction::Pause),
        ("next"@, ApiFunction::Next),
        ("previous"@, ApiFunction::Previous),
        ("seek"@, ApiFunction::Seek),
        ("set_volume"@, ApiFunction::SetVolume),
        ("shuffle"@, ApiFunction::Shuffle),
        ("search"@, ApiFunction::Search),
        ("notify"@, ApiFunction::Notify),
        ("log"@, ApiFunction::Log),
    ]
}

/// Whether a field is the given function under the given name.
pub open spec fn is_function_field(
    field: (Seq<char>, Value),
    entry: (Seq<char>, ApiFunction),
) -> bool {
    field.0 == entry.0 && is_api_function(field.1, entry.1)
}

/// Whether fields are the first `count` functions of the `spotatui` table, behind the version.
pub open spec fn holds_api(fields: Seq<(Seq<char>, Value)>, count: int) -> bool {
    &&& fields.len() == count + 1
    &&& fields[0].0 == "api_version"@
    &&& is_scalar(fields[0].1, ScalarView::Integer(API_VERSION))
    &&& forall|i: int|
        0 <= i < count ==> is_function_field(#[trigger] fields[i + 1], api_functions()[i])
}

/// Whether a value is the complete `spotatui` table.
pub open spec fn is_api_table(value: Value) -> bool {
    exists|fields: Seq<(Seq<char>, Value)>|
        #[trigger] is_record(value, fields) && holds_api(fields, api_functions().len() as int)
}

/// Whether what the script functions read and change is as it was, unless a finalizer made a call
/// meanwhile.
pub open spec fn state_kept(before: Lua, after: Lua) -> bool {
    script_state(before) is Some && finalized(after) == finalized(before) ==> script_state(after)
        == script_state(before)
}

proof fn undisturbed_state_is_kept(before: Lua, after: Lua)
    requires
        undisturbed(before, after),
    ensures
        state_kept(before, after),
{
    if script_state(before) is Some {
        undisturbed_states_only_grow(before, after);
    }
}

/// Whether a table became another by setting a field to a function of the `spotatui` table.
pub open spec fn function_attached(
    before: Table,
    name: Seq<char>,
    function: ApiFunction,
    after: Table,
) -> bool {
    exists|value: Value|
        {
            &&& #[trigger] is_api_function(value, function)
            &&& forall|fields: Seq<(Seq<char>, Value)>| #[trigger]
                record_of(before, fields) ==> record_of(after, fields.push((name, value)))
        }
}

/// The function that was attached to a table.
proof fn attached_function(
    before: Table,
    name: Seq<char>,
    function: ApiFunction,
    after: Table,
    fields: Seq<(Seq<char>, Value)>,
) -> (value: Value)
    requires
        function_attached(before, name, function, after),
        record_of(before, fields),
    ensures
        is_api_function(value, function),
        record_of(after, fields.push((name, value))),
{
    choose|value: Value|
        {
            &&& #[trigger] is_api_function(value, function)
            &&& forall|f: Seq<(Seq<char>, Value)>| #[trigger]
                record_of(before, f) ==> record_of(after, f.push((name, value)))
        }
}

/// Adds a function without arguments that queues a fixed effect to the fields of a table. Where
/// that fails, the table is given up.
pub(crate) fn install_action(
    lua: &mut Lua,
    table: Table,
    name: &str,
    action: PlainAction,
) -> (outcome: Result<Table, Error>)
    requires
        exists|fields: Seq<(Seq<char>, Value)>| #[trigger] record_of(table, fields),
        table_home(table) == home(*old(lua)),
        room(*old(lua)) >= 1,
    ensures
        undisturbed(*old(lua), *final(lua)),
        state_kept(*old(lua), *final(lua)),
        globals_kept(*old(lua), *final(lua)),
        match outcome {
            Ok(t) => {
                &&& function_attached(table, name@, action.function(), t)
                &&& exists|fields: Seq<(Seq<char>, Value)>| #[trigger] record_of(t, fields)
                &&& table_home(t) == home(*final(lua))
                &&& room(*final(lua)) >= room(*old(lua))
            },
            Err(e) => out_of_resources(e) && room(*final(lua)) >= room(*old(lua)) + 1,
        },
{
    let made = action_function(lua, action);
    let outcome = attach(lua, table, name, made);
    proof {
        undisturbed_state_is_kept(*old(lua), *lua);
    }
    outcome
}

/// Builds the `spotatui` table.
fn build_api(lua: &mut Lua) -> (built: Result<Value, Error>)
    requires
        room(*old(lua)) >= 2,
    ensures
        value_made(*old(lua), *final(lua), built),
        globals_kept(*old(lua), *final(lua)),
        built matches Ok(value) ==> is_api_table(value),
{
    let table = new_record(lua)?;
    let ghost mut fields: Seq<(Seq<char>, Value)> = Seq::empty();
    let made = scalar_value(lua, Scalar::Integer(API_VERSION));
    proof {
        fields = fields.push(("api_version"@, made->Ok_0));
    }
    let table = attach(lua, table, "api_version", made)?;
    let made = on_function(lua);
    proof {
        fields = fields.push(("on"@, made->Ok_0));
    }
    let table = attach(lua, table, "on", made)?;
    let made = query_function(lua, Query::Playback);
    proof {
        fields = fields.push(("playback"@, made->Ok_0));
    }
    let table = attach(lua, table, "playback", made)?;
    let made = query_function(lua, Query::CurrentTrack);
    proof {
        fields = fields.push(("current_track"@, made->Ok_0));
    }
    let table = attach(lua, table, "current_track", made)?;
    let made = query_function(lua, Query::Devices);
    proof {
        fields = fields.push(("devices"@, made->Ok_0));
    }
    let table = attach(lua, table, "devices", made)?;
    let ghost earlier = table;
    let table = install_action(lua, table, "play", PlainAction::Play)?;
    proof {
        let value = attached_function(earlier, "play"@, ApiFunction::Play, table, fields);
        fields = fields.push(("play"@, value));
    }
    let ghost earlier = table;
    let table = install_action(lua, table, "pause", PlainAction::Pause)?;
    proof {
        let value = attached_function(earlier, "pause"@, ApiFunction::Pause, table, fields);
        fields = fields.push(("pause"@, value));
    }
    let ghost earlier = table;
    let table = install_action(lua, table, "next", PlainAction::Next)?;
    proof {
        let value = attached_function(earlier, "next"@, ApiFunction::Next, table, fields);
        fields = fields.push(("next"@, value));
    }
    let ghost earlier = table;
    let table = install_action(lua, table, "previous", PlainAction::Previous)?;
    proof {
        let value = attached_function(earlier, "previous"@, ApiFunction::Previous, table, fields);
        fields = fields.push(("previous"@, value));
    }
    let made = seek_function(lua);
    proof {
        fields = fields.push(("seek"@, made->Ok_0));
    }
    let table = attach(lua, table, "seek", made)?;
    let made = set_volume_function(lua);
    proof {
        fields = fields.push(("set_volume"@, made->Ok_0));
    }
    let table = attach(lua, table, "set_volume", made)?;
    let made = shuffle_function(lua);
    proof {
        fields = fields.push(("shuffle"@, made->Ok_0));
    }
    let table = attach(lua, table, "shuffle", made)?;
    let made = search_function(lua);
    proof {
        fields = fields.push(("search"@, made->Ok_0));
    }
    let table = attach(lua, table, "search", made)?;
    let made = notify_function(lua);
    proof {
        fields = fields.push(("notify"@, made->Ok_0));
    }
    let table = attach(lua, table, "notify", made)?;
    let made = log_function(lua);
    proof {
        fields = fields.push(("log"@, made->Ok_0));
    }
    let table = attach(lua, table, "log", made)?;
    let value = table_value(table);
    assert(is_record(value, fields));
    assert(holds_api(fields, 14));
    Ok(value)
}

/// Builds the `spotatui` table and makes it the global of that name.
///
/// Only the last step makes the table known to scripts: where one fails, the global is as it was.
/// That step honours a metatable that a script gave the globals, so that what comes of it is said
/// of interpreters on which no script has run.
pub(crate) fn install_api(lua: &mut Lua) -> (outcome: Result<(), Error>)
    requires
        room(*old(lua)) >= script_room() + 2,
    ensures
        only_script_calls(*old(lua), *final(lua)),
        room(*final(lua)) >= room(*old(lua)),
        untouched(*old(lua)) ==> {
            &&& undisturbed(*old(lua), *final(lua))
            &&& script_state(*old(lua)) is Some ==> script_state(*final(lua)) == script_state(
                *old(lua),
            )
            &&& untouched(*final(lua))
            &&& match outcome {
                Ok(_) => is_api_table(global_in(*final(lua), "spotatui"@)),
                Err(e) => out_of_resources(e) && global_in(*final(lua), "spotatui"@) == global_in(
                    *old(lua),
                    "spotatui"@,
                ),
            }
        },
{
    broadcast use {undisturbed_by_script_calls, script_calls_in_steps};

    let built = build_api(lua);
    proof {
        undisturbed_state_is_kept(*old(lua), *lua);
        reveal(globals_kept);
    }
    let table = built?;
    let outcome = set_global(lua, "spotatui", table);
    proof {
        if untouched(*old(lua)) {
            undisturbed_state_is_kept(*old(lua), *lua);
        }
    }
    outcome
}

/// No two functions of the `spotatui` table have the same name, and none is named like the version.
pub proof fn api_names_are_distinct(i: int, j: int)
    requires
        0 <= i < api_functions().len(),
        0 <= j < api_functions().len(),
        api_functions()[i].0 == api_functions()[j].0,
    ensures
        i == j,
        api_functions()[i].0 != "api_version"@,
{
    reveal_strlit("api_version");
    reveal_strlit("on");
    reveal_strlit("playback");
    reveal_strlit("current_track");
    reveal_strlit("devices");
    reveal_strlit("play");
    reveal_strlit("pause");
    reveal_strlit("next");
    reveal_strlit("previous");
    reveal_strlit("seek");
    reveal_strlit("set_volume");
    reveal_strlit("shuffle");
    reveal_strlit("search");
    reveal_strlit("notify");
    reveal_strlit("log");
    assert("api_version"@.len() == 11);
    assert("on"@.len() == 2);
    assert("playback"@.len() == 8 && "playback"@[1] == 'l');
    assert("current_track"@.len() == 13);
    assert("devices"@.len() == 7 && "devices"@[0] == 'd');
    assert("play"@.len() == 4 && "play"@[0] == 'p');
    assert("pause"@.len() == 5);
    assert("next"@.len() == 4 && "next"@[0] == 'n');
    assert("previous"@.len() == 8 && "previous"@[1] == 'r');
    assert("seek"@.len() == 4 && "seek"@[0] == 's');
    assert("set_volume"@.len() == 10);
    assert("shuffle"@.len() == 7 && "shuffle"@[0] == 's');
    assert("search"@.len() == 6 && "search"@[0] == 's');
    assert("notify"@.len() == 6 && "notify"@[0] == 'n');
    assert("log"@.len() == 3);
}

/// A script call that fails changes nothing, but for calls of finalizers.
pub proof fn failed_calls_change_nothing(
    before: Lua,
    call: CallView,
    after: Lua,
    outcome: Result<(), Error>,
)
    requires
        call_served(before, call, after, outcome),
        outcome is Err,
    ensures
        undisturbed(before, after),
        script_state(before) is Some && finalized(after) == finalized(before) ==> script_state(after)
            == script_state(before),
{
    undisturbed_by_nothing(before);
    if script_state(before) is Some {
        undisturbed_states_only_grow(before, after);
    }
}

/// A script call that queues an effect succeeds, and what it changes is that its effect stands
/// behind those already queued.
pub proof fn actions_queue_their_effect(
    before: Lua,
    call: CallView,
    after: Lua,
    outcome: Result<(), Error>,
)
    requires
        call_served(before, call, after, outcome),
        script_state(before) is Some,
        queued_effect(call) is Some,
    ensures
        outcome is Ok,
        script_state(after) == Some(
            SharedView {
                effects: script_state(before)->0.effects.push(queued_effect(call)->0),
                ..script_state(before)->0
            },
        ),
{
    assert(finalizer_calls(before, after) =~= Seq::empty());
}

/// A query is answered with what the shared state holds when it is made: with `nil` where there is
/// no playback, or no track in it, and otherwise with the snapshot, its track, or all devices. The
/// snapshot and the devices stay, and so does everything else where no finalizer makes a call.
pub proof fn queries_read_the_current_state(
    before: Lua,
    query: Query,
    after: Lua,
    value: Value,
)
    requires
        query_served(before, query, after, Ok(value)),
        script_state(before) is Some,
    ensures
        script_state(after) is Some,
        match (query, script_state(before)->0.playback) {
            (Query::Playback, None) => is_scalar(value, ScalarView::Nil),
            (Query::Playback, Some(playback)) => shows_playback(value, playback),
            (Query::CurrentTrack, Some(playback)) => match playback.track {
                Some(track) => shows_track(value, track),
                None => is_scalar(value, ScalarView::Nil),
            },
            (Query::CurrentTrack, None) => is_scalar(value, ScalarView::Nil),
            (Query::Devices, _) => shows_devices(value, script_state(before)->0.devices),
        },
        script_state(after)->0.playback == script_state(before)->0.playback,
        script_state(after)->0.devices == script_state(before)->0.devices,
        finalized(after) == finalized(before) ==> script_state(after) == script_state(before),
{
    undisturbed_states_only_grow(before, after);
}

/// A script function that acts on an interpreter which is alive carries its call out at once: an
/// action or a logged message always succeeds, a subscription to an event that does not exist
/// always fails and changes nothing, and any other subscription is registered unless Lua runs out
/// of resources.
pub proof fn script_calls_are_carried_out(
    before: Lua,
    call: CallView,
    outcome: Result<(), Error>,
) -> (after: Lua)
    requires
        served_if_alive(Some(before), call, outcome),
        script_state(before) is Some,
    ensures
        only_script_calls(before, after),
        match call {
            CallView::On(name, callback) => if exists|event: ScriptEvent| event.label() == name {
                &&& outcome matches Err(error) ==> out_of_resources(error) && undisturbed(
                    before,
                    after,
                )
                &&& outcome is Ok && finalized(after) == finalized(before) ==> script_state(after)
                    == Some(
                    SharedView {
                        handlers: script_state(before)->0.handlers.push(
                            HandlerView {
                                event: name,
                                plugin: script_state(before)->0.current_plugin,
                                callback,
                            },
                        ),
                        ..script_state(before)->0
                    },
                )
                &&& outcome is Ok ==> script_state(after) is Some && script_state(
                    after,
                )->0.handlers.last() == (HandlerView {
                    event: name,
                    plugin: script_state(before)->0.current_plugin,
                    callback,
                })
            } else {
                &&& outcome == Err::<(), Error>(raised(unknown_event_text(name)))
                &&& script_state(after) == script_state(before)
            },
            CallView::Log(message) => {
                &&& outcome is Ok
                &&& script_state(after) == Some(
                    SharedView {
                        log: script_state(before)->0.log.push("[lua] "@ + message),
                        ..script_state(before)->0
                    },
                )
            },
            _ => {
                &&& outcome is Ok
                &&& script_state(after) == Some(after_call(script_state(before)->0, call))
                &&& script_state(after)->0.effects.len() == script_state(before)->0.effects.len() + 1
            },
        },
{
    let after = choose|after: Lua| #[trigger]
        call_served(before, call, after, outcome) && only_script_calls(before, after);
    settled_by_script_calls(before, after);
    calls_only_append(script_state(before)->0, settled(before, after));
    if finalized(after) == finalized(before) {
        assert(finalizer_calls(before, after) =~= Seq::empty());
    }
    callbacks_are_registered(script_state(before)->0, call);
    callbacks_are_registered(settled(before, after), call);
    after
}

/// While the interpreter is closed, script functions fail.
pub proof fn script_calls_fail_on_the_way_out(call: CallView, outcome: Result<(), Error>)
    requires
        served_if_alive(None, call, outcome),
    ensures
        outcome is Err,
{
}

/// Each action and each query is made by the function that is named like it.
pub proof fn functions_do_what_they_are_named_for(action: PlainAction, query: Query)
    ensures
        match action {
            PlainAction::Play => action.function() is Play && action.call() is Play,
            PlainAction::Pause => action.function() is Pause && action.call() is Pause,
            PlainAction::Next => action.function() is Next && action.call() is Next,
            PlainAction::Previous => action.function() is Previous && action.call() is Previous,
        },
        match query {
            Query::Playback => query_function_of(query) is Playback,
            Query::CurrentTrack => query_function_of(query) is CurrentTrack,
            Query::Devices => query_function_of(query) is Devices,
        },
{
}

/// The `spotatui` table holds the version of the interface, and each function under its name.
pub proof fn api_tables_hold_every_function(value: Value) -> (fields: Seq<(Seq<char>, Value)>)
    requires
        is_api_table(value),
    ensures
        table_in(value) is Some,
        record_of(table_in(value)->0, fields),
        fields.len() == 15,
        fields[0].0 == "api_version"@ && is_scalar(fields[0].1, ScalarView::Integer(1)),
        fields[1].0 == "on"@ && is_api_function(fields[1].1, ApiFunction::On),
        fields[2].0 == "playback"@ && is_api_function(fields[2].1, ApiFunction::Playback),
        fields[3].0 == "current_track"@ && is_api_function(fields[3].1, ApiFunction::CurrentTrack),
        fields[4].0 == "devices"@ && is_api_function(fields[4].1, ApiFunction::Devices),
        fields[5].0 == "play"@ && is_api_function(fields[5].1, ApiFunction::Play),
        fields[6].0 == "pause"@ && is_api_function(fields[6].1, ApiFunction::Pause),
        fields[7].0 == "next"@ && is_api_function(fields[7].1, ApiFunction::Next),
        fields[8].0 == "previous"@ && is_api_function(fields[8].1, ApiFunction::Previous),
        fields[9].0 == "seek"@ && is_api_function(fields[9].1, ApiFunction::Seek),
        fields[10].0 == "set_volume"@ && is_api_function(fields[10].1, ApiFunction::SetVolume),
        fields[11].0 == "shuffle"@ && is_api_function(fields[11].1, ApiFunction::Shuffle),
        fields[12].0 == "search"@ && is_api_function(fields[12].1, ApiFunction::Search),
        fields[13].0 == "notify"@ && is_api_function(fields[13].1, ApiFunction::Notify),
        fields[14].0 == "log"@ && is_api_function(fields[14].1, ApiFunction::Log),
{
    let fields = choose|fields: Seq<(Seq<char>, Value)>|
        #[trigger] is_record(value, fields) && holds_api(fields, api_functions().len() as int);
    assert forall|j: int| 1 <= j < 15 implies is_function_field(
        #[trigger] fields[j],
        api_functions()[j - 1],
    ) by {
        let i: int = j - 1;
        assert(is_function_field(fields[i + 1], api_functions()[i]));
    }
    fields
}

/// A query fails only where Lua is out of memory or of stack space, and then changes nothing, but
/// for calls of finalizers.
pub proof fn queries_fail_only_without_resources(
    before: Lua,
    query: Query,
    after: Lua,
    error: Error,
)
    requires
        query_served(before, query, after, Err(error)),
    ensures
        out_of_resources(error),
        undisturbed(before, after),
{
}

} // verus!
