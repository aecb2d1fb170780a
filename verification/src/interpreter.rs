//! The Lua interpreter that runs the plugins, as the rest of the library sees it.
//!
//! The functions of this module call the `mlua` crate, and their contracts are believed, not
//! proved. The interpreter's own state is opaque. What is said of it concerns the [`ScriptShared`]
//! that it keeps for the script functions, the handlers that scripts registered, its global
//! variables, how the values that are handed to scripts were built, and which Lua state all of
//! these belong to.
//!
//! Lua collects garbage when it allocates, and then runs finalizers of scripts, which can call
//! script functions. Whatever allocates is therefore said to leave things as they were but for the
//! calls of finalizers.
//!
//! Each table, text or function that is held outside of Lua takes a place on an auxiliary stack,
//! and `mlua` panics where that stack is full. It has eighteen places from the start. The library
//! holds few of them at once, and each function below says how many more it needs.

use crate::shared::{
    after_calls, calls_compose, calls_only_append, reached_by_calls, reached_in_steps,
    reached_states_are_left_by_calls, CallView, HandlerView, ScriptShared, SharedView, StoreView,
};
use mlua::{Error, Function, IntoLua, Lua, LuaSerdeExt, Table, Value};
use vstd::prelude::*;

verus! {

/// The interpreter, a handle to a Lua state.
#[verifier::external_type_specification]
#[verifier::external_body]
pub struct ExLua(mlua::Lua);

/// A Lua value.
#[verifier::external_type_specification]
#[verifier::external_body]
pub struct ExValue(mlua::Value);

/// A handle to a Lua table.
#[verifier::external_type_specification]
#[verifier::external_body]
pub struct ExTable(mlua::Table);

/// An error of the interpreter or of a script.
#[verifier::external_type_specification]
#[verifier::external_body]
pub struct ExError(mlua::Error);

/// Which Lua state the interpreter is a handle to.
pub uninterp spec fn home(lua: Lua) -> int;

/// Whether a value can be used in a Lua state. One that refers to a table, a text or a function
/// of another state cannot.
pub uninterp spec fn homed(value: Value, home: int) -> bool;

/// The Lua state that a table belongs to.
pub uninterp spec fn table_home(table: Table) -> int;

/// The Lua state that a function belongs to.
pub uninterp spec fn callback_home(function: Function) -> int;

/// How many more references to tables, texts and functions the library may hold, at the least.
pub uninterp spec fn room(lua: Lua) -> int;

/// How many references a value holds: one for a table, a text or a function, otherwise none.
pub uninterp spec fn held(value: Value) -> nat;

/// The state that the interpreter keeps for the script functions, while it keeps one.
pub uninterp spec fn shared_in(lua: Lua) -> Option<StoreView>;

/// The interpreter with another shared state, or with none.
pub uninterp spec fn keeping(lua: Lua, shared: Option<StoreView>) -> Lua;

/// The handlers in the interpreter's list of them, once there is one, in order.
pub uninterp spec fn handlers_in(lua: Lua) -> Option<Seq<HandlerView>>;

/// The script calls that finalizers have made so far, in order.
pub uninterp spec fn finalized(lua: Lua) -> Seq<CallView>;

/// Whether no script has run on the interpreter.
pub uninterp spec fn untouched(lua: Lua) -> bool;

/// The value of a global variable of the interpreter.
pub uninterp spec fn global_in(lua: Lua, name: Seq<char>) -> Value;

/// Whether a value was made of the given scalar.
pub uninterp spec fn is_scalar(value: Value, scalar: ScalarView) -> bool;

/// The table that a value is, if it is one.
pub uninterp spec fn table_in(value: Value) -> Option<Table>;

/// Whether a table was made by setting the given fields, one after the other.
pub uninterp spec fn record_of(table: Table, fields: Seq<(Seq<char>, Value)>) -> bool;

/// Whether a table was made as an array, by appending the given items.
pub uninterp spec fn list_of(table: Table, items: Seq<Value>) -> bool;

/// Whether an error says that Lua is out of memory or of stack space.
pub uninterp spec fn out_of_resources(error: Error) -> bool;

/// Whether running a source under a chunk name took the interpreter from one state to another,
/// with the given outcome.
pub uninterp spec fn source_ran(
    before: Lua,
    name: Seq<char>,
    source: Seq<char>,
    after: Lua,
    outcome: Result<(), Error>,
) -> bool;

/// Whether calling a function with an argument took the interpreter from one state to another,
/// with the given outcome.
pub uninterp spec fn function_called(
    before: Lua,
    function: Function,
    argument: Value,
    after: Lua,
    outcome: Result<(), Error>,
) -> bool;

/// Whether collecting garbage took the interpreter from one state to another.
pub uninterp spec fn garbage_collected(before: Lua, after: Lua) -> bool;

/// The error that a script function raises with the given message.
pub uninterp spec fn raised(message: Seq<char>) -> Error;

/// The text of an error.
pub uninterp spec fn error_text(error: Error) -> Seq<char>;

/// A value without parts, to be handed to a script.
pub enum Scalar {
    /// Lua's `nil`.
    Nil,
    /// The placeholder for an absent field.
    Null,
    Bool(bool),
    Integer(u64),
    Text(String),
}

/// What a [`Scalar`] holds.
pub enum ScalarView {
    Nil,
    Null,
    Bool(bool),
    Integer(u64),
    Text(Seq<char>),
}

impl View for Scalar {
    type V = ScalarView;

    open spec fn view(&self) -> ScalarView {
        match *self {
            Scalar::Nil => ScalarView::Nil,
            Scalar::Null => ScalarView::Null,
            Scalar::Bool(b) => ScalarView::Bool(b),
            Scalar::Integer(n) => ScalarView::Integer(n),
            Scalar::Text(s) => ScalarView::Text(s@),
        }
    }
}

/// Whether a value is a table that was made with the given fields.
pub open spec fn is_record(value: Value, fields: Seq<(Seq<char>, Value)>) -> bool {
    table_in(value) matches Some(table) && record_of(table, fields)
}

/// Whether a value is an array that was made of the given items.
pub open spec fn is_list(value: Value, items: Seq<Value>) -> bool {
    table_in(value) matches Some(table) && list_of(table, items)
}

/// What the script functions read and change: the shared state that the interpreter keeps, and
/// the handlers in its list.
pub open spec fn script_state(lua: Lua) -> Option<SharedView> {
    match (shared_in(lua), handlers_in(lua)) {
        (Some(store), Some(handlers)) => Some(store.with_handlers(handlers)),
        _ => None,
    }
}

/// The script calls that finalizers made in between.
pub open spec fn finalizer_calls(before: Lua, after: Lua) -> Seq<CallView> {
    finalized(after).skip(finalized(before).len() as int)
}

/// What the script functions read and change, after the calls that finalizers made in between.
pub open spec fn settled(before: Lua, after: Lua) -> SharedView {
    after_calls(script_state(before)->0, finalizer_calls(before, after))
}

/// Whether the interpreter is as it was, but for the script calls of finalizers. While it keeps no
/// shared state, such calls fail.
#[verifier::opaque]
pub open spec fn undisturbed(before: Lua, after: Lua) -> bool {
    &&& home(after) == home(before)
    &&& finalized(before).is_prefix_of(finalized(after))
    &&& script_state(before) is Some ==> script_state(after) == Some(settled(before, after))
    &&& shared_in(before) is None ==> shared_in(after) is None && handlers_in(after) == handlers_in(
        before,
    )
}

/// Whether the global variables are as they were and no finalizer made a call, on an interpreter on
/// which no script has run.
#[verifier::opaque]
pub open spec fn globals_kept(before: Lua, after: Lua) -> bool {
    untouched(before) ==> {
        &&& untouched(after)
        &&& finalized(after) == finalized(before)
        &&& forall|name: Seq<char>| #[trigger] global_in(after, name) == global_in(before, name)
    }
}

/// Whether what happened to what the script functions read and change are script calls only.
#[verifier::opaque]
pub open spec fn only_script_calls(before: Lua, after: Lua) -> bool {
    &&& home(after) == home(before)
    &&& finalized(before).is_prefix_of(finalized(after))
    &&& script_state(before) matches Some(s) ==> {
        &&& script_state(after) matches Some(t)
        &&& reached_by_calls(s, t)
    }
    &&& shared_in(before) is None ==> shared_in(after) is None && handlers_in(after) == handlers_in(
        before,
    )
}

/// An interpreter is undisturbed where nothing happens.
pub proof fn undisturbed_by_nothing(lua: Lua)
    ensures
        undisturbed(lua, lua),
{
    reveal(undisturbed);
    assert(finalizer_calls(lua, lua) =~= Seq::empty());
}

/// An interpreter that is undisturbed by one thing and then by another is undisturbed by both.
pub broadcast proof fn undisturbed_in_steps(a: Lua, b: Lua, c: Lua)
    requires
        #[trigger] undisturbed(a, b),
        #[trigger] undisturbed(b, c),
    ensures
        undisturbed(a, c),
{
    reveal(undisturbed);
    assert(finalizer_calls(a, c) =~= finalizer_calls(a, b) + finalizer_calls(b, c)) by {
        assert(finalized(c).take(finalized(b).len() as int) =~= finalized(b));
    }
    if let Some(s) = script_state(a) {
        calls_compose(s, finalizer_calls(a, b), finalizer_calls(b, c));
    }
}

/// The calls of finalizers are script calls.
pub broadcast proof fn undisturbed_by_script_calls(a: Lua, b: Lua)
    requires
        #[trigger] undisturbed(a, b),
    ensures
        only_script_calls(a, b),
{
    reveal(undisturbed);
    reveal(only_script_calls);
    if let Some(s) = script_state(a) {
        assert(after_calls(s, finalizer_calls(a, b)) == script_state(b)->0);
    }
}

/// After a stretch in which the interpreter was undisturbed, the calls of finalizers are counted
/// from its end.
pub proof fn settled_in_steps(a: Lua, b: Lua, c: Lua)
    requires
        undisturbed(a, b),
        script_state(a) is Some,
        finalized(b).is_prefix_of(finalized(c)),
    ensures
        finalized(a).is_prefix_of(finalized(c)),
        settled(a, c) == settled(b, c),
{
    reveal(undisturbed);
    assert(finalized(c).take(finalized(b).len() as int) =~= finalized(b));
    assert(finalizer_calls(a, c) =~= finalizer_calls(a, b) + finalizer_calls(b, c));
    calls_compose(script_state(a)->0, finalizer_calls(a, b), finalizer_calls(b, c));
}

/// What finalizers leave is reached by script calls.
pub proof fn settled_by_script_calls(a: Lua, b: Lua)
    requires
        script_state(a) is Some,
    ensures
        reached_by_calls(script_state(a)->0, settled(a, b)),
{
    assert(after_calls(script_state(a)->0, finalizer_calls(a, b)) == settled(a, b));
}

/// An interpreter that is undisturbed still has the playback snapshot, the devices and the name of
/// the current plugin that it had. No effect, handler or logged line is taken back, and nothing at
/// all is changed where no finalizer makes a call meanwhile.
pub proof fn undisturbed_states_only_grow(before: Lua, after: Lua)
    requires
        undisturbed(before, after),
        script_state(before) is Some,
    ensures
        script_state(after) is Some,
        script_state(after)->0.playback == script_state(before)->0.playback,
        script_state(after)->0.devices == script_state(before)->0.devices,
        script_state(after)->0.current_plugin == script_state(before)->0.current_plugin,
        script_state(before)->0.effects.is_prefix_of(script_state(after)->0.effects),
        script_state(before)->0.handlers.is_prefix_of(script_state(after)->0.handlers),
        script_state(before)->0.log.is_prefix_of(script_state(after)->0.log),
        finalized(after) == finalized(before) ==> script_state(after) == script_state(before),
{
    reveal(undisturbed);
    settled_by_script_calls(before, after);
    calls_only_append(script_state(before)->0, settled(before, after));
    if finalized(after) == finalized(before) {
        assert(finalizer_calls(before, after) =~= Seq::empty());
    }
}

/// Script calls followed by script calls are script calls.
pub broadcast proof fn script_calls_in_steps(a: Lua, b: Lua, c: Lua)
    requires
        #[trigger] only_script_calls(a, b),
        #[trigger] only_script_calls(b, c),
    ensures
        only_script_calls(a, c),
{
    reveal(only_script_calls);
    if let Some(s) = script_state(a) {
        reached_in_steps(s, script_state(b)->0, script_state(c)->0);
    }
}

/// An interpreter that is undisturbed is a handle to the same Lua state.
pub broadcast proof fn undisturbed_at_home(a: Lua, b: Lua)
    requires
        #[trigger] undisturbed(a, b),
    ensures
        home(b) == home(a),
{
    reveal(undisturbed);
}

/// Global variables that are kept by one thing and then by another are kept by both.
pub broadcast proof fn globals_kept_in_steps(a: Lua, b: Lua, c: Lua)
    requires
        #[trigger] globals_kept(a, b),
        #[trigger] globals_kept(b, c),
    ensures
        globals_kept(a, c),
{
    reveal(globals_kept);
}

pub broadcast group group_undisturbed {
    undisturbed_in_steps,
    undisturbed_at_home,
}

/// How many references the library may hold on a new interpreter.
pub open spec fn engine_room() -> int {
    12
}

/// How many references a script function may need.
pub open spec fn script_room() -> int {
    4
}

/// `mlua::Lua::new`: a new interpreter with the safe part of Lua's standard library. It keeps
/// no shared state, and no script has run on it.
#[verifier::external_body]
pub(crate) fn new_interpreter() -> (lua: Lua)
    ensures
        shared_in(lua) is None,
        untouched(lua),
        room(lua) >= engine_room(),
{
    Lua::new()
}

/// `mlua::Lua::set_app_data`: the interpreter keeps `shared`, in place of what it kept before, and
/// is otherwise as it was. The library never borrows what the interpreter keeps, so the call does
/// not panic.
#[verifier::external_body]
pub(crate) fn put_shared(lua: &mut Lua, shared: ScriptShared)
    ensures
        *final(lua) == keeping(*old(lua), Some(shared@)),
        forall|start: Lua, kept: Option<StoreView>|
            *old(lua) == #[trigger] keeping(start, kept) ==> *final(lua) == keeping(
                start,
                Some(shared@),
            ),
        shared_in(*final(lua)) == Some(shared@),
        handlers_in(*final(lua)) == handlers_in(*old(lua)),
        finalized(*final(lua)) == finalized(*old(lua)),
        forall|name: Seq<char>| #[trigger]
            global_in(*final(lua), name) == global_in(*old(lua), name),
        home(*final(lua)) == home(*old(lua)),
        room(*final(lua)) == room(*old(lua)),
{
    lua.set_app_data(shared);
}

/// `mlua::Lua::remove_app_data`: takes out the shared state that the interpreter keeps, if it
/// keeps one; otherwise the interpreter is as it was. The library never borrows what the
/// interpreter keeps, so the call does not panic.
#[verifier::external_body]
pub(crate) fn take_shared(lua: &mut Lua) -> (shared: Option<ScriptShared>)
    ensures
        *final(lua) == keeping(*old(lua), None),
        *old(lua) == keeping(*old(lua), shared_in(*old(lua))),
        shared_in(*final(lua)) is None,
        handlers_in(*final(lua)) == handlers_in(*old(lua)),
        finalized(*final(lua)) == finalized(*old(lua)),
        home(*final(lua)) == home(*old(lua)),
        room(*final(lua)) == room(*old(lua)),
        match shared {
            Some(s) => shared_in(*old(lua)) == Some(s@),
            None => shared_in(*old(lua)) is None,
        },
{
    lua.remove_app_data()
}

/// `mlua::IntoLua::into_lua`: the Lua value of a scalar, with `mlua::Value::NULL` for the absent
/// one. Only a text takes memory of Lua and may run finalizers. The call fails only where Lua is
/// out of memory or of stack space.
#[verifier::external_body]
pub(crate) fn scalar_value(lua: &mut Lua, scalar: Scalar) -> (value: Result<Value, Error>)
    requires
        room(*old(lua)) >= 1,
    ensures
        undisturbed(*old(lua), *final(lua)),
        globals_kept(*old(lua), *final(lua)),
        !(scalar is Text) ==> *final(lua) == *old(lua),
        match value {
            Ok(v) => {
                &&& is_scalar(v, scalar@)
                &&& homed(v, home(*final(lua)))
                &&& held(v) <= 1
                &&& room(*final(lua)) >= room(*old(lua)) - held(v)
            },
            Err(e) => scalar is Text && out_of_resources(e) && room(*final(lua)) >= room(*old(lua)),
        },
{
    match scalar {
        Scalar::Nil => Ok(Value::Nil),
        Scalar::Null => Ok(Value::NULL),
        Scalar::Bool(b) => b.into_lua(lua),
        Scalar::Integer(n) => n.into_lua(lua),
        Scalar::Text(s) => s.into_lua(lua),
    }
}

/// `mlua::Lua::create_table`: a new table without fields. The call fails only where Lua is out of
/// memory or of stack space.
#[verifier::external_body]
pub(crate) fn new_record(lua: &mut Lua) -> (table: Result<Table, Error>)
    requires
        room(*old(lua)) >= 1,
    ensures
        undisturbed(*old(lua), *final(lua)),
        globals_kept(*old(lua), *final(lua)),
        match table {
            Ok(t) => {
                &&& record_of(t, Seq::empty())
                &&& table_home(t) == home(*final(lua))
                &&& room(*final(lua)) >= room(*old(lua)) - 1
            },
            Err(e) => out_of_resources(e) && room(*final(lua)) >= room(*old(lua)),
        },
{
    lua.create_table()
}

/// `mlua::Table::set`: the table with one more field. Table and value are taken, and the table is
/// given back. A table that is being made has no metatable, and no script can reach it. The call
/// fails only where Lua is out of memory or of stack space. It panics where table or value belong
/// to another Lua state.
#[verifier::external_body]
pub(crate) fn set_field(lua: &mut Lua, table: Table, name: &str, value: Value) -> (set: Result<
    Table,
    Error,
>)
    requires
        exists|fields: Seq<(Seq<char>, Value)>| #[trigger] record_of(table, fields),
        table_home(table) == home(*old(lua)),
        homed(value, home(*old(lua))),
    ensures
        undisturbed(*old(lua), *final(lua)),
        globals_kept(*old(lua), *final(lua)),
        match set {
            Ok(t) => {
                &&& forall|fields: Seq<(Seq<char>, Value)>| #[trigger]
                    record_of(table, fields) ==> record_of(t, fields.push((name@, value)))
                &&& table_home(t) == home(*final(lua))
                &&& room(*final(lua)) >= room(*old(lua)) + held(value)
            },
            Err(e) => out_of_resources(e) && room(*final(lua)) >= room(*old(lua)) + held(value) + 1,
        },
{
    table.set(name, value)?;
    Ok(table)
}

/// `mlua::Lua::create_table`, with the metatable by which `mlua` tells arrays: a new array without
/// items. The call fails only where Lua is out of memory or of stack space.
#[verifier::external_body]
pub(crate) fn new_list(lua: &mut Lua) -> (list: Result<Table, Error>)
    requires
        room(*old(lua)) >= 2,
    ensures
        undisturbed(*old(lua), *final(lua)),
        match list {
            Ok(t) => {
                &&& list_of(t, Seq::empty())
                &&& table_home(t) == home(*final(lua))
                &&& room(*final(lua)) >= room(*old(lua)) - 1
            },
            Err(e) => out_of_resources(e) && room(*final(lua)) >= room(*old(lua)),
        },
{
    let list = lua.create_table()?;
    list.set_metatable(Some(lua.array_metatable()));
    Ok(list)
}

/// `mlua::Table::raw_push`: the array with one more item. Array and item are taken, and the array
/// is given back. No script can reach an array that is being made. The call fails only where Lua
/// is out of memory or of stack space. It panics where array or item belong to another Lua state.
#[verifier::external_body]
pub(crate) fn push_item(lua: &mut Lua, list: Table, item: Value) -> (pushed: Result<Table, Error>)
    requires
        table_home(list) == home(*old(lua)),
        homed(item, home(*old(lua))),
    ensures
        undisturbed(*old(lua), *final(lua)),
        match pushed {
            Ok(t) => {
                &&& forall|items: Seq<Value>| #[trigger]
                    list_of(list, items) ==> list_of(t, items.push(item))
                &&& table_home(t) == home(*final(lua))
                &&& room(*final(lua)) >= room(*old(lua)) + held(item)
            },
            Err(e) => out_of_resources(e) && room(*final(lua)) >= room(*old(lua)) + held(item) + 1,
        },
{
    list.raw_push(item)?;
    Ok(list)
}

/// `mlua::Value::Table`: the table as a value.
#[verifier::external_body]
pub(crate) fn table_value(table: Table) -> (value: Value)
    ensures
        table_in(value) == Some(table),
        homed(value, table_home(table)),
        held(value) == 1,
{
    Value::Table(table)
}

/// `Drop` of `mlua::Table`: gives back the reference that the table holds.
#[verifier::external_body]
pub(crate) fn release_table(lua: &mut Lua, table: Table)
    requires
        table_home(table) == home(*old(lua)),
    ensures
        undisturbed(*old(lua), *final(lua)),
        globals_kept(*old(lua), *final(lua)),
        room(*final(lua)) >= room(*old(lua)) + 1,
{
    drop(table);
}

/// `Drop` of `mlua::Value`: gives back the reference that the value holds, if it holds one.
#[verifier::external_body]
pub(crate) fn release_value(lua: &mut Lua, value: Value)
    requires
        homed(value, home(*old(lua))),
    ensures
        undisturbed(*old(lua), *final(lua)),
        room(*final(lua)) >= room(*old(lua)) + held(value),
{
    drop(value);
}

/// `mlua::Table::set` on `mlua::Lua::globals`: gives a global variable a value. Where no script has
/// run, the globals have no metatable; then the call fails only where Lua is out of memory or of
/// stack space, and leaves the global variables as they were. Otherwise a script may have given
/// them a metatable whose functions run in place of that; they reach the shared state and the
/// handlers through script calls only. It panics where the value belongs to another Lua state.
#[verifier::external_body]
pub(crate) fn set_global(lua: &mut Lua, name: &str, value: Value) -> (outcome: Result<(), Error>)
    requires
        homed(value, home(*old(lua))),
        room(*old(lua)) >= script_room() + 1,
    ensures
        only_script_calls(*old(lua), *final(lua)),
        room(*final(lua)) >= room(*old(lua)) + held(value),
        untouched(*old(lua)) ==> {
            &&& undisturbed(*old(lua), *final(lua))
            &&& untouched(*final(lua))
            &&& finalized(*final(lua)) == finalized(*old(lua))
            &&& match outcome {
                Ok(_) => global_in(*final(lua), name@) == value,
                Err(e) => out_of_resources(e) && globals_kept(*old(lua), *final(lua)),
            }
        },
{
    lua.globals().set(name, value)
}

/// `mlua::Lua::gc_collect`: collects garbage, which runs the finalizers of what is no longer used.
/// The call fails only where Lua is out of memory or of stack space.
#[verifier::external_body]
pub(crate) fn collect(lua: &mut Lua) -> (outcome: Result<(), Error>)
    requires
        room(*old(lua)) >= script_room(),
    ensures
        undisturbed(*old(lua), *final(lua)),
        room(*final(lua)) >= room(*old(lua)),
        match outcome {
            Ok(_) => garbage_collected(*old(lua), *final(lua)),
            Err(e) => out_of_resources(e),
        },
{
    lua.gc_collect()
}

/// `mlua::Error::RuntimeError`: the error that carries just the given message.
#[verifier::external_body]
pub(crate) fn runtime_error(message: String) -> (error: Error)
    ensures
        error == raised(message@),
{
    Error::RuntimeError(message)
}

/// `ToString` of `mlua::Error`: the text of an error.
#[verifier::external_body]
pub(crate) fn error_message(error: &Error) -> (text: String)
    ensures
        text@ == error_text(*error),
{
    error.to_string()
}

/// `mlua::Chunk::exec` on `mlua::Lua::load`: compiles `source` under the given chunk name and
/// runs it. What the script does, whether it fails and whether it ends at all, rests on the
/// script; it reaches the shared state and the handlers through script calls only, because no
/// other function that scripts can call touches them. No reference outlives the call.
#[verifier::external_body]
pub(crate) fn run_source(lua: &mut Lua, name: &str, source: &str) -> (outcome: Result<(), Error>)
    requires
        room(*old(lua)) >= script_room() + 1,
    ensures
        source_ran(*old(lua), name@, source@, *final(lua), outcome),
        only_script_calls(*old(lua), *final(lua)),
        room(*final(lua)) >= room(*old(lua)),
{
    lua.load(source).set_name(name).exec()
}

/// `mlua::Function::call`: calls a Lua function with one argument and drops what it returns, with
/// the function and the argument. What the function does, whether it fails and whether it ends at
/// all, rests on the script; it reaches the shared state and the handlers through script calls
/// only, because no other function that scripts can call touches them. It panics where the
/// function or the argument belongs to another Lua state.
#[verifier::external_body]
pub(crate) fn call_function(lua: &mut Lua, function: Function, argument: Value) -> (outcome: Result<
    (),
    Error,
>)
    requires
        callback_home(function) == home(*old(lua)),
        homed(argument, home(*old(lua))),
        room(*old(lua)) >= script_room(),
    ensures
        function_called(*old(lua), function, argument, *final(lua), outcome),
        only_script_calls(*old(lua), *final(lua)),
        room(*final(lua)) >= room(*old(lua)) + held(argument) + 1,
{
    function.call::<()>(argument)
}

/// All of a scalar is seen: which one it is, and what it carries.
pub proof fn scalars_are_seen_whole(scalar: Scalar)
    ensures
        match scalar {
            Scalar::Nil => scalar@ == ScalarView::Nil,
            Scalar::Null => scalar@ == ScalarView::Null,
            Scalar::Bool(b) => scalar@ == ScalarView::Bool(b),
            Scalar::Integer(n) => scalar@ == ScalarView::Integer(n),
            Scalar::Text(s) => scalar@ == ScalarView::Text(s@),
        },
{
}

/// What an undisturbed interpreter keeps for scripts is what it kept before, after just the calls
/// that finalizers made in between, in their order.
pub proof fn undisturbed_interpreters_heed_finalizers_alone(before: Lua, after: Lua)
    requires
        undisturbed(before, after),
        shared_in(before) is Some,
        handlers_in(before) is Some,
    ensures
        home(after) == home(before),
        finalized(before).is_prefix_of(finalized(after)),
        shared_in(after) is Some,
        handlers_in(after) is Some,
        shared_in(after)->0.with_handlers(handlers_in(after)->0) == after_calls(
            shared_in(before)->0.with_handlers(handlers_in(before)->0),
            finalized(after).skip(finalized(before).len() as int),
        ),
{
    reveal(undisturbed);
}

/// What script calls leave an interpreter to keep is what some row of them makes of what it kept.
pub proof fn script_calls_are_all_that_happens(before: Lua, after: Lua) -> (calls: Seq<CallView>)
    requires
        only_script_calls(before, after),
        shared_in(before) is Some,
        handlers_in(before) is Some,
    ensures
        home(after) == home(before),
        shared_in(after) is Some,
        handlers_in(after) is Some,
        shared_in(after)->0.with_handlers(handlers_in(after)->0) == after_calls(
            shared_in(before)->0.with_handlers(handlers_in(before)->0),
            calls,
        ),
{
    reveal(only_script_calls);
    reached_states_are_left_by_calls(script_state(before)->0, script_state(after)->0)
}

} // verus!
