//! The list of handlers, which stands in a table of the interpreter that no script can reach.
//!
//! The functions of this module call the `mlua` crate, and their contracts are believed, not
//! proved. Each entry of the list is a table with the fields `event`, `plugin` and `callback`.
//! Getting hold of the list takes a text, so that finalizers may run; the list itself is read and
//! changed after that.

use crate::interpreter::{
    callback_home, finalized, globals_kept, handlers_in, home, out_of_resources, room,
    script_state, settled, shared_in, undisturbed,
};
use crate::shared::HandlerView;
use mlua::{Error, Function, Lua, Table};
use vstd::prelude::*;

verus! {

/// The name of the list in Lua's registry.
pub const HANDLERS_KEY: &'static str = "spotatui.handlers";

/// `mlua::Lua::create_table` and `mlua::Lua::set_named_registry_value`: makes an empty list of
/// handlers. The call fails only where Lua is out of memory or of stack space.
#[verifier::external_body]
pub(crate) fn create_handlers(lua: &mut Lua) -> (outcome: Result<(), Error>)
    requires
        shared_in(*old(lua)) is None,
        room(*old(lua)) >= 1,
    ensures
        shared_in(*final(lua)) is None,
        globals_kept(*old(lua), *final(lua)),
        room(*final(lua)) >= room(*old(lua)),
        match outcome {
            Ok(_) => handlers_in(*final(lua)) == Some(Seq::<HandlerView>::empty()),
            Err(e) => out_of_resources(e),
        },
{
    lua.set_named_registry_value(HANDLERS_KEY, lua.create_table()?)
}

/// `mlua::Lua::named_registry_value`, `mlua::Lua::create_table`, `mlua::Table::raw_set` and
/// `mlua::Table::raw_push`: appends a handler to the list. The entry is made first, so that
/// finalizers run before the list grows. The call fails only where Lua is out of memory or of
/// stack space. It panics where the callback belongs to another Lua state.
#[verifier::external_body]
pub(crate) fn push_handler(
    lua: &mut Lua,
    event: &str,
    plugin: &str,
    callback: Function,
) -> (outcome: Result<(), Error>)
    requires
        script_state(*old(lua)) is Some,
        callback_home(callback) == home(*old(lua)),
        room(*old(lua)) >= 2,
    ensures
        home(*final(lua)) == home(*old(lua)),
        finalized(*old(lua)).is_prefix_of(finalized(*final(lua))),
        room(*final(lua)) >= room(*old(lua)),
        match outcome {
            Ok(_) => script_state(*final(lua)) == Some(
                settled(*old(lua), *final(lua)).handler_added(
                    HandlerView { event: event@, plugin: plugin@, callback },
                ),
            ),
            Err(e) => out_of_resources(e) && undisturbed(*old(lua), *final(lua)),
        },
{
    let entry = lua.create_table()?;
    entry.raw_set("event", event)?;
    entry.raw_set("plugin", plugin)?;
    entry.raw_set("callback", callback)?;
    lua.named_registry_value::<Table>(HANDLERS_KEY)?.raw_push(entry)
}

/// `mlua::Lua::named_registry_value` and `mlua::Table::raw_len`: the number of handlers. The call
/// fails only where Lua is out of memory or of stack space.
#[verifier::external_body]
pub(crate) fn count_handlers(lua: &mut Lua) -> (count: Result<usize, Error>)
    requires
        script_state(*old(lua)) is Some,
        room(*old(lua)) >= 1,
    ensures
        undisturbed(*old(lua), *final(lua)),
        room(*final(lua)) >= room(*old(lua)),
        match count {
            Ok(n) => n == script_state(*final(lua))->0.handlers.len(),
            Err(e) => out_of_resources(e),
        },
{
    Ok(lua.named_registry_value::<Table>(HANDLERS_KEY)?.raw_len())
}

/// `mlua::Lua::named_registry_value` and `mlua::Table::raw_get`: the name of the event that the
/// handler at a position, counted from one, is registered for. The call fails only where Lua is
/// out of memory or of stack space.
#[verifier::external_body]
pub(crate) fn handler_event(lua: &mut Lua, position: usize) -> (event: Result<String, Error>)
    requires
        script_state(*old(lua)) is Some,
        1 <= position <= script_state(*old(lua))->0.handlers.len(),
        room(*old(lua)) >= 2,
    ensures
        undisturbed(*old(lua), *final(lua)),
        room(*final(lua)) >= room(*old(lua)),
        match event {
            Ok(name) => name@ == script_state(*old(lua))->0.handlers[position - 1].event,
            Err(e) => out_of_resources(e),
        },
{
    let list: Table = lua.named_registry_value(HANDLERS_KEY)?;
    list.raw_get::<Table>(position)?.raw_get("event")
}

/// `mlua::Lua::named_registry_value` and `mlua::Table::raw_get`: the name of the plugin that
/// registered the handler at a position, counted from one. The call fails only where Lua is out of
/// memory or of stack space.
#[verifier::external_body]
pub(crate) fn handler_plugin(lua: &mut Lua, position: usize) -> (plugin: Result<String, Error>)
    requires
        script_state(*old(lua)) is Some,
        1 <= position <= script_state(*old(lua))->0.handlers.len(),
        room(*old(lua)) >= 2,
    ensures
        undisturbed(*old(lua), *final(lua)),
        room(*final(lua)) >= room(*old(lua)),
        match plugin {
            Ok(name) => name@ == script_state(*old(lua))->0.handlers[position - 1].plugin,
            Err(e) => out_of_resources(e),
        },
{
    let list: Table = lua.named_registry_value(HANDLERS_KEY)?;
    list.raw_get::<Table>(position)?.raw_get("plugin")
}

/// `mlua::Lua::named_registry_value` and `mlua::Table::raw_get`: the callback of the handler at a
/// position, counted from one. The call fails only where Lua is out of memory or of stack space.
#[verifier::external_body]
pub(crate) fn handler_callback(lua: &mut Lua, position: usize) -> (callback: Result<Function, Error>)
    requires
        script_state(*old(lua)) is Some,
        1 <= position <= script_state(*old(lua))->0.handlers.len(),
        room(*old(lua)) >= 3,
    ensures
        undisturbed(*old(lua), *final(lua)),
        match callback {
            Ok(f) => {
                &&& f == script_state(*old(lua))->0.handlers[position - 1].callback
                &&& callback_home(f) == home(*final(lua))
                &&& room(*final(lua)) >= room(*old(lua)) - 1
            },
            Err(e) => out_of_resources(e) && room(*final(lua)) >= room(*old(lua)),
        },
{
    let list: Table = lua.named_registry_value(HANDLERS_KEY)?;
    list.raw_get::<Table>(position)?.raw_get("callback")
}

/// `mlua::Lua::named_registry_value` and `mlua::Table::raw_remove`: takes the handler at a
/// position, counted from one, out of the list; those behind it move up. The call fails only where
/// Lua is out of memory or of stack space.
#[verifier::external_body]
pub(crate) fn remove_handler(lua: &mut Lua, position: usize) -> (outcome: Result<(), Error>)
    requires
        script_state(*old(lua)) is Some,
        1 <= position <= script_state(*old(lua))->0.handlers.len(),
        room(*old(lua)) >= 1,
    ensures
        home(*final(lua)) == home(*old(lua)),
        finalized(*old(lua)).is_prefix_of(finalized(*final(lua))),
        room(*final(lua)) >= room(*old(lua)),
        match outcome {
            Ok(_) => script_state(*final(lua)) == Some(
                settled(*old(lua), *final(lua)).handler_removed(position - 1),
            ),
            Err(e) => out_of_resources(e) && undisturbed(*old(lua), *final(lua)),
        },
{
    lua.named_registry_value::<Table>(HANDLERS_KEY)?.raw_remove(position)
}

} // verus!
