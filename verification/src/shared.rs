//! The state that plugins and the player share, and what each script call does to it.

use crate::effects::{effects_of, EffectView, ScriptEffect};
use crate::events::{event_named, unknown_event_text, ScriptEvent};
use crate::plugin_api::{
    clone_devices, devices_of, playback_of, texts_of, DeviceInfo, DeviceView, PlaybackState,
    PlaybackView, TrackInfo, TrackView,
};
use mlua::Function;
use vstd::prelude::*;

verus! {

/// A Lua function handle, passed around unopened.
#[verifier::external_type_specification]
#[verifier::external_body]
pub struct ExFunction(mlua::Function);

/// Seconds for which a notification is shown when the script names none.
pub const DEFAULT_NOTIFY_SECS: u64 = 4;

/// Seconds for which the failure of a handler is shown.
pub const FAILURE_NOTIFY_SECS: u64 = 6;

/// A callback that a plugin registered for an event.
pub struct HandlerView {
    /// Name of the event.
    pub event: Seq<char>,
    pub plugin: Seq<char>,
    pub callback: Function,
}

/// State shared between the scripts and the player. The handlers stand in the interpreter.
pub struct ScriptShared {
    /// The snapshot that `spotatui.playback()` reads.
    pub playback: Option<PlaybackState>,
    /// The devices that `spotatui.devices()` reads.
    pub devices: Vec<DeviceInfo>,
    /// Effects in the order in which they were queued.
    pub effects: Vec<ScriptEffect>,
    /// Name of the plugin whose source is being loaded.
    pub current_plugin: String,
    /// Lines that scripts logged, in order.
    pub log: Vec<String>,
}

/// What a [`ScriptShared`] holds.
#[verifier::ext_equal]
pub struct StoreView {
    pub playback: Option<PlaybackView>,
    pub devices: Seq<DeviceView>,
    pub effects: Seq<EffectView>,
    pub current_plugin: Seq<char>,
    pub log: Seq<Seq<char>>,
}

/// All that script functions read and change: what a [`ScriptShared`] holds, and the handlers in
/// the order in which they were registered.
#[verifier::ext_equal]
pub struct SharedView {
    pub playback: Option<PlaybackView>,
    pub devices: Seq<DeviceView>,
    pub effects: Seq<EffectView>,
    pub handlers: Seq<HandlerView>,
    pub current_plugin: Seq<char>,
    pub log: Seq<Seq<char>>,
}

impl StoreView {
    /// The shared state together with handlers.
    pub open spec fn with_handlers(self, handlers: Seq<HandlerView>) -> SharedView {
        SharedView {
            playback: self.playback,
            devices: self.devices,
            effects: self.effects,
            handlers,
            current_plugin: self.current_plugin,
            log: self.log,
        }
    }
}

impl SharedView {
    /// The state without its handlers.
    pub open spec fn store(self) -> StoreView {
        StoreView {
            playback: self.playback,
            devices: self.devices,
            effects: self.effects,
            current_plugin: self.current_plugin,
            log: self.log,
        }
    }

    /// The state with one more handler.
    pub open spec fn handler_added(self, handler: HandlerView) -> SharedView {
        SharedView { handlers: self.handlers.push(handler), ..self }
    }

    /// The state without the handler at an index.
    pub open spec fn handler_removed(self, index: int) -> SharedView {
        SharedView { handlers: self.handlers.remove(index), ..self }
    }
}

impl View for ScriptShared {
    type V = StoreView;

    open spec fn view(&self) -> StoreView {
        StoreView {
            playback: playback_of(self.playback),
            devices: devices_of(self.devices@),
            effects: effects_of(self.effects@),
            current_plugin: self.current_plugin@,
            log: texts_of(self.log@),
        }
    }
}

/// The shared state before any plugin is loaded.
pub open spec fn fresh_store() -> StoreView {
    StoreView {
        playback: None,
        devices: Seq::empty(),
        effects: Seq::empty(),
        current_plugin: Seq::empty(),
        log: Seq::empty(),
    }
}

/// The state before any plugin is loaded.
pub open spec fn fresh_shared() -> SharedView {
    fresh_store().with_handlers(Seq::empty())
}

/// A call of one of the script functions that change the shared state.
pub enum ApiCall {
    /// `spotatui.play()`
    Play,
    /// `spotatui.pause()`
    Pause,
    /// `spotatui.next()`
    Next,
    /// `spotatui.previous()`
    Previous,
    /// `spotatui.seek(ms)`
    Seek(u32),
    /// `spotatui.set_volume(percent)`
    SetVolume(i64),
    /// `spotatui.shuffle(on)`
    Shuffle(bool),
    /// `spotatui.search(query)`
    Search(String),
    /// `spotatui.notify(message, ttl)`
    Notify(String, Option<u64>),
    /// `spotatui.log(message)`
    Log(String),
}

/// A call of one of the script functions that change something: a subscription, or what an
/// [`ApiCall`] holds.
pub enum CallView {
    /// `spotatui.on(event, callback)`
    On(Seq<char>, Function),
    Play,
    Pause,
    Next,
    Previous,
    Seek(u32),
    SetVolume(i64),
    Shuffle(bool),
    Search(Seq<char>),
    Notify(Seq<char>, Option<u64>),
    Log(Seq<char>),
}

impl View for ApiCall {
    type V = CallView;

    open spec fn view(&self) -> CallView {
        match *self {
            ApiCall::Play => CallView::Play,
            ApiCall::Pause => CallView::Pause,
            ApiCall::Next => CallView::Next,
            ApiCall::Previous => CallView::Previous,
            ApiCall::Seek(ms) => CallView::Seek(ms),
            ApiCall::SetVolume(percent) => CallView::SetVolume(percent),
            ApiCall::Shuffle(on) => CallView::Shuffle(on),
            ApiCall::Search(query) => CallView::Search(query@),
            ApiCall::Notify(message, ttl) => CallView::Notify(message@, ttl),
            ApiCall::Log(message) => CallView::Log(message@),
        }
    }
}

/// A volume that a script asked for, brought into the range of a percentage.
pub open spec fn clamped_percent(percent: i64) -> u8 {
    if percent < 0 {
        0
    } else if percent > 100 {
        100
    } else {
        percent as u8
    }
}

/// The effect that a call queues, for the calls that queue one.
pub open spec fn queued_effect(call: CallView) -> Option<EffectView> {
    match call {
        CallView::On(_, _) => None,
        CallView::Play => Some(EffectView::Play),
        CallView::Pause => Some(EffectView::Pause),
        CallView::Next => Some(EffectView::Next),
        CallView::Previous => Some(EffectView::Previous),
        CallView::Seek(ms) => Some(EffectView::Seek(ms)),
        CallView::SetVolume(percent) => Some(EffectView::SetVolume(clamped_percent(percent))),
        CallView::Shuffle(on) => Some(EffectView::SetShuffle(on)),
        CallView::Search(query) => Some(EffectView::Search(query)),
        CallView::Notify(message, ttl) => Some(
            EffectView::Notify(
                message,
                match ttl {
                    Some(secs) => secs,
                    None => DEFAULT_NOTIFY_SECS,
                },
            ),
        ),
        CallView::Log(_) => None,
    }
}

/// The message with which a call is refused, for the calls that are.
pub open spec fn refusal(call: CallView) -> Option<Seq<char>> {
    match call {
        CallView::On(name, _) if event_named(name) is None => Some(unknown_event_text(name)),
        _ => None,
    }
}

/// The state after a call.
pub open spec fn after_call(before: SharedView, call: CallView) -> SharedView {
    match call {
        CallView::On(name, callback) => if event_named(name) is Some {
            before.handler_added(HandlerView { event: name, plugin: before.current_plugin, callback })
        } else {
            before
        },
        CallView::Log(message) => SharedView { log: before.log.push("[lua] "@ + message), ..before },
        _ => match queued_effect(call) {
            Some(effect) => SharedView { effects: before.effects.push(effect), ..before },
            None => before,
        },
    }
}

impl ScriptShared {
    /// The shared state before any plugin is loaded.
    pub fn new() -> (shared: ScriptShared)
        ensures
            shared@ == fresh_store(),
    {
        let shared = ScriptShared {
            playback: None,
            devices: Vec::new(),
            effects: Vec::new(),
            current_plugin: String::new(),
            log: Vec::new(),
        };
        assert(shared@ =~= fresh_store());
        shared
    }

    /// Appends an effect to the queue.
    pub fn queue(&mut self, effect: ScriptEffect)
        ensures
            final(self)@ == (StoreView { effects: old(self)@.effects.push(effect@), ..old(self)@ }),
    {
        self.effects.push(effect);
        assert(self@.effects =~= old(self)@.effects.push(effect@));
    }

    /// Carries out one script call.
    pub fn serve(&mut self, call: ApiCall)
        ensures
            forall|handlers: Seq<HandlerView>| #[trigger]
                final(self)@.with_handlers(handlers) == after_call(
                    old(self)@.with_handlers(handlers),
                    call@,
                ),
    {
        match call {
            ApiCall::Play => self.queue(ScriptEffect::Play),
            ApiCall::Pause => self.queue(ScriptEffect::Pause),
            ApiCall::Next => self.queue(ScriptEffect::Next),
            ApiCall::Previous => self.queue(ScriptEffect::Previous),
            ApiCall::Seek(ms) => self.queue(ScriptEffect::Seek(ms)),
            ApiCall::SetVolume(percent) => {
                let clamped: u8 = if percent < 0 {
                    0
                } else if percent > 100 {
                    100
                } else {
                    percent as u8
                };
                self.queue(ScriptEffect::SetVolume(clamped));
            },
            ApiCall::Shuffle(on) => self.queue(ScriptEffect::SetShuffle(on)),
            ApiCall::Search(query) => self.queue(ScriptEffect::Search(query)),
            ApiCall::Notify(message, ttl) => {
                let secs: u64 = match ttl {
                    Some(secs) => secs,
                    None => DEFAULT_NOTIFY_SECS,
                };
                self.queue(ScriptEffect::Notify(message, secs));
            },
            ApiCall::Log(message) => {
                let mut line = "[lua] ".to_owned();
                line.append(message.as_str());
                self.log.push(line);
                assert(self@.log =~= old(self)@.log.push(line@));
            },
        }
    }
}

/// What is shown of a handler that failed.
pub open spec fn failure_text(
    plugin: Seq<char>,
    event: Seq<char>,
    failure: Seq<char>,
) -> Seq<char> {
    plugin + ": error in on_"@ + event + ": "@ + failure
}

/// The state after the handler at an index failed: the handler is gone, and the failure is queued
/// to be shown.
pub open spec fn after_failure(before: SharedView, index: int, failure: Seq<char>) -> SharedView {
    SharedView {
        handlers: before.handlers.remove(index),
        effects: before.effects.push(
            EffectView::NotifyError(
                failure_text(before.handlers[index].plugin, before.handlers[index].event, failure),
                FAILURE_NOTIFY_SECS,
            ),
        ),
        ..before
    }
}

impl ScriptShared {
    /// Queues a message that says that a handler failed.
    pub fn announce_failure(&mut self, plugin: String, event: ScriptEvent, failure: &str)
        ensures
            final(self)@ == (StoreView {
                effects: old(self)@.effects.push(
                    EffectView::NotifyError(
                        failure_text(plugin@, event.label(), failure@),
                        FAILURE_NOTIFY_SECS,
                    ),
                ),
                ..old(self)@
            }),
    {
        let mut message = plugin;
        message.append(": error in on_");
        message.append(event.name());
        message.append(": ");
        message.append(failure);
        self.queue(ScriptEffect::NotifyError(message, FAILURE_NOTIFY_SECS));
    }
}

/// A failed handler is disabled at once, and it alone: every other handler stays, in order, and
/// exactly one message is queued.
pub proof fn one_strike(before: SharedView, index: int, failure: Seq<char>)
    requires
        0 <= index < before.handlers.len(),
    ensures
        after_failure(before, index, failure).handlers.len() == before.handlers.len() - 1,
        forall|i: int|
            0 <= i < index ==> #[trigger] after_failure(before, index, failure).handlers[i]
                == before.handlers[i],
        forall|i: int|
            index <= i < before.handlers.len() - 1 ==> #[trigger] after_failure(
                before,
                index,
                failure,
            ).handlers[i] == before.handlers[i + 1],
        after_failure(before, index, failure).effects.drop_last() == before.effects,
        after_failure(before, index, failure).effects.last() is NotifyError,
{
    assert(after_failure(before, index, failure).effects.drop_last() =~= before.effects);
}

/// A script function that only reads.
#[derive(Debug, Clone, Copy, PartialEq, Eq, Structural)]
pub enum Query {
    /// `spotatui.playback()`
    Playback,
    /// `spotatui.current_track()`
    CurrentTrack,
    /// `spotatui.devices()`
    Devices,
}

/// What a query gives back.
pub enum Reply {
    /// There is nothing to report.
    Nothing,
    Playback(PlaybackState),
    Track(TrackInfo),
    Devices(Vec<DeviceInfo>),
}

/// What a [`Reply`] holds.
pub enum ReplyView {
    Nothing,
    Playback(PlaybackView),
    Track(TrackView),
    Devices(Seq<DeviceView>),
}

impl View for Reply {
    type V = ReplyView;

    open spec fn view(&self) -> ReplyView {
        match *self {
            Reply::Nothing => ReplyView::Nothing,
            Reply::Playback(playback) => ReplyView::Playback(playback@),
            Reply::Track(track) => ReplyView::Track(track@),
            Reply::Devices(devices) => ReplyView::Devices(devices_of(devices@)),
        }
    }
}

/// The reply to a query.
pub open spec fn reply_to(shared: StoreView, query: Query) -> ReplyView {
    match query {
        Query::Playback => match shared.playback {
            Some(playback) => ReplyView::Playback(playback),
            None => ReplyView::Nothing,
        },
        Query::CurrentTrack => match shared.playback {
            Some(playback) => match playback.track {
                Some(track) => ReplyView::Track(track),
                None => ReplyView::Nothing,
            },
            None => ReplyView::Nothing,
        },
        Query::Devices => ReplyView::Devices(shared.devices),
    }
}

impl ScriptShared {
    /// Answers a query with copies of what the state holds.
    pub fn answer(&self, query: Query) -> (reply: Reply)
        ensures
            reply@ == reply_to(self@, query),
    {
        match query {
            Query::Playback => match &self.playback {
                Some(playback) => Reply::Playback(playback.clone()),
                None => Reply::Nothing,
            },
            Query::CurrentTrack => match &self.playback {
                Some(playback) => match &playback.track {
                    Some(track) => Reply::Track(track.clone()),
                    None => Reply::Nothing,
                },
                None => Reply::Nothing,
            },
            Query::Devices => Reply::Devices(clone_devices(&self.devices)),
        }
    }

    /// Takes all queued effects out of the queue, in the order in which they were queued.
    pub fn take_effects(&mut self) -> (effects: Vec<ScriptEffect>)
        ensures
            effects@ == old(self).effects@,
            final(self)@ == (StoreView { effects: Seq::empty(), ..old(self)@ }),
    {
        let mut effects: Vec<ScriptEffect> = Vec::new();
        effects.append(&mut self.effects);
        assert(self@.effects =~= Seq::empty());
        effects
    }

    /// Takes all logged lines, in the order in which they were logged.
    pub fn take_log(&mut self) -> (lines: Vec<String>)
        ensures
            lines@ == old(self).log@,
            final(self)@ == (StoreView { log: Seq::empty(), ..old(self)@ }),
    {
        let mut lines: Vec<String> = Vec::new();
        lines.append(&mut self.log);
        assert(self@.log =~= Seq::empty());
        lines
    }
}

/// The state after a row of calls.
pub open spec fn after_calls(before: SharedView, calls: Seq<CallView>) -> SharedView
    decreases calls.len(),
{
    if calls.len() == 0 {
        before
    } else {
        after_call(after_calls(before, calls.drop_last()), calls.last())
    }
}

/// Whether some row of script calls leads from one state to another.
pub open spec fn reached_by_calls(before: SharedView, after: SharedView) -> bool {
    exists|calls: Seq<CallView>| #[trigger] after_calls(before, calls) == after
}

/// The effects that a row of calls queues.
pub open spec fn queued_effects(calls: Seq<CallView>) -> Seq<EffectView>
    decreases calls.len(),
{
    if calls.len() == 0 {
        Seq::empty()
    } else {
        match queued_effect(calls.last()) {
            Some(effect) => queued_effects(calls.drop_last()).push(effect),
            None => queued_effects(calls.drop_last()),
        }
    }
}

/// Whether an effect's volume, if it has one, is a percentage.
pub open spec fn volume_in_range(effect: EffectView) -> bool {
    match effect {
        EffectView::SetVolume(percent) => percent <= 100,
        _ => true,
    }
}

/// Calls made one row after the other are the calls made as one row.
pub proof fn calls_compose(before: SharedView, first: Seq<CallView>, second: Seq<CallView>)
    ensures
        after_calls(after_calls(before, first), second) == after_calls(before, first + second),
    decreases second.len(),
{
    if second.len() == 0 {
        assert(first + second =~= first);
    } else {
        calls_compose(before, first, second.drop_last());
        assert((first + second).drop_last() =~= first + second.drop_last());
        assert((first + second).last() == second.last());
    }
}

/// Every state is reached from itself.
pub proof fn reached_from_itself(state: SharedView)
    ensures
        reached_by_calls(state, state),
{
    assert(after_calls(state, Seq::empty()) == state);
}

/// A state that one call makes is reached.
pub proof fn reached_by_one_call(state: SharedView, call: CallView)
    ensures
        reached_by_calls(state, after_call(state, call)),
{
    let calls = seq![call];
    assert(calls.drop_last() =~= Seq::empty());
    assert(after_calls(state, calls.drop_last()) == state);
    assert(after_calls(state, calls) == after_call(state, call));
}

/// What is reached from a reached state is reached from where that one came from.
pub proof fn reached_in_steps(a: SharedView, b: SharedView, c: SharedView)
    requires
        reached_by_calls(a, b),
        reached_by_calls(b, c),
    ensures
        reached_by_calls(a, c),
{
    let first = choose|calls: Seq<CallView>| #[trigger] after_calls(a, calls) == b;
    let second = choose|calls: Seq<CallView>| #[trigger] after_calls(b, calls) == c;
    calls_compose(a, first, second);
    assert(after_calls(a, first + second) == c);
}

/// A row of calls queues its effects behind those already queued, in the order of the calls,
/// and nothing else enters or leaves the queue.
pub proof fn effects_follow_the_calls(before: SharedView, calls: Seq<CallView>)
    ensures
        after_calls(before, calls).effects == before.effects + queued_effects(calls),
    decreases calls.len(),
{
    if calls.len() == 0 {
        assert(before.effects + queued_effects(calls) =~= before.effects);
    } else {
        effects_follow_the_calls(before, calls.drop_last());
        assert(after_calls(before, calls).effects =~= before.effects + queued_effects(calls));
    }
}

/// Whatever a script calls, it changes neither the playback snapshot nor the devices nor the
/// name of the plugin, and it removes no queued effect, no handler and no logged line.
pub proof fn calls_only_append(before: SharedView, after: SharedView)
    requires
        reached_by_calls(before, after),
    ensures
        after.playback == before.playback,
        after.devices == before.devices,
        after.current_plugin == before.current_plugin,
        before.effects.is_prefix_of(after.effects),
        before.handlers.is_prefix_of(after.handlers),
        before.log.is_prefix_of(after.log),
{
    let calls = choose|calls: Seq<CallView>| #[trigger] after_calls(before, calls) == after;
    calls_only_append_rec(before, calls);
}

proof fn calls_only_append_rec(before: SharedView, calls: Seq<CallView>)
    ensures
        after_calls(before, calls).playback == before.playback,
        after_calls(before, calls).devices == before.devices,
        after_calls(before, calls).current_plugin == before.current_plugin,
        before.effects.is_prefix_of(after_calls(before, calls).effects),
        before.handlers.is_prefix_of(after_calls(before, calls).handlers),
        before.log.is_prefix_of(after_calls(before, calls).log),
    decreases calls.len(),
{
    if calls.len() > 0 {
        calls_only_append_rec(before, calls.drop_last());
    }
}

/// What a script registers goes under the name of the current plugin.
pub proof fn handlers_carry_the_plugin(before: SharedView, after: SharedView, index: int)
    requires
        reached_by_calls(before, after),
        before.handlers.len() <= index < after.handlers.len(),
    ensures
        after.handlers[index].plugin == before.current_plugin,
{
    let calls = choose|calls: Seq<CallView>| #[trigger] after_calls(before, calls) == after;
    handlers_carry_the_plugin_rec(before, calls, index);
}

proof fn handlers_carry_the_plugin_rec(before: SharedView, calls: Seq<CallView>, index: int)
    requires
        before.handlers.len() <= index < after_calls(before, calls).handlers.len(),
    ensures
        after_calls(before, calls).handlers[index].plugin == before.current_plugin,
    decreases calls.len(),
{
    if calls.len() > 0 {
        calls_only_append_rec(before, calls.drop_last());
        if index < after_calls(before, calls.drop_last()).handlers.len() {
            handlers_carry_the_plugin_rec(before, calls.drop_last(), index);
        }
    }
}

/// The error messages in a queue.
pub open spec fn errors_in(effects: Seq<EffectView>) -> Seq<EffectView> {
    effects.filter(|e: EffectView| e is NotifyError)
}

/// A script cannot queue an error message: those in the queue are of handlers that failed.
pub proof fn scripts_queue_no_errors(before: SharedView, after: SharedView)
    requires
        reached_by_calls(before, after),
    ensures
        errors_in(after.effects) == errors_in(before.effects),
{
    let calls = choose|calls: Seq<CallView>| #[trigger] after_calls(before, calls) == after;
    scripts_queue_no_errors_rec(before, calls);
}

proof fn scripts_queue_no_errors_rec(before: SharedView, calls: Seq<CallView>)
    ensures
        errors_in(after_calls(before, calls).effects) == errors_in(before.effects),
    decreases calls.len(),
{
    if calls.len() > 0 {
        scripts_queue_no_errors_rec(before, calls.drop_last());
        if let Some(effect) = queued_effect(calls.last()) {
            errors_after_push(after_calls(before, calls.drop_last()).effects, effect);
        }
    }
}

/// An effect that is queued adds to the error messages just where it is one.
pub proof fn errors_after_push(effects: Seq<EffectView>, effect: EffectView)
    ensures
        errors_in(effects.push(effect)) == if effect is NotifyError {
            errors_in(effects).push(effect)
        } else {
            errors_in(effects)
        },
{
    reveal(Seq::filter);
    assert(effects.push(effect).drop_last() =~= effects);
}

/// A script cannot queue a volume above one hundred percent.
pub proof fn queued_volumes_are_percentages(before: SharedView, after: SharedView)
    requires
        reached_by_calls(before, after),
        forall|i: int| 0 <= i < before.effects.len() ==> volume_in_range(#[trigger] before.effects[i]),
    ensures
        forall|i: int| 0 <= i < after.effects.len() ==> volume_in_range(#[trigger] after.effects[i]),
{
    let calls = choose|calls: Seq<CallView>| #[trigger] after_calls(before, calls) == after;
    effects_follow_the_calls(before, calls);
    queued_effects_in_range(calls);
}

proof fn queued_effects_in_range(calls: Seq<CallView>)
    ensures
        forall|i: int|
            0 <= i < queued_effects(calls).len() ==> volume_in_range(
                #[trigger] queued_effects(calls)[i],
            ),
    decreases calls.len(),
{
    if calls.len() > 0 {
        queued_effects_in_range(calls.drop_last());
        let earlier = queued_effects(calls.drop_last());
        assert forall|i: int| 0 <= i < queued_effects(calls).len() implies volume_in_range(
            #[trigger] queued_effects(calls)[i],
        ) by {
            if i < earlier.len() {
                assert(queued_effects(calls)[i] == earlier[i]);
            }
        }
    }
}

/// A subscription to an event that does not exist leaves everything as it was. Any other puts
/// exactly one handler, under the name of the current plugin, behind those already registered.
pub proof fn subscription(before: SharedView, name: Seq<char>, callback: Function)
    ensures
        refusal(CallView::On(name, callback)) is Some ==> after_call(
            before,
            CallView::On(name, callback),
        ) == before,
        refusal(CallView::On(name, callback)) is None ==> {
            &&& exists|event: ScriptEvent| event.label() == name
            &&& after_call(before, CallView::On(name, callback)) == before.handler_added(
                HandlerView { event: name, plugin: before.current_plugin, callback },
            )
        },
{
}

/// A call that is made again and again queues its effect as many times, behind everything else.
pub proof fn repeated_calls_queue_repeatedly(
    before: SharedView,
    call: CallView,
    effect: EffectView,
    count: nat,
)
    requires
        queued_effect(call) == Some(effect),
    ensures
        after_calls(before, Seq::new(count, |i: int| call)) == (SharedView {
            effects: before.effects + Seq::new(count, |i: int| effect),
            ..before
        }),
    decreases count,
{
    let calls = Seq::new(count, |i: int| call);
    if count == 0 {
        assert(before.effects + Seq::new(count, |i: int| effect) =~= before.effects);
    } else {
        let fewer = (count - 1) as nat;
        repeated_calls_queue_repeatedly(before, call, effect, fewer);
        assert(calls.drop_last() =~= Seq::new(fewer, |i: int| call));
        assert((before.effects + Seq::new(fewer, |i: int| effect)).push(effect) =~= before.effects
            + Seq::new(count, |i: int| effect));
    }
}

/// A volume stands for the percentage next to it.
pub proof fn volumes_become_the_nearest_percentage(percent: i64)
    ensures
        clamped_percent(percent) <= 100,
        0 <= percent <= 100 ==> clamped_percent(percent) == percent,
        percent < 0 ==> clamped_percent(percent) == 0,
        percent > 100 ==> clamped_percent(percent) == 100,
{
}

/// A call that acts puts one effect with just what it was given behind those already queued, and
/// changes nothing else. A volume is brought into the range of a percentage, and a notification
/// without a time is shown for four seconds.
pub proof fn actions_queue_what_they_were_given(before: SharedView, call: CallView)
    requires
        !(call is On),
        !(call is Log),
    ensures
        before.effects.is_prefix_of(after_call(before, call).effects),
        after_call(before, call).effects.len() == before.effects.len() + 1,
        after_call(before, call) == (SharedView {
            effects: after_call(before, call).effects,
            ..before
        }),
        match (call, after_call(before, call).effects.last()) {
            (CallView::Play, queued) => queued is Play,
            (CallView::Pause, queued) => queued is Pause,
            (CallView::Next, queued) => queued is Next,
            (CallView::Previous, queued) => queued is Previous,
            (CallView::Seek(ms), queued) => queued == EffectView::Seek(ms),
            (CallView::SetVolume(percent), EffectView::SetVolume(volume)) => {
                &&& volume <= 100
                &&& 0 <= percent <= 100 ==> volume == percent
                &&& percent < 0 ==> volume == 0
                &&& percent > 100 ==> volume == 100
            },
            (CallView::Shuffle(on), queued) => queued == EffectView::SetShuffle(on),
            (CallView::Search(query), queued) => queued == EffectView::Search(query),
            (CallView::Notify(message, Some(secs)), queued) => queued == EffectView::Notify(
                message,
                secs,
            ),
            (CallView::Notify(message, None), queued) => queued == EffectView::Notify(message, 4),
            _ => false,
        },
{
}

/// A logged message becomes one line behind those already logged, marked as a script's, and nothing
/// else changes.
pub proof fn messages_are_logged(before: SharedView, message: Seq<char>)
    ensures
        after_call(before, CallView::Log(message)) == (SharedView {
            log: before.log.push("[lua] "@ + message),
            ..before
        }),
        refusal(CallView::Log(message)) is None,
{
}

/// A call is refused just where it subscribes to an event that does not exist. Any other
/// subscription puts its callback behind all handlers, for that event and under the name of the
/// current plugin, and changes nothing else.
pub proof fn callbacks_are_registered(before: SharedView, call: CallView)
    ensures
        match call {
            CallView::On(name, callback) => if exists|event: ScriptEvent| event.label() == name {
                &&& refusal(call) is None
                &&& after_call(before, call) == (SharedView {
                    handlers: before.handlers.push(
                        HandlerView { event: name, plugin: before.current_plugin, callback },
                    ),
                    ..before
                })
            } else {
                &&& refusal(call) == Some(unknown_event_text(name))
                &&& after_call(before, call) == before
            },
            _ => refusal(call) is None,
        },
{
}

/// All of a call is seen: which one it is, and what it carries.
pub proof fn calls_are_seen_whole(call: ApiCall)
    ensures
        match call {
            ApiCall::Play => call@ == CallView::Play,
            ApiCall::Pause => call@ == CallView::Pause,
            ApiCall::Next => call@ == CallView::Next,
            ApiCall::Previous => call@ == CallView::Previous,
            ApiCall::Seek(ms) => call@ == CallView::Seek(ms),
            ApiCall::SetVolume(percent) => call@ == CallView::SetVolume(percent),
            ApiCall::Shuffle(on) => call@ == CallView::Shuffle(on),
            ApiCall::Search(query) => call@ == CallView::Search(query@),
            ApiCall::Notify(message, ttl) => call@ == CallView::Notify(message@, ttl),
            ApiCall::Log(message) => call@ == CallView::Log(message@),
        },
{
}

/// Making no call changes nothing, and making one more carries out that call on what the ones
/// before it left.
pub proof fn calls_are_made_in_turn(before: SharedView, calls: Seq<CallView>, call: CallView)
    ensures
        after_calls(before, Seq::empty()) == before,
        after_calls(before, calls.push(call)) == after_call(after_calls(before, calls), call),
{
    assert(calls.push(call).drop_last() =~= calls);
}

/// Before any plugin is loaded there is nothing to read, nothing queued, nothing logged and no
/// handler.
pub proof fn fresh_states_are_empty()
    ensures
        fresh_shared().playback is None,
        fresh_shared().devices.len() == 0,
        fresh_shared().effects.len() == 0,
        fresh_shared().handlers.len() == 0,
        fresh_shared().current_plugin.len() == 0,
        fresh_shared().log.len() == 0,
        fresh_store() == fresh_shared().store(),
{
}

/// All of the shared state is seen, and together with the handlers it is all of the state.
pub proof fn shared_states_are_seen_whole(shared: ScriptShared, state: SharedView)
    ensures
        match shared.playback {
            Some(playback) => shared@.playback == Some(playback@),
            None => shared@.playback is None,
        },
        shared@.devices.len() == shared.devices@.len(),
        forall|i: int|
            0 <= i < shared.devices@.len() ==> #[trigger] shared@.devices[i]
                == shared.devices@[i]@,
        shared@.effects.len() == shared.effects@.len(),
        forall|i: int|
            0 <= i < shared.effects@.len() ==> #[trigger] shared@.effects[i]
                == shared.effects@[i]@,
        shared@.current_plugin == shared.current_plugin@,
        shared@.log.len() == shared.log@.len(),
        forall|i: int|
            0 <= i < shared.log@.len() ==> #[trigger] shared@.log[i] == shared.log@[i]@,
        state.store().with_handlers(state.handlers) == state,
        shared@.with_handlers(state.handlers).store() == shared@,
        shared@.with_handlers(state.handlers).handlers == state.handlers,
        state.store().playback == state.playback,
        state.store().devices == state.devices,
        state.store().effects == state.effects,
        state.store().current_plugin == state.current_plugin,
        state.store().log == state.log,
{
}

/// The message that is queued for a failed handler names its plugin and its event and says why it
/// failed; it is shown for six seconds. What scripts read and what they logged stay.
pub proof fn failures_are_announced(before: SharedView, index: int, failure: Seq<char>)
    requires
        0 <= index < before.handlers.len(),
    ensures
        after_failure(before, index, failure) == (SharedView {
            handlers: before.handlers.remove(index),
            effects: before.effects.push(
                EffectView::NotifyError(
                    before.handlers[index].plugin + ": error in on_"@
                        + before.handlers[index].event + ": "@ + failure,
                    6,
                ),
            ),
            ..before
        }),
{
}

/// A query reads what the state holds: the snapshot, its track, or all devices. All of what is
/// replied is seen.
pub proof fn replies_hold_what_was_asked_for(shared: ScriptShared, reply: Reply)
    ensures
        match shared.playback {
            Some(playback) => {
                &&& reply_to(shared@, Query::Playback) == ReplyView::Playback(playback@)
                &&& match playback.track {
                    Some(track) => reply_to(shared@, Query::CurrentTrack) == ReplyView::Track(
                        track@,
                    ),
                    None => reply_to(shared@, Query::CurrentTrack) is Nothing,
                }
            },
            None => {
                &&& reply_to(shared@, Query::Playback) is Nothing
                &&& reply_to(shared@, Query::CurrentTrack) is Nothing
            },
        },
        reply_to(shared@, Query::Devices) == ReplyView::Devices(shared@.devices),
        match reply {
            Reply::Nothing => reply@ is Nothing,
            Reply::Playback(playback) => reply@ == ReplyView::Playback(playback@),
            Reply::Track(track) => reply@ == ReplyView::Track(track@),
            Reply::Devices(devices) => {
                &&& reply@ matches ReplyView::Devices(seen)
                &&& seen.len() == devices@.len()
                &&& forall|i: int|
                    0 <= i < devices@.len() ==> #[trigger] seen[i] == devices@[i]@
            },
        },
{
}

/// A state that script calls lead to is what some row of them, made in turn, leaves.
pub proof fn reached_states_are_left_by_calls(before: SharedView, after: SharedView) -> (calls: Seq<
    CallView,
>)
    requires
        reached_by_calls(before, after),
    ensures
        after_calls(before, calls) == after,
{
    choose|calls: Seq<CallView>| #[trigger] after_calls(before, calls) == after
}

} // verus!
