//! The actions that plugins queue for the player.

use crate::app::{App, AppView, IoEvent, IoEventView};
use vstd::prelude::*;

verus! {

/// An action queued by a plugin, carried out when the queue is drained into the app.
///
/// Each one goes through the same app methods as the equivalent key binding.
#[derive(Debug)]
pub enum ScriptEffect {
    Play,
    Pause,
    Next,
    Previous,
    Seek(u32),
    SetVolume(u8),
    SetShuffle(bool),
    /// The country is looked up when the effect is carried out.
    Search(String),
    /// Message and seconds to show it.
    Notify(String, u64),
    /// Error message and seconds to show it. It is always shown, and normal messages do not
    /// replace it until it expires.
    NotifyError(String, u64),
}

/// What a [`ScriptEffect`] holds.
pub enum EffectView {
    Play,
    Pause,
    Next,
    Previous,
    Seek(u32),
    SetVolume(u8),
    SetShuffle(bool),
    Search(Seq<char>),
    Notify(Seq<char>, u64),
    NotifyError(Seq<char>, u64),
}

impl View for ScriptEffect {
    type V = EffectView;

    open spec fn view(&self) -> EffectView {
        match *self {
            ScriptEffect::Play => EffectView::Play,
            ScriptEffect::Pause => EffectView::Pause,
            ScriptEffect::Next => EffectView::Next,
            ScriptEffect::Previous => EffectView::Previous,
            ScriptEffect::Seek(ms) => EffectView::Seek(ms),
            ScriptEffect::SetVolume(percent) => EffectView::SetVolume(percent),
            ScriptEffect::SetShuffle(on) => EffectView::SetShuffle(on),
            ScriptEffect::Search(query) => EffectView::Search(query@),
            ScriptEffect::Notify(message, ttl) => EffectView::Notify(message@, ttl),
            ScriptEffect::NotifyError(message, ttl) => EffectView::NotifyError(message@, ttl),
        }
    }
}

/// What each effect in a list holds.
pub open spec fn effects_of(effects: Seq<ScriptEffect>) -> Seq<EffectView> {
    effects.map_values(|e: ScriptEffect| e@)
}

/// Whether the current playback state says that the player is playing.
pub fn effective_is_playing(app: &App) -> (playing: bool)
    ensures
        playing == app@.is_playing(),
{
    match &app.current_playback_context {
        Some(playback) => playback.is_playing,
        None => false,
    }
}

/// The app after it was wished to play or to pause: playback is toggled just where that is not so
/// yet.
pub open spec fn wished(
    app: AppView,
    playing: bool,
    toggle: spec_fn(AppView) -> AppView,
) -> AppView {
    if app.is_playing() == playing {
        app
    } else {
        toggle(app)
    }
}

/// The app after one effect.
pub open spec fn after_effect(app: AppView, effect: EffectView) -> AppView {
    match effect {
        EffectView::Play => wished(app, true, |a: AppView| a.playback_toggled()),
        EffectView::Pause => wished(app, false, |a: AppView| a.playback_toggled()),
        EffectView::Next => app.dispatched(IoEventView::NextTrack),
        EffectView::Previous => app.dispatched(IoEventView::PreviousTrack),
        EffectView::Seek(ms) => app.sought(ms),
        EffectView::SetVolume(percent) => AppView { pending_volume: Some(percent), ..app },
        EffectView::SetShuffle(desired) => if app.is_shuffling() == desired {
            app
        } else {
            app.shuffle_toggled()
        },
        EffectView::Search(query) => app.dispatched(
            IoEventView::GetSearchResults(query, app.user_country),
        ),
        EffectView::Notify(message, ttl) => app.notified(message, ttl),
        EffectView::NotifyError(message, ttl) => app.with_status(message, true, ttl),
    }
}

/// The app after a row of effects, each of which meets the app as the one before left it.
pub open spec fn after_effects(app: AppView, effects: Seq<EffectView>) -> AppView
    decreases effects.len(),
{
    if effects.len() == 0 {
        app
    } else {
        after_effect(after_effects(app, effects.drop_last()), effects.last())
    }
}

/// Carries out one effect.
pub fn apply_effect(effect: ScriptEffect, app: &mut App)
    ensures
        final(app)@ == after_effect(old(app)@, effect@),
{
    match effect {
        ScriptEffect::Play => {
            if !effective_is_playing(app) {
                app.toggle_playback();
            }
        },
        ScriptEffect::Pause => {
            if effective_is_playing(app) {
                app.toggle_playback();
            }
        },
        ScriptEffect::Next => app.next_track(),
        ScriptEffect::Previous => app.previous_track(),
        ScriptEffect::Seek(ms) => app.seek_to(ms),
        ScriptEffect::SetVolume(percent) => app.set_volume_percent(percent),
        ScriptEffect::SetShuffle(desired) => {
            let current = match &app.current_playback_context {
                Some(playback) => playback.shuffle,
                None => false,
            };
            if current != desired {
                app.shuffle();
            }
        },
        ScriptEffect::Search(query) => {
            let country = app.get_user_country();
            app.dispatch(IoEvent::GetSearchResults(query, country));
        },
        ScriptEffect::Notify(message, ttl) => app.set_status_message(message, ttl),
        ScriptEffect::NotifyError(message, ttl) => app.set_error_status_message(message, ttl),
    }
}

/// Carries out queued effects in order.
pub fn apply_effects(effects: Vec<ScriptEffect>, app: &mut App)
    ensures
        final(app)@ == after_effects(old(app)@, effects_of(effects@)),
{
    let ghost queued = effects@;
    let ghost mut done: Seq<ScriptEffect> = Seq::empty();
    assert(effects_of(done) =~= Seq::empty());
    for effect in pending: effects
        invariant
            pending.seq() == queued,
            done == queued.take(pending.index() as int),
            app@ == after_effects(old(app)@, effects_of(done)),
    {
        proof {
            let next = done.push(effect);
            assert(effects_of(next).drop_last() =~= effects_of(done));
            assert(effects_of(next).last() == effect@);
            assert(next =~= queued.take(pending.index() + 1));
            done = next;
        }
        apply_effect(effect, app);
    }
    assert(queued.take(queued.len() as int) =~= queued);
}

/// Draining the queue in two parts is draining it at once.
pub proof fn effects_compose(app: AppView, first: Seq<EffectView>, second: Seq<EffectView>)
    ensures
        after_effects(after_effects(app, first), second) == after_effects(app, first + second),
    decreases second.len(),
{
    if second.len() == 0 {
        assert(first + second =~= first);
    } else {
        effects_compose(app, first, second.drop_last());
        assert((first + second).drop_last() =~= first + second.drop_last());
        assert((first + second).last() == second.last());
    }
}

/// Asking for what is already so changes nothing: playing what plays, pausing what does not, or
/// setting shuffling to what it is.
pub proof fn granted_wishes_change_nothing(app: AppView)
    ensures
        app.is_playing() ==> after_effect(app, EffectView::Play) == app,
        !app.is_playing() ==> after_effect(app, EffectView::Pause) == app,
        after_effect(app, EffectView::SetShuffle(app.is_shuffling())) == app,
{
}

/// Each wish is decided on the app as the one before left it. Where toggling playback turns playing
/// into not playing and back, a wish that is repeated toggles once, and a wish for the opposite of
/// the one before toggles again.
pub proof fn repeated_wishes_toggle_once(
    app: AppView,
    playing: bool,
    toggle: spec_fn(AppView) -> AppView,
)
    requires
        forall|a: AppView| (#[trigger] toggle(a)).is_playing() == !a.is_playing(),
    ensures
        wished(wished(app, playing, toggle), playing, toggle) == wished(app, playing, toggle),
        app.is_playing() != playing ==> wished(wished(app, playing, toggle), !playing, toggle)
            == toggle(toggle(app)),
        app.is_playing() == playing ==> wished(wished(app, playing, toggle), !playing, toggle)
            == toggle(app),
{
}

/// Pausing what plays asks for a pause, playing what does not asks to resume, and setting
/// shuffling to what it is not asks for that.
pub proof fn wishes_are_dispatched(app: AppView)
    ensures
        app.is_playing() ==> after_effect(app, EffectView::Pause) == app.dispatched(
            IoEventView::PausePlayback,
        ),
        !app.is_playing() ==> after_effect(app, EffectView::Play) == app.dispatched(
            IoEventView::StartPlayback(None, None, None),
        ),
        app.current_playback_context is Some ==> after_effect(
            app,
            EffectView::SetShuffle(!app.is_shuffling()),
        ) == app.dispatched(IoEventView::Shuffle(!app.is_shuffling())),
{
}

/// An error message is always shown.
pub proof fn error_messages_are_shown(app: AppView, message: Seq<char>, ttl: u64)
    ensures
        after_effect(app, EffectView::NotifyError(message, ttl)).status_message == Some(message),
        after_effect(app, EffectView::NotifyError(message, ttl)).status_message_is_error,
        ttl > 0 && app.now < u64::MAX ==> after_effect(
            app,
            EffectView::NotifyError(message, ttl),
        ).shows_error(),
{
}

/// A normal message is shown unless an error message is shown that has not expired.
pub proof fn normal_messages_are_shown(app: AppView, message: Seq<char>, ttl: u64)
    ensures
        !app.shows_error() ==> {
            &&& after_effect(app, EffectView::Notify(message, ttl)).status_message == Some(message)
            &&& !after_effect(app, EffectView::Notify(message, ttl)).status_message_is_error
        },
        app.shows_error() ==> after_effect(app, EffectView::Notify(message, ttl)) == app,
{
}

/// Until an error message expires, only another error message replaces it, whatever else is
/// drained.
pub proof fn error_messages_stay(app: AppView, effects: Seq<EffectView>)
    requires
        app.shows_error(),
        forall|i: int| 0 <= i < effects.len() ==> !(#[trigger] effects[i] is NotifyError),
    ensures
        after_effects(app, effects).status_message == app.status_message,
        after_effects(app, effects).status_message_is_error,
        after_effects(app, effects).status_message_expires_at == app.status_message_expires_at,
        after_effects(app, effects).now == app.now,
    decreases effects.len(),
{
    if effects.len() > 0 {
        error_messages_stay(app, effects.drop_last());
        assert(!(effects[effects.len() - 1] is NotifyError));
    }
}

/// Draining leaves the playback state, the country and the clock alone. It takes back no request,
/// and no effect makes more than one.
pub proof fn draining_only_adds_requests(app: AppView, effects: Seq<EffectView>)
    ensures
        after_effects(app, effects).current_playback_context == app.current_playback_context,
        after_effects(app, effects).user_country == app.user_country,
        after_effects(app, effects).now == app.now,
        app.io_events.is_prefix_of(after_effects(app, effects).io_events),
        after_effects(app, effects).io_events.len() <= app.io_events.len() + effects.len(),
    decreases effects.len(),
{
    if effects.len() > 0 {
        draining_only_adds_requests(app, effects.drop_last());
    }
}

/// All of an effect is seen: which one it is, and what it carries. So is all of a queue, effect by
/// effect and in order.
pub proof fn effects_are_seen_whole(effect: ScriptEffect, effects: Seq<ScriptEffect>)
    ensures
        match effect {
            ScriptEffect::Play => effect@ == EffectView::Play,
            ScriptEffect::Pause => effect@ == EffectView::Pause,
            ScriptEffect::Next => effect@ == EffectView::Next,
            ScriptEffect::Previous => effect@ == EffectView::Previous,
            ScriptEffect::Seek(ms) => effect@ == EffectView::Seek(ms),
            ScriptEffect::SetVolume(percent) => effect@ == EffectView::SetVolume(percent),
            ScriptEffect::SetShuffle(on) => effect@ == EffectView::SetShuffle(on),
            ScriptEffect::Search(query) => effect@ == EffectView::Search(query@),
            ScriptEffect::Notify(message, ttl) => effect@ == EffectView::Notify(message@, ttl),
            ScriptEffect::NotifyError(message, ttl) => effect@ == EffectView::NotifyError(
                message@,
                ttl,
            ),
        },
        effects_of(effects).len() == effects.len(),
        forall|i: int| 0 <= i < effects.len() ==> #[trigger] effects_of(effects)[i] == effects[i]@,
{
}

/// Draining nothing changes nothing, and draining one more effect carries out that effect on what
/// the ones before it left: no effect is passed over, and none is carried out twice.
pub proof fn effects_are_drained_in_turn(
    app: AppView,
    effects: Seq<EffectView>,
    effect: EffectView,
)
    ensures
        after_effects(app, Seq::empty()) == app,
        after_effects(app, effects.push(effect)) == after_effect(
            after_effects(app, effects),
            effect,
        ),
{
    assert(effects.push(effect).drop_last() =~= effects);
}

/// Skipping asks for the next track, or for the previous one, and does nothing else, whether
/// something plays or not.
pub proof fn skipping_asks_for_a_track(app: AppView)
    ensures
        after_effect(app, EffectView::Next) == (AppView {
            io_events: app.io_events.push(IoEventView::NextTrack),
            ..app
        }),
        after_effect(app, EffectView::Previous) == (AppView {
            io_events: app.io_events.push(IoEventView::PreviousTrack),
            ..app
        }),
{
}

/// A player that plays is asked to pause where a pause is wished for, and left alone where playing
/// is. One that does not play, or of which nothing is known, is asked to resume where playing is
/// wished for, and left alone where a pause is.
pub proof fn playing_and_pausing_ask_for_what_is_not_so(app: AppView)
    ensures
        match app.current_playback_context {
            Some(playback) if playback.is_playing => {
                &&& after_effect(app, EffectView::Play) == app
                &&& after_effect(app, EffectView::Pause) == (AppView {
                    io_events: app.io_events.push(IoEventView::PausePlayback),
                    ..app
                })
            },
            _ => {
                &&& after_effect(app, EffectView::Pause) == app
                &&& after_effect(app, EffectView::Play) == (AppView {
                    io_events: app.io_events.push(IoEventView::StartPlayback(None, None, None)),
                    ..app
                })
            },
        },
{
}

/// Setting shuffling asks for the given value where the player has the other one. Where it has that
/// value, or where nothing is known of the player, nothing is asked for.
pub proof fn shuffling_is_asked_for_where_it_differs(app: AppView, on: bool)
    ensures
        match app.current_playback_context {
            Some(playback) if playback.shuffle != on => after_effect(
                app,
                EffectView::SetShuffle(on),
            ) == (AppView { io_events: app.io_events.push(IoEventView::Shuffle(on)), ..app }),
            _ => after_effect(app, EffectView::SetShuffle(on)) == app,
        },
{
}

/// A seek asks for just the given position, where there is a track to seek in.
pub proof fn seeking_asks_for_the_position(app: AppView, ms: u32)
    ensures
        match app.current_playback_context {
            Some(playback) if playback.track is Some => after_effect(app, EffectView::Seek(ms)) == (
            AppView { io_events: app.io_events.push(IoEventView::Seek(ms)), ..app }),
            _ => after_effect(app, EffectView::Seek(ms)) == app,
        },
{
}

/// The volume to be sent is the one that was set last, and setting it does nothing else.
pub proof fn volumes_wait_to_be_sent(app: AppView, percent: u8)
    ensures
        after_effect(app, EffectView::SetVolume(percent)) == (AppView {
            pending_volume: Some(percent),
            ..app
        }),
{
}

/// A search asks for just the given query, in the country of the user as it is when the effect is
/// carried out.
pub proof fn searching_asks_in_the_country_of_the_user(app: AppView, query: Seq<char>)
    ensures
        after_effect(app, EffectView::Search(query)) == (AppView {
            io_events: app.io_events.push(IoEventView::GetSearchResults(query, app.user_country)),
            ..app
        }),
{
}

/// Whether a message is shown from now on, for `ttl` seconds or as long as seconds can be told.
pub open spec fn message_shown(
    before: AppView,
    message: Seq<char>,
    is_error: bool,
    ttl: u64,
    after: AppView,
) -> bool {
    &&& after.status_message == Some(message)
    &&& after.status_message_is_error == is_error
    &&& before.now + ttl <= u64::MAX ==> after.status_message_expires_at == before.now + ttl
    &&& before.now + ttl > u64::MAX ==> after.status_message_expires_at == u64::MAX
}

/// Showing a message asks for nothing and leaves all of the app but its message alone. An error
/// message is always shown. A normal message is shown, too, but where an error message is shown
/// that has not expired; then nothing changes.
pub proof fn messages_are_shown_for_their_time(app: AppView, message: Seq<char>, ttl: u64)
    ensures
        message_shown(
            app,
            message,
            true,
            ttl,
            after_effect(app, EffectView::NotifyError(message, ttl)),
        ),
        if app.status_message is Some && app.status_message_is_error && app.now
            < app.status_message_expires_at {
            after_effect(app, EffectView::Notify(message, ttl)) == app
        } else {
            message_shown(
                app,
                message,
                false,
                ttl,
                after_effect(app, EffectView::Notify(message, ttl)),
            )
        },
        forall|effect: EffectView|
            effect == EffectView::Notify(message, ttl) || effect == EffectView::NotifyError(
                message,
                ttl,
            ) ==> (#[trigger] after_effect(app, effect)) == (AppView {
                status_message: after_effect(app, effect).status_message,
                status_message_is_error: after_effect(app, effect).status_message_is_error,
                status_message_expires_at: after_effect(app, effect).status_message_expires_at,
                ..app
            }),
{
}

} // verus!
