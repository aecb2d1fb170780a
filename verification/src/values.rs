//! Lua values of the data that plugins read.

use crate::interpreter::{
    globals_kept, group_undisturbed, held, home, homed, is_list, is_record, is_scalar, list_of,
    new_list, new_record, out_of_resources, push_item, record_of, release_table, room,
    scalar_value, set_field, table_home, table_in, table_value, undisturbed, Scalar, ScalarView,
};
use crate::plugin_api::{
    devices_of, text_of, texts_of, DeviceInfo, DeviceView, PlaybackState, PlaybackView, TrackInfo,
    TrackView,
};
use crate::shared::{Reply, ReplyView};
use mlua::{Error, Lua, Table, Value};
use vstd::prelude::*;

verus! {

broadcast use group_undisturbed;

/// Whether a value was made, or not for want of resources, and the interpreter is otherwise
/// undisturbed.
pub open spec fn value_made(before: Lua, after: Lua, value: Result<Value, Error>) -> bool {
    &&& undisturbed(before, after)
    &&& match value {
        Ok(v) => homed(v, home(after)) && held(v) <= 1 && room(after) >= room(before) - held(v),
        Err(e) => out_of_resources(e) && room(after) >= room(before),
    }
}

/// Adds a value that was just made to the fields of a table. Where it could not be made, the table
/// is given up.
pub(crate) fn attach(lua: &mut Lua, table: Table, name: &str, made: Result<Value, Error>) -> (set:
    Result<Table, Error>)
    requires
        exists|fields: Seq<(Seq<char>, Value)>| #[trigger] record_of(table, fields),
        table_home(table) == home(*old(lua)),
        match made {
            Ok(v) => homed(v, home(*old(lua))),
            Err(e) => out_of_resources(e),
        },
    ensures
        undisturbed(*old(lua), *final(lua)),
        globals_kept(*old(lua), *final(lua)),
        match set {
            Ok(t) => {
                &&& made matches Ok(v)
                &&& forall|fields: Seq<(Seq<char>, Value)>| #[trigger]
                    record_of(table, fields) ==> record_of(t, fields.push((name@, v)))
                &&& table_home(t) == home(*final(lua))
                &&& room(*final(lua)) >= room(*old(lua)) + held(v)
            },
            Err(e) => {
                &&& out_of_resources(e)
                &&& room(*final(lua)) >= room(*old(lua)) + 1 + match made {
                    Ok(v) => held(v) as int,
                    Err(_) => 0,
                }
            },
        },
{
    match made {
        Ok(value) => set_field(lua, table, name, value),
        Err(error) => {
            release_table(lua, table);
            Err(error)
        },
    }
}

/// The scalar for an optional text.
pub open spec fn text_or_null(text: Option<Seq<char>>) -> ScalarView {
    match text {
        Some(s) => ScalarView::Text(s),
        None => ScalarView::Null,
    }
}

/// The scalar for an optional percentage.
pub open spec fn percent_or_null(percent: Option<u8>) -> ScalarView {
    match percent {
        Some(p) => ScalarView::Integer(p as u64),
        None => ScalarView::Null,
    }
}

/// Whether a value is an array of the given texts.
pub open spec fn shows_texts(value: Value, texts: Seq<Seq<char>>) -> bool {
    exists|items: Seq<Value>|
        {
            &&& #[trigger] is_list(value, items)
            &&& items.len() == texts.len()
            &&& forall|i: int|
                0 <= i < items.len() ==> is_scalar(#[trigger] items[i], ScalarView::Text(texts[i]))
        }
}

/// The fields of a track's table.
pub open spec fn track_fields(
    uri: Value,
    name: Value,
    artists: Value,
    album: Value,
    duration_ms: Value,
) -> Seq<(Seq<char>, Value)> {
    seq![
        ("uri"@, uri),
        ("name"@, name),
        ("artists"@, artists),
        ("album"@, album),
        ("duration_ms"@, duration_ms),
    ]
}

/// Whether a value is the table of a track.
pub open spec fn shows_track(value: Value, track: TrackView) -> bool {
    exists|uri: Value, name: Value, artists: Value, album: Value, duration_ms: Value|
        {
            &&& is_record(value, #[trigger] track_fields(uri, name, artists, album, duration_ms))
            &&& is_scalar(uri, text_or_null(track.uri))
            &&& is_scalar(name, ScalarView::Text(track.name))
            &&& shows_texts(artists, track.artists)
            &&& is_scalar(album, ScalarView::Text(track.album))
            &&& is_scalar(duration_ms, ScalarView::Integer(track.duration_ms))
        }
}

fn optional_text_value(lua: &mut Lua, text: Option<String>) -> (value: Result<Value, Error>)
    requires
        room(*old(lua)) >= 1,
    ensures
        value_made(*old(lua), *final(lua), value),
        value matches Ok(v) ==> is_scalar(v, text_or_null(text_of(text))),
{
    match text {
        Some(s) => scalar_value(lua, Scalar::Text(s)),
        None => scalar_value(lua, Scalar::Null),
    }
}

fn texts_value(lua: &mut Lua, texts: Vec<String>) -> (value: Result<Value, Error>)
    requires
        room(*old(lua)) >= 2,
    ensures
        value_made(*old(lua), *final(lua), value),
        value matches Ok(v) ==> shows_texts(v, texts_of(texts@)),
{
    let mut list = new_list(lua)?;
    let ghost mut items: Seq<Value> = Seq::empty();
    for i in 0..texts.len()
        invariant
            undisturbed(*old(lua), *lua),
            room(*old(lua)) >= 2,
            room(*lua) >= room(*old(lua)) - 1,
            table_home(list) == home(*lua),
            list_of(list, items),
            items.len() == i,
            forall|j: int| 0 <= j < i ==> is_scalar(#[trigger] items[j], ScalarView::Text(texts@[j]@)),
    {
        match scalar_value(lua, Scalar::Text(texts[i].clone())) {
            Ok(item) => {
                proof {
                    items = items.push(item);
                }
                list = push_item(lua, list, item)?;
            },
            Err(error) => {
                release_table(lua, list);
                return Err(error);
            },
        }
    }
    let value = table_value(list);
    assert(is_list(value, items));
    Ok(value)
}

fn track_value(lua: &mut Lua, track: TrackInfo) -> (value: Result<Value, Error>)
    requires
        room(*old(lua)) >= 3,
    ensures
        value_made(*old(lua), *final(lua), value),
        value matches Ok(v) ==> shows_track(v, track@),
{
    let table = new_record(lua)?;
    let uri = optional_text_value(lua, track.uri);
    let table = attach(lua, table, "uri", uri)?;
    let name = scalar_value(lua, Scalar::Text(track.name));
    let table = attach(lua, table, "name", name)?;
    let artists = texts_value(lua, track.artists);
    let table = attach(lua, table, "artists", artists)?;
    let album = scalar_value(lua, Scalar::Text(track.album));
    let table = attach(lua, table, "album", album)?;
    let duration_ms = scalar_value(lua, Scalar::Integer(track.duration_ms));
    let table = attach(lua, table, "duration_ms", duration_ms)?;
    let ghost fields = track_fields(
        uri->Ok_0,
        name->Ok_0,
        artists->Ok_0,
        album->Ok_0,
        duration_ms->Ok_0,
    );
    assert(Seq::empty()
        .push(("uri"@, uri->Ok_0))
        .push(("name"@, name->Ok_0))
        .push(("artists"@, artists->Ok_0))
        .push(("album"@, album->Ok_0))
        .push(("duration_ms"@, duration_ms->Ok_0))
        =~= fields);
    let value = table_value(table);
    assert(is_record(value, fields));
    Ok(value)
}

/// The fields of a device's table.
pub open spec fn device_fields(
    id: Value,
    name: Value,
    is_active: Value,
    volume_percent: Value,
) -> Seq<(Seq<char>, Value)> {
    seq![
        ("id"@, id),
        ("name"@, name),
        ("is_active"@, is_active),
        ("volume_percent"@, volume_percent),
    ]
}

/// Whether a value is the table of a device.
pub open spec fn shows_device(value: Value, device: DeviceView) -> bool {
    exists|id: Value, name: Value, is_active: Value, volume_percent: Value|
        {
            &&& is_record(value, #[trigger] device_fields(id, name, is_active, volume_percent))
            &&& is_scalar(id, text_or_null(device.id))
            &&& is_scalar(name, ScalarView::Text(device.name))
            &&& is_scalar(is_active, ScalarView::Bool(device.is_active))
            &&& is_scalar(volume_percent, percent_or_null(device.volume_percent))
        }
}

/// Whether a value is an array of the tables of the given devices.
pub open spec fn shows_devices(value: Value, devices: Seq<DeviceView>) -> bool {
    exists|items: Seq<Value>|
        {
            &&& #[trigger] is_list(value, items)
            &&& items.len() == devices.len()
            &&& forall|i: int| 0 <= i < items.len() ==> shows_device(#[trigger] items[i], devices[i])
        }
}

/// Whether a value is the table of a track, or the placeholder where there is none.
pub open spec fn shows_optional_track(value: Value, track: Option<TrackView>) -> bool {
    match track {
        Some(t) => shows_track(value, t),
        None => is_scalar(value, ScalarView::Null),
    }
}

/// Whether a value is the table of a device, or the placeholder where there is none.
pub open spec fn shows_optional_device(value: Value, device: Option<DeviceView>) -> bool {
    match device {
        Some(d) => shows_device(value, d),
        None => is_scalar(value, ScalarView::Null),
    }
}

/// The fields of the table of a playback snapshot.
pub open spec fn playback_fields(
    track: Value,
    is_playing: Value,
    progress_ms: Value,
    shuffle: Value,
    repeat: Value,
    volume_percent: Value,
    device: Value,
) -> Seq<(Seq<char>, Value)> {
    seq![
        ("track"@, track),
        ("is_playing"@, is_playing),
        ("progress_ms"@, progress_ms),
        ("shuffle"@, shuffle),
        ("repeat"@, repeat),
        ("volume_percent"@, volume_percent),
        ("device"@, device),
    ]
}

/// Whether a value is the table of a playback snapshot.
pub open spec fn shows_playback(value: Value, playback: PlaybackView) -> bool {
    exists|
        track: Value,
        is_playing: Value,
        progress_ms: Value,
        shuffle: Value,
        repeat: Value,
        volume_percent: Value,
        device: Value,
    |
        {
            &&& is_record(
                value,
                #[trigger] playback_fields(
                    track,
                    is_playing,
                    progress_ms,
                    shuffle,
                    repeat,
                    volume_percent,
                    device,
                ),
            )
            &&& shows_optional_track(track, playback.track)
            &&& is_scalar(is_playing, ScalarView::Bool(playback.is_playing))
            &&& is_scalar(progress_ms, ScalarView::Integer(playback.progress_ms))
            &&& is_scalar(shuffle, ScalarView::Bool(playback.shuffle))
            &&& is_scalar(repeat, ScalarView::Text(playback.repeat))
            &&& is_scalar(volume_percent, percent_or_null(playback.volume_percent))
            &&& shows_optional_device(device, playback.device)
        }
}

/// Whether a value is what a script gets for a reply.
pub open spec fn shows_reply(value: Value, reply: ReplyView) -> bool {
    match reply {
        ReplyView::Nothing => is_scalar(value, ScalarView::Nil),
        ReplyView::Playback(playback) => shows_playback(value, playback),
        ReplyView::Track(track) => shows_track(value, track),
        ReplyView::Devices(devices) => shows_devices(value, devices),
    }
}

fn optional_percent_value(lua: &mut Lua, percent: Option<u8>) -> (value: Result<Value, Error>)
    requires
        room(*old(lua)) >= 1,
    ensures
        value_made(*old(lua), *final(lua), value),
        value matches Ok(v) ==> is_scalar(v, percent_or_null(percent)),
{
    match percent {
        Some(p) => scalar_value(lua, Scalar::Integer(p as u64)),
        None => scalar_value(lua, Scalar::Null),
    }
}

fn device_value(lua: &mut Lua, device: DeviceInfo) -> (value: Result<Value, Error>)
    requires
        room(*old(lua)) >= 2,
    ensures
        value_made(*old(lua), *final(lua), value),
        value matches Ok(v) ==> shows_device(v, device@),
{
    let table = new_record(lua)?;
    let id = optional_text_value(lua, device.id);
    let table = attach(lua, table, "id", id)?;
    let name = scalar_value(lua, Scalar::Text(device.name));
    let table = attach(lua, table, "name", name)?;
    let is_active = scalar_value(lua, Scalar::Bool(device.is_active));
    let table = attach(lua, table, "is_active", is_active)?;
    let volume_percent = optional_percent_value(lua, device.volume_percent);
    let table = attach(lua, table, "volume_percent", volume_percent)?;
    let ghost fields = device_fields(
        id->Ok_0,
        name->Ok_0,
        is_active->Ok_0,
        volume_percent->Ok_0,
    );
    assert(Seq::empty()
        .push(("id"@, id->Ok_0))
        .push(("name"@, name->Ok_0))
        .push(("is_active"@, is_active->Ok_0))
        .push(("volume_percent"@, volume_percent->Ok_0))
        =~= fields);
    let value = table_value(table);
    assert(is_record(value, fields));
    Ok(value)
}

fn devices_value(lua: &mut Lua, devices: Vec<DeviceInfo>) -> (value: Result<Value, Error>)
    requires
        room(*old(lua)) >= 3,
    ensures
        value_made(*old(lua), *final(lua), value),
        value matches Ok(v) ==> shows_devices(v, devices_of(devices@)),
{
    let mut list = new_list(lua)?;
    let ghost mut items: Seq<Value> = Seq::empty();
    for i in 0..devices.len()
        invariant
            undisturbed(*old(lua), *lua),
            room(*old(lua)) >= 3,
            room(*lua) >= room(*old(lua)) - 1,
            table_home(list) == home(*lua),
            list_of(list, items),
            items.len() == i,
            forall|j: int| 0 <= j < i ==> shows_device(#[trigger] items[j], devices@[j]@),
    {
        match device_value(lua, devices[i].clone()) {
            Ok(item) => {
                proof {
                    items = items.push(item);
                }
                list = push_item(lua, list, item)?;
            },
            Err(error) => {
                release_table(lua, list);
                return Err(error);
            },
        }
    }
    let value = table_value(list);
    assert(is_list(value, items));
    Ok(value)
}

/// The Lua table of a playback snapshot.
pub(crate) fn playback_value(lua: &mut Lua, playback: PlaybackState) -> (value: Result<Value, Error>)
    requires
        room(*old(lua)) >= 4,
    ensures
        value_made(*old(lua), *final(lua), value),
        value matches Ok(v) ==> shows_playback(v, playback@),
{
    let table = new_record(lua)?;
    let track = match playback.track {
        Some(track) => track_value(lua, track),
        None => scalar_value(lua, Scalar::Null),
    };
    let table = attach(lua, table, "track", track)?;
    let is_playing = scalar_value(lua, Scalar::Bool(playback.is_playing));
    let table = attach(lua, table, "is_playing", is_playing)?;
    let progress_ms = scalar_value(lua, Scalar::Integer(playback.progress_ms));
    let table = attach(lua, table, "progress_ms", progress_ms)?;
    let shuffle = scalar_value(lua, Scalar::Bool(playback.shuffle));
    let table = attach(lua, table, "shuffle", shuffle)?;
    let repeat = scalar_value(lua, Scalar::Text(playback.repeat));
    let table = attach(lua, table, "repeat", repeat)?;
    let volume_percent = optional_percent_value(lua, playback.volume_percent);
    let table = attach(lua, table, "volume_percent", volume_percent)?;
    let device = match playback.device {
        Some(device) => device_value(lua, device),
        None => scalar_value(lua, Scalar::Null),
    };
    let table = attach(lua, table, "device", device)?;
    let ghost fields = playback_fields(
        track->Ok_0,
        is_playing->Ok_0,
        progress_ms->Ok_0,
        shuffle->Ok_0,
        repeat->Ok_0,
        volume_percent->Ok_0,
        device->Ok_0,
    );
    assert(Seq::empty()
        .push(("track"@, track->Ok_0))
        .push(("is_playing"@, is_playing->Ok_0))
        .push(("progress_ms"@, progress_ms->Ok_0))
        .push(("shuffle"@, shuffle->Ok_0))
        .push(("repeat"@, repeat->Ok_0))
        .push(("volume_percent"@, volume_percent->Ok_0))
        .push(("device"@, device->Ok_0))
        =~= fields);
    let value = table_value(table);
    assert(is_record(value, fields));
    Ok(value)
}

/// The Lua value of a reply.
pub(crate) fn reply_value(lua: &mut Lua, reply: Reply) -> (value: Result<Value, Error>)
    requires
        room(*old(lua)) >= 4,
    ensures
        reply is Nothing ==> *final(lua) == *old(lua),
        value_made(*old(lua), *final(lua), value),
        value matches Ok(v) ==> shows_reply(v, reply@),
{
    match reply {
        Reply::Nothing => scalar_value(lua, Scalar::Nil),
        Reply::Playback(playback) => playback_value(lua, playback),
        Reply::Track(track) => track_value(lua, track),
        Reply::Devices(devices) => devices_value(lua, devices),
    }
}

/// The table of a track holds each of its fields under the field's name: the URI, or the
/// placeholder where there is none, the name, all artists in order, the album and the duration.
pub proof fn track_tables_hold_the_track(value: Value, track: TrackInfo) -> (table: (
    Seq<(Seq<char>, Value)>,
    Seq<Value>,
))
    requires
        shows_track(value, track@),
    ensures
        table_in(value) is Some,
        record_of(table_in(value)->0, table.0),
        table.0.len() == 5,
        table.0[0].0 == "uri"@,
        match track.uri {
            Some(uri) => is_scalar(table.0[0].1, ScalarView::Text(uri@)),
            None => is_scalar(table.0[0].1, ScalarView::Null),
        },
        table.0[1].0 == "name"@,
        is_scalar(table.0[1].1, ScalarView::Text(track.name@)),
        table.0[2].0 == "artists"@,
        table_in(table.0[2].1) is Some,
        list_of(table_in(table.0[2].1)->0, table.1),
        table.1.len() == track.artists@.len(),
        forall|i: int|
            0 <= i < table.1.len() ==> is_scalar(
                #[trigger] table.1[i],
                ScalarView::Text(track.artists@[i]@),
            ),
        table.0[3].0 == "album"@,
        is_scalar(table.0[3].1, ScalarView::Text(track.album@)),
        table.0[4].0 == "duration_ms"@,
        is_scalar(table.0[4].1, ScalarView::Integer(track.duration_ms)),
{
    let (uri, name, artists, album, duration_ms) = choose|
        uri: Value,
        name: Value,
        artists: Value,
        album: Value,
        duration_ms: Value,
    |
        {
            &&& is_record(value, #[trigger] track_fields(uri, name, artists, album, duration_ms))
            &&& is_scalar(uri, text_or_null(track@.uri))
            &&& is_scalar(name, ScalarView::Text(track@.name))
            &&& shows_texts(artists, track@.artists)
            &&& is_scalar(album, ScalarView::Text(track@.album))
            &&& is_scalar(duration_ms, ScalarView::Integer(track@.duration_ms))
        };
    let items = choose|items: Seq<Value>|
        {
            &&& #[trigger] is_list(artists, items)
            &&& items.len() == track@.artists.len()
            &&& forall|i: int|
                0 <= i < items.len() ==> is_scalar(
                    #[trigger] items[i],
                    ScalarView::Text(track@.artists[i]),
                )
        };
    (track_fields(uri, name, artists, album, duration_ms), items)
}

/// The table of a device holds each of its fields under the field's name, with the placeholder for
/// an absent one.
pub proof fn device_tables_hold_the_device(value: Value, device: DeviceInfo) -> (fields: Seq<
    (Seq<char>, Value),
>)
    requires
        shows_device(value, device@),
    ensures
        table_in(value) is Some,
        record_of(table_in(value)->0, fields),
        fields.len() == 4,
        fields[0].0 == "id"@,
        match device.id {
            Some(id) => is_scalar(fields[0].1, ScalarView::Text(id@)),
            None => is_scalar(fields[0].1, ScalarView::Null),
        },
        fields[1].0 == "name"@,
        is_scalar(fields[1].1, ScalarView::Text(device.name@)),
        fields[2].0 == "is_active"@,
        is_scalar(fields[2].1, ScalarView::Bool(device.is_active)),
        fields[3].0 == "volume_percent"@,
        match device.volume_percent {
            Some(percent) => is_scalar(fields[3].1, ScalarView::Integer(percent as u64)),
            None => is_scalar(fields[3].1, ScalarView::Null),
        },
{
    let (id, name, is_active, volume_percent) = choose|
        id: Value,
        name: Value,
        is_active: Value,
        volume_percent: Value,
    |
        {
            &&& is_record(value, #[trigger] device_fields(id, name, is_active, volume_percent))
            &&& is_scalar(id, text_or_null(device@.id))
            &&& is_scalar(name, ScalarView::Text(device@.name))
            &&& is_scalar(is_active, ScalarView::Bool(device@.is_active))
            &&& is_scalar(volume_percent, percent_or_null(device@.volume_percent))
        };
    device_fields(id, name, is_active, volume_percent)
}

/// The array of a list of devices holds the table of each device, in order.
pub proof fn device_arrays_hold_every_device(value: Value, devices: Seq<DeviceInfo>) -> (items: Seq<
    Value,
>)
    requires
        shows_devices(value, devices_of(devices)),
    ensures
        table_in(value) is Some,
        list_of(table_in(value)->0, items),
        items.len() == devices.len(),
        forall|i: int| 0 <= i < items.len() ==> shows_device(#[trigger] items[i], devices[i]@),
{
    choose|items: Seq<Value>|
        {
            &&& #[trigger] is_list(value, items)
            &&& items.len() == devices_of(devices).len()
            &&& forall|i: int|
                0 <= i < items.len() ==> shows_device(#[trigger] items[i], devices_of(devices)[i])
        }
}

/// The table of a playback snapshot holds each field of the snapshot, and no other, under the
/// field's name: whatever is so of the player, a script reads just that.
pub proof fn playback_tables_hold_the_snapshot(value: Value, playback: PlaybackState) -> (fields:
    Seq<(Seq<char>, Value)>)
    requires
        shows_playback(value, playback@),
    ensures
        table_in(value) is Some,
        record_of(table_in(value)->0, fields),
        fields.len() == 7,
        fields[0].0 == "track"@,
        match playback.track {
            Some(track) => shows_track(fields[0].1, track@),
            None => is_scalar(fields[0].1, ScalarView::Null),
        },
        fields[1].0 == "is_playing"@,
        is_scalar(fields[1].1, ScalarView::Bool(playback.is_playing)),
        fields[2].0 == "progress_ms"@,
        is_scalar(fields[2].1, ScalarView::Integer(playback.progress_ms)),
        fields[3].0 == "shuffle"@,
        is_scalar(fields[3].1, ScalarView::Bool(playback.shuffle)),
        fields[4].0 == "repeat"@,
        is_scalar(fields[4].1, ScalarView::Text(playback.repeat@)),
        fields[5].0 == "volume_percent"@,
        match playback.volume_percent {
            Some(percent) => is_scalar(fields[5].1, ScalarView::Integer(percent as u64)),
            None => is_scalar(fields[5].1, ScalarView::Null),
        },
        fields[6].0 == "device"@,
        match playback.device {
            Some(device) => shows_device(fields[6].1, device@),
            None => is_scalar(fields[6].1, ScalarView::Null),
        },
{
    let (track, is_playing, progress_ms, shuffle, repeat, volume_percent, device) = choose|
        track: Value,
        is_playing: Value,
        progress_ms: Value,
        shuffle: Value,
        repeat: Value,
        volume_percent: Value,
        device: Value,
    |
        {
            &&& is_record(
                value,
                #[trigger] playback_fields(
                    track,
                    is_playing,
                    progress_ms,
                    shuffle,
                    repeat,
                    volume_percent,
                    device,
                ),
            )
            &&& shows_optional_track(track, playback@.track)
            &&& is_scalar(is_playing, ScalarView::Bool(playback@.is_playing))
            &&& is_scalar(progress_ms, ScalarView::Integer(playback@.progress_ms))
            &&& is_scalar(shuffle, ScalarView::Bool(playback@.shuffle))
            &&& is_scalar(repeat, ScalarView::Text(playback@.repeat))
            &&& is_scalar(volume_percent, percent_or_null(playback@.volume_percent))
            &&& shows_optional_device(device, playback@.device)
        };
    playback_fields(track, is_playing, progress_ms, shuffle, repeat, volume_percent, device)
}

/// Whether a scalar comes to Lua as it is. A number beyond what a Lua integer can hold is rounded.
pub open spec fn comes_as_it_is(scalar: ScalarView) -> bool {
    match scalar {
        ScalarView::Integer(n) => n <= i64::MAX,
        _ => true,
    }
}

/// Whether Lua tells values apart: one that was made of a scalar was made of no other and is no
/// table, and a table was made of one row of fields or of items only.
pub open spec fn values_are_told_apart() -> bool {
    &&& forall|value: Value, a: ScalarView, b: ScalarView| #[trigger]
        is_scalar(value, a) && #[trigger] is_scalar(value, b) && comes_as_it_is(a)
            && comes_as_it_is(b) ==> a == b
    &&& forall|value: Value, a: ScalarView| #[trigger] is_scalar(value, a) ==> table_in(value) is None
    &&& forall|table: Table, a: Seq<(Seq<char>, Value)>, b: Seq<(Seq<char>, Value)>| #[trigger]
        record_of(table, a) && #[trigger] record_of(table, b) ==> a == b
    &&& forall|table: Table, a: Seq<Value>, b: Seq<Value>| #[trigger]
        list_of(table, a) && #[trigger] list_of(table, b) ==> a == b
}

/// Two tracks that differ in anything have no table in common, as far as Lua tells values apart.
pub proof fn tables_tell_tracks_apart(value: Value, one: TrackInfo, other: TrackInfo)
    requires
        values_are_told_apart(),
        shows_track(value, one@),
        shows_track(value, other@),
        one.duration_ms <= i64::MAX,
        other.duration_ms <= i64::MAX,
    ensures
        one@ == other@,
{
    let (fields, items) = track_tables_hold_the_track(value, one);
    let (same_fields, same_items) = track_tables_hold_the_track(value, other);
    assert(fields == same_fields);
    assert(items == same_items);
    assert(one@.artists =~= other@.artists) by {
        assert forall|i: int| 0 <= i < items.len() implies one@.artists[i] == other@.artists[i] by {
            assert(is_scalar(items[i], ScalarView::Text(one.artists@[i]@)));
            assert(is_scalar(items[i], ScalarView::Text(other.artists@[i]@)));
        }
    }
}

/// Two devices that differ in anything have no table in common, as far as Lua tells values apart.
pub proof fn tables_tell_devices_apart(value: Value, one: DeviceInfo, other: DeviceInfo)
    requires
        values_are_told_apart(),
        shows_device(value, one@),
        shows_device(value, other@),
    ensures
        one@ == other@,
{
    let fields = device_tables_hold_the_device(value, one);
    let same_fields = device_tables_hold_the_device(value, other);
    assert(fields == same_fields);
}

/// Two playback snapshots that differ in anything have no table in common, as far as Lua tells
/// values apart: what a script reads determines the snapshot.
pub proof fn tables_tell_snapshots_apart(value: Value, one: PlaybackState, other: PlaybackState)
    requires
        values_are_told_apart(),
        shows_playback(value, one@),
        shows_playback(value, other@),
        one.progress_ms <= i64::MAX,
        other.progress_ms <= i64::MAX,
        one.track matches Some(track) ==> track.duration_ms <= i64::MAX,
        other.track matches Some(track) ==> track.duration_ms <= i64::MAX,
    ensures
        one@ == other@,
{
    let fields = playback_tables_hold_the_snapshot(value, one);
    let same_fields = playback_tables_hold_the_snapshot(value, other);
    assert(fields == same_fields);
    match (one.track, other.track) {
        (Some(a), Some(b)) => tables_tell_tracks_apart(fields[0].1, a, b),
        (Some(a), None) => {
            let held = track_tables_hold_the_track(fields[0].1, a);
        },
        (None, Some(b)) => {
            let held = track_tables_hold_the_track(fields[0].1, b);
        },
        (None, None) => {},
    }
    match (one.device, other.device) {
        (Some(a), Some(b)) => tables_tell_devices_apart(fields[6].1, a, b),
        (Some(a), None) => {
            let held = device_tables_hold_the_device(fields[6].1, a);
        },
        (None, Some(b)) => {
            let held = device_tables_hold_the_device(fields[6].1, b);
        },
        (None, None) => {},
    }
}

} // verus!
