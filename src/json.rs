//! The wire text of the batch: each field present only when it holds data.

use vstd::prelude::*;
use crate::event::{AmplitudeEvent, AmplitudeEventView};
use crate::payload::{AmplitudePayload, PayloadView};
use crate::value::{JsonVal, PropMap, PropValue, Props};

verus! {

/// The JSON string literal that serde_json writes for `s`.
pub uninterp spec fn json_string(s: Seq<char>) -> Seq<char>;

/// Relies on `serde_json::to_string` applied to a `str`: the quoted, escaped
/// JSON string. Serializing a `str` into memory has no failing path, so the
/// fallback is never taken.
#[verifier::external_body]
fn quote(s: &str) -> (r: String)
    ensures
        r@ == json_string(s@),
{
    serde_json::to_string(s).unwrap_or_default()
}

/// The text of one decimal digit.
pub open spec fn digit_text(d: nat) -> Seq<char> {
    if d == 0 { "0"@ }
    else if d == 1 { "1"@ }
    else if d == 2 { "2"@ }
    else if d == 3 { "3"@ }
    else if d == 4 { "4"@ }
    else if d == 5 { "5"@ }
    else if d == 6 { "6"@ }
    else if d == 7 { "7"@ }
    else if d == 8 { "8"@ }
    else { "9"@ }
}

/// The decimal digits of `n`, without leading zeros.
pub open spec fn decimal_text(n: nat) -> Seq<char>
    decreases n,
{
    if n < 10 {
        digit_text(n)
    } else {
        decimal_text(n / 10) + digit_text(n % 10)
    }
}

/// The decimal text of `i`, with a leading `-` when negative.
pub open spec fn int_text(i: int) -> Seq<char> {
    if i < 0 {
        "-"@ + decimal_text((-i) as nat)
    } else {
        decimal_text(i as nat)
    }
}

/// `parts` separated by commas.
pub open spec fn joined(parts: Seq<Seq<char>>) -> Seq<char>
    decreases parts.len(),
{
    if parts.len() == 0 {
        Seq::empty()
    } else if parts.len() == 1 {
        parts[0]
    } else {
        joined(parts.drop_last()) + ","@ + parts.last()
    }
}

/// A JSON array of the given element texts.
pub open spec fn array_text(items: Seq<Seq<char>>) -> Seq<char> {
    "["@ + joined(items) + "]"@
}

/// One object member: the quoted key, a colon, the value text.
pub open spec fn member_text(m: (Seq<char>, Seq<char>)) -> Seq<char> {
    json_string(m.0) + ":"@ + m.1
}

/// A JSON object of the given `(key, value text)` members, in order.
pub open spec fn object_text(members: Seq<(Seq<char>, Seq<char>)>) -> Seq<char> {
    "{"@ + joined(members.map_values(|m: (Seq<char>, Seq<char>)| member_text(m))) + "}"@
}

/// The JSON text of a property value.
pub open spec fn value_text(v: JsonVal) -> Seq<char> {
    match v {
        JsonVal::Bool(b) => if b { "true"@ } else { "false"@ },
        JsonVal::Number(t) => t,
        JsonVal::Text(t) => json_string(t),
        JsonVal::TextList(l) => array_text(l.map_values(|s: Seq<char>| json_string(s))),
        JsonVal::Members(ms) => object_text(
            ms.map_values(|m: (Seq<char>, Seq<char>)| (m.0, json_string(m.1))),
        ),
    }
}

/// The JSON text of a property object.
pub open spec fn props_text(m: Props) -> Seq<char> {
    object_text(m.map_values(|e: (Seq<char>, JsonVal)| (e.0, value_text(e.1))))
}

pub open spec fn text_member(key: Seq<char>, v: Option<Seq<char>>) -> Seq<(Seq<char>, Seq<char>)> {
    match v {
        Some(s) => seq![(key, json_string(s))],
        None => Seq::empty(),
    }
}

pub open spec fn props_member(key: Seq<char>, v: Option<Props>) -> Seq<(Seq<char>, Seq<char>)> {
    match v {
        Some(m) => seq![(key, props_text(m))],
        None => Seq::empty(),
    }
}

pub open spec fn count_member(key: Seq<char>, v: Option<u64>) -> Seq<(Seq<char>, Seq<char>)> {
    match v {
        Some(n) => seq![(key, decimal_text(n as nat))],
        None => Seq::empty(),
    }
}

/// The members an event is written with: one for each field that holds
/// data, none for an absent one.
pub open spec fn event_members(e: AmplitudeEventView) -> Seq<(Seq<char>, Seq<char>)> {
    text_member("user_id"@, e.user_id)
        + text_member("device_id"@, e.device_id)
        + seq![("event_type"@, json_string(e.event_type))]
        + props_member("event_properties"@, e.event_properties)
        + props_member("user_properties"@, e.user_properties)
        + seq![("time"@, int_text(e.time as int))]
        + text_member("platform"@, e.platform)
        + text_member("os_name"@, e.os_name)
        + text_member("os_version"@, e.os_version)
        + text_member("device_model"@, e.device_model)
        + text_member("country"@, e.country)
        + text_member("region"@, e.region)
        + text_member("city"@, e.city)
        + text_member("language"@, e.language)
        + text_member("ip"@, e.ip)
        + count_member("session_id"@, e.session_id)
        + text_member("user_agent"@, e.user_agent)
        + text_member("library"@, e.library)
}

pub open spec fn event_text(e: AmplitudeEventView) -> Seq<char> {
    object_text(event_members(e))
}

/// The delivery option every batch carries.
pub const MIN_ID_LENGTH: u64 = 1;

/// The wire text of a batch: API key, events in order, delivery options.
pub open spec fn payload_text(p: PayloadView) -> Seq<char> {
    object_text(
        seq![
            ("api_key"@, json_string(p.api_key)),
            ("events"@, array_text(p.events.map_values(|e: AmplitudeEventView| event_text(e)))),
            ("options"@, object_text(seq![("min_id_length"@, decimal_text(MIN_ID_LENGTH as nat))])),
        ],
    )
}

fn digit_str(d: u64) -> (r: &'static str)
    requires
        d < 10,
    ensures
        r@ == digit_text(d as nat),
{
    if d == 0 { "0" }
    else if d == 1 { "1" }
    else if d == 2 { "2" }
    else if d == 3 { "3" }
    else if d == 4 { "4" }
    else if d == 5 { "5" }
    else if d == 6 { "6" }
    else if d == 7 { "7" }
    else if d == 8 { "8" }
    else { "9" }
}

/// Appends the decimal digits of `n`.
fn write_decimal(out: &mut String, n: u64)
    ensures
        final(out)@ == old(out)@ + decimal_text(n as nat),
    decreases n,
{
    if n >= 10 {
        write_decimal(out, n / 10);
    }
    out.append(digit_str(n % 10));
    proof {
        if n >= 10 {
            assert(old(out)@ + decimal_text(n as nat) =~= old(out)@ + decimal_text((n / 10) as nat)
                + digit_text((n % 10) as nat));
        } else {
            assert(old(out)@ + decimal_text(n as nat) =~= old(out)@ + digit_text((n % 10) as nat));
        }
    }
}

/// The decimal text of `n`.
pub fn decimal(n: u64) -> (r: String)
    ensures
        r@ == decimal_text(n as nat),
{
    let mut out = String::new();
    write_decimal(&mut out, n);
    assert(out@ =~= decimal_text(n as nat));
    out
}

/// The decimal text of `n`, signed.
pub fn signed_decimal(n: i64) -> (r: String)
    ensures
        r@ == int_text(n as int),
{
    if n < 0 {
        let magnitude: u64 = if n == i64::MIN {
            9223372036854775808
        } else {
            (-n) as u64
        };
        let mut out = String::from_str("-");
        write_decimal(&mut out, magnitude);
        out
    } else {
        decimal(n as u64)
    }
}

/// `parts` separated by commas.
fn write_joined(parts: &Vec<String>) -> (r: String)
    ensures
        r@ == joined(parts.deep_view()),
{
    let mut out = String::new();
    let n = parts.len();
    let mut i: usize = 0;
    while i < n
        invariant
            0 <= i <= n,
            n == parts@.len(),
            out@ == joined(parts.deep_view().subrange(0, i as int)),
        decreases n - i,
    {
        proof {
            let d = parts.deep_view();
            assert(d.subrange(0, i + 1).drop_last() =~= d.subrange(0, i as int));
        }
        if i > 0 {
            out.append(",");
        } else {
            assert(out@ =~= Seq::<char>::empty());
        }
        out.append(parts[i].as_str());
        i += 1;
    }
    assert(parts.deep_view().subrange(0, n as int) =~= parts.deep_view());
    out
}

/// A JSON object of `(key, value text)` members.
fn write_object(members: &Vec<(String, String)>) -> (r: String)
    ensures
        r@ == object_text(members.deep_view()),
{
    let mut parts: Vec<String> = Vec::new();
    let n = members.len();
    let mut i: usize = 0;
    while i < n
        invariant
            0 <= i <= n,
            n == members@.len(),
            parts.deep_view() == members.deep_view().subrange(0, i as int).map_values(
                |m: (Seq<char>, Seq<char>)| member_text(m),
            ),
        decreases n - i,
    {
        let m = &members[i];
        let part = quote(m.0.as_str()).concat(":").concat(m.1.as_str());
        let ghost before = parts;
        parts.push(part);
        assert(parts.deep_view() =~= members.deep_view().subrange(0, i + 1).map_values(
            |m: (Seq<char>, Seq<char>)| member_text(m),
        )) by {
            assert(before.deep_view().len() == before@.len());
            assert(parts@ == before@.push(part));
            assert forall|j: int| 0 <= j < i implies parts.deep_view()[j] == before.deep_view()[j] by {
                assert(parts@[j] == before@[j]);
            }
        }
        i += 1;
    }
    assert(members.deep_view().subrange(0, n as int) =~= members.deep_view());
    String::from_str("{").concat(write_joined(&parts).as_str()).concat("}")
}

/// A JSON array of the given element texts.
fn write_array(items: &Vec<String>) -> (r: String)
    ensures
        r@ == array_text(items.deep_view()),
{
    String::from_str("[").concat(write_joined(items).as_str()).concat("]")
}

/// The JSON text of a property value.
pub fn value_json(v: &PropValue) -> (r: String)
    ensures
        r@ == value_text(v@),
{
    match v {
        PropValue::Bool(b) => if *b {
            String::from_str("true")
        } else {
            String::from_str("false")
        },
        PropValue::Number(t) => t.clone(),
        PropValue::Text(t) => quote(t.as_str()),
        PropValue::TextList(l) => {
            let mut items: Vec<String> = Vec::new();
            let n = l.len();
            let mut i: usize = 0;
            while i < n
                invariant
                    0 <= i <= n,
                    n == l@.len(),
                    items.deep_view() == l.deep_view().subrange(0, i as int).map_values(
                        |s: Seq<char>| json_string(s),
                    ),
                decreases n - i,
            {
                let q = quote(l[i].as_str());
                let ghost before = items;
                items.push(q);
                assert(items.deep_view() =~= l.deep_view().subrange(0, i + 1).map_values(
                    |s: Seq<char>| json_string(s),
                )) by {
                    assert(before.deep_view().len() == before@.len());
                    assert(items@ == before@.push(q));
                    assert forall|j: int| 0 <= j < i implies items.deep_view()[j] == before.deep_view()[j] by {
                        assert(items@[j] == before@[j]);
                    }
                }
                i += 1;
            }
            assert(l.deep_view().subrange(0, n as int) =~= l.deep_view());
            write_array(&items)
        },
        PropValue::Members(ms) => {
            let mut members: Vec<(String, String)> = Vec::new();
            let n = ms.len();
            let mut i: usize = 0;
            while i < n
                invariant
                    0 <= i <= n,
                    n == ms@.len(),
                    members.deep_view() == ms.deep_view().subrange(0, i as int).map_values(
                        |m: (Seq<char>, Seq<char>)| (m.0, json_string(m.1)),
                    ),
                decreases n - i,
            {
                let m = (ms[i].0.clone(), quote(ms[i].1.as_str()));
                let ghost before = members;
                members.push(m);
                assert(members.deep_view() =~= ms.deep_view().subrange(0, i + 1).map_values(
                    |m: (Seq<char>, Seq<char>)| (m.0, json_string(m.1)),
                )) by {
                    assert(before.deep_view().len() == before@.len());
                    assert(members@ == before@.push(m));
                    assert forall|j: int| 0 <= j < i implies members.deep_view()[j] == before.deep_view()[j] by {
                        assert(members@[j] == before@[j]);
                    }
                }
                i += 1;
            }
            assert(ms.deep_view().subrange(0, n as int) =~= ms.deep_view());
            write_object(&members)
        },
    }
}

/// The JSON text of a property object.
pub fn props_json(m: &PropMap) -> (r: String)
    ensures
        r@ == props_text(m@),
{
    let entries = m.entries();
    let mut members: Vec<(String, String)> = Vec::new();
    let n = entries.len();
    let mut i: usize = 0;
    while i < n
        invariant
            0 <= i <= n,
            n == entries@.len(),
            entries@.len() == m@.len(),
            forall|j: int| 0 <= j < entries@.len() ==> (#[trigger] entries@[j].0@, entries@[j].1@) == m@[j],
            members.deep_view() == m@.subrange(0, i as int).map_values(
                |e: (Seq<char>, JsonVal)| (e.0, value_text(e.1)),
            ),
        decreases n - i,
    {
        let entry = (entries[i].0.clone(), value_json(&entries[i].1));
        let ghost before = members;
        members.push(entry);
        assert(members.deep_view() =~= m@.subrange(0, i + 1).map_values(
            |e: (Seq<char>, JsonVal)| (e.0, value_text(e.1)),
        )) by {
            assert(before.deep_view().len() == before@.len());
            assert(members@ == before@.push(entry));
            assert forall|j: int| 0 <= j < i implies members.deep_view()[j] == before.deep_view()[j] by {
                assert(members@[j] == before@[j]);
            }
            assert((entries@[i as int].0@, entries@[i as int].1@) == m@[i as int]);
        }
        i += 1;
    }
    assert(m@.subrange(0, n as int) =~= m@);
    write_object(&members)
}

/// Appends `(key, value)`.
fn push_pair(members: &mut Vec<(String, String)>, key: &str, value: String)
    ensures
        final(members).deep_view() == old(members).deep_view().push((key@, value@)),
{
    members.push((key.to_owned(), value));
    assert(members.deep_view() =~= old(members).deep_view().push((key@, value@)));
}

/// Appends the member for a text field that holds data.
fn push_text(members: &mut Vec<(String, String)>, key: &str, v: &Option<String>)
    ensures
        final(members).deep_view() == old(members).deep_view() + text_member(key@, v.deep_view()),
{
    match v {
        Some(s) => {
            push_pair(members, key, quote(s.as_str()));
            assert(old(members).deep_view() + text_member(key@, v.deep_view())
                =~= old(members).deep_view().push((key@, json_string(s@))));
        },
        None => {
            assert(old(members).deep_view() + text_member(key@, v.deep_view())
                =~= old(members).deep_view());
        },
    }
}

/// Appends the member for a property object that is present.
fn push_props(members: &mut Vec<(String, String)>, key: &str, v: &Option<PropMap>)
    ensures
        final(members).deep_view() == old(members).deep_view() + props_member(
            key@,
            crate::event::props_view(*v),
        ),
{
    match v {
        Some(m) => {
            push_pair(members, key, props_json(m));
            assert(old(members).deep_view() + props_member(key@, crate::event::props_view(*v))
                =~= old(members).deep_view().push((key@, props_text(m@))));
        },
        None => {
            assert(old(members).deep_view() + props_member(key@, crate::event::props_view(*v))
                =~= old(members).deep_view());
        },
    }
}

/// Appends the member for a count that is present.
fn push_count(members: &mut Vec<(String, String)>, key: &str, v: Option<u64>)
    ensures
        final(members).deep_view() == old(members).deep_view() + count_member(key@, v),
{
    match v {
        Some(n) => {
            push_pair(members, key, decimal(n));
            assert(old(members).deep_view() + count_member(key@, v)
                =~= old(members).deep_view().push((key@, decimal_text(n as nat))));
        },
        None => {
            assert(old(members).deep_view() + count_member(key@, v) =~= old(members).deep_view());
        },
    }
}

/// The wire text of one event: absent fields are left out, never written
/// as `null` or as an empty value.
pub fn event_json(e: &AmplitudeEvent) -> (r: String)
    ensures
        r@ == event_text(e@),
{
    let mut ms: Vec<(String, String)> = Vec::new();
    let ghost v = e@;
    push_text(&mut ms, "user_id", &e.user_id);
    push_text(&mut ms, "device_id", &e.device_id);
    push_pair(&mut ms, "event_type", quote(e.event_type.as_str()));
    push_props(&mut ms, "event_properties", &e.event_properties);
    push_props(&mut ms, "user_properties", &e.user_properties);
    push_pair(&mut ms, "time", signed_decimal(e.time));
    push_text(&mut ms, "platform", &e.platform);
    push_text(&mut ms, "os_name", &e.os_name);
    push_text(&mut ms, "os_version", &e.os_version);
    push_text(&mut ms, "device_model", &e.device_model);
    push_text(&mut ms, "country", &e.country);
    push_text(&mut ms, "region", &e.region);
    push_text(&mut ms, "city", &e.city);
    push_text(&mut ms, "language", &e.language);
    push_text(&mut ms, "ip", &e.ip);
    push_count(&mut ms, "session_id", e.session_id);
    push_text(&mut ms, "user_agent", &e.user_agent);
    push_text(&mut ms, "library", &e.library);
    assert(ms.deep_view() =~= event_members(v));
    write_object(&ms)
}

/// The wire text of a batch.
pub fn payload_json(p: &AmplitudePayload) -> (r: String)
    ensures
        r@ == payload_text(p@),
{
    let mut events: Vec<String> = Vec::new();
    let n = p.events.len();
    let mut i: usize = 0;
    while i < n
        invariant
            0 <= i <= n,
            n == p.events@.len(),
            events.deep_view() == p@.events.subrange(0, i as int).map_values(
                |e: AmplitudeEventView| event_text(e),
            ),
        decreases n - i,
    {
        let text = event_json(&p.events[i]);
        let ghost before = events;
        events.push(text);
        assert(events.deep_view() =~= p@.events.subrange(0, i + 1).map_values(
            |e: AmplitudeEventView| event_text(e),
        )) by {
            assert(before.deep_view().len() == before@.len());
            assert(events@ == before@.push(text));
            assert forall|j: int| 0 <= j < i implies events.deep_view()[j] == before.deep_view()[j] by {
                assert(events@[j] == before@[j]);
            }
        }
        i += 1;
    }
    assert(p@.events.subrange(0, n as int) =~= p@.events);
    let mut options: Vec<(String, String)> = Vec::new();
    push_pair(&mut options, "min_id_length", decimal(MIN_ID_LENGTH));
    let mut top: Vec<(String, String)> = Vec::new();
    push_pair(&mut top, "api_key", quote(p.api_key.as_str()));
    push_pair(&mut top, "events", write_array(&events));
    push_pair(&mut top, "options", write_object(&options));
    assert(options.deep_view() =~= seq![("min_id_length"@, decimal_text(MIN_ID_LENGTH as nat))]);
    assert(top.deep_view() =~= seq![
        ("api_key"@, json_string(p@.api_key)),
        ("events"@, array_text(p@.events.map_values(|e: AmplitudeEventView| event_text(e)))),
        ("options"@, object_text(seq![("min_id_length"@, decimal_text(MIN_ID_LENGTH as nat))])),
    ]);
    write_object(&top)
}

} // verus!
