//! The three operations: a page view, a custom track event, an identify call,
//! each turned into a batch of downstream events.

use vstd::prelude::*;
use crate::error::MappingError;
use crate::event::{AmplitudeEvent, AmplitudeEventView, base_event, referrer_invalid};
use crate::inbound::{Data, Dict, Event, PageData, TrackData, UserData};
use crate::links::{parse_domain, url_domain, url_parses};
use crate::payload::{
    API_KEY_SETTING, AmplitudePayload, PayloadView, endpoint_spec, setting,
};
use crate::session::{resolve_session_id, session_id_spec};
use crate::value::{
    JsonVal, PropMap, PropValue, Props, lemma_insert_coerced_len, props_insert, props_insert_coerced,
};

verus! {

/// The event type of a page view.
pub const PAGE_VIEWED: &'static str = "[Amplitude] Page Viewed";

/// The event type of an identify call.
pub const IDENTIFY: &'static str = "identify";

/// The event type of the marker that closes the previous session.
pub const SESSION_END: &'static str = "session_end";

/// The event type of the marker that opens the current session.
pub const SESSION_START: &'static str = "session_start";

/// A page view that opens a session which follows another one.
pub open spec fn ends_session(ev: &Event) -> bool {
    &&& ev.context.session.session_start
    &&& ev.context.session.previous_session_id@.len() > 0
    &&& ev.context.session.previous_session_id@ != ev.context.session.session_id@
}

/// A non-empty page URL that does not parse.
pub open spec fn page_url_invalid(d: PageData) -> bool {
    d.url@.len() > 0 && !url_parses(d.url@)
}

/// `m` with `key` set to the text `value` when `value` is non-empty.
pub open spec fn insert_text_when_set(m: Props, key: Seq<char>, value: Seq<char>) -> Props {
    if value.len() > 0 {
        props_insert(m, key, JsonVal::Text(value))
    } else {
        m
    }
}

/// `m` with the campaign attribution fields that are set, under `utm_` keys.
pub open spec fn with_campaign(m: Props, ev: &Event) -> Props {
    let c = ev.context.campaign;
    let m1 = insert_text_when_set(m, "utm_campaign"@, c.name@);
    let m2 = insert_text_when_set(m1, "utm_source"@, c.source@);
    let m3 = insert_text_when_set(m2, "utm_medium"@, c.medium@);
    let m4 = insert_text_when_set(m3, "utm_term"@, c.term@);
    insert_text_when_set(m4, "utm_content"@, c.content@)
}

/// The event properties of a page view.
pub open spec fn page_properties(ev: &Event, d: PageData) -> Props {
    let m1 = props_insert(Seq::empty(), "[Amplitude] Page Location"@, JsonVal::Text(d.url@ + d.search@));
    let m2 = props_insert(m1, "[Amplitude] Page Path"@, JsonVal::Text(d.path@));
    let m3 = props_insert(m2, "[Amplitude] Page Title"@, JsonVal::Text(d.title@));
    let m4 = props_insert(m3, "[Amplitude] Page URL"@, JsonVal::Text(d.url@));
    let m5 = if d.url@.len() > 0 {
        match url_domain(d.url@) {
            Some(domain) => props_insert(m4, "[Amplitude] Page Domain"@, JsonVal::Text(domain)),
            None => m4,
        }
    } else {
        m4
    };
    let m6 = insert_text_when_set(m5, "name"@, d.name@);
    let m7 = insert_text_when_set(m6, "category"@, d.category@);
    let m8 = if d.keywords@.len() > 0 {
        props_insert(m7, "keywords"@, JsonVal::TextList(d.keywords.deep_view()))
    } else {
        m7
    };
    with_campaign(props_insert_coerced(m8, d.properties.deep_view()), ev)
}

/// `e` at time `t`.
pub open spec fn at_time(e: AmplitudeEventView, t: int) -> AmplitudeEventView {
    AmplitudeEventView { time: t as i64, ..e }
}

/// The batch for a page view: `session_end` at `t - 2` when a session follows
/// another, `session_start` at `t - 1` when one opens, then the page view at `t`.
pub open spec fn page_spec(ev: &Event, settings: Seq<(Seq<char>, Seq<char>)>) -> Result<
    PayloadView,
    MappingError,
> {
    match ev.data {
        Data::Page(d) => {
            let s = ev.context.session;
            if setting(settings, API_KEY_SETTING@) is None {
                Err(MappingError::MissingApiKey)
            } else if session_id_spec(s.session_id@) is None {
                Err(MappingError::InvalidSessionId)
            } else if ends_session(ev) && session_id_spec(s.previous_session_id@) is None {
                Err(MappingError::InvalidSessionId)
            } else if referrer_invalid(ev) {
                Err(MappingError::InvalidReferrer)
            } else if page_url_invalid(d) {
                Err(MappingError::InvalidPageUrl)
            } else {
                let sid = session_id_spec(s.session_id@).unwrap();
                let t = ev.timestamp as int;
                let end = if ends_session(ev) {
                    seq![at_time(base_event(SESSION_END@, ev, session_id_spec(s.previous_session_id@).unwrap()), t - 2)]
                } else {
                    Seq::empty()
                };
                let start = if s.session_start {
                    seq![at_time(base_event(SESSION_START@, ev, sid), t - 1)]
                } else {
                    Seq::empty()
                };
                let view = AmplitudeEventView {
                    event_properties: Some(page_properties(ev, d)),
                    ..at_time(base_event(PAGE_VIEWED@, ev, sid), t)
                };
                Ok(PayloadView {
                    api_key: setting(settings, API_KEY_SETTING@).unwrap(),
                    endpoint: endpoint_spec(settings),
                    events: end + start + seq![view],
                })
            }
        },
        _ => Err(MappingError::MissingPageData),
    }
}

/// The custom properties of a track event, coerced; absent when there are none.
pub open spec fn track_properties(d: TrackData) -> Option<Props> {
    if d.properties@.len() > 0 {
        Some(props_insert_coerced(Seq::empty(), d.properties.deep_view()))
    } else {
        None
    }
}

/// The batch for a track event: one event named after it.
pub open spec fn track_spec(ev: &Event, settings: Seq<(Seq<char>, Seq<char>)>) -> Result<
    PayloadView,
    MappingError,
> {
    match ev.data {
        Data::Track(d) => {
            if d.name@.len() == 0 {
                Err(MappingError::MissingEventName)
            } else if setting(settings, API_KEY_SETTING@) is None {
                Err(MappingError::MissingApiKey)
            } else if session_id_spec(ev.context.session.session_id@) is None {
                Err(MappingError::InvalidSessionId)
            } else if referrer_invalid(ev) {
                Err(MappingError::InvalidReferrer)
            } else {
                let sid = session_id_spec(ev.context.session.session_id@).unwrap();
                let view = AmplitudeEventView {
                    event_properties: track_properties(d),
                    ..at_time(base_event(d.name@, ev, sid), ev.timestamp as int)
                };
                Ok(PayloadView {
                    api_key: setting(settings, API_KEY_SETTING@).unwrap(),
                    endpoint: endpoint_spec(settings),
                    events: seq![view],
                })
            }
        },
        _ => Err(MappingError::MissingTrackData),
    }
}

/// The user properties of an identify call: those of every event, then the
/// call's anonymous id when set, then its custom properties, coerced.
pub open spec fn identify_properties(base: Props, d: UserData) -> Props {
    let m = if d.anonymous_id@.len() > 0 {
        props_insert(base, "anonymous_id"@, JsonVal::Text(d.anonymous_id@))
    } else {
        base
    };
    props_insert_coerced(m, d.properties.deep_view())
}

/// The batch for an identify call: one `identify` event.
pub open spec fn user_spec(ev: &Event, settings: Seq<(Seq<char>, Seq<char>)>) -> Result<
    PayloadView,
    MappingError,
> {
    match ev.data {
        Data::User(d) => {
            if d.user_id@.len() == 0 && d.anonymous_id@.len() == 0 {
                Err(MappingError::MissingUserIds)
            } else if setting(settings, API_KEY_SETTING@) is None {
                Err(MappingError::MissingApiKey)
            } else if session_id_spec(ev.context.session.session_id@) is None {
                Err(MappingError::InvalidSessionId)
            } else if referrer_invalid(ev) {
                Err(MappingError::InvalidReferrer)
            } else {
                let sid = session_id_spec(ev.context.session.session_id@).unwrap();
                let base = at_time(base_event(IDENTIFY@, ev, sid), ev.timestamp as int);
                let view = AmplitudeEventView {
                    user_id: if d.user_id@.len() > 0 { Some(d.user_id@) } else { base.user_id },
                    user_properties: Some(identify_properties(base.user_properties.unwrap(), d)),
                    ..base
                };
                Ok(PayloadView {
                    api_key: setting(settings, API_KEY_SETTING@).unwrap(),
                    endpoint: endpoint_spec(settings),
                    events: seq![view],
                })
            }
        },
        _ => Err(MappingError::MissingUserData),
    }
}

/// Sets `key` to the text `value` when `value` is non-empty.
fn insert_text_when_set_exec(m: &mut PropMap, key: &str, value: &String)
    ensures
        final(m)@ == insert_text_when_set(old(m)@, key@, value@),
{
    if !value.as_str().is_empty() {
        m.insert(key.to_owned(), PropValue::Text(value.clone()));
    }
}

/// Copies of the strings in `v`.
fn copy_texts(v: &Vec<String>) -> (r: Vec<String>)
    ensures
        r.deep_view() == v.deep_view(),
{
    let mut r: Vec<String> = Vec::new();
    let n = v.len();
    let mut i: usize = 0;
    while i < n
        invariant
            0 <= i <= n,
            n == v@.len(),
            r.deep_view() == v.deep_view().subrange(0, i as int),
        decreases n - i,
    {
        let ghost before = r;
        let s = v[i].clone();
        r.push(s);
        assert(r@ == before@.push(s));
        assert(r.deep_view() =~= v.deep_view().subrange(0, i + 1)) by {
            assert(before.deep_view().len() == before@.len());
            assert(before@.len() == i);
            assert(r@.len() == i + 1);
            assert(r.deep_view().len() == i + 1);
            assert(forall|j: int| 0 <= j < i ==> r.deep_view()[j] == before.deep_view()[j]);
            assert(r.deep_view()[i as int] == s@);
        }
        i += 1;
    }
    assert(v.deep_view().subrange(0, n as int) =~= v.deep_view());
    r
}

/// Builds the event properties of a page view; fails on a non-empty page URL
/// that does not parse.
fn build_page_properties(ev: &Event, d: &PageData) -> (r: Result<PropMap, MappingError>)
    ensures
        match r {
            Ok(m) => !page_url_invalid(*d) && m@ == page_properties(ev, *d),
            Err(e) => page_url_invalid(*d) && e == MappingError::InvalidPageUrl,
        },
{
    let mut domain: Option<String> = None;
    if !d.url.as_str().is_empty() {
        match parse_domain(d.url.as_str()) {
            Some(found) => {
                domain = found;
            },
            None => {
                return Err(MappingError::InvalidPageUrl);
            },
        }
    }
    let mut m = PropMap::new();
    let location = d.url.clone().concat(d.search.as_str());
    m.insert(String::from_str("[Amplitude] Page Location"), PropValue::Text(location));
    m.insert(String::from_str("[Amplitude] Page Path"), PropValue::Text(d.path.clone()));
    m.insert(String::from_str("[Amplitude] Page Title"), PropValue::Text(d.title.clone()));
    m.insert(String::from_str("[Amplitude] Page URL"), PropValue::Text(d.url.clone()));
    match domain {
        Some(found) => {
            m.insert(String::from_str("[Amplitude] Page Domain"), PropValue::Text(found));
        },
        None => {},
    }
    insert_text_when_set_exec(&mut m, "name", &d.name);
    insert_text_when_set_exec(&mut m, "category", &d.category);
    if d.keywords.len() > 0 {
        m.insert(String::from_str("keywords"), PropValue::TextList(copy_texts(&d.keywords)));
    }
    m.insert_coerced(&d.properties);
    let c = &ev.context.campaign;
    insert_text_when_set_exec(&mut m, "utm_campaign", &c.name);
    insert_text_when_set_exec(&mut m, "utm_source", &c.source);
    insert_text_when_set_exec(&mut m, "utm_medium", &c.medium);
    insert_text_when_set_exec(&mut m, "utm_term", &c.term);
    insert_text_when_set_exec(&mut m, "utm_content", &c.content);
    Ok(m)
}

/// Maps a page view: the session-boundary markers it implies, then the page
/// view itself.
pub fn page_payload(edgee_event: &Event, cred_map: Dict) -> (r: Result<AmplitudePayload, MappingError>)
    requires
        edgee_event.context.session.session_start ==> edgee_event.timestamp >= i64::MIN + 2,
    ensures
        match r {
            Ok(p) => page_spec(edgee_event, cred_map.deep_view()) == Ok::<PayloadView, MappingError>(p@),
            Err(e) => page_spec(edgee_event, cred_map.deep_view()) == Err::<PayloadView, MappingError>(e),
        },
{
    let ev = edgee_event;
    let ghost settings = cred_map.deep_view();
    let data = match &ev.data {
        Data::Page(d) => d,
        _ => {
            return Err(MappingError::MissingPageData);
        },
    };
    let mut payload = match AmplitudePayload::new(cred_map) {
        Ok(p) => p,
        Err(e) => {
            return Err(e);
        },
    };
    let s = &ev.context.session;
    let session_id = match resolve_session_id(s.session_id.as_str()) {
        Ok(n) => n,
        Err(e) => {
            return Err(e);
        },
    };
    let ends = s.session_start && !s.previous_session_id.as_str().is_empty()
        && !(s.previous_session_id == s.session_id);
    assert(ends == ends_session(ev));
    if ends {
        let previous = match resolve_session_id(s.previous_session_id.as_str()) {
            Ok(n) => n,
            Err(e) => {
                return Err(e);
            },
        };
        let mut end = match AmplitudeEvent::new(SESSION_END, ev, previous) {
            Ok(e) => e,
            Err(e) => {
                return Err(e);
            },
        };
        end.time = ev.timestamp - 2;
        payload.push(end);
    }
    if s.session_start {
        let mut start = match AmplitudeEvent::new(SESSION_START, ev, session_id) {
            Ok(e) => e,
            Err(e) => {
                return Err(e);
            },
        };
        start.time = ev.timestamp - 1;
        payload.push(start);
    }
    let mut event = match AmplitudeEvent::new(PAGE_VIEWED, ev, session_id) {
        Ok(e) => e,
        Err(e) => {
            return Err(e);
        },
    };
    event.time = ev.timestamp;
    let props = match build_page_properties(ev, data) {
        Ok(m) => m,
        Err(e) => {
            return Err(e);
        },
    };
    event.event_properties = Some(props);
    payload.push(event);
    assert(payload@.events =~= page_spec(ev, settings).unwrap().events);
    Ok(payload)
}

/// Maps a custom track event onto one event named after it.
pub fn track_payload(edgee_event: &Event, cred_map: Dict) -> (r: Result<AmplitudePayload, MappingError>)
    ensures
        match r {
            Ok(p) => track_spec(edgee_event, cred_map.deep_view()) == Ok::<PayloadView, MappingError>(p@),
            Err(e) => track_spec(edgee_event, cred_map.deep_view()) == Err::<PayloadView, MappingError>(e),
        },
{
    let ev = edgee_event;
    let ghost settings = cred_map.deep_view();
    let data = match &ev.data {
        Data::Track(d) => d,
        _ => {
            return Err(MappingError::MissingTrackData);
        },
    };
    if data.name.as_str().is_empty() {
        return Err(MappingError::MissingEventName);
    }
    let mut payload = match AmplitudePayload::new(cred_map) {
        Ok(p) => p,
        Err(e) => {
            return Err(e);
        },
    };
    let session_id = match resolve_session_id(ev.context.session.session_id.as_str()) {
        Ok(n) => n,
        Err(e) => {
            return Err(e);
        },
    };
    let mut event = match AmplitudeEvent::new(data.name.as_str(), ev, session_id) {
        Ok(e) => e,
        Err(e) => {
            return Err(e);
        },
    };
    event.time = ev.timestamp;
    let mut props = PropMap::new();
    props.insert_coerced(&data.properties);
    if !props.is_empty() {
        event.event_properties = Some(props);
    }
    proof {
        if data.properties@.len() > 0 {
            lemma_insert_coerced_len(Seq::empty(), data.properties.deep_view());
        }
    }
    payload.push(event);
    assert(payload@.events =~= track_spec(ev, settings).unwrap().events);
    Ok(payload)
}

/// Maps an identify call onto one `identify` event.
pub fn user_payload(edgee_event: &Event, cred_map: Dict) -> (r: Result<AmplitudePayload, MappingError>)
    ensures
        match r {
            Ok(p) => user_spec(edgee_event, cred_map.deep_view()) == Ok::<PayloadView, MappingError>(p@),
            Err(e) => user_spec(edgee_event, cred_map.deep_view()) == Err::<PayloadView, MappingError>(e),
        },
{
    let ev = edgee_event;
    let ghost settings = cred_map.deep_view();
    let data = match &ev.data {
        Data::User(d) => d,
        _ => {
            return Err(MappingError::MissingUserData);
        },
    };
    if data.user_id.as_str().is_empty() && data.anonymous_id.as_str().is_empty() {
        return Err(MappingError::MissingUserIds);
    }
    let mut payload = match AmplitudePayload::new(cred_map) {
        Ok(p) => p,
        Err(e) => {
            return Err(e);
        },
    };
    let session_id = match resolve_session_id(ev.context.session.session_id.as_str()) {
        Ok(n) => n,
        Err(e) => {
            return Err(e);
        },
    };
    let mut event = match AmplitudeEvent::new(IDENTIFY, ev, session_id) {
        Ok(e) => e,
        Err(e) => {
            return Err(e);
        },
    };
    event.time = ev.timestamp;
    if !data.user_id.as_str().is_empty() {
        event.user_id = Some(data.user_id.clone());
    }
    let mut props = match event.user_properties {
        Some(m) => m,
        None => PropMap::new(),
    };
    if !data.anonymous_id.as_str().is_empty() {
        props.insert(String::from_str("anonymous_id"), PropValue::Text(data.anonymous_id.clone()));
    }
    props.insert_coerced(&data.properties);
    event.user_properties = Some(props);
    payload.push(event);
    assert(payload@.events =~= user_spec(ev, settings).unwrap().events);
    Ok(payload)
}

} // verus!
