//! The downstream event record and the rules shared by every kind of event.

use vstd::prelude::*;
use crate::error::MappingError;
use crate::inbound::Event;
use crate::links::{parse_domain, url_domain, url_parses};
use crate::value::{
    JsonVal, PropMap, PropValue, Props, props_insert, props_insert_coerced,
};

verus! {

/// What an `AmplitudeEvent` says. A `None` field is absent from the wire.
pub struct AmplitudeEventView {
    pub user_id: Option<Seq<char>>,
    pub device_id: Option<Seq<char>>,
    pub event_type: Seq<char>,
    pub event_properties: Option<Props>,
    pub user_properties: Option<Props>,
    pub time: i64,
    pub platform: Option<Seq<char>>,
    pub os_name: Option<Seq<char>>,
    pub os_version: Option<Seq<char>>,
    pub device_model: Option<Seq<char>>,
    pub country: Option<Seq<char>>,
    pub region: Option<Seq<char>>,
    pub city: Option<Seq<char>>,
    pub language: Option<Seq<char>>,
    pub ip: Option<Seq<char>>,
    pub session_id: Option<u64>,
    pub user_agent: Option<Seq<char>>,
    pub library: Option<Seq<char>>,
}

/// One event of the downstream batch. The vendor's schema has further
/// attributes (device brand, carrier, revenue, plan and others); no inbound
/// field feeds them, so they are never sent and have no field here.
#[derive(Debug)]
pub struct AmplitudeEvent {
    pub user_id: Option<String>,
    pub device_id: Option<String>,
    pub event_type: String,
    pub event_properties: Option<PropMap>,
    pub user_properties: Option<PropMap>,
    pub time: i64,
    pub platform: Option<String>,
    pub os_name: Option<String>,
    pub os_version: Option<String>,
    pub device_model: Option<String>,
    pub country: Option<String>,
    pub region: Option<String>,
    pub city: Option<String>,
    pub language: Option<String>,
    pub ip: Option<String>,
    pub session_id: Option<u64>,
    pub user_agent: Option<String>,
    pub library: Option<String>,
}

pub open spec fn props_view(m: Option<PropMap>) -> Option<Props> {
    match m {
        Some(p) => Some(p@),
        None => None,
    }
}

impl View for AmplitudeEvent {
    type V = AmplitudeEventView;

    open spec fn view(&self) -> AmplitudeEventView {
        AmplitudeEventView {
            user_id: self.user_id.deep_view(),
            device_id: self.device_id.deep_view(),
            event_type: self.event_type@,
            event_properties: props_view(self.event_properties),
            user_properties: props_view(self.user_properties),
            time: self.time,
            platform: self.platform.deep_view(),
            os_name: self.os_name.deep_view(),
            os_version: self.os_version.deep_view(),
            device_model: self.device_model.deep_view(),
            country: self.country.deep_view(),
            region: self.region.deep_view(),
            city: self.city.deep_view(),
            language: self.language.deep_view(),
            ip: self.ip.deep_view(),
            session_id: self.session_id,
            user_agent: self.user_agent.deep_view(),
            library: self.library.deep_view(),
        }
    }
}

/// `Some(s)` when `s` is non-empty.
pub open spec fn when_set(s: Seq<char>) -> Option<Seq<char>> {
    if s.len() > 0 {
        Some(s)
    } else {
        None
    }
}

/// The member `(key, value)` when `value` is non-empty, else nothing.
pub open spec fn member_when_set(key: Seq<char>, value: Seq<char>) -> Seq<(Seq<char>, Seq<char>)> {
    if value.len() > 0 {
        seq![(key, value)]
    } else {
        Seq::empty()
    }
}

/// A non-empty referrer that does not parse as a URL.
pub open spec fn referrer_invalid(ev: &Event) -> bool {
    ev.context.page.referrer@.len() > 0 && !url_parses(ev.context.page.referrer@)
}

/// The referrer members of `$set` (`once` false) or `$setOnce` (`once` true).
pub open spec fn referrer_members(ev: &Event, once: bool) -> Seq<(Seq<char>, Seq<char>)> {
    let r = ev.context.page.referrer@;
    if r.len() == 0 {
        Seq::empty()
    } else {
        let domain = match url_domain(r) {
            Some(d) => seq![(if once { "initial_referring_domain"@ } else { "referring_domain"@ }, d)],
            None => Seq::empty(),
        };
        seq![(if once { "initial_referrer"@ } else { "referrer"@ }, r)] + domain
    }
}

/// The campaign attribution members that are set, under `utm_` keys, or
/// `initial_utm_` keys when `once`.
pub open spec fn campaign_members(ev: &Event, once: bool) -> Seq<(Seq<char>, Seq<char>)> {
    let c = ev.context.campaign;
    member_when_set(if once { "initial_utm_campaign"@ } else { "utm_campaign"@ }, c.name@)
        + member_when_set(if once { "initial_utm_source"@ } else { "utm_source"@ }, c.source@)
        + member_when_set(if once { "initial_utm_medium"@ } else { "utm_medium"@ }, c.medium@)
        + member_when_set(if once { "initial_utm_term"@ } else { "utm_term"@ }, c.term@)
        + member_when_set(if once { "initial_utm_content"@ } else { "utm_content"@ }, c.content@)
}

/// The members of `$set` (`once` false) or `$setOnce` (`once` true).
pub open spec fn attribution_members(ev: &Event, once: bool) -> Seq<(Seq<char>, Seq<char>)> {
    referrer_members(ev, once) + campaign_members(ev, once)
}

/// The user properties every event carries: the anonymous id when set, the
/// `$set` and `$setOnce` objects, then the custom user properties, coerced.
pub open spec fn base_user_props(ev: &Event) -> Props {
    let anon = ev.context.user.anonymous_id@;
    let m0 = if anon.len() > 0 {
        props_insert(Seq::empty(), "anonymous_id"@, JsonVal::Text(anon))
    } else {
        Seq::empty()
    };
    let m1 = props_insert(m0, "$set"@, JsonVal::Members(attribution_members(ev, false)));
    let m2 = props_insert(m1, "$setOnce"@, JsonVal::Members(attribution_members(ev, true)));
    props_insert_coerced(m2, ev.context.user.properties.deep_view())
}

/// The event that every kind starts from, with time 0.
pub open spec fn base_event(label: Seq<char>, ev: &Event, session_id: u64) -> AmplitudeEventView {
    let c = ev.context.client;
    AmplitudeEventView {
        user_id: when_set(ev.context.user.user_id@),
        device_id: Some(ev.context.user.edgee_id@),
        event_type: label,
        event_properties: None,
        user_properties: Some(base_user_props(ev)),
        time: 0,
        platform: Some("Web"@),
        os_name: when_set(c.os_name@),
        os_version: when_set(c.os_version@),
        device_model: when_set(c.user_agent_model@),
        country: when_set(c.country_code@),
        region: when_set(c.region@),
        city: when_set(c.city@),
        language: when_set(c.locale@),
        ip: when_set(c.ip@),
        session_id: if session_id == 0 { None } else { Some(session_id) },
        user_agent: when_set(c.user_agent@),
        library: Some("Edgee"@),
    }
}

/// A copy of `s` when it is non-empty.
pub(crate) fn copy_when_set(s: &String) -> (r: Option<String>)
    ensures
        r.deep_view() == when_set(s@),
{
    if s.as_str().is_empty() {
        None
    } else {
        Some(s.clone())
    }
}

/// Appends `(key, value)`.
fn push_member(members: &mut Vec<(String, String)>, key: &str, value: String)
    ensures
        final(members).deep_view() == old(members).deep_view().push((key@, value@)),
{
    members.push((key.to_owned(), value));
    assert(members.deep_view() =~= old(members).deep_view().push((key@, value@)));
}

/// Appends `(key, value)` when `value` is non-empty.
fn push_member_when_set(members: &mut Vec<(String, String)>, key: &str, value: &String)
    ensures
        final(members).deep_view() == old(members).deep_view() + member_when_set(key@, value@),
{
    if value.as_str().is_empty() {
        assert(old(members).deep_view() + member_when_set(key@, value@) =~= old(members).deep_view());
    } else {
        push_member(members, key, value.clone());
        assert(old(members).deep_view() + member_when_set(key@, value@)
            =~= old(members).deep_view().push((key@, value@)));
    }
}

/// Appends the campaign attribution members.
fn push_campaign(members: &mut Vec<(String, String)>, ev: &Event, once: bool)
    ensures
        final(members).deep_view() == old(members).deep_view() + campaign_members(ev, once),
{
    let c = &ev.context.campaign;
    let ghost m0 = members.deep_view();
    push_member_when_set(members, if once { "initial_utm_campaign" } else { "utm_campaign" }, &c.name);
    push_member_when_set(members, if once { "initial_utm_source" } else { "utm_source" }, &c.source);
    push_member_when_set(members, if once { "initial_utm_medium" } else { "utm_medium" }, &c.medium);
    push_member_when_set(members, if once { "initial_utm_term" } else { "utm_term" }, &c.term);
    push_member_when_set(members, if once { "initial_utm_content" } else { "utm_content" }, &c.content);
    assert(members.deep_view() =~= m0 + campaign_members(ev, once));
}

/// The referrer members; `domain` is what parsing the non-empty referrer gave.
fn referrer_attribution(ev: &Event, once: bool, domain: &Option<String>) -> (r: Vec<(String, String)>)
    requires
        ev.context.page.referrer@.len() > 0 ==> domain.deep_view() == url_domain(
            ev.context.page.referrer@,
        ),
    ensures
        r.deep_view() == referrer_members(ev, once),
{
    let mut members: Vec<(String, String)> = Vec::new();
    let referrer = &ev.context.page.referrer;
    if !referrer.as_str().is_empty() {
        push_member(&mut members, if once { "initial_referrer" } else { "referrer" }, referrer.clone());
        match domain {
            Some(d) => {
                push_member(
                    &mut members,
                    if once { "initial_referring_domain" } else { "referring_domain" },
                    d.clone(),
                );
            },
            None => {},
        }
    }
    assert(members.deep_view() =~= referrer_members(ev, once));
    members
}

/// The `$set` members (`once` false) or `$setOnce` members (`once` true);
/// `domain` is what parsing the non-empty referrer gave.
fn attribution(ev: &Event, once: bool, domain: &Option<String>) -> (r: Vec<(String, String)>)
    requires
        ev.context.page.referrer@.len() > 0 ==> domain.deep_view() == url_domain(
            ev.context.page.referrer@,
        ),
    ensures
        r.deep_view() == attribution_members(ev, once),
{
    let mut members = referrer_attribution(ev, once, domain);
    push_campaign(&mut members, ev, once);
    members
}

impl AmplitudeEvent {
    /// The event that every kind starts from: identity, client and geo
    /// attributes, session id (absent when 0) and user properties, with time 0.
    /// Fails only on a non-empty referrer that is not a URL.
    pub fn new(event_type: &str, edgee_event: &Event, session_id: u64) -> (r: Result<
        AmplitudeEvent,
        MappingError,
    >)
        ensures
            match r {
                Ok(e) => !referrer_invalid(edgee_event) && e@ == base_event(
                    event_type@,
                    edgee_event,
                    session_id,
                ),
                Err(err) => referrer_invalid(edgee_event) && err == MappingError::InvalidReferrer,
            },
    {
        let ev = edgee_event;
        let mut domain: Option<String> = None;
        if !ev.context.page.referrer.as_str().is_empty() {
            match parse_domain(ev.context.page.referrer.as_str()) {
                Some(d) => {
                    domain = d;
                },
                None => {
                    return Err(MappingError::InvalidReferrer);
                },
            }
        }
        let mut user_props = PropMap::new();
        if !ev.context.user.anonymous_id.as_str().is_empty() {
            user_props.insert(
                String::from_str("anonymous_id"),
                PropValue::Text(ev.context.user.anonymous_id.clone()),
            );
        }
        let set = attribution(ev, false, &domain);
        let set_once = attribution(ev, true, &domain);
        user_props.insert(String::from_str("$set"), PropValue::Members(set));
        user_props.insert(String::from_str("$setOnce"), PropValue::Members(set_once));
        user_props.insert_coerced(&ev.context.user.properties);

        let c = &ev.context.client;
        let e = AmplitudeEvent {
            user_id: copy_when_set(&ev.context.user.user_id),
            device_id: Some(ev.context.user.edgee_id.clone()),
            event_type: String::from_str(event_type),
            event_properties: None,
            user_properties: Some(user_props),
            time: 0,
            platform: Some(String::from_str("Web")),
            os_name: copy_when_set(&c.os_name),
            os_version: copy_when_set(&c.os_version),
            device_model: copy_when_set(&c.user_agent_model),
            country: copy_when_set(&c.country_code),
            region: copy_when_set(&c.region),
            city: copy_when_set(&c.city),
            language: copy_when_set(&c.locale),
            ip: copy_when_set(&c.ip),
            session_id: if session_id == 0 { None } else { Some(session_id) },
            user_agent: copy_when_set(&c.user_agent),
            library: Some(String::from_str("Edgee")),
        };
        assert(e@.user_properties == Some(base_user_props(ev)));
        Ok(e)
    }
}

} // verus!
