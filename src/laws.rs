//! Properties of the mapping that hold of every input.

use vstd::prelude::*;
use crate::error::MappingError;
use crate::payload::PayloadView;
use crate::event::{
    AmplitudeEventView, attribution_members, base_event, base_user_props, referrer_invalid,
};
use crate::inbound::{Data, Event, PageData};
use crate::mapping::{
    IDENTIFY, PAGE_VIEWED, SESSION_END, SESSION_START, ends_session, page_properties, page_spec, track_spec,
    user_spec, identify_properties, with_campaign, insert_text_when_set,
};
use crate::json::{decimal_text, digit_text};
use crate::session::{
    SESSION_ID_SCALE, all_digits, digits_value, is_digit, session_id_spec, unsigned_digits,
};
use crate::value::{
    JsonVal, Props, coerce_spec, keys_unique, lemma_insert_coerced_len, lemma_insert_len, props_insert,
    props_insert_coerced, scalar_text,
};

verus! {

/// An optional text field that is present holds a non-empty text.
pub open spec fn set_or_absent(v: Option<Seq<char>>) -> bool {
    v matches Some(s) ==> s.len() > 0
}

/// An optional property object that is present has members, each key once.
pub open spec fn members_or_absent(v: Option<Props>) -> bool {
    v matches Some(m) ==> m.len() > 0 && keys_unique(m)
}

/// Each optional field of `e` is absent or holds data: no empty text, no
/// zero session id, no empty property object, no key twice in one. The device id is exempt: it is
/// copied as it comes.
pub open spec fn holds_data(e: AmplitudeEventView) -> bool {
    &&& set_or_absent(e.user_id)
    &&& members_or_absent(e.event_properties)
    &&& members_or_absent(e.user_properties)
    &&& set_or_absent(e.platform)
    &&& set_or_absent(e.os_name)
    &&& set_or_absent(e.os_version)
    &&& set_or_absent(e.device_model)
    &&& set_or_absent(e.country)
    &&& set_or_absent(e.region)
    &&& set_or_absent(e.city)
    &&& set_or_absent(e.language)
    &&& set_or_absent(e.ip)
    &&& e.session_id != Some(0u64)
    &&& set_or_absent(e.user_agent)
    &&& set_or_absent(e.library)
}

/// Every event of a successful batch holds data in each field it carries.
pub open spec fn batch_holds_data(r: Result<PayloadView, MappingError>) -> bool {
    r matches Ok(p) ==> forall|i: int| 0 <= i < p.events.len() ==> holds_data(#[trigger] p.events[i])
}

proof fn lemma_base_holds_data(label: Seq<char>, ev: &Event, session_id: u64)
    ensures
        holds_data(base_event(label, ev, session_id)),
{
    reveal_strlit("Web");
    reveal_strlit("Edgee");
    let anon = ev.context.user.anonymous_id@;
    let m0 = if anon.len() > 0 {
        props_insert(Seq::empty(), "anonymous_id"@, JsonVal::Text(anon))
    } else {
        Seq::empty()
    };
    let m1 = props_insert(m0, "$set"@, JsonVal::Members(attribution_members(ev, false)));
    let m2 = props_insert(m1, "$setOnce"@, JsonVal::Members(attribution_members(ev, true)));
    lemma_insert_len(m1, "$setOnce"@, JsonVal::Members(attribution_members(ev, true)));
    lemma_insert_coerced_len(m2, ev.context.user.properties.deep_view());
    lemma_insert_len(m0, "$set"@, JsonVal::Members(attribution_members(ev, false)));
    if anon.len() > 0 {
        lemma_insert_len(Seq::empty(), "anonymous_id"@, JsonVal::Text(anon));
    }
    assert(keys_unique(Seq::<(Seq<char>, JsonVal)>::empty()));
    assert(base_user_props(ev).len() > 0);
}

/// Fields present and non-empty, or absent: every event that the page, track
/// and identify operations emit holds data in each optional field it carries
/// (the wire text then writes exactly those fields, see `event_members`).
pub proof fn lemma_fields_present_or_absent(ev: &Event, settings: Seq<(Seq<char>, Seq<char>)>)
    ensures
        batch_holds_data(page_spec(ev, settings)),
        batch_holds_data(track_spec(ev, settings)),
        batch_holds_data(user_spec(ev, settings)),
{
    let sid = session_id_spec(ev.context.session.session_id@).unwrap();
    let prev = session_id_spec(ev.context.session.previous_session_id@).unwrap();
    lemma_base_holds_data(SESSION_END@, ev, prev);
    lemma_base_holds_data(SESSION_START@, ev, sid);
    lemma_base_holds_data(PAGE_VIEWED@, ev, sid);
    lemma_base_holds_data(IDENTIFY@, ev, sid);
    match ev.data {
        Data::Page(d) => {
            lemma_page_properties_len(ev, d);
        },
        Data::Track(d) => {
            lemma_base_holds_data(d.name@, ev, sid);
            assert(keys_unique(Seq::<(Seq<char>, JsonVal)>::empty()));
            lemma_insert_coerced_len(Seq::empty(), d.properties.deep_view());
        },
        Data::User(d) => {
            let base = base_user_props(ev);
            let m = if d.anonymous_id@.len() > 0 {
                props_insert(base, "anonymous_id"@, JsonVal::Text(d.anonymous_id@))
            } else {
                base
            };
            lemma_insert_len(base, "anonymous_id"@, JsonVal::Text(d.anonymous_id@));
            lemma_insert_coerced_len(m, d.properties.deep_view());
            assert(identify_properties(base, d).len() > 0);
            assert(keys_unique(identify_properties(base, d)));
        },
    }
}

proof fn lemma_text_when_set_len(m: Props, k: Seq<char>, v: Seq<char>)
    ensures
        insert_text_when_set(m, k, v).len() >= m.len(),
        keys_unique(m) ==> keys_unique(insert_text_when_set(m, k, v)),
{
    lemma_insert_len(m, k, JsonVal::Text(v));
}

proof fn lemma_page_properties_len(ev: &Event, d: PageData)
    ensures
        page_properties(ev, d).len() > 0,
        keys_unique(page_properties(ev, d)),
{
    assert(keys_unique(Seq::<(Seq<char>, JsonVal)>::empty()));
    let m1 = props_insert(Seq::empty(), "[Amplitude] Page Location"@, JsonVal::Text(d.url@ + d.search@));
    lemma_insert_len(Seq::empty(), "[Amplitude] Page Location"@, JsonVal::Text(d.url@ + d.search@));
    let m2 = props_insert(m1, "[Amplitude] Page Path"@, JsonVal::Text(d.path@));
    lemma_insert_len(m1, "[Amplitude] Page Path"@, JsonVal::Text(d.path@));
    let m3 = props_insert(m2, "[Amplitude] Page Title"@, JsonVal::Text(d.title@));
    lemma_insert_len(m2, "[Amplitude] Page Title"@, JsonVal::Text(d.title@));
    let m4 = props_insert(m3, "[Amplitude] Page URL"@, JsonVal::Text(d.url@));
    lemma_insert_len(m3, "[Amplitude] Page URL"@, JsonVal::Text(d.url@));
    let m5 = if d.url@.len() > 0 {
        match crate::links::url_domain(d.url@) {
            Some(domain) => props_insert(m4, "[Amplitude] Page Domain"@, JsonVal::Text(domain)),
            None => m4,
        }
    } else {
        m4
    };
    if d.url@.len() > 0 {
        match crate::links::url_domain(d.url@) {
            Some(domain) => lemma_insert_len(m4, "[Amplitude] Page Domain"@, JsonVal::Text(domain)),
            None => {},
        }
    }
    let m6 = insert_text_when_set(m5, "name"@, d.name@);
    lemma_text_when_set_len(m5, "name"@, d.name@);
    let m7 = insert_text_when_set(m6, "category"@, d.category@);
    lemma_text_when_set_len(m6, "category"@, d.category@);
    let m8 = if d.keywords@.len() > 0 {
        props_insert(m7, "keywords"@, JsonVal::TextList(d.keywords.deep_view()))
    } else {
        m7
    };
    lemma_insert_len(m7, "keywords"@, JsonVal::TextList(d.keywords.deep_view()));
    let m9 = props_insert_coerced(m8, d.properties.deep_view());
    lemma_insert_coerced_len(m8, d.properties.deep_view());
    let c = ev.context.campaign;
    let n1 = insert_text_when_set(m9, "utm_campaign"@, c.name@);
    lemma_text_when_set_len(m9, "utm_campaign"@, c.name@);
    let n2 = insert_text_when_set(n1, "utm_source"@, c.source@);
    lemma_text_when_set_len(n1, "utm_source"@, c.source@);
    let n3 = insert_text_when_set(n2, "utm_medium"@, c.medium@);
    lemma_text_when_set_len(n2, "utm_medium"@, c.medium@);
    let n4 = insert_text_when_set(n3, "utm_term"@, c.term@);
    lemma_text_when_set_len(n3, "utm_term"@, c.term@);
    lemma_text_when_set_len(n4, "utm_content"@, c.content@);
    assert(with_campaign(m9, ev).len() > 0);
}

/// A resolved session id of 0 is left out of the event; any other is kept.
pub proof fn lemma_zero_session_id_omitted(label: Seq<char>, ev: &Event, session_id: u64)
    ensures
        base_event(label, ev, session_id).session_id is None <==> session_id == 0,
        session_id != 0 ==> base_event(label, ev, session_id).session_id == Some(session_id),
{
}

/// Session boundaries: a page view that opens a session following another
/// yields `session_end` (previous id, `t - 2`), `session_start` (current id,
/// `t - 1`) and the page view (current id, `t`), in that order; one that opens
/// a first session yields the last two; one that opens none yields the page
/// view alone.
pub proof fn lemma_session_boundaries(ev: &Event, settings: Seq<(Seq<char>, Seq<char>)>)
    requires
        page_spec(ev, settings) is Ok,
        ev.context.session.session_start ==> ev.timestamp >= i64::MIN + 2,
    ensures
        ({
            let events = page_spec(ev, settings).unwrap().events;
            let s = ev.context.session;
            let t = ev.timestamp as int;
            let sid = session_id_spec(s.session_id@).unwrap();
            let page = events.last();
            &&& events.len() == if ends_session(ev) { 3int } else if s.session_start { 2int } else { 1int }
            &&& page.event_type == PAGE_VIEWED@ && page.time == t
            &&& page.session_id == base_event(PAGE_VIEWED@, ev, sid).session_id
            &&& ends_session(ev) ==> {
                &&& events[0].event_type == SESSION_END@
                &&& events[0].time == t - 2
                &&& events[0].session_id == base_event(
                    SESSION_END@,
                    ev,
                    session_id_spec(s.previous_session_id@).unwrap(),
                ).session_id
            }
            &&& s.session_start ==> {
                let start = events[events.len() - 2];
                &&& start.event_type == SESSION_START@
                &&& start.time == t - 1
                &&& start.session_id == base_event(SESSION_START@, ev, sid).session_id
            }
        }),
{
}

/// A track event with an empty name always fails; one that succeeds without
/// custom properties carries no event properties.
pub proof fn lemma_track_name_and_properties(ev: &Event, settings: Seq<(Seq<char>, Seq<char>)>)
    ensures
        ev.data matches Data::Track(d) && d.name@.len() == 0 ==> track_spec(ev, settings) == Err::<
            PayloadView,
            MappingError,
        >(MappingError::MissingEventName),
        ev.data matches Data::Track(d) && d.properties@.len() == 0 && track_spec(ev, settings) is Ok
            ==> track_spec(ev, settings).unwrap().events[0].event_properties is None,
{
}

/// An identify call with neither a user id nor an anonymous id always fails,
/// whatever else it holds.
pub proof fn lemma_identify_needs_an_id(ev: &Event, settings: Seq<(Seq<char>, Seq<char>)>)
    ensures
        ev.data matches Data::User(d) && d.user_id@.len() == 0 && d.anonymous_id@.len() == 0
            ==> user_spec(ev, settings) == Err::<PayloadView, MappingError>(
            MappingError::MissingUserIds,
        ),
{
}

/// Coercion is idempotent: reading back the text of a coerced value gives
/// the same value.
pub proof fn lemma_coercion_idempotent(s: Seq<char>)
    ensures
        coerce_spec(scalar_text(coerce_spec(s))) == coerce_spec(s),
{
}

/// A non-empty referrer that is not a URL fails the whole call, whatever
/// else the event holds.
pub proof fn lemma_invalid_referrer_fails(ev: &Event, settings: Seq<(Seq<char>, Seq<char>)>)
    requires
        referrer_invalid(ev),
    ensures
        page_spec(ev, settings) is Err,
        track_spec(ev, settings) is Err,
        user_spec(ev, settings) is Err,
{
}

/// The one character of a digit's text.
pub open spec fn digit_char(d: nat) -> char {
    if d == 0 { '0' }
    else if d == 1 { '1' }
    else if d == 2 { '2' }
    else if d == 3 { '3' }
    else if d == 4 { '4' }
    else if d == 5 { '5' }
    else if d == 6 { '6' }
    else if d == 7 { '7' }
    else if d == 8 { '8' }
    else { '9' }
}

proof fn lemma_digit_text(d: nat)
    requires
        d < 10,
    ensures
        digit_text(d) == seq![digit_char(d)],
        is_digit(digit_char(d)),
        digit_char(d) as nat - '0' as nat == d,
{
    reveal_strlit("0");
    reveal_strlit("1");
    reveal_strlit("2");
    reveal_strlit("3");
    reveal_strlit("4");
    reveal_strlit("5");
    reveal_strlit("6");
    reveal_strlit("7");
    reveal_strlit("8");
    reveal_strlit("9");
    assert(digit_text(d) =~= seq![digit_char(d)]);
}

proof fn lemma_decimal_text_digits(n: nat)
    ensures
        decimal_text(n).len() > 0,
        all_digits(decimal_text(n)),
        digits_value(decimal_text(n)) == n,
    decreases n,
{
    if n < 10 {
        lemma_digit_text(n);
        let s = decimal_text(n);
        assert(s.drop_last() =~= Seq::<char>::empty());
        assert(digits_value(s.drop_last()) == 0);
        assert(digits_value(s) == (s.last() as nat - '0' as nat) as nat);
    } else {
        lemma_decimal_text_digits(n / 10);
        lemma_digit_text(n % 10);
        let s = decimal_text(n);
        assert(s.drop_last() =~= decimal_text(n / 10));
        assert(s.last() == digit_char(n % 10));
        assert(digits_value(s) == (n / 10) * 10 + n % 10);
        assert((n / 10) * 10 + n % 10 == n) by (nonlinear_arith);
    }
}

/// Session id scaling: the decimal text of any `n` resolves to `n * 1000`
/// when that fits in a `u64`, the same value on every call.
pub proof fn lemma_session_id_scaling(n: u64)
    requires
        n * SESSION_ID_SCALE <= u64::MAX,
    ensures
        session_id_spec(decimal_text(n as nat)) == Some((n * SESSION_ID_SCALE) as u64),
{
    lemma_decimal_text_digits(n as nat);
    let s = decimal_text(n as nat);
    assert(is_digit(s[0]));
    assert(unsigned_digits(s) == s);
}

} // verus!
