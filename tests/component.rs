use amplitude::component::{AmplitudeComponent, HttpMethod};
use amplitude::error::MappingError;
use amplitude::inbound::{
    Campaign, Client, Consent, Context, Data, Event, EventType, PageData, Session, TrackData,
    UserData,
};
use amplitude::mapping::{page_payload, track_payload, user_payload};
use amplitude::value::PropValue;
use uuid::Uuid;

fn sample_user_data(edgee_id: String) -> UserData {
    UserData {
        user_id: "123".to_string(),
        anonymous_id: "456".to_string(),
        edgee_id,
        properties: vec![
            ("prop1".to_string(), "true".to_string()),
            ("prop2".to_string(), "false".to_string()),
            ("prop3".to_string(), "10".to_string()),
            ("prop4".to_string(), "ok".to_string()),
        ],
    }
}

fn sample_user_data_invalid_without_ids() -> UserData {
    UserData {
        user_id: "".to_string(),
        anonymous_id: "".to_string(),
        edgee_id: "abc".to_string(),
        properties: vec![
            ("prop1".to_string(), "value1".to_string()),
            ("prop2".to_string(), "10".to_string()),
        ],
    }
}

fn sample_context(edgee_id: String, locale: String, session_start: bool) -> Context {
    Context {
        page: sample_page_data(),
        user: sample_user_data(edgee_id),
        client: Client {
            city: "Paris".to_string(),
            ip: "192.168.0.1".to_string(),
            locale,
            timezone: "CET".to_string(),
            user_agent: "Chrome".to_string(),
            user_agent_architecture: "fuck knows".to_string(),
            user_agent_bitness: "64".to_string(),
            user_agent_full_version_list: "abc".to_string(),
            user_agent_version_list: "abc".to_string(),
            user_agent_mobile: "mobile".to_string(),
            user_agent_model: "don't know".to_string(),
            os_name: "MacOS".to_string(),
            os_version: "latest".to_string(),
            screen_width: 1024,
            screen_height: 768,
            continent: "Europe".to_string(),
            country_code: "FR".to_string(),
            country_name: "France".to_string(),
            region: "West Europe".to_string(),
        },
        campaign: Campaign {
            name: "random".to_string(),
            source: "random".to_string(),
            medium: "random".to_string(),
            term: "random".to_string(),
            content: "random".to_string(),
            creative_format: "random".to_string(),
            marketing_tactic: "random".to_string(),
        },
        session: Session {
            session_id: "123".to_string(),
            previous_session_id: "345".to_string(),
            session_count: 2,
            session_start,
            first_seen: 123,
            last_seen: 123,
        },
    }
}

fn sample_page_data() -> PageData {
    PageData {
        name: "page name".to_string(),
        category: "category".to_string(),
        keywords: vec!["value1".to_string(), "value2".into()],
        title: "page title".to_string(),
        url: "https://example.com/full-url?test=1".to_string(),
        path: "/full-path".to_string(),
        search: "?test=1".to_string(),
        referrer: "https://example.com/another-page".to_string(),
        properties: vec![
            ("prop1".to_string(), "value1".to_string()),
            ("prop2".to_string(), "10".to_string()),
            ("currency".to_string(), "USD".to_string()),
        ],
    }
}

fn sample_page_event(
    consent: Option<Consent>,
    edgee_id: String,
    locale: String,
    session_start: bool,
) -> Event {
    Event {
        uuid: Uuid::new_v4().to_string(),
        timestamp: 123,
        timestamp_millis: 123,
        timestamp_micros: 123,
        event_type: EventType::Page,
        data: Data::Page(sample_page_data()),
        context: sample_context(edgee_id, locale, session_start),
        consent,
    }
}

fn sample_track_data(event_name: String) -> TrackData {
    TrackData {
        name: event_name,
        properties: vec![
            ("prop1".to_string(), "value1".to_string()),
            ("prop2".to_string(), "10".to_string()),
            ("currency".to_string(), "USD".to_string()),
        ],
    }
}

fn sample_track_event(
    event_name: String,
    consent: Option<Consent>,
    edgee_id: String,
    locale: String,
    session_start: bool,
) -> Event {
    Event {
        uuid: Uuid::new_v4().to_string(),
        timestamp: 123,
        timestamp_millis: 123,
        timestamp_micros: 123,
        event_type: EventType::Track,
        data: Data::Track(sample_track_data(event_name)),
        context: sample_context(edgee_id, locale, session_start),
        consent,
    }
}

fn sample_user_event(
    consent: Option<Consent>,
    edgee_id: String,
    locale: String,
    session_start: bool,
) -> Event {
    Event {
        uuid: Uuid::new_v4().to_string(),
        timestamp: 123,
        timestamp_millis: 123,
        timestamp_micros: 123,
        event_type: EventType::User,
        data: Data::User(sample_user_data(edgee_id.clone())),
        context: sample_context(edgee_id, locale, session_start),
        consent,
    }
}

fn sample_user_event_without_ids(
    consent: Option<Consent>,
    edgee_id: String,
    locale: String,
    session_start: bool,
) -> Event {
    Event {
        uuid: Uuid::new_v4().to_string(),
        timestamp: 123,
        timestamp_millis: 123,
        timestamp_micros: 123,
        event_type: EventType::User,
        data: Data::User(sample_user_data_invalid_without_ids()),
        context: sample_context(edgee_id, locale, session_start),
        consent,
    }
}

fn sample_credentials() -> Vec<(String, String)> {
    vec![("amplitude_api_key".to_string(), "abc".to_string())]
}

#[test]
fn page_with_consent() {
    let event = sample_page_event(
        Some(Consent::Granted),
        "abc".to_string(),
        "fr".to_string(),
        true,
    );
    let credentials = sample_credentials();
    let result = AmplitudeComponent::page(event, credentials);

    assert_eq!(result.is_err(), false);
    let edgee_request = result.unwrap();
    assert_eq!(edgee_request.method, HttpMethod::Post);
    assert_eq!(edgee_request.body.len() > 0, true);
    assert_eq!(
        edgee_request
            .url
            .starts_with("https://api2.amplitude.com/2/httpapi"),
        true
    );
}

#[test]
fn page_without_consent() {
    let event = sample_page_event(None, "abc".to_string(), "fr".to_string(), true);
    let credentials = sample_credentials();
    let result = AmplitudeComponent::page(event, credentials);

    assert_eq!(result.is_err(), false);
    let edgee_request = result.unwrap();
    assert_eq!(edgee_request.method, HttpMethod::Post);
    assert_eq!(edgee_request.body.len() > 0, true);
}

#[test]
fn page_with_edgee_id_uuid() {
    let event = sample_page_event(None, Uuid::new_v4().to_string(), "fr".to_string(), true);
    let credentials = sample_credentials();
    let result = AmplitudeComponent::page(event, credentials);

    assert_eq!(result.is_err(), false);
    let edgee_request = result.unwrap();
    assert_eq!(edgee_request.method, HttpMethod::Post);
    assert_eq!(edgee_request.body.len() > 0, true);
}

#[test]
fn page_with_empty_locale() {
    let event = sample_page_event(None, Uuid::new_v4().to_string(), "".to_string(), true);

    let credentials = sample_credentials();
    let result = AmplitudeComponent::page(event, credentials);

    assert_eq!(result.is_err(), false);
    let edgee_request = result.unwrap();
    assert_eq!(edgee_request.method, HttpMethod::Post);
    assert_eq!(edgee_request.body.len() > 0, true);
}

#[test]
fn page_not_session_start() {
    let event = sample_page_event(None, Uuid::new_v4().to_string(), "".to_string(), false);
    let credentials = sample_credentials();
    let result = AmplitudeComponent::page(event, credentials);

    assert_eq!(result.is_err(), false);
    let edgee_request = result.unwrap();
    assert_eq!(edgee_request.method, HttpMethod::Post);
    assert_eq!(edgee_request.body.len() > 0, true);
}

#[test]
fn page_without_measurement_id_fails() {
    let event = sample_page_event(None, "abc".to_string(), "fr".to_string(), true);
    let credentials: Vec<(String, String)> = vec![];
    let result = AmplitudeComponent::page(event, credentials);
    assert_eq!(result.is_err(), true);
}

#[test]
fn track_with_consent() {
    let event = sample_track_event(
        "event-name".to_string(),
        Some(Consent::Granted),
        "abc".to_string(),
        "fr".to_string(),
        true,
    );
    let credentials = sample_credentials();
    let result = AmplitudeComponent::track(event, credentials);
    assert_eq!(result.is_err(), false);
    let edgee_request = result.unwrap();
    assert_eq!(edgee_request.method, HttpMethod::Post);
    assert_eq!(edgee_request.body.len() > 0, true);
}

#[test]
fn track_with_empty_name_fails() {
    let event = sample_track_event(
        "".to_string(),
        Some(Consent::Granted),
        "abc".to_string(),
        "fr".to_string(),
        true,
    );
    let credentials = sample_credentials();
    let result = AmplitudeComponent::track(event, credentials);
    assert_eq!(result.is_err(), true);
}

#[test]
fn user_event() {
    let event = sample_user_event(
        Some(Consent::Granted),
        "abc".to_string(),
        "fr".to_string(),
        true,
    );
    let credentials = sample_credentials();
    let result = AmplitudeComponent::user(event, credentials);

    assert_eq!(result.is_err(), false);
}

#[test]
fn user_event_without_ids_fails() {
    let event = sample_user_event_without_ids(
        Some(Consent::Granted),
        "abc".to_string(),
        "fr".to_string(),
        true,
    );
    let credentials = sample_credentials();
    let result = AmplitudeComponent::user(event, credentials);

    assert_eq!(result.is_err(), true);
    assert_eq!(
        result.err().unwrap().message().contains("is not set"),
        true
    );
}

#[test]
fn track_event_without_user_context_properties_and_empty_user_id() {
    let mut event = sample_track_event(
        "event-name".to_string(),
        Some(Consent::Granted),
        "abc".to_string(),
        "fr".to_string(),
        true,
    );
    event.context.user.properties = vec![];
    event.context.user.user_id = "".to_string();
    let credentials = sample_credentials();
    let result = AmplitudeComponent::track(event, credentials);
    assert_eq!(result.is_err(), false);
}

// ---- session boundaries and ids ----

#[test]
fn page_session_transition_emits_three_events_in_order() {
    let event = sample_page_event(None, "abc".to_string(), "fr".to_string(), true);
    let payload = page_payload(&event, sample_credentials()).unwrap();
    assert_eq!(payload.events.len(), 3);
    assert_eq!(payload.events[0].event_type, "session_end");
    assert_eq!(payload.events[0].time, 121);
    assert_eq!(payload.events[0].session_id, Some(345000));
    assert_eq!(payload.events[1].event_type, "session_start");
    assert_eq!(payload.events[1].time, 122);
    assert_eq!(payload.events[1].session_id, Some(123000));
    assert_eq!(payload.events[2].event_type, "[Amplitude] Page Viewed");
    assert_eq!(payload.events[2].time, 123);
    assert_eq!(payload.events[2].session_id, Some(123000));
}

#[test]
fn page_without_session_start_emits_one_event() {
    let event = sample_page_event(None, "abc".to_string(), "fr".to_string(), false);
    let payload = page_payload(&event, sample_credentials()).unwrap();
    assert_eq!(payload.events.len(), 1);
    assert_eq!(payload.events[0].event_type, "[Amplitude] Page Viewed");
    assert_eq!(payload.events[0].time, 123);
}

#[test]
fn page_first_session_emits_start_and_view() {
    let mut event = sample_page_event(None, "abc".to_string(), "fr".to_string(), true);
    event.context.session.previous_session_id = "".to_string();
    let payload = page_payload(&event, sample_credentials()).unwrap();
    assert_eq!(payload.events.len(), 2);
    assert_eq!(payload.events[0].event_type, "session_start");
    assert_eq!(payload.events[1].event_type, "[Amplitude] Page Viewed");
}

#[test]
fn page_same_previous_session_emits_no_end() {
    let mut event = sample_page_event(None, "abc".to_string(), "fr".to_string(), true);
    event.context.session.previous_session_id = "123".to_string();
    let payload = page_payload(&event, sample_credentials()).unwrap();
    assert_eq!(payload.events.len(), 2);
    assert_eq!(payload.events[0].event_type, "session_start");
}

#[test]
fn zero_session_id_is_left_out() {
    let mut event = sample_track_event(
        "event-name".to_string(),
        None,
        "abc".to_string(),
        "fr".to_string(),
        false,
    );
    event.context.session.session_id = "0".to_string();
    let payload = track_payload(&event, sample_credentials()).unwrap();
    assert_eq!(payload.events[0].session_id, None);
    let mut event = sample_track_event(
        "event-name".to_string(),
        None,
        "abc".to_string(),
        "fr".to_string(),
        false,
    );
    event.context.session.session_id = "0".to_string();
    let request = AmplitudeComponent::track(event, sample_credentials()).unwrap();
    assert!(!request.body.contains("session_id"));
}

#[test]
fn invalid_session_id_fails() {
    let mut event = sample_page_event(None, "abc".to_string(), "fr".to_string(), false);
    event.context.session.session_id = "12a".to_string();
    assert_eq!(
        page_payload(&event, sample_credentials()).err(),
        Some(MappingError::InvalidSessionId)
    );
}

#[test]
fn invalid_previous_session_id_fails() {
    let mut event = sample_page_event(None, "abc".to_string(), "fr".to_string(), true);
    event.context.session.previous_session_id = "x".to_string();
    assert_eq!(
        page_payload(&event, sample_credentials()).err(),
        Some(MappingError::InvalidSessionId)
    );
}

// ---- error variants ----

#[test]
fn wrong_variant_for_each_operation_fails() {
    let track = sample_track_event("n".to_string(), None, "abc".to_string(), "fr".to_string(), false);
    assert_eq!(page_payload(&track, sample_credentials()).err(), Some(MappingError::MissingPageData));
    let page = sample_page_event(None, "abc".to_string(), "fr".to_string(), false);
    assert_eq!(track_payload(&page, sample_credentials()).err(), Some(MappingError::MissingTrackData));
    assert_eq!(user_payload(&page, sample_credentials()).err(), Some(MappingError::MissingUserData));
}

#[test]
fn missing_api_key_fails() {
    let event = sample_track_event("n".to_string(), None, "abc".to_string(), "fr".to_string(), false);
    let settings = vec![("amplitude_endpoint".to_string(), "https://x.test".to_string())];
    assert_eq!(track_payload(&event, settings).err(), Some(MappingError::MissingApiKey));
}

#[test]
fn empty_track_name_fails_before_credentials() {
    let event = sample_track_event("".to_string(), None, "abc".to_string(), "fr".to_string(), false);
    assert_eq!(track_payload(&event, vec![]).err(), Some(MappingError::MissingEventName));
}

#[test]
fn identify_without_ids_fails_whatever_else() {
    let event = sample_user_event_without_ids(None, "abc".to_string(), "fr".to_string(), true);
    assert_eq!(user_payload(&event, sample_credentials()).err(), Some(MappingError::MissingUserIds));
}

#[test]
fn invalid_referrer_fails_every_operation() {
    let mut page = sample_page_event(None, "abc".to_string(), "fr".to_string(), true);
    page.context.page.referrer = "not a url".to_string();
    assert_eq!(page_payload(&page, sample_credentials()).err(), Some(MappingError::InvalidReferrer));
    let mut track = sample_track_event("n".to_string(), None, "abc".to_string(), "fr".to_string(), true);
    track.context.page.referrer = "not a url".to_string();
    assert_eq!(track_payload(&track, sample_credentials()).err(), Some(MappingError::InvalidReferrer));
    let mut user = sample_user_event(None, "abc".to_string(), "fr".to_string(), true);
    user.context.page.referrer = "not a url".to_string();
    assert_eq!(user_payload(&user, sample_credentials()).err(), Some(MappingError::InvalidReferrer));
}

#[test]
fn invalid_page_url_fails() {
    let mut event = sample_page_event(None, "abc".to_string(), "fr".to_string(), false);
    if let Data::Page(ref mut d) = event.data {
        d.url = "no scheme here".to_string();
    }
    assert_eq!(page_payload(&event, sample_credentials()).err(), Some(MappingError::InvalidPageUrl));
}

#[test]
fn empty_page_url_has_no_domain() {
    let mut event = sample_page_event(None, "abc".to_string(), "fr".to_string(), false);
    if let Data::Page(ref mut d) = event.data {
        d.url = "".to_string();
    }
    let payload = page_payload(&event, sample_credentials()).unwrap();
    let props = payload.events[0].event_properties.as_ref().unwrap();
    assert!(props.entries().iter().all(|(k, _)| k != "[Amplitude] Page Domain"));
}

// ---- fields and properties ----

fn find<'a>(entries: &'a [(String, PropValue)], key: &str) -> Option<&'a PropValue> {
    entries.iter().find(|(k, _)| k == key).map(|(_, v)| v)
}

#[test]
fn page_properties_are_mapped() {
    let event = sample_page_event(None, "abc".to_string(), "fr".to_string(), false);
    let payload = page_payload(&event, sample_credentials()).unwrap();
    let props = payload.events[0].event_properties.as_ref().unwrap();
    let entries = props.entries();
    assert_eq!(
        find(entries, "[Amplitude] Page Location"),
        Some(&PropValue::Text("https://example.com/full-url?test=1?test=1".to_string()))
    );
    assert_eq!(
        find(entries, "[Amplitude] Page Domain"),
        Some(&PropValue::Text("example.com".to_string()))
    );
    assert_eq!(
        find(entries, "keywords"),
        Some(&PropValue::TextList(vec!["value1".to_string(), "value2".to_string()]))
    );
    assert_eq!(find(entries, "prop2"), Some(&PropValue::Number("10".to_string())));
    assert_eq!(find(entries, "currency"), Some(&PropValue::Text("USD".to_string())));
    assert_eq!(find(entries, "utm_campaign"), Some(&PropValue::Text("random".to_string())));
    assert_eq!(entries[0].0, "[Amplitude] Page Location");
}

#[test]
fn base_fields_are_copied_when_set() {
    let mut event = sample_track_event("n".to_string(), None, "abc".to_string(), "".to_string(), false);
    event.context.client.ip = "".to_string();
    let payload = track_payload(&event, sample_credentials()).unwrap();
    let e = &payload.events[0];
    assert_eq!(e.user_id, Some("123".to_string()));
    assert_eq!(e.device_id, Some("abc".to_string()));
    assert_eq!(e.language, None);
    assert_eq!(e.ip, None);
    assert_eq!(e.city, Some("Paris".to_string()));
    assert_eq!(e.country, Some("FR".to_string()));
    assert_eq!(e.device_model, Some("don't know".to_string()));
    assert_eq!(e.platform, Some("Web".to_string()));
    assert_eq!(e.library, Some("Edgee".to_string()));
}

#[test]
fn user_properties_hold_attribution() {
    let event = sample_track_event("n".to_string(), None, "abc".to_string(), "fr".to_string(), false);
    let payload = track_payload(&event, sample_credentials()).unwrap();
    let up = payload.events[0].user_properties.as_ref().unwrap();
    let entries = up.entries();
    assert_eq!(find(entries, "anonymous_id"), Some(&PropValue::Text("456".to_string())));
    match find(entries, "$set") {
        Some(PropValue::Members(ms)) => {
            assert_eq!(ms[0], ("referrer".to_string(), "https://example.com/another-page".to_string()));
            assert_eq!(ms[1], ("referring_domain".to_string(), "example.com".to_string()));
            assert_eq!(ms[2], ("utm_campaign".to_string(), "random".to_string()));
            assert_eq!(ms.len(), 7);
        }
        other => panic!("unexpected $set: {:?}", other),
    }
    match find(entries, "$setOnce") {
        Some(PropValue::Members(ms)) => {
            assert_eq!(ms[0].0, "initial_referrer");
            assert_eq!(ms[1], ("initial_referring_domain".to_string(), "example.com".to_string()));
            assert_eq!(ms[6].0, "initial_utm_content");
        }
        other => panic!("unexpected $setOnce: {:?}", other),
    }
    assert_eq!(find(entries, "prop1"), Some(&PropValue::Bool(true)));
    assert_eq!(find(entries, "prop2"), Some(&PropValue::Bool(false)));
    assert_eq!(find(entries, "prop3"), Some(&PropValue::Number("10".to_string())));
}

#[test]
fn track_without_properties_has_no_event_properties() {
    let mut event = sample_track_event("n".to_string(), None, "abc".to_string(), "fr".to_string(), false);
    if let Data::Track(ref mut d) = event.data {
        d.properties = vec![];
    }
    let payload = track_payload(&event, sample_credentials()).unwrap();
    assert!(payload.events[0].event_properties.is_none());
    let mut event = sample_track_event("n".to_string(), None, "abc".to_string(), "fr".to_string(), false);
    if let Data::Track(ref mut d) = event.data {
        d.properties = vec![];
    }
    let request = AmplitudeComponent::track(event, sample_credentials()).unwrap();
    assert!(!request.body.contains("event_properties"));
}

#[test]
fn track_properties_are_coerced() {
    let event = sample_track_event("n".to_string(), None, "abc".to_string(), "fr".to_string(), false);
    let payload = track_payload(&event, sample_credentials()).unwrap();
    let props = payload.events[0].event_properties.as_ref().unwrap();
    assert_eq!(find(props.entries(), "prop2"), Some(&PropValue::Number("10".to_string())));
    assert_eq!(find(props.entries(), "prop1"), Some(&PropValue::Text("value1".to_string())));
}

#[test]
fn identify_merges_its_properties() {
    let mut event = sample_user_event(None, "abc".to_string(), "fr".to_string(), false);
    event.context.user.user_id = "".to_string();
    if let Data::User(ref mut d) = event.data {
        d.user_id = "u-9".to_string();
        d.anonymous_id = "anon-2".to_string();
        d.properties = vec![("plan".to_string(), "3.5".to_string())];
    }
    let payload = user_payload(&event, sample_credentials()).unwrap();
    let e = &payload.events[0];
    assert_eq!(e.event_type, "identify");
    assert_eq!(e.user_id, Some("u-9".to_string()));
    let entries = e.user_properties.as_ref().unwrap().entries();
    assert_eq!(find(entries, "anonymous_id"), Some(&PropValue::Text("anon-2".to_string())));
    assert_eq!(entries[0].0, "anonymous_id");
    assert!(find(entries, "$set").is_some());
    assert!(find(entries, "$setOnce").is_some());
    assert_eq!(find(entries, "prop4"), Some(&PropValue::Text("ok".to_string())));
    assert_eq!(find(entries, "plan"), Some(&PropValue::Number("3.5".to_string())));
}

#[test]
fn custom_endpoint_and_request_shape() {
    let event = sample_track_event("n".to_string(), None, "abc".to_string(), "fr".to_string(), false);
    let settings = vec![
        ("amplitude_api_key".to_string(), "old".to_string()),
        ("amplitude_endpoint".to_string(), "https://eu.example.test/2/httpapi".to_string()),
        ("amplitude_api_key".to_string(), "new".to_string()),
    ];
    let request = AmplitudeComponent::track(event, settings).unwrap();
    assert_eq!(request.url, "https://eu.example.test/2/httpapi");
    assert_eq!(
        request.headers,
        vec![("content-type".to_string(), "application/json".to_string())]
    );
    assert!(request.body.starts_with("{\"api_key\":\"new\",\"events\":[{"));
    assert!(request.body.ends_with("}],\"options\":{\"min_id_length\":1}}"));
}

#[test]
fn exact_body_of_a_bare_track_event() {
    let event = Event {
        uuid: "u".to_string(),
        timestamp: -5,
        timestamp_millis: 0,
        timestamp_micros: 0,
        event_type: EventType::Track,
        data: Data::Track(TrackData {
            name: "Buy \"now\"".to_string(),
            properties: vec![("n".to_string(), "1e3".to_string())],
        }),
        context: Context {
            page: PageData {
                name: "".to_string(),
                category: "".to_string(),
                keywords: vec![],
                title: "".to_string(),
                url: "".to_string(),
                path: "".to_string(),
                search: "".to_string(),
                referrer: "".to_string(),
                properties: vec![],
            },
            user: UserData {
                user_id: "".to_string(),
                anonymous_id: "".to_string(),
                edgee_id: "".to_string(),
                properties: vec![],
            },
            client: Client {
                city: "".to_string(),
                ip: "".to_string(),
                locale: "".to_string(),
                timezone: "".to_string(),
                user_agent: "".to_string(),
                user_agent_architecture: "".to_string(),
                user_agent_bitness: "".to_string(),
                user_agent_full_version_list: "".to_string(),
                user_agent_version_list: "".to_string(),
                user_agent_mobile: "".to_string(),
                user_agent_model: "".to_string(),
                os_name: "".to_string(),
                os_version: "".to_string(),
                screen_width: 0,
                screen_height: 0,
                continent: "".to_string(),
                country_code: "".to_string(),
                country_name: "".to_string(),
                region: "".to_string(),
            },
            campaign: Campaign {
                name: "".to_string(),
                source: "".to_string(),
                medium: "".to_string(),
                term: "".to_string(),
                content: "".to_string(),
                creative_format: "".to_string(),
                marketing_tactic: "".to_string(),
            },
            session: Session {
                session_id: "7".to_string(),
                previous_session_id: "".to_string(),
                session_count: 1,
                session_start: false,
                first_seen: 0,
                last_seen: 0,
            },
        },
        consent: None,
    };
    let request = AmplitudeComponent::track(event, vec![("amplitude_api_key".to_string(), "k".to_string())]).unwrap();
    assert_eq!(
        request.body,
        "{\"api_key\":\"k\",\"events\":[{\"device_id\":\"\",\"event_type\":\"Buy \\\"now\\\"\",\
\"event_properties\":{\"n\":1e3},\"user_properties\":{\"$set\":{},\"$setOnce\":{}},\"time\":-5,\
\"platform\":\"Web\",\"session_id\":7000,\"library\":\"Edgee\"}],\"options\":{\"min_id_length\":1}}"
    );
}
