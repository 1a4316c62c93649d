//! The outbound envelope: credential, endpoint and the ordered batch of events.

use vstd::prelude::*;
use crate::error::MappingError;
use crate::event::{AmplitudeEvent, AmplitudeEventView};
use crate::inbound::Dict;

verus! {

/// Where batches go when the settings name no endpoint.
pub const DEFAULT_ENDPOINT: &'static str = "https://api2.amplitude.com/2/httpapi";

/// The settings key of the API key, which is required.
pub const API_KEY_SETTING: &'static str = "amplitude_api_key";

/// The settings key of the ingestion endpoint, which is optional.
pub const ENDPOINT_SETTING: &'static str = "amplitude_endpoint";

/// The value of `key` in `settings`: the last pair with that key wins.
pub open spec fn setting(settings: Seq<(Seq<char>, Seq<char>)>, key: Seq<char>) -> Option<Seq<char>>
    decreases settings.len(),
{
    if settings.len() == 0 {
        None
    } else if settings.last().0 == key {
        Some(settings.last().1)
    } else {
        setting(settings.drop_last(), key)
    }
}

/// The endpoint that `settings` select.
pub open spec fn endpoint_spec(settings: Seq<(Seq<char>, Seq<char>)>) -> Seq<char> {
    match setting(settings, ENDPOINT_SETTING@) {
        Some(e) => e,
        None => DEFAULT_ENDPOINT@,
    }
}

/// Looks `key` up in `settings`; the last pair with that key wins.
pub fn lookup_setting(settings: &Dict, key: &str) -> (r: Option<String>)
    ensures
        r.deep_view() == setting(settings.deep_view(), key@),
{
    let wanted = key.to_owned();
    let n = settings.len();
    let mut found: Option<String> = None;
    let mut i: usize = 0;
    while i < n
        invariant
            0 <= i <= n,
            n == settings@.len(),
            wanted@ == key@,
            found.deep_view() == setting(settings.deep_view().subrange(0, i as int), key@),
        decreases n - i,
    {
        let pair = &settings[i];
        proof {
            let d = settings.deep_view();
            assert(d.subrange(0, i + 1).drop_last() =~= d.subrange(0, i as int));
            assert(d.subrange(0, i + 1).last() == d[i as int]);
        }
        if pair.0 == wanted {
            found = Some(pair.1.clone());
        }
        i += 1;
    }
    assert(settings.deep_view().subrange(0, n as int) =~= settings.deep_view());
    found
}

/// What an `AmplitudePayload` says.
pub struct PayloadView {
    pub api_key: Seq<char>,
    pub endpoint: Seq<char>,
    pub events: Seq<AmplitudeEventView>,
}

/// The body of one request: the API key, the events in emission order (which
/// the vendor relies on for session bookkeeping), and the endpoint to post to.
#[derive(Debug)]
pub struct AmplitudePayload {
    pub api_key: String,
    pub endpoint: String,
    pub events: Vec<AmplitudeEvent>,
}

impl View for AmplitudePayload {
    type V = PayloadView;

    open spec fn view(&self) -> PayloadView {
        PayloadView {
            api_key: self.api_key@,
            endpoint: self.endpoint@,
            events: self.events@.map_values(|e: AmplitudeEvent| e@),
        }
    }
}

impl AmplitudePayload {
    /// An empty batch for the credentials in `settings`; fails when they hold
    /// no API key.
    pub fn new(settings: Dict) -> (r: Result<AmplitudePayload, MappingError>)
        ensures
            match r {
                Ok(p) => setting(settings.deep_view(), API_KEY_SETTING@) == Some(p@.api_key)
                    && p@.endpoint == endpoint_spec(settings.deep_view()) && p@.events.len() == 0,
                Err(e) => setting(settings.deep_view(), API_KEY_SETTING@) is None && e
                    == MappingError::MissingApiKey,
            },
    {
        let api_key = match lookup_setting(&settings, API_KEY_SETTING) {
            Some(k) => k,
            None => {
                return Err(MappingError::MissingApiKey);
            },
        };
        let endpoint = match lookup_setting(&settings, ENDPOINT_SETTING) {
            Some(e) => e,
            None => String::from_str(DEFAULT_ENDPOINT),
        };
        Ok(AmplitudePayload { api_key, endpoint, events: Vec::new() })
    }

    /// Appends `e` to the batch.
    pub fn push(&mut self, e: AmplitudeEvent)
        ensures
            final(self)@ == (PayloadView { events: old(self)@.events.push(e@), ..old(self)@ }),
    {
        self.events.push(e);
        assert(self@.events =~= old(self)@.events.push(e@));
    }
}

} // verus!
