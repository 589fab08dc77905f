//! What the Home Assistant client decides: the kind and state of each
//! entity, the requests it sends, and the errors it reports.

use vstd::prelude::*;

use crate::config::AppConfig;
use crate::domain::entities::opt_text;
use crate::domain::{DashboardState, Entity, EntityId, EntityKind, EntityView};
use crate::infrastructure::ha::ha_models::HaStateResponse;
use crate::shared::error::{AppError, AppErrorView};
use crate::text::{chars_of, concat, has_prefix, starts_with, string_from_range};

verus! {

/// The kind an entity id maps to: by its domain prefix, `Sensor` otherwise.
pub open spec fn kind_from_id(id: Seq<char>) -> EntityKind {
    if has_prefix(id, "light."@) {
        EntityKind::Light
    } else if has_prefix(id, "switch."@) {
        EntityKind::Switch
    } else if has_prefix(id, "climate."@) {
        EntityKind::Climate
    } else if has_prefix(id, "script."@) {
        EntityKind::Script
    } else {
        EntityKind::Sensor
    }
}

/// As `kind_from_id`, with `cover.` ids mapped to `Cover`.
pub open spec fn kind_from_id_with_cover(id: Seq<char>) -> EntityKind {
    if has_prefix(id, "light."@) {
        EntityKind::Light
    } else if has_prefix(id, "switch."@) {
        EntityKind::Switch
    } else if has_prefix(id, "climate."@) {
        EntityKind::Climate
    } else if has_prefix(id, "script."@) {
        EntityKind::Script
    } else if has_prefix(id, "cover."@) {
        EntityKind::Cover
    } else {
        EntityKind::Sensor
    }
}

/// Whether a raw Home Assistant state counts as "on" for a kind.
pub open spec fn state_is_on(kind: EntityKind, s: Seq<char>) -> bool {
    match kind {
        EntityKind::Light | EntityKind::Switch | EntityKind::Script => s == "on"@,
        EntityKind::Climate => s == "heat"@ || s == "cool"@ || s == "heat_cool"@ || s == "auto"@,
        EntityKind::Sensor => s == "on"@ || s == "open"@ || s == "home"@ || s == "above_horizon"@,
        EntityKind::Cover => s == "open"@ || s == "opening"@,
    }
}

/// The value shown for an entity: the state with its unit for measured
/// kinds, the bare state for scripts, nothing for lights and switches.
pub open spec fn value_for(kind: EntityKind, s: Seq<char>, unit: Option<Seq<char>>) -> Option<
    Seq<char>,
> {
    match kind {
        EntityKind::Light | EntityKind::Switch => None,
        EntityKind::Script => Some(s),
        _ => match unit {
            Some(u) => Some(s + " "@ + u),
            None => Some(s),
        },
    }
}

/// The entity built from one state record.
pub open spec fn entity_from_state(
    id: Seq<char>,
    state: Seq<char>,
    friendly_name: Option<Seq<char>>,
    unit: Option<Seq<char>>,
) -> EntityView {
    let kind = kind_from_id(id);
    EntityView {
        id: id,
        name: match friendly_name {
            Some(n) => n,
            None => id,
        },
        kind: kind,
        is_on: state_is_on(kind, state),
        value: value_for(kind, state, unit),
    }
}

pub open spec fn record_entity(r: HaStateResponse) -> EntityView {
    entity_from_state(
        r.entity_id@,
        r.state@,
        opt_text(r.attributes.friendly_name),
        opt_text(r.attributes.unit_of_measurement),
    )
}

pub fn entity_kind_from_id(entity_id: &str) -> (r: EntityKind)
    ensures
        r == kind_from_id(entity_id@),
{
    if starts_with(entity_id, "light.") {
        EntityKind::Light
    } else if starts_with(entity_id, "switch.") {
        EntityKind::Switch
    } else if starts_with(entity_id, "climate.") {
        EntityKind::Climate
    } else if starts_with(entity_id, "script.") {
        EntityKind::Script
    } else {
        EntityKind::Sensor
    }
}

fn text_is(s: &str, t: &str) -> (r: bool)
    ensures
        r == (s@ == t@),
{
    crate::text::str_eq(s, t)
}

pub fn is_on(kind: &EntityKind, state: &str) -> (r: bool)
    ensures
        r == state_is_on(*kind, state@),
{
    match kind {
        EntityKind::Light | EntityKind::Switch | EntityKind::Script => text_is(state, "on"),
        EntityKind::Climate => text_is(state, "heat") || text_is(state, "cool") || text_is(
            state,
            "heat_cool",
        ) || text_is(state, "auto"),
        EntityKind::Sensor => text_is(state, "on") || text_is(state, "open") || text_is(
            state,
            "home",
        ) || text_is(state, "above_horizon"),
        EntityKind::Cover => text_is(state, "open") || text_is(state, "opening"),
    }
}

pub fn build_value(kind: &EntityKind, state: &str, ha: &HaStateResponse) -> (r: Option<String>)
    ensures
        opt_text(r) == value_for(*kind, state@, opt_text(ha.attributes.unit_of_measurement)),
{
    match kind {
        EntityKind::Light | EntityKind::Switch => None,
        EntityKind::Script => Some(state.to_owned()),
        _ => match &ha.attributes.unit_of_measurement {
            Some(unit) => {
                let with_space = concat(state, " ");
                Some(concat(with_space.as_str(), unit.as_str()))
            },
            None => Some(state.to_owned()),
        },
    }
}

/// A Home Assistant service call: `POST api/services/{domain}/{service}`
/// with body `{"entity_id": entity_id}`.
#[derive(Debug)]
pub struct ServiceCall {
    pub domain: String,
    pub service: String,
    pub entity_id: String,
}

/// The text before the first `.` (all of it when there is none), as
/// `split('.').next()` gives it.
pub open spec fn domain_of(id: Seq<char>) -> Seq<char> {
    let k = first_dot_from(id, 0);
    id.subrange(0, k)
}

pub open spec fn first_dot_from(s: Seq<char>, i: int) -> int
    decreases s.len() - i,
{
    if i >= s.len() {
        s.len() as int
    } else if s[i] == '.' {
        i
    } else {
        first_dot_from(s, i + 1)
    }
}

/// Name for whether `Url::parse` rejects a text, and with which message.
pub uninterp spec fn url_parse_error(s: Seq<char>) -> Option<Seq<char>>;

#[verifier::external_type_specification]
#[verifier::external_body]
pub struct ExUrl(reqwest::Url);

/// Trusted: `url::Url::parse` (re-exported by reqwest). Claims that it
/// succeeds exactly when the named `url_parse_error` is `None`, and that a
/// failure's message is that name's text. The parsed URL is not modelled.
#[verifier::external_body]
fn parse_url(s: &str) -> (r: Result<reqwest::Url, String>)
    ensures
        match r {
            Ok(_) => url_parse_error(s@) is None,
            Err(e) => url_parse_error(s@) == Some(e@),
        },
{
    reqwest::Url::parse(s).map_err(|e| e.to_string())
}

/// Name for the text of a URL parsed from `base` whose path is then set to
/// `path`: what `Url::parse`, `Url::set_path` and `Url::as_str` give
/// together.
pub uninterp spec fn url_with_path(base: Seq<char>, path: Seq<char>) -> Seq<char>;

/// Trusted: `url::Url::parse` (re-exported by reqwest), then
/// `Url::set_path` and `Url::as_str` on the parsed URL. Claims that it
/// fails exactly when `Url::parse` does, with that error's message
/// (`url_parse_error`), and that the text it returns is the named
/// `url_with_path` of the two arguments.
#[verifier::external_body]
fn parse_with_path(base: &str, path: &str) -> (r: Result<String, String>)
    ensures
        match r {
            Ok(t) => url_parse_error(base@) is None && t@ == url_with_path(base@, path@),
            Err(e) => url_parse_error(base@) == Some(e@),
        },
{
    let mut u = reqwest::Url::parse(base).map_err(|e| e.to_string())?;
    u.set_path(path);
    Ok(u.as_str().to_owned())
}

pub open spec fn header_char_ok(c: char) -> bool {
    (c as u32 >= 32 && c as u32 != 127) || c == '\t'
}

pub open spec fn header_value_ok(s: Seq<char>) -> bool {
    forall|i: int| 0 <= i < s.len() ==> header_char_ok(#[trigger] s[i])
}

/// Trusted: `http::HeaderValue::from_str` (re-exported by reqwest), whose
/// source accepts a value exactly when every byte is at least 32 and not
/// 127, or is a tab; a multi-byte character's bytes are all above 127.
#[verifier::external_body]
fn header_value_accepts(s: &str) -> (r: bool)
    ensures
        r == header_value_ok(s@),
{
    reqwest::header::HeaderValue::from_str(s).is_ok()
}

/// The client's settings; the HTTP transport that sends what it plans is
/// held by its caller.
pub struct HaHttpClient {
    pub config: AppConfig,
}

pub open spec fn invalid_base_url(m: Seq<char>) -> AppErrorView {
    AppErrorView::Internal("Invalid HA_BASE_URL: "@ + m)
}

impl HaHttpClient {
    pub fn new(config: AppConfig) -> (r: Self)
        ensures
            r.config == config,
    {
        HaHttpClient { config }
    }

    /// The value of the `Authorization` header: `Bearer {token}`, refused
    /// when the token is missing or the header value would be invalid.
    pub fn build_client(config: &AppConfig) -> (r: Result<String, AppError>)
        ensures
            match config.ha_token {
                None => r matches Err(e) && e@ == AppErrorView::Internal(
                    "Missing Home Assistant token (HA_TOKEN)"@,
                ),
                Some(t) => if header_value_ok("Bearer "@ + t@) {
                    r matches Ok(h) && h@ == "Bearer "@ + t@
                } else {
                    r matches Err(e) && e@ == AppErrorView::Internal(
                        "Invalid Home Assistant token"@,
                    )
                },
            },
    {
        let token = match &config.ha_token {
            Some(t) => t,
            None => {
                return Err(
                    AppError::Internal("Missing Home Assistant token (HA_TOKEN)".to_owned()),
                );
            },
        };
        let value = concat("Bearer ", token.as_str());
        if header_value_accepts(value.as_str()) {
            Ok(value)
        } else {
            Err(AppError::Internal("Invalid Home Assistant token".to_owned()))
        }
    }

    pub fn base_url(&self) -> (r: Result<reqwest::Url, AppError>)
        ensures
            match url_parse_error(self.config.ha_base_url@) {
                None => r is Ok,
                Some(m) => r matches Err(e) && e@ == invalid_base_url(m),
            },
    {
        match parse_url(self.config.ha_base_url.as_str()) {
            Ok(u) => Ok(u),
            Err(m) => Err(AppError::Internal(concat("Invalid HA_BASE_URL: ", m.as_str()))),
        }
    }

    /// The base URL with `path` as its path.
    fn url_for_path(&self, path: &str) -> (r: Result<String, AppError>)
        ensures
            match url_parse_error(self.config.ha_base_url@) {
                None => r matches Ok(t) && t@ == url_with_path(self.config.ha_base_url@, path@),
                Some(m) => r matches Err(e) && e@ == invalid_base_url(m),
            },
    {
        match parse_with_path(self.config.ha_base_url.as_str(), path) {
            Ok(t) => Ok(t),
            Err(m) => Err(AppError::Internal(concat("Invalid HA_BASE_URL: ", m.as_str()))),
        }
    }

    /// The URL of `GET api/states`.
    pub fn states_url(&self) -> (r: Result<String, AppError>)
        ensures
            match url_parse_error(self.config.ha_base_url@) {
                None => r matches Ok(t) && t@ == url_with_path(
                    self.config.ha_base_url@,
                    "api/states"@,
                ),
                Some(m) => r matches Err(e) && e@ == invalid_base_url(m),
            },
    {
        self.url_for_path("api/states")
    }

    /// The path of a service call.
    pub fn service_path(domain: &str, service: &str) -> (r: String)
        ensures
            r@ == "api/services/"@ + domain@ + "/"@ + service@,
    {
        let a = concat("api/services/", domain);
        let b = concat(a.as_str(), "/");
        concat(b.as_str(), service)
    }

    /// The URL of a service call.
    pub fn call_service(&self, call: &ServiceCall) -> (r: Result<String, AppError>)
        ensures
            match url_parse_error(self.config.ha_base_url@) {
                None => r matches Ok(t) && t@ == url_with_path(
                    self.config.ha_base_url@,
                    "api/services/"@ + call.domain@ + "/"@ + call.service@,
                ),
                Some(m) => r matches Err(e) && e@ == invalid_base_url(m),
            },
    {
        let path = Self::service_path(call.domain.as_str(), call.service.as_str());
        self.url_for_path(path.as_str())
    }

    /// The error for a reply whose status is not a success.
    pub fn request_failed(url: &str, status: &str) -> (r: AppError)
        ensures
            r@ == AppErrorView::Internal(
                "HA GET "@ + url@ + " failed with status "@ + status@,
            ),
    {
        let a = concat("HA GET ", url);
        let b = concat(a.as_str(), " failed with status ");
        AppError::Internal(concat(b.as_str(), status))
    }

    /// The error for a service call whose reply is not a success.
    pub fn service_call_failed(url: &str, status: &str) -> (r: AppError)
        ensures
            r@ == AppErrorView::Internal(
                "HA service call "@ + url@ + " failed with status "@ + status@,
            ),
    {
        let a = concat("HA service call ", url);
        let b = concat(a.as_str(), " failed with status ");
        AppError::Internal(concat(b.as_str(), status))
    }

    pub fn map_entity_kind(entity_id: &str) -> (r: EntityKind)
        ensures
            r == kind_from_id_with_cover(entity_id@),
    {
        if starts_with(entity_id, "light.") {
            EntityKind::Light
        } else if starts_with(entity_id, "switch.") {
            EntityKind::Switch
        } else if starts_with(entity_id, "climate.") {
            EntityKind::Climate
        } else if starts_with(entity_id, "script.") {
            EntityKind::Script
        } else if starts_with(entity_id, "cover.") {
            EntityKind::Cover
        } else {
            EntityKind::Sensor
        }
    }

    pub fn is_on_state(kind: &EntityKind, state: &str) -> (r: bool)
        ensures
            r == state_is_on(*kind, state@),
    {
        is_on(kind, state)
    }

    pub fn build_value(kind: &EntityKind, state: &str, ha: &HaStateResponse) -> (r: Option<
        String,
    >)
        ensures
            opt_text(r) == value_for(*kind, state@, opt_text(ha.attributes.unit_of_measurement)),
    {
        build_value(kind, state, ha)
    }

    pub fn build_entity(ha: HaStateResponse) -> (r: Entity)
        ensures
            r@ == record_entity(ha),
    {
        Self::entity_of(&ha)
    }

    fn entity_of(ha: &HaStateResponse) -> (r: Entity)
        ensures
            r@ == record_entity(*ha),
    {
        let kind = entity_kind_from_id(ha.entity_id.as_str());
        let name = match &ha.attributes.friendly_name {
            Some(n) => n.clone(),
            None => ha.entity_id.clone(),
        };
        let on = is_on(&kind, ha.state.as_str());
        let value = build_value(&kind, ha.state.as_str(), ha);
        Entity { id: EntityId(ha.entity_id.clone()), name, kind, is_on: on, value }
    }

    /// The dashboard state built from the records of `GET api/states`, in
    /// their order.
    pub fn fetch_dashboard_state(states: Vec<HaStateResponse>) -> (r: DashboardState)
        ensures
            r@.len() == states@.len(),
            forall|i: int| 0 <= i < states@.len() ==> r@[i] == record_entity(#[trigger] states@[i]),
    {
        let mut entities: Vec<Entity> = Vec::new();
        let mut i: usize = 0;
        while i < states.len()
            invariant
                i <= states@.len(),
                entities@.len() == i,
                forall|k: int| 0 <= k < i ==> entities@[k]@ == record_entity(#[trigger] states@[k]),
            decreases states@.len() - i,
        {
            entities.push(Self::entity_of(&states[i]));
            i = i + 1;
        }
        DashboardState { entities }
    }

    /// The call that toggles an entity: service `toggle` of the entity's
    /// domain (the text before its first `.`).
    pub fn toggle(entity_id: &EntityId) -> (r: ServiceCall)
        ensures
            r.domain@ == domain_of(entity_id@),
            r.service@ == "toggle"@,
            r.entity_id@ == entity_id@,
    {
        let v = chars_of(entity_id.as_str());
        let mut k: usize = 0;
        while k < v.len() && v[k] != '.'
            invariant
                k <= v@.len(),
                first_dot_from(v@, k as int) == first_dot_from(v@, 0),
            decreases v@.len() - k,
        {
            k = k + 1;
        }
        ServiceCall {
            domain: string_from_range(&v, 0, k),
            service: "toggle".to_owned(),
            entity_id: entity_id.to_string(),
        }
    }

    /// The call that runs a script: `script.turn_on`; refused for an id
    /// that is not a script.
    pub fn run_script(entity_id: &EntityId) -> (r: Result<ServiceCall, AppError>)
        ensures
            has_prefix(entity_id@, "script."@) ==> (r matches Ok(c) && c.domain@ == "script"@
                && c.service@ == "turn_on"@ && c.entity_id@ == entity_id@),
            !has_prefix(entity_id@, "script."@) ==> (r matches Err(e) && e@
                == AppErrorView::Internal(
                "run_script called with non-script entity_id: "@ + entity_id@,
            )),
    {
        if !starts_with(entity_id.as_str(), "script.") {
            return Err(
                AppError::Internal(
                    concat("run_script called with non-script entity_id: ", entity_id.as_str()),
                ),
            );
        }
        Ok(
            ServiceCall {
                domain: "script".to_owned(),
                service: "turn_on".to_owned(),
                entity_id: entity_id.to_string(),
            },
        )
    }
}

} // verus!
