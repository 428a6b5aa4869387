//! What the four health endpoints answer, given the verdict.

use crate::probe::{Capability, StateChecker};
use crate::state::{ActuatorState, ActuatorView};
use crate::text::same_text;
use vstd::prelude::*;

verus! {

/// The status of an answer that reports health.
pub const STATUS_OK: u16 = 200;

/// The status of an answer that reports a failure.
pub const STATUS_SERVICE_UNAVAILABLE: u16 = 503;

/// The four endpoints.
#[derive(Clone, Copy, Debug, PartialEq, Eq, Structural)]
pub enum Endpoint {
    Health,
    Readiness,
    Liveness,
    Info,
}

/// An answer, as plain values.
pub struct ResponseView {
    pub status: u16,
    pub json_content_type: bool,
    pub body: Seq<char>,
}

/// An answer to a request.
#[derive(Debug, PartialEq, Eq)]
pub struct HealthResponse {
    /// The status code.
    pub status: u16,
    /// Whether the answer is labelled as JSON.
    pub json_content_type: bool,
    /// The body.
    pub body: String,
}

impl View for HealthResponse {
    type V = ResponseView;

    open spec fn view(&self) -> ResponseView {
        ResponseView {
            status: self.status,
            json_content_type: self.json_content_type,
            body: self.body@,
        }
    }
}

/// Whether a character cannot stand as itself inside a JSON string.
pub open spec fn needs_escape(c: char) -> bool {
    c == '"' || c == '\\' || (c as u32) < 0x20
}

/// Whether a text can stand as it is inside a JSON string.
pub open spec fn is_plain(text: Seq<char>) -> bool {
    forall|i: int| 0 <= i < text.len() ==> !needs_escape(#[trigger] text[i])
}

/// The compact JSON object with the one member `key`, whose value is the
/// string `value`, for texts that need no escape.
pub open spec fn json_member(key: Seq<char>, value: Seq<char>) -> Seq<char> {
    seq!['{', '"'] + key + seq!['"', ':', '"'] + value + seq!['"', '}']
}

/// Calls serde_json: puts the one member into a `serde_json::Map` with
/// `Map::insert`, wraps the map in `serde_json::Value::Object` and renders it
/// with `to_string`, which goes through the `Display` of `serde_json::Value`
/// and writes the compact form.
///
/// Not proved, but taken from serde_json: for a key and a value without a
/// quote, a backslash or a character below U+0020, the compact form is the
/// key and the value between quotes as they are, a colon between them, the
/// whole in braces. serde_json escapes those characters and no others.
#[verifier::external_body]
fn json_object(key: &str, value: &str) -> (document: String)
    requires
        is_plain(key@),
        is_plain(value@),
    ensures
        document@ == json_member(key@, value@),
{
    let mut members = serde_json::Map::new();
    members.insert(key.to_string(), serde_json::Value::String(value.to_string()));
    serde_json::Value::Object(members).to_string()
}

/// The word for a verdict in a body.
pub open spec fn status_word(up: bool) -> Seq<char> {
    if up {
        "UP"@
    } else {
        "DOWN"@
    }
}

impl Endpoint {
    /// The path under which the endpoint is served.
    pub open spec fn spec_path(self) -> Seq<char> {
        match self {
            Endpoint::Health => "/actuator/health"@,
            Endpoint::Readiness => "/actuator/health/readiness"@,
            Endpoint::Liveness => "/actuator/health/liveness"@,
            Endpoint::Info => "/actuator/info"@,
        }
    }

    /// The part of the verdict that the endpoint reports.
    pub open spec fn consumes(self, ready: bool, alive: bool) -> bool {
        match self {
            Endpoint::Health => ready && alive,
            Endpoint::Readiness => ready,
            Endpoint::Liveness => alive,
            Endpoint::Info => ready && alive,
        }
    }

    /// Whether the endpoint reports on the question `which`.
    pub open spec fn asks(self, which: Capability) -> bool {
        match self {
            Endpoint::Health => true,
            Endpoint::Readiness => which == Capability::Ready,
            Endpoint::Liveness => which == Capability::Alive,
            Endpoint::Info => true,
        }
    }

    /// The answer of the endpoint when what it reports is `up`: 200 where it
    /// holds and 503 where it does not; a body that says `UP` or `DOWN`,
    /// except for `Info`, whose body is empty.
    pub open spec fn reply(self, up: bool) -> ResponseView {
        ResponseView {
            status: if up {
                STATUS_OK
            } else {
                STATUS_SERVICE_UNAVAILABLE
            },
            json_content_type: self == Endpoint::Health || self == Endpoint::Info,
            body: if self == Endpoint::Info {
                Seq::empty()
            } else {
                json_member("status"@, status_word(up))
            },
        }
    }

    /// The endpoint that is served under `path`, if there is one.
    pub open spec fn spec_from_path(path: Seq<char>) -> Option<Endpoint> {
        if path == Endpoint::Health.spec_path() {
            Some(Endpoint::Health)
        } else if path == Endpoint::Readiness.spec_path() {
            Some(Endpoint::Readiness)
        } else if path == Endpoint::Liveness.spec_path() {
            Some(Endpoint::Liveness)
        } else if path == Endpoint::Info.spec_path() {
            Some(Endpoint::Info)
        } else {
            None
        }
    }

    /// The path under which the endpoint is served.
    pub fn path(self) -> (path: &'static str)
        ensures
            path@ == self.spec_path(),
    {
        match self {
            Endpoint::Health => "/actuator/health",
            Endpoint::Readiness => "/actuator/health/readiness",
            Endpoint::Liveness => "/actuator/health/liveness",
            Endpoint::Info => "/actuator/info",
        }
    }

    /// The endpoint that is served under `path`, if there is one.
    pub fn from_path(path: &str) -> (endpoint: Option<Endpoint>)
        ensures
            endpoint == Endpoint::spec_from_path(path@),
    {
        if same_text(path, Endpoint::Health.path()) {
            Some(Endpoint::Health)
        } else if same_text(path, Endpoint::Readiness.path()) {
            Some(Endpoint::Readiness)
        } else if same_text(path, Endpoint::Liveness.path()) {
            Some(Endpoint::Liveness)
        } else if same_text(path, Endpoint::Info.path()) {
            Some(Endpoint::Info)
        } else {
            None
        }
    }

    /// Answers a request to the endpoint from the two flags of a verdict.
    pub fn respond(self, ready: bool, alive: bool) -> (response: HealthResponse)
        ensures
            response@ == self.reply(self.consumes(ready, alive)),
    {
        let up = match self {
            Endpoint::Health => ready && alive,
            Endpoint::Readiness => ready,
            Endpoint::Liveness => alive,
            Endpoint::Info => ready && alive,
        };
        let status: u16 = if up {
            STATUS_OK
        } else {
            STATUS_SERVICE_UNAVAILABLE
        };
        match self {
            Endpoint::Info => HealthResponse {
                status,
                json_content_type: true,
                body: String::new(),
            },
            Endpoint::Health => HealthResponse {
                status,
                json_content_type: true,
                body: status_body(up),
            },
            _ => HealthResponse { status, json_content_type: false, body: status_body(up) },
        }
    }
}

/// The body that reports `up`.
pub fn status_body(up: bool) -> (body: String)
    ensures
        body@ == json_member("status"@, status_word(up)),
{
    proof {
        lemma_words_are_plain();
    }
    let word = if up {
        "UP"
    } else {
        "DOWN"
    };
    json_object("status", word)
}

/// The key and the two words of a body need no escape.
pub proof fn lemma_words_are_plain()
    ensures
        is_plain("status"@),
        is_plain("UP"@),
        is_plain("DOWN"@),
{
    reveal_strlit("status");
    reveal_strlit("UP");
    reveal_strlit("DOWN");
}

/// No two endpoints share a path: each endpoint is the one found under its
/// own path, and a path under which an endpoint is found is that endpoint's.
pub proof fn lemma_paths_differ(a: Endpoint, b: Endpoint)
    ensures
        a != b ==> a.spec_path() != b.spec_path(),
        Endpoint::spec_from_path(a.spec_path()) == Some(a),
        forall|path: Seq<char>|
            Endpoint::spec_from_path(path) == Some(a) <==> path == a.spec_path(),
{
    reveal_strlit("/actuator/health");
    reveal_strlit("/actuator/health/readiness");
    reveal_strlit("/actuator/health/liveness");
    reveal_strlit("/actuator/info");
    assert("/actuator/health"@.len() == 16);
    assert("/actuator/health/readiness"@.len() == 26);
    assert("/actuator/health/liveness"@.len() == 25);
    assert("/actuator/info"@.len() == 14);
}

/// The answer to `GET /actuator/health`: `UP` with 200 where the engine is
/// ready and alive, `DOWN` with 503 where it is not. It is `UP` where both
/// cached flags are set and every probe answers that it is ready and that it
/// is alive; it is `DOWN` where a cached flag is clear or some probe answers
/// `false`.
pub fn health_handler<P: StateChecker>(state: &ActuatorState<P>) -> (response: HealthResponse)
    ensures
        response@ == Endpoint::Health.reply(response.status == STATUS_OK),
        response.status == STATUS_OK ==> state@.upholds(Capability::Ready) && state@.upholds(
            Capability::Alive,
        ),
        response.status != STATUS_OK ==> state@.denies(Capability::Ready) || state@.denies(
            Capability::Alive,
        ),
        state@.registry.names.len() == 0 ==> (response.status == STATUS_OK) == (
        state@.verdict.is_ready && state@.verdict.is_alive),
{
    let is_ready = state.readiness_snapshot();
    let is_alive = state.liveness_snapshot();
    Endpoint::Health.respond(is_ready, is_alive)
}

/// The answer to `GET /actuator/info`: an empty body, with 200 where the
/// engine is ready and alive and 503 where it is not. It is 200 where both
/// cached flags are set and every probe answers that it is ready and that it
/// is alive; it is 503 where a cached flag is clear or some probe answers
/// `false`.
pub fn info_handler<P: StateChecker>(state: &ActuatorState<P>) -> (response: HealthResponse)
    ensures
        response@ == Endpoint::Info.reply(response.status == STATUS_OK),
        response.status == STATUS_OK ==> state@.upholds(Capability::Ready) && state@.upholds(
            Capability::Alive,
        ),
        response.status != STATUS_OK ==> state@.denies(Capability::Ready) || state@.denies(
            Capability::Alive,
        ),
        state@.registry.names.len() == 0 ==> (response.status == STATUS_OK) == (
        state@.verdict.is_ready && state@.verdict.is_alive),
{
    let is_ready = state.readiness_snapshot();
    let is_alive = state.liveness_snapshot();
    Endpoint::Info.respond(is_ready, is_alive)
}

/// The answer to `GET /actuator/health/readiness`: `UP` with 200 where the
/// engine is ready, `DOWN` with 503 where it is not. It is `UP` where the
/// cached flag is set and every probe answers that it is ready; it is `DOWN`
/// where the flag is clear or some probe answers that it is not. Liveness is
/// not asked.
pub fn readiness_handler<P: StateChecker>(state: &ActuatorState<P>) -> (response: HealthResponse)
    ensures
        response@ == Endpoint::Readiness.reply(response.status == STATUS_OK),
        response.status == STATUS_OK ==> state@.upholds(Capability::Ready),
        response.status != STATUS_OK ==> state@.denies(Capability::Ready),
        state@.registry.names.len() == 0 ==> (response.status == STATUS_OK)
            == state@.verdict.is_ready,
{
    let is_ready = state.readiness_snapshot();
    Endpoint::Readiness.respond(is_ready, true)
}

/// The answer to `GET /actuator/health/liveness`: `UP` with 200 where the
/// engine is alive, `DOWN` with 503 where it is not. It is `UP` where the
/// cached flag is set and every probe answers that it is alive; it is `DOWN`
/// where the flag is clear or some probe answers that it is not. Readiness is
/// not asked.
pub fn liveness_handler<P: StateChecker>(state: &ActuatorState<P>) -> (response: HealthResponse)
    ensures
        response@ == Endpoint::Liveness.reply(response.status == STATUS_OK),
        response.status == STATUS_OK ==> state@.upholds(Capability::Alive),
        response.status != STATUS_OK ==> state@.denies(Capability::Alive),
        state@.registry.names.len() == 0 ==> (response.status == STATUS_OK)
            == state@.verdict.is_alive,
{
    let is_alive = state.liveness_snapshot();
    Endpoint::Liveness.respond(true, is_alive)
}

/// Whether `response` can be the answer of `endpoint` for an engine in the
/// state `engine`. It is the endpoint's answer for `UP` or for `DOWN`. It is
/// `UP` only where every question that the endpoint reports on is upheld: the
/// cached flag is set and every probe answers `true`. It is `DOWN` only where
/// one of those questions is denied: the cached flag is clear or some probe
/// answers `false`. With no probe to ask, the cached verdict alone decides.
pub open spec fn is_served_from<P: StateChecker>(
    endpoint: Endpoint,
    engine: ActuatorView<P>,
    response: ResponseView,
) -> bool {
    let cached = endpoint.consumes(engine.verdict.is_ready, engine.verdict.is_alive);
    let up = response.status == STATUS_OK;
    &&& response == endpoint.reply(up)
    &&& up ==> (endpoint.asks(Capability::Ready) ==> engine.upholds(Capability::Ready)) && (
    endpoint.asks(Capability::Alive) ==> engine.upholds(Capability::Alive))
    &&& !up ==> (endpoint.asks(Capability::Ready) && engine.denies(Capability::Ready)) || (
    endpoint.asks(Capability::Alive) && engine.denies(Capability::Alive))
    &&& up ==> cached
    &&& engine.registry.names.len() == 0 ==> up == cached
}

/// Answers a request to `endpoint` from the engine's state.
pub fn serve<P: StateChecker>(endpoint: Endpoint, state: &ActuatorState<P>) -> (response:
    HealthResponse)
    ensures
        is_served_from(endpoint, state@, response@),
{
    match endpoint {
        Endpoint::Health => health_handler(state),
        Endpoint::Readiness => readiness_handler(state),
        Endpoint::Liveness => liveness_handler(state),
        Endpoint::Info => info_handler(state),
    }
}

} // verus!
