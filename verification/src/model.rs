//! The messages of the Home Assistant websocket API, as the library reads and
//! writes them. Turning them into and out of JSON text happens outside the library.

use vstd::prelude::*;

verus! {

#[verifier::external_type_specification]
#[verifier::external_body]
pub struct ExJsonValue(serde_json::Value);

/// `Clone::clone` of `serde_json::Value`, which derives it: the copy equals the original.
pub assume_specification[ <serde_json::Value as Clone>::clone ](v: &serde_json::Value) -> (r: serde_json::Value)
    ensures
        r == *v,
;

/// The entity that a service call acts on.
#[derive(Clone, Debug)]
pub struct Target {
    pub entity_id: String,
}

/// The authentication message, sent when the server asks for it.
#[derive(Clone, Debug)]
pub struct Auth {
    pub access_token: String,
}

/// A subscription to the server's events, of one type or of all.
#[derive(Clone, Debug)]
pub struct SubscribeEvents {
    pub id: u64,
    pub event_type: Option<String>,
}

/// A request for the states of all entities.
#[derive(Clone, Debug)]
pub struct GetStates {
    pub id: u64,
    pub command_type: String,
}

/// A request to call a service of a domain, optionally on one entity.
#[derive(Clone, Debug)]
pub struct CallService {
    pub id: u64,
    pub service_type: String,
    pub domain: String,
    pub service: String,
    pub service_data: Option<serde_json::Value>,
    pub target: Option<Target>,
}

/// A message from the client to the server.
#[derive(Clone, Debug)]
pub enum HassRequest {
    Auth(Auth),
    SubscribeEvents(SubscribeEvents),
    GetStates(GetStates),
    CallService(CallService),
}

impl HassRequest {
    /// The identifier that the request carries, if it carries one.
    pub open spec fn spec_id(self) -> Option<u64> {
        match self {
            HassRequest::Auth(_) => None,
            HassRequest::SubscribeEvents(r) => Some(r.id),
            HassRequest::GetStates(r) => Some(r.id),
            HassRequest::CallService(r) => Some(r.id),
        }
    }
}

/// The state of one entity as the server reports it.
#[derive(Clone, Debug)]
pub struct HassEntity {
    pub entity_id: String,
    pub state: String,
    pub attributes: serde_json::Value,
    pub last_changed: String,
    pub last_updated: String,
}

impl HassEntity {
    /// An equal copy of this entity.
    pub fn duplicate(&self) -> (r: HassEntity)
        ensures
            r == *self,
    {
        HassEntity {
            entity_id: self.entity_id.clone(),
            state: self.state.clone(),
            attributes: self.attributes.clone(),
            last_changed: self.last_changed.clone(),
            last_updated: self.last_updated.clone(),
        }
    }
}

/// What an event says about one entity: its state before and after.
#[derive(Clone, Debug)]
pub struct EventData {
    pub entity_id: String,
    pub old_state: Option<HassEntity>,
    pub new_state: Option<HassEntity>,
}

/// An event of the server.
#[derive(Clone, Debug)]
pub struct Event {
    pub event_type: String,
    pub data: EventData,
    pub origin: String,
    pub time_fired: String,
}

/// The server asks the client to authenticate.
#[derive(Clone, Debug)]
pub struct AuthRequired {
    pub ha_version: String,
}

/// The server accepted the access token.
#[derive(Clone, Debug)]
pub struct AuthOk {
    pub ha_version: String,
}

/// The server refused the access token.
#[derive(Clone, Debug)]
pub struct AuthInvalid {
    pub message: String,
}

/// An event delivered on the subscription with identifier `id`.
#[derive(Clone, Debug)]
pub struct EventResponse {
    pub id: u64,
    pub event: Event,
}

/// One element of an array result, with the entity read from it where it is one.
#[derive(Clone, Debug)]
pub struct ResultItem {
    pub raw: serde_json::Value,
    pub entity: Option<HassEntity>,
}

/// The payload of a result.
#[derive(Clone, Debug)]
pub enum ResultPayload {
    /// The result carries no payload.
    Absent,
    /// The payload is a JSON array.
    Array(Vec<ResultItem>),
    /// The payload is some other JSON value.
    Other(serde_json::Value),
}

/// The answer to the request with identifier `id`.
#[derive(Clone, Debug)]
pub struct ResultResponse {
    pub id: u64,
    pub success: bool,
    pub result: ResultPayload,
}

/// The answer to a ping.
#[derive(Clone, Debug)]
pub struct Pong {
    pub id: u64,
}

/// A message from the server to the client.
#[derive(Clone, Debug)]
pub enum HassResponse {
    AuthRequired(AuthRequired),
    AuthOk(AuthOk),
    AuthInvalid(AuthInvalid),
    Event(EventResponse),
    Result(ResultResponse),
    Pong(Pong),
    /// A message of a type that the library does not read.
    Unknown,
}

} // verus!
