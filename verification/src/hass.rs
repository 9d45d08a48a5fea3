//! The client's state machine: it answers the server's messages, keeps the last
//! known state of every entity, and turns the automations' requests into messages
//! for the server. Every step returns the actions that the caller performs.

use crate::config::Config;
use crate::model::{
    AuthOk, CallService, EventData, EventResponse, GetStates, HassEntity, HassRequest, HassResponse, ResultItem,
    ResultPayload, ResultResponse, SubscribeEvents, Target,
};
use vstd::hash_map::StringHashMap;
use vstd::prelude::*;

verus! {

#[verifier::external_type_specification]
#[verifier::external_body]
#[verifier::reject_recursive_types(T)]
pub struct ExOneshotSender<T>(tokio::sync::oneshot::Sender<T>);

#[verifier::external_type_specification]
#[verifier::external_body]
#[verifier::reject_recursive_types(T)]
pub struct ExBroadcastReceiver<T>(tokio::sync::broadcast::Receiver<T>);

/// A request of an automation to the client.
#[derive(Debug)]
pub enum HassMessage {
    /// Call a service of a domain, optionally on one entity.
    CallService {
        domain: String,
        service: String,
        service_data: Option<serde_json::Value>,
        target: Option<Target>,
    },
    /// Subscribe to the server's events; the subscription comes back on `tx`.
    SubscribeEvents { tx: tokio::sync::oneshot::Sender<tokio::sync::broadcast::Receiver<EventData>> },
    /// Ask for the last known state of an entity; the answer comes back on `tx`.
    GetState { entity_id: String, tx: tokio::sync::oneshot::Sender<Option<HassEntity>> },
}

impl HassMessage {
    /// The message that calls `domain.service`, with its data, on the entity `target`
    /// when there is one.
    pub fn call_service(
        domain: &str,
        service: &str,
        service_data: Option<serde_json::Value>,
        target: Option<&str>,
    ) -> (r: HassMessage)
        ensures
            r matches HassMessage::CallService { domain: d, service: s, service_data: sd, target: t }
                && d@ == domain@ && s@ == service@ && sd == service_data
                && match target {
                    None => t is None,
                    Some(e) => t matches Some(x) && x.entity_id@ == e@,
                },
    {
        let target = match target {
            None => None,
            Some(e) => Some(Target { entity_id: e.to_owned() }),
        };
        HassMessage::CallService {
            domain: domain.to_owned(),
            service: service.to_owned(),
            service_data,
            target,
        }
    }
}

/// What the caller of a step does on the client's behalf.
pub enum HassAction {
    /// Send a request to the server.
    Send(HassRequest),
    /// Pass an event on to every subscriber.
    Broadcast(EventData),
    /// Hand a new subscription to the events to `tx`.
    Subscribe(tokio::sync::oneshot::Sender<tokio::sync::broadcast::Receiver<EventData>>),
    /// Answer a state query on `tx`.
    Reply(tokio::sync::oneshot::Sender<Option<HassEntity>>, Option<HassEntity>),
}

/// The client's state: the access token, the last identifier given to a request,
/// the last known state of each entity, and the identifier of the pending request
/// for all states.
pub struct HassView {
    pub access_token: Seq<char>,
    pub url: Seq<char>,
    pub id: u64,
    pub states: Map<Seq<char>, HassEntity>,
    pub get_states_id: Option<u64>,
}

/// The client.
pub struct Hass {
    config: Config,
    id: u64,
    states: StringHashMap<HassEntity>,
    get_states_id: Option<u64>,
}

impl View for Hass {
    type V = HassView;

    closed spec fn view(&self) -> HassView {
        HassView {
            access_token: self.config.access_token@,
            url: self.config.url@,
            id: self.id,
            states: self.states@,
            get_states_id: self.get_states_id,
        }
    }
}

/// The state map after loading the entities of an array of states in order: a later
/// entity replaces an earlier one with the same identifier, and elements that are no
/// entity are passed over.
pub open spec fn load_states(states: Map<Seq<char>, HassEntity>, items: Seq<ResultItem>) -> Map<Seq<char>, HassEntity>
    decreases items.len(),
{
    if items.len() == 0 {
        states
    } else {
        let before = load_states(states, items.drop_last());
        match items.last().entity {
            Some(e) => before.insert(e.entity_id@, e),
            None => before,
        }
    }
}

/// The authentication request with `token`.
pub open spec fn is_auth_request(a: HassAction, token: Seq<char>) -> bool {
    a matches HassAction::Send(HassRequest::Auth(x)) && x.access_token@ == token
}

/// The subscription to state changes, with identifier `id`.
pub open spec fn is_subscribe_request(a: HassAction, id: u64) -> bool {
    &&& a matches HassAction::Send(HassRequest::SubscribeEvents(x))
    &&& x.id == id
    &&& x.event_type matches Some(t) && t@ == "state_changed"@
}

/// The request for all states, with identifier `id`.
pub open spec fn is_get_states_request(a: HassAction, id: u64) -> bool {
    a matches HassAction::Send(HassRequest::GetStates(x)) && x.id == id && x.command_type@ == "get_states"@
}

/// The state of `entity_id` that the client knows, if any.
pub open spec fn known_state(states: Map<Seq<char>, HassEntity>, entity_id: Seq<char>) -> Option<HassEntity> {
    if states.contains_key(entity_id) {
        Some(states[entity_id])
    } else {
        None
    }
}

/// The state map after an event: a state change with a new state records it under
/// the event's entity; any other event leaves the map as it was.
pub open spec fn states_after_event(states: Map<Seq<char>, HassEntity>, event_type: Seq<char>, data: EventData) -> Map<Seq<char>, HassEntity> {
    if event_type == "state_changed"@ && data.new_state is Some {
        states.insert(data.entity_id@, data.new_state->0)
    } else {
        states
    }
}

/// The identifier that an action carries, when it sends a request that has one.
pub open spec fn request_id(a: HassAction) -> Option<u64> {
    match a {
        HassAction::Send(r) => r.spec_id(),
        _ => None,
    }
}

/// The actions of one step give out identifiers above `before` and up to `after`, in
/// increasing order, and the last identifier does not go down.
pub open spec fn ids_issued_within(before: u64, after: u64, actions: Seq<HassAction>) -> bool {
    &&& before <= after
    &&& forall|i: int|
        0 <= i < actions.len() && (#[trigger] request_id(actions[i])) is Some ==> before < request_id(
            actions[i],
        )->0 <= after
    &&& forall|i: int, j: int|
        0 <= i < j < actions.len() && (#[trigger] request_id(actions[i])) is Some && (#[trigger] request_id(
            actions[j],
        )) is Some ==> request_id(actions[i])->0 < request_id(actions[j])->0
}

/// The client's state after it answers `response` in state `v`.
pub open spec fn view_after_response(v: HassView, response: HassResponse) -> HassView {
    match response {
        HassResponse::AuthOk(_) => HassView {
            id: (v.id + 2) as u64,
            get_states_id: Some((v.id + 2) as u64),
            ..v
        },
        HassResponse::Event(e) => HassView {
            states: states_after_event(v.states, e.event.event_type@, e.event.data),
            ..v
        },
        HassResponse::Result(r) => if v.get_states_id == Some(r.id) {
            HassView {
                states: match r.result {
                    ResultPayload::Array(items) => load_states(v.states, items@),
                    _ => v.states,
                },
                get_states_id: None,
                ..v
            }
        } else {
            v
        },
        _ => v,
    }
}

/// The client's state after it answers `responses` in order, starting in state `v`.
pub open spec fn replay(v: HassView, responses: Seq<HassResponse>) -> HassView
    decreases responses.len(),
{
    if responses.len() == 0 {
        v
    } else {
        view_after_response(replay(v, responses.drop_last()), responses.last())
    }
}

/// Whether answering `response` in state `v` may give the entity `entity_id` a state:
/// a state change of that entity with a new state, or the awaited array of states when
/// one of its elements is that entity.
pub open spec fn sets_entity(v: HassView, response: HassResponse, entity_id: Seq<char>) -> bool {
    match response {
        HassResponse::Event(e) => e.event.event_type@ == "state_changed"@ && e.event.data.new_state is Some
            && e.event.data.entity_id@ == entity_id,
        HassResponse::Result(r) => v.get_states_id == Some(r.id) && match r.result {
            ResultPayload::Array(items) => exists|i: int| 0 <= i < items@.len() && item_names(#[trigger] items@[i], entity_id),
            _ => false,
        },
        _ => false,
    }
}

/// The identifiers of all requests that one client sends are distinct and increase in
/// the order they are sent: `counters` are the client's last identifiers between its
/// steps, and `steps` the actions of each step (whether it answered the server or an
/// automation). Within a step they increase by the steps' own contracts; every
/// identifier of an earlier step is below every identifier of a later one.
pub proof fn lemma_request_ids_increase(counters: Seq<u64>, steps: Seq<Seq<HassAction>>, k: int, m: int, a: int, b: int)
    requires
        counters.len() == steps.len() + 1,
        forall|s: int| 0 <= s < steps.len() ==> ids_issued_within(counters[s], counters[s + 1], #[trigger] steps[s]),
        0 <= k < m < steps.len(),
        0 <= a < steps[k].len(),
        0 <= b < steps[m].len(),
        request_id(steps[k][a]) is Some,
        request_id(steps[m][b]) is Some,
    ensures
        request_id(steps[k][a])->0 < request_id(steps[m][b])->0,
{
    assert(ids_issued_within(counters[k], counters[k + 1], steps[k]));
    assert(ids_issued_within(counters[m], counters[m + 1], steps[m]));
    lemma_counters_grow(counters, steps, k + 1, m);
}

proof fn lemma_counters_grow(counters: Seq<u64>, steps: Seq<Seq<HassAction>>, i: int, j: int)
    requires
        counters.len() == steps.len() + 1,
        forall|s: int| 0 <= s < steps.len() ==> ids_issued_within(counters[s], counters[s + 1], #[trigger] steps[s]),
        0 <= i <= j < counters.len(),
    ensures
        counters[i] <= counters[j],
    decreases j - i,
{
    if i < j {
        lemma_counters_grow(counters, steps, i, j - 1);
        assert(ids_issued_within(counters[j - 1], counters[j], steps[j - 1]));
    }
}

/// A response that does not set an entity leaves what the client knows of it as it was.
pub proof fn lemma_other_response_keeps_state(v: HassView, response: HassResponse, entity_id: Seq<char>)
    requires
        !sets_entity(v, response, entity_id),
    ensures
        known_state(view_after_response(v, response).states, entity_id) == known_state(v.states, entity_id),
{
    match response {
        HassResponse::Event(e) => {
            lemma_state_change_read_back(v.states, e.event.event_type@, e.event.data, entity_id);
        },
        HassResponse::Result(r) => {
            if v.get_states_id == Some(r.id) {
                match r.result {
                    ResultPayload::Array(items) => {
                        lemma_loaded_state(v.states, items@, entity_id);
                    },
                    _ => {},
                }
            }
        },
        _ => {},
    }
}

/// Any number of responses that do not set an entity leave what the client knows of
/// it as it was.
pub proof fn lemma_other_responses_keep_state(v: HassView, responses: Seq<HassResponse>, entity_id: Seq<char>)
    requires
        forall|i: int| 0 <= i < responses.len() ==> !sets_entity(replay(v, responses.take(i)), #[trigger] responses[i], entity_id),
    ensures
        known_state(replay(v, responses).states, entity_id) == known_state(v.states, entity_id),
    decreases responses.len(),
{
    if responses.len() > 0 {
        let init = responses.drop_last();
        assert forall|i: int| 0 <= i < init.len() implies !sets_entity(replay(v, init.take(i)), #[trigger] init[i], entity_id) by {
            assert(init.take(i) =~= responses.take(i));
            assert(init[i] == responses[i]);
            assert(!sets_entity(replay(v, responses.take(i)), responses[i], entity_id));
        }
        lemma_other_responses_keep_state(v, init, entity_id);
        let n = responses.len() - 1;
        assert(responses.take(n) =~= init);
        assert(!sets_entity(replay(v, responses.take(n)), responses[n], entity_id));
        lemma_other_response_keeps_state(replay(v, init), responses.last(), entity_id);
    }
}

/// The request for all states stays awaited until its answer comes: a response that is
/// neither that answer nor an authentication success, an event included, leaves the
/// awaited identifier as it was and gives out no identifier. The answer ends the wait;
/// an authentication success starts a new one, under the second identifier it gives out.
pub proof fn lemma_awaited_states_survive(v: HassView, response: HassResponse)
    ensures
        !(response matches HassResponse::Result(r) && v.get_states_id == Some(r.id)) && !(response is AuthOk)
            ==> view_after_response(v, response).get_states_id == v.get_states_id
            && view_after_response(v, response).id == v.id,
        response matches HassResponse::Result(r) && v.get_states_id == Some(r.id)
            ==> view_after_response(v, response).get_states_id is None,
        response is AuthOk ==> view_after_response(v, response).get_states_id == Some((v.id + 2) as u64),
{
}

proof fn lemma_responses_keep_awaited(v: HassView, responses: Seq<HassResponse>)
    requires
        forall|i: int| 0 <= i < responses.len() ==> !((#[trigger] responses[i]) is Result) && !(responses[i] is AuthOk),
    ensures
        replay(v, responses).get_states_id == v.get_states_id,
        replay(v, responses).id == v.id,
    decreases responses.len(),
{
    if responses.len() > 0 {
        let init = responses.drop_last();
        assert forall|i: int| 0 <= i < init.len() implies !((#[trigger] init[i]) is Result) && !(init[i] is AuthOk) by {
            assert(init[i] == responses[i]);
        }
        lemma_responses_keep_awaited(v, init);
        assert(!(responses[responses.len() - 1] is Result));
        lemma_awaited_states_survive(replay(v, init), responses.last());
    }
}

/// After authentication, the answer to the request for all states loads its entities
/// whatever events and other messages (no results) came in between: for an entity that
/// the answer names, the client then knows the state of the last element naming it,
/// and the wait is over.
pub proof fn lemma_fetched_states_load_after_events(
    v: HassView,
    ok: AuthOk,
    between: Seq<HassResponse>,
    answer: ResultResponse,
    entity_id: Seq<char>,
    i: int,
)
    requires
        v.id <= u64::MAX - 2,
        forall|k: int| 0 <= k < between.len() ==> !((#[trigger] between[k]) is Result) && !(between[k] is AuthOk),
        answer.id == v.id + 2,
        answer.result matches ResultPayload::Array(items) && 0 <= i < items@.len() && item_names(items@[i], entity_id)
            && forall|j: int| i < j < items@.len() ==> !item_names(#[trigger] items@[j], entity_id),
    ensures
        ({
            let waiting = replay(view_after_response(v, HassResponse::AuthOk(ok)), between);
            let after = view_after_response(waiting, HassResponse::Result(answer));
            &&& waiting.get_states_id == Some(answer.id)
            &&& after.get_states_id is None
            &&& known_state(after.states, entity_id) == (answer.result->Array_0)@[i].entity
        }),
{
    let authenticated = view_after_response(v, HassResponse::AuthOk(ok));
    lemma_responses_keep_awaited(authenticated, between);
    let waiting = replay(authenticated, between);
    let items = answer.result->Array_0;
    lemma_loaded_state(waiting.states, items@, entity_id);
}

/// A state change is read back later too: after an event that gives an entity a new
/// state, and any responses after it that do not set that entity, the client still
/// knows that new state for it.
pub proof fn lemma_state_change_read_back_later(v: HassView, e: EventResponse, responses: Seq<HassResponse>)
    requires
        e.event.event_type@ == "state_changed"@,
        e.event.data.new_state is Some,
        forall|i: int|
            0 <= i < responses.len() ==> !sets_entity(
                replay(view_after_response(v, HassResponse::Event(e)), responses.take(i)),
                #[trigger] responses[i],
                e.event.data.entity_id@,
            ),
    ensures
        known_state(replay(view_after_response(v, HassResponse::Event(e)), responses).states, e.event.data.entity_id@)
            == e.event.data.new_state,
{
    let after = view_after_response(v, HassResponse::Event(e));
    lemma_state_change_read_back(v.states, e.event.event_type@, e.event.data, e.event.data.entity_id@);
    lemma_other_responses_keep_state(after, responses, e.event.data.entity_id@);
}

/// Whether an element of an array of states is an entity with identifier `entity_id`.
pub open spec fn item_names(item: ResultItem, entity_id: Seq<char>) -> bool {
    item.entity matches Some(e) && e.entity_id@ == entity_id
}

/// A state change is read back: after an event that gives an entity a new state, the
/// client knows that new state for it, and what it knows of every other entity is as
/// before. An event of another type changes nothing.
pub proof fn lemma_state_change_read_back(
    states: Map<Seq<char>, HassEntity>,
    event_type: Seq<char>,
    data: EventData,
    other: Seq<char>,
)
    ensures
        event_type == "state_changed"@ && data.new_state is Some ==> known_state(
            states_after_event(states, event_type, data),
            data.entity_id@,
        ) == data.new_state,
        other != data.entity_id@ ==> known_state(states_after_event(states, event_type, data), other)
            == known_state(states, other),
        event_type != "state_changed"@ ==> states_after_event(states, event_type, data) == states,
{
}

/// Loading an array of states: for an entity that the array names, the client knows
/// the state of the last element that names it; for any other entity, what it knew.
pub proof fn lemma_loaded_state(states: Map<Seq<char>, HassEntity>, items: Seq<ResultItem>, entity_id: Seq<char>)
    ensures
        (forall|i: int| 0 <= i < items.len() ==> !item_names(#[trigger] items[i], entity_id))
            ==> known_state(load_states(states, items), entity_id) == known_state(states, entity_id),
        forall|i: int|
            0 <= i < items.len() && item_names(#[trigger] items[i], entity_id) && (forall|j: int|
                i < j < items.len() ==> !item_names(#[trigger] items[j], entity_id)) ==> known_state(
                load_states(states, items),
                entity_id,
            ) == items[i].entity,
    decreases items.len(),
{
    if items.len() > 0 {
        let init = items.drop_last();
        lemma_loaded_state(states, init, entity_id);
        assert forall|i: int|
            0 <= i < items.len() && item_names(#[trigger] items[i], entity_id) && (forall|j: int|
                i < j < items.len() ==> !item_names(#[trigger] items[j], entity_id)) implies known_state(
            load_states(states, items),
            entity_id,
        ) == items[i].entity by {
            if i < items.len() - 1 {
                assert(init[i] == items[i]);
                assert(!item_names(items[items.len() - 1], entity_id));
                assert forall|j: int| i < j < init.len() implies !item_names(#[trigger] init[j], entity_id) by {
                    assert(init[j] == items[j]);
                }
            }
        }
        if forall|i: int| 0 <= i < items.len() ==> !item_names(#[trigger] items[i], entity_id) {
            assert forall|i: int| 0 <= i < init.len() implies !item_names(#[trigger] init[i], entity_id) by {
                assert(init[i] == items[i]);
            }
            assert(!item_names(items[items.len() - 1], entity_id));
        }
    }
}

impl Hass {
    /// A client that has sent nothing and knows no state.
    pub fn new(config: Config) -> (r: Hass)
        ensures
            r@.access_token == config.access_token@,
            r@.url == config.url@,
            r@.id == 0,
            r@.states == Map::<Seq<char>, HassEntity>::empty(),
            r@.get_states_id is None,
    {
        Hass { config, id: 0, states: StringHashMap::new(), get_states_id: None }
    }

    /// The last identifier given to a request.
    pub fn last_id(&self) -> (r: u64)
        ensures
            r == self@.id,
    {
        self.id
    }

    /// The identifier of the request for all states that the client awaits, if any.
    pub fn awaited_states_id(&self) -> (r: Option<u64>)
        ensures
            r == self@.get_states_id,
    {
        self.get_states_id
    }

    /// A fresh identifier: one more than the last.
    pub fn get_id(&mut self) -> (r: u64)
        requires
            old(self)@.id < u64::MAX,
        ensures
            r == old(self)@.id + 1,
            final(self)@ == (HassView { id: r, ..old(self)@ }),
    {
        self.id = self.id + 1;
        self.id
    }

    /// The last known state of `entity_id`.
    pub fn get_state(&self, entity_id: &str) -> (r: Option<HassEntity>)
        ensures
            r == known_state(self@.states, entity_id@),
    {
        match self.states.get(entity_id) {
            Some(e) => Some(e.duplicate()),
            None => None,
        }
    }

    /// The request that authenticates with the configured access token.
    fn auth_request(&self) -> (r: HassAction)
        ensures
            is_auth_request(r, self@.access_token),
    {
        HassAction::Send(HassRequest::Auth(crate::model::Auth { access_token: self.config.access_token.clone() }))
    }

    /// The subscription to state changes, under a fresh identifier.
    fn subscribe_events(&mut self) -> (r: HassAction)
        requires
            old(self)@.id < u64::MAX,
        ensures
            is_subscribe_request(r, (old(self)@.id + 1) as u64),
            final(self)@ == (HassView { id: (old(self)@.id + 1) as u64, ..old(self)@ }),
    {
        let id = self.get_id();
        HassAction::Send(HassRequest::SubscribeEvents(SubscribeEvents { id, event_type: Some("state_changed".to_owned()) }))
    }

    /// The request for all states, under a fresh identifier that the client then waits on.
    fn fetch_states(&mut self) -> (r: HassAction)
        requires
            old(self)@.id < u64::MAX,
        ensures
            is_get_states_request(r, (old(self)@.id + 1) as u64),
            final(self)@ == (HassView {
                id: (old(self)@.id + 1) as u64,
                get_states_id: Some((old(self)@.id + 1) as u64),
                ..old(self)@
            }),
    {
        let id = self.get_id();
        self.get_states_id = Some(id);
        HassAction::Send(HassRequest::GetStates(GetStates { id, command_type: "get_states".to_owned() }))
    }

    /// Records every entity of an array of states, in order.
    fn load(&mut self, items: &Vec<ResultItem>)
        ensures
            final(self)@ == (HassView { states: load_states(old(self)@.states, items@), ..old(self)@ }),
    {
        let mut i: usize = 0;
        while i < items.len()
            invariant
                i <= items.len(),
                self@ == (HassView { states: load_states(old(self)@.states, items@.take(i as int)), ..old(self)@ }),
            decreases items.len() - i,
        {
            assert(items@.take(i + 1).drop_last() =~= items@.take(i as int));
            match &items[i].entity {
                Some(e) => {
                    self.states.insert(e.entity_id.clone(), e.duplicate());
                },
                None => {},
            }
            i = i + 1;
        }
        assert(items@.take(items.len() as int) =~= items@);
    }

    /// Answers a message of the server.
    ///
    /// A request to authenticate is answered with the access token. Once authenticated,
    /// the client subscribes to state changes and asks for all states, each under a fresh
    /// identifier. An event is passed on to the subscribers, and a state change with a
    /// new state is recorded first. The result of the pending request for all states
    /// records every entity of its array and ends the wait. Anything else changes nothing.
    pub fn handle_response(&mut self, response: HassResponse) -> (actions: Vec<HassAction>)
        requires
            response is AuthOk ==> old(self)@.id <= u64::MAX - 2,
        ensures
            final(self)@ == view_after_response(old(self)@, response),
            ids_issued_within(old(self)@.id, final(self)@.id, actions@),
            match response {
                HassResponse::AuthRequired(_) => {
                    &&& actions@.len() == 1
                    &&& is_auth_request(actions@[0], old(self)@.access_token)
                },
                HassResponse::AuthOk(_) => {
                    &&& actions@.len() == 2
                    &&& is_subscribe_request(actions@[0], (old(self)@.id + 1) as u64)
                    &&& is_get_states_request(actions@[1], (old(self)@.id + 2) as u64)
                },
                HassResponse::Event(e) => actions@ == seq![HassAction::Broadcast(e.event.data)],
                _ => actions@.len() == 0,
            },
    {
        let mut actions: Vec<HassAction> = Vec::new();
        match response {
            HassResponse::AuthRequired(_) => {
                actions.push(self.auth_request());
            },
            HassResponse::AuthOk(_) => {
                let subscribe = self.subscribe_events();
                actions.push(subscribe);
                let fetch = self.fetch_states();
                actions.push(fetch);
            },
            HassResponse::Event(e) => {
                let data = e.event.data;
                if e.event.event_type == "state_changed".to_owned() {
                    match &data.new_state {
                        Some(state) => {
                            self.states.insert(data.entity_id.clone(), state.duplicate());
                        },
                        None => {},
                    }
                }
                actions.push(HassAction::Broadcast(data));
            },
            HassResponse::Result(r) => {
                let pending = match self.get_states_id {
                    Some(id) => id == r.id,
                    None => false,
                };
                if pending {
                    match &r.result {
                        ResultPayload::Array(items) => self.load(items),
                        _ => {},
                    }
                    self.get_states_id = None;
                }
            },
            _ => {},
        }
        actions
    }

    /// Carries out a request of an automation.
    ///
    /// A service call goes to the server under a fresh identifier; a subscription hands
    /// out a receiver of the events; a state query is answered with the last known
    /// state of the entity.
    pub fn handle_message(&mut self, message: HassMessage) -> (action: HassAction)
        requires
            message is CallService ==> old(self)@.id < u64::MAX,
        ensures
            ids_issued_within(old(self)@.id, final(self)@.id, seq![action]),
            match message {
                HassMessage::CallService { domain, service, service_data, target } => {
                    &&& final(self)@ == (HassView { id: (old(self)@.id + 1) as u64, ..old(self)@ })
                    &&& action matches HassAction::Send(HassRequest::CallService(c))
                    &&& c.id == old(self)@.id + 1
                    &&& c.service_type@ == "call_service"@
                    &&& c.domain == domain
                    &&& c.service == service
                    &&& c.service_data == service_data
                    &&& c.target == target
                },
                HassMessage::SubscribeEvents { tx } => {
                    &&& final(self)@ == old(self)@
                    &&& action == HassAction::Subscribe(tx)
                },
                HassMessage::GetState { entity_id, tx } => {
                    &&& final(self)@ == old(self)@
                    &&& action == HassAction::Reply(tx, known_state(old(self)@.states, entity_id@))
                },
            },
    {
        match message {
            HassMessage::CallService { domain, service, service_data, target } => {
                let id = self.get_id();
                HassAction::Send(HassRequest::CallService(CallService {
                    id,
                    service_type: "call_service".to_owned(),
                    domain,
                    service,
                    service_data,
                    target,
                }))
            },
            HassMessage::SubscribeEvents { tx } => HassAction::Subscribe(tx),
            HassMessage::GetState { entity_id, tx } => {
                let state = self.get_state(entity_id.as_str());
                HassAction::Reply(tx, state)
            },
        }
    }
}

} // verus!
