use automagic::automagic::{Automagic, AutomagicAction};
use automagic::config::Config;
use automagic::event_channel_capacity;
use automagic::hass::{Hass, HassAction, HassMessage};
use automagic::model::{
    AuthInvalid, AuthOk, AuthRequired, Event, EventData, EventResponse, HassEntity, HassRequest,
    HassResponse, Pong, ResultItem, ResultPayload, ResultResponse,
};

fn json(text: &str) -> serde_json::Value {
    serde_json::from_str(text).unwrap()
}

fn config() -> Config {
    Config { access_token: "secret".to_owned(), url: "http://h".to_owned() }
}

fn entity(id: &str, state: &str) -> HassEntity {
    HassEntity {
        entity_id: id.to_owned(),
        state: state.to_owned(),
        attributes: serde_json::Value::Null,
        last_changed: "2020-03-14T00:00:00".to_owned(),
        last_updated: "2020-03-14T00:00:00".to_owned(),
    }
}

fn event(event_type: &str, id: &str, new_state: Option<HassEntity>) -> HassResponse {
    HassResponse::Event(EventResponse {
        id: 1,
        event: Event {
            event_type: event_type.to_owned(),
            data: EventData { entity_id: id.to_owned(), old_state: None, new_state },
            origin: "LOCAL".to_owned(),
            time_fired: "now".to_owned(),
        },
    })
}

fn authenticated() -> Hass {
    let mut hass = Hass::new(config());
    hass.handle_response(HassResponse::AuthOk(AuthOk { ha_version: "1".to_owned() }));
    hass
}

#[test]
fn auth_required_is_answered_with_the_token() {
    let mut hass = Hass::new(config());
    let actions = hass.handle_response(HassResponse::AuthRequired(AuthRequired { ha_version: "1".to_owned() }));
    assert_eq!(actions.len(), 1);
    match &actions[0] {
        HassAction::Send(HassRequest::Auth(a)) => assert_eq!(a.access_token, "secret"),
        _ => panic!("expected an auth request"),
    }
    assert_eq!(hass.last_id(), 0);
}

#[test]
fn auth_ok_subscribes_then_fetches_states() {
    let mut hass = Hass::new(config());
    let actions = hass.handle_response(HassResponse::AuthOk(AuthOk { ha_version: "1".to_owned() }));
    assert_eq!(actions.len(), 2);
    match &actions[0] {
        HassAction::Send(HassRequest::SubscribeEvents(s)) => {
            assert_eq!(s.id, 1);
            assert_eq!(s.event_type.as_deref(), Some("state_changed"));
        }
        _ => panic!("expected a subscription"),
    }
    match &actions[1] {
        HassAction::Send(HassRequest::GetStates(g)) => {
            assert_eq!(g.id, 2);
            assert_eq!(g.command_type, "get_states");
        }
        _ => panic!("expected a request for the states"),
    }
    assert_eq!(hass.last_id(), 2);
}

#[test]
fn auth_invalid_and_pong_change_nothing() {
    let mut hass = Hass::new(config());
    assert!(hass.handle_response(HassResponse::AuthInvalid(AuthInvalid { message: "no".to_owned() })).is_empty());
    assert!(hass.handle_response(HassResponse::Pong(Pong { id: 4 })).is_empty());
    assert!(hass.handle_response(HassResponse::Unknown).is_empty());
    assert_eq!(hass.last_id(), 0);
}

#[test]
fn state_change_is_read_back() {
    let mut hass = authenticated();
    let actions = hass.handle_response(event("state_changed", "light.hall", Some(entity("light.hall", "on"))));
    assert_eq!(actions.len(), 1);
    match &actions[0] {
        HassAction::Broadcast(d) => assert_eq!(d.entity_id, "light.hall"),
        _ => panic!("expected a broadcast"),
    }
    assert_eq!(hass.get_state("light.hall").unwrap().state, "on");
    assert!(hass.get_state("light.kitchen").is_none());
}

#[test]
fn other_events_are_passed_on_but_not_recorded() {
    let mut hass = authenticated();
    let actions = hass.handle_response(event("call_service", "light.hall", Some(entity("light.hall", "on"))));
    assert_eq!(actions.len(), 1);
    assert!(hass.get_state("light.hall").is_none());
    let actions = hass.handle_response(event("state_changed", "light.hall", None));
    assert_eq!(actions.len(), 1);
    assert!(hass.get_state("light.hall").is_none());
}

#[test]
fn fetched_states_are_loaded_once() {
    let mut hass = authenticated();
    let items = vec![
        ResultItem { raw: json("{\"entity_id\": \"a.one\"}"), entity: Some(entity("a.one", "1")) },
        ResultItem { raw: json("7"), entity: None },
        ResultItem { raw: json("{\"entity_id\": \"a.one\"}"), entity: Some(entity("a.one", "2")) },
        ResultItem { raw: json("{\"entity_id\": \"b.two\"}"), entity: Some(entity("b.two", "x")) },
    ];
    let other = ResultResponse { id: 1, success: true, result: ResultPayload::Array(items.clone()) };
    assert!(hass.handle_response(HassResponse::Result(other)).is_empty());
    assert!(hass.get_state("a.one").is_none());
    let answer = ResultResponse { id: 2, success: true, result: ResultPayload::Array(items.clone()) };
    assert!(hass.handle_response(HassResponse::Result(answer)).is_empty());
    assert_eq!(hass.get_state("a.one").unwrap().state, "2");
    assert_eq!(hass.get_state("b.two").unwrap().state, "x");
    let again = ResultResponse {
        id: 2,
        success: true,
        result: ResultPayload::Array(vec![ResultItem { raw: json("{}"), entity: Some(entity("a.one", "3")) }]),
    };
    hass.handle_response(HassResponse::Result(again));
    assert_eq!(hass.get_state("a.one").unwrap().state, "2");
}

#[test]
fn service_calls_get_fresh_ids() {
    let mut hass = authenticated();
    let m = HassMessage::call_service("light", "turn_on", None, Some("light.hall"));
    match hass.handle_message(m) {
        HassAction::Send(HassRequest::CallService(c)) => {
            assert_eq!(c.id, 3);
            assert_eq!(c.service_type, "call_service");
            assert_eq!(c.domain, "light");
            assert_eq!(c.service, "turn_on");
            assert_eq!(c.target.unwrap().entity_id, "light.hall");
            assert!(c.service_data.is_none());
        }
        _ => panic!("expected a service call"),
    }
    let m = HassMessage::call_service("switch", "toggle", Some(json("{\"a\": 1}")), None);
    match hass.handle_message(m) {
        HassAction::Send(HassRequest::CallService(c)) => {
            assert_eq!(c.id, 4);
            assert!(c.target.is_none());
            assert_eq!(c.service_data, Some(json("{\"a\": 1}")));
        }
        _ => panic!("expected a service call"),
    }
}

#[test]
fn state_queries_are_answered() {
    let mut hass = authenticated();
    hass.handle_response(event("state_changed", "light.hall", Some(entity("light.hall", "off"))));
    let (tx, _rx) = tokio::sync::oneshot::channel();
    match hass.handle_message(HassMessage::GetState { entity_id: "light.hall".to_owned(), tx }) {
        HassAction::Reply(_, state) => assert_eq!(state.unwrap().state, "off"),
        _ => panic!("expected a reply"),
    }
    let (tx, _rx) = tokio::sync::oneshot::channel();
    match hass.handle_message(HassMessage::GetState { entity_id: "light.none".to_owned(), tx }) {
        HassAction::Reply(_, state) => assert!(state.is_none()),
        _ => panic!("expected a reply"),
    }
    let (tx, _rx) = tokio::sync::oneshot::channel();
    assert!(matches!(hass.handle_message(HassMessage::SubscribeEvents { tx }), HassAction::Subscribe(_)));
    assert_eq!(hass.last_id(), 2);
}

#[test]
fn lean_client_authenticates_and_passes_events() {
    let a = Automagic::new(config());
    match a.handle_response(HassResponse::AuthRequired(AuthRequired { ha_version: "1".to_owned() })) {
        Some(AutomagicAction::Send(HassRequest::Auth(x))) => assert_eq!(x.access_token, "secret"),
        _ => panic!("expected an auth request"),
    }
    assert!(matches!(a.handle_response(event("x", "e", None)), Some(AutomagicAction::Broadcast(_))));
    assert!(a.handle_response(HassResponse::AuthOk(AuthOk { ha_version: "1".to_owned() })).is_none());
}

#[test]
fn event_channel_holds_a_burst() {
    assert_eq!(event_channel_capacity(), 32);
}

#[test]
fn request_ids_increase_across_steps() {
    let mut hass = Hass::new(config());
    let mut ids = Vec::new();
    for action in hass.handle_response(HassResponse::AuthOk(AuthOk { ha_version: "1".to_owned() })) {
        match action {
            HassAction::Send(HassRequest::SubscribeEvents(s)) => ids.push(s.id),
            HassAction::Send(HassRequest::GetStates(g)) => ids.push(g.id),
            _ => panic!("unexpected action"),
        }
    }
    for service in ["a", "b", "c"] {
        match hass.handle_message(HassMessage::call_service("light", service, None, None)) {
            HassAction::Send(HassRequest::CallService(c)) => ids.push(c.id),
            _ => panic!("expected a service call"),
        }
    }
    assert_eq!(ids, vec![1, 2, 3, 4, 5]);
    assert_eq!(hass.awaited_states_id(), Some(2));
}

#[test]
fn state_change_is_read_back_after_other_responses() {
    let mut hass = authenticated();
    hass.handle_response(event("state_changed", "light.hall", Some(entity("light.hall", "on"))));
    hass.handle_response(event("state_changed", "light.kitchen", Some(entity("light.kitchen", "off"))));
    hass.handle_response(event("state_changed", "light.hall", None));
    hass.handle_response(HassResponse::Pong(Pong { id: 9 }));
    let states = vec![ResultItem { raw: json("{}"), entity: Some(entity("b.two", "x")) }];
    hass.handle_response(HassResponse::Result(ResultResponse { id: 2, success: true, result: ResultPayload::Array(states) }));
    assert_eq!(hass.awaited_states_id(), None);
    assert_eq!(hass.get_state("light.hall").unwrap().state, "on");
}

#[test]
fn fresh_ids_count_up_from_one() {
    let mut hass = Hass::new(config());
    assert_eq!(hass.get_id(), 1);
    assert_eq!(hass.get_id(), 2);
    assert_eq!(hass.get_id(), 3);
    assert_eq!(hass.last_id(), 3);
}
