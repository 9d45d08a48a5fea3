//! A leaner client that authenticates and passes the server's events on, without
//! keeping any state of the entities.

use crate::config::Config;
use crate::model::{Auth, EventData, HassRequest, HassResponse};
use vstd::prelude::*;

verus! {

/// A request of an automation to the lean client. There are none yet: the only
/// variant holds a value of a type that has no values, so no message can be built.
#[derive(Debug)]
pub enum AutomagicMessage {
    Never(std::convert::Infallible),
}

/// What the caller of a step does on the lean client's behalf.
pub enum AutomagicAction {
    /// Send a request to the server.
    Send(HassRequest),
    /// Pass an event on to every subscriber.
    Broadcast(EventData),
}

/// The lean client.
pub struct Automagic {
    config: Config,
}

impl Automagic {
    pub closed spec fn access_token(&self) -> Seq<char> {
        self.config.access_token@
    }

    pub closed spec fn url(&self) -> Seq<char> {
        self.config.url@
    }

    pub fn new(config: Config) -> (r: Automagic)
        ensures
            r.access_token() == config.access_token@,
            r.url() == config.url@,
    {
        Automagic { config }
    }

    /// Answers a message of the server: a request to authenticate with the access
    /// token, an event by passing it on; anything else needs nothing.
    pub fn handle_response(&self, response: HassResponse) -> (r: Option<AutomagicAction>)
        ensures
            match response {
                HassResponse::AuthRequired(_) => r matches Some(AutomagicAction::Send(HassRequest::Auth(a)))
                    && a.access_token@ == self.access_token(),
                HassResponse::Event(e) => r == Some(AutomagicAction::Broadcast(e.event.data)),
                _ => r is None,
            },
    {
        match response {
            HassResponse::AuthRequired(_) => Some(
                AutomagicAction::Send(HassRequest::Auth(Auth { access_token: self.config.access_token.clone() })),
            ),
            HassResponse::Event(e) => Some(AutomagicAction::Broadcast(e.event.data)),
            _ => None,
        }
    }

    /// Carries out a request of an automation; no request asks for anything yet.
    pub fn handle_message(&self, message: AutomagicMessage) {
        match message {
            AutomagicMessage::Never(_) => {},
        }
    }
}

} // verus!
