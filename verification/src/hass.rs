//! What is said to Home Assistant: which requests check the credentials,
//! read an entity's state and switch it.
//!
//! A [`Request`] only describes a call. Sending it is the caller's part.

use crate::config::{HomeAssistantConfig, HomeAssistantConfigView};
use vstd::prelude::*;
use vstd::string::StringExecFns;

verus! {

/// An on or off value for Home Assistant.
#[derive(Clone, Copy, Debug, PartialEq, Eq, Structural)]
pub enum APIState {
    On,
    Off,
}

/// The body needed to call the service to turn a device on or off.
#[derive(Clone, Debug)]
pub struct APIServiceCall {
    /// The ID of the entity to control.
    pub entity_id: String,
}

/// How a request is made.
#[derive(Clone, Copy, Debug, PartialEq, Eq, Structural)]
pub enum Method {
    Get,
    Post,
}

/// One call of the Home Assistant API, ready to be sent.
pub struct Request {
    pub method: Method,
    /// The address to call.
    pub url: String,
    /// The value of the `Authorization` header.
    pub authorization: String,
    /// The JSON body, for a request that has one.
    pub body: Option<APIServiceCall>,
}

/// What a [`Request`] holds, as plain text. The body is given by the entity
/// id that it names.
pub ghost struct RequestView {
    pub method: Method,
    pub url: Seq<char>,
    pub authorization: Seq<char>,
    pub body: Option<Seq<char>>,
}

impl View for APIServiceCall {
    type V = Seq<char>;

    open spec fn view(&self) -> Seq<char> {
        self.entity_id@
    }
}

impl View for Request {
    type V = RequestView;

    open spec fn view(&self) -> RequestView {
        RequestView {
            method: self.method,
            url: self.url@,
            authorization: self.authorization@,
            body: match self.body {
                Some(call) => Some(call@),
                None => None,
            },
        }
    }
}

/// The name of the header that carries [`Request::authorization`].
pub const AUTHORIZATION: &'static str = "Authorization";

impl APIState {
    /// The action of a service that brings an entity into this state.
    pub open spec fn spec_action(self) -> Seq<char> {
        match self {
            APIState::On => "turn_on"@,
            APIState::Off => "turn_off"@,
        }
    }

    /// The action of a service that brings an entity into this state.
    pub fn action(&self) -> (name: &'static str)
        ensures
            name@ == self.spec_action(),
    {
        match self {
            APIState::On => "turn_on",
            APIState::Off => "turn_off",
        }
    }
}

impl HomeAssistantConfigView {
    /// The API key as a bearer token.
    pub open spec fn authorization(self) -> Seq<char> {
        "Bearer "@ + self.api_key
    }

    /// The root of the API, which answers only to valid credentials.
    pub open spec fn api_url(self) -> Seq<char> {
        self.url + "/api/"@
    }

    /// Where the state of the configured entity is read.
    pub open spec fn state_url(self) -> Seq<char> {
        self.url + "/api/states/"@ + self.entity
    }

    /// Where the configured service is called to bring an entity into `state`.
    pub open spec fn service_url(self, state: APIState) -> Seq<char> {
        self.url + "/api/services/"@ + self.service + "/"@ + state.spec_action()
    }

    /// The request that checks the credentials.
    pub open spec fn credentials_request(self) -> RequestView {
        RequestView {
            method: Method::Get,
            url: self.api_url(),
            authorization: self.authorization(),
            body: None,
        }
    }

    /// The request that reads the state of the configured entity.
    pub open spec fn entity_state_request(self) -> RequestView {
        RequestView {
            method: Method::Get,
            url: self.state_url(),
            authorization: self.authorization(),
            body: None,
        }
    }

    /// The request that brings the configured entity into `state`.
    pub open spec fn set_state_request(self, state: APIState) -> RequestView {
        RequestView {
            method: Method::Post,
            url: self.service_url(state),
            authorization: self.authorization(),
            body: Some(self.entity),
        }
    }
}

impl HomeAssistantConfig {
    /// The value of the `Authorization` header of every request.
    pub fn authorization(&self) -> (value: String)
        ensures
            value@ == self@.authorization(),
    {
        String::from_str("Bearer ").concat(self.api_key.as_str())
    }

    /// The request whose success shows that URL and API key are valid.
    pub fn credentials_request(&self) -> (request: Request)
        ensures
            request@ == self@.credentials_request(),
    {
        let url = self.url.clone().concat("/api/");
        Request { method: Method::Get, url, authorization: self.authorization(), body: None }
    }

    /// The request that reads the state of the configured entity.
    pub fn entity_state_request(&self) -> (request: Request)
        ensures
            request@ == self@.entity_state_request(),
    {
        let url = self.url.clone().concat("/api/states/").concat(self.entity.as_str());
        Request { method: Method::Get, url, authorization: self.authorization(), body: None }
    }

    /// The request that brings the configured entity into `state`: a call
    /// of the configured service, with the entity named in the body.
    pub fn set_state_request(&self, state: APIState) -> (request: Request)
        ensures
            request@ == self@.set_state_request(state),
    {
        let url = self.url.clone().concat("/api/services/").concat(self.service.as_str()).concat(
            "/",
        ).concat(state.action());
        let body = APIServiceCall { entity_id: self.entity.clone() };
        Request { method: Method::Post, url, authorization: self.authorization(), body: Some(body) }
    }
}

} // verus!
