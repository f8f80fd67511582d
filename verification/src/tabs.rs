//! The connection sub-panel: the collaborator that provides the first tab's
//! content. The dashboard forwards connection events to it; its outgoing
//! requests are answered by the host's request handler, and each answer comes
//! back to the panel as a [`ConnectionEvent::Response`].

use vstd::prelude::*;

verus! {

/// An event addressed to the connection sub-panel.
///
/// `Request` carries a message that the panel wants the host's request
/// handler to answer; `Response` carries the handler's answer back.
#[derive(Clone, Debug, PartialEq, Eq)]
pub enum ConnectionEvent {
    Request(String),
    Response(String),
}

impl ConnectionEvent {
    /// The message that handling this event asks the host to send, if any.
    pub open spec fn outgoing_request(self) -> Option<String> {
        match self {
            ConnectionEvent::Request(message) => Some(message),
            ConnectionEvent::Response(_) => None,
        }
    }
}

/// What the connection panel renders in its content area.
#[derive(Clone, Debug, PartialEq, Eq)]
pub struct ConnectionView {
    /// The most recent answer received from the host, if any came yet.
    pub last_response: Option<String>,
}

/// The connection sub-panel's own state.
#[derive(Debug, PartialEq, Eq, Clone)]
pub struct ConnectionPanel {
    /// The most recent answer received from the host's request handler.
    pub last_response: Option<String>,
}

impl ConnectionPanel {
    /// The panel state after handling `event`: a response is remembered, a
    /// request leaves the panel unchanged.
    pub open spec fn step(self, event: ConnectionEvent) -> ConnectionPanel {
        match event {
            ConnectionEvent::Request(_) => self,
            ConnectionEvent::Response(message) => ConnectionPanel {
                last_response: Some(message),
            },
        }
    }

    /// What the panel renders in its current state.
    pub open spec fn rendered(self) -> ConnectionView {
        ConnectionView { last_response: self.last_response }
    }

    /// Handles one event and returns the message that the host's request
    /// handler should answer, if this event asked for one.
    pub fn update(&mut self, event: ConnectionEvent) -> (request: Option<String>)
        ensures
            *final(self) == old(self).step(event),
            request == event.outgoing_request(),
    {
        match event {
            ConnectionEvent::Request(message) => Some(message),
            ConnectionEvent::Response(message) => {
                self.last_response = Some(message);
                None
            },
        }
    }

    /// Describes the panel's content for the host's renderer.
    pub fn view(&self) -> (r: ConnectionView)
        ensures
            r == self.rendered(),
    {
        let last_response = match &self.last_response {
            Some(message) => Some(message.clone()),
            None => None,
        };
        ConnectionView { last_response }
    }
}

impl Default for ConnectionPanel {
    /// A fresh panel has received no response yet.
    fn default() -> (panel: Self)
        ensures
            panel.last_response is None,
    {
        ConnectionPanel { last_response: None }
    }
}

} // verus!
