//! Requests as they arrive and responses as they leave.
//!
//! A request is a JSON object with a string member `method` and, for the
//! methods that take one, an object member `payload`. A response is sent only
//! to report an error or an explicit result; it names an event and holds
//! either a payload or an error.

use crate::json::{below, json_strings, member, string_at, string_member};
use vstd::prelude::*;

verus! {

/// A payload that can be read out of a JSON value.
pub trait Payload: View + Sized {
    /// The payload that a JSON value with the strings `strings` spells out, or
    /// `None` where a field is missing or is not a string.
    spec fn decoded(strings: Map<Seq<Seq<char>>, Seq<char>>) -> Option<Self::V>;

    /// A value without strings spells out no payload.
    proof fn lemma_nothing_decoded()
        ensures
            Self::decoded(Map::empty()) is None,
    ;

    /// Reads the payload out of `value`.
    fn from_json(value: &serde_json::Value) -> (r: Option<Self>)
        ensures
            match r {
                Some(payload) => Self::decoded(json_strings(*value)) == Some(payload@),
                None => Self::decoded(json_strings(*value)) is None,
            },
    ;
}

/// A request of which only the method is read.
#[derive(Clone, Debug, PartialEq, Eq)]
pub struct MessageRequest {
    /// The name of the method that the request is for.
    pub method: String,
}

impl MessageRequest {
    /// The method that a document with the strings `document` names, if it
    /// names one.
    pub open spec fn decoded(document: Map<Seq<Seq<char>>, Seq<char>>) -> Option<Seq<char>> {
        string_at(document, seq!["method"@])
    }

    /// Reads the request out of `document`.
    pub fn from_json(document: &serde_json::Value) -> (r: Option<Self>)
        ensures
            match r {
                Some(request) => Self::decoded(json_strings(*document)) == Some(request.method@),
                None => Self::decoded(json_strings(*document)) is None,
            },
    {
        match string_member(document, "method") {
            Some(method) => Some(MessageRequest { method: method }),
            None => None,
        }
    }
}

/// A request with a payload of type `T`.
#[derive(Clone, Debug, PartialEq, Eq)]
pub struct MessageRequestText<T> {
    /// The name of the method that the request is for.
    pub method: String,
    /// The payload, where the request holds one that can be read.
    pub payload: Option<T>,
}

/// What a [`MessageRequestText`] holds.
pub struct MessageRequestTextView<P> {
    pub method: Seq<char>,
    pub payload: Option<P>,
}

impl<T: View> View for MessageRequestText<T> {
    type V = MessageRequestTextView<T::V>;

    open spec fn view(&self) -> MessageRequestTextView<T::V> {
        MessageRequestTextView {
            method: self.method@,
            payload: match self.payload {
                Some(payload) => Some(payload@),
                None => None,
            },
        }
    }
}

impl<T: Payload> MessageRequestText<T> {
    /// The request that a document with the strings `document` spells out:
    /// none without a method; one without payload where the member `payload`
    /// is missing or does not spell out a `T`.
    pub open spec fn decoded(document: Map<Seq<Seq<char>>, Seq<char>>) -> Option<
        MessageRequestTextView<T::V>,
    > {
        match string_at(document, seq!["method"@]) {
            Some(method) => Some(
                MessageRequestTextView {
                    method: method,
                    payload: T::decoded(below(document, "payload"@)),
                },
            ),
            None => None,
        }
    }

    /// Reads the request out of `document`.
    pub fn from_json(document: &serde_json::Value) -> (r: Option<Self>)
        ensures
            match r {
                Some(request) => Self::decoded(json_strings(*document)) == Some(request@),
                None => Self::decoded(json_strings(*document)) is None,
            },
    {
        match string_member(document, "method") {
            Some(method) => {
                let payload = match member(document, "payload") {
                    Some(value) => T::from_json(value),
                    None => {
                        proof {
                            T::lemma_nothing_decoded();
                        }
                        None
                    },
                };
                Some(MessageRequestText { method: method, payload: payload })
            },
            None => None,
        }
    }
}

/// A request with a binary payload.
#[derive(Clone, Debug, PartialEq, Eq)]
pub struct MessageRequestBinary {
    /// The name of the method that the request is for.
    pub method: String,
    /// The payload.
    pub payload: Vec<u8>,
}

/// A response to a request.
#[derive(Clone, Debug, PartialEq, Eq)]
pub struct MessageResponse {
    /// The event that the response reports.
    pub event: String,
    /// The result, in a response that reports success.
    pub payload: Option<String>,
    /// The kind of error, in a response that reports an error.
    pub error: Option<String>,
}

/// What a [`MessageResponse`] holds.
pub struct MessageResponseView {
    pub event: Seq<char>,
    pub payload: Option<Seq<char>>,
    pub error: Option<Seq<char>>,
}

impl View for MessageResponse {
    type V = MessageResponseView;

    open spec fn view(&self) -> MessageResponseView {
        MessageResponseView {
            event: self.event@,
            payload: match self.payload {
                Some(payload) => Some(payload@),
                None => None,
            },
            error: match self.error {
                Some(error) => Some(error@),
                None => None,
            },
        }
    }
}

/// The response that reports the error `err` for the event `ev`.
pub open spec fn error_response(ev: Seq<char>, err: Seq<char>) -> MessageResponseView {
    MessageResponseView { event: ev, payload: None, error: Some(err) }
}

/// The response that reports the result `payload` for the event `ev`.
pub open spec fn success_response(ev: Seq<char>, payload: Seq<char>) -> MessageResponseView {
    MessageResponseView { event: ev, payload: Some(payload), error: None }
}

impl MessageResponse {
    /// A response that reports the error `err` for the event `ev`.
    pub fn error(ev: &str, err: &str) -> (r: Self)
        ensures
            r@ == error_response(ev@, err@),
    {
        MessageResponse { event: ev.to_owned(), payload: None, error: Some(err.to_owned()) }
    }

    /// A response that reports the result `payload` for the event `ev`.
    pub fn success(ev: &str, payload: String) -> (r: Self)
        ensures
            r@ == success_response(ev@, payload@),
    {
        MessageResponse { event: ev.to_owned(), payload: Some(payload), error: None }
    }
}

} // verus!
