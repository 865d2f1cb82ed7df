//! The topic methods: create, subscribe, publish, unsubscribe.
//!
//! Each method has a handler, a [`TopicAPI`] of the matching type. The handler
//! reads the request out of the frame and answers with the command for the
//! registry. A frame from which the request cannot be read is answered with
//! the error `InvalidPayload`, and no command comes of it. The error is
//! reported for the method that the request names; where the frame names no
//! method at all, it is reported for the event `topic`.

use crate::json::{below, json_document, parse, string_at};
use crate::network::websocket::{APIHandlerCommand, Outcome, OutcomeView};
use crate::router::{ConnectionHandle, Message, MessageView, RouterCommand, RouterCommandView};
use crate::schema::message_schema::{
    error_response,
    MessageRequestText,
    MessageRequestTextView,
    MessageResponse,
};
use crate::schema::topic_schema::{
    TopicCreate,
    TopicCreateView,
    TopicPublish,
    TopicPublishView,
    TopicSubscribe,
    TopicSubscribeView,
};
use crate::text::same_text;
use vstd::prelude::*;

verus! {

/// What a topic handler does with a request.
#[derive(Clone, Copy, Debug, PartialEq, Eq, Structural)]
pub enum ActionType {
    Create,
    Subscribe,
    Publish,
    Unsubscribe,
}

/// The type that `name` stands for, if it stands for one.
pub open spec fn action_named(name: Seq<char>) -> Option<ActionType> {
    if name == "create"@ {
        Some(ActionType::Create)
    } else if name == "publish"@ {
        Some(ActionType::Publish)
    } else if name == "subscribe"@ {
        Some(ActionType::Subscribe)
    } else if name == "unsubscribe"@ {
        Some(ActionType::Unsubscribe)
    } else {
        None
    }
}

/// The answer to a request for `method` whose payload cannot be read: the
/// error `InvalidPayload`, reported for the event `method`.
pub open spec fn invalid_payload(method: Seq<char>) -> OutcomeView {
    OutcomeView::Reply(error_response(method, "InvalidPayload"@))
}

/// The answer to a frame that names no method, so that there is no request
/// to speak of: the error `InvalidPayload`, reported for the event `topic`.
pub open spec fn unreadable_request() -> OutcomeView {
    invalid_payload("topic"@)
}

/// The answer to a request from which no command comes: the error is
/// reported for the method that the request names.
pub open spec fn rejected<P>(request: Option<MessageRequestTextView<P>>) -> OutcomeView {
    match request {
        Some(request) => invalid_payload(request.method),
        None => unreadable_request(),
    }
}

/// The answer to a request to create a topic: the command, or the error for
/// the method of the request where its payload cannot be read.
pub open spec fn create_outcome(
    request: Option<MessageRequestTextView<TopicCreateView>>,
) -> OutcomeView {
    match request {
        Some(MessageRequestTextView { payload: Some(payload), .. }) => OutcomeView::Enqueue(
            RouterCommandView::CreateTopic(payload.topic_id),
        ),
        _ => rejected(request),
    }
}

/// The answer to a request to publish a message: the command, in which the
/// publisher is the sender that the message is kept from, or the error for the
/// method of the request where its payload cannot be read.
pub open spec fn publish_outcome(
    request: Option<MessageRequestTextView<TopicPublishView>>,
) -> OutcomeView {
    match request {
        Some(MessageRequestTextView { payload: Some(payload), .. }) => OutcomeView::Enqueue(
            RouterCommandView::Send(
                payload.topic_id,
                payload.publisher_id,
                MessageView::Text(payload.message),
            ),
        ),
        _ => rejected(request),
    }
}

/// The answer to a request to subscribe, which arrived over `s`: the command,
/// in which the subscriber is bound to that connection, or the error for the
/// method of the request where its payload cannot be read.
pub open spec fn subscribe_outcome(
    s: ConnectionHandle,
    request: Option<MessageRequestTextView<TopicSubscribeView>>,
) -> OutcomeView {
    match request {
        Some(MessageRequestTextView { payload: Some(payload), .. }) => OutcomeView::Enqueue(
            RouterCommandView::Subscribe(payload.topic_id, payload.subscriber_id, s),
        ),
        _ => rejected(request),
    }
}

/// The answer to a request to unsubscribe: the command, or the error for the
/// method of the request where its payload cannot be read.
pub open spec fn unsubscribe_outcome(
    request: Option<MessageRequestTextView<TopicSubscribeView>>,
) -> OutcomeView {
    match request {
        Some(MessageRequestTextView { payload: Some(payload), .. }) => OutcomeView::Enqueue(
            RouterCommandView::Unsubscribe(payload.topic_id, payload.subscriber_id),
        ),
        _ => rejected(request),
    }
}

/// The text in which a frame carries its request. A binary frame carries
/// none.
pub open spec fn frame_text(msg: MessageView) -> Seq<char> {
    match msg {
        MessageView::Text(text) => text,
        MessageView::Binary(_) => Seq::empty(),
    }
}

/// The answer of a handler of type `action` to a frame that arrived over `s`,
/// where `document` holds the strings of the JSON document in the frame, or
/// `None` where the frame holds no JSON document.
pub open spec fn topic_outcome(
    action: ActionType,
    s: ConnectionHandle,
    document: Option<Map<Seq<Seq<char>>, Seq<char>>>,
) -> OutcomeView {
    match document {
        Some(document) => match action {
            ActionType::Create => create_outcome(
                MessageRequestText::<TopicCreate>::decoded(document),
            ),
            ActionType::Publish => publish_outcome(
                MessageRequestText::<TopicPublish>::decoded(document),
            ),
            ActionType::Subscribe => subscribe_outcome(
                s,
                MessageRequestText::<TopicSubscribe>::decoded(document),
            ),
            ActionType::Unsubscribe => unsubscribe_outcome(
                MessageRequestText::<TopicSubscribe>::decoded(document),
            ),
        },
        None => unreadable_request(),
    }
}

/// The payload fields that a request of type `action` must hold, each as a
/// string.
pub open spec fn required_fields(action: ActionType) -> Seq<Seq<char>> {
    match action {
        ActionType::Create => seq!["topic_id"@],
        ActionType::Publish => seq!["topic_id"@, "publisher_id"@, "message"@],
        ActionType::Subscribe => seq!["topic_id"@, "subscriber_id"@],
        ActionType::Unsubscribe => seq!["topic_id"@, "subscriber_id"@],
    }
}

/// The field `name` of the payload of `document`, if it is there and is a
/// string.
pub open spec fn payload_field(
    document: Map<Seq<Seq<char>>, Seq<char>>,
    name: Seq<char>,
) -> Option<Seq<char>> {
    string_at(document, seq!["payload"@, name])
}

/// `document` is a request of type `action`: it names a method, and its
/// payload holds every required field.
pub open spec fn well_formed_request(
    action: ActionType,
    document: Map<Seq<Seq<char>>, Seq<char>>,
) -> bool {
    &&& string_at(document, seq!["method"@]) is Some
    &&& forall|i: int|
        0 <= i < required_fields(action).len() ==> (#[trigger] payload_field(
            document,
            required_fields(action)[i],
        )) is Some
}

/// The command that the request `document` of type `action` asks for, where
/// the request arrived over `s`.
pub open spec fn requested_command(
    action: ActionType,
    s: ConnectionHandle,
    document: Map<Seq<Seq<char>>, Seq<char>>,
) -> RouterCommandView {
    let topic = payload_field(document, "topic_id"@)->0;
    match action {
        ActionType::Create => RouterCommandView::CreateTopic(topic),
        ActionType::Publish => RouterCommandView::Send(
            topic,
            payload_field(document, "publisher_id"@)->0,
            MessageView::Text(payload_field(document, "message"@)->0),
        ),
        ActionType::Subscribe => RouterCommandView::Subscribe(
            topic,
            payload_field(document, "subscriber_id"@)->0,
            s,
        ),
        ActionType::Unsubscribe => RouterCommandView::Unsubscribe(
            topic,
            payload_field(document, "subscriber_id"@)->0,
        ),
    }
}

proof fn lemma_payload_field(document: Map<Seq<Seq<char>>, Seq<char>>, name: Seq<char>)
    ensures
        string_at(below(document, "payload"@), seq![name]) == payload_field(document, name),
{
    assert(seq!["payload"@] + seq![name] =~= seq!["payload"@, name]);
}

/// A handler answers with a command exactly to the well-formed requests of
/// its type, and then with the command that the request asks for. Every other
/// frame is answered with the error `InvalidPayload`. For a document that
/// names a method and lacks a required payload field, the error is reported
/// for that method. For a frame whose text is no JSON document, and for a
/// document that names no method, it is reported for the event `topic`.
pub proof fn lemma_topic_outcome(
    action: ActionType,
    s: ConnectionHandle,
    document: Option<Map<Seq<Seq<char>>, Seq<char>>>,
)
    ensures
        topic_outcome(action, s, document) == match document {
            Some(strings) => if well_formed_request(action, strings) {
                OutcomeView::Enqueue(requested_command(action, s, strings))
            } else {
                match string_at(strings, seq!["method"@]) {
                    Some(method) => invalid_payload(method),
                    None => unreadable_request(),
                }
            },
            None => unreadable_request(),
        },
{
    if let Some(strings) = document {
        lemma_payload_field(strings, "topic_id"@);
        lemma_payload_field(strings, "subscriber_id"@);
        lemma_payload_field(strings, "publisher_id"@);
        lemma_payload_field(strings, "message"@);
        let fields = required_fields(action);
        if well_formed_request(action, strings) {
            assert(payload_field(strings, fields[0]) is Some);
            if fields.len() > 1 {
                assert(payload_field(strings, fields[1]) is Some);
            }
            if fields.len() > 2 {
                assert(payload_field(strings, fields[2]) is Some);
            }
        }
    }
}

/// A topic handler never answers with a result: a response that it sends
/// reports an error and has no payload.
pub proof fn lemma_replies_are_errors(
    action: ActionType,
    s: ConnectionHandle,
    document: Option<Map<Seq<Seq<char>>, Seq<char>>>,
)
    ensures
        match topic_outcome(action, s, document) {
            OutcomeView::Reply(response) => response.error is Some && response.payload is None,
            OutcomeView::Enqueue(_) => true,
            OutcomeView::Nothing => false,
        },
{
}

/// The handler of one topic method.
#[derive(Clone, Copy, Debug, PartialEq, Eq)]
pub struct TopicAPI {
    actiontype: Option<ActionType>,
}

impl TopicAPI {
    /// The type of the handler. A handler without type answers nothing.
    pub closed spec fn action(&self) -> Option<ActionType> {
        self.actiontype
    }

    /// A handler without type.
    pub fn new() -> (r: Self)
        ensures
            r.action() is None,
    {
        TopicAPI { actiontype: None }
    }

    /// The handler with the type that `t` names: `create`, `publish`,
    /// `subscribe` or `unsubscribe`. Any other name leaves it without type.
    pub fn set_type(self, t: &str) -> (r: Self)
        ensures
            r.action() == action_named(t@),
    {
        let actiontype = if same_text(t, "create") {
            Some(ActionType::Create)
        } else if same_text(t, "publish") {
            Some(ActionType::Publish)
        } else if same_text(t, "subscribe") {
            Some(ActionType::Subscribe)
        } else if same_text(t, "unsubscribe") {
            Some(ActionType::Unsubscribe)
        } else {
            None
        };
        TopicAPI { actiontype: actiontype }
    }

    fn reject(method: &str) -> (r: Outcome)
        ensures
            r@ == invalid_payload(method@),
    {
        Outcome::Reply(MessageResponse::error(method, "InvalidPayload"))
    }

    /// Answers a request to create a topic; `None` stands for a frame that
    /// names no method.
    pub fn create(request: Option<MessageRequestText<TopicCreate>>) -> (r: Outcome)
        ensures
            r@ == create_outcome(
                match request {
                    Some(request) => Some(request@),
                    None => None,
                },
            ),
    {
        match request {
            Some(MessageRequestText { method, payload }) => match payload {
                Some(payload) => Outcome::Enqueue(RouterCommand::CreateTopic(payload.topic_id)),
                None => Self::reject(method.as_str()),
            },
            None => Self::reject("topic"),
        }
    }

    /// Answers a request to publish a message; `None` stands for a frame that
    /// names no method.
    pub fn publish(request: Option<MessageRequestText<TopicPublish>>) -> (r: Outcome)
        ensures
            r@ == publish_outcome(
                match request {
                    Some(request) => Some(request@),
                    None => None,
                },
            ),
    {
        match request {
            Some(MessageRequestText { method, payload }) => match payload {
                Some(payload) => Outcome::Enqueue(
                    RouterCommand::Send(
                        payload.topic_id,
                        payload.publisher_id,
                        Message::text(payload.message),
                    ),
                ),
                None => Self::reject(method.as_str()),
            },
            None => Self::reject("topic"),
        }
    }

    /// Answers a request to subscribe that arrived over `s`; `None` stands for
    /// a frame that names no method.
    pub fn subscribe(s: ConnectionHandle, request: Option<MessageRequestText<TopicSubscribe>>) -> (r:
        Outcome)
        ensures
            r@ == subscribe_outcome(
                s,
                match request {
                    Some(request) => Some(request@),
                    None => None,
                },
            ),
    {
        match request {
            Some(MessageRequestText { method, payload }) => match payload {
                Some(payload) => Outcome::Enqueue(
                    RouterCommand::Subscribe(payload.topic_id, payload.subscriber_id, s),
                ),
                None => Self::reject(method.as_str()),
            },
            None => Self::reject("topic"),
        }
    }

    /// Answers a request to unsubscribe; `None` stands for a frame that names
    /// no method.
    pub fn unsubscribe(request: Option<MessageRequestText<TopicSubscribe>>) -> (r: Outcome)
        ensures
            r@ == unsubscribe_outcome(
                match request {
                    Some(request) => Some(request@),
                    None => None,
                },
            ),
    {
        match request {
            Some(MessageRequestText { method, payload }) => match payload {
                Some(payload) => Outcome::Enqueue(
                    RouterCommand::Unsubscribe(payload.topic_id, payload.subscriber_id),
                ),
                None => Self::reject(method.as_str()),
            },
            None => Self::reject("topic"),
        }
    }
}

impl APIHandlerCommand for TopicAPI {
    /// Nothing from a handler without type; else what [`topic_outcome`] gives
    /// for the JSON document in the text of the frame.
    open spec fn answer(&self, ws: ConnectionHandle, msg: MessageView) -> OutcomeView {
        match self.action() {
            Some(action) => topic_outcome(action, ws, json_document(frame_text(msg))),
            None => OutcomeView::Nothing,
        }
    }

    fn execute(&self, ws: ConnectionHandle, msg: Message) -> (r: Outcome) {
        let action = match self.actiontype {
            Some(action) => action,
            None => {
                return Outcome::Nothing;
            },
        };
        proof {
            reveal_strlit("");
            assert(""@ =~= Seq::<char>::empty());
        }
        let text = match msg.as_text() {
            Some(text) => text,
            None => "",
        };
        match parse(text) {
            Ok(document) => match action {
                ActionType::Create => Self::create(
                    MessageRequestText::<TopicCreate>::from_json(&document),
                ),
                ActionType::Publish => Self::publish(
                    MessageRequestText::<TopicPublish>::from_json(&document),
                ),
                ActionType::Subscribe => Self::subscribe(
                    ws,
                    MessageRequestText::<TopicSubscribe>::from_json(&document),
                ),
                ActionType::Unsubscribe => Self::unsubscribe(
                    MessageRequestText::<TopicSubscribe>::from_json(&document),
                ),
            },
            Err(_) => Self::reject("topic"),
        }
    }
}

} // verus!
