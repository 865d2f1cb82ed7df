//! Connections and the dispatch of their requests by method name.
//!
//! Every frame that arrives on a connection is answered with an [`Outcome`]:
//! nothing, an error response for the connection, or a command for the
//! registry. A frame that cannot be answered with a command never closes the
//! connection; each frame is handled on its own.

use crate::json::{json_document, parse};
use crate::router::{ConnectionHandle, Message, MessageView, RouterCommand, RouterCommandView};
use crate::schema::message_schema::{
    error_response,
    MessageRequest,
    MessageResponse,
    MessageResponseView,
};
use crate::string_map::StringMap;
use vstd::prelude::*;
use vstd::string::StringExecFns;

verus! {

/// What the handling of one frame calls for.
#[derive(Clone, Debug, PartialEq, Eq)]
pub enum Outcome {
    /// Nothing is sent and nothing is enqueued.
    Nothing,
    /// The response is sent back over the connection that the frame came from.
    Reply(MessageResponse),
    /// The command is enqueued for the registry. Nothing is sent back.
    Enqueue(RouterCommand),
}

/// What an [`Outcome`] holds.
pub enum OutcomeView {
    Nothing,
    Reply(MessageResponseView),
    Enqueue(RouterCommandView),
}

impl View for Outcome {
    type V = OutcomeView;

    open spec fn view(&self) -> OutcomeView {
        match self {
            Outcome::Nothing => OutcomeView::Nothing,
            Outcome::Reply(response) => OutcomeView::Reply(response@),
            Outcome::Enqueue(command) => OutcomeView::Enqueue(command@),
        }
    }
}

/// The handler of one method.
pub trait APIHandlerCommand {
    /// What the handler answers to the frame `msg` that arrived over `ws`.
    spec fn answer(&self, ws: ConnectionHandle, msg: MessageView) -> OutcomeView;

    /// Handles the frame `msg` that arrived over `ws`.
    fn execute(&self, ws: ConnectionHandle, msg: Message) -> (r: Outcome)
        ensures
            r@ == self.answer(ws, msg@),
    ;
}

/// The response to a frame that is not a request: its text is no JSON
/// document, or the document names no method.
pub open spec fn invalid_request() -> OutcomeView {
    OutcomeView::Reply(error_response("unicorn.error"@, "InvalidPayload"@))
}

/// The response to a request for a method that has no handler.
pub open spec fn method_not_found() -> OutcomeView {
    OutcomeView::Reply(error_response("unicorn.error"@, "MethodNotFound"@))
}

/// The method that the text of a frame asks for, if it asks for one.
pub open spec fn requested_method(text: Seq<char>) -> Option<Seq<char>> {
    match json_document(text) {
        Some(document) => MessageRequest::decoded(document),
        None => None,
    }
}

/// The handlers of a connection, each under the name of its method.
pub struct APIHandler<H: APIHandlerCommand> {
    handlers: StringMap<H>,
}

impl<H: APIHandlerCommand> View for APIHandler<H> {
    type V = Map<Seq<char>, H>;

    closed spec fn view(&self) -> Map<Seq<char>, H> {
        self.handlers@
    }
}

impl<H: APIHandlerCommand> APIHandler<H> {
    /// What the table answers to a frame whose request has been read: the
    /// answer of the handler of `method`, and an error response where no
    /// request could be read or no handler has that name.
    pub open spec fn routed(
        &self,
        s: ConnectionHandle,
        m: MessageView,
        method: Option<Seq<char>>,
    ) -> OutcomeView {
        match method {
            Some(name) => if self@.contains_key(name) {
                self@[name].answer(s, m)
            } else {
                method_not_found()
            },
            None => invalid_request(),
        }
    }

    /// What the table answers to the frame `m` that arrived over `s`: nothing
    /// to a binary frame, and to a text frame what [`Self::routed`] gives for
    /// the method that the text asks for.
    pub open spec fn answer(&self, s: ConnectionHandle, m: MessageView) -> OutcomeView {
        match m {
            MessageView::Text(text) => self.routed(s, m, requested_method(text)),
            MessageView::Binary(_) => OutcomeView::Nothing,
        }
    }

    /// A table without handlers.
    pub fn new() -> (r: Self)
        ensures
            r@ == Map::<Seq<char>, H>::empty(),
    {
        APIHandler { handlers: StringMap::new() }
    }

    /// Registers `handler` under the method name `id`, in place of the handler
    /// that had the name before, if one had.
    pub fn add_handler(&mut self, id: &str, handler: H)
        ensures
            final(self)@ == old(self)@.insert(id@, handler),
    {
        self.handlers.insert(id.to_owned(), handler);
    }

    /// Answers the frame `m` of which `request` has been read: `None` where
    /// the frame holds no request.
    pub fn dispatch(&self, s: ConnectionHandle, m: Message, request: Option<MessageRequest>) -> (r:
        Outcome)
        ensures
            r@ == self.routed(
                s,
                m@,
                match request {
                    Some(request) => Some(request.method@),
                    None => None,
                },
            ),
    {
        match request {
            Some(request) => match self.handlers.get(&request.method) {
                Some(h) => h.execute(s, m),
                None => Outcome::Reply(MessageResponse::error("unicorn.error", "MethodNotFound")),
            },
            None => Outcome::Reply(MessageResponse::error("unicorn.error", "InvalidPayload")),
        }
    }

    /// Answers the frame `m` that arrived over `s`.
    pub fn handle(&self, s: ConnectionHandle, m: Message) -> (r: Outcome)
        ensures
            r@ == self.answer(s, m@),
    {
        let request = match m.as_text() {
            Some(text) => match parse(text) {
                Ok(document) => MessageRequest::from_json(&document),
                Err(_) => None,
            },
            None => {
                return Outcome::Nothing;
            },
        };
        self.dispatch(s, m, request)
    }
}

/// A request for a method that has no handler is answered with the error
/// `MethodNotFound`.
pub proof fn lemma_method_not_found<H: APIHandlerCommand>(
    handler: APIHandler<H>,
    s: ConnectionHandle,
    text: Seq<char>,
    method: Seq<char>,
)
    requires
        requested_method(text) == Some(method),
        !handler@.contains_key(method),
    ensures
        handler.answer(s, MessageView::Text(text)) == method_not_found(),
{
}

/// A text frame that is no JSON document, or whose document names no method,
/// is answered with the error `InvalidPayload`, whatever handlers there are.
pub proof fn lemma_invalid_request<H: APIHandlerCommand>(
    handler: APIHandler<H>,
    s: ConnectionHandle,
    text: Seq<char>,
)
    requires
        requested_method(text) is None,
    ensures
        handler.answer(s, MessageView::Text(text)) == invalid_request(),
{
}

/// A request for a method that has a handler is answered as the handler
/// answers it.
pub proof fn lemma_method_found<H: APIHandlerCommand>(
    handler: APIHandler<H>,
    s: ConnectionHandle,
    text: Seq<char>,
    method: Seq<char>,
)
    requires
        requested_method(text) == Some(method),
        handler@.contains_key(method),
    ensures
        handler.answer(s, MessageView::Text(text)) == handler@[method].answer(
            s,
            MessageView::Text(text),
        ),
{
}

/// Which side opened a connection.
#[derive(Clone, Copy, Debug, PartialEq, Eq, Structural)]
pub enum SocketType {
    /// The connection was opened towards a server.
    Server,
    /// The connection was opened by a client.
    Client,
}

impl SocketType {
    /// The name of the type.
    pub open spec fn name(&self) -> Seq<char> {
        match self {
            SocketType::Server => "Server"@,
            SocketType::Client => "Client"@,
        }
    }

    /// The name of the type: `Server` or `Client`.
    pub fn to_string(&self) -> (r: String)
        ensures
            r@ == self.name(),
    {
        match self {
            SocketType::Server => String::from_str("Server"),
            SocketType::Client => String::from_str("Client"),
        }
    }
}

/// One open connection.
#[derive(Clone, Copy, Debug, PartialEq, Eq, Structural)]
pub struct SocketHandler {
    /// The identity of the connection, unique among the connections of its
    /// factory.
    pub id: u64,
    /// The handle by which the connection is reached.
    pub sender: ConnectionHandle,
    /// Which side opened the connection.
    pub conn_type: SocketType,
}

impl SocketHandler {
    /// Answers the frame `m` that arrived on this connection, by the handlers
    /// in `handler`.
    pub fn on_message<H: APIHandlerCommand>(&self, handler: &APIHandler<H>, m: Message) -> (r:
        Outcome)
        ensures
            r@ == handler.answer(self.sender, m@),
    {
        handler.handle(self.sender, m)
    }
}

/// Gives each new connection its identity. Identities count up from 1, so no
/// two connections of one factory share one.
pub struct SocketFactory {
    counter: u64,
}

impl SocketFactory {
    /// The number of connections made so far, which is the identity of the
    /// latest.
    pub closed spec fn issued(&self) -> nat {
        self.counter as nat
    }

    /// A factory that has made no connection yet.
    pub fn new() -> (r: Self)
        ensures
            r.issued() == 0,
    {
        SocketFactory { counter: 0 }
    }

    /// Whether the identities have run out.
    pub fn exhausted(&self) -> (r: bool)
        ensures
            r == (self.issued() == u64::MAX),
    {
        self.counter == u64::MAX
    }

    /// The connection that comes next, of type `t`.
    pub fn new_handler(&mut self, t: SocketType) -> (r: SocketHandler)
        requires
            old(self).issued() < u64::MAX,
        ensures
            final(self).issued() == old(self).issued() + 1,
            r.id == final(self).issued(),
            r.sender == (ConnectionHandle { id: r.id }),
            r.conn_type == t,
    {
        self.counter += 1;
        SocketHandler { id: self.counter, sender: ConnectionHandle { id: self.counter }, conn_type: t }
    }

    /// The connection that comes next, opened by a client.
    pub fn connection_made(&mut self) -> (r: SocketHandler)
        requires
            old(self).issued() < u64::MAX,
        ensures
            final(self).issued() == old(self).issued() + 1,
            r.id == final(self).issued(),
            r.sender == (ConnectionHandle { id: r.id }),
            r.conn_type == SocketType::Client,
    {
        self.new_handler(SocketType::Client)
    }

    /// The connection that comes next, opened towards a server.
    pub fn server_connected(&mut self) -> (r: SocketHandler)
        requires
            old(self).issued() < u64::MAX,
        ensures
            final(self).issued() == old(self).issued() + 1,
            r.id == final(self).issued(),
            r.sender == (ConnectionHandle { id: r.id }),
            r.conn_type == SocketType::Server,
    {
        self.new_handler(SocketType::Server)
    }
}

} // verus!
