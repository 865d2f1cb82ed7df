use unicorn::api::topic::TopicAPI;
use unicorn::kernel::topic_methods;
use unicorn::network::websocket::{APIHandler, APIHandlerCommand, Outcome};
use unicorn::router::{ConnectionHandle, Delivery, Message, Registry, RouterCommand};
use unicorn::schema::message_schema::{MessageRequest, MessageRequestText, MessageResponse};
use unicorn::schema::topic_schema::{TopicCreate, TopicPublish, TopicSubscribe};

fn s(text: &str) -> String {
    String::from(text)
}

fn h(id: u64) -> ConnectionHandle {
    ConnectionHandle { id }
}

fn frame(text: &str) -> Message {
    Message::text(s(text))
}

fn invalid_payload(event: &str) -> Outcome {
    Outcome::Reply(MessageResponse {
        event: s(event),
        payload: None,
        error: Some(s("InvalidPayload")),
    })
}

fn invalid_request() -> Outcome {
    Outcome::Reply(MessageResponse {
        event: s("unicorn.error"),
        payload: None,
        error: Some(s("InvalidPayload")),
    })
}

fn method_not_found() -> Outcome {
    Outcome::Reply(MessageResponse {
        event: s("unicorn.error"),
        payload: None,
        error: Some(s("MethodNotFound")),
    })
}

fn carry(registry: &mut Registry, outcome: Outcome) -> Vec<Delivery> {
    match outcome {
        Outcome::Enqueue(command) => registry.parse_command(command),
        other => panic!("no command: {:?}", other),
    }
}

#[test]
fn create_request_gives_a_command_and_no_response() {
    let table = topic_methods();
    let out = table.handle(h(1), frame(r#"{"method":"topic.create","payload":{"topic_id":"room1"}}"#));
    assert_eq!(out, Outcome::Enqueue(RouterCommand::CreateTopic(s("room1"))));
}

#[test]
fn subscribe_after_create_succeeds() {
    let table = topic_methods();
    let mut registry = Registry::new();
    let created =
        table.handle(h(1), frame(r#"{"method":"topic.create","payload":{"topic_id":"room1"}}"#));
    assert!(carry(&mut registry, created).is_empty());
    let subscribed = table.handle(
        h(1),
        frame(r#"{"method":"topic.subscribe","payload":{"topic_id":"room1","subscriber_id":"A"}}"#),
    );
    assert_eq!(
        subscribed,
        Outcome::Enqueue(RouterCommand::Subscribe(s("room1"), s("A"), h(1)))
    );
    assert!(carry(&mut registry, subscribed).is_empty());
    assert_eq!(registry.topic(&s("room1")).unwrap().get_subscriber(&s("A")), Some(&h(1)));
}

#[test]
fn only_the_other_connection_receives_the_published_text() {
    let table = topic_methods();
    let mut registry = Registry::new();
    let a = table.handle(
        h(1),
        frame(r#"{"method":"topic.subscribe","payload":{"topic_id":"room1","subscriber_id":"A"}}"#),
    );
    let b = table.handle(
        h(2),
        frame(r#"{"method":"topic.subscribe","payload":{"topic_id":"room1","subscriber_id":"B"}}"#),
    );
    assert!(carry(&mut registry, a).is_empty());
    assert!(carry(&mut registry, b).is_empty());
    let published = table.handle(
        h(1),
        frame(
            r#"{"method":"topic.publish","payload":{"topic_id":"room1","publisher_id":"A","message":"hi"}}"#,
        ),
    );
    assert_eq!(
        published,
        Outcome::Enqueue(RouterCommand::Send(s("room1"), s("A"), Message::Text(s("hi"))))
    );
    let deliveries = carry(&mut registry, published);
    assert_eq!(
        deliveries,
        vec![Delivery { subscriber: s("B"), handle: h(2), message: Message::Text(s("hi")) }]
    );
}

#[test]
fn publish_to_a_topic_never_created() {
    let table = topic_methods();
    let mut registry = Registry::new();
    let published = table.handle(
        h(1),
        frame(
            r#"{"method":"topic.publish","payload":{"topic_id":"room1","publisher_id":"A","message":"hi"}}"#,
        ),
    );
    assert!(matches!(published, Outcome::Enqueue(_)));
    assert!(carry(&mut registry, published).is_empty());
    assert!(registry.topic(&s("room1")).is_none());
}

#[test]
fn subscribe_without_subscriber_is_an_invalid_payload() {
    let table = topic_methods();
    let out =
        table.handle(h(1), frame(r#"{"method":"topic.subscribe","payload":{"topic_id":"room1"}}"#));
    assert_eq!(out, invalid_payload("topic.subscribe"));
}

#[test]
fn unknown_method_is_not_found() {
    let table = topic_methods();
    assert_eq!(table.handle(h(1), frame(r#"{"method":"unknown.thing"}"#)), method_not_found());
    assert_eq!(
        table.handle(h(1), frame(r#"{"method":"topic.create ","payload":{"topic_id":"room1"}}"#)),
        method_not_found()
    );
    assert_eq!(
        table.handle(h(1), frame(r#"{"method":"","payload":{"topic_id":"room1"}}"#)),
        method_not_found()
    );
}

#[test]
fn empty_table_finds_no_method() {
    let table: APIHandler<TopicAPI> = APIHandler::new();
    assert_eq!(
        table.handle(h(1), frame(r#"{"method":"topic.create","payload":{"topic_id":"room1"}}"#)),
        method_not_found()
    );
}

#[test]
fn text_that_is_no_json_is_rejected() {
    let table = topic_methods();
    assert_eq!(table.handle(h(1), frame("")), invalid_request());
    assert_eq!(table.handle(h(1), frame("{not json")), invalid_request());
    assert_eq!(table.handle(h(1), frame(r#"{"method":"topic.create""#)), invalid_request());
    assert_eq!(
        table.handle(h(1), frame(r#"{"method":"topic.create"} trailing"#)),
        invalid_request()
    );
}

#[test]
fn document_without_method_is_rejected() {
    let table = topic_methods();
    assert_eq!(table.handle(h(1), frame("{}")), invalid_request());
    assert_eq!(table.handle(h(1), frame("null")), invalid_request());
    assert_eq!(table.handle(h(1), frame(r#""topic.create""#)), invalid_request());
    assert_eq!(table.handle(h(1), frame(r#"{"method":7}"#)), invalid_request());
    assert_eq!(table.handle(h(1), frame(r#"{"method":null}"#)), invalid_request());
    assert_eq!(
        table.handle(h(1), frame(r#"{"payload":{"method":"topic.create","topic_id":"room1"}}"#)),
        invalid_request()
    );
    assert_eq!(table.handle(h(1), frame(r#"["topic.create"]"#)), invalid_request());
}

#[test]
fn binary_frame_is_passed_over() {
    let table = topic_methods();
    let bytes = br#"{"method":"topic.create","payload":{"topic_id":"room1"}}"#.to_vec();
    assert_eq!(table.handle(h(1), Message::Binary(bytes)), Outcome::Nothing);
    assert_eq!(table.handle(h(1), Message::Binary(vec![])), Outcome::Nothing);
}

#[test]
fn request_without_payload_is_an_invalid_payload() {
    let table = topic_methods();
    for method in ["topic.create", "topic.subscribe", "topic.publish", "topic.unsubscribe"] {
        let text = format!(r#"{{"method":"{}"}}"#, method);
        assert_eq!(table.handle(h(1), frame(&text)), invalid_payload(method));
        let text = format!(r#"{{"method":"{}","payload":null}}"#, method);
        assert_eq!(table.handle(h(1), frame(&text)), invalid_payload(method));
        let text = format!(r#"{{"method":"{}","payload":{{}}}}"#, method);
        assert_eq!(table.handle(h(1), frame(&text)), invalid_payload(method));
        let text = format!(r#"{{"method":"{}","payload":"room1"}}"#, method);
        assert_eq!(table.handle(h(1), frame(&text)), invalid_payload(method));
    }
}

#[test]
fn field_outside_the_payload_does_not_count() {
    let table = topic_methods();
    assert_eq!(
        table.handle(h(1), frame(r#"{"method":"topic.create","topic_id":"room1"}"#)),
        invalid_payload("topic.create")
    );
    assert_eq!(
        table.handle(
            h(1),
            frame(r#"{"method":"topic.create","topic_id":"room1","payload":{"other":"x"}}"#)
        ),
        invalid_payload("topic.create")
    );
    assert_eq!(
        table.handle(
            h(1),
            frame(r#"{"method":"topic.create","payload":{"payload":{"topic_id":"room1"}}}"#)
        ),
        invalid_payload("topic.create")
    );
}

#[test]
fn field_that_is_no_string_does_not_count() {
    let table = topic_methods();
    assert_eq!(
        table.handle(h(1), frame(r#"{"method":"topic.create","payload":{"topic_id":5}}"#)),
        invalid_payload("topic.create")
    );
    assert_eq!(
        table.handle(h(1), frame(r#"{"method":"topic.create","payload":{"topic_id":["room1"]}}"#)),
        invalid_payload("topic.create")
    );
    assert_eq!(
        table.handle(
            h(1),
            frame(r#"{"method":"topic.create","payload":{"topic_id":{"topic_id":"room1"}}}"#)
        ),
        invalid_payload("topic.create")
    );
    assert_eq!(
        table.handle(
            h(1),
            frame(
                r#"{"method":"topic.publish","payload":{"topic_id":"room1","publisher_id":"A","message":true}}"#
            )
        ),
        invalid_payload("topic.publish")
    );
}

#[test]
fn publish_needs_all_three_fields() {
    let table = topic_methods();
    assert_eq!(
        table.handle(
            h(1),
            frame(r#"{"method":"topic.publish","payload":{"publisher_id":"A","message":"hi"}}"#)
        ),
        invalid_payload("topic.publish")
    );
    assert_eq!(
        table.handle(
            h(1),
            frame(r#"{"method":"topic.publish","payload":{"topic_id":"room1","message":"hi"}}"#)
        ),
        invalid_payload("topic.publish")
    );
    assert_eq!(
        table.handle(
            h(1),
            frame(r#"{"method":"topic.publish","payload":{"topic_id":"room1","publisher_id":"A"}}"#)
        ),
        invalid_payload("topic.publish")
    );
}

#[test]
fn unsubscribe_request_gives_the_command() {
    let table = topic_methods();
    let out = table.handle(
        h(4),
        frame(r#"{"method":"topic.unsubscribe","payload":{"subscriber_id":"A","topic_id":"room1"}}"#),
    );
    assert_eq!(out, Outcome::Enqueue(RouterCommand::Unsubscribe(s("room1"), s("A"))));
    assert_eq!(
        table.handle(h(4), frame(r#"{"method":"topic.unsubscribe","payload":{"topic_id":"room1"}}"#)),
        invalid_payload("topic.unsubscribe")
    );
}

#[test]
fn subscription_is_bound_to_the_connection_of_the_request() {
    let table = topic_methods();
    let text = r#"{"method":"topic.subscribe","payload":{"topic_id":"room1","subscriber_id":"A"}}"#;
    assert_eq!(
        table.handle(h(41), frame(text)),
        Outcome::Enqueue(RouterCommand::Subscribe(s("room1"), s("A"), h(41)))
    );
    assert_eq!(
        table.handle(h(42), frame(text)),
        Outcome::Enqueue(RouterCommand::Subscribe(s("room1"), s("A"), h(42)))
    );
}

#[test]
fn members_that_are_not_asked_for_are_passed_over() {
    let table = topic_methods();
    let out = table.handle(
        h(1),
        frame(
            r#" { "id": 3, "payload": { "topic_id": "roomé 1", "extra": [1, 2] }, "method": "topic.create" } "#,
        ),
    );
    assert_eq!(out, Outcome::Enqueue(RouterCommand::CreateTopic(s("room\u{e9} 1"))));
}

#[test]
fn strings_are_taken_with_their_escapes_resolved() {
    let table = topic_methods();
    let out = table.handle(
        h(1),
        frame(
            r#"{"method":"topic.publish","payload":{"topic_id":"","publisher_id":"A","message":"a\"b\n\\"}}"#,
        ),
    );
    assert_eq!(
        out,
        Outcome::Enqueue(RouterCommand::Send(s(""), s("A"), Message::Text(s("a\"b\n\\"))))
    );
}

#[test]
fn failed_frame_does_not_spoil_the_next() {
    let table = topic_methods();
    assert_eq!(table.handle(h(1), frame("{")), invalid_request());
    assert_eq!(
        table.handle(h(1), frame(r#"{"method":"topic.create","payload":{"topic_id":"room1"}}"#)),
        Outcome::Enqueue(RouterCommand::CreateTopic(s("room1")))
    );
}

#[test]
fn handler_set_types() {
    let create = r#"{"method":"m","payload":{"topic_id":"t"}}"#;
    let both = r#"{"method":"m","payload":{"topic_id":"t","subscriber_id":"A"}}"#;
    assert_eq!(
        TopicAPI::new().set_type("create").execute(h(1), frame(create)),
        Outcome::Enqueue(RouterCommand::CreateTopic(s("t")))
    );
    assert_eq!(
        TopicAPI::new().set_type("subscribe").execute(h(1), frame(both)),
        Outcome::Enqueue(RouterCommand::Subscribe(s("t"), s("A"), h(1)))
    );
    assert_eq!(
        TopicAPI::new().set_type("unsubscribe").execute(h(1), frame(both)),
        Outcome::Enqueue(RouterCommand::Unsubscribe(s("t"), s("A")))
    );
    assert_eq!(TopicAPI::new().set_type("publish").execute(h(1), frame(both)), invalid_payload("m"));
    assert_eq!(
        TopicAPI::new().set_type("subscribe").set_type("create").execute(h(1), frame(both)),
        Outcome::Enqueue(RouterCommand::CreateTopic(s("t")))
    );
}

#[test]
fn handler_without_type_answers_nothing() {
    let create = r#"{"method":"m","payload":{"topic_id":"t"}}"#;
    assert_eq!(TopicAPI::new().execute(h(1), frame(create)), Outcome::Nothing);
    assert_eq!(TopicAPI::new().execute(h(1), frame("{")), Outcome::Nothing);
    assert_eq!(TopicAPI::new().set_type("Create").execute(h(1), frame(create)), Outcome::Nothing);
    assert_eq!(TopicAPI::new().set_type("").execute(h(1), frame(create)), Outcome::Nothing);
    assert_eq!(
        TopicAPI::new().set_type("create").set_type("topic.create").execute(h(1), frame(create)),
        Outcome::Nothing
    );
}

#[test]
fn handler_rejects_what_it_cannot_read() {
    let api = TopicAPI::new().set_type("create");
    assert_eq!(api.execute(h(1), frame("{not json")), invalid_payload("topic"));
    assert_eq!(api.execute(h(1), frame("")), invalid_payload("topic"));
    assert_eq!(api.execute(h(1), frame(r#"{"payload":{"topic_id":"t"}}"#)), invalid_payload("topic"));
    assert_eq!(api.execute(h(1), frame(r#"{"method":"m","payload":{}}"#)), invalid_payload("m"));
    let bytes = br#"{"method":"m","payload":{"topic_id":"t"}}"#.to_vec();
    assert_eq!(api.execute(h(1), Message::Binary(bytes)), invalid_payload("topic"));
}

#[test]
fn answers_to_requests_that_were_read() {
    let create = MessageRequestText {
        method: s("m"),
        payload: Some(TopicCreate { topic_id: s("t") }),
    };
    assert_eq!(TopicAPI::create(Some(create)), Outcome::Enqueue(RouterCommand::CreateTopic(s("t"))));
    assert_eq!(TopicAPI::create(None), invalid_payload("topic"));
    assert_eq!(
        TopicAPI::create(Some(MessageRequestText { method: s("m"), payload: None })),
        invalid_payload("m")
    );
    let subscribe = MessageRequestText {
        method: s("m"),
        payload: Some(TopicSubscribe { topic_id: s("t"), subscriber_id: s("A") }),
    };
    assert_eq!(
        TopicAPI::subscribe(h(3), Some(subscribe.clone())),
        Outcome::Enqueue(RouterCommand::Subscribe(s("t"), s("A"), h(3)))
    );
    assert_eq!(TopicAPI::subscribe(h(3), None), invalid_payload("topic"));
    assert_eq!(
        TopicAPI::unsubscribe(Some(subscribe)),
        Outcome::Enqueue(RouterCommand::Unsubscribe(s("t"), s("A")))
    );
    assert_eq!(
        TopicAPI::unsubscribe(Some(MessageRequestText { method: s("m"), payload: None })),
        invalid_payload("m")
    );
    let publish = MessageRequestText {
        method: s("m"),
        payload: Some(TopicPublish { topic_id: s("t"), publisher_id: s("A"), message: s("hi") }),
    };
    assert_eq!(
        TopicAPI::publish(Some(publish)),
        Outcome::Enqueue(RouterCommand::Send(s("t"), s("A"), Message::Text(s("hi"))))
    );
    assert_eq!(TopicAPI::publish(None), invalid_payload("topic"));
}

#[test]
fn dispatch_of_a_request_that_was_read() {
    let table = topic_methods();
    let text = r#"{"method":"ignored","payload":{"topic_id":"t"}}"#;
    assert_eq!(
        table.dispatch(h(1), frame(text), Some(MessageRequest { method: s("topic.create") })),
        Outcome::Enqueue(RouterCommand::CreateTopic(s("t")))
    );
    assert_eq!(
        table.dispatch(h(1), frame(text), Some(MessageRequest { method: s("topic.delete") })),
        method_not_found()
    );
    assert_eq!(table.dispatch(h(1), frame(text), None), invalid_request());
}

#[test]
fn later_handler_takes_the_name() {
    let mut table = APIHandler::new();
    table.add_handler("topic", TopicAPI::new().set_type("create"));
    table.add_handler("topic", TopicAPI::new().set_type("unsubscribe"));
    let out = table.handle(
        h(1),
        frame(r#"{"method":"topic","payload":{"topic_id":"t","subscriber_id":"A"}}"#),
    );
    assert_eq!(out, Outcome::Enqueue(RouterCommand::Unsubscribe(s("t"), s("A"))));
}

#[test]
fn error_is_reported_for_the_method_of_the_request() {
    let table = topic_methods();
    let out =
        table.handle(h(1), frame(r#"{"method":"topic.subscribe","payload":{"topic_id":"room1"}}"#));
    match out {
        Outcome::Reply(response) => {
            assert_eq!(response.event, "topic.subscribe");
            assert_eq!(response.error, Some(s("InvalidPayload")));
            assert_eq!(response.payload, None);
        }
        other => panic!("no response: {:?}", other),
    }
    let mut renamed = APIHandler::new();
    renamed.add_handler("rooms.join", TopicAPI::new().set_type("subscribe"));
    assert_eq!(
        renamed.handle(h(1), frame(r#"{"method":"rooms.join","payload":{"topic_id":"room1"}}"#)),
        invalid_payload("rooms.join")
    );
    assert_eq!(
        TopicAPI::new().set_type("subscribe").execute(h(1), frame(r#"{"method":""}"#)),
        invalid_payload("")
    );
}

