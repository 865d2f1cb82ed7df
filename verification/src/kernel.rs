//! What the router is set up with: its methods and its address.

use crate::api::topic::{ActionType, TopicAPI};
use crate::network::websocket::APIHandler;
use crate::schema::config_schema::Config;
use vstd::prelude::*;
use vstd::string::StringExecFns;

verus! {

/// The handlers of the topic methods: `topic.create`, `topic.subscribe`,
/// `topic.publish` and `topic.unsubscribe`, each of the type that its name
/// says.
pub fn topic_methods() -> (r: APIHandler<TopicAPI>)
    ensures
        r@.dom() == set![
            "topic.create"@,
            "topic.subscribe"@,
            "topic.publish"@,
            "topic.unsubscribe"@,
        ],
        r@["topic.create"@].action() == Some(ActionType::Create),
        r@["topic.subscribe"@].action() == Some(ActionType::Subscribe),
        r@["topic.publish"@].action() == Some(ActionType::Publish),
        r@["topic.unsubscribe"@].action() == Some(ActionType::Unsubscribe),
{
    proof {
        reveal_strlit("topic.create");
        reveal_strlit("topic.subscribe");
        reveal_strlit("topic.publish");
        reveal_strlit("topic.unsubscribe");
        reveal_strlit("create");
        reveal_strlit("subscribe");
        reveal_strlit("publish");
        reveal_strlit("unsubscribe");
        assert("topic.create"@.len() == 12);
        assert("topic.subscribe"@.len() == 15);
        assert("topic.publish"@.len() == 13);
        assert("topic.unsubscribe"@.len() == 17);
        assert("create"@.len() == 6);
        assert("subscribe"@.len() == 9);
        assert("publish"@.len() == 7);
        assert("unsubscribe"@.len() == 11);
    }
    let topicapi = TopicAPI::new();
    let mut handler = APIHandler::new();
    handler.add_handler("topic.create", topicapi.set_type("create"));
    handler.add_handler("topic.subscribe", topicapi.set_type("subscribe"));
    handler.add_handler("topic.publish", topicapi.set_type("publish"));
    handler.add_handler("topic.unsubscribe", topicapi.set_type("unsubscribe"));
    assert(handler@.dom() =~= set![
        "topic.create"@,
        "topic.subscribe"@,
        "topic.publish"@,
        "topic.unsubscribe"@,
    ]);
    handler
}

/// The address at which the router listens: that of the service `api`.
pub fn api_address(conf: &Config) -> (r: String)
    requires
        conf.services@.contains_key("api"@),
    ensures
        r@ == conf.services@["api"@].address_text(),
{
    let name = String::from_str("api");
    conf.services.get(&name).unwrap().address()
}

} // verus!
