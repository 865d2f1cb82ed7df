//! Topics, their subscribers, and the registry that routes between them.
//!
//! The registry is a plain state machine. A [`RouterCommand`] takes it from one
//! state to the next and yields the deliveries that the command calls for; the
//! caller carries each delivery to its connection. Nothing is reported back to
//! the origin of a command: a command that names an unknown topic, or removes a
//! subscriber that is not there, changes nothing and yields nothing.

use crate::string_map::StringMap;
use vstd::prelude::*;

verus! {

/// Names one live connection. A copy names the same connection.
#[derive(Clone, Copy, Debug, PartialEq, Eq, Hash, Structural)]
pub struct ConnectionHandle {
    /// The identity that the connection was given when it was opened.
    pub id: u64,
}

/// A frame that travels over a connection.
#[derive(Clone, Debug, PartialEq, Eq)]
pub enum Message {
    /// A text frame.
    Text(String),
    /// A binary frame.
    Binary(Vec<u8>),
}

/// What a [`Message`] holds.
pub enum MessageView {
    Text(Seq<char>),
    Binary(Seq<u8>),
}

impl View for Message {
    type V = MessageView;

    open spec fn view(&self) -> MessageView {
        match self {
            Message::Text(text) => MessageView::Text(text@),
            Message::Binary(data) => MessageView::Binary(data@),
        }
    }
}

impl Message {
    /// A text frame that holds `data`.
    pub fn text(data: String) -> (r: Message)
        ensures
            r@ == MessageView::Text(data@),
    {
        Message::Text(data)
    }

    /// Whether this is a text frame.
    pub fn is_text(&self) -> (r: bool)
        ensures
            r == (self@ is Text),
    {
        match self {
            Message::Text(_) => true,
            Message::Binary(_) => false,
        }
    }

    /// The text of a text frame; a binary frame has none.
    pub fn as_text(&self) -> (r: Option<&str>)
        ensures
            match r {
                Some(text) => self@ == MessageView::Text(text@),
                None => self@ is Binary,
            },
    {
        match self {
            Message::Text(text) => Some(text.as_str()),
            Message::Binary(_) => None,
        }
    }

    /// A second frame with the same content.
    pub fn duplicate(&self) -> (r: Message)
        ensures
            r@ == self@,
    {
        match self {
            Message::Text(text) => Message::Text(text.clone()),
            Message::Binary(data) => {
                let mut copy: Vec<u8> = Vec::new();
                let mut i: usize = 0;
                while i < data.len()
                    invariant
                        i <= data.len(),
                        copy@ == data@.subrange(0, i as int),
                    decreases data.len() - i,
                {
                    copy.push(data[i]);
                    i += 1;
                    assert(copy@ =~= data@.subrange(0, i as int));
                }
                assert(copy@ =~= data@);
                Message::Binary(copy)
            },
        }
    }
}

/// One request against the [`Registry`].
#[derive(Clone, Debug, PartialEq, Eq)]
pub enum RouterCommand {
    /// Create the topic with this identifier, unless it exists.
    CreateTopic(String),
    /// In the topic (first), register the subscriber (second) with the
    /// connection through which it is to be reached.
    Subscribe(String, String, ConnectionHandle),
    /// In the topic (first), deliver the message to every subscriber but the
    /// sender (second).
    Send(String, String, Message),
    /// In the topic, deliver the message to every subscriber.
    Broadcast(String, Message),
    /// In the topic (first), remove the subscriber (second).
    Unsubscribe(String, String),
}

/// What a [`RouterCommand`] holds.
pub enum RouterCommandView {
    CreateTopic(Seq<char>),
    Subscribe(Seq<char>, Seq<char>, ConnectionHandle),
    Send(Seq<char>, Seq<char>, MessageView),
    Broadcast(Seq<char>, MessageView),
    Unsubscribe(Seq<char>, Seq<char>),
}

impl View for RouterCommand {
    type V = RouterCommandView;

    open spec fn view(&self) -> RouterCommandView {
        match self {
            RouterCommand::CreateTopic(topic) => RouterCommandView::CreateTopic(topic@),
            RouterCommand::Subscribe(topic, subscriber, handle) => RouterCommandView::Subscribe(
                topic@,
                subscriber@,
                *handle,
            ),
            RouterCommand::Send(topic, sender, message) => RouterCommandView::Send(
                topic@,
                sender@,
                message@,
            ),
            RouterCommand::Broadcast(topic, message) => RouterCommandView::Broadcast(
                topic@,
                message@,
            ),
            RouterCommand::Unsubscribe(topic, subscriber) => RouterCommandView::Unsubscribe(
                topic@,
                subscriber@,
            ),
        }
    }
}

/// One message on its way to one subscriber.
#[derive(Clone, Debug, PartialEq, Eq)]
pub struct Delivery {
    /// The subscriber that the message is for.
    pub subscriber: String,
    /// The connection through which that subscriber is reached.
    pub handle: ConnectionHandle,
    /// The message.
    pub message: Message,
}

/// The subscribers of one topic: the connection of each, by its identifier.
pub type Subscribers = Map<Seq<char>, ConnectionHandle>;

/// The state of a registry: the subscribers of each topic, by its identifier.
pub type Topics = Map<Seq<char>, Map<Seq<char>, ConnectionHandle>>;

/// `deliveries` carries `message` once to each of `subscribers`, leaving out
/// the subscriber `excluded`, and carries nothing else.
pub open spec fn fans_out(
    deliveries: Seq<Delivery>,
    subscribers: Subscribers,
    excluded: Option<Seq<char>>,
    message: MessageView,
) -> bool {
    &&& forall|i: int|
        0 <= i < deliveries.len() ==> {
            &&& subscribers.contains_key(#[trigger] deliveries[i].subscriber@)
            &&& excluded != Some(deliveries[i].subscriber@)
            &&& deliveries[i].handle == subscribers[deliveries[i].subscriber@]
            &&& deliveries[i].message@ == message
        }
    &&& forall|i: int, j: int|
        0 <= i < j < deliveries.len() ==> #[trigger] deliveries[i].subscriber@
            != #[trigger] deliveries[j].subscriber@
    &&& forall|id: Seq<char>|
        #[trigger] subscribers.contains_key(id) && excluded != Some(id) ==> exists|i: int|
            0 <= i < deliveries.len() && #[trigger] deliveries[i].subscriber@ == id
}

/// The state after creating `topic`: an existing topic keeps its subscribers.
pub open spec fn created(topics: Topics, topic: Seq<char>) -> Topics {
    if topics.contains_key(topic) {
        topics
    } else {
        topics.insert(topic, Map::empty())
    }
}

/// The state after `subscriber` subscribes to `topic` with `handle`: the topic
/// is created if need be, and an earlier handle of the subscriber is replaced.
pub open spec fn subscribed(
    topics: Topics,
    topic: Seq<char>,
    subscriber: Seq<char>,
    handle: ConnectionHandle,
) -> Topics {
    created(topics, topic).insert(topic, created(topics, topic)[topic].insert(subscriber, handle))
}

/// The state after `subscriber` leaves `topic`.
pub open spec fn unsubscribed(topics: Topics, topic: Seq<char>, subscriber: Seq<char>) -> Topics {
    if topics.contains_key(topic) {
        topics.insert(topic, topics[topic].remove(subscriber))
    } else {
        topics
    }
}

/// The state that `command` leaves behind.
pub open spec fn applied(topics: Topics, command: RouterCommandView) -> Topics {
    match command {
        RouterCommandView::CreateTopic(topic) => created(topics, topic),
        RouterCommandView::Subscribe(topic, subscriber, handle) => subscribed(
            topics,
            topic,
            subscriber,
            handle,
        ),
        RouterCommandView::Unsubscribe(topic, subscriber) => unsubscribed(
            topics,
            topic,
            subscriber,
        ),
        RouterCommandView::Send(_, _, _) => topics,
        RouterCommandView::Broadcast(_, _) => topics,
    }
}

/// `deliveries` is what `command` calls for in the state `topics`.
pub open spec fn delivered(
    topics: Topics,
    command: RouterCommandView,
    deliveries: Seq<Delivery>,
) -> bool {
    match command {
        RouterCommandView::Send(topic, sender, message) => if topics.contains_key(topic) {
            fans_out(deliveries, topics[topic], Some(sender), message)
        } else {
            deliveries.len() == 0
        },
        RouterCommandView::Broadcast(topic, message) => if topics.contains_key(topic) {
            fans_out(deliveries, topics[topic], None, message)
        } else {
            deliveries.len() == 0
        },
        _ => deliveries.len() == 0,
    }
}

/// The topic that a command speaks of.
pub open spec fn command_topic(command: RouterCommandView) -> Seq<char> {
    match command {
        RouterCommandView::CreateTopic(topic) => topic,
        RouterCommandView::Subscribe(topic, _, _) => topic,
        RouterCommandView::Send(topic, _, _) => topic,
        RouterCommandView::Broadcast(topic, _) => topic,
        RouterCommandView::Unsubscribe(topic, _) => topic,
    }
}

/// Creating a topic is idempotent: a second creation changes nothing, and a
/// topic that exists keeps its subscribers when it is created again.
pub proof fn lemma_create_twice(topics: Topics, topic: Seq<char>)
    ensures
        created(topics, topic).contains_key(topic),
        created(created(topics, topic), topic) == created(topics, topic),
        topics.contains_key(topic) ==> created(topics, topic) == topics,
        applied(
            applied(topics, RouterCommandView::CreateTopic(topic)),
            RouterCommandView::CreateTopic(topic),
        ) == applied(topics, RouterCommandView::CreateTopic(topic)),
{
}

/// A subscriber has one handle per topic, the one of its latest subscription:
/// subscribing again under the same identifier replaces the earlier handle,
/// and the state is as if only the later subscription had been made.
pub proof fn lemma_latest_subscription_wins(
    topics: Topics,
    topic: Seq<char>,
    subscriber: Seq<char>,
    first: ConnectionHandle,
    second: ConnectionHandle,
)
    ensures
        subscribed(topics, topic, subscriber, second).contains_key(topic),
        subscribed(topics, topic, subscriber, second)[topic].contains_key(subscriber),
        subscribed(topics, topic, subscriber, second)[topic][subscriber] == second,
        subscribed(subscribed(topics, topic, subscriber, first), topic, subscriber, second)
            == subscribed(topics, topic, subscriber, second),
{
    let once = subscribed(topics, topic, subscriber, first);
    assert(created(once, topic) == once);
    assert(once[topic].insert(subscriber, second) =~= created(topics, topic)[topic].insert(
        subscriber,
        second,
    ));
    assert(subscribed(once, topic, subscriber, second) =~= subscribed(
        topics,
        topic,
        subscriber,
        second,
    ));
}

/// A published message goes to every subscriber of the topic but the
/// publisher: no delivery is for the publisher's identifier, and every other
/// subscriber has a delivery of the message over its own handle. (A connection
/// that is also subscribed under a second identifier is reached under that
/// one.)
pub proof fn lemma_publish_skips_publisher(
    topics: Topics,
    topic: Seq<char>,
    publisher: Seq<char>,
    message: MessageView,
    deliveries: Seq<Delivery>,
)
    requires
        topics.contains_key(topic),
        delivered(topics, RouterCommandView::Send(topic, publisher, message), deliveries),
    ensures
        forall|i: int|
            0 <= i < deliveries.len() ==> (#[trigger] deliveries[i].subscriber@) != publisher,
        forall|id: Seq<char>|
            #[trigger] topics[topic].contains_key(id) && id != publisher ==> exists|i: int|
                0 <= i < deliveries.len() && #[trigger] deliveries[i].subscriber@ == id
                    && deliveries[i].handle == topics[topic][id] && deliveries[i].message@
                    == message,
{
    assert forall|id: Seq<char>| #[trigger]
        topics[topic].contains_key(id) && id != publisher implies exists|i: int|
        0 <= i < deliveries.len() && #[trigger] deliveries[i].subscriber@ == id
            && deliveries[i].handle == topics[topic][id] && deliveries[i].message@ == message by {
        assert(Some(publisher) != Some(id));
        let i = choose|i: int| 0 <= i < deliveries.len() && #[trigger] deliveries[i].subscriber@ == id;
        assert(deliveries[i].subscriber@ == id);
    }
}

/// A command that speaks of a topic that does not exist, and is neither a
/// creation nor a subscription, changes nothing and delivers nothing.
pub proof fn lemma_unknown_topic_absorbed(
    topics: Topics,
    command: RouterCommandView,
    deliveries: Seq<Delivery>,
)
    requires
        !topics.contains_key(command_topic(command)),
        !(command is CreateTopic),
        !(command is Subscribe),
        delivered(topics, command, deliveries),
    ensures
        applied(topics, command) == topics,
        deliveries.len() == 0,
{
}

/// No command removes a topic.
pub proof fn lemma_topics_stay(topics: Topics, command: RouterCommandView, topic: Seq<char>)
    requires
        topics.contains_key(topic),
    ensures
        applied(topics, command).contains_key(topic),
{
}

/// A named set of subscribers.
pub struct Topic {
    id: String,
    subscribers: StringMap<ConnectionHandle>,
}

impl View for Topic {
    type V = Map<Seq<char>, ConnectionHandle>;

    closed spec fn view(&self) -> Map<Seq<char>, ConnectionHandle> {
        self.subscribers@
    }
}

impl Topic {
    /// The identifier of the topic.
    pub closed spec fn name(&self) -> Seq<char> {
        self.id@
    }

    /// A topic without subscribers.
    pub fn new(id: String) -> (r: Self)
        ensures
            r.name() == id@,
            r@ == Map::<Seq<char>, ConnectionHandle>::empty(),
    {
        Topic { id: id, subscribers: StringMap::new() }
    }

    /// The identifier of the topic.
    pub fn id(&self) -> (r: String)
        ensures
            r@ == self.name(),
    {
        self.id.clone()
    }

    /// Registers the subscriber `id` with `sender`, in place of the handle
    /// that it had before, if it had one.
    pub fn add_subscriber(&mut self, id: String, sender: ConnectionHandle)
        ensures
            final(self)@ == old(self)@.insert(id@, sender),
            final(self).name() == old(self).name(),
    {
        self.subscribers.insert(id, sender);
    }

    /// Removes the subscriber `id`, if it is there.
    pub fn remove_subscriber(&mut self, id: &String)
        ensures
            final(self)@ == old(self)@.remove(id@),
            final(self).name() == old(self).name(),
    {
        self.subscribers.remove(id);
    }

    /// The handle of the subscriber `id`, if it is there.
    pub fn get_subscriber(&self, id: &String) -> (r: Option<&ConnectionHandle>)
        ensures
            r == if self@.contains_key(id@) {
                Some(&self@[id@])
            } else {
                None
            },
    {
        self.subscribers.get(id)
    }

    fn fan_out(&self, excluded: Option<&String>, m: &Message) -> (r: Vec<Delivery>)
        ensures
            fans_out(
                r@,
                self@,
                match excluded {
                    Some(id) => Some(id@),
                    None => None,
                },
                m@,
            ),
    {
        let ghost left_out: Option<Seq<char>> = match excluded {
            Some(id) => Some(id@),
            None => None,
        };
        let ghost keys = self.subscribers.keys();
        let mut out: Vec<Delivery> = Vec::new();
        let ghost mut source: Seq<int> = Seq::empty();
        let n = self.subscribers.len();
        let mut i: usize = 0;
        while i < n
            invariant
                i <= n,
                n == keys.len(),
                keys == self.subscribers.keys(),
                keys.no_duplicates(),
                forall|k: Seq<char>| keys.contains(k) <==> self@.contains_key(k),
                left_out == match excluded {
                    Some(id) => Some(id@),
                    None => None,
                },
                source.len() == out.len(),
                forall|d: int|
                    0 <= d < out.len() ==> {
                        &&& 0 <= #[trigger] source[d] < i
                        &&& out[d].subscriber@ == keys[source[d]]
                        &&& left_out != Some(keys[source[d]])
                        &&& out[d].handle == self@[keys[source[d]]]
                        &&& out[d].message@ == m@
                    },
                forall|d: int, e: int|
                    0 <= d < e < out.len() ==> #[trigger] source[d] < #[trigger] source[e],
                forall|j: int|
                    0 <= j < i && left_out != Some(#[trigger] keys[j]) ==> exists|d: int|
                        0 <= d < out.len() && #[trigger] source[d] == j,
            decreases n - i,
        {
            let id = self.subscribers.key_at(i);
            let skip = match excluded {
                Some(sender) => *id == *sender,
                None => false,
            };
            if !skip {
                let handle = *self.subscribers.value_at(i);
                let ghost before = source;
                out.push(Delivery { subscriber: id.clone(), handle: handle, message: m.duplicate() });
                proof {
                    source = source.push(i as int);
                    assert forall|j: int|
                        0 <= j < i + 1 && left_out != Some(#[trigger] keys[j]) implies exists|d: int|
                        0 <= d < out.len() && #[trigger] source[d] == j by {
                        if j < i {
                            let d = choose|d: int| 0 <= d < before.len() && #[trigger] before[d] == j;
                            assert(source[d] == j);
                        } else {
                            assert(source[out.len() - 1] == j);
                        }
                    }
                }
            }
            i += 1;
        }
        proof {
            let subscribers = self@;
            assert forall|d: int| 0 <= d < out@.len() implies {
                &&& subscribers.contains_key(#[trigger] out@[d].subscriber@)
                &&& left_out != Some(out@[d].subscriber@)
                &&& out@[d].handle == subscribers[out@[d].subscriber@]
                &&& out@[d].message@ == m@
            } by {
                assert(0 <= source[d] < i);
                assert(keys.contains(keys[source[d]]));
            }
            assert forall|d: int, e: int| 0 <= d < e < out@.len() implies #[trigger] out@[d].subscriber@
                != #[trigger] out@[e].subscriber@ by {
                assert(source[d] < source[e]);
                assert(0 <= source[d] < i);
                assert(0 <= source[e] < i);
            }
            assert forall|id: Seq<char>| #[trigger]
                subscribers.contains_key(id) && left_out != Some(id) implies exists|d: int|
                0 <= d < out@.len() && #[trigger] out@[d].subscriber@ == id by {
                assert(keys.contains(id));
                let j = choose|j: int| 0 <= j < keys.len() && keys[j] == id;
                let d = choose|d: int| 0 <= d < out.len() && #[trigger] source[d] == j;
                assert(out@[d].subscriber@ == id);
            }
        }
        out
    }

    /// The deliveries that carry `m` to every subscriber but `sender_id`.
    pub fn send(&self, sender_id: &String, m: Message) -> (r: Vec<Delivery>)
        ensures
            fans_out(r@, self@, Some(sender_id@), m@),
    {
        self.fan_out(Some(sender_id), &m)
    }

    /// The deliveries that carry `m` to every subscriber.
    pub fn broadcast(&self, m: Message) -> (r: Vec<Delivery>)
        ensures
            fans_out(r@, self@, None, m@),
    {
        self.fan_out(None, &m)
    }
}

/// The topics of one router, each under its identifier.
pub struct Registry {
    topics: StringMap<Topic>,
}

impl View for Registry {
    type V = Map<Seq<char>, Map<Seq<char>, ConnectionHandle>>;

    closed spec fn view(&self) -> Map<Seq<char>, Map<Seq<char>, ConnectionHandle>> {
        Map::new(|id: Seq<char>| self.topics@.contains_key(id), |id: Seq<char>| self.topics@[id]@)
    }
}

impl Registry {
    #[verifier::type_invariant]
    spec fn well_formed(self) -> bool {
        forall|id: Seq<char>| #[trigger]
            self.topics@.contains_key(id) ==> self.topics@[id].name() == id
    }

    /// A registry without topics.
    pub fn new() -> (r: Self)
        ensures
            r@ == Map::<Seq<char>, Map<Seq<char>, ConnectionHandle>>::empty(),
    {
        let r = Registry { topics: StringMap::new() };
        assert(r@ =~= Map::<Seq<char>, Map<Seq<char>, ConnectionHandle>>::empty());
        r
    }

    /// The topic `id`, if it exists.
    pub fn topic(&self, id: &String) -> (r: Option<&Topic>)
        ensures
            match r {
                Some(topic) => self@.contains_key(id@) && topic@ == self@[id@] && topic.name()
                    == id@,
                None => !self@.contains_key(id@),
            },
    {
        proof {
            use_type_invariant(self);
        }
        self.topics.get(id)
    }

    /// Creates the topic `id` without subscribers. A topic that exists already
    /// is left as it is.
    pub fn create_topic(&mut self, id: String)
        ensures
            final(self)@ == created(old(self)@, id@),
    {
        proof {
            use_type_invariant(&*self);
        }
        if !self.topics.contains_key(&id) {
            let mut topics = StringMap::new();
            std::mem::swap(&mut topics, &mut self.topics);
            let topic = Topic::new(id.clone());
            topics.insert(id, topic);
            self.topics = topics;
            assert(final(self)@ =~= created(old(self)@, id@));
        }
    }

    /// Registers `subscriber_id` in the topic `topic_id` with `sender`. The
    /// topic is created if it does not exist yet.
    pub fn subscribe(&mut self, topic_id: String, subscriber_id: String, sender: ConnectionHandle)
        ensures
            final(self)@ == subscribed(old(self)@, topic_id@, subscriber_id@, sender),
    {
        proof {
            use_type_invariant(&*self);
        }
        let mut topics = StringMap::new();
        std::mem::swap(&mut topics, &mut self.topics);
        let mut topic = match topics.remove(&topic_id) {
            Some(topic) => topic,
            None => Topic::new(topic_id.clone()),
        };
        topic.add_subscriber(subscriber_id, sender);
        topics.insert(topic_id, topic);
        self.topics = topics;
        assert(final(self)@ =~= subscribed(old(self)@, topic_id@, subscriber_id@, sender));
    }

    /// Removes `subscriber_id` from the topic `topic_id`. Nothing changes
    /// where the topic does not exist or does not have the subscriber.
    pub fn unsubscribe(&mut self, topic_id: &String, subscriber_id: &String)
        ensures
            final(self)@ == unsubscribed(old(self)@, topic_id@, subscriber_id@),
    {
        proof {
            use_type_invariant(&*self);
        }
        let mut topics = StringMap::new();
        std::mem::swap(&mut topics, &mut self.topics);
        match topics.remove(topic_id) {
            Some(topic) => {
                let mut topic = topic;
                topic.remove_subscriber(subscriber_id);
                topics.insert(topic_id.clone(), topic);
            },
            None => {},
        }
        self.topics = topics;
        assert(final(self)@ =~= unsubscribed(old(self)@, topic_id@, subscriber_id@));
    }

    /// The deliveries that carry `m` to every subscriber of `topic_id` but
    /// `sender_id`: none where the topic does not exist. The registry stays as
    /// it is.
    pub fn send(&mut self, topic_id: &String, sender_id: &String, m: Message) -> (r: Vec<Delivery>)
        ensures
            final(self)@ == old(self)@,
            delivered(old(self)@, RouterCommandView::Send(topic_id@, sender_id@, m@), r@),
            old(self)@.contains_key(topic_id@) ==> fans_out(
                r@,
                old(self)@[topic_id@],
                Some(sender_id@),
                m@,
            ),
            !old(self)@.contains_key(topic_id@) ==> r@.len() == 0,
    {
        match self.topics.get(topic_id) {
            Some(topic) => topic.send(sender_id, m),
            None => Vec::new(),
        }
    }

    /// The deliveries that carry `m` to every subscriber of `topic_id`: none
    /// where the topic does not exist. The registry stays as it is.
    pub fn broadcast(&mut self, topic_id: &String, m: Message) -> (r: Vec<Delivery>)
        ensures
            final(self)@ == old(self)@,
            delivered(old(self)@, RouterCommandView::Broadcast(topic_id@, m@), r@),
            old(self)@.contains_key(topic_id@) ==> fans_out(r@, old(self)@[topic_id@], None, m@),
            !old(self)@.contains_key(topic_id@) ==> r@.len() == 0,
    {
        match self.topics.get(topic_id) {
            Some(topic) => topic.broadcast(m),
            None => Vec::new(),
        }
    }

    /// Applies one command: the registry moves to the state that the command
    /// leaves behind, and the result holds the deliveries that it calls for.
    pub fn parse_command(&mut self, c: RouterCommand) -> (r: Vec<Delivery>)
        ensures
            final(self)@ == applied(old(self)@, c@),
            delivered(old(self)@, c@, r@),
    {
        match c {
            RouterCommand::CreateTopic(tid) => {
                self.create_topic(tid);
                Vec::new()
            },
            RouterCommand::Subscribe(tid, sid, s) => {
                self.subscribe(tid, sid, s);
                Vec::new()
            },
            RouterCommand::Broadcast(tid, m) => self.broadcast(&tid, m),
            RouterCommand::Send(tid, sid, m) => self.send(&tid, &sid, m),
            RouterCommand::Unsubscribe(tid, sid) => {
                self.unsubscribe(&tid, &sid);
                Vec::new()
            },
        }
    }
}

} // verus!
