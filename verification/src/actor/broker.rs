//! Topics, and the broker that hands them out by name.

use tokio::sync::broadcast::{Receiver, Sender};
use vstd::prelude::*;

use crate::actor::model::InternalMessage;
use crate::table::{distinct_names, Table};

verus! {

pub const WEBSOCKET_TOPIC: &'static str = "websocket";

pub const INVENTORY_TOPIC: &'static str = "inventory";

pub const TASK_TOPIC: &'static str = "task";

/// How many messages a topic keeps for a slow subscriber.
pub const TOPIC_CAPACITY: usize = 100;

/// `tokio::sync::broadcast::channel`: a new channel that keeps up to
/// `capacity` messages, rounded up to a power of two, for each subscriber; its
/// first subscription is dropped at once. Every call makes a channel of its
/// own, so the handle is none of a channel that there was before: not of any of
/// the `known` topics, which the call itself does not look at. Nothing else is
/// claimed of it; what a channel does depends on who else holds it.
#[allow(unused_variables)]
#[verifier::external_body]
fn new_channel(capacity: usize, known: &Table<Topic>) -> (sender: Sender<InternalMessage>)
    requires
        0 < capacity <= usize::MAX / 2,
    ensures
        forall|name: Seq<char>| #[trigger]
            known@.contains_key(name) ==> known@[name].sender != sender,
{
    tokio::sync::broadcast::channel(capacity).0
}

/// `tokio::sync::broadcast::Sender::clone`: another handle of the same
/// channel, which does what the first one does.
#[verifier::external_body]
fn clone_sender(sender: &Sender<InternalMessage>) -> (copy: Sender<InternalMessage>)
    ensures
        copy == *sender,
{
    sender.clone()
}

/// `tokio::sync::broadcast::Sender::send`: gives the message to all current
/// subscribers and says how many there are; without any it hands the message
/// back. Whether there are any is not for the arguments to say.
#[verifier::external_body]
fn send(sender: &Sender<InternalMessage>, message: InternalMessage) -> (sent: Result<
    usize,
    InternalMessage,
>)
    ensures
        sent matches Ok(subscribers) ==> subscribers > 0,
        sent matches Err(returned) ==> returned == message,
{
    match sender.send(message) {
        Ok(subscribers) => Ok(subscribers),
        Err(refused) => Err(refused.0),
    }
}

/// `tokio::sync::broadcast::Sender::subscribe`: a subscription to what is sent
/// from now on. Nothing is claimed of it: what it will hear is for others to
/// send. (The call panics where a quarter of
/// all numbers of the machine's word size are subscribed, more than fit into
/// its memory.)
#[verifier::external_body]
fn subscribe_to(sender: &Sender<InternalMessage>) -> (receiver: Receiver<InternalMessage>) {
    sender.subscribe()
}

/// Whether `sender` is what the making of a channel for `capacity` messages may
/// give.
pub closed spec fn made_for(capacity: usize, sender: Sender<InternalMessage>) -> bool {
    exists|known: &Table<Topic>| call_ensures(new_channel, (capacity, known), sender)
}

/// Whether `sent` is what comes of sending `message` over the channel of
/// `sender`.
pub closed spec fn sent_over(
    sender: Sender<InternalMessage>,
    message: InternalMessage,
    sent: Result<usize, InternalMessage>,
) -> bool {
    call_ensures(send, (&sender, message), sent)
}

/// Whether `receiver` is a subscription to the channel of `sender`.
pub closed spec fn subscribed_to(
    sender: Sender<InternalMessage>,
    receiver: Receiver<InternalMessage>,
) -> bool {
    call_ensures(subscribe_to, (&sender,), receiver)
}

/// A named channel over which actors tell each other things.
#[derive(Debug)]
pub struct Topic {
    pub name: String,
    pub sender: Sender<InternalMessage>,
}

impl Clone for Topic {
    fn clone(&self) -> (copy: Self)
        ensures
            copy == *self,
    {
        Topic { name: self.name.clone(), sender: clone_sender(&self.sender) }
    }
}

impl Topic {
    /// A topic with a channel that is none of the `known` topics'.
    fn new(name: String, known: &Table<Topic>) -> (topic: Self)
        ensures
            topic.name == name,
            made_for(TOPIC_CAPACITY, topic.sender),
            is_none_of(known@, topic.sender),
    {
        Topic { name, sender: new_channel(TOPIC_CAPACITY, known) }
    }

    /// Gives `message` to all subscribers and says how many there are. Without
    /// any it hands the message back.
    pub fn publish(&self, message: InternalMessage) -> (sent: Result<usize, InternalMessage>)
        ensures
            sent_over(self.sender, message, sent),
            sent matches Ok(subscribers) ==> subscribers > 0,
            sent matches Err(returned) ==> returned == message,
    {
        send(&self.sender, message)
    }

    /// A subscription to what is published from now on.
    pub fn subscribe(&self) -> (receiver: Receiver<InternalMessage>)
        ensures
            subscribed_to(self.sender, receiver),
    {
        subscribe_to(&self.sender)
    }
}

/// Hands out topics by name. A topic comes to be when it is first asked for.
#[derive(Debug)]
pub struct Broker {
    topics: Table<Topic>,
}

impl View for Broker {
    type V = Map<Seq<char>, Topic>;

    closed spec fn view(&self) -> Map<Seq<char>, Topic> {
        self.topics@
    }
}

/// Whether `sender` is of a channel that is none of the topics'.
pub open spec fn is_none_of(
    topics: Map<Seq<char>, Topic>,
    sender: Sender<InternalMessage>,
) -> bool {
    forall|name: Seq<char>| #[trigger]
        topics.contains_key(name) ==> topics[name].sender != sender
}

/// Whether each topic goes by its own name.
pub open spec fn names_agree(topics: Map<Seq<char>, Topic>) -> bool {
    forall|name: Seq<char>| #[trigger] topics.contains_key(name) ==> topics[name].name@ == name
}

/// Whether `names` are those of all topics, each once.
pub open spec fn lists_all(topics: Map<Seq<char>, Topic>, names: Seq<String>) -> bool {
    &&& forall|name: Seq<char>| #[trigger]
        topics.contains_key(name) <==> exists|i: int|
            0 <= i < names.len() && #[trigger] names[i]@ == name
    &&& forall|i: int, j: int|
        0 <= i < j < names.len() ==> #[trigger] names[i]@ != #[trigger] names[j]@
}

/// Whether no two topics share a channel.
pub open spec fn channels_differ(topics: Map<Seq<char>, Topic>) -> bool {
    forall|one: Seq<char>, two: Seq<char>| #[trigger]
        topics.contains_key(one) && #[trigger] topics.contains_key(two) && one != two
            ==> topics[one].sender != topics[two].sender
}

/// Whether each topic goes by its own name and has a channel of its own, of the
/// size that topics have.
pub open spec fn topics_agree(topics: Map<Seq<char>, Topic>) -> bool {
    &&& names_agree(topics)
    &&& channels_differ(topics)
    &&& forall|name: Seq<char>| #[trigger]
        topics.contains_key(name) ==> made_for(TOPIC_CAPACITY, topics[name].sender)
}

/// What becomes of the topics when the one called `name` is asked for. One that
/// is not there yet gets a channel that is made for it and is no other topic's.
pub open spec fn asked_for(
    before: Map<Seq<char>, Topic>,
    name: Seq<char>,
    after: Map<Seq<char>, Topic>,
    topic: Topic,
) -> bool {
    &&& after.contains_key(name)
    &&& topic == after[name]
    &&& if before.contains_key(name) {
        after == before
    } else {
        &&& after == before.insert(name, topic)
        &&& topic.name@ == name
        &&& made_for(TOPIC_CAPACITY, topic.sender)
        &&& is_none_of(before, topic.sender)
    }
}

impl Broker {
    #[verifier::type_invariant]
    spec fn valid(self) -> bool {
        topics_agree(self.topics@)
    }

    pub fn new() -> (broker: Self)
        ensures
            broker@ == Map::<Seq<char>, Topic>::empty(),
    {
        Broker { topics: Table::new() }
    }

    /// The topic called `name`, which is made if there is none.
    pub fn topic(&mut self, name: &str) -> (topic: Topic)
        ensures
            asked_for(old(self)@, name@, final(self)@, topic),
            topic.name@ == name@,
            topics_agree(final(self)@),
    {
        proof {
            use_type_invariant(&*self);
        }
        let name = name.to_string();
        if let Some(topic) = self.topics.get(&name) {
            return topic.clone();
        }
        let topic = Topic::new(name.clone(), &self.topics);
        let mut topics: Table<Topic> = Table::new();
        std::mem::swap(&mut topics, &mut self.topics);
        topics.insert(name, topic.clone());
        self.topics = topics;
        topic
    }

    /// A subscription to the topic called `name`.
    pub fn subscribe(&mut self, name: &str) -> (receiver: Receiver<InternalMessage>)
        ensures
            asked_for(old(self)@, name@, final(self)@, final(self)@[name@]),
            topics_agree(final(self)@),
            subscribed_to(final(self)@[name@].sender, receiver),
    {
        let topic = self.topic(name);
        topic.subscribe()
    }

    /// The names of all topics, each once.
    pub fn topics(&self) -> (names: Vec<String>)
        ensures
            lists_all(self@, names@),
    {
        let mut names: Vec<String> = Vec::new();
        let n = self.topics.len();
        for i in 0..n
            invariant
                n == self.topics.rows_view().len(),
                distinct_names(self.topics.rows_view()),
                names@.len() == i,
                forall|j: int| 0 <= j < i ==> #[trigger] names@[j] == self.topics.rows_view()[j].0,
        {
            let (name, _topic) = self.topics.row(i);
            names.push(name.clone());
        }
        proof {
            let rows = self.topics.rows_view();
            assert forall|name: Seq<char>|
                self@.contains_key(name) <==> exists|i: int|
                    0 <= i < names@.len() && #[trigger] names@[i]@ == name by {
                if self@.contains_key(name) {
                    let i = crate::table::lemma_named(rows, name);
                    assert(names@[i]@ == name);
                }
                if exists|i: int| 0 <= i < names@.len() && #[trigger] names@[i]@ == name {
                    let i = choose|i: int| 0 <= i < names@.len() && #[trigger] names@[i]@ == name;
                    crate::table::lemma_row(rows, i);
                }
            }
            assert forall|i: int, j: int| 0 <= i < j < names@.len() implies #[trigger] names@[i]@
                != #[trigger] names@[j]@ by {
                assert(rows[i].0@ != rows[j].0@);
            }
        }
        names
    }
}

impl Default for Broker {
    fn default() -> (broker: Self)
        ensures
            broker@ == Map::<Seq<char>, Topic>::empty(),
    {
        Broker::new()
    }
}

/// Whether `topics` were handed out for `names`, one after the other, while the
/// broker's topics went through `states`.
pub open spec fn asked_in_turn(
    states: Seq<Map<Seq<char>, Topic>>,
    names: Seq<Seq<char>>,
    topics: Seq<Topic>,
) -> bool {
    &&& states.len() == names.len() + 1
    &&& topics.len() == names.len()
    &&& forall|i: int|
        #![trigger names[i]]
        0 <= i < names.len() ==> asked_for(states[i], names[i], states[i + 1], topics[i])
}

proof fn lemma_topic_stays(
    states: Seq<Map<Seq<char>, Topic>>,
    names: Seq<Seq<char>>,
    topics: Seq<Topic>,
    i: int,
    j: int,
)
    requires
        asked_in_turn(states, names, topics),
        0 <= i < j <= names.len(),
    ensures
        states[j].contains_key(names[i]),
        states[j][names[i]] == topics[i],
    decreases j,
{
    assert(asked_for(states[j - 1], names[j - 1], states[j], topics[j - 1]));
    if i < j - 1 {
        lemma_topic_stays(states, names, topics, i, j - 1);
    }
}

/// Who asks for a topic again gets the same channel, whatever topics have been
/// asked for in between: a topic is never made anew.
pub proof fn law_same_name_same_topic(
    states: Seq<Map<Seq<char>, Topic>>,
    names: Seq<Seq<char>>,
    topics: Seq<Topic>,
    i: int,
    j: int,
)
    requires
        asked_in_turn(states, names, topics),
        0 <= i <= j < names.len(),
        names[i] == names[j],
    ensures
        topics[i] == topics[j],
{
    if i < j {
        lemma_topic_stays(states, names, topics, i, j);
        assert(asked_for(states[j], names[j], states[j + 1], topics[j]));
    }
}

/// A subscription to a topic is one to the channel that whoever asks for that
/// topic later publishes on.
pub proof fn law_subscribers_share_the_channel_of_publishers(
    states: Seq<Map<Seq<char>, Topic>>,
    names: Seq<Seq<char>>,
    topics: Seq<Topic>,
    i: int,
    receiver: Receiver<InternalMessage>,
    j: int,
    message: InternalMessage,
    sent: Result<usize, InternalMessage>,
)
    requires
        asked_in_turn(states, names, topics),
        0 <= i <= j < names.len(),
        names[i] == names[j],
        subscribed_to(states[i + 1][names[i]].sender, receiver),
        sent_over(topics[j].sender, message, sent),
    ensures
        subscribed_to(topics[j].sender, receiver),
        sent_over(topics[i].sender, message, sent),
{
    law_same_name_same_topic(states, names, topics, i, j);
    assert(asked_for(states[i], names[i], states[i + 1], topics[i]));
}

/// Who asks for topics by different names gets different channels: what is
/// published on one is not published on the other.
pub proof fn law_other_name_other_channel(
    states: Seq<Map<Seq<char>, Topic>>,
    names: Seq<Seq<char>>,
    topics: Seq<Topic>,
    i: int,
    j: int,
)
    requires
        asked_in_turn(states, names, topics),
        topics_agree(states[0]),
        0 <= i < j < names.len(),
        names[i] != names[j],
    ensures
        topics[i].sender != topics[j].sender,
{
    lemma_topic_stays(states, names, topics, i, j + 1);
    lemma_topics_agree(states, names, topics, j + 1);
    assert(asked_for(states[j], names[j], states[j + 1], topics[j]));
    assert(states[j + 1].contains_key(names[i]) && states[j + 1].contains_key(names[j]));
}

proof fn lemma_topics_agree(
    states: Seq<Map<Seq<char>, Topic>>,
    names: Seq<Seq<char>>,
    topics: Seq<Topic>,
    n: int,
)
    requires
        asked_in_turn(states, names, topics),
        topics_agree(states[0]),
        0 <= n <= names.len(),
    ensures
        topics_agree(states[n]),
    decreases n,
{
    if n > 0 {
        lemma_topics_agree(states, names, topics, n - 1);
        assert(asked_for(states[n - 1], names[n - 1], states[n], topics[n - 1]));
        law_topics_keep_apart(states[n - 1], names[n - 1], states[n], topics[n - 1]);
    }
}

/// Asking for a topic changes no other topic.
pub proof fn law_other_topics_stay(
    before: Map<Seq<char>, Topic>,
    name: Seq<char>,
    after: Map<Seq<char>, Topic>,
    topic: Topic,
    other: Seq<char>,
)
    requires
        asked_for(before, name, after, topic),
        other != name,
    ensures
        after.contains_key(other) == before.contains_key(other),
        before.contains_key(other) ==> after[other] == before[other],
{
}

/// Topics go by their own names and have channels of their own, however many
/// have been asked for.
pub proof fn law_topics_keep_apart(
    before: Map<Seq<char>, Topic>,
    name: Seq<char>,
    after: Map<Seq<char>, Topic>,
    topic: Topic,
)
    requires
        topics_agree(before),
        asked_for(before, name, after, topic),
    ensures
        topics_agree(after),
        topic.name@ == name,
{
}

} // verus!