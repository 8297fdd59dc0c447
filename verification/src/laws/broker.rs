//! What topics the broker hands out.

use tokio::sync::broadcast::Receiver;
use vstd::prelude::*;

use crate::actor::broker::{
    made_for, sent_over, subscribed_to, Broker, Topic, INVENTORY_TOPIC, TASK_TOPIC, TOPIC_CAPACITY,
    WEBSOCKET_TOPIC,
};
use crate::actor::model::InternalMessage;

verus! {

/// The topic that is handed out is called as it was asked for, and is there from
/// then on.
pub proof fn law_topic_is_called_as_asked(broker: &mut Broker, name: &str, topic: Topic)
    requires
        call_ensures(Broker::topic, (broker, name), topic),
    ensures
        topic.name@ == name@,
        final(broker)@.contains_key(name@),
        final(broker)@[name@] == topic,
        old(broker)@.contains_key(name@) ==> final(broker)@ == old(broker)@,
        forall|other: Seq<char>|
            other != name@ ==> (#[trigger] final(broker)@.contains_key(other) <==> old(broker)@.contains_key(other)),
        forall|other: Seq<char>| #[trigger]
            old(broker)@.contains_key(other) ==> final(broker)@[other] == old(broker)@[other],
        !old(broker)@.contains_key(name@) ==> made_for(100, topic.sender) && forall|
            other: Seq<char>,
        | #[trigger]
            old(broker)@.contains_key(other) ==> old(broker)@[other].sender != topic.sender,
{
}

/// Asking for two names gives two channels, and asking for one again gives the
/// same.
pub proof fn law_names_stand_for_channels(
    first: &mut Broker,
    one: &str,
    topic_one: Topic,
    second: &mut Broker,
    two: &str,
    topic_two: Topic,
)
    requires
        call_ensures(Broker::topic, (first, one), topic_one),
        *old(second) == *final(first),
        call_ensures(Broker::topic, (second, two), topic_two),
    ensures
        one@ == two@ ==> topic_one == topic_two,
        one@ != two@ ==> topic_one.sender != topic_two.sender,
{
}

/// A subscription is one to the channel that is published on under the same
/// name.
pub proof fn law_subscription_hears_its_topic(
    first: &mut Broker,
    name: &str,
    receiver: Receiver<InternalMessage>,
    second: &mut Broker,
    topic: Topic,
    message: InternalMessage,
    sent: Result<usize, InternalMessage>,
    other: Receiver<InternalMessage>,
)
    requires
        call_ensures(Broker::subscribe, (first, name), receiver),
        *old(second) == *final(first),
        call_ensures(Broker::topic, (second, name), topic),
        call_ensures(Topic::publish, (&topic, message), sent),
        call_ensures(Topic::subscribe, (&topic,), other),
    ensures
        subscribed_to(topic.sender, receiver),
        subscribed_to(topic.sender, other),
        sent_over(topic.sender, message, sent),
        sent matches Ok(subscribers) ==> subscribers > 0,
        sent matches Err(returned) ==> returned == message,
{
}

/// The names of the topics are those of all topics, each once.
pub proof fn law_all_topics_are_named(broker: &Broker, names: Vec<String>)
    requires
        call_ensures(Broker::topics, (broker,), names),
    ensures
        forall|name: Seq<char>| #[trigger]
            broker@.contains_key(name) ==> exists|i: int|
                0 <= i < names@.len() && #[trigger] names@[i]@ == name,
        forall|i: int| 0 <= i < names@.len() ==> broker@.contains_key(#[trigger] names@[i]@),
        forall|i: int, j: int|
            0 <= i < j < names@.len() ==> #[trigger] names@[i]@ != #[trigger] names@[j]@,
{
    assert forall|i: int| 0 <= i < names@.len() implies broker@.contains_key(
        #[trigger] names@[i]@,
    ) by {
    }
}

/// A new broker has no topic.
pub proof fn law_new_broker_has_no_topic(broker: Broker)
    requires
        call_ensures(Broker::new, (), broker),
    ensures
        forall|name: Seq<char>| !broker@.contains_key(name),
{
}

/// What the topics of the game are called, and how many messages one keeps.
pub proof fn law_topics_of_the_game()
    ensures
        WEBSOCKET_TOPIC@ == "websocket"@,
        INVENTORY_TOPIC@ == "inventory"@,
        TASK_TOPIC@ == "task"@,
        TOPIC_CAPACITY == 100,
        "inventory"@ != "task"@,
        "inventory"@ != "websocket"@,
        "task"@ != "websocket"@,
{
    reveal_strlit("websocket");
    reveal_strlit("inventory");
    reveal_strlit("task");
    assert("inventory"@[0] == 'i');
    assert("task"@[0] == 't');
    assert("websocket"@[0] == 'w');
}

} // verus!
