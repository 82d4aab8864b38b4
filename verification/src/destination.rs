//! Destinations: the addresses that messages are sent to and received from.

use vstd::prelude::*;
use vstd::std_specs::cmp::PartialEqSpecImpl;
use crate::c_binding::tibemsDestinationType;

verus! {

/// Mathematical model of a [`Destination`].
pub enum DestinationView {
    /// A queue with the given name.
    Queue(Seq<char>),
    /// A topic with the given name.
    Topic(Seq<char>),
}

/// Addressable target for messages: a queue or a topic, each with a name.
#[derive(Debug)]
pub enum Destination {
    /// Point-to-point destination.
    Queue(String),
    /// Publish/subscribe destination.
    Topic(String),
}

impl View for Destination {
    type V = DestinationView;

    open spec fn view(&self) -> DestinationView {
        match self {
            Destination::Queue(name) => DestinationView::Queue(name@),
            Destination::Topic(name) => DestinationView::Topic(name@),
        }
    }
}

/// The model of a destination that may be absent.
pub open spec fn destination_view(d: Option<Destination>) -> Option<DestinationView> {
    match d {
        Some(d) => Some(d@),
        None => None,
    }
}

impl Clone for Destination {
    fn clone(&self) -> (r: Self)
        ensures
            r == *self,
    {
        match self {
            Destination::Queue(name) => Destination::Queue(name.clone()),
            Destination::Topic(name) => Destination::Topic(name.clone()),
        }
    }
}

impl PartialEq for Destination {
    /// Two destinations are equal when they are of the same kind and have the same name.
    fn eq(&self, other: &Self) -> (r: bool) {
        match self {
            Destination::Queue(a) => match other {
                Destination::Queue(b) => *a == *b,
                Destination::Topic(_) => false,
            },
            Destination::Topic(a) => match other {
                Destination::Queue(_) => false,
                Destination::Topic(b) => *a == *b,
            },
        }
    }
}

impl PartialEqSpecImpl for Destination {
    open spec fn obeys_eq_spec() -> bool {
        true
    }

    open spec fn eq_spec(&self, other: &Self) -> bool {
        self@ == other@
    }
}

impl Eq for Destination {

}

impl Destination {
    /// The name of the queue or topic.
    pub open spec fn name_of(self) -> Seq<char> {
        match self {
            Destination::Queue(name) => name@,
            Destination::Topic(name) => name@,
        }
    }

    /// The kind of the destination, as the broker library names it.
    pub open spec fn kind_of(self) -> tibemsDestinationType {
        match self {
            Destination::Queue(_) => tibemsDestinationType::TIBEMS_QUEUE,
            Destination::Topic(_) => tibemsDestinationType::TIBEMS_TOPIC,
        }
    }

    /// The name of the queue or topic.
    pub fn name(&self) -> (r: &String)
        ensures
            r@ == self.name_of(),
    {
        match self {
            Destination::Queue(name) => name,
            Destination::Topic(name) => name,
        }
    }

    /// The kind of the destination.
    pub fn kind(&self) -> (r: tibemsDestinationType)
        ensures
            r == self.kind_of(),
    {
        match self {
            Destination::Queue(_) => tibemsDestinationType::TIBEMS_QUEUE,
            Destination::Topic(_) => tibemsDestinationType::TIBEMS_TOPIC,
        }
    }

    /// Whether the destination is a topic.
    pub fn is_topic(&self) -> (r: bool)
        ensures
            r == (self is Topic),
    {
        match self {
            Destination::Queue(_) => false,
            Destination::Topic(_) => true,
        }
    }

    /// The destination of the given kind and name; none for a kind that is neither
    /// queue nor topic.
    pub fn from_kind(kind: tibemsDestinationType, name: String) -> (r: Option<Destination>)
        ensures
            r == match kind {
                tibemsDestinationType::TIBEMS_QUEUE => Some(Destination::Queue(name)),
                tibemsDestinationType::TIBEMS_TOPIC => Some(Destination::Topic(name)),
                _ => None,
            },
    {
        match kind {
            tibemsDestinationType::TIBEMS_QUEUE => Some(Destination::Queue(name)),
            tibemsDestinationType::TIBEMS_TOPIC => Some(Destination::Topic(name)),
            _ => None,
        }
    }
}

} // verus!
