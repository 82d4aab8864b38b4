//! The handles that a caller holds: connection, session and consumer.
//!
//! A handle wraps the number that the broker issued for the resource. A connection is
//! shared by the sessions that are derived from it; a session is held by one owner and
//! may own one producer of its own; a consumer belongs to whoever created it.

use std::sync::Arc;
use vstd::prelude::*;

verus! {

/// A connection to the broker.
#[derive(Debug, Clone)]
pub struct Connection {
    pointer: Arc<usize>,
}

/// A session on a connection, with the producer that the session owns, if it owns one.
#[derive(Debug, Clone)]
pub struct Session {
    pointer: usize,
    producer_pointer: usize,
}

/// A consumer of messages.
#[derive(Debug, Clone, Copy)]
pub struct Consumer {
    pointer: usize,
}

impl Connection {
    /// The number that the broker issued for the connection.
    pub closed spec fn handle_of(self) -> usize {
        *self.pointer
    }

    /// The connection with the given number.
    pub fn new(handle: usize) -> (r: Self)
        ensures
            r.handle_of() == handle,
    {
        Connection { pointer: Arc::new(handle) }
    }

    /// The number that the broker issued for the connection.
    pub fn handle(&self) -> (r: usize)
        ensures
            r == self.handle_of(),
    {
        *self.pointer
    }
}

impl Session {
    /// The number that the broker issued for the session.
    pub closed spec fn handle_of(self) -> usize {
        self.pointer
    }

    /// The number of the producer that the session owns; 0 where it owns none.
    pub closed spec fn producer_of(self) -> usize {
        self.producer_pointer
    }

    /// The session with the given number and producer; 0 stands for no producer.
    pub fn new(handle: usize, producer: usize) -> (r: Self)
        ensures
            r.handle_of() == handle,
            r.producer_of() == producer,
    {
        Session { pointer: handle, producer_pointer: producer }
    }

    /// The number that the broker issued for the session.
    pub fn handle(&self) -> (r: usize)
        ensures
            r == self.handle_of(),
    {
        self.pointer
    }

    /// The number of the producer that the session owns; 0 where it owns none.
    pub fn producer(&self) -> (r: usize)
        ensures
            r == self.producer_of(),
    {
        self.producer_pointer
    }
}

impl Consumer {
    /// The number that the broker issued for the consumer.
    pub closed spec fn handle_of(self) -> usize {
        self.pointer
    }

    /// The consumer with the given number.
    pub fn new(handle: usize) -> (r: Self)
        ensures
            r.handle_of() == handle,
    {
        Consumer { pointer: handle }
    }

    /// The number that the broker issued for the consumer.
    pub fn handle(&self) -> (r: usize)
        ensures
            r == self.handle_of(),
    {
        self.pointer
    }
}

} // verus!
