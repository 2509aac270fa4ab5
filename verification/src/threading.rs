//! The state that threads share: a server's list of clients, and an atomic
//! counter.

use vstd::prelude::*;
use std::sync::atomic::AtomicUsize;
use std::sync::atomic::Ordering;

verus! {

/// A server with its address and the clients it knows, oldest first.
pub struct Server {
    pub addr: String,
    pub clients: Vec<String>,
}

impl Server {
    /// A server without an address and without clients.
    pub fn new() -> (server: Self)
        ensures
            server.addr@ == Seq::<char>::empty(),
            server.clients@ == Seq::<String>::empty(),
    {
        Self { addr: String::new(), clients: Vec::new() }
    }

    /// Adds a client behind all the others.
    pub fn push_client(&mut self, data: String)
        ensures
            final(self).addr == old(self).addr,
            final(self).clients@ == old(self).clients@.push(data),
    {
        self.clients.push(data);
    }

    /// Removes the client that was added last, if there is any.
    pub fn pop_client(&mut self)
        ensures
            final(self).addr == old(self).addr,
            final(self).clients@ == if old(self).clients@.len() > 0 {
                old(self).clients@.drop_last()
            } else {
                old(self).clients@
            },
    {
        self.clients.pop();
    }
}

/// Adds one to a counter that threads could share without a lock.
pub fn check_atomic() {
    let counter = AtomicUsize::new(0);
    counter.fetch_add(1, Ordering::Relaxed);
}

} // verus!
