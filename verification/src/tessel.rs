//! The top-level board handle: it owns the two module ports and hands the
//! pair out exactly once, so no two subsystems can end up driving the
//! same port.

use vstd::prelude::*;

use crate::port::Port;

verus! {

/// The board: constructed once at process start, it holds the two module
/// ports until some subsystem takes them.
pub struct Tessel {
    ports: Option<(Port, Port)>,
}

impl Tessel {
    /// Whether the port pair is still available.
    pub closed spec fn has_ports(&self) -> bool {
        self.ports is Some
    }

    /// Whether the held ports are untouched: empty transport queues and
    /// every pin available.
    pub closed spec fn ports_fresh(&self) -> bool {
        match self.ports {
            Some(pair) => {
                &&& pair.0.transport.out_bytes() == Seq::<u8>::empty()
                &&& pair.0.transport.in_bytes() == Seq::<u8>::empty()
                &&& pair.0.registry.locked_set() == Set::<usize>::empty()
                &&& pair.1.transport.out_bytes() == Seq::<u8>::empty()
                &&& pair.1.transport.in_bytes() == Seq::<u8>::empty()
                &&& pair.1.registry.locked_set() == Set::<usize>::empty()
            },
            None => true,
        }
    }

    /// A board whose two ports are fresh and not yet taken.
    pub fn new() -> (t: Tessel)
        ensures
            t.has_ports(),
            t.ports_fresh(),
    {
        Tessel { ports: Some((Port::new(), Port::new())) }
    }

    /// Takes the port pair. The first call returns both ports; every
    /// later call returns nothing, which is how "already taken" is
    /// reported.
    pub fn ports(&mut self) -> (r: Option<(Port, Port)>)
        ensures
            !final(self).has_ports(),
            r is Some <==> old(self).has_ports(),
            old(self).has_ports() && old(self).ports_fresh() ==> (match r {
                Some(pair) => {
                    &&& pair.0.transport.out_bytes() == Seq::<u8>::empty()
                    &&& pair.0.transport.in_bytes() == Seq::<u8>::empty()
                    &&& pair.0.registry.locked_set() == Set::<usize>::empty()
                    &&& pair.1.transport.out_bytes() == Seq::<u8>::empty()
                    &&& pair.1.transport.in_bytes() == Seq::<u8>::empty()
                    &&& pair.1.registry.locked_set() == Set::<usize>::empty()
                },
                None => false,
            }),
    {
        self.ports.take()
    }
}

} // verus!
