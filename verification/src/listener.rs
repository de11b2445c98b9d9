use vstd::prelude::*;
use crate::message::{Message, MessageType};

verus! {

/// The server-role endpoint: the sequential core of the accept side. It
/// holds the run flag the accept loop and the pool workers consult, the
/// worker-thread count the pool is built with, and the bound address kept
/// for the self-directed shutdown.
///
/// The surrounding runtime owns the listening socket, the accept-loop
/// thread and the pool; it reads and changes this state only through these
/// verified operations, under its own sharing.
pub struct Listener {
    running: bool,
    num_thrds: u8,
    addr: String,
}

impl Listener {
    /// The run flag: true until a stop is requested.
    pub closed spec fn running(&self) -> bool {
        self.running
    }

    /// How many pool worker threads a start will create.
    pub closed spec fn num_threads_spec(&self) -> u8 {
        self.num_thrds
    }

    /// The address recorded by the last start attempt.
    pub closed spec fn addr_spec(&self) -> Seq<char> {
        self.addr@
    }

    /// Pure construction: the run flag starts true, no address is bound
    /// yet, and no thread exists until a start.
    pub fn new(num_thrds: u8) -> (l: Listener)
        ensures
            l.running(),
            l.num_threads_spec() == num_thrds,
            l.addr_spec().len() == 0,
    {
        Listener { running: true, num_thrds, addr: String::new() }
    }

    /// Record the address a start attempt targets, for the self-directed
    /// shutdown later. The run flag and the thread count are untouched —
    /// in particular, a start whose bind then fails has changed nothing
    /// about whether the listener is running.
    pub fn record_addr(&mut self, addr: String)
        ensures
            final(self).addr_spec() == addr@,
            final(self).running() == old(self).running(),
            final(self).num_threads_spec() == old(self).num_threads_spec(),
    {
        self.addr = addr;
    }

    /// What the accept loop and the pool workers consult at their safe
    /// points: whether the listener is still meant to run.
    pub fn is_running(&self) -> (r: bool)
        ensures
            r == self.running(),
    {
        self.running
    }

    /// The worker-thread count for the pool a start creates.
    pub fn num_threads(&self) -> (n: u8)
        ensures
            n == self.num_threads_spec(),
    {
        self.num_thrds
    }

    /// The recorded bound address, the target of the shutdown self-connect.
    pub fn bound_addr(&self) -> (a: &String)
        ensures
            a@ == self.addr_spec(),
    {
        &self.addr
    }

    /// The stop decision: lower the run flag, and hand back the `Quit`
    /// message the runtime must post to the listener's own address. The
    /// loopback connection that carries it is the one event a blocking
    /// accept call is guaranteed to wake for; the loop then observes the
    /// lowered flag and exits, and the handler that consumes the `Quit`
    /// terminates quietly.
    pub fn request_stop(&mut self) -> (quit: Message)
        ensures
            !final(self).running(),
            final(self).num_threads_spec() == old(self).num_threads_spec(),
            final(self).addr_spec() == old(self).addr_spec(),
            quit.mt == MessageType::Quit,
    {
        self.running = false;
        let mut quit = Message::new();
        quit.set_type(MessageType::Quit);
        quit
    }
}

} // verus!
