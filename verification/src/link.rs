//! A client's line to the daemon, and what has gone over it. Every request goes through
//! `Link::send`, which writes it into the link's log; so what a contract says of the log, it
//! says of everything that was sent.

use crate::client::ClientError;
use crate::protocol::{Request, Response};
use vstd::prelude::*;

verus! {

/// What can happen on a line to the daemon.
pub enum Event {
    /// A connection was set up.
    Opened,
    /// The request was sent, and this came back.
    Sent { request: Request, reply: Result<Response, ClientError> },
}

/// A line to the daemon. `S` sends a request over the connection and gives what came back.
pub struct Link<S> {
    exchange: S,
    log: Ghost<Seq<Event>>,
}

impl<S> Link<S> {
    /// What sends the requests.
    pub closed spec fn exchange(&self) -> S {
        self.exchange
    }

    /// What has happened on the line so far.
    pub closed spec fn log(&self) -> Seq<Event> {
        self.log@
    }

    /// A line over a connection that has just been set up.
    pub fn new(exchange: S) -> (res: Link<S>)
        ensures
            res.exchange() == exchange,
            res.log() == seq![Event::Opened],
    {
        let ghost log = seq![Event::Opened];
        Link { exchange, log: Ghost(log) }
    }

    /// Goes on over a new connection.
    pub fn renew(&mut self, exchange: S)
        ensures
            final(self).exchange() == exchange,
            final(self).log() == old(self).log().push(Event::Opened),
    {
        self.exchange = exchange;
        self.log = Ghost(self.log@.push(Event::Opened));
    }
}

impl<S: Fn(&Request) -> Result<Response, ClientError>> Link<S> {
    /// Any request can be sent.
    pub open spec fn ready(&self) -> bool {
        forall|request: &Request| #[trigger] call_requires(self.exchange(), (request,))
    }

    /// Sends the request and gives what came back.
    pub fn send(&mut self, request: &Request) -> (reply: Result<Response, ClientError>)
        requires
            old(self).ready(),
        ensures
            final(self).exchange() == old(self).exchange(),
            final(self).log() == old(self).log().push(Event::Sent { request: *request, reply }),
            call_ensures(old(self).exchange(), (request,), reply),
    {
        let exchange = &self.exchange;
        let reply = exchange(request);
        self.log = Ghost(self.log@.push(Event::Sent { request: *request, reply }));
        reply
    }
}

/// The lines that were given up.
pub struct ClosedLinks {
    logs: Ghost<Seq<Seq<Event>>>,
}

impl ClosedLinks {
    /// What had happened on each of them.
    pub closed spec fn logs(&self) -> Seq<Seq<Event>> {
        self.logs@
    }

    /// No line has been given up yet.
    pub fn new() -> (res: ClosedLinks)
        ensures
            res.logs() == Seq::<Seq<Event>>::empty(),
    {
        ClosedLinks { logs: Ghost(Seq::empty()) }
    }

    /// Gives a line up.
    pub fn close<S>(&mut self, link: Link<S>)
        ensures
            final(self).logs() == old(self).logs().push(link.log()),
    {
        self.logs = Ghost(self.logs@.push(link.log@));
    }
}

} // verus!
