//! One connection and the requests on it. When the connection ends, every
//! request on it is told, so that no child outlives its client.

use crate::pipeline::{lemma_step, next, well_formed, Child, Command, Event, Exchange, Phase};
use vstd::prelude::*;

verus! {

/// A connection with the requests that came over it, in their order.
pub struct Connection {
    exchanges: Vec<Exchange>,
    open: bool,
}

pub struct ConnectionView {
    pub exchanges: Seq<Exchange>,
    /// Whether the connection has not ended.
    pub open: bool,
}

impl View for Connection {
    type V = ConnectionView;

    closed spec fn view(&self) -> ConnectionView {
        ConnectionView { exchanges: self.exchanges@, open: self.open }
    }
}

/// Whether every request on the connection is in a state that the rules can
/// reach.
pub open spec fn all_well_formed(exchanges: Seq<Exchange>) -> bool {
    forall|i: int| 0 <= i < exchanges.len() ==> well_formed(#[trigger] exchanges[i])
}

/// The requests after an event was handed to the one with this number, and
/// the command for that request. A number that no request has changes
/// nothing.
pub open spec fn delivered(exchanges: Seq<Exchange>, id: usize, event: Event) -> (
    Seq<Exchange>,
    Command,
) {
    if id < exchanges.len() {
        (exchanges.update(id as int, next(exchanges[id as int], event).0), next(
            exchanges[id as int],
            event,
        ).1)
    } else {
        (exchanges, Command::Nothing)
    }
}

/// What a child writes goes into the body of its own request and of no
/// other: bytes read from the child of one request are passed on, all of
/// them and for that request, exactly while its head is sent and its body
/// has not ended; the command to spawn is given at most once for a request;
/// and whatever is handed to one request leaves every other request as it
/// was.
pub proof fn lemma_output_to_own_body(
    exchanges: Seq<Exchange>,
    id: usize,
    len: usize,
    event: Event,
    other: int,
)
    requires
        all_well_formed(exchanges),
        id < exchanges.len(),
        0 <= other < exchanges.len(),
        other != id,
        len > 0,
    ensures
        delivered(exchanges, id, Event::Output { len }).1 == (if exchanges[id as int].phase
            == Phase::Headed {
            Command::Forward { len }
        } else {
            Command::Nothing
        }),
        delivered(exchanges, id, event).1 is Forward ==> event is Output && exchanges[id as int].phase
            == Phase::Headed,
        delivered(exchanges, id, event).1 == Command::Spawn ==> exchanges[id as int].child
            == Child::Absent && exchanges[id as int].phase != Phase::Spawned,
        delivered(exchanges, id, event).0[other] == exchanges[other],
        delivered(exchanges, id, event).0.len() == exchanges.len(),
{
}

/// Whether the request is to get `SIGTERM` when the connection ends.
pub open spec fn to_signal(s: Exchange) -> bool {
    next(s, Event::Shutdown).1 == Command::Terminate
}

/// The requests whose child is to get `SIGTERM` when the connection ends,
/// by their numbers in rising order.
pub open spec fn signalled(exchanges: Seq<Exchange>) -> Seq<usize>
    decreases exchanges.len(),
{
    if exchanges.len() == 0 {
        Seq::empty()
    } else if to_signal(exchanges.last()) {
        signalled(exchanges.drop_last()).push((exchanges.len() - 1) as usize)
    } else {
        signalled(exchanges.drop_last())
    }
}

/// The requests after the end of the connection was told to each.
pub open spec fn shut_down(exchanges: Seq<Exchange>) -> Seq<Exchange> {
    Seq::new(exchanges.len(), |i: int| next(exchanges[i], Event::Shutdown).0)
}

/// Whether no request holds an open channel or a child that is not reaped.
pub open spec fn settled(exchanges: Seq<Exchange>) -> bool {
    forall|i: int|
        0 <= i < exchanges.len() ==> {
            let s = #[trigger] exchanges[i];
            s.fds == crate::pipeline::no_fds() && (s.child == Child::Absent || s.child
                == Child::Reaped)
        }
}

/// When a connection ends, every child on it that runs is among those to
/// get `SIGTERM`, and afterwards no child on it runs unsignalled and no
/// request on it holds an open channel to a child.
pub proof fn lemma_no_child_left_running(exchanges: Seq<Exchange>, i: int)
    requires
        all_well_formed(exchanges),
        0 <= i < exchanges.len(),
        exchanges.len() <= usize::MAX,
    ensures
        exchanges[i].child == Child::Running <==> signalled(exchanges).contains(i as usize),
        shut_down(exchanges)[i].child != Child::Running,
        shut_down(exchanges)[i].child != Child::Absent ==> shut_down(exchanges)[i].fds
            == crate::pipeline::no_fds(),
        well_formed(shut_down(exchanges)[i]),
    decreases exchanges.len(),
{
    lemma_step(exchanges[i], Event::Shutdown);
    lemma_signalled_below(exchanges);
    let rest = exchanges.drop_last();
    let n = exchanges.len() - 1;
    if i < n {
        assert(rest[i] == exchanges[i]);
        assert forall|k: int| 0 <= k < rest.len() implies well_formed(#[trigger] rest[k]) by {
            assert(rest[k] == exchanges[k]);
        }
        lemma_no_child_left_running(rest, i);
        lemma_signalled_below(rest);
        if to_signal(exchanges.last()) {
            let before = signalled(rest);
            let all = before.push(n as usize);
            if before.contains(i as usize) {
                let at = choose|at: int| 0 <= at < before.len() && before[at] == i as usize;
                assert(all[at] == i as usize);
            }
            if all.contains(i as usize) {
                let at = choose|at: int| 0 <= at < all.len() && all[at] == i as usize;
                assert(at < before.len());
                assert(before[at] == i as usize);
            }
        }
    } else {
        if to_signal(exchanges.last()) {
            let all = signalled(rest).push(n as usize);
            assert(all[all.len() - 1] == n as usize);
        } else {
            lemma_signalled_below(rest);
        }
    }
}

/// The numbers of the requests to signal are numbers of requests.
proof fn lemma_signalled_below(exchanges: Seq<Exchange>)
    requires
        exchanges.len() <= usize::MAX,
    ensures
        forall|k: int|
            0 <= k < signalled(exchanges).len() ==> (#[trigger] signalled(exchanges)[k])
                < exchanges.len(),
    decreases exchanges.len(),
{
    if exchanges.len() > 0 {
        let rest = exchanges.drop_last();
        lemma_signalled_below(rest);
        let all = signalled(exchanges);
        assert forall|k: int| 0 <= k < all.len() implies (#[trigger] all[k]) < exchanges.len() by {
            if k < signalled(rest).len() {
                assert(all[k] == signalled(rest)[k]);
            }
        }
    }
}

impl Connection {
    /// A connection just accepted, with no request on it.
    pub fn new() -> (c: Connection)
        ensures
            c@.open,
            c@.exchanges.len() == 0,
    {
        Connection { exchanges: Vec::new(), open: true }
    }

    /// Whether the connection has not ended.
    pub fn is_open(&self) -> (open: bool)
        ensures
            open == self@.open,
    {
        self.open
    }

    /// How many requests came over the connection.
    pub fn len(&self) -> (n: usize)
        ensures
            n == self@.exchanges.len(),
    {
        self.exchanges.len()
    }

    /// The state of a request, by its number.
    pub fn exchange(&self, id: usize) -> (s: Option<Exchange>)
        ensures
            s == (if id < self@.exchanges.len() {
                Some(self@.exchanges[id as int])
            } else {
                None
            }),
    {
        if id < self.exchanges.len() {
            Some(self.exchanges[id])
        } else {
            None
        }
    }

    /// Takes a new request on the connection and gives its number; none
    /// where the connection has ended.
    pub fn begin(&mut self) -> (id: Option<usize>)
        ensures
            old(self)@.open ==> id == Some(old(self)@.exchanges.len() as usize) && final(self)@
                == (ConnectionView {
                exchanges: old(self)@.exchanges.push(crate::pipeline::initial()),
                open: true,
            }),
            !old(self)@.open ==> id.is_none() && final(self)@ == old(self)@,
    {
        if self.open {
            let id = self.exchanges.len();
            self.exchanges.push(Exchange::new());
            Some(id)
        } else {
            None
        }
    }

    /// Hands an event to the request with this number and says what to do
    /// for that request. No other request changes: what one child writes
    /// reaches the body of its own request alone.
    pub fn deliver(&mut self, id: usize, event: Event) -> (command: Command)
        ensures
            final(self)@.open == old(self)@.open,
            (final(self)@.exchanges, command) == delivered(old(self)@.exchanges, id, event),
            all_well_formed(old(self)@.exchanges) ==> all_well_formed(final(self)@.exchanges),
    {
        if id < self.exchanges.len() {
            let command = self.exchanges[id].step(event);
            assert(self.exchanges@ =~= delivered(old(self).exchanges@, id, event).0);
            command
        } else {
            Command::Nothing
        }
    }

    /// Ends the connection: tells every request, and gives the numbers of
    /// those whose child is to get `SIGTERM`.
    pub fn close(&mut self) -> (signal: Vec<usize>)
        ensures
            !final(self)@.open,
            final(self)@.exchanges == shut_down(old(self)@.exchanges),
            signal@ == signalled(old(self)@.exchanges),
    {
        let ghost before = self.exchanges@;
        let n = self.exchanges.len();
        let mut signal: Vec<usize> = Vec::new();
        let mut i: usize = 0;
        assert(before.take(0) =~= Seq::empty());
        while i < n
            invariant
                i <= n,
                n == before.len(),
                self.exchanges@.len() == n,
                forall|k: int|
                    0 <= k < i ==> self.exchanges@[k] == next(#[trigger] before[k], Event::Shutdown).0,
                forall|k: int| i <= k < n ==> self.exchanges@[k] == before[k],
                signal@ == signalled(before.take(i as int)),
            decreases n - i,
        {
            assert(before.take(i + 1).drop_last() =~= before.take(i as int));
            assert(before.take(i + 1).last() == before[i as int]);
            let command = self.exchanges[i].step(Event::Shutdown);
            if command == Command::Terminate {
                signal.push(i);
            }
            i = i + 1;
        }
        assert(before.take(n as int) =~= before);
        assert(self.exchanges@ =~= shut_down(before));
        self.open = false;
        signal
    }

    /// Whether no request on the connection holds an open channel or a child
    /// that is not reaped.
    pub fn is_settled(&self) -> (all: bool)
        ensures
            all == settled(self@.exchanges),
    {
        let mut i: usize = 0;
        while i < self.exchanges.len()
            invariant
                i <= self.exchanges.len(),
                forall|k: int|
                    0 <= k < i ==> {
                        let s = #[trigger] self.exchanges@[k];
                        s.fds == crate::pipeline::no_fds() && (s.child == Child::Absent || s.child
                            == Child::Reaped)
                    },
            decreases self.exchanges.len() - i,
        {
            if !self.exchanges[i].is_settled() {
                return false;
            }
            i = i + 1;
        }
        true
    }
}

/// How serving a connection ended, where it ended in an error.
#[derive(Debug, Clone, Copy, PartialEq, Eq, Structural)]
pub enum ServeError {
    /// The client hung up in the middle of a message.
    IncompleteMessage,
    /// The socket was no longer connected when it was shut down.
    NotConnected,
    /// Any other error of the HTTP layer.
    Other,
}

/// What to do about an error that ended a connection. The connection is
/// closed and its children are told in either case.
#[derive(Debug, Clone, Copy, PartialEq, Eq, Structural)]
pub enum Ending {
    /// Say nothing: the client went away.
    Quiet,
    /// Log the error.
    Logged,
}

/// What to do about an error that ended a connection: a client that hung up
/// is passed over, and so is a Unix-domain socket that was not connected
/// any more when it was shut down; everything else is logged.
pub open spec fn ending_of(error: ServeError, unix: bool) -> Ending {
    match error {
        ServeError::IncompleteMessage => Ending::Quiet,
        ServeError::NotConnected => if unix {
            Ending::Quiet
        } else {
            Ending::Logged
        },
        ServeError::Other => Ending::Logged,
    }
}

/// What to do about an error that ended a connection.
pub fn ending(error: ServeError, unix: bool) -> (e: Ending)
    ensures
        e == ending_of(error, unix),
{
    if error == ServeError::IncompleteMessage || (error == ServeError::NotConnected && unix) {
        Ending::Quiet
    } else {
        Ending::Logged
    }
}

/// Why a connection could not be accepted.
#[derive(Debug, Clone, Copy, PartialEq, Eq, Structural)]
pub enum AcceptError {
    AddressInUse,
    TooManyFiles,
    Other,
}

/// What the accept loop does about an error.
#[derive(Debug, Clone, Copy, PartialEq, Eq, Structural)]
pub enum Verdict {
    /// Log the error and accept on.
    Continue,
    /// Give up with a non-zero exit status.
    Fatal,
}

/// What the accept loop does about an error: the passing conditions are
/// logged and the loop goes on, anything else ends it.
pub open spec fn verdict_of(error: AcceptError) -> Verdict {
    match error {
        AcceptError::AddressInUse | AcceptError::TooManyFiles => Verdict::Continue,
        AcceptError::Other => Verdict::Fatal,
    }
}

/// What the accept loop does about an error.
pub fn verdict(error: AcceptError) -> (v: Verdict)
    ensures
        v == verdict_of(error),
{
    match error {
        AcceptError::Other => Verdict::Fatal,
        _ => Verdict::Continue,
    }
}

} // verus!
