//! The life of one request: from the accepted connection through the child
//! process and its four byte channels to the completed response. The rules
//! are a function from state and event to next state and command; whoever
//! drives the I/O carries out the command and reports what happened next.

use vstd::prelude::*;

verus! {

/// How far a request has come.
#[derive(Debug, Clone, Copy, PartialEq, Eq, Structural)]
pub enum Phase {
    /// The connection is accepted; no request head is parsed yet.
    Accepted,
    /// The request head is parsed.
    HeadParsed,
    /// The request is answered with a file; no child is spawned.
    StaticHit,
    /// The child runs; its response descriptor is being read.
    Spawned,
    /// The response descriptor is read to its end.
    MetaDrained,
    /// The response head is sent.
    Headed,
    /// The response body has ended.
    Bodied,
    /// The request is done.
    Completed,
    /// The request was given up because the connection went away.
    Aborted,
}

/// How far the flow from the client to the child has come.
#[derive(Debug, Clone, Copy, PartialEq, Eq, Structural)]
pub enum Inbound {
    /// There is no child yet.
    Idle,
    /// The request descriptor is being written to the child.
    Describing,
    /// The request body is being copied to the child's standard input.
    Copying,
    /// Both channels to the child are closed.
    Done,
}

/// What is known of the child process.
#[derive(Debug, Clone, Copy, PartialEq, Eq, Structural)]
pub enum Child {
    /// None was spawned.
    Absent,
    /// It was spawned and no signal was sent to it.
    Running,
    /// `SIGTERM` was sent to it.
    Signalled,
    /// It has exited and its status was collected.
    Reaped,
}

/// Which of the file descriptors that the server opens for a request are
/// open: its own ends of the four channels, and the ends of the two pipes
/// that the child inherits.
#[derive(Debug, Clone, Copy, PartialEq, Eq, Structural)]
pub struct Fds {
    /// The write end of the child's standard input.
    pub stdin: bool,
    /// The read end of the child's standard output.
    pub stdout: bool,
    /// The write end of the request descriptor's pipe.
    pub request_meta: bool,
    /// The read end of the response descriptor's pipe.
    pub response_meta: bool,
    /// The read end of the request descriptor's pipe, which the child has as
    /// its descriptor 3.
    pub child_request_meta: bool,
    /// The write end of the response descriptor's pipe, which the child has
    /// as its descriptor 4.
    pub child_response_meta: bool,
}

/// How a write or a copy ended.
#[derive(Debug, Clone, Copy, PartialEq, Eq, Structural)]
pub enum IoOutcome {
    Done,
    /// The child had closed its end.
    BrokenPipe,
    /// Any other error.
    Failed,
}

/// What happened.
#[derive(Debug, Clone, Copy, PartialEq, Eq, Structural)]
pub enum Event {
    /// The request head is parsed. `static_root` says whether files are
    /// served from a directory.
    HeadParsed { static_root: bool },
    /// The static resolver has answered.
    StaticResolved { found: bool },
    /// The child is spawned with its four channels.
    Spawned,
    /// The child could not be spawned.
    SpawnFailed,
    /// The write of the request descriptor has ended. `body_empty` says
    /// whether the request has no body.
    DescriptorWritten { outcome: IoOutcome, body_empty: bool },
    /// The copy of the request body has ended.
    BodyCopied { outcome: IoOutcome },
    /// The response descriptor is read to its end. `usable` says whether a
    /// head could be made from it.
    MetaDrained { usable: bool },
    /// The response head is handed to the HTTP layer.
    HeadSent,
    /// A read of the child's standard output gave this many bytes; none at
    /// its end.
    Output { len: usize },
    /// The client did not take a chunk of the body.
    SendFailed,
    /// The connection has ended.
    Shutdown,
    /// The child has exited and its status is collected.
    ChildExited,
}

/// What to do next.
#[derive(Debug, Clone, Copy, PartialEq, Eq, Structural)]
pub enum Command {
    /// Nothing: the event does not concern this state.
    Nothing,
    /// Ask the static resolver for the request.
    ResolveStatic,
    /// Answer with the file that was found.
    ServeFile,
    /// Make the two pipes and spawn the child.
    Spawn,
    /// Close the two pipes, answer 502 with an empty body and log the
    /// failure to spawn.
    RefuseSpawn,
    /// Close the two pipes: the connection went away before the child was
    /// spawned.
    Abandon,
    /// Close the child's ends of the two pipes, start writing the request
    /// descriptor, and read the response descriptor to its end.
    Start,
    /// Close the request descriptor's pipe and copy the request body to the
    /// child's standard input.
    CopyBody,
    /// Close what is open of the request descriptor's pipe and the child's
    /// standard input.
    CloseStdin,
    /// Close the response descriptor's pipe and send the response head.
    SendHead,
    /// Read the child's standard output.
    ReadOutput,
    /// Send the bytes just read as body, then read on.
    Forward { len: usize },
    /// End the body, close every channel and wait for the child.
    EndBody,
    /// Send `SIGTERM` to the child, close every channel and wait for the
    /// child.
    Terminate,
    /// Write the log line of the request.
    Log,
}

/// The state of one request.
#[derive(Debug, Clone, Copy, PartialEq, Eq, Structural)]
pub struct Exchange {
    pub phase: Phase,
    pub inbound: Inbound,
    pub child: Child,
    pub fds: Fds,
    /// Whether the child's output is the body; set once the response
    /// descriptor is read.
    pub streaming: bool,
}

/// Nothing open.
pub open spec fn no_fds() -> Fds {
    Fds {
        stdin: false,
        stdout: false,
        request_meta: false,
        response_meta: false,
        child_request_meta: false,
        child_response_meta: false,
    }
}

/// What is open once the two pipes are made: both ends of each.
pub open spec fn piped_fds() -> Fds {
    Fds {
        stdin: false,
        stdout: false,
        request_meta: true,
        response_meta: true,
        child_request_meta: true,
        child_response_meta: true,
    }
}

/// What is open once the child runs and its ends of the pipes are closed in
/// the server: the server's ends of the four channels.
pub open spec fn wired_fds() -> Fds {
    Fds {
        stdin: true,
        stdout: true,
        request_meta: true,
        response_meta: true,
        child_request_meta: false,
        child_response_meta: false,
    }
}

/// The state of a request on a connection just accepted.
pub open spec fn initial() -> Exchange {
    Exchange {
        phase: Phase::Accepted,
        inbound: Inbound::Idle,
        child: Child::Absent,
        fds: no_fds(),
        streaming: false,
    }
}

/// Whether the phase is one in which the child runs and is served.
pub open spec fn live(phase: Phase) -> bool {
    phase == Phase::Spawned || phase == Phase::MetaDrained || phase == Phase::Headed
}

/// The state after everything is closed and the child is signalled.
pub open spec fn given_up(s: Exchange, phase: Phase) -> Exchange {
    Exchange { phase, inbound: Inbound::Done, child: Child::Signalled, fds: no_fds(), ..s }
}

/// The rules: the state that follows and the command to carry out.
pub open spec fn next(s: Exchange, e: Event) -> (Exchange, Command) {
    match e {
        Event::HeadParsed { static_root } => if s.phase == Phase::Accepted {
            if static_root {
                (Exchange { phase: Phase::HeadParsed, ..s }, Command::ResolveStatic)
            } else {
                (Exchange { phase: Phase::HeadParsed, fds: piped_fds(), ..s }, Command::Spawn)
            }
        } else {
            (s, Command::Nothing)
        },
        Event::StaticResolved { found } => if s.phase == Phase::HeadParsed && s.fds == no_fds() {
            if found {
                (Exchange { phase: Phase::StaticHit, ..s }, Command::ServeFile)
            } else {
                (Exchange { fds: piped_fds(), ..s }, Command::Spawn)
            }
        } else {
            (s, Command::Nothing)
        },
        Event::Spawned => if s.phase == Phase::HeadParsed && s.fds == piped_fds() {
            (
                Exchange {
                    phase: Phase::Spawned,
                    inbound: Inbound::Describing,
                    child: Child::Running,
                    fds: wired_fds(),
                    ..s
                },
                Command::Start,
            )
        } else if s.phase == Phase::Aborted && s.child == Child::Absent {
            (Exchange { child: Child::Signalled, ..s }, Command::Terminate)
        } else {
            (s, Command::Nothing)
        },
        Event::SpawnFailed => if s.phase == Phase::HeadParsed && s.fds == piped_fds() {
            (Exchange { phase: Phase::Completed, fds: no_fds(), ..s }, Command::RefuseSpawn)
        } else {
            (s, Command::Nothing)
        },
        Event::DescriptorWritten { outcome, body_empty } => if live(s.phase) && s.inbound
            == Inbound::Describing {
            if outcome == IoOutcome::Failed || body_empty {
                (
                    Exchange {
                        inbound: Inbound::Done,
                        fds: Fds { stdin: false, request_meta: false, ..s.fds },
                        ..s
                    },
                    Command::CloseStdin,
                )
            } else {
                (
                    Exchange {
                        inbound: Inbound::Copying,
                        fds: Fds { request_meta: false, ..s.fds },
                        ..s
                    },
                    Command::CopyBody,
                )
            }
        } else {
            (s, Command::Nothing)
        },
        Event::BodyCopied { outcome } => if live(s.phase) && s.inbound == Inbound::Copying {
            (
                Exchange { inbound: Inbound::Done, fds: Fds { stdin: false, ..s.fds }, ..s },
                Command::CloseStdin,
            )
        } else {
            (s, Command::Nothing)
        },
        Event::MetaDrained { usable } => if s.phase == Phase::Spawned {
            (
                Exchange {
                    phase: Phase::MetaDrained,
                    fds: Fds { response_meta: false, ..s.fds },
                    streaming: usable,
                    ..s
                },
                Command::SendHead,
            )
        } else {
            (s, Command::Nothing)
        },
        Event::HeadSent => if s.phase == Phase::MetaDrained {
            if s.streaming {
                (Exchange { phase: Phase::Headed, ..s }, Command::ReadOutput)
            } else {
                (given_up(s, Phase::Bodied), Command::Terminate)
            }
        } else if s.phase == Phase::StaticHit {
            (Exchange { phase: Phase::Completed, ..s }, Command::Nothing)
        } else {
            (s, Command::Nothing)
        },
        Event::Output { len } => if s.phase == Phase::Headed {
            if len == 0 {
                (
                    Exchange { phase: Phase::Bodied, inbound: Inbound::Done, fds: no_fds(), ..s },
                    Command::EndBody,
                )
            } else {
                (s, Command::Forward { len })
            }
        } else {
            (s, Command::Nothing)
        },
        Event::SendFailed => if s.phase == Phase::Headed {
            (given_up(s, Phase::Aborted), Command::Terminate)
        } else {
            (s, Command::Nothing)
        },
        Event::Shutdown => if live(s.phase) {
            (given_up(s, Phase::Aborted), Command::Terminate)
        } else if s.phase == Phase::Bodied && s.child == Child::Running {
            (Exchange { child: Child::Signalled, ..s }, Command::Terminate)
        } else if s.phase == Phase::Accepted || s.phase == Phase::HeadParsed {
            (
                Exchange { phase: Phase::Aborted, fds: no_fds(), ..s },
                if s.fds == no_fds() {
                    Command::Nothing
                } else {
                    Command::Abandon
                },
            )
        } else {
            (s, Command::Nothing)
        },
        Event::ChildExited => if s.phase == Phase::Bodied {
            (Exchange { phase: Phase::Completed, child: Child::Reaped, ..s }, Command::Log)
        } else if s.phase == Phase::Aborted && s.child == Child::Signalled {
            (Exchange { child: Child::Reaped, ..s }, Command::Nothing)
        } else {
            (s, Command::Nothing)
        },
    }
}

/// Whether the channels to the child are as the inbound flow has left them,
/// and the child's ends of the pipes are closed in the server.
pub open spec fn inbound_fits(s: Exchange) -> bool {
    &&& !s.fds.child_request_meta
    &&& !s.fds.child_response_meta
    &&& match s.inbound {
        Inbound::Idle => false,
        Inbound::Describing => s.fds.stdin && s.fds.request_meta,
        Inbound::Copying => s.fds.stdin && !s.fds.request_meta,
        Inbound::Done => !s.fds.stdin && !s.fds.request_meta,
    }
}

/// Whether a state is one that the rules can reach.
pub open spec fn well_formed(s: Exchange) -> bool {
    match s.phase {
        Phase::Accepted | Phase::StaticHit => s.child == Child::Absent && s.fds == no_fds()
            && s.inbound == Inbound::Idle,
        Phase::HeadParsed => s.child == Child::Absent && (s.fds == no_fds() || s.fds
            == piped_fds()) && s.inbound == Inbound::Idle,
        Phase::Spawned => s.child == Child::Running && s.fds.stdout && s.fds.response_meta
            && inbound_fits(s),
        Phase::MetaDrained => s.child == Child::Running && s.fds.stdout && !s.fds.response_meta
            && inbound_fits(s),
        Phase::Headed => s.child == Child::Running && s.fds.stdout && !s.fds.response_meta
            && inbound_fits(s) && s.streaming,
        Phase::Bodied => (s.child == Child::Running || s.child == Child::Signalled) && s.fds
            == no_fds() && s.inbound == Inbound::Done,
        Phase::Completed => (s.child == Child::Absent || s.child == Child::Reaped) && s.fds
            == no_fds() && (s.inbound == Inbound::Idle || s.inbound == Inbound::Done),
        Phase::Aborted => s.child != Child::Running && s.fds == no_fds() && (s.inbound
            == Inbound::Idle || s.inbound == Inbound::Done),
    }
}

/// The place of a phase in the order in which a request passes them.
pub open spec fn rank(phase: Phase) -> nat {
    match phase {
        Phase::Accepted => 0,
        Phase::HeadParsed => 1,
        Phase::StaticHit => 2,
        Phase::Spawned => 2,
        Phase::MetaDrained => 3,
        Phase::Headed => 4,
        Phase::Bodied => 5,
        Phase::Completed => 6,
        Phase::Aborted => 6,
    }
}

/// The state after a list of events, one after the other.
pub open spec fn run(s: Exchange, events: Seq<Event>) -> Exchange
    decreases events.len(),
{
    if events.len() == 0 {
        s
    } else {
        next(run(s, events.drop_last()), events.last()).0
    }
}

/// Every step keeps a state well formed and never goes back in the order of
/// the phases.
pub proof fn lemma_step(s: Exchange, e: Event)
    requires
        well_formed(s),
    ensures
        well_formed(next(s, e).0),
        rank(next(s, e).0.phase) >= rank(s.phase),
{
}

/// Whatever happens to a request, in whatever order, its state stays well
/// formed.
pub proof fn lemma_run(events: Seq<Event>)
    ensures
        well_formed(run(initial(), events)),
    decreases events.len(),
{
    if events.len() > 0 {
        lemma_run(events.drop_last());
        lemma_step(run(initial(), events.drop_last()), events.last());
    }
}

/// Every descriptor opened for a request is closed when its log line is
/// written: the line is written only on the step into `Completed`, and a
/// request that is completed or aborted holds no open descriptor.
pub proof fn lemma_closed_when_logged(s: Exchange, e: Event)
    requires
        well_formed(s),
    ensures
        next(s, e).1 == Command::Log ==> next(s, e).0.phase == Phase::Completed,
        next(s, e).0.phase == Phase::Completed || next(s, e).0.phase == Phase::Aborted ==> next(
            s,
            e,
        ).0.fds == no_fds(),
{
}

/// The response head is sent after the response descriptor is read to its
/// end: the command to send it is given only on the event that the
/// descriptor's pipe is drained, and that pipe is closed then; and no body
/// byte is passed on before the head is sent.
pub proof fn lemma_head_after_meta(s: Exchange, e: Event)
    ensures
        next(s, e).1 == Command::SendHead ==> s.phase == Phase::Spawned && e is MetaDrained
            && !next(s, e).0.fds.response_meta,
        next(s, e).1 is Forward ==> s.phase == Phase::Headed,
        next(s, e).0.phase == Phase::Headed && s.phase != Phase::Headed ==> s.phase
            == Phase::MetaDrained && e == Event::HeadSent,
{
}

/// When the connection ends, a child that runs is sent `SIGTERM` and every
/// descriptor is closed; a child that comes to run after that is sent
/// `SIGTERM` as soon as it is known; and a request with a child is completed
/// only once the child is reaped.
pub proof fn lemma_shutdown_terminates(s: Exchange, e: Event)
    requires
        well_formed(s),
    ensures
        e == Event::Shutdown && s.child == Child::Running ==> next(s, e).1 == Command::Terminate
            && next(s, e).0.child == Child::Signalled && next(s, e).0.fds == no_fds(),
        e == Event::Shutdown ==> next(s, e).0.fds == no_fds() && next(s, e).0.child
            != Child::Running,
        s.phase == Phase::Aborted && s.child == Child::Absent && e == Event::Spawned ==> next(
            s,
            e,
        ).1 == Command::Terminate && next(s, e).0.child == Child::Signalled,
        next(s, e).0.phase == Phase::Completed ==> next(s, e).0.child == Child::Absent || next(
            s,
            e,
        ).0.child == Child::Reaped,
        s.child == Child::Signalled && next(s, e).0.child != Child::Signalled ==> e
            == Event::ChildExited && next(s, e).0.child == Child::Reaped,
{
}

/// A request spawns at most one child: the command to spawn is given only
/// while the head is parsed, no child is there and no pipe is made, and
/// once a child is there it stays.
pub proof fn lemma_one_child(s: Exchange, e: Event)
    requires
        well_formed(s),
    ensures
        next(s, e).1 == Command::Spawn ==> next(s, e).0.phase == Phase::HeadParsed && s.child
            == Child::Absent && s.fds == no_fds() && next(s, e).0.fds == piped_fds(),
        s.child != Child::Absent ==> next(s, e).1 != Command::Spawn && next(s, e).0.child
            != Child::Absent,
{
}

/// A request without a body gives the child an empty standard input that is
/// closed at once: as soon as the descriptor is written, the command is to
/// close, and nothing is copied.
pub proof fn lemma_empty_body_closes(s: Exchange, outcome: IoOutcome)
    requires
        well_formed(s),
        live(s.phase),
        s.inbound == Inbound::Describing,
    ensures
        ({
            let after = next(s, Event::DescriptorWritten { outcome, body_empty: true });
            after.1 == Command::CloseStdin && !after.0.fds.stdin && !after.0.fds.request_meta
                && after.0.inbound == Inbound::Done
        }),
{
}

/// A broken pipe is no error: a descriptor that the child did not read is
/// followed by the copy of the body, and a copy that the child cut short
/// ends like one that ran to its end.
pub proof fn lemma_broken_pipe_suppressed(s: Exchange, body_empty: bool)
    ensures
        next(s, Event::DescriptorWritten { outcome: IoOutcome::BrokenPipe, body_empty }) == next(
            s,
            Event::DescriptorWritten { outcome: IoOutcome::Done, body_empty },
        ),
        next(s, Event::BodyCopied { outcome: IoOutcome::BrokenPipe }) == next(
            s,
            Event::BodyCopied { outcome: IoOutcome::Done },
        ),
{
}

impl Exchange {
    /// The state of a request on a connection just accepted.
    pub fn new() -> (s: Exchange)
        ensures
            s == initial(),
            well_formed(s),
    {
        Exchange {
            phase: Phase::Accepted,
            inbound: Inbound::Idle,
            child: Child::Absent,
            fds: Fds::none(),
            streaming: false,
        }
    }

    /// Whether the child runs and is served.
    pub fn is_live(&self) -> (l: bool)
        ensures
            l == live(self.phase),
    {
        match self.phase {
            Phase::Spawned | Phase::MetaDrained | Phase::Headed => true,
            _ => false,
        }
    }

    /// Closes every channel and marks the child as signalled.
    fn give_up(&mut self, phase: Phase)
        ensures
            *final(self) == given_up(*old(self), phase),
    {
        self.phase = phase;
        self.inbound = Inbound::Done;
        self.child = Child::Signalled;
        self.fds = Fds::none();
    }

    /// Takes an event: moves to the state that follows and says what to do.
    #[verifier::rlimit(50)]
    pub fn step(&mut self, event: Event) -> (command: Command)
        ensures
            (*final(self), command) == next(*old(self), event),
            well_formed(*old(self)) ==> well_formed(*final(self)),
    {
        proof {
            if well_formed(*self) {
                lemma_step(*self, event);
            }
        }
        let live = self.is_live();
        match (self.phase, event) {
            (Phase::Accepted, Event::HeadParsed { static_root }) => {
                self.phase = Phase::HeadParsed;
                if static_root {
                    Command::ResolveStatic
                } else {
                    self.fds = Fds::piped();
                    Command::Spawn
                }
            },
            (Phase::HeadParsed, Event::StaticResolved { found }) => {
                if self.fds.any_open() {
                    Command::Nothing
                } else if found {
                    self.phase = Phase::StaticHit;
                    Command::ServeFile
                } else {
                    self.fds = Fds::piped();
                    Command::Spawn
                }
            },
            (Phase::HeadParsed, Event::Spawned) => {
                if self.fds == Fds::piped() {
                    self.phase = Phase::Spawned;
                    self.inbound = Inbound::Describing;
                    self.child = Child::Running;
                    self.fds = Fds::wired();
                    Command::Start
                } else {
                    Command::Nothing
                }
            },
            (Phase::Aborted, Event::Spawned) => {
                if self.child == Child::Absent {
                    self.child = Child::Signalled;
                    Command::Terminate
                } else {
                    Command::Nothing
                }
            },
            (Phase::HeadParsed, Event::SpawnFailed) => {
                if self.fds == Fds::piped() {
                    self.phase = Phase::Completed;
                    self.fds = Fds::none();
                    Command::RefuseSpawn
                } else {
                    Command::Nothing
                }
            },
            (_, Event::DescriptorWritten { outcome, body_empty }) => {
                if !live || self.inbound != Inbound::Describing {
                    Command::Nothing
                } else if outcome == IoOutcome::Failed || body_empty {
                    self.inbound = Inbound::Done;
                    self.fds.stdin = false;
                    self.fds.request_meta = false;
                    Command::CloseStdin
                } else {
                    self.inbound = Inbound::Copying;
                    self.fds.request_meta = false;
                    Command::CopyBody
                }
            },
            (_, Event::BodyCopied { outcome }) => {
                if !live || self.inbound != Inbound::Copying {
                    Command::Nothing
                } else {
                    self.inbound = Inbound::Done;
                    self.fds.stdin = false;
                    Command::CloseStdin
                }
            },
            (Phase::Spawned, Event::MetaDrained { usable }) => {
                self.phase = Phase::MetaDrained;
                self.fds.response_meta = false;
                self.streaming = usable;
                Command::SendHead
            },
            (Phase::MetaDrained, Event::HeadSent) => {
                if self.streaming {
                    self.phase = Phase::Headed;
                    Command::ReadOutput
                } else {
                    self.give_up(Phase::Bodied);
                    Command::Terminate
                }
            },
            (Phase::StaticHit, Event::HeadSent) => {
                self.phase = Phase::Completed;
                Command::Nothing
            },
            (Phase::Headed, Event::Output { len }) => {
                if len == 0 {
                    self.phase = Phase::Bodied;
                    self.inbound = Inbound::Done;
                    self.fds = Fds::none();
                    Command::EndBody
                } else {
                    Command::Forward { len }
                }
            },
            (Phase::Headed, Event::SendFailed) => {
                self.give_up(Phase::Aborted);
                Command::Terminate
            },
            (_, Event::Shutdown) => {
                if live {
                    self.give_up(Phase::Aborted);
                    Command::Terminate
                } else if self.phase == Phase::Bodied && self.child == Child::Running {
                    self.child = Child::Signalled;
                    Command::Terminate
                } else if self.phase == Phase::Accepted || self.phase == Phase::HeadParsed {
                    let piped = self.fds.any_open();
                    self.phase = Phase::Aborted;
                    self.fds = Fds::none();
                    if piped {
                        Command::Abandon
                    } else {
                        Command::Nothing
                    }
                } else {
                    Command::Nothing
                }
            },
            (Phase::Bodied, Event::ChildExited) => {
                self.phase = Phase::Completed;
                self.child = Child::Reaped;
                Command::Log
            },
            (Phase::Aborted, Event::ChildExited) => {
                if self.child == Child::Signalled {
                    self.child = Child::Reaped;
                }
                Command::Nothing
            },
            _ => Command::Nothing,
        }
    }

    /// Whether the request holds nothing any more: no open descriptor and
    /// no child that has not been reaped.
    pub fn is_settled(&self) -> (settled: bool)
        ensures
            settled == (self.fds == no_fds() && (self.child == Child::Absent || self.child
                == Child::Reaped)),
    {
        !self.fds.any_open() && (self.child == Child::Absent || self.child == Child::Reaped)
    }
}

impl Fds {
    /// Nothing open.
    pub fn none() -> (fds: Fds)
        ensures
            fds == no_fds(),
    {
        Fds {
            stdin: false,
            stdout: false,
            request_meta: false,
            response_meta: false,
            child_request_meta: false,
            child_response_meta: false,
        }
    }

    /// What is open once the two pipes are made.
    pub fn piped() -> (fds: Fds)
        ensures
            fds == piped_fds(),
    {
        Fds {
            stdin: false,
            stdout: false,
            request_meta: true,
            response_meta: true,
            child_request_meta: true,
            child_response_meta: true,
        }
    }

    /// What is open once the child runs.
    pub fn wired() -> (fds: Fds)
        ensures
            fds == wired_fds(),
    {
        Fds {
            stdin: true,
            stdout: true,
            request_meta: true,
            response_meta: true,
            child_request_meta: false,
            child_response_meta: false,
        }
    }

    /// Whether any descriptor is open.
    pub fn any_open(&self) -> (any: bool)
        ensures
            any == (*self != no_fds()),
    {
        self.stdin || self.stdout || self.request_meta || self.response_meta
            || self.child_request_meta || self.child_response_meta
    }
}

} // verus!
