//! The supervisor of the server process: the command that starts it, the
//! life cycle it goes through, and the relay of its output to the interface.

use crate::status::{classify, ChildEvent, ServerStatusEvent, StatusKind};
use vstd::prelude::*;

verus! {

/// The file, inside the launch directory, that the Java runtime is asked to
/// run.
pub const SERVER_ARTIFACT: &'static str = "slimevr.jar";

/// The argument vector of the server: a heap of at most 512 MiB, the server
/// archive, and its `run` subcommand.
pub open spec fn server_arguments() -> Seq<Seq<char>> {
    seq!["-Xmx512M"@, "-jar"@, SERVER_ARTIFACT@, "run"@]
}

/// Everything needed to start the server process. All three of its standard
/// streams are to be captured by whoever runs the command.
#[derive(Clone, Debug, PartialEq, Eq)]
pub struct ServerCommand {
    /// The Java binary.
    pub program: String,
    /// The launch directory, which becomes the working directory.
    pub working_dir: String,
}

impl ServerCommand {
    /// The arguments handed to the Java binary.
    pub fn arguments(&self) -> (args: Vec<String>)
        ensures
            args.deep_view() == server_arguments(),
    {
        let mut args: Vec<String> = Vec::new();
        args.push("-Xmx512M".to_owned());
        args.push("-jar".to_owned());
        args.push(SERVER_ARTIFACT.to_owned());
        args.push("run".to_owned());
        assert(args.deep_view() =~= server_arguments());
        args
    }
}

/// The command that runs the server found in `launch_path` with the Java
/// binary `interpreter`.
pub open spec fn server_command_of(interpreter: String, launch_path: String) -> ServerCommand {
    ServerCommand { program: interpreter, working_dir: launch_path }
}

pub fn server_command(interpreter: String, launch_path: String) -> (command: ServerCommand)
    ensures
        command == server_command_of(interpreter, launch_path),
{
    ServerCommand { program: interpreter, working_dir: launch_path }
}

/// Where the supervised process is in its life.
#[derive(Clone, Copy, Debug, PartialEq, Eq, Structural)]
pub enum ChildState {
    /// Nothing was spawned.
    Absent,
    /// Spawned, but silent so far.
    Starting,
    /// At least one event was seen.
    Running,
    /// Terminated, or never came to life. There is no way back: a dead
    /// server stays dead.
    Exited,
}

/// What the supervisor knows of the process: its state, and the one-shot
/// flag that tells the shutdown path that the process has announced its end.
pub struct Tracking {
    pub state: ChildState,
    pub exit_flag: bool,
}

impl Tracking {
    pub open spec fn initial() -> Tracking {
        Tracking { state: ChildState::Absent, exit_flag: false }
    }

    /// A process is being watched: events can arrive.
    pub open spec fn alive(self) -> bool {
        self.state == ChildState::Starting || self.state == ChildState::Running
    }

    /// The flag is raised only by a process that ran and ended.
    pub open spec fn consistent(self) -> bool {
        self.exit_flag ==> self.state == ChildState::Exited
    }

    /// The outcome of a spawn attempt. Only the first attempt counts: there
    /// is at most one process per launcher.
    pub open spec fn after_spawn(self, succeeded: bool) -> Tracking {
        if self.state != ChildState::Absent {
            self
        } else if succeeded {
            Tracking { state: ChildState::Starting, ..self }
        } else {
            Tracking { state: ChildState::Exited, ..self }
        }
    }

    /// One event later. Any event shows a starting process to be running;
    /// the announcement of its end moves it on to `Exited` and raises the
    /// flag. Without a live process nothing changes.
    pub open spec fn after_event(self, termination: bool) -> Tracking {
        if !self.alive() {
            self
        } else if termination {
            Tracking { state: ChildState::Exited, exit_flag: true }
        } else {
            Tracking { state: ChildState::Running, ..self }
        }
    }

    /// After a whole series of events, oldest first.
    pub open spec fn after_events(self, events: Seq<ChildEvent>) -> Tracking
        decreases events.len(),
    {
        if events.len() == 0 {
            self
        } else {
            self.after_events(events.drop_last()).after_event(events.last().is_termination())
        }
    }
}

/// The kinds of the status events published for a series of process events,
/// in order: one per event, and a closing `Other` once the stream has ended.
pub open spec fn relayed_kinds(events: Seq<ChildEvent>) -> Seq<StatusKind> {
    events.map_values(|event: ChildEvent| event.kind()).push(StatusKind::Other)
}

/// How often `kind` occurs in `kinds`.
pub open spec fn occurrences(kinds: Seq<StatusKind>, kind: StatusKind) -> nat
    decreases kinds.len(),
{
    if kinds.len() == 0 {
        0
    } else {
        occurrences(kinds.drop_last(), kind) + if kinds.last() == kind {
            1nat
        } else {
            0nat
        }
    }
}

/// How many of `events` announce the end of the process.
pub open spec fn terminations(events: Seq<ChildEvent>) -> nat
    decreases events.len(),
{
    if events.len() == 0 {
        0
    } else {
        terminations(events.drop_last()) + if events.last().is_termination() {
            1nat
        } else {
            0nat
        }
    }
}

/// Tracks the one server process of a launcher and relays its output.
pub struct Supervisor {
    state: ChildState,
    exit_flag: bool,
}

impl View for Supervisor {
    type V = Tracking;

    closed spec fn view(&self) -> Tracking {
        Tracking { state: self.state, exit_flag: self.exit_flag }
    }
}

impl Supervisor {
    #[verifier::type_invariant]
    spec fn consistent(self) -> bool {
        self.exit_flag ==> self.state == ChildState::Exited
    }

    /// A supervisor with no process.
    pub fn new() -> (supervisor: Supervisor)
        ensures
            supervisor@ == Tracking::initial(),
    {
        Supervisor { state: ChildState::Absent, exit_flag: false }
    }

    pub fn state(&self) -> (state: ChildState)
        ensures
            state == self@.state,
    {
        self.state
    }

    /// Whether the process has announced its end. Once true, it stays true.
    pub fn exit_flag(&self) -> (raised: bool)
        ensures
            raised == self@.exit_flag,
            raised ==> self@.state == ChildState::Exited,
    {
        proof {
            use_type_invariant(self);
        }
        self.exit_flag
    }

    /// Records how the spawn went. Returns whether the record was taken:
    /// it is refused once a spawn has been recorded.
    pub fn record_spawn(&mut self, succeeded: bool) -> (accepted: bool)
        ensures
            accepted == (old(self)@.state == ChildState::Absent),
            final(self)@ == old(self)@.after_spawn(succeeded),
    {
        proof {
            use_type_invariant(&*self);
        }
        if self.state != ChildState::Absent {
            return false;
        }
        if succeeded {
            self.state = ChildState::Starting;
        } else {
            self.state = ChildState::Exited;
        }
        true
    }

    /// Takes one event from the process and returns the status event to
    /// publish for it.
    pub fn observe(&mut self, event: ChildEvent) -> (status: ServerStatusEvent)
        ensures
            status.kind == event.kind(),
            status.payload@ == event.payload(),
            final(self)@ == old(self)@.after_event(event.is_termination()),
            old(self)@.exit_flag ==> final(self)@.exit_flag,
            old(self)@.alive() && event.is_termination() ==> final(self)@.exit_flag,
            final(self)@.exit_flag && !old(self)@.exit_flag ==> event.is_termination(),
    {
        proof {
            use_type_invariant(&*self);
        }
        let termination = match &event {
            ChildEvent::Terminated(_) => true,
            _ => false,
        };
        if self.state == ChildState::Starting || self.state == ChildState::Running {
            if termination {
                self.state = ChildState::Exited;
                self.exit_flag = true;
            } else {
                self.state = ChildState::Running;
            }
        }
        classify(event)
    }

    /// The status event to publish once the stream of events has ended,
    /// whether or not the process announced its end before.
    pub fn receiver_closed() -> (status: ServerStatusEvent)
        ensures
            status.kind == StatusKind::Other,
            status.payload@ == "receiver cancelled"@,
    {
        ServerStatusEvent { kind: StatusKind::Other, payload: "receiver cancelled".to_owned() }
    }
}

/// Tracking never leaves the consistent states.
pub proof fn lemma_tracking_stays_consistent(start: Tracking, events: Seq<ChildEvent>)
    requires
        start.consistent(),
    ensures
        start.after_events(events).consistent(),
    decreases events.len(),
{
    if events.len() > 0 {
        lemma_tracking_stays_consistent(start, events.drop_last());
    }
}

/// The exit flag is never lowered: raised after some events, it is still
/// raised after any more.
pub proof fn lemma_exit_flag_is_kept(start: Tracking, events: Seq<ChildEvent>, n: int)
    requires
        0 <= n <= events.len(),
        start.after_events(events.take(n)).exit_flag,
    ensures
        start.after_events(events).exit_flag,
    decreases events.len(),
{
    if n < events.len() {
        assert(events.drop_last().take(n) =~= events.take(n));
        lemma_exit_flag_is_kept(start, events.drop_last(), n);
    } else {
        assert(events.take(n) =~= events);
    }
}

/// While a process is watched, the exit flag is up as soon as the
/// announcement of its end has been taken, and from then on.
pub proof fn lemma_exit_flag_follows_termination(
    start: Tracking,
    events: Seq<ChildEvent>,
    k: int,
)
    requires
        start.alive(),
        !start.exit_flag,
        0 <= k < events.len(),
        events[k].is_termination(),
    ensures
        start.after_events(events.take(k + 1)).exit_flag,
        start.after_events(events).exit_flag,
{
    let upto = events.take(k + 1);
    assert(upto.last() == events[k]);
    lemma_alive_or_flagged(start, upto.drop_last());
    lemma_exit_flag_is_kept(start, events, k + 1);
}

/// A watched process is alive until the flag goes up.
proof fn lemma_alive_or_flagged(start: Tracking, events: Seq<ChildEvent>)
    requires
        start.alive(),
        !start.exit_flag,
    ensures
        start.after_events(events).alive() || start.after_events(events).exit_flag,
    decreases events.len(),
{
    if events.len() > 0 {
        lemma_alive_or_flagged(start, events.drop_last());
    }
}

/// The exit flag goes up only for an announced end.
pub proof fn lemma_exit_flag_needs_termination(start: Tracking, events: Seq<ChildEvent>)
    requires
        !start.exit_flag,
        start.after_events(events).exit_flag,
    ensures
        terminations(events) >= 1,
    decreases events.len(),
{
    if events.len() > 0 {
        if start.after_events(events.drop_last()).exit_flag {
            lemma_exit_flag_needs_termination(start, events.drop_last());
        }
    }
}

/// The relay neither invents nor repeats the announcement of the end:
/// `Terminated` is published as often as the process announced it, so at
/// most once for a process that ends once.
pub proof fn lemma_terminated_relayed_as_announced(events: Seq<ChildEvent>)
    ensures
        occurrences(relayed_kinds(events), StatusKind::Terminated) == terminations(events),
        terminations(events) <= 1 ==> occurrences(relayed_kinds(events), StatusKind::Terminated)
            <= 1,
{
    let kinds = events.map_values(|event: ChildEvent| event.kind());
    lemma_kinds_count_terminations(events);
    assert(relayed_kinds(events).drop_last() =~= kinds);
}

proof fn lemma_kinds_count_terminations(events: Seq<ChildEvent>)
    ensures
        occurrences(
            events.map_values(|event: ChildEvent| event.kind()),
            StatusKind::Terminated,
        ) == terminations(events),
    decreases events.len(),
{
    let kinds = events.map_values(|event: ChildEvent| event.kind());
    if events.len() > 0 {
        lemma_kinds_count_terminations(events.drop_last());
        assert(kinds.drop_last() =~= events.drop_last().map_values(
            |event: ChildEvent| event.kind(),
        ));
    }
}

} // verus!
