//! The shutdown coordinator: how the launcher asks the server to stop, and
//! how long it waits for it.
//!
//! The server takes a line reading `exit` on its standard input as the
//! request to shut down. The coordinator sends that line and then looks at
//! the exit flag once per interval until it is up or the window has passed.
//! It never kills the server: a server that ignores the request is left to
//! the process group.

use vstd::prelude::*;

verus! {

/// How long the coordinator waits for the server, in milliseconds.
pub const SHUTDOWN_WINDOW_MS: u64 = 10_000;

/// The time between two looks at the exit flag, in milliseconds.
pub const POLL_INTERVAL_MS: u64 = 1_000;

/// The bytes of `exit\n`.
pub open spec fn exit_command_bytes() -> Seq<u8> {
    seq![0x65u8, 0x78u8, 0x69u8, 0x74u8, 0x0au8]
}

/// What is written to the server's standard input: `exit\n`, nothing else.
pub fn exit_command() -> (bytes: Vec<u8>)
    ensures
        bytes@ == exit_command_bytes(),
{
    let mut bytes: Vec<u8> = Vec::new();
    bytes.push(0x65u8);
    bytes.push(0x78u8);
    bytes.push(0x69u8);
    bytes.push(0x74u8);
    bytes.push(0x0au8);
    assert(bytes@ =~= exit_command_bytes());
    bytes
}

/// How far the shutdown has come: what the coordinator is waiting for.
#[derive(Clone, Copy, Debug, PartialEq, Eq, Structural)]
pub enum ShutdownPhase {
    /// For the window geometry to be saved.
    SavingWindow,
    /// For the look into the holder of the child handle.
    LookingForChild,
    /// For the exit command to be written.
    Writing,
    /// For the next look at the exit flag.
    Waiting,
    /// For nothing: the coordinator has returned.
    Done,
}

/// What the host did, or saw, for the step it was given.
#[derive(Clone, Copy, Debug, PartialEq, Eq, Structural)]
pub enum ShutdownReport {
    /// The window geometry was saved, or could not be.
    WindowSaved { ok: bool },
    /// The holder was opened; it held a child handle, or none.
    ChildLookedUp { present: bool },
    /// The exit command was written, or could not be.
    Written { ok: bool },
    /// The exit flag as it is now, and the time since the exit command
    /// was written.
    Polled { elapsed_ms: u64, exit_flag: bool },
}

/// What the host is to do next. Each step but `Return` is answered by the
/// report of the same name.
#[derive(Clone, Copy, Debug, PartialEq, Eq, Structural)]
pub enum ShutdownStep {
    /// Save the window geometry.
    SaveWindow,
    /// Open the holder of the child handle.
    LookUpChild,
    /// Write [`exit_command`] to the server's standard input.
    WriteExit,
    /// Sleep for `after_ms`, then read the exit flag and the clock.
    Poll { after_ms: u64 },
    /// Leave the exit callback.
    Return,
}

/// Whether the wait for the server is over: the window has passed, or the
/// server has announced its end.
pub open spec fn wait_is_over(elapsed_ms: nat, exit_flag: bool) -> bool {
    elapsed_ms >= SHUTDOWN_WINDOW_MS || exit_flag
}

/// The step that a phase is waiting on; it is asked for again when a report
/// answers something else.
pub open spec fn pending_step(phase: ShutdownPhase) -> ShutdownStep {
    match phase {
        ShutdownPhase::SavingWindow => ShutdownStep::SaveWindow,
        ShutdownPhase::LookingForChild => ShutdownStep::LookUpChild,
        ShutdownPhase::Writing => ShutdownStep::WriteExit,
        ShutdownPhase::Waiting => ShutdownStep::Poll { after_ms: 0 },
        ShutdownPhase::Done => ShutdownStep::Return,
    }
}

/// The coordinator's rule: the phase and the step that follow a report.
///
/// Saving the window geometry comes first, and its failure stops nothing.
/// Without a child the coordinator returns at once. A failed write does not
/// change the wait that follows it.
pub open spec fn shutdown_transition(phase: ShutdownPhase, report: ShutdownReport) -> (
    ShutdownPhase,
    ShutdownStep,
) {
    match (phase, report) {
        (ShutdownPhase::SavingWindow, ShutdownReport::WindowSaved { ok }) => (
            ShutdownPhase::LookingForChild,
            ShutdownStep::LookUpChild,
        ),
        (ShutdownPhase::LookingForChild, ShutdownReport::ChildLookedUp { present }) => if present {
            (ShutdownPhase::Writing, ShutdownStep::WriteExit)
        } else {
            (ShutdownPhase::Done, ShutdownStep::Return)
        },
        (ShutdownPhase::Writing, ShutdownReport::Written { ok }) => (
            ShutdownPhase::Waiting,
            ShutdownStep::Poll { after_ms: 0 },
        ),
        (ShutdownPhase::Waiting, ShutdownReport::Polled { elapsed_ms, exit_flag }) => if wait_is_over(
            elapsed_ms as nat,
            exit_flag,
        ) {
            (ShutdownPhase::Done, ShutdownStep::Return)
        } else {
            (ShutdownPhase::Waiting, ShutdownStep::Poll { after_ms: POLL_INTERVAL_MS })
        },
        _ => (phase, pending_step(phase)),
    }
}

/// Whether the host has to wait before it can answer `step`.
pub open spec fn blocks(step: ShutdownStep) -> bool {
    step matches ShutdownStep::Poll { after_ms } && after_ms > 0
}

/// The coordinator of one shutdown.
pub struct Coordinator {
    phase: ShutdownPhase,
}

impl View for Coordinator {
    type V = ShutdownPhase;

    closed spec fn view(&self) -> ShutdownPhase {
        self.phase
    }
}

impl Coordinator {
    /// Takes up an exit request: the coordinator and its first step.
    pub fn begin() -> (start: (Coordinator, ShutdownStep))
        ensures
            start.0@ == ShutdownPhase::SavingWindow,
            start.1 == ShutdownStep::SaveWindow,
    {
        (Coordinator { phase: ShutdownPhase::SavingWindow }, ShutdownStep::SaveWindow)
    }

    pub fn phase(&self) -> (phase: ShutdownPhase)
        ensures
            phase == self@,
    {
        self.phase
    }

    /// Takes the host's report and says what to do next.
    pub fn advance(&mut self, report: ShutdownReport) -> (step: ShutdownStep)
        ensures
            (final(self)@, step) == shutdown_transition(old(self)@, report),
            report == (ShutdownReport::ChildLookedUp { present: false }) ==> !blocks(step),
            blocks(step) ==> old(self)@ == ShutdownPhase::Waiting && step == (ShutdownStep::Poll {
                after_ms: POLL_INTERVAL_MS,
            }),
    {
        let (phase, step) = match (self.phase, report) {
            (ShutdownPhase::SavingWindow, ShutdownReport::WindowSaved { ok: _ }) => (
                ShutdownPhase::LookingForChild,
                ShutdownStep::LookUpChild,
            ),
            (ShutdownPhase::LookingForChild, ShutdownReport::ChildLookedUp { present }) => {
                if present {
                    (ShutdownPhase::Writing, ShutdownStep::WriteExit)
                } else {
                    (ShutdownPhase::Done, ShutdownStep::Return)
                }
            },
            (ShutdownPhase::Writing, ShutdownReport::Written { ok: _ }) => (
                ShutdownPhase::Waiting,
                ShutdownStep::Poll { after_ms: 0 },
            ),
            (ShutdownPhase::Waiting, ShutdownReport::Polled { elapsed_ms, exit_flag }) => {
                if elapsed_ms >= SHUTDOWN_WINDOW_MS || exit_flag {
                    (ShutdownPhase::Done, ShutdownStep::Return)
                } else {
                    (ShutdownPhase::Waiting, ShutdownStep::Poll { after_ms: POLL_INTERVAL_MS })
                }
            },
            (ShutdownPhase::SavingWindow, _) => (self.phase, ShutdownStep::SaveWindow),
            (ShutdownPhase::LookingForChild, _) => (self.phase, ShutdownStep::LookUpChild),
            (ShutdownPhase::Writing, _) => (self.phase, ShutdownStep::WriteExit),
            (ShutdownPhase::Waiting, _) => (self.phase, ShutdownStep::Poll { after_ms: 0 }),
            (ShutdownPhase::Done, _) => (self.phase, ShutdownStep::Return),
        };
        self.phase = phase;
        step
    }
}

/// Without a child the coordinator returns without a wait, whether or not
/// the window geometry could be saved: it asks for the geometry to be
/// saved, looks for the child, and is done.
pub proof fn lemma_no_child_no_wait(saved: bool)
    ensures
        ({
            let (looking, look) = shutdown_transition(
                ShutdownPhase::SavingWindow,
                ShutdownReport::WindowSaved { ok: saved },
            );
            let (done, last) = shutdown_transition(
                looking,
                ShutdownReport::ChildLookedUp { present: false },
            );
            &&& !blocks(ShutdownStep::SaveWindow)
            &&& look == ShutdownStep::LookUpChild && !blocks(look)
            &&& last == ShutdownStep::Return
            &&& done == ShutdownPhase::Done
        }),
{
}

/// The time, in milliseconds since the exit command was written, at which
/// the coordinator returns, if it looks at the exit flag at the time `now`,
/// every sleep lasts exactly as long as was asked, and the flag goes up at
/// the time `exit_at` (never, if that is `None`).
pub open spec fn return_time(now: nat, exit_at: Option<nat>) -> nat
    decreases SHUTDOWN_WINDOW_MS + POLL_INTERVAL_MS - now,
{
    let exit_flag = exit_at is Some && exit_at->0 <= now;
    if wait_is_over(now, exit_flag) {
        now
    } else {
        return_time(now + POLL_INTERVAL_MS as nat, exit_at)
    }
}

/// A server that ends within the window is noticed within one interval:
/// with sleeps that last exactly as long as asked, the coordinator returns
/// no later than [`POLL_INTERVAL_MS`] after the exit flag went up.
pub proof fn lemma_return_follows_exit(exit_at: nat)
    requires
        exit_at <= SHUTDOWN_WINDOW_MS,
    ensures
        exit_at <= return_time(0, Some(exit_at)) <= exit_at + POLL_INTERVAL_MS,
{
    lemma_return_time_bounds(0, exit_at);
}

proof fn lemma_return_time_bounds(now: nat, exit_at: nat)
    requires
        exit_at <= SHUTDOWN_WINDOW_MS,
        now < exit_at + POLL_INTERVAL_MS,
    ensures
        exit_at <= return_time(now, Some(exit_at)) < exit_at + POLL_INTERVAL_MS,
    decreases SHUTDOWN_WINDOW_MS + POLL_INTERVAL_MS - now,
{
    if !wait_is_over(now, exit_at <= now) {
        lemma_return_time_bounds(now + POLL_INTERVAL_MS as nat, exit_at);
    }
}

/// The wait is bounded: with sleeps that last exactly as long as asked, the
/// coordinator has returned when the window has passed, and a server that
/// never ends makes it wait for the whole window and no longer.
pub proof fn lemma_wait_is_bounded(exit_at: Option<nat>)
    ensures
        return_time(0, exit_at) <= SHUTDOWN_WINDOW_MS,
        exit_at is None ==> return_time(0, exit_at) == SHUTDOWN_WINDOW_MS,
{
    lemma_return_time_on_grid(0, exit_at);
}

proof fn lemma_return_time_on_grid(now: nat, exit_at: Option<nat>)
    requires
        now <= SHUTDOWN_WINDOW_MS,
        (SHUTDOWN_WINDOW_MS - now) % (POLL_INTERVAL_MS as int) == 0,
    ensures
        return_time(now, exit_at) <= SHUTDOWN_WINDOW_MS,
        exit_at is None ==> return_time(now, exit_at) == SHUTDOWN_WINDOW_MS,
    decreases SHUTDOWN_WINDOW_MS + POLL_INTERVAL_MS - now,
{
    if now < SHUTDOWN_WINDOW_MS {
        lemma_return_time_on_grid(now + POLL_INTERVAL_MS as nat, exit_at);
    }
}

} // verus!
