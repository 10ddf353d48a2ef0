//! The run, stop and resume cycle of a debugging session.
//!
//! A session is either suspended, waiting for the debugger, or running. While
//! it runs, two things can end the wait: the engine comes to rest, or the
//! debugger sends a byte. The functions here decide, from the phase of the
//! session and from what was just observed, the next phase and what the
//! caller does next. The caller owns the engine and the connection: it runs
//! the burst, polls the connection, and comes back with what it saw.

use vstd::prelude::*;
use crate::breakpoints::{set_at, BreakpointKey, BreakpointTable};
use crate::error::TargetError;

verus! {

/// The number of the signal that reports an interrupt by the debugger.
pub const SIGINT: u8 = 2;

/// Why the machine is at rest, as the debugger is told.
#[derive(Clone, Copy, Debug, PartialEq, Eq, Structural)]
pub enum StopReason {
    /// Execution reached the breakpoint at this address; the instruction
    /// there has not run.
    Breakpoint(u32),
    /// The program ended with this status.
    Exited(u8),
    /// This signal was delivered.
    Signal(u8),
    /// The single step is done.
    StepDone,
}

/// What the wait for a stop ends with.
#[derive(Clone, Copy, Debug, PartialEq, Eq, Structural)]
pub enum Event {
    /// The debugger sent this byte, which is still unread on the connection.
    IncomingData(u8),
    /// The machine stopped.
    TargetStopped(StopReason),
}

/// How the debugger asked the machine to go on.
#[derive(Clone, Copy, Debug, PartialEq, Eq, Structural)]
pub enum ResumeMode {
    /// Run until something stops the machine.
    Continue,
    /// Run one instruction.
    Step,
}

/// The bounds of one burst of execution; `None` is no bound.
#[derive(Clone, Copy, Debug, PartialEq, Eq, Structural)]
pub struct RunLimits {
    /// The most instructions to run.
    pub instructions: Option<u64>,
    /// The longest time to run.
    pub timeout: Option<u64>,
}

/// How the engine came to rest at the end of a burst.
#[derive(Clone, Copy, Debug, PartialEq, Eq, Structural)]
pub enum StopCause {
    /// The engine gave control back and the program can go on: a trap
    /// fired, or the bounds of the burst were reached.
    Paused,
    /// The program reached an end; the engine reports this status.
    Exited(u32),
    /// The program was ended by this signal.
    Signaled(u8),
}

/// What the caller saw when a burst ended.
#[derive(Clone, Copy, Debug, PartialEq, Eq, Structural)]
pub struct BurstReport {
    /// How the engine came to rest.
    pub cause: StopCause,
    /// The program counter at rest.
    pub pc: u32,
}

/// Where a session stands.
#[derive(Clone, Copy, Debug, PartialEq, Eq, Structural)]
pub enum Phase {
    /// Waiting for the debugger's next command.
    Suspended,
    /// Running; a burst of execution is under way.
    Bursting(ResumeMode),
    /// Running; between two bursts, the connection is being polled.
    Polling(ResumeMode),
    /// Ended by a failure of the connection.
    Closed,
}

/// What the caller does next.
#[derive(Clone, Copy, Debug, PartialEq, Eq, Structural)]
pub enum Directive {
    /// Run a burst from the current program counter within these bounds,
    /// then come back with `burst_ended`.
    Run(RunLimits),
    /// Look, without waiting, whether the debugger sent a byte, then come
    /// back with `polled` or `transport_failed`.
    Poll,
    /// Hand this event to the protocol layer; the wait is over.
    Report(Event),
    /// Halt the engine, then report this stop to the protocol layer.
    Halt(StopReason),
    /// Close the session for this error.
    Close(TargetError),
    /// The input does not fit the phase; nothing has changed.
    Ignored,
}

/// The bounds of a burst in each mode: none when continuing, one instruction
/// when stepping.
pub open spec fn spec_limits(mode: ResumeMode) -> RunLimits {
    match mode {
        ResumeMode::Continue => RunLimits { instructions: None, timeout: None },
        ResumeMode::Step => RunLimits { instructions: Some(1u64), timeout: None },
    }
}

/// The stop that the debugger is told for a burst that ended with `report`
/// in `mode`, or `None` where the machine only paused and is to go on. A
/// breakpoint at the resting address comes before everything else that a
/// pause could mean.
pub open spec fn spec_stop_reason(
    mode: ResumeMode,
    report: BurstReport,
    at_breakpoint: bool,
) -> Option<StopReason> {
    match report.cause {
        StopCause::Exited(status) => Some(StopReason::Exited((status % 256) as u8)),
        StopCause::Signaled(signal) => Some(StopReason::Signal(signal)),
        StopCause::Paused => if at_breakpoint {
            Some(StopReason::Breakpoint(report.pc))
        } else if mode == ResumeMode::Step {
            Some(StopReason::StepDone)
        } else {
            None
        },
    }
}

impl Phase {
    /// Whether the machine is running in this phase.
    pub open spec fn running(self) -> bool {
        self is Bursting || self is Polling
    }

    /// The step taken when the debugger asks to resume.
    pub open spec fn spec_resume(self, mode: ResumeMode) -> (Phase, Directive) {
        match self {
            Phase::Suspended => (Phase::Bursting(mode), Directive::Run(spec_limits(mode))),
            _ => (self, Directive::Ignored),
        }
    }

    /// The step taken when a burst has ended.
    pub open spec fn spec_burst_ended(self, report: BurstReport, at_breakpoint: bool) -> (
        Phase,
        Directive,
    ) {
        match self {
            Phase::Bursting(mode) => match spec_stop_reason(mode, report, at_breakpoint) {
                Some(reason) => (Phase::Suspended, Directive::Report(Event::TargetStopped(reason))),
                None => (Phase::Polling(mode), Directive::Poll),
            },
            _ => (self, Directive::Ignored),
        }
    }

    /// The step taken when the connection was polled.
    pub open spec fn spec_polled(self, byte: Option<u8>) -> (Phase, Directive) {
        match self {
            Phase::Polling(mode) => match byte {
                Some(data) => (Phase::Suspended, Directive::Report(Event::IncomingData(data))),
                None => (Phase::Bursting(mode), Directive::Run(spec_limits(mode))),
            },
            _ => (self, Directive::Ignored),
        }
    }

    /// The step taken when the protocol layer asks for an interrupt.
    pub open spec fn spec_interrupt(self) -> (Phase, Directive) {
        match self {
            Phase::Closed => (self, Directive::Ignored),
            _ => (Phase::Suspended, Directive::Halt(StopReason::Signal(SIGINT))),
        }
    }

    /// The step taken when the connection failed.
    pub open spec fn spec_transport_failed(self) -> (Phase, Directive) {
        (Phase::Closed, Directive::Close(TargetError::Transport))
    }

    /// The step taken when a command of the debugger failed with `error`:
    /// only an error that is fatal ends the session.
    pub open spec fn spec_command_failed(self, error: TargetError) -> (Phase, Directive) {
        if error.is_fatal() {
            (Phase::Closed, Directive::Close(error))
        } else {
            (self, Directive::Ignored)
        }
    }

    /// The phase in which a session begins.
    pub fn new() -> (phase: Phase)
        ensures
            phase == Phase::Suspended,
    {
        Phase::Suspended
    }

    /// The debugger asks to resume. A suspended session starts its first
    /// burst; in any other phase the request is ignored.
    pub fn resume(self, mode: ResumeMode) -> (next: (Phase, Directive))
        ensures
            next == self.spec_resume(mode),
    {
        match self {
            Phase::Suspended => (Phase::Bursting(mode), Directive::Run(limits(mode))),
            _ => (self, Directive::Ignored),
        }
    }

    /// A burst has ended with `report`. Where that is a stop, the session is
    /// suspended and the stop is reported without a look at the connection,
    /// so that a byte which arrived meanwhile stays unread; where the machine
    /// only paused, the connection is polled before the next burst.
    pub fn burst_ended<H>(self, table: &BreakpointTable<H>, report: BurstReport) -> (next: (
        Phase,
        Directive,
    ))
        ensures
            next == self.spec_burst_ended(report, set_at(table@, report.pc as u64)),
    {
        match self {
            Phase::Bursting(mode) => {
                let at_breakpoint = table.hit(report.pc as u64);
                match stop_reason(mode, report, at_breakpoint) {
                    Some(reason) => (
                        Phase::Suspended,
                        Directive::Report(Event::TargetStopped(reason)),
                    ),
                    None => (Phase::Polling(mode), Directive::Poll),
                }
            },
            _ => (self, Directive::Ignored),
        }
    }

    /// The connection was polled and held `byte`, or nothing. A byte
    /// suspends the session and is reported; without one the next burst
    /// starts.
    pub fn polled(self, byte: Option<u8>) -> (next: (Phase, Directive))
        ensures
            next == self.spec_polled(byte),
    {
        match self {
            Phase::Polling(mode) => match byte {
                Some(data) => (Phase::Suspended, Directive::Report(Event::IncomingData(data))),
                None => (Phase::Bursting(mode), Directive::Run(limits(mode))),
            },
            _ => (self, Directive::Ignored),
        }
    }

    /// The protocol layer asks for an interrupt. The engine is halted and
    /// the stop is reported at once as an interrupt signal; the session is
    /// suspended.
    pub fn interrupt(self) -> (next: (Phase, Directive))
        ensures
            next == self.spec_interrupt(),
    {
        match self {
            Phase::Closed => (self, Directive::Ignored),
            _ => (Phase::Suspended, Directive::Halt(StopReason::Signal(SIGINT))),
        }
    }

    /// A command of the debugger failed with `error`. The command is
    /// answered with the error; the session goes on as it was unless the
    /// error is fatal.
    pub fn command_failed(self, error: TargetError) -> (next: (Phase, Directive))
        ensures
            next == self.spec_command_failed(error),
    {
        if error.is_fatal() {
            (Phase::Closed, Directive::Close(error))
        } else {
            (self, Directive::Ignored)
        }
    }

    /// The connection failed, which ends the session in every phase.
    pub fn transport_failed(self) -> (next: (Phase, Directive))
        ensures
            next == self.spec_transport_failed(),
    {
        (Phase::Closed, Directive::Close(TargetError::Transport))
    }
}

/// The bounds of a burst in `mode`.
pub fn limits(mode: ResumeMode) -> (bounds: RunLimits)
    ensures
        bounds == spec_limits(mode),
{
    match mode {
        ResumeMode::Continue => RunLimits { instructions: None, timeout: None },
        ResumeMode::Step => RunLimits { instructions: Some(1), timeout: None },
    }
}

/// Turns the end of a burst into the stop that the debugger is told,
/// or `None` where the machine only paused and is to go on. `at_breakpoint`
/// says whether a breakpoint is set at the resting address.
pub fn stop_reason(mode: ResumeMode, report: BurstReport, at_breakpoint: bool) -> (reason: Option<
    StopReason,
>)
    ensures
        reason == spec_stop_reason(mode, report, at_breakpoint),
{
    match report.cause {
        StopCause::Exited(status) => {
            let low: u32 = status % 256;
            Some(StopReason::Exited(low as u8))
        },
        StopCause::Signaled(signal) => Some(StopReason::Signal(signal)),
        StopCause::Paused => {
            if at_breakpoint {
                Some(StopReason::Breakpoint(report.pc))
            } else {
                match mode {
                    ResumeMode::Step => Some(StopReason::StepDone),
                    ResumeMode::Continue => None,
                }
            }
        },
    }
}

/// Whether `directive` is one that `phase` can go with: a burst is asked for
/// only while bursting, a poll only while polling, and a report or a halt
/// only of a suspended session.
pub open spec fn fits(phase: Phase, directive: Directive) -> bool {
    match directive {
        Directive::Run(bounds) => phase matches Phase::Bursting(mode) && bounds == spec_limits(
            mode,
        ),
        Directive::Poll => phase is Polling,
        Directive::Report(_) => phase is Suspended,
        Directive::Halt(_) => phase is Suspended,
        Directive::Close(_) => phase is Closed,
        Directive::Ignored => true,
    }
}

/// Every step leaves the session in a phase that goes with what the caller
/// is told to do, and an ignored input leaves the phase as it was.
pub proof fn lemma_steps_fit(
    phase: Phase,
    mode: ResumeMode,
    report: BurstReport,
    at_breakpoint: bool,
    byte: Option<u8>,
)
    ensures
        fits(phase.spec_resume(mode).0, phase.spec_resume(mode).1),
        fits(
            phase.spec_burst_ended(report, at_breakpoint).0,
            phase.spec_burst_ended(report, at_breakpoint).1,
        ),
        fits(phase.spec_polled(byte).0, phase.spec_polled(byte).1),
        fits(phase.spec_interrupt().0, phase.spec_interrupt().1),
        fits(phase.spec_transport_failed().0, phase.spec_transport_failed().1),
        phase.spec_resume(mode).1 == Directive::Ignored ==> phase.spec_resume(mode).0 == phase,
        phase.spec_burst_ended(report, at_breakpoint).1 == Directive::Ignored
            ==> phase.spec_burst_ended(report, at_breakpoint).0 == phase,
        phase.spec_polled(byte).1 == Directive::Ignored ==> phase.spec_polled(byte).0 == phase,
        phase.spec_interrupt().1 == Directive::Ignored ==> phase.spec_interrupt().0 == phase,
{
}

/// The connection is looked at after every burst: the end of a burst never
/// starts the next one. It either reports a stop or asks for a poll, and
/// only a poll that found nothing starts a burst again.
pub proof fn lemma_poll_between_bursts(
    mode: ResumeMode,
    report: BurstReport,
    at_breakpoint: bool,
)
    ensures
        !(Phase::Bursting(mode).spec_burst_ended(report, at_breakpoint).1 is Run),
        Phase::Bursting(mode).spec_burst_ended(report, at_breakpoint).1 is Poll
            || Phase::Bursting(mode).spec_burst_ended(report, at_breakpoint).1 is Report,
        Phase::Bursting(mode).spec_burst_ended(report, at_breakpoint).1 is Poll
            ==> Phase::Bursting(mode).spec_burst_ended(report, at_breakpoint).0 == Phase::Polling(
            mode,
        ),
        Phase::Polling(mode).spec_polled(None).1 is Run,
{
}

/// A byte from the debugger stops a free-running machine within one burst:
/// when the session continues, no breakpoint is set where the burst came to
/// rest and the program has not ended, the end of that burst asks for a
/// poll, and the poll that finds the byte suspends the session and reports
/// the byte.
pub proof fn lemma_pending_byte_suspends(pc: u32, byte: u8)
    ensures
        ({
            let report = BurstReport { cause: StopCause::Paused, pc };
            let after_burst = Phase::Bursting(ResumeMode::Continue).spec_burst_ended(report, false);
            let after_poll = after_burst.0.spec_polled(Some(byte));
            &&& after_burst.1 == Directive::Poll
            &&& after_poll.0 == Phase::Suspended
            &&& after_poll.1 == Directive::Report(Event::IncomingData(byte))
        }),
{
}

/// A burst that comes to rest where a breakpoint is set is reported as a
/// stop at that breakpoint, in either mode and without a poll of the
/// connection, so a byte that arrived in the same burst waits for the next
/// read. From a suspended session this is what resuming and running into
/// the breakpoint at `pc` gives.
pub proof fn lemma_breakpoint_stop<H>(
    table: Map<BreakpointKey, H>,
    mode: ResumeMode,
    pc: u32,
)
    requires
        set_at(table, pc as u64),
    ensures
        ({
            let report = BurstReport { cause: StopCause::Paused, pc };
            let resumed = Phase::Suspended.spec_resume(mode);
            let stopped = resumed.0.spec_burst_ended(report, set_at(table, pc as u64));
            &&& resumed.1 == Directive::Run(spec_limits(mode))
            &&& stopped.0 == Phase::Suspended
            &&& stopped.1 == Directive::Report(Event::TargetStopped(StopReason::Breakpoint(pc)))
        }),
{
}

} // verus!
