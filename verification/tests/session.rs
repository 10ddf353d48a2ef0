use emu_gdb::breakpoints::{BreakpointKind, BreakpointTable};
use emu_gdb::error::TargetError;
use emu_gdb::session::{
    limits, stop_reason, BurstReport, Directive, Event, Phase, ResumeMode, RunLimits, StopCause,
    StopReason, SIGINT,
};

const UNBOUNDED: RunLimits = RunLimits { instructions: None, timeout: None };
const ONE_STEP: RunLimits = RunLimits { instructions: Some(1), timeout: None };

fn paused(pc: u32) -> BurstReport {
    BurstReport { cause: StopCause::Paused, pc }
}

fn table_with(addr: u64) -> BreakpointTable<u32> {
    let mut table = BreakpointTable::new();
    table.add_sw_breakpoint(addr, BreakpointKind::Arm32, Some(1));
    table
}

#[test]
fn session_begins_suspended() {
    assert_eq!(Phase::new(), Phase::Suspended);
}

#[test]
fn continue_runs_without_bounds_and_step_runs_one_instruction() {
    assert_eq!(limits(ResumeMode::Continue), UNBOUNDED);
    assert_eq!(limits(ResumeMode::Step), ONE_STEP);
    assert_eq!(
        Phase::Suspended.resume(ResumeMode::Continue),
        (Phase::Bursting(ResumeMode::Continue), Directive::Run(UNBOUNDED))
    );
    assert_eq!(
        Phase::Suspended.resume(ResumeMode::Step),
        (Phase::Bursting(ResumeMode::Step), Directive::Run(ONE_STEP))
    );
}

#[test]
fn exit_status_is_reported() {
    let table: BreakpointTable<u32> = BreakpointTable::new();
    let report = BurstReport { cause: StopCause::Exited(7), pc: 0x1010 };
    assert_eq!(
        Phase::Bursting(ResumeMode::Continue).burst_ended(&table, report),
        (Phase::Suspended, Directive::Report(Event::TargetStopped(StopReason::Exited(7))))
    );
}

#[test]
fn exit_status_keeps_its_low_byte() {
    let at = |status: u32| {
        stop_reason(ResumeMode::Continue, BurstReport { cause: StopCause::Exited(status), pc: 0 }, false)
    };
    assert_eq!(at(0), Some(StopReason::Exited(0)));
    assert_eq!(at(255), Some(StopReason::Exited(255)));
    assert_eq!(at(256), Some(StopReason::Exited(0)));
    assert_eq!(at(263), Some(StopReason::Exited(7)));
    assert_eq!(at(u32::MAX), Some(StopReason::Exited(255)));
}

#[test]
fn exit_comes_before_a_breakpoint_at_the_same_address() {
    let report = BurstReport { cause: StopCause::Exited(3), pc: 0x1004 };
    assert_eq!(stop_reason(ResumeMode::Continue, report, true), Some(StopReason::Exited(3)));
    let report = BurstReport { cause: StopCause::Signaled(11), pc: 0x1004 };
    assert_eq!(stop_reason(ResumeMode::Step, report, true), Some(StopReason::Signal(11)));
}

#[test]
fn fatal_signal_is_reported() {
    let table: BreakpointTable<u32> = BreakpointTable::new();
    let report = BurstReport { cause: StopCause::Signaled(4), pc: 0x1010 };
    assert_eq!(
        Phase::Bursting(ResumeMode::Continue).burst_ended(&table, report),
        (Phase::Suspended, Directive::Report(Event::TargetStopped(StopReason::Signal(4))))
    );
}

#[test]
fn breakpoint_stop_is_reported_without_a_poll() {
    let table = table_with(0x1004);
    for mode in [ResumeMode::Continue, ResumeMode::Step] {
        assert_eq!(
            Phase::Bursting(mode).burst_ended(&table, paused(0x1004)),
            (
                Phase::Suspended,
                Directive::Report(Event::TargetStopped(StopReason::Breakpoint(0x1004)))
            )
        );
    }
}

#[test]
fn pause_away_from_breakpoints_polls_the_connection() {
    let table = table_with(0x1004);
    assert_eq!(
        Phase::Bursting(ResumeMode::Continue).burst_ended(&table, paused(0x1008)),
        (Phase::Polling(ResumeMode::Continue), Directive::Poll)
    );
}

#[test]
fn finished_step_is_reported() {
    let table = table_with(0x1004);
    assert_eq!(
        Phase::Bursting(ResumeMode::Step).burst_ended(&table, paused(0x1008)),
        (Phase::Suspended, Directive::Report(Event::TargetStopped(StopReason::StepDone)))
    );
}

#[test]
fn pending_byte_suspends_the_session() {
    assert_eq!(
        Phase::Polling(ResumeMode::Continue).polled(Some(0x03)),
        (Phase::Suspended, Directive::Report(Event::IncomingData(0x03)))
    );
}

#[test]
fn quiet_connection_starts_the_next_burst() {
    assert_eq!(
        Phase::Polling(ResumeMode::Continue).polled(None),
        (Phase::Bursting(ResumeMode::Continue), Directive::Run(UNBOUNDED))
    );
}

#[test]
fn interrupt_halts_and_reports_sigint() {
    assert_eq!(SIGINT, 2);
    for phase in [
        Phase::Suspended,
        Phase::Bursting(ResumeMode::Continue),
        Phase::Polling(ResumeMode::Continue),
        Phase::Bursting(ResumeMode::Step),
    ] {
        assert_eq!(
            phase.interrupt(),
            (Phase::Suspended, Directive::Halt(StopReason::Signal(2)))
        );
    }
    assert_eq!(Phase::Closed.interrupt(), (Phase::Closed, Directive::Ignored));
}

#[test]
fn transport_failure_closes_the_session() {
    for phase in [
        Phase::Suspended,
        Phase::Bursting(ResumeMode::Continue),
        Phase::Polling(ResumeMode::Step),
        Phase::Closed,
    ] {
        assert_eq!(
            phase.transport_failed(),
            (Phase::Closed, Directive::Close(TargetError::Transport))
        );
    }
}

#[test]
fn input_that_does_not_fit_the_phase_is_ignored() {
    let table: BreakpointTable<u32> = BreakpointTable::new();
    for phase in [
        Phase::Bursting(ResumeMode::Continue),
        Phase::Polling(ResumeMode::Continue),
        Phase::Closed,
    ] {
        assert_eq!(phase.resume(ResumeMode::Continue), (phase, Directive::Ignored));
    }
    for phase in [Phase::Suspended, Phase::Polling(ResumeMode::Continue), Phase::Closed] {
        assert_eq!(phase.burst_ended(&table, paused(0)), (phase, Directive::Ignored));
    }
    for phase in [Phase::Suspended, Phase::Bursting(ResumeMode::Continue), Phase::Closed] {
        assert_eq!(phase.polled(Some(1)), (phase, Directive::Ignored));
        assert_eq!(phase.polled(None), (phase, Directive::Ignored));
    }
}

#[test]
fn failed_command_ends_the_session_only_when_fatal() {
    for phase in [
        Phase::Suspended,
        Phase::Bursting(ResumeMode::Continue),
        Phase::Polling(ResumeMode::Continue),
        Phase::Closed,
    ] {
        for error in [
            TargetError::EngineAccess,
            TargetError::MemoryAccess,
            TargetError::DuplicateBreakpoint,
            TargetError::UnknownBreakpoint,
        ] {
            assert_eq!(phase.command_failed(error), (phase, Directive::Ignored));
        }
        assert_eq!(
            phase.command_failed(TargetError::Transport),
            (Phase::Closed, Directive::Close(TargetError::Transport))
        );
    }
}
