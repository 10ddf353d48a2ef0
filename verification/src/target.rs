//! The debugger's target: what the bridge itself knows of one emulated
//! machine.

use vstd::prelude::*;
use crate::breakpoints::{set_at, BreakpointKey, BreakpointTable};
use crate::memory::{board_regions, AddressSpace, MemoryRegion};
use crate::session::{BurstReport, Directive, Phase, ResumeMode};

verus! {

/// A group of debugger commands that a target may or may not serve.
#[derive(Clone, Copy, Debug, PartialEq, Eq, Structural)]
pub enum Feature {
    /// Reading and writing registers and memory.
    Base,
    /// Setting and clearing breakpoints of some sort.
    Breakpoints,
    /// Breakpoints that the engine traps without changing the program.
    SoftwareBreakpoints,
    /// Breakpoints that use the machine's debug registers.
    HardwareBreakpoints,
    /// Stops on access to data.
    Watchpoints,
}

/// The features that this target serves: register and memory access, and
/// software breakpoints.
pub open spec fn served(feature: Feature) -> bool {
    feature == Feature::Base || feature == Feature::Breakpoints || feature
        == Feature::SoftwareBreakpoints
}

/// The bridge's own state of one emulated machine: the regions that are
/// mapped, the breakpoints that are set, and where the session stands. The
/// engine that executes the program belongs to the caller.
pub struct Emulator<H> {
    /// The mapped regions of the address space.
    pub space: AddressSpace,
    /// The breakpoints that are set.
    pub breakpoints: BreakpointTable<H>,
    /// The phase of the session.
    pub phase: Phase,
}

impl<H> Emulator<H> {
    /// A target with nothing mapped, no breakpoint set, and the session
    /// suspended.
    pub fn new() -> (emulator: Self)
        ensures
            emulator.space@ == Seq::<MemoryRegion>::empty(),
            emulator.breakpoints@ == Map::<BreakpointKey, H>::empty(),
            emulator.phase == Phase::Suspended,
    {
        Emulator { space: AddressSpace::new(), breakpoints: BreakpointTable::new(), phase: Phase::new() }
    }

    /// Lays out the board's memory: from now on the address space is that
    /// of the board, whose regions the caller maps in the engine.
    pub fn setup_memory(&mut self)
        ensures
            final(self).space@ == board_regions(),
            final(self).breakpoints == old(self).breakpoints,
            final(self).phase == old(self).phase,
    {
        self.space = AddressSpace::board();
    }

    /// Whether the target serves `feature`.
    pub fn supports(&self, feature: Feature) -> (yes: bool)
        ensures
            yes == served(feature),
    {
        match feature {
            Feature::Base => true,
            Feature::Breakpoints => true,
            Feature::SoftwareBreakpoints => true,
            Feature::HardwareBreakpoints => false,
            Feature::Watchpoints => false,
        }
    }

    /// Whether the target serves breakpoints at all.
    pub fn support_breakpoints(&self) -> (yes: bool)
        ensures
            yes == served(Feature::Breakpoints),
    {
        self.supports(Feature::Breakpoints)
    }

    /// Whether the target serves software breakpoints.
    pub fn support_sw_breakpoint(&self) -> (yes: bool)
        ensures
            yes == served(Feature::SoftwareBreakpoints),
    {
        self.supports(Feature::SoftwareBreakpoints)
    }

    /// The debugger asks to resume; see `Phase::resume`. Memory map and
    /// breakpoints stay as they are.
    pub fn resume(&mut self, mode: ResumeMode) -> (directive: Directive)
        ensures
            (final(self).phase, directive) == old(self).phase.spec_resume(mode),
            final(self).space == old(self).space,
            final(self).breakpoints == old(self).breakpoints,
    {
        let (phase, directive) = self.phase.resume(mode);
        self.phase = phase;
        directive
    }

    /// A burst has ended; see `Phase::burst_ended`. Whether the machine
    /// rests at a breakpoint is decided by the target's own table.
    pub fn burst_ended(&mut self, report: BurstReport) -> (directive: Directive)
        ensures
            (final(self).phase, directive) == old(self).phase.spec_burst_ended(
                report,
                set_at(old(self).breakpoints@, report.pc as u64),
            ),
            final(self).space == old(self).space,
            final(self).breakpoints == old(self).breakpoints,
    {
        let (phase, directive) = self.phase.burst_ended(&self.breakpoints, report);
        self.phase = phase;
        directive
    }

    /// The connection was polled; see `Phase::polled`.
    pub fn polled(&mut self, byte: Option<u8>) -> (directive: Directive)
        ensures
            (final(self).phase, directive) == old(self).phase.spec_polled(byte),
            final(self).space == old(self).space,
            final(self).breakpoints == old(self).breakpoints,
    {
        let (phase, directive) = self.phase.polled(byte);
        self.phase = phase;
        directive
    }

    /// The protocol layer asks for an interrupt; see `Phase::interrupt`.
    /// Nothing that the debugger can see of the machine is touched.
    pub fn on_interrupt(&mut self) -> (directive: Directive)
        ensures
            (final(self).phase, directive) == old(self).phase.spec_interrupt(),
            final(self).space == old(self).space,
            final(self).breakpoints == old(self).breakpoints,
    {
        let (phase, directive) = self.phase.interrupt();
        self.phase = phase;
        directive
    }

    /// The connection failed; see `Phase::transport_failed`.
    pub fn transport_failed(&mut self) -> (directive: Directive)
        ensures
            (final(self).phase, directive) == old(self).phase.spec_transport_failed(),
            final(self).space == old(self).space,
            final(self).breakpoints == old(self).breakpoints,
    {
        let (phase, directive) = self.phase.transport_failed();
        self.phase = phase;
        directive
    }
}

} // verus!
