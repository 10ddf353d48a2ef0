use emu_gdb::breakpoints::{Added, BreakpointKind};
use emu_gdb::error::TargetError;
use emu_gdb::memory::{
    accept_read, accept_write, read_addrs, write_addrs, AddressSpace, RAM_BASE, RAM_SIZE,
};
use emu_gdb::registers::{
    confirm_writes, read_registers, transfer_order, write_registers, Register, RegisterSnapshot,
};
use emu_gdb::session::{
    BurstReport, Directive, Event, Phase, ResumeMode, RunLimits, StopCause, StopReason,
};
use emu_gdb::target::{Emulator, Feature};

/// A stand-in for the engine: a program of one-word instructions from
/// `entry` to `end`, each of which adds one to R0; at `end` the program
/// halts with `status`. A trap halts the run before the instruction at its
/// address executes. A run also pauses after `slice` instructions.
struct Machine {
    registers: [u64; 17],
    ram: Vec<u8>,
    traps: Vec<(u32, u64)>,
    next_trap: u32,
    end: Option<u32>,
    status: u32,
    slice: u64,
    runs: usize,
}

impl Machine {
    fn new(entry: u32, end: Option<u32>, status: u32) -> Machine {
        let mut registers = [0u64; 17];
        registers[Register::Pc.slot()] = entry as u64;
        Machine {
            registers,
            ram: vec![0; RAM_SIZE as usize],
            traps: Vec::new(),
            next_trap: 1,
            end,
            status,
            slice: 1000,
            runs: 0,
        }
    }

    fn pc(&self) -> u32 {
        self.registers[Register::Pc.slot()] as u32
    }

    fn install_trap(&mut self, addr: u64) -> Option<u32> {
        if addr % 4 != 0 {
            return None;
        }
        let id = self.next_trap;
        self.next_trap += 1;
        self.traps.push((id, addr));
        Some(id)
    }

    fn remove_trap(&mut self, id: u32) {
        let before = self.traps.len();
        self.traps.retain(|(trap, _)| *trap != id);
        assert_eq!(self.traps.len() + 1, before);
    }

    fn run(&mut self, limits: RunLimits) -> BurstReport {
        self.runs += 1;
        let mut executed = 0u64;
        loop {
            let pc = self.pc();
            if self.traps.iter().any(|(_, addr)| *addr == pc as u64) {
                return BurstReport { cause: StopCause::Paused, pc };
            }
            if Some(pc) == self.end {
                return BurstReport { cause: StopCause::Exited(self.status), pc };
            }
            self.registers[Register::R0.slot()] += 1;
            self.registers[Register::Pc.slot()] = pc.wrapping_add(4) as u64;
            executed += 1;
            if limits.instructions == Some(executed) || executed == self.slice {
                return BurstReport { cause: StopCause::Paused, pc: self.pc() };
            }
        }
    }
}

/// A stand-in for the connection: bytes that the debugger has sent and that
/// nobody has read.
struct Wire {
    pending: Vec<u8>,
    polls: usize,
}

impl Wire {
    fn peek(&mut self) -> Option<u8> {
        self.polls += 1;
        self.pending.first().copied()
    }
}

fn wait_for_stop_reason(
    emulator: &mut Emulator<u32>,
    machine: &mut Machine,
    wire: &mut Wire,
    mode: ResumeMode,
) -> Event {
    let mut directive = emulator.resume(mode);
    loop {
        directive = match directive {
            Directive::Run(limits) => {
                let report = machine.run(limits);
                emulator.burst_ended(report)
            },
            Directive::Poll => {
                let byte = wire.peek();
                emulator.polled(byte)
            },
            Directive::Report(event) => return event,
            other => panic!("unexpected directive {:?}", other),
        }
    }
}

fn registers_of(machine: &Machine) -> RegisterSnapshot {
    let reads: Vec<Option<u64>> =
        transfer_order().iter().map(|register| Some(machine.registers[register.slot()])).collect();
    read_registers(&reads).unwrap()
}

fn add_breakpoint(emulator: &mut Emulator<u32>, machine: &mut Machine, addr: u32) -> Added<u32> {
    let kind = BreakpointKind::Arm32;
    if emulator.breakpoints.contains(addr as u64, kind) {
        return emulator.breakpoints.add_sw_breakpoint(addr as u64, kind, None);
    }
    let trap = machine.install_trap(addr as u64);
    emulator.breakpoints.add_sw_breakpoint(addr as u64, kind, trap)
}

#[test]
fn scenario_exit_code_reporting() {
    let mut emulator: Emulator<u32> = Emulator::new();
    let mut machine = Machine::new(0x1000, Some(0x1010), 7);
    let mut wire = Wire { pending: vec![], polls: 0 };
    let event = wait_for_stop_reason(&mut emulator, &mut machine, &mut wire, ResumeMode::Continue);
    assert_eq!(event, Event::TargetStopped(StopReason::Exited(7)));
    assert_eq!(emulator.phase, Phase::Suspended);
    assert_eq!(wire.polls, 0);
}

#[test]
fn scenario_breakpoint_then_continue() {
    let mut emulator: Emulator<u32> = Emulator::new();
    let mut machine = Machine::new(0x1000, Some(0x1010), 0);
    let mut wire = Wire { pending: vec![], polls: 0 };

    assert_eq!(add_breakpoint(&mut emulator, &mut machine, 0x1004), Added::Recorded);
    let event = wait_for_stop_reason(&mut emulator, &mut machine, &mut wire, ResumeMode::Continue);
    assert_eq!(event, Event::TargetStopped(StopReason::Breakpoint(0x1004)));
    let at_stop = registers_of(&machine);
    assert_eq!(at_stop.pc, 0x1004);
    assert_eq!(at_stop.r[0], 1);
    assert_eq!(emulator.phase, Phase::Suspended);

    let trap = emulator.breakpoints.remove_sw_breakpoint(0x1004, BreakpointKind::Arm32).unwrap();
    machine.remove_trap(trap);
    assert!(machine.traps.is_empty());

    let event = wait_for_stop_reason(&mut emulator, &mut machine, &mut wire, ResumeMode::Continue);
    assert_eq!(event, Event::TargetStopped(StopReason::Exited(0)));
    let at_end = registers_of(&machine);
    assert_eq!(at_end.pc, 0x1010);
    assert_eq!(at_end.r[0], 4);
}

#[test]
fn breakpoint_stops_before_the_instruction_runs() {
    for steps in 0..6u32 {
        let mut emulator: Emulator<u32> = Emulator::new();
        let mut machine = Machine::new(0x1000, Some(0x2000), 0);
        let mut wire = Wire { pending: vec![0x03], polls: 0 };
        let addr = 0x1000 + 4 * steps;
        assert_eq!(add_breakpoint(&mut emulator, &mut machine, addr), Added::Recorded);
        let event =
            wait_for_stop_reason(&mut emulator, &mut machine, &mut wire, ResumeMode::Continue);
        assert_eq!(event, Event::TargetStopped(StopReason::Breakpoint(addr)));
        let snapshot = registers_of(&machine);
        assert_eq!(snapshot.pc, addr);
        assert_eq!(snapshot.r[0], steps);
        assert_eq!(wire.polls, 0);
        assert_eq!(wire.pending, vec![0x03]);
    }
}

#[test]
fn pending_byte_interrupts_a_free_running_program() {
    let mut emulator: Emulator<u32> = Emulator::new();
    let mut machine = Machine::new(0x1000, None, 0);
    let mut wire = Wire { pending: vec![0x03], polls: 0 };
    let event = wait_for_stop_reason(&mut emulator, &mut machine, &mut wire, ResumeMode::Continue);
    assert_eq!(event, Event::IncomingData(0x03));
    assert_eq!(machine.runs, 1);
    assert_eq!(wire.polls, 1);
    assert_eq!(emulator.phase, Phase::Suspended);
    assert_eq!(wire.pending, vec![0x03]);
    assert_eq!(
        emulator.on_interrupt(),
        Directive::Halt(StopReason::Signal(2))
    );
    assert_eq!(registers_of(&machine).r[0], 1000);
}

#[test]
fn quiet_connection_is_polled_after_every_burst() {
    let mut emulator: Emulator<u32> = Emulator::new();
    let mut machine = Machine::new(0x1000, Some(0x1000 + 4 * 3500), 9);
    let mut wire = Wire { pending: vec![], polls: 0 };
    let event = wait_for_stop_reason(&mut emulator, &mut machine, &mut wire, ResumeMode::Continue);
    assert_eq!(event, Event::TargetStopped(StopReason::Exited(9)));
    assert_eq!(machine.runs, 4);
    assert_eq!(wire.polls, 3);
}

#[test]
fn single_step_runs_one_instruction() {
    let mut emulator: Emulator<u32> = Emulator::new();
    let mut machine = Machine::new(0x1000, Some(0x1010), 0);
    let mut wire = Wire { pending: vec![], polls: 0 };
    let event = wait_for_stop_reason(&mut emulator, &mut machine, &mut wire, ResumeMode::Step);
    assert_eq!(event, Event::TargetStopped(StopReason::StepDone));
    assert_eq!(machine.pc(), 0x1004);
    assert_eq!(wire.polls, 0);
    assert_eq!(add_breakpoint(&mut emulator, &mut machine, 0x1008), Added::Recorded);
    let event = wait_for_stop_reason(&mut emulator, &mut machine, &mut wire, ResumeMode::Step);
    assert_eq!(event, Event::TargetStopped(StopReason::Breakpoint(0x1008)));
}

#[test]
fn duplicate_breakpoint_installs_no_second_trap() {
    let mut emulator: Emulator<u32> = Emulator::new();
    let mut machine = Machine::new(0x1000, Some(0x1010), 0);
    assert_eq!(add_breakpoint(&mut emulator, &mut machine, 0x1004), Added::Recorded);
    assert_eq!(add_breakpoint(&mut emulator, &mut machine, 0x1004), Added::Duplicate(None));
    assert_eq!(machine.traps.len(), 1);
    assert_eq!(add_breakpoint(&mut emulator, &mut machine, 0x1006), Added::Refused);
    assert_eq!(emulator.breakpoints.len(), 1);
}

#[test]
fn registers_written_through_the_machine_read_back() {
    let mut machine = Machine::new(0x1000, None, 0);
    let snapshot = RegisterSnapshot {
        r: [1, 2, 3, 4, 5, 6, 7, 8, 9, 10, 11, 12, 13],
        sp: 0x2003_fff0,
        lr: 0x1000_0041,
        pc: 0x1000_0100,
        cpsr: 0x10,
    };
    let mut acks = Vec::new();
    for write in write_registers(&snapshot) {
        machine.registers[write.register.slot()] = write.value;
        acks.push(true);
    }
    assert_eq!(confirm_writes(&acks), Ok(()));
    assert_eq!(registers_of(&machine), snapshot);
}

#[test]
fn memory_written_through_the_machine_reads_back() {
    let mut emulator: Emulator<u32> = Emulator::new();
    assert_eq!(write_addrs(&emulator.space, 0x2000_0ff0, &[1]), Err(TargetError::MemoryAccess));
    emulator.setup_memory();
    let mut machine = Machine::new(0x1000, None, 0);
    let data = vec![1u8, 2, 3, 4, 5, 6, 7];
    let write = write_addrs(&emulator.space, 0x2000_0ff0, &data).unwrap();
    let at = (write.addr - RAM_BASE) as usize;
    machine.ram[at..at + write.len].copy_from_slice(&data);
    assert_eq!(accept_write(true), Ok(()));
    let read = read_addrs(&emulator.space, 0x2000_0ff0, data.len()).unwrap();
    let at = (read.addr - RAM_BASE) as usize;
    let reply = machine.ram[at..at + read.len].to_vec();
    assert_eq!(accept_read(read, Some(reply)), Ok(data));
}

#[test]
fn new_target_serves_base_and_software_breakpoints() {
    let mut emulator: Emulator<u32> = Emulator::new();
    assert_eq!(emulator.phase, Phase::Suspended);
    assert_eq!(emulator.breakpoints.len(), 0);
    assert_eq!(emulator.space.regions().len(), 0);
    emulator.setup_memory();
    assert_eq!(emulator.space.regions(), AddressSpace::board().regions());
    assert_eq!(emulator.space.regions().len(), 3);
    assert_eq!(emulator.phase, Phase::Suspended);
    assert!(emulator.supports(Feature::Base));
    assert!(emulator.supports(Feature::Breakpoints));
    assert!(emulator.supports(Feature::SoftwareBreakpoints));
    assert!(!emulator.supports(Feature::HardwareBreakpoints));
    assert!(!emulator.supports(Feature::Watchpoints));
    assert!(emulator.support_breakpoints());
    assert!(emulator.support_sw_breakpoint());
}

#[test]
fn failed_connection_ends_the_session() {
    let mut emulator: Emulator<u32> = Emulator::new();
    assert!(matches!(emulator.resume(ResumeMode::Continue), Directive::Run(_)));
    let directive = emulator.transport_failed();
    assert!(matches!(directive, Directive::Close(error) if error.is_fatal()));
    assert_eq!(emulator.phase, Phase::Closed);
    assert_eq!(emulator.resume(ResumeMode::Continue), Directive::Ignored);
    assert_eq!(emulator.on_interrupt(), Directive::Ignored);
}
