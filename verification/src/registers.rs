//! The register snapshot and the fixed order in which it travels.

use vstd::prelude::*;
use crate::error::TargetError;

verus! {

/// How many registers a snapshot holds.
pub const REGISTER_COUNT: usize = 17;

/// How many of them are general-purpose.
pub const GENERAL_COUNT: usize = 13;

/// One register of the machine's core register file.
#[derive(Clone, Copy, Debug, PartialEq, Eq, Structural)]
pub enum Register {
    R0,
    R1,
    R2,
    R3,
    R4,
    R5,
    R6,
    R7,
    R8,
    R9,
    R10,
    R11,
    R12,
    /// The stack pointer.
    Sp,
    /// The link register.
    Lr,
    /// The program counter.
    Pc,
    /// The status register.
    Cpsr,
}

/// The register that travels at `slot` of the transfer order: the
/// general-purpose registers first, then stack pointer, link register,
/// program counter and status register.
pub open spec fn register_at(slot: int) -> Register {
    if slot == 0 {
        Register::R0
    } else if slot == 1 {
        Register::R1
    } else if slot == 2 {
        Register::R2
    } else if slot == 3 {
        Register::R3
    } else if slot == 4 {
        Register::R4
    } else if slot == 5 {
        Register::R5
    } else if slot == 6 {
        Register::R6
    } else if slot == 7 {
        Register::R7
    } else if slot == 8 {
        Register::R8
    } else if slot == 9 {
        Register::R9
    } else if slot == 10 {
        Register::R10
    } else if slot == 11 {
        Register::R11
    } else if slot == 12 {
        Register::R12
    } else if slot == 13 {
        Register::Sp
    } else if slot == 14 {
        Register::Lr
    } else if slot == 15 {
        Register::Pc
    } else {
        Register::Cpsr
    }
}

impl Register {
    /// The place of the register in the transfer order.
    pub open spec fn spec_slot(self) -> int {
        match self {
            Register::R0 => 0,
            Register::R1 => 1,
            Register::R2 => 2,
            Register::R3 => 3,
            Register::R4 => 4,
            Register::R5 => 5,
            Register::R6 => 6,
            Register::R7 => 7,
            Register::R8 => 8,
            Register::R9 => 9,
            Register::R10 => 10,
            Register::R11 => 11,
            Register::R12 => 12,
            Register::Sp => 13,
            Register::Lr => 14,
            Register::Pc => 15,
            Register::Cpsr => 16,
        }
    }

    /// The place of the register in the transfer order.
    pub fn slot(self) -> (slot: usize)
        ensures
            slot == self.spec_slot(),
            slot < REGISTER_COUNT,
            register_at(slot as int) == self,
    {
        match self {
            Register::R0 => 0,
            Register::R1 => 1,
            Register::R2 => 2,
            Register::R3 => 3,
            Register::R4 => 4,
            Register::R5 => 5,
            Register::R6 => 6,
            Register::R7 => 7,
            Register::R8 => 8,
            Register::R9 => 9,
            Register::R10 => 10,
            Register::R11 => 11,
            Register::R12 => 12,
            Register::Sp => 13,
            Register::Lr => 14,
            Register::Pc => 15,
            Register::Cpsr => 16,
        }
    }

    /// The register at `slot` of the transfer order, if there is one.
    pub fn from_slot(slot: usize) -> (register: Option<Register>)
        ensures
            slot < REGISTER_COUNT ==> register == Some(register_at(slot as int)),
            slot >= REGISTER_COUNT ==> register.is_none(),
    {
        if slot >= REGISTER_COUNT {
            None
        } else if slot == 0 {
            Some(Register::R0)
        } else if slot == 1 {
            Some(Register::R1)
        } else if slot == 2 {
            Some(Register::R2)
        } else if slot == 3 {
            Some(Register::R3)
        } else if slot == 4 {
            Some(Register::R4)
        } else if slot == 5 {
            Some(Register::R5)
        } else if slot == 6 {
            Some(Register::R6)
        } else if slot == 7 {
            Some(Register::R7)
        } else if slot == 8 {
            Some(Register::R8)
        } else if slot == 9 {
            Some(Register::R9)
        } else if slot == 10 {
            Some(Register::R10)
        } else if slot == 11 {
            Some(Register::R11)
        } else if slot == 12 {
            Some(Register::R12)
        } else if slot == 13 {
            Some(Register::Sp)
        } else if slot == 14 {
            Some(Register::Lr)
        } else if slot == 15 {
            Some(Register::Pc)
        } else {
            Some(Register::Cpsr)
        }
    }
}

/// The transfer order as a sequence.
pub open spec fn spec_transfer_order() -> Seq<Register> {
    Seq::new(REGISTER_COUNT as nat, |slot: int| register_at(slot))
}

/// The registers in the order in which a snapshot is read from the engine
/// and written back to it.
pub fn transfer_order() -> (order: Vec<Register>)
    ensures
        order@ == spec_transfer_order(),
{
    let mut order: Vec<Register> = Vec::new();
    let mut slot: usize = 0;
    while slot < REGISTER_COUNT
        invariant
            slot <= REGISTER_COUNT,
            order@.len() == slot,
            forall|i: int| 0 <= i < slot ==> order@[i] == register_at(i),
        decreases REGISTER_COUNT - slot,
    {
        match Register::from_slot(slot) {
            Some(register) => order.push(register),
            None => {},
        }
        slot = slot + 1;
    }
    order
}

/// The complete register state of the machine at one suspension point.
#[derive(Clone, Copy, Debug, PartialEq, Eq)]
pub struct RegisterSnapshot {
    /// The general-purpose registers.
    pub r: [u32; 13],
    /// The stack pointer.
    pub sp: u32,
    /// The link register.
    pub lr: u32,
    /// The program counter.
    pub pc: u32,
    /// The status register.
    pub cpsr: u32,
}

/// One register write that is asked of the engine.
#[derive(Clone, Copy, Debug, PartialEq, Eq, Structural)]
pub struct RegisterWrite {
    pub register: Register,
    pub value: u64,
}

impl RegisterSnapshot {
    /// What the snapshot holds for `register`.
    pub open spec fn spec_get(self, register: Register) -> u32 {
        match register {
            Register::Sp => self.sp,
            Register::Lr => self.lr,
            Register::Pc => self.pc,
            Register::Cpsr => self.cpsr,
            _ => self.r@[register.spec_slot()],
        }
    }

    /// The snapshot's values in transfer order, as wide as the engine takes
    /// them.
    pub open spec fn values(self) -> Seq<u64> {
        Seq::new(REGISTER_COUNT as nat, |slot: int| self.spec_get(register_at(slot)) as u64)
    }

    /// The writes that carry the snapshot to the engine.
    pub open spec fn spec_write_plan(self) -> Seq<RegisterWrite> {
        Seq::new(
            REGISTER_COUNT as nat,
            |slot: int|
                RegisterWrite {
                    register: register_at(slot),
                    value: self.spec_get(register_at(slot)) as u64,
                },
        )
    }

    /// A snapshot in which every register is zero.
    pub fn zeroed() -> (snapshot: RegisterSnapshot)
        ensures
            forall|slot: int| 0 <= slot < REGISTER_COUNT ==> snapshot.values()[slot] == 0,
    {
        RegisterSnapshot { r: [0u32; 13], sp: 0, lr: 0, pc: 0, cpsr: 0 }
    }

    /// What the snapshot holds for `register`.
    pub fn get(&self, register: Register) -> (value: u32)
        ensures
            value == self.spec_get(register),
    {
        match register {
            Register::Sp => self.sp,
            Register::Lr => self.lr,
            Register::Pc => self.pc,
            Register::Cpsr => self.cpsr,
            _ => self.r[register.slot()],
        }
    }

    /// Puts `value` in the place of `register` and leaves the rest alone.
    pub fn set(&mut self, register: Register, value: u32)
        ensures
            final(self).spec_get(register) == value,
            forall|other: Register|
                other != register ==> final(self).spec_get(other) == old(self).spec_get(other),
    {
        match register {
            Register::Sp => self.sp = value,
            Register::Lr => self.lr = value,
            Register::Pc => self.pc = value,
            Register::Cpsr => self.cpsr = value,
            _ => {
                let slot = register.slot();
                self.r[slot] = value;
            },
        }
    }
}

/// Whether `reads` is a complete set of answers: one for every register, in
/// transfer order, none refused, none wider than a register.
pub open spec fn readable(reads: Seq<Option<u64>>) -> bool {
    &&& reads.len() == REGISTER_COUNT
    &&& forall|slot: int|
        0 <= slot < REGISTER_COUNT ==> (#[trigger] reads[slot]).is_some() && reads[slot].unwrap()
            <= u32::MAX
}

/// Whether `snapshot` is what the answers `reads` amount to.
pub open spec fn assembles(reads: Seq<Option<u64>>, snapshot: RegisterSnapshot) -> bool {
    &&& readable(reads)
    &&& forall|slot: int|
        0 <= slot < REGISTER_COUNT ==> #[trigger] reads[slot] == Some(snapshot.values()[slot])
}

/// Whether every write of a snapshot was confirmed.
pub open spec fn all_confirmed(acks: Seq<bool>) -> bool {
    &&& acks.len() == REGISTER_COUNT
    &&& forall|slot: int| 0 <= slot < REGISTER_COUNT ==> #[trigger] acks[slot]
}

/// Assembles a snapshot from what the engine answered to one read of each
/// register in transfer order; `None` stands for a read that the engine
/// refused. Any incomplete set of answers is an `EngineAccess` error, and no
/// partial snapshot is made.
pub fn read_registers(reads: &[Option<u64>]) -> (result: Result<RegisterSnapshot, TargetError>)
    ensures
        match result {
            Ok(snapshot) => assembles(reads@, snapshot),
            Err(error) => error == TargetError::EngineAccess && !readable(reads@),
        },
{
    if reads.len() != REGISTER_COUNT {
        return Err(TargetError::EngineAccess);
    }
    let mut snapshot = RegisterSnapshot { r: [0u32; 13], sp: 0, lr: 0, pc: 0, cpsr: 0 };
    let mut slot: usize = 0;
    while slot < REGISTER_COUNT
        invariant
            slot <= REGISTER_COUNT,
            reads@.len() == REGISTER_COUNT,
            forall|i: int|
                0 <= i < slot ==> (#[trigger] reads@[i]).is_some() && reads@[i].unwrap()
                    <= u32::MAX,
            forall|i: int|
                0 <= i < slot ==> #[trigger] reads@[i] == Some(
                    snapshot.spec_get(register_at(i)) as u64,
                ),
        decreases REGISTER_COUNT - slot,
    {
        let register = match Register::from_slot(slot) {
            Some(register) => register,
            None => {
                return Err(TargetError::EngineAccess);
            },
        };
        match reads[slot] {
            Some(wide) => {
                if wide > 0xffff_ffff {
                    return Err(TargetError::EngineAccess);
                }
                let ghost before = snapshot;
                snapshot.set(register, wide as u32);
                assert forall|i: int| 0 <= i < slot implies #[trigger] reads@[i] == Some(
                    snapshot.spec_get(register_at(i)) as u64,
                ) by {
                    assert(register_at(i) != register);
                    assert(snapshot.spec_get(register_at(i)) == before.spec_get(register_at(i)));
                }
            },
            None => {
                return Err(TargetError::EngineAccess);
            },
        }
        slot = slot + 1;
    }
    Ok(snapshot)
}

/// The writes that carry `snapshot` to the engine: one for every register,
/// in transfer order, each value widened to what the engine takes. The
/// caller performs all of them, also after one has failed.
pub fn write_registers(snapshot: &RegisterSnapshot) -> (plan: Vec<RegisterWrite>)
    ensures
        plan@ == snapshot.spec_write_plan(),
{
    let mut plan: Vec<RegisterWrite> = Vec::new();
    let mut slot: usize = 0;
    while slot < REGISTER_COUNT
        invariant
            slot <= REGISTER_COUNT,
            plan@.len() == slot,
            forall|i: int| 0 <= i < slot ==> plan@[i] == snapshot.spec_write_plan()[i],
        decreases REGISTER_COUNT - slot,
    {
        match Register::from_slot(slot) {
            Some(register) => {
                plan.push(RegisterWrite { register, value: snapshot.get(register) as u64 });
            },
            None => {},
        }
        slot = slot + 1;
    }
    plan
}

/// Judges one pass over a write plan from what the engine said to each
/// write. A pass with a refused write leaves the registers in a state that
/// the engine accepts but that is no snapshot's, and is an `EngineAccess`
/// error.
pub fn confirm_writes(acks: &[bool]) -> (result: Result<(), TargetError>)
    ensures
        result == if all_confirmed(acks@) {
            Ok::<(), TargetError>(())
        } else {
            Err(TargetError::EngineAccess)
        },
{
    if acks.len() != REGISTER_COUNT {
        return Err(TargetError::EngineAccess);
    }
    let mut slot: usize = 0;
    while slot < REGISTER_COUNT
        invariant
            slot <= REGISTER_COUNT,
            acks@.len() == REGISTER_COUNT,
            forall|i: int| 0 <= i < slot ==> #[trigger] acks@[i],
        decreases REGISTER_COUNT - slot,
    {
        if !acks[slot] {
            return Err(TargetError::EngineAccess);
        }
        slot = slot + 1;
    }
    Ok(())
}

/// A register file after `writes` were applied to it in order, each write
/// replacing what the file held for its register.
pub open spec fn file_after(file: Map<Register, u64>, writes: Seq<RegisterWrite>) -> Map<
    Register,
    u64,
>
    decreases writes.len(),
{
    if writes.len() == 0 {
        file
    } else {
        file_after(file, writes.drop_last()).insert(writes.last().register, writes.last().value)
    }
}

/// What a register file answers to one read of each register in transfer
/// order.
pub open spec fn file_reads(file: Map<Register, u64>) -> Seq<Option<u64>> {
    Seq::new(REGISTER_COUNT as nat, |slot: int| Some(file[register_at(slot)]))
}

/// A set of answers amounts to at most one snapshot.
pub proof fn lemma_assembles_one(
    reads: Seq<Option<u64>>,
    first: RegisterSnapshot,
    second: RegisterSnapshot,
)
    requires
        assembles(reads, first),
        assembles(reads, second),
    ensures
        first == second,
{
    assert forall|slot: int| 0 <= slot < REGISTER_COUNT implies first.spec_get(register_at(slot))
        == second.spec_get(register_at(slot)) by {
        assert(reads[slot] == Some(first.values()[slot]));
        assert(reads[slot] == Some(second.values()[slot]));
    }
    assert(first.spec_get(register_at(13)) == second.spec_get(register_at(13)));
    assert(first.spec_get(register_at(14)) == second.spec_get(register_at(14)));
    assert(first.spec_get(register_at(15)) == second.spec_get(register_at(15)));
    assert(first.spec_get(register_at(16)) == second.spec_get(register_at(16)));
    assert forall|i: int| 0 <= i < 13 implies first.r@[i] == second.r@[i] by {
        assert(first.spec_get(register_at(i)) == second.spec_get(register_at(i)));
    }
    assert(first.r@ =~= second.r@);
    assert(first.r == second.r);
}

/// After the first `count` writes of a snapshot's plan, the file holds the
/// snapshot's value for each register that was written.
proof fn lemma_file_after_prefix(snapshot: RegisterSnapshot, file: Map<Register, u64>, count: int)
    requires
        0 <= count <= REGISTER_COUNT,
    ensures
        forall|slot: int|
            0 <= slot < count ==> {
                let after = file_after(file, snapshot.spec_write_plan().subrange(0, count));
                &&& after.dom().contains(#[trigger] register_at(slot))
                &&& after[register_at(slot)] == snapshot.spec_get(register_at(slot)) as u64
            },
    decreases count,
{
    if count > 0 {
        let plan = snapshot.spec_write_plan();
        let writes = plan.subrange(0, count);
        lemma_file_after_prefix(snapshot, file, count - 1);
        assert(writes.drop_last() =~= plan.subrange(0, count - 1));
        assert(writes.last() == plan[count - 1]);
        assert forall|slot: int| 0 <= slot < count implies {
            let after = file_after(file, writes);
            &&& after.dom().contains(#[trigger] register_at(slot))
            &&& after[register_at(slot)] == snapshot.spec_get(register_at(slot)) as u64
        } by {
            if slot < count - 1 {
                assert(register_at(slot) != register_at(count - 1));
            }
        }
    }
}

/// Writing a snapshot and reading the registers back gives the snapshot:
/// whatever a register file held, once the writes of `snapshot` were applied
/// to it, one read of each register in transfer order assembles to
/// `snapshot` and to nothing else.
pub proof fn lemma_register_round_trip(snapshot: RegisterSnapshot, file: Map<Register, u64>)
    ensures
        assembles(file_reads(file_after(file, snapshot.spec_write_plan())), snapshot),
        forall|other: RegisterSnapshot|
            assembles(file_reads(file_after(file, snapshot.spec_write_plan())), other) ==> other
                == snapshot,
{
    let plan = snapshot.spec_write_plan();
    lemma_file_after_prefix(snapshot, file, REGISTER_COUNT as int);
    assert(plan.subrange(0, REGISTER_COUNT as int) =~= plan);
    let reads = file_reads(file_after(file, plan));
    assert forall|slot: int| 0 <= slot < REGISTER_COUNT implies (#[trigger] reads[slot]).is_some()
        && reads[slot].unwrap() <= u32::MAX && reads[slot] == Some(snapshot.values()[slot]) by {
        assert(file_after(file, plan)[register_at(slot)] == snapshot.spec_get(register_at(slot))
            as u64);
    }
    assert(assembles(reads, snapshot));
    assert forall|other: RegisterSnapshot| assembles(reads, other) implies other == snapshot by {
        lemma_assembles_one(reads, other, snapshot);
    }
}


} // verus!
