//! The table of software breakpoints and the traps that stand behind them.

use vstd::prelude::*;
use crate::error::TargetError;

verus! {

/// The flavour of a software breakpoint, as the debugger names it.
#[derive(Clone, Copy, Debug, PartialEq, Eq, Structural)]
pub enum BreakpointKind {
    /// A 16-bit Thumb instruction.
    Thumb16,
    /// A 32-bit Thumb instruction.
    Thumb32,
    /// A 32-bit ARM instruction.
    Arm32,
}

/// What identifies a breakpoint: its address and its kind.
pub type BreakpointKey = (u64, BreakpointKind);

/// One breakpoint and the trap that the engine installed for it.
struct Entry<H> {
    addr: u64,
    kind: BreakpointKind,
    trap: H,
}

impl<H> Entry<H> {
    spec fn key(self) -> BreakpointKey {
        (self.addr, self.kind)
    }
}

/// Whether `entries` holds an entry for `key`.
spec fn holds<H>(entries: Seq<Entry<H>>, key: BreakpointKey) -> bool {
    exists|i: int| 0 <= i < entries.len() && (#[trigger] entries[i]).key() == key
}

/// The place of the entry for `key`.
spec fn place<H>(entries: Seq<Entry<H>>, key: BreakpointKey) -> int {
    choose|i: int| 0 <= i < entries.len() && (#[trigger] entries[i]).key() == key
}

/// Whether no two entries share a key.
spec fn distinct<H>(entries: Seq<Entry<H>>) -> bool {
    forall|i: int, j: int|
        0 <= i < j < entries.len() ==> (#[trigger] entries[i]).key() != (#[trigger] entries[j]).key()
}

/// The breakpoints that `entries` records, each with its trap.
spec fn table_of<H>(entries: Seq<Entry<H>>) -> Map<BreakpointKey, H> {
    Map::new(
        |key: BreakpointKey| holds(entries, key),
        |key: BreakpointKey| entries[place(entries, key)].trap,
    )
}

/// An entry with a new key, put behind the others, adds its breakpoint and
/// changes no other.
proof fn lemma_pushed<H>(before: Seq<Entry<H>>, entry: Entry<H>)
    requires
        distinct(before),
        !holds(before, entry.key()),
    ensures
        distinct(before.push(entry)),
        table_of(before.push(entry)) == table_of(before).insert(entry.key(), entry.trap),
{
    let after = before.push(entry);
    let last = before.len() as int;
    assert(distinct(after));
    assert forall|key: BreakpointKey| holds(after, key) <==> (key == entry.key() || holds(
        before,
        key,
    )) by {
        if holds(after, key) {
            let i = place(after, key);
            if i < last {
                assert(before[i].key() == key);
            }
        }
        if holds(before, key) {
            let i = place(before, key);
            assert(after[i].key() == key);
        }
        assert(after[last].key() == entry.key());
    }
    assert forall|key: BreakpointKey| holds(after, key) implies after[place(after, key)].trap == (
    if key == entry.key() {
        entry.trap
    } else {
        before[place(before, key)].trap
    }) by {
        let i = place(after, key);
        if key == entry.key() {
            assert(after[last].key() == key);
            assert(i == last);
        } else {
            let j = place(before, key);
            assert(after[j].key() == key);
            assert(i == j);
        }
    }
    assert(table_of(after) =~= table_of(before).insert(entry.key(), entry.trap));
}

/// Taking an entry out removes its breakpoint and changes no other.
proof fn lemma_taken_out<H>(before: Seq<Entry<H>>, gone: int)
    requires
        distinct(before),
        0 <= gone < before.len(),
    ensures
        distinct(before.remove(gone)),
        table_of(before)[before[gone].key()] == before[gone].trap,
        table_of(before.remove(gone)) == table_of(before).remove(before[gone].key()),
{
    let after = before.remove(gone);
    let key_gone = before[gone].key();
    assert(place(before, key_gone) == gone);
    assert forall|i: int, j: int| 0 <= i < j < after.len() implies (#[trigger] after[i]).key() != (
    #[trigger] after[j]).key() by {
        let from_i = if i < gone { i } else { i + 1 };
        let from_j = if j < gone { j } else { j + 1 };
        assert(after[i] == before[from_i]);
        assert(after[j] == before[from_j]);
    }
    assert forall|key: BreakpointKey| holds(after, key) <==> (key != key_gone && holds(
        before,
        key,
    )) by {
        if holds(after, key) {
            let i = place(after, key);
            let from = if i < gone { i } else { i + 1 };
            assert(before[from].key() == key);
        }
        if key != key_gone && holds(before, key) {
            let i = place(before, key);
            let to = if i < gone { i } else { i - 1 };
            assert(after[to].key() == key);
        }
    }
    assert forall|key: BreakpointKey| holds(after, key) implies after[place(after, key)].trap
        == before[place(before, key)].trap by {
        let i = place(after, key);
        let from = if i < gone { i } else { i + 1 };
        assert(before[from].key() == key);
        assert(place(before, key) == from);
    }
    assert(table_of(after) =~= table_of(before).remove(key_gone));
}

/// The breakpoints that are set, each with the trap that the engine gave for
/// it. The table is the only owner of a trap from the moment the breakpoint
/// is recorded until it is removed, when the trap is handed out for release.
/// `H` is the engine's handle for a trap; the table never looks into it.
pub struct BreakpointTable<H> {
    entries: Vec<Entry<H>>,
}

/// What became of a request to add a breakpoint.
#[derive(Debug, PartialEq, Eq)]
pub enum Added<H> {
    /// The breakpoint was recorded with its trap.
    Recorded,
    /// The engine installed no trap, and nothing was recorded.
    Refused,
    /// A breakpoint of this address and kind exists already. Nothing was
    /// recorded, and the trap that came with the request, if any, is handed
    /// back for release.
    Duplicate(Option<H>),
}

impl<H> Added<H> {
    /// What the protocol layer is told: `true` for a recorded breakpoint,
    /// `false` where the engine refused the trap, an error for a duplicate.
    pub open spec fn spec_reply(self) -> Result<bool, TargetError> {
        match self {
            Added::Recorded => Ok(true),
            Added::Refused => Ok(false),
            Added::Duplicate(_) => Err(TargetError::DuplicateBreakpoint),
        }
    }

    /// What the protocol layer is told.
    pub fn reply(&self) -> (reply: Result<bool, TargetError>)
        ensures
            reply == self.spec_reply(),
    {
        match self {
            Added::Recorded => Ok(true),
            Added::Refused => Ok(false),
            Added::Duplicate(_) => Err(TargetError::DuplicateBreakpoint),
        }
    }
}

/// Whether `trap` is the trap of one of the breakpoints in `table`.
pub open spec fn stands_behind<H>(table: Map<BreakpointKey, H>, trap: H) -> bool {
    exists|key: BreakpointKey| table.contains_key(key) && table[key] == trap
}

/// Whether a breakpoint of any kind is set at `addr`.
pub open spec fn set_at<H>(table: Map<BreakpointKey, H>, addr: u64) -> bool {
    exists|kind: BreakpointKind| table.contains_key((addr, kind))
}

/// The table after a request to add `(addr, kind)` with what the engine
/// answered to the installation: unchanged unless the key was free and a
/// trap came.
pub open spec fn table_after_add<H>(
    table: Map<BreakpointKey, H>,
    addr: u64,
    kind: BreakpointKind,
    trap: Option<H>,
) -> Map<BreakpointKey, H> {
    if table.contains_key((addr, kind)) {
        table
    } else {
        match trap {
            Some(handle) => table.insert((addr, kind), handle),
            None => table,
        }
    }
}

/// What a request to add `(addr, kind)` comes to.
pub open spec fn added<H>(
    table: Map<BreakpointKey, H>,
    addr: u64,
    kind: BreakpointKind,
    trap: Option<H>,
) -> Added<H> {
    if table.contains_key((addr, kind)) {
        Added::Duplicate(trap)
    } else if trap.is_some() {
        Added::Recorded
    } else {
        Added::Refused
    }
}

/// What a request to remove `(addr, kind)` comes to: the trap of the
/// breakpoint, or an error where no such breakpoint is set.
pub open spec fn removed<H>(table: Map<BreakpointKey, H>, addr: u64, kind: BreakpointKind) -> Result<
    H,
    TargetError,
> {
    if table.contains_key((addr, kind)) {
        Ok(table[(addr, kind)])
    } else {
        Err(TargetError::UnknownBreakpoint)
    }
}

/// One request that changes the table.
pub enum Change<H> {
    /// A request to add a breakpoint, with what the engine answered.
    Add { addr: u64, kind: BreakpointKind, trap: Option<H> },
    /// A request to remove a breakpoint.
    Remove { addr: u64, kind: BreakpointKind },
}

/// The table after one request.
pub open spec fn table_after_change<H>(table: Map<BreakpointKey, H>, change: Change<H>) -> Map<
    BreakpointKey,
    H,
> {
    match change {
        Change::Add { addr, kind, trap } => table_after_add(table, addr, kind, trap),
        Change::Remove { addr, kind } => table.remove((addr, kind)),
    }
}

/// The table after a history of requests, begun with no breakpoint set.
pub open spec fn table_after_history<H>(history: Seq<Change<H>>) -> Map<BreakpointKey, H>
    decreases history.len(),
{
    if history.len() == 0 {
        Map::empty()
    } else {
        table_after_change(table_after_history(history.drop_last()), history.last())
    }
}

/// Whether `history` holds a request to add `(addr, kind)` for which the
/// engine installed a trap.
pub open spec fn ever_added<H>(history: Seq<Change<H>>, addr: u64, kind: BreakpointKind) -> bool {
    exists|i: int|
        0 <= i < history.len() && (#[trigger] history[i] matches Change::Add {
            addr: at,
            kind: of,
            trap,
        } && at == addr && of == kind && trap.is_some())
}

impl<H> BreakpointTable<H> {
    #[verifier::type_invariant]
    spec fn well_formed(self) -> bool {
        distinct(self.entries@)
    }

    /// The breakpoints that are set, each with its trap.
    pub closed spec fn view(self) -> Map<BreakpointKey, H> {
        table_of(self.entries@)
    }

    /// A table without breakpoints.
    pub fn new() -> (table: Self)
        ensures
            table@ == Map::<BreakpointKey, H>::empty(),
    {
        let table = BreakpointTable { entries: Vec::new() };
        assert(table@ =~= Map::<BreakpointKey, H>::empty());
        table
    }

    /// With distinct keys there are as many breakpoints as entries.
    proof fn lemma_cardinality(self)
        requires
            distinct(self.entries@),
        ensures
            self@.dom().finite(),
            self@.dom().len() == self.entries@.len(),
    {
        let keys = self.entries@.map_values(|entry: Entry<H>| entry.key());
        assert forall|i: int, j: int| 0 <= i < keys.len() && 0 <= j < keys.len() && i
            != j implies keys[i] != keys[j] by {
            if i < j {
                assert(self.entries@[i].key() != self.entries@[j].key());
            } else {
                assert(self.entries@[j].key() != self.entries@[i].key());
            }
        }
        keys.unique_seq_to_set();
        assert forall|key: BreakpointKey| keys.to_set().contains(key) <==> self@.dom().contains(
            key,
        ) by {
            if keys.to_set().contains(key) {
                let i = choose|i: int| 0 <= i < keys.len() && keys[i] == key;
                assert(self.entries@[i].key() == key);
            }
            if self@.dom().contains(key) {
                let i = place(self.entries@, key);
                assert(keys[i] == key);
            }
        }
        assert(keys.to_set() =~= self@.dom());
    }

    /// How many breakpoints are set.
    pub fn len(&self) -> (count: usize)
        ensures
            self@.dom().finite(),
            count == self@.dom().len(),
    {
        proof {
            use_type_invariant(self);
            self.lemma_cardinality();
        }
        self.entries.len()
    }

    /// Where the entry for `(addr, kind)` stands, if there is one.
    fn find(&self, addr: u64, kind: BreakpointKind) -> (found: Option<usize>)
        ensures
            match found {
                Some(i) => i < self.entries@.len() && self.entries@[i as int].key() == (addr, kind),
                None => !holds(self.entries@, (addr, kind)),
            },
    {
        let mut i: usize = 0;
        while i < self.entries.len()
            invariant
                i <= self.entries@.len(),
                forall|j: int| 0 <= j < i ==> (#[trigger] self.entries@[j]).key() != (addr, kind),
            decreases self.entries@.len() - i,
        {
            if self.entries[i].addr == addr && self.entries[i].kind == kind {
                return Some(i);
            }
            i = i + 1;
        }
        None
    }

    /// Whether a breakpoint of this address and kind is set.
    pub fn contains(&self, addr: u64, kind: BreakpointKind) -> (present: bool)
        ensures
            present == self@.contains_key((addr, kind)),
    {
        self.find(addr, kind).is_some()
    }

    /// Whether a breakpoint of any kind is set at `addr`. The event loop asks
    /// this of the address at which the engine came to rest.
    pub fn hit(&self, addr: u64) -> (present: bool)
        ensures
            present == set_at(self@, addr),
    {
        let present = self.contains(addr, BreakpointKind::Thumb16) || self.contains(
            addr,
            BreakpointKind::Thumb32,
        ) || self.contains(addr, BreakpointKind::Arm32);
        proof {
            if set_at(self@, addr) {
                let kind = choose|kind: BreakpointKind| self@.contains_key((addr, kind));
                assert(kind == BreakpointKind::Thumb16 || kind == BreakpointKind::Thumb32 || kind
                    == BreakpointKind::Arm32);
            }
        }
        present
    }

    /// Adds the breakpoint `(addr, kind)`. `trap` is what the engine answered
    /// when asked to install a trap at `addr`: the trap's handle, or `None`
    /// where it refused. A key that is set already is never recorded twice,
    /// whatever the engine answered.
    pub fn add_sw_breakpoint(&mut self, addr: u64, kind: BreakpointKind, trap: Option<H>) -> (outcome:
        Added<H>)
        ensures
            outcome == added(old(self)@, addr, kind, trap),
            final(self)@ == table_after_add(old(self)@, addr, kind, trap),
    {
        proof {
            use_type_invariant(&*self);
        }
        if self.find(addr, kind).is_some() {
            return Added::Duplicate(trap);
        }
        match trap {
            Some(handle) => {
                let entry = Entry { addr, kind, trap: handle };
                proof {
                    lemma_pushed(self.entries@, entry);
                }
                let mut entries: Vec<Entry<H>> = Vec::new();
                core::mem::swap(&mut self.entries, &mut entries);
                entries.push(entry);
                core::mem::swap(&mut self.entries, &mut entries);
                Added::Recorded
            },
            None => Added::Refused,
        }
    }

    /// Removes the breakpoint `(addr, kind)` and hands out its trap, which
    /// the caller releases in the engine. Where no such breakpoint is set the
    /// table stays as it is.
    pub fn remove_sw_breakpoint(&mut self, addr: u64, kind: BreakpointKind) -> (result: Result<
        H,
        TargetError,
    >)
        ensures
            result == removed(old(self)@, addr, kind),
            final(self)@ == old(self)@.remove((addr, kind)),
    {
        proof {
            use_type_invariant(&*self);
        }
        match self.find(addr, kind) {
            None => Err(TargetError::UnknownBreakpoint),
            Some(at) => {
                proof {
                    lemma_taken_out(self.entries@, at as int);
                }
                let mut entries: Vec<Entry<H>> = Vec::new();
                core::mem::swap(&mut self.entries, &mut entries);
                let entry = entries.remove(at);
                core::mem::swap(&mut self.entries, &mut entries);
                Ok(entry.trap)
            },
        }
    }

    /// Empties the table at the end of a session and hands out every trap
    /// for release: one for each breakpoint that was set, and no other.
    pub fn release_all(&mut self) -> (traps: Vec<H>)
        ensures
            final(self)@ == Map::<BreakpointKey, H>::empty(),
            old(self)@.dom().finite(),
            traps@.len() == old(self)@.dom().len(),
            forall|key: BreakpointKey|
                old(self)@.contains_key(key) ==> traps@.contains(#[trigger] old(self)@[key]),
            forall|i: int| 0 <= i < traps@.len() ==> stands_behind(old(self)@, #[trigger] traps@[i]),
    {
        proof {
            use_type_invariant(&*self);
            self.lemma_cardinality();
        }
        let ghost before = self.entries@;
        let mut entries: Vec<Entry<H>> = Vec::new();
        core::mem::swap(&mut self.entries, &mut entries);
        assert(self@ =~= Map::<BreakpointKey, H>::empty());
        let mut traps: Vec<H> = Vec::new();
        while entries.len() > 0
            invariant
                entries@.len() + traps@.len() == before.len(),
                forall|j: int| 0 <= j < entries@.len() ==> entries@[j] == before[j],
                forall|j: int|
                    entries@.len() <= j < before.len() ==> traps@[before.len() - 1 - j]
                        == (#[trigger] before[j]).trap,
            decreases entries@.len(),
        {
            match entries.pop() {
                Some(entry) => traps.push(entry.trap),
                None => {},
            }
        }
        proof {
            let total = before.len() as int;
            assert forall|key: BreakpointKey| old(self)@.contains_key(key) implies traps@.contains(
                #[trigger] old(self)@[key],
            ) by {
                let j = place(before, key);
                assert(traps@[total - 1 - j] == before[j].trap);
            }
            assert forall|i: int| 0 <= i < traps@.len() implies stands_behind(
                old(self)@,
                #[trigger] traps@[i],
            ) by {
                let j = total - 1 - i;
                let key = before[j].key();
                assert(holds(before, key));
                assert(place(before, key) == j);
                assert(old(self)@.contains_key(key) && old(self)@[key] == traps@[i]);
            }
        }
        traps
    }
}

/// A breakpoint cannot be added twice: once `(addr, kind)` was recorded, a
/// second request for it is a duplicate and leaves the table as it was,
/// whatever the engine answered to it.
pub proof fn lemma_second_add_is_duplicate<H>(
    table: Map<BreakpointKey, H>,
    addr: u64,
    kind: BreakpointKind,
    first: H,
    second: Option<H>,
)
    requires
        !table.contains_key((addr, kind)),
    ensures
        added(table, addr, kind, Some(first)) == Added::<H>::Recorded,
        added(table_after_add(table, addr, kind, Some(first)), addr, kind, second)
            == Added::Duplicate(second),
        added(table_after_add(table, addr, kind, Some(first)), addr, kind, second).spec_reply()
            == Err::<bool, TargetError>(TargetError::DuplicateBreakpoint),
        table_after_add(table_after_add(table, addr, kind, Some(first)), addr, kind, second)
            == table_after_add(table, addr, kind, Some(first)),
{
}

/// Removing what was never added fails: after any history of requests in
/// which `(addr, kind)` was never recorded, no such breakpoint is set, and a
/// request to remove it is answered with an error.
pub proof fn lemma_never_added_is_unknown<H>(
    history: Seq<Change<H>>,
    addr: u64,
    kind: BreakpointKind,
)
    requires
        !ever_added(history, addr, kind),
    ensures
        !table_after_history(history).contains_key((addr, kind)),
        removed(table_after_history(history), addr, kind) == Err::<H, TargetError>(
            TargetError::UnknownBreakpoint,
        ),
    decreases history.len(),
{
    if history.len() > 0 {
        let earlier = history.drop_last();
        assert forall|i: int| 0 <= i < earlier.len() implies !(#[trigger] earlier[i] matches Change::Add {
            addr: at,
            kind: of,
            trap,
        } && at == addr && of == kind && trap.is_some()) by {
            assert(earlier[i] == history[i]);
        }
        lemma_never_added_is_unknown(earlier, addr, kind);
        let last = history.last();
        assert(last == history[history.len() - 1]);
    }
}

/// A breakpoint that was removed is not set any more: a second request to
/// remove it is answered with an error.
pub proof fn lemma_removed_is_unknown<H>(table: Map<BreakpointKey, H>, addr: u64, kind: BreakpointKind)
    ensures
        removed(table.remove((addr, kind)), addr, kind) == Err::<H, TargetError>(
            TargetError::UnknownBreakpoint,
        ),
{
}

} // verus!
