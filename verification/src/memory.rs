//! The address space as the debugger sees it: which ranges are mapped, with
//! which permissions, and what a memory command asks of the engine.

use vstd::prelude::*;
use crate::error::TargetError;

verus! {

/// What may be done with the bytes of a region.
#[derive(Clone, Copy, Debug, PartialEq, Eq, Structural)]
pub struct Permissions {
    pub read: bool,
    pub write: bool,
    pub execute: bool,
}

/// What a memory command does with the bytes it names.
#[derive(Clone, Copy, Debug, PartialEq, Eq, Structural)]
pub enum Access {
    Read,
    Write,
}

/// A mapped range of the address space.
#[derive(Clone, Copy, Debug, PartialEq, Eq, Structural)]
pub struct MemoryRegion {
    /// The address of the first byte.
    pub base: u64,
    /// The number of bytes.
    pub size: u64,
    /// What may be done with them.
    pub perms: Permissions,
}

/// What a memory command asks of the engine: `len` bytes from `addr` on.
#[derive(Clone, Copy, Debug, PartialEq, Eq, Structural)]
pub struct MemoryRequest {
    pub addr: u64,
    pub len: usize,
}

/// Where the boot ROM starts.
pub const ROM_BASE: u64 = 0x0000_0000;

/// The size of the boot ROM: 256 KiB.
pub const ROM_SIZE: u64 = 0x4_0000;

/// Where the execute-in-place flash starts.
pub const FLASH_BASE: u64 = 0x1000_0000;

/// The size of the flash: 8 MiB.
pub const FLASH_SIZE: u64 = 0x80_0000;

/// Where the RAM starts.
pub const RAM_BASE: u64 = 0x2000_0000;

/// The size of the RAM: 256 KiB.
pub const RAM_SIZE: u64 = 0x4_0000;

/// The granularity in which the engine maps memory.
pub const PAGE_SIZE: u64 = 0x1000;

impl Permissions {
    /// Whether the permissions admit `access`.
    pub open spec fn spec_allows(self, access: Access) -> bool {
        match access {
            Access::Read => self.read,
            Access::Write => self.write,
        }
    }

    /// Whether the permissions admit `access`.
    #[verifier::when_used_as_spec(spec_allows)]
    pub fn allows(self, access: Access) -> (allowed: bool)
        ensures
            allowed == self.spec_allows(access),
    {
        match access {
            Access::Read => self.read,
            Access::Write => self.write,
        }
    }
}

impl MemoryRegion {
    /// The address behind the last byte of the region.
    pub open spec fn end(self) -> int {
        self.base + self.size
    }

    /// Whether the byte at `at` lies in the region.
    pub open spec fn holds(self, at: int) -> bool {
        self.base <= at < self.end()
    }
}

/// Whether the byte at `at` is mapped with a permission for `access`.
pub open spec fn byte_allowed(regions: Seq<MemoryRegion>, at: int, access: Access) -> bool {
    exists|i: int|
        0 <= i < regions.len() && (#[trigger] regions[i]).holds(at) && regions[i].perms.allows(
            access,
        )
}

/// Whether every byte of the range is mapped with a permission for
/// `access`. The empty range is allowed anywhere.
pub open spec fn range_allowed(
    regions: Seq<MemoryRegion>,
    start: int,
    len: int,
    access: Access,
) -> bool {
    forall|at: int| start <= at < start + len ==> #[trigger] byte_allowed(regions, at, access)
}

/// The regions of the board: boot ROM and flash, which can be read and
/// executed, and RAM, which can also be written.
pub open spec fn board_regions() -> Seq<MemoryRegion> {
    seq![
        MemoryRegion {
            base: ROM_BASE,
            size: ROM_SIZE,
            perms: Permissions { read: true, write: false, execute: true },
        },
        MemoryRegion {
            base: FLASH_BASE,
            size: FLASH_SIZE,
            perms: Permissions { read: true, write: false, execute: true },
        },
        MemoryRegion {
            base: RAM_BASE,
            size: RAM_SIZE,
            perms: Permissions { read: true, write: true, execute: true },
        },
    ]
}

/// What a command that reads or writes `len` bytes at `start` comes to: the
/// request to the engine where the whole range is allowed, an error where
/// any byte of it is not.
pub open spec fn spec_request(
    regions: Seq<MemoryRegion>,
    start: u32,
    len: usize,
    access: Access,
) -> Result<MemoryRequest, TargetError> {
    if range_allowed(regions, start as int, len as int, access) {
        Ok(MemoryRequest { addr: start as u64, len })
    } else {
        Err(TargetError::MemoryAccess)
    }
}

/// What the command is answered once the engine has answered the request:
/// the bytes, if the engine gave exactly as many as were asked for, and
/// never fewer.
pub open spec fn spec_accept_read(request: MemoryRequest, reply: Option<Seq<u8>>) -> Result<
    Seq<u8>,
    TargetError,
> {
    match reply {
        Some(bytes) => if bytes.len() == request.len {
            Ok(bytes)
        } else {
            Err(TargetError::MemoryAccess)
        },
        None => Err(TargetError::MemoryAccess),
    }
}

/// The engine's answer to a read request as a sequence of bytes.
pub open spec fn answer(reply: Option<Vec<u8>>) -> Option<Seq<u8>> {
    match reply {
        Some(bytes) => Some(bytes@),
        None => None,
    }
}

/// The regions that are mapped.
pub struct AddressSpace {
    regions: Vec<MemoryRegion>,
}

impl AddressSpace {
    /// The mapped regions, in the order in which they were mapped.
    pub closed spec fn view(self) -> Seq<MemoryRegion> {
        self.regions@
    }

    /// An address space with nothing mapped.
    pub fn new() -> (space: AddressSpace)
        ensures
            space@ == Seq::<MemoryRegion>::empty(),
    {
        AddressSpace { regions: Vec::new() }
    }

    /// The address space of the board as it is set up before a program is
    /// loaded: boot ROM, flash and RAM.
    pub fn board() -> (space: AddressSpace)
        ensures
            space@ == board_regions(),
    {
        let executable = Permissions { read: true, write: false, execute: true };
        let all = Permissions { read: true, write: true, execute: true };
        let mut space = AddressSpace::new();
        space.map(MemoryRegion { base: ROM_BASE, size: ROM_SIZE, perms: executable });
        space.map(MemoryRegion { base: FLASH_BASE, size: FLASH_SIZE, perms: executable });
        space.map(MemoryRegion { base: RAM_BASE, size: RAM_SIZE, perms: all });
        assert(space@ =~= board_regions());
        space
    }

    /// Records that the engine has mapped `region`.
    pub fn map(&mut self, region: MemoryRegion)
        ensures
            final(self)@ == old(self)@.push(region),
    {
        self.regions.push(region);
    }

    /// The mapped regions, for the caller that maps them in the engine.
    pub fn regions(&self) -> (regions: &Vec<MemoryRegion>)
        ensures
            regions@ == self@,
    {
        &self.regions
    }

    /// The region that holds the byte at `at` with a permission for
    /// `access`, if there is one.
    fn covering(&self, at: u128, access: Access) -> (found: Option<usize>)
        ensures
            match found {
                Some(i) => i < self@.len() && self@[i as int].holds(at as int) && self@[i as int].perms.allows(
                    access,
                ),
                None => !byte_allowed(self@, at as int, access),
            },
    {
        let mut i: usize = 0;
        while i < self.regions.len()
            invariant
                i <= self.regions@.len(),
                forall|j: int|
                    0 <= j < i ==> !((#[trigger] self.regions@[j]).holds(at as int)
                        && self.regions@[j].perms.allows(access)),
            decreases self.regions@.len() - i,
        {
            let region = self.regions[i];
            let end: u128 = region.base as u128 + region.size as u128;
            if region.base as u128 <= at && at < end && region.perms.allows(access) {
                return Some(i);
            }
            i = i + 1;
        }
        None
    }

    /// Whether every byte of the `len` bytes from `start` on is mapped with a
    /// permission for `access`.
    pub fn permits(&self, start: u64, len: usize, access: Access) -> (allowed: bool)
        ensures
            allowed == range_allowed(self@, start as int, len as int, access),
    {
        let end: u128 = start as u128 + len as u128;
        let mut at: u128 = start as u128;
        while at < end
            invariant
                start <= at <= end,
                end == start + len,
                forall|byte: int| start <= byte < at ==> #[trigger] byte_allowed(self@, byte, access),
            decreases end - at,
        {
            match self.covering(at, access) {
                None => {
                    return false;
                },
                Some(i) => {
                    let region = self.regions[i];
                    let region_end: u128 = region.base as u128 + region.size as u128;
                    let next: u128 = if region_end < end {
                        region_end
                    } else {
                        end
                    };
                    assert forall|byte: int| at <= byte < next implies #[trigger] byte_allowed(
                        self@,
                        byte,
                        access,
                    ) by {
                        assert(self@[i as int].holds(byte));
                    }
                    at = next;
                },
            }
        }
        true
    }
}

/// Turns the debugger's command to read `len` bytes at `start` into a
/// request to the engine. A range with a byte that is unmapped or may not be
/// read is refused in whole.
pub fn read_addrs(space: &AddressSpace, start: u32, len: usize) -> (result: Result<
    MemoryRequest,
    TargetError,
>)
    ensures
        result == spec_request(space@, start, len, Access::Read),
{
    if space.permits(start as u64, len, Access::Read) {
        Ok(MemoryRequest { addr: start as u64, len })
    } else {
        Err(TargetError::MemoryAccess)
    }
}

/// Turns the debugger's command to write `data` at `start` into a request to
/// the engine. A range with a byte that is unmapped or may not be written is
/// refused in whole, before anything is written.
pub fn write_addrs(space: &AddressSpace, start: u32, data: &[u8]) -> (result: Result<
    MemoryRequest,
    TargetError,
>)
    ensures
        result == spec_request(space@, start, data@.len() as usize, Access::Write),
{
    if space.permits(start as u64, data.len(), Access::Write) {
        Ok(MemoryRequest { addr: start as u64, len: data.len() })
    } else {
        Err(TargetError::MemoryAccess)
    }
}

/// Takes the engine's answer to a read request: the bytes, or `None` where
/// the engine refused. The command succeeds with exactly the bytes that were
/// asked for; a refusal, or an answer of another length, fails it, and no
/// part of such an answer is passed on.
pub fn accept_read(request: MemoryRequest, reply: Option<Vec<u8>>) -> (result: Result<
    Vec<u8>,
    TargetError,
>)
    ensures
        match result {
            Ok(bytes) => spec_accept_read(request, answer(reply)) == Ok::<
                Seq<u8>,
                TargetError,
            >(bytes@),
            Err(error) => spec_accept_read(request, answer(reply)) == Err::<
                Seq<u8>,
                TargetError,
            >(error),
        },
{
    match reply {
        Some(bytes) => {
            if bytes.len() == request.len {
                Ok(bytes)
            } else {
                Err(TargetError::MemoryAccess)
            }
        },
        None => Err(TargetError::MemoryAccess),
    }
}

/// Takes the engine's answer to a write request: whether it wrote the whole
/// range.
pub fn accept_write(written: bool) -> (result: Result<(), TargetError>)
    ensures
        result == if written {
            Ok::<(), TargetError>(())
        } else {
            Err(TargetError::MemoryAccess)
        },
{
    if written {
        Ok(())
    } else {
        Err(TargetError::MemoryAccess)
    }
}

/// The bytes of a memory after `data` was written at `addr`.
pub open spec fn bytes_after_write(bytes: Map<int, u8>, addr: int, data: Seq<u8>) -> Map<int, u8> {
    Map::new(
        |at: int| bytes.contains_key(at) || addr <= at < addr + data.len(),
        |at: int|
            if addr <= at < addr + data.len() {
                data[at - addr]
            } else {
                bytes[at]
            },
    )
}

/// The `len` bytes that a memory holds from `addr` on.
pub open spec fn bytes_read(bytes: Map<int, u8>, addr: int, len: int) -> Seq<u8> {
    Seq::new(len as nat, |i: int| bytes[addr + i])
}

/// The board's regions lie apart from each other inside the 32-bit address
/// space, each a whole number of pages, and only the RAM can be written.
pub proof fn lemma_board_regions()
    ensures
        board_regions().len() == 3,
        forall|i: int|
            0 <= i < 3 ==> {
                let region = #[trigger] board_regions()[i];
                &&& region.size > 0
                &&& region.base % PAGE_SIZE == 0
                &&& region.size % PAGE_SIZE == 0
                &&& region.end() <= 0x1_0000_0000
                &&& region.perms.allows(Access::Read)
                &&& region.perms.allows(Access::Write) == (i == 2)
            },
        forall|i: int, j: int|
            0 <= i < j < 3 ==> (#[trigger] board_regions()[i]).end() <= (
            #[trigger] board_regions()[j]).base,
{
}

/// Writing bytes and reading them back gives the bytes: where the range of
/// `data` at `start` may be written and read, both commands become requests
/// for the same range, and a memory that holds what was written answers the
/// read with `data`, which the command passes on unchanged.
pub proof fn lemma_memory_round_trip(
    regions: Seq<MemoryRegion>,
    bytes: Map<int, u8>,
    start: u32,
    data: Seq<u8>,
)
    requires
        data.len() <= usize::MAX,
        range_allowed(regions, start as int, data.len() as int, Access::Write),
        range_allowed(regions, start as int, data.len() as int, Access::Read),
    ensures
        ({
            let len = data.len() as usize;
            let request = MemoryRequest { addr: start as u64, len };
            let written = bytes_after_write(bytes, request.addr as int, data);
            &&& spec_request(regions, start, len, Access::Write) == Ok::<
                MemoryRequest,
                TargetError,
            >(request)
            &&& spec_request(regions, start, len, Access::Read) == Ok::<MemoryRequest, TargetError>(
                request,
            )
            &&& bytes_read(written, request.addr as int, request.len as int) == data
            &&& spec_accept_read(
                request,
                Some(bytes_read(written, request.addr as int, request.len as int)),
            ) == Ok::<Seq<u8>, TargetError>(data)
        }),
{
    let len = data.len() as usize;
    let request = MemoryRequest { addr: start as u64, len };
    let written = bytes_after_write(bytes, request.addr as int, data);
    assert(bytes_read(written, request.addr as int, request.len as int) =~= data);
}

} // verus!
