//! From a program image to the segments that are written into memory before
//! the program first runs.

use vstd::prelude::*;
use vstd::slice::slice_subrange;
use crate::memory::Permissions;
use elf::endian::AnyEndian;
use elf::ElfBytes;

verus! {

/// The type of a program header that describes a loadable segment.
pub const PT_LOAD: u32 = 1;

/// The flag of a segment that may be executed.
pub const PF_X: u32 = 1;

/// The flag of a segment that may be written.
pub const PF_W: u32 = 2;

/// The flag of a segment that may be read.
pub const PF_R: u32 = 4;

/// What the loader reads of one entry of an image's program header table.
#[derive(Clone, Copy, Debug, PartialEq, Eq, Structural)]
pub struct ProgramHeader {
    /// The type of the segment.
    pub p_type: u32,
    /// The flags of the segment.
    pub p_flags: u32,
    /// Where in the image the segment's bytes begin.
    pub p_offset: u64,
    /// The physical address at which the segment is loaded.
    pub p_paddr: u64,
    /// How many bytes of the image belong to the segment.
    pub p_filesz: u64,
    /// How many bytes the segment takes in memory.
    pub p_memsz: u64,
}

/// One piece of the image that is written into memory.
#[derive(Clone, Copy, Debug, PartialEq, Eq, Structural)]
pub struct LoadSegment {
    /// The physical address of the first byte.
    pub paddr: u64,
    /// What the program may do with the segment.
    pub perms: Permissions,
    /// How many bytes the segment takes in memory.
    pub mem_size: u64,
    /// Where in the image the bytes begin.
    pub file_start: usize,
    /// Where in the image the bytes end.
    pub file_end: usize,
}

/// Why an image cannot be loaded.
#[derive(Clone, Copy, Debug, PartialEq, Eq, Structural)]
pub enum LoadError {
    /// The image is not a well-formed ELF object.
    Malformed,
    /// The image has no program header table.
    NoProgramHeaders,
    /// A loadable segment names bytes that the image does not have.
    OutOfBounds,
}

/// The error with which `elf` refuses an image.
#[verifier::external_type_specification]
#[verifier::external_body]
pub struct ExParseError(elf::ParseError);

/// What `elf` finds in an image: `None` where it refuses the image,
/// `Some(None)` where the image has no program header table, else the
/// entries of that table in order.
pub uninterp spec fn elf_program_headers(image: Seq<u8>) -> Option<Option<Seq<ProgramHeader>>>;

/// The program header table as a sequence.
pub open spec fn table_view(table: Option<Vec<ProgramHeader>>) -> Option<Seq<ProgramHeader>> {
    match table {
        Some(headers) => Some(headers@),
        None => None,
    }
}

/// Reads the program header table of an image with
/// `elf::ElfBytes::minimal_parse` and `elf::ElfBytes::segments`, and copies
/// of each entry the fields that the loader reads. Nothing is claimed of the
/// table but that it is determined by the bytes of the image.
#[verifier::external_body]
fn program_headers(image: &[u8]) -> (table: Result<Option<Vec<ProgramHeader>>, elf::ParseError>)
    ensures
        match table {
            Ok(found) => elf_program_headers(image@) == Some(table_view(found)),
            Err(_) => elf_program_headers(image@).is_none(),
        },
{
    let file = ElfBytes::<AnyEndian>::minimal_parse(image)?;
    let copy = |h: elf::segment::ProgramHeader| ProgramHeader {
        p_type: h.p_type, p_flags: h.p_flags, p_offset: h.p_offset,
        p_paddr: h.p_paddr, p_filesz: h.p_filesz, p_memsz: h.p_memsz,
    };
    Ok(file.segments().map(|table| table.iter().map(copy).collect()))
}

/// The permissions that a segment's flags stand for.
pub open spec fn spec_permissions(p_flags: u32) -> Permissions {
    Permissions {
        read: p_flags & PF_R != 0,
        write: p_flags & PF_W != 0,
        execute: p_flags & PF_X != 0,
    }
}

impl ProgramHeader {
    /// Whether the header names bytes to write: it describes a loadable
    /// segment with bytes in the image.
    pub open spec fn loads(self) -> bool {
        self.p_type == PT_LOAD && self.p_filesz > 0
    }

    /// Whether the bytes that the header names lie inside an image of
    /// `image_len` bytes.
    pub open spec fn within(self, image_len: int) -> bool {
        self.p_offset + self.p_filesz <= image_len
    }

    /// The segment that the header describes.
    pub open spec fn segment(self) -> LoadSegment {
        LoadSegment {
            paddr: self.p_paddr,
            perms: spec_permissions(self.p_flags),
            mem_size: self.p_memsz,
            file_start: self.p_offset as usize,
            file_end: (self.p_offset + self.p_filesz) as usize,
        }
    }
}

/// The segments to write for a program header table, in the table's order:
/// one for each header that names bytes. The first header that names bytes
/// outside the image fails the whole plan.
pub open spec fn spec_plan(image_len: int, headers: Seq<ProgramHeader>) -> Result<
    Seq<LoadSegment>,
    LoadError,
>
    decreases headers.len(),
{
    if headers.len() == 0 {
        Ok(Seq::empty())
    } else {
        match spec_plan(image_len, headers.drop_last()) {
            Err(error) => Err(error),
            Ok(segments) => {
                let header = headers.last();
                if !header.loads() {
                    Ok(segments)
                } else if !header.within(image_len) {
                    Err(LoadError::OutOfBounds)
                } else {
                    Ok(segments.push(header.segment()))
                }
            },
        }
    }
}

/// What loading comes to for an image of `image_len` bytes in which `elf`
/// found `found`.
pub open spec fn spec_load(image_len: int, found: Option<Option<Seq<ProgramHeader>>>) -> Result<
    Seq<LoadSegment>,
    LoadError,
> {
    match found {
        None => Err(LoadError::Malformed),
        Some(None) => Err(LoadError::NoProgramHeaders),
        Some(Some(headers)) => spec_plan(image_len, headers),
    }
}

/// Whether `result` is `plan` with sequences for vectors.
pub open spec fn plan_is(
    result: Result<Vec<LoadSegment>, LoadError>,
    plan: Result<Seq<LoadSegment>, LoadError>,
) -> bool {
    match result {
        Ok(segments) => plan == Ok::<Seq<LoadSegment>, LoadError>(segments@),
        Err(error) => plan == Err::<Seq<LoadSegment>, LoadError>(error),
    }
}

/// A plan that has failed stays failed when more headers follow.
proof fn lemma_failure_stays(image_len: int, headers: Seq<ProgramHeader>, count: int)
    requires
        0 <= count <= headers.len(),
        spec_plan(image_len, headers.take(count)).is_err(),
    ensures
        spec_plan(image_len, headers) == spec_plan(image_len, headers.take(count)),
    decreases headers.len() - count,
{
    if count == headers.len() {
        assert(headers.take(count) =~= headers);
    } else {
        assert(headers.take(count + 1).drop_last() =~= headers.take(count));
        lemma_failure_stays(image_len, headers, count + 1);
    }
}

/// Whether every segment names a range of bytes, not empty, inside an image
/// of `image_len` bytes.
pub open spec fn all_within(segments: Seq<LoadSegment>, image_len: int) -> bool {
    forall|i: int|
        0 <= i < segments.len() ==> (#[trigger] segments[i]).file_start < segments[i].file_end
            <= image_len
}

/// A plan has at most one segment for each header, and every segment of it
/// lies inside the image.
pub proof fn lemma_plan_within(image_len: int, headers: Seq<ProgramHeader>)
    requires
        image_len <= usize::MAX,
        spec_plan(image_len, headers).is_ok(),
    ensures
        all_within(spec_plan(image_len, headers).unwrap(), image_len),
        spec_plan(image_len, headers).unwrap().len() <= headers.len(),
    decreases headers.len(),
{
    if headers.len() > 0 {
        lemma_plan_within(image_len, headers.drop_last());
    }
}

/// The permissions that a segment's flags stand for.
pub fn permissions(p_flags: u32) -> (perms: Permissions)
    ensures
        perms == spec_permissions(p_flags),
{
    Permissions {
        read: p_flags & PF_R != 0,
        write: p_flags & PF_W != 0,
        execute: p_flags & PF_X != 0,
    }
}

/// Plans the writes for a program header table: for each header of a
/// loadable segment with bytes in the image, in order, where the bytes go
/// and which bytes they are. `image_len` is the length of the image.
pub fn plan_segments(image_len: usize, headers: &[ProgramHeader]) -> (result: Result<
    Vec<LoadSegment>,
    LoadError,
>)
    ensures
        plan_is(result, spec_plan(image_len as int, headers@)),
        result matches Ok(segments) ==> all_within(segments@, image_len as int),
{
    let mut segments: Vec<LoadSegment> = Vec::new();
    let mut i: usize = 0;
    while i < headers.len()
        invariant
            i <= headers@.len(),
            spec_plan(image_len as int, headers@.take(i as int)) == Ok::<
                Seq<LoadSegment>,
                LoadError,
            >(segments@),
        decreases headers@.len() - i,
    {
        let header = headers[i];
        proof {
            assert(headers@.take(i + 1).drop_last() =~= headers@.take(i as int));
            assert(headers@.take(i + 1).last() == header);
        }
        if header.p_type == PT_LOAD && header.p_filesz > 0 {
            let fits = header.p_offset <= image_len as u64 && header.p_filesz <= image_len as u64
                - header.p_offset;
            if !fits {
                proof {
                    lemma_failure_stays(image_len as int, headers@, i + 1);
                }
                return Err(LoadError::OutOfBounds);
            }
            segments.push(
                LoadSegment {
                    paddr: header.p_paddr,
                    perms: permissions(header.p_flags),
                    mem_size: header.p_memsz,
                    file_start: header.p_offset as usize,
                    file_end: (header.p_offset + header.p_filesz) as usize,
                },
            );
        }
        i = i + 1;
    }
    proof {
        assert(headers@.take(i as int) =~= headers@);
        lemma_plan_within(image_len as int, headers@);
    }
    Ok(segments)
}

/// Plans the loading of a program image: which of its bytes are written to
/// which physical address. An image that `elf` refuses, one without a
/// program header table, and one with a loadable segment that reaches
/// beyond its end are each refused with their own error.
pub fn load_elf(image: &[u8]) -> (result: Result<Vec<LoadSegment>, LoadError>)
    ensures
        plan_is(result, spec_load(image@.len() as int, elf_program_headers(image@))),
        result matches Ok(segments) ==> all_within(segments@, image@.len() as int),
{
    match program_headers(image) {
        Err(_) => Err(LoadError::Malformed),
        Ok(None) => Err(LoadError::NoProgramHeaders),
        Ok(Some(headers)) => plan_segments(image.len(), headers.as_slice()),
    }
}

impl LoadSegment {
    /// The bytes of the segment in `image`, or `None` where the image does
    /// not hold the range that the segment names.
    pub fn bytes<'a>(&self, image: &'a [u8]) -> (bytes: Option<&'a [u8]>)
        ensures
            match bytes {
                Some(content) => self.file_start <= self.file_end <= image@.len() && content@
                    == image@.subrange(self.file_start as int, self.file_end as int),
                None => !(self.file_start <= self.file_end <= image@.len()),
            },
    {
        if self.file_start <= self.file_end && self.file_end <= image.len() {
            Some(slice_subrange(image, self.file_start, self.file_end))
        } else {
            None
        }
    }
}

} // verus!
