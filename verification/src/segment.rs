//! Where a loadable segment lies in physical memory, and what the pages set
//! aside for it hold once it is loaded.

use vstd::prelude::*;
use crate::error::LoadError;

verus! {

/// The size of a page of physical memory, in bytes.
pub const PAGE_SIZE: u64 = 4096;

/// What a program-header entry says its segment is for.
#[derive(Clone, Copy, Debug, PartialEq, Eq, Structural)]
pub enum SegmentType {
    /// An unused entry.
    Null,
    /// A segment that has to be copied into memory before the kernel runs.
    Loadable,
    /// Dynamic-linking information.
    Dynamic,
    /// The path of an interpreter.
    Interp,
    /// Auxiliary notes.
    Note,
    /// Reserved by the format.
    ShLib,
    /// The program-header table itself.
    Phdr,
    /// The thread-local storage template.
    Tls,
    /// A region to be made read-only after relocation.
    GnuRelro,
    /// A type in the range kept for operating systems.
    OsSpecific(u32),
    /// A type in the range kept for processors.
    ProcessorSpecific(u32),
    /// A type that the format does not define.
    Unknown,
}

/// One entry of an image's program-header table.
#[derive(Clone, Copy, Debug, PartialEq, Eq, Structural)]
pub struct SegmentDescriptor {
    /// The address at which the segment's first byte has to lie.
    pub virtual_address: u64,
    /// Where in the image the segment's file-backed bytes begin.
    pub file_offset: u64,
    /// How many bytes of the segment come from the image.
    pub file_size: u64,
    /// How many bytes the segment takes up in memory.
    pub mem_size: u64,
    /// What the segment is for.
    pub segment_type: SegmentType,
}

/// The pages that hold one loadable segment.
#[derive(Clone, Copy, Debug, PartialEq, Eq, Structural)]
pub struct Placement {
    /// The physical address of the first page.
    pub base_address: u64,
    /// The number of pages.
    pub page_count: usize,
    /// How far into the first page the segment's first byte lies.
    pub offset: usize,
}

impl SegmentDescriptor {
    /// Whether the segment takes part in loading.
    pub open spec fn spec_is_loadable(&self) -> bool {
        self.segment_type == SegmentType::Loadable
    }

    /// The page boundary at or below the segment's address.
    pub open spec fn spec_base_address(&self) -> int {
        self.virtual_address - self.spec_intra_page_offset()
    }

    /// How far above that page boundary the segment begins.
    pub open spec fn spec_intra_page_offset(&self) -> int {
        (self.virtual_address % PAGE_SIZE) as int
    }

    /// The number of bytes from the page boundary to the segment's end.
    pub open spec fn spec_span(&self) -> int {
        self.spec_intra_page_offset() + self.mem_size
    }

    /// The pages that the span takes up, rounded up, and one page more.
    pub open spec fn spec_page_count(&self) -> int {
        (self.spec_span() + (PAGE_SIZE - 1)) / (PAGE_SIZE as int) + 1
    }

    /// The size of the segment's pages in bytes.
    pub open spec fn spec_allocation_len(&self) -> int {
        self.spec_page_count() * PAGE_SIZE
    }

    /// Whether the segment's pages can be addressed as one run of bytes on
    /// this machine.
    pub open spec fn placeable(&self) -> bool {
        self.spec_allocation_len() <= usize::MAX
    }

    /// The segment's pages, where it is placeable.
    pub open spec fn spec_placement(&self) -> Placement {
        Placement {
            base_address: self.spec_base_address() as u64,
            page_count: self.spec_page_count() as usize,
            offset: self.spec_intra_page_offset() as usize,
        }
    }

    /// Whether the descriptor can be true of an image of `image_len` bytes:
    /// its file-backed bytes are no more than it takes up in memory, they lie
    /// inside the image, and its pages are placeable.
    pub open spec fn fits(&self, image_len: int) -> bool {
        &&& self.file_size <= self.mem_size
        &&& self.file_offset + self.file_size <= image_len
        &&& self.placeable()
    }

    /// Whether the segment takes part in loading.
    #[verifier::when_used_as_spec(spec_is_loadable)]
    pub fn is_loadable(&self) -> (loadable: bool)
        ensures
            loadable == self.spec_is_loadable(),
    {
        match self.segment_type {
            SegmentType::Loadable => true,
            _ => false,
        }
    }

    /// Works out the pages for the segment: they begin at the page boundary
    /// at or below its address, and cover the span from there to its end,
    /// rounded up to whole pages, with one page to spare.
    ///
    /// There is no placement where the pages, taken as bytes, would be more
    /// than the machine can address.
    pub fn placement(&self) -> (placement: Option<Placement>)
        ensures
            placement is Some <==> self.placeable(),
            placement is Some ==> placement == Some(self.spec_placement()),
            placement matches Some(p) ==> {
                &&& p.base_address % PAGE_SIZE == 0
                &&& p.base_address <= self.virtual_address
                &&& p.base_address + p.offset == self.virtual_address
                &&& p.offset < PAGE_SIZE
                &&& p.page_count >= 1
                &&& p.page_count * PAGE_SIZE >= p.offset + self.mem_size
                &&& p.page_count * PAGE_SIZE < p.offset + self.mem_size + 2 * PAGE_SIZE
                &&& p.base_address + p.page_count * PAGE_SIZE >= self.virtual_address
                    + self.mem_size
            },
    {
        let offset: u64 = self.virtual_address % PAGE_SIZE;
        let base_address: u64 = self.virtual_address - offset;
        match offset.checked_add(self.mem_size) {
            None => None,
            Some(span) => {
                let whole: u64 = span / PAGE_SIZE;
                let partial: u64 = if span % PAGE_SIZE == 0 { 0 } else { 1 };
                let pages: u64 = whole + partial + 1;
                if pages > (usize::MAX as u64) / PAGE_SIZE {
                    None
                } else {
                    Some(Placement {
                        base_address,
                        page_count: pages as usize,
                        offset: offset as usize,
                    })
                }
            },
        }
    }

    /// Whether the descriptor can be true of an image of `image_len` bytes.
    pub fn fits_image(&self, image_len: usize) -> (fits: bool)
        ensures
            fits == self.fits(image_len as int),
    {
        if self.file_size > self.mem_size {
            return false;
        }
        if self.file_offset > image_len as u64 {
            return false;
        }
        if self.file_size > image_len as u64 - self.file_offset {
            return false;
        }
        self.placement().is_some()
    }
}

/// A run of `len` zero bytes.
pub open spec fn spec_zero_filled(len: nat) -> Seq<u8> {
    Seq::new(len, |i: int| 0u8)
}

/// `region` with the file-backed bytes of `segment` written over it, from
/// the segment's offset into its first page on.
pub open spec fn spec_with_file_bytes(
    region: Seq<u8>,
    image: Seq<u8>,
    segment: SegmentDescriptor,
) -> Seq<u8> {
    let start = segment.spec_intra_page_offset();
    Seq::new(
        region.len(),
        |i: int|
            if start <= i < start + segment.file_size {
                image[segment.file_offset + (i - start)]
            } else {
                region[i]
            },
    )
}

/// What the pages of `segment` hold once it is loaded from `image`: zeros,
/// but for the segment's file-backed bytes.
pub open spec fn spec_loaded(image: Seq<u8>, segment: SegmentDescriptor) -> Seq<u8> {
    spec_with_file_bytes(spec_zero_filled(segment.spec_allocation_len() as nat), image, segment)
}

/// The part of the loaded pages that is the segment itself.
pub open spec fn spec_mapped_region(image: Seq<u8>, segment: SegmentDescriptor) -> Seq<u8> {
    spec_loaded(image, segment).subrange(
        segment.spec_intra_page_offset(),
        segment.spec_intra_page_offset() + segment.mem_size,
    )
}

/// Whether `region` can take `segment` out of `image`.
pub open spec fn spec_load_check(
    region_len: int,
    image_len: int,
    segment: SegmentDescriptor,
) -> Result<(), LoadError> {
    if !segment.fits(image_len) {
        Err(LoadError::MalformedImage)
    } else if region_len != segment.spec_allocation_len() {
        Err(LoadError::AllocationFailed)
    } else {
        Ok(())
    }
}

/// The first page of every segment begins on a page boundary at or below the
/// segment's address, less than a page away from it.
pub proof fn base_address_is_page_aligned(segment: SegmentDescriptor)
    ensures
        segment.spec_base_address() % (PAGE_SIZE as int) == 0,
        0 <= segment.spec_base_address() <= segment.virtual_address,
        segment.spec_base_address() + segment.spec_intra_page_offset() == segment.virtual_address,
        segment.spec_intra_page_offset() < PAGE_SIZE,
{
}

/// The pages of every segment cover it, from the page boundary below its
/// address to its last byte in memory, and there is at least one page even
/// for a segment that takes up no memory. They are never more than two pages
/// longer than that span.
pub proof fn pages_cover_span(segment: SegmentDescriptor)
    ensures
        segment.spec_page_count() >= 1,
        segment.spec_page_count() * PAGE_SIZE >= (segment.virtual_address
            - segment.spec_base_address()) + segment.mem_size,
        segment.spec_base_address() + segment.spec_page_count() * PAGE_SIZE
            >= segment.virtual_address + segment.mem_size,
        segment.spec_allocation_len() < segment.spec_span() + 2 * PAGE_SIZE,
{
}

/// In the pages of a loaded segment, the segment's first `file_size` bytes
/// are the image's bytes from `file_offset` on, and the bytes from there up
/// to `mem_size` are zero.
pub proof fn segment_holds_file_bytes_then_zeros(image: Seq<u8>, segment: SegmentDescriptor)
    requires
        segment.fits(image.len() as int),
    ensures
        spec_mapped_region(image, segment).len() == segment.mem_size,
        spec_mapped_region(image, segment).subrange(0, segment.file_size as int)
            == image.subrange(
            segment.file_offset as int,
            segment.file_offset + segment.file_size,
        ),
        forall|i: int|
            segment.file_size <= i < segment.mem_size ==> spec_mapped_region(image, segment)[i]
                == 0,
{
    assert(spec_mapped_region(image, segment).subrange(0, segment.file_size as int)
        =~= image.subrange(segment.file_offset as int, segment.file_offset + segment.file_size));
}

/// A byte of a segment's pages that lies outside the segment's file-backed
/// bytes is zero after the pages are zeroed, and is still zero after the
/// file-backed bytes are copied in.
pub proof fn bytes_outside_file_window_stay_zero(
    image: Seq<u8>,
    segment: SegmentDescriptor,
    i: int,
)
    requires
        0 <= i < segment.spec_allocation_len(),
        !(segment.spec_intra_page_offset() <= i < segment.spec_intra_page_offset()
            + segment.file_size),
    ensures
        spec_zero_filled(segment.spec_allocation_len() as nat)[i] == 0,
        spec_with_file_bytes(
            spec_zero_filled(segment.spec_allocation_len() as nat),
            image,
            segment,
        )[i] == 0,
        spec_loaded(image, segment)[i] == 0,
{
}

/// Sets every byte of `region` to zero.
pub fn zero_fill(region: &mut [u8])
    ensures
        final(region)@ == spec_zero_filled(old(region)@.len()),
{
    let len: usize = region.len();
    let mut i: usize = 0;
    while i < len
        invariant
            i <= len,
            region@.len() == len,
            forall|j: int| 0 <= j < i ==> region@[j] == 0,
        decreases len - i,
    {
        region[i] = 0;
        i += 1;
    }
}

/// Tells whether `region` can take `segment` out of `image`: the descriptor
/// has to fit the image, and the region has to be exactly the segment's
/// pages.
pub fn load_check(region_len: usize, image_len: usize, segment: &SegmentDescriptor) -> (checked:
    Result<(), LoadError>)
    ensures
        checked == spec_load_check(region_len as int, image_len as int, *segment),
{
    if !segment.fits_image(image_len) {
        return Err(LoadError::MalformedImage);
    }
    match segment.placement() {
        None => Err(LoadError::MalformedImage),
        Some(p) => {
            if region_len / (PAGE_SIZE as usize) == p.page_count && region_len % (PAGE_SIZE
                as usize) == 0 {
                Ok(())
            } else {
                Err(LoadError::AllocationFailed)
            }
        },
    }
}

/// Copies the file-backed bytes of `segment` out of `image` into `region`,
/// which stands for the segment's pages, and leaves every other byte of
/// `region` as it is.
///
/// Nothing is written where the descriptor does not fit the image
/// (`MalformedImage`) or the region is not of the size of the segment's pages
/// (`AllocationFailed`).
pub fn copy_file_bytes(region: &mut [u8], image: &[u8], segment: &SegmentDescriptor) -> (copied:
    Result<(), LoadError>)
    ensures
        copied == spec_load_check(old(region)@.len() as int, image@.len() as int, *segment),
        copied is Ok ==> final(region)@ == spec_with_file_bytes(old(region)@, image@, *segment),
        copied is Err ==> final(region)@ == old(region)@,
{
    let region_len: usize = region.len();
    let image_len: usize = image.len();
    let checked = load_check(region_len, image_len, segment);
    if checked.is_err() {
        return checked;
    }
    let start: usize = (segment.virtual_address % PAGE_SIZE) as usize;
    let count: usize = segment.file_size as usize;
    let from: usize = segment.file_offset as usize;
    let mut i: usize = 0;
    while i < count
        invariant
            i <= count,
            start == segment.spec_intra_page_offset(),
            count == segment.file_size,
            from == segment.file_offset,
            from + count <= image_len == image@.len(),
            start + count <= region_len == region@.len(),
            region@.len() == old(region)@.len(),
            forall|j: int| start <= j < start + i ==> region@[j] == image@[from + (j - start)],
            forall|j: int|
                0 <= j < region@.len() && !(start <= j < start + i) ==> region@[j] == old(
                    region,
                )@[j],
        decreases count - i,
    {
        region[start + i] = image[from + i];
        i += 1;
    }
    Ok(())
}

/// Loads `segment` out of `image` into `region`, which stands for the
/// segment's pages: the region is set to zero, then the segment's file-backed
/// bytes are copied to where the segment begins. What the segment takes up in
/// memory beyond its file-backed bytes therefore reads as zero.
///
/// A segment that is not loadable is passed over: the region stays as it is.
/// Nothing is written either where the descriptor does not fit the image
/// (`MalformedImage`) or the region is not of the size of the segment's pages
/// (`AllocationFailed`).
pub fn load_segment(region: &mut [u8], image: &[u8], segment: &SegmentDescriptor) -> (loaded:
    Result<(), LoadError>)
    ensures
        loaded == if segment.is_loadable() {
            spec_load_check(old(region)@.len() as int, image@.len() as int, *segment)
        } else {
            Ok(())
        },
        loaded is Ok && segment.is_loadable() ==> final(region)@ == spec_loaded(image@, *segment),
        loaded is Err || !segment.is_loadable() ==> final(region)@ == old(region)@,
{
    if !segment.is_loadable() {
        return Ok(());
    }
    let checked = load_check(region.len(), image.len(), segment);
    if checked.is_err() {
        return checked;
    }
    zero_fill(region);
    copy_file_bytes(region, image, segment)
}

} // verus!
