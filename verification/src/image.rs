//! Reading the headers of a kernel image.
//!
//! The image is an ELF file of the 32-bit or the 64-bit class. Its headers
//! are read by `xmas_elf`; what is read is checked here before anything is
//! built on it.

use vstd::prelude::*;
use xmas_elf::ElfFile;
use xmas_elf::header::HeaderPt2;
use xmas_elf::program::Type;
use crate::aligned::AlignedImage;
use crate::error::LoadError;
use crate::segment::SegmentDescriptor;
use crate::segment::SegmentType;

verus! {

/// What the file header says of the image as a whole.
#[derive(Clone, Copy, Debug, PartialEq, Eq, Structural)]
pub struct FileHeader {
    /// Whether the image is of the 64-bit class.
    pub wide: bool,
    /// The virtual address of the kernel's first instruction.
    pub entry_point: u64,
    /// Where in the image the program-header table begins.
    pub table_offset: u64,
    /// The size of one entry of the table, in bytes.
    pub entry_size: u16,
    /// The number of entries in the table.
    pub entry_count: u16,
}

/// The numbers of one entry of the program-header table.
#[derive(Clone, Copy, Debug, PartialEq, Eq, Structural)]
pub struct SegmentExtent {
    /// The address at which the segment's first byte has to lie.
    pub virtual_address: u64,
    /// Where in the image the segment's file-backed bytes begin.
    pub file_offset: u64,
    /// How many bytes of the segment come from the image.
    pub file_size: u64,
    /// How many bytes the segment takes up in memory.
    pub mem_size: u64,
}

/// An image that has been read: where the kernel begins, and the entries of
/// its program-header table in the order of the table.
#[derive(Debug)]
pub struct ParsedImage {
    /// The virtual address of the kernel's first instruction.
    pub entry_point: u64,
    /// The entries of the program-header table.
    pub segments: Vec<SegmentDescriptor>,
    /// The length of the image that the entries were read from.
    pub image_len: usize,
}

/// What `xmas_elf::ElfFile::new` makes of `image`: the fields of the file
/// header where it accepts the image, nothing where it refuses it. It reads
/// the fields as they lie in the image, which is how a little-endian machine
/// reads a little-endian image; no other image is taken.
pub uninterp spec fn elf_file_header(image: Seq<u8>) -> Option<FileHeader>;

/// What `xmas_elf::ElfFile::program_header` reads as entry `index` of the
/// program-header table of `image`: its address, offset and sizes, or nothing
/// where the image or the entry is refused.
pub uninterp spec fn elf_segment_extent(image: Seq<u8>, index: u16) -> Option<SegmentExtent>;

/// What `xmas_elf::program::ProgramHeader::get_type` says of entry `index` of
/// the program-header table of `image`, or nothing where the image or the
/// entry is refused. A type number that the format does not define is
/// `Unknown`.
pub uninterp spec fn elf_segment_type(image: Seq<u8>, index: u16) -> Option<SegmentType>;

impl FileHeader {
    /// The least size of a table entry of the image's class.
    pub open spec fn spec_entry_layout_size(&self) -> int {
        if self.wide {
            56
        } else {
            32
        }
    }

    /// The boundary on which a table entry of the image's class has to begin.
    pub open spec fn spec_entry_alignment(&self) -> int {
        if self.wide {
            8
        } else {
            4
        }
    }

    /// Where in the image entry `index` of the table begins.
    pub open spec fn spec_entry_start(&self, index: int) -> int {
        self.table_offset + index * self.entry_size
    }

    /// Whether entry `index` of the table can be read from an image of
    /// `image_len` bytes: the table has such an entry and does not begin at
    /// the image's first byte, and the entry is large enough for its class,
    /// begins on a boundary of its class and ends inside the image.
    pub open spec fn entry_readable(&self, image_len: int, index: int) -> bool {
        &&& 0 <= index < self.entry_count
        &&& self.table_offset > 0
        &&& self.entry_size >= self.spec_entry_layout_size()
        &&& self.spec_entry_start(index) % self.spec_entry_alignment() == 0
        &&& self.spec_entry_start(index) + self.entry_size <= image_len
    }

    /// Whether entry `index` of the table can be read from an image of
    /// `image_len` bytes.
    pub fn can_read_entry(&self, image_len: usize, index: u16) -> (readable: bool)
        ensures
            readable == self.entry_readable(image_len as int, index as int),
    {
        let least: u16 = if self.wide { 56 } else { 32 };
        let boundary: u64 = if self.wide { 8 } else { 4 };
        if index >= self.entry_count || self.table_offset == 0 || self.entry_size < least {
            return false;
        }
        let limit: u64 = image_len as u64;
        if self.table_offset > limit {
            return false;
        }
        assert(index * self.entry_size <= 0xffff * 0xffff) by (nonlinear_arith)
            requires
                index <= 0xffff,
                self.entry_size <= 0xffff,
        ;
        let skipped: u64 = (index as u64) * (self.entry_size as u64);
        match self.table_offset.checked_add(skipped) {
            None => false,
            Some(start) => {
                start % boundary == 0 && start <= limit && self.entry_size as u64 <= limit - start
            },
        }
    }
}

/// Whether a descriptor can stand in an image of `image_len` bytes: one that
/// is loadable has to fit the image, any other is taken as it is.
pub open spec fn descriptor_accepted(descriptor: SegmentDescriptor, image_len: int) -> bool {
    descriptor.spec_is_loadable() ==> descriptor.fits(image_len)
}

/// Whether every one of `segments` can stand in an image of `image_len`
/// bytes.
pub open spec fn descriptors_accepted(segments: Seq<SegmentDescriptor>, image_len: int) -> bool {
    forall|i: int| 0 <= i < segments.len() ==> descriptor_accepted(#[trigger] segments[i], image_len)
}

/// Whether the image says of itself that its data is little-endian, the byte
/// order in which its headers are read.
pub open spec fn declares_little_endian(image: Seq<u8>) -> bool {
    image.len() > 5 && image[5] == 1
}

impl SegmentExtent {
    /// The descriptor of a segment of these numbers and of type `kind`.
    pub open spec fn spec_with_type(&self, kind: SegmentType) -> SegmentDescriptor {
        SegmentDescriptor {
            virtual_address: self.virtual_address,
            file_offset: self.file_offset,
            file_size: self.file_size,
            mem_size: self.mem_size,
            segment_type: kind,
        }
    }

    /// The descriptor of a segment of these numbers and of type `kind`.
    #[verifier::when_used_as_spec(spec_with_type)]
    pub fn with_type(&self, kind: SegmentType) -> (descriptor: SegmentDescriptor)
        ensures
            descriptor == self.spec_with_type(kind),
    {
        SegmentDescriptor {
            virtual_address: self.virtual_address,
            file_offset: self.file_offset,
            file_size: self.file_size,
            mem_size: self.mem_size,
            segment_type: kind,
        }
    }
}

/// Entry `index` of the program-header table of `image`, as far as it can be
/// read.
pub open spec fn spec_descriptor(image: Seq<u8>, index: u16) -> Option<SegmentDescriptor> {
    match (elf_segment_extent(image, index), elf_segment_type(image, index)) {
        (Some(extent), Some(kind)) => Some(extent.with_type(kind)),
        _ => None,
    }
}

/// Whether entry `index` of the table that `header` describes can be read
/// from `image`, and is read.
pub open spec fn entry_read(image: Seq<u8>, header: FileHeader, index: u16) -> bool {
    &&& header.entry_readable(image.len() as int, index as int)
    &&& spec_descriptor(image, index) is Some
}

/// The program-header table of `image`, where all of it is read.
pub open spec fn spec_segments(image: Seq<u8>, header: FileHeader) -> Seq<SegmentDescriptor> {
    Seq::new(header.entry_count as nat, |i: int| spec_descriptor(image, i as u16).unwrap())
}

/// Whether `image` is taken for a kernel image: it declares little-endian
/// data, the machine can address a copy of it that begins on any boundary
/// of 8 bytes, its file header is read, every entry of its program-header
/// table can be read and is read, and every loadable entry fits the image.
pub open spec fn image_accepted(image: Seq<u8>) -> bool {
    &&& declares_little_endian(image)
    &&& image.len() + 7 <= usize::MAX
    &&& match elf_file_header(image) {
        Some(header) => {
            &&& forall|i: u16| i < header.entry_count ==> #[trigger] entry_read(image, header, i)
            &&& descriptors_accepted(spec_segments(image, header), image.len() as int)
        },
        None => false,
    }
}

impl ParsedImage {
    /// Every loadable entry fits the image that the entries were read from.
    pub open spec fn wf(&self) -> bool {
        descriptors_accepted(self.segments@, self.image_len as int)
    }

    /// Puts together what was read from an image of `image_len` bytes, once
    /// every loadable entry is seen to fit the image. An entry that is not
    /// loadable is taken as it is.
    pub fn assemble(entry_point: u64, segments: Vec<SegmentDescriptor>, image_len: usize) -> (image:
        Result<ParsedImage, LoadError>)
        ensures
            image is Ok <==> descriptors_accepted(segments@, image_len as int),
            image matches Ok(parsed) ==> {
                &&& parsed.entry_point == entry_point
                &&& parsed.segments@ == segments@
                &&& parsed.image_len == image_len
                &&& parsed.wf()
            },
            image matches Err(error) ==> error == LoadError::MalformedImage,
    {
        let count: usize = segments.len();
        let mut i: usize = 0;
        while i < count
            invariant
                i <= count == segments@.len(),
                forall|j: int| 0 <= j < i ==> descriptor_accepted(#[trigger] segments@[j], image_len as int),
            decreases count - i,
        {
            if segments[i].is_loadable() && !segments[i].fits_image(image_len) {
                return Err(LoadError::MalformedImage);
            }
            i += 1;
        }
        Ok(ParsedImage { entry_point, segments, image_len })
    }
}

/// Reads the program-header table that `header` describes out of `image`,
/// entry by entry, and gives up at the first entry that cannot be read.
fn read_segments(copy: &AlignedImage, header: &FileHeader) -> (segments: Option<
    Vec<SegmentDescriptor>,
>)
    requires
        elf_file_header(copy@) == Some(*header),
    ensures
        segments is Some <==> forall|i: u16|
            i < header.entry_count ==> #[trigger] entry_read(copy@, *header, i),
        segments matches Some(read) ==> read@ == spec_segments(copy@, *header),
{
    let ghost image = copy@;
    let image_len: usize = copy.as_bytes().len();
    let mut segments: Vec<SegmentDescriptor> = Vec::new();
    let mut index: u16 = 0;
    while index < header.entry_count
        invariant
            image == copy@,
            image_len == image.len(),
            elf_file_header(image) == Some(*header),
            index <= header.entry_count,
            segments@.len() == index,
            forall|i: u16| i < index ==> #[trigger] entry_read(image, *header, i),
            forall|i: int|
                0 <= i < index ==> Some(#[trigger] segments@[i]) == spec_descriptor(
                    image,
                    i as u16,
                ),
        decreases header.entry_count - index,
    {
        if !header.can_read_entry(image_len, index) {
            assert(!entry_read(image, *header, index));
            return None;
        }
        let extent = read_segment_extent(copy, index);
        let kind = read_segment_type(copy, index);
        match (extent, kind) {
            (Some(extent), Some(kind)) => {
                segments.push(extent.with_type(kind));
            },
            _ => {
                assert(!entry_read(image, *header, index));
                return None;
            },
        }
        index += 1;
    }
    assert(segments@ =~= spec_segments(image, *header));
    Some(segments)
}

/// Reads a kernel image: where the kernel begins, and the entries of its
/// program-header table.
///
/// The image is refused as `MalformedImage` where it does not declare
/// little-endian data, where its file header is not read (it is cut short,
/// or is of no known class, or does not begin as an ELF file does), where an
/// entry of its program-header table cannot be read, and where a loadable
/// entry does not fit the image. An entry that is not loadable is kept as it
/// is, for those who use the image to pass over.
pub fn parse_image(image: &[u8]) -> (parsed: Result<ParsedImage, LoadError>)
    ensures
        parsed is Ok <==> image_accepted(image@),
        parsed matches Ok(read) ==> {
            &&& elf_file_header(image@) matches Some(header) && read.entry_point
                == header.entry_point && read.segments@ == spec_segments(image@, header)
            &&& read.image_len == image@.len()
            &&& read.wf()
        },
        parsed matches Err(error) ==> error == LoadError::MalformedImage,
{
    if image.len() <= 5 || image[5] != 1 {
        return Err(LoadError::MalformedImage);
    }
    let copy = match AlignedImage::new(image) {
        Some(copy) => copy,
        None => {
            return Err(LoadError::MalformedImage);
        },
    };
    match read_file_header(&copy) {
        None => Err(LoadError::MalformedImage),
        Some(header) => match read_segments(&copy, &header) {
            None => Err(LoadError::MalformedImage),
            Some(segments) => ParsedImage::assemble(header.entry_point, segments, image.len()),
        },
    }
}

/// Reads the file header of the image with `xmas_elf::ElfFile::new`, and
/// hands back its class, its entry point, and the place, entry size and
/// length of its program-header table. The contract claims only that the
/// same bytes give the same answer. `xmas_elf` stops the program where the
/// header does not lie on an 8-byte boundary: an `AlignedImage` does.
#[verifier::external_body]
fn read_file_header(copy: &AlignedImage) -> (header: Option<FileHeader>)
    ensures
        header == elf_file_header(copy@),
{
    match ElfFile::new(copy.as_bytes()) {
        Ok(elf) => Some(FileHeader {
            wide: match elf.header.pt2 {
                HeaderPt2::Header32(_) => false,
                HeaderPt2::Header64(_) => true,
            },
            entry_point: elf.header.pt2.entry_point(),
            table_offset: elf.header.pt2.ph_offset(),
            entry_size: elf.header.pt2.ph_entry_size(),
            entry_count: elf.header.pt2.ph_count(),
        }),
        Err(_) => None,
    }
}

/// Reads entry `index` of the program-header table of the image with
/// `xmas_elf::ElfFile::program_header`, and hands back its address, offset
/// and sizes. The contract claims only that the same bytes and index give the
/// same answer. `xmas_elf` reads the entry in place, without a look at where
/// it ends, and stops the program where the entry is too small for its class,
/// reaches beyond the image or does not lie on a boundary of its class: the
/// precondition leaves those entries out, and an `AlignedImage` begins on an
/// 8-byte boundary.
#[verifier::external_body]
fn read_segment_extent(copy: &AlignedImage, index: u16) -> (extent: Option<SegmentExtent>)
    requires
        elf_file_header(copy@) matches Some(header) && header.entry_readable(
            copy@.len() as int,
            index as int,
        ),
    ensures
        extent == elf_segment_extent(copy@, index),
{
    let elf = ElfFile::new(copy.as_bytes()).ok()?;
    let entry = elf.program_header(index).ok()?;
    Some(SegmentExtent {
        virtual_address: entry.virtual_addr(),
        file_offset: entry.offset(),
        file_size: entry.file_size(),
        mem_size: entry.mem_size(),
    })
}

/// Reads the type of entry `index` of the program-header table of the image
/// with `xmas_elf::program::ProgramHeader::get_type`: one variant for each of
/// those that `xmas_elf` tells apart, and `Unknown` where it reports an
/// invalid type. The contract claims only that the same bytes and index give
/// the same answer. The entry is read as in `read_segment_extent`, under the
/// same precondition.
#[verifier::external_body]
fn read_segment_type(copy: &AlignedImage, index: u16) -> (kind: Option<SegmentType>)
    requires
        elf_file_header(copy@) matches Some(header) && header.entry_readable(
            copy@.len() as int,
            index as int,
        ),
    ensures
        kind == elf_segment_type(copy@, index),
{
    Some(match ElfFile::new(copy.as_bytes()).ok()?.program_header(index).ok()?.get_type() {
        Ok(Type::Null) => SegmentType::Null,
        Ok(Type::Load) => SegmentType::Loadable,
        Ok(Type::Dynamic) => SegmentType::Dynamic,
        Ok(Type::Interp) => SegmentType::Interp,
        Ok(Type::Note) => SegmentType::Note,
        Ok(Type::ShLib) => SegmentType::ShLib,
        Ok(Type::Phdr) => SegmentType::Phdr,
        Ok(Type::Tls) => SegmentType::Tls,
        Ok(Type::GnuRelro) => SegmentType::GnuRelro,
        Ok(Type::OsSpecific(number)) => SegmentType::OsSpecific(number),
        Ok(Type::ProcessorSpecific(number)) => SegmentType::ProcessorSpecific(number),
        Err(_) => SegmentType::Unknown,
    })
}

} // verus!
