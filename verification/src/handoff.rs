//! The course of one boot attempt, from the kernel image to the kernel's
//! entry point.
//!
//! The firmware does the work: it sets pages aside, reports the display and
//! the size of its memory map, and ends its boot-time services. What is asked
//! of it, in which order, and what follows from each of its answers is
//! decided here. A boot attempt is made once: what has failed is not tried
//! again, and what was done before a failure is not undone.

use vstd::prelude::*;
use crate::display::FrameBuffer;
use crate::error::LoadError;
use crate::image::ParsedImage;
use crate::image::descriptors_accepted;
use crate::image::elf_file_header;
use crate::image::image_accepted;
use crate::image::parse_image;
use crate::image::spec_segments;
use crate::memory_map::snapshot_len;
use crate::memory_map::spec_snapshot_len;
use crate::segment::SegmentDescriptor;
use crate::segment::load_segment;
use crate::segment::spec_loaded;

verus! {

/// How far a boot attempt has come.
#[derive(Clone, Copy, Debug, PartialEq, Eq, Structural)]
pub enum Stage {
    /// Loadable segments are still to be placed.
    Loading,
    /// Every loadable segment lies in memory.
    SegmentsMapped,
    /// The display has been recorded.
    DisplayCaptured,
    /// The firmware has ended its boot-time services.
    ServicesFinalized,
    /// Control has passed to the kernel.
    Dispatched,
    /// The attempt has been given up.
    Halted,
}

/// What the firmware answers.
#[derive(Clone, Copy, Debug, PartialEq, Eq, Structural)]
pub enum Event {
    /// The pages asked for could not be had at their address.
    AllocationRefused,
    /// The display reports its memory and geometry.
    DisplayFound {
        base_pointer: usize,
        byte_size: usize,
        width_px: usize,
        height_px: usize,
        stride_px: usize,
    },
    /// There is no display surface.
    DisplayMissing,
    /// The memory map takes `required_size` bytes now, in entries of
    /// `entry_size` bytes.
    MemoryMapSized { required_size: usize, entry_size: usize },
    /// Boot-time services have ended, and the memory map is in its buffer.
    Finalized,
    /// Boot-time services could not be ended, or the firmware would not
    /// tell the size of its memory map.
    FinalizeRefused,
}

/// What has to be done next.
#[derive(Clone, Copy, Debug, PartialEq, Eq, Structural)]
pub enum Action {
    /// Set aside `page_count` pages at exactly `base_address`, and hand them
    /// over to be filled.
    AllocatePages { base_address: u64, page_count: usize },
    /// Ask the display for its memory and geometry.
    CaptureDisplay,
    /// Ask how large the memory map is now.
    SizeMemoryMap,
    /// End boot-time services, with a buffer of `buffer_len` bytes for the
    /// memory map.
    Finalize { buffer_len: usize },
    /// Pass control to the kernel.
    Dispatch,
    /// Stop for good, for this reason.
    Halt(LoadError),
    /// Nothing: control has passed to the kernel.
    Finished,
}

/// What the kernel is entered with.
#[derive(Clone, Copy, Debug, PartialEq, Eq, Structural)]
pub struct BootContext {
    /// The virtual address of the kernel's first instruction.
    pub entry_point: u64,
    /// The display surface.
    pub display: FrameBuffer,
    /// The length of the buffer that holds the memory map.
    pub snapshot_len: usize,
}

/// The index of the first loadable segment at or after `from`, or the
/// number of segments where there is none.
pub open spec fn spec_next_loadable(segments: Seq<SegmentDescriptor>, from: int) -> int
    decreases segments.len() - from,
{
    if from >= segments.len() {
        segments.len() as int
    } else if segments[from].spec_is_loadable() {
        from
    } else {
        spec_next_loadable(segments, from + 1)
    }
}

/// The state of a boot attempt.
pub struct HandoffModel {
    /// How far the attempt has come.
    pub stage: Stage,
    /// The bytes of the kernel image.
    pub image: Seq<u8>,
    /// The virtual address of the kernel's first instruction.
    pub entry_point: u64,
    /// The entries of the image's program-header table.
    pub segments: Seq<SegmentDescriptor>,
    /// The index of the segment to be placed next. Every loadable segment
    /// before it has been placed.
    pub cursor: int,
    /// The display, once it has been recorded.
    pub display: Option<FrameBuffer>,
    /// The length of the buffer for the memory map, once it is known.
    pub snapshot_len: Option<usize>,
    /// Why the attempt was given up, if it was.
    pub failure: Option<LoadError>,
}

impl HandoffModel {
    /// The states that a boot attempt can be in.
    pub open spec fn wf(self) -> bool {
        &&& descriptors_accepted(self.segments, self.image.len() as int)
        &&& self.image.len() <= usize::MAX
        &&& self.segments.len() <= usize::MAX
        &&& 0 <= self.cursor <= self.segments.len()
        &&& self.stage == Stage::Loading ==> self.cursor < self.segments.len()
            && self.segments[self.cursor].spec_is_loadable()
        &&& self.stage != Stage::Loading && self.stage != Stage::Halted ==> self.cursor
            == self.segments.len()
        &&& self.stage == Stage::Loading || self.stage == Stage::SegmentsMapped ==> self.display
            is None
        &&& self.stage == Stage::DisplayCaptured || self.stage == Stage::ServicesFinalized
            || self.stage == Stage::Dispatched ==> self.display is Some
        &&& self.display is None ==> self.snapshot_len is None
        &&& self.stage == Stage::ServicesFinalized || self.stage == Stage::Dispatched
            ==> self.snapshot_len is Some
        &&& self.stage == Stage::Halted <==> self.failure is Some
    }

    /// Whether segment `index` has been placed.
    pub open spec fn is_placed(self, index: int) -> bool {
        0 <= index < self.cursor && index < self.segments.len()
            && self.segments[index].spec_is_loadable()
    }

    /// An attempt that was given up before there was an image.
    pub open spec fn failed(error: LoadError) -> HandoffModel {
        HandoffModel {
            stage: Stage::Halted,
            image: Seq::empty(),
            entry_point: 0,
            segments: Seq::empty(),
            cursor: 0,
            display: None,
            snapshot_len: None,
            failure: Some(error),
        }
    }

    /// An attempt at its beginning: nothing is placed yet.
    pub open spec fn begun(
        image: Seq<u8>,
        entry_point: u64,
        segments: Seq<SegmentDescriptor>,
    ) -> HandoffModel {
        let first = spec_next_loadable(segments, 0);
        HandoffModel {
            stage: if first < segments.len() {
                Stage::Loading
            } else {
                Stage::SegmentsMapped
            },
            image,
            entry_point,
            segments,
            cursor: first,
            display: None,
            snapshot_len: None,
            failure: None,
        }
    }

    /// The attempt that begins with what came of reading the kernel file.
    pub open spec fn started(read: Result<Seq<u8>, LoadError>) -> HandoffModel {
        match read {
            Err(error) => HandoffModel::failed(error),
            Ok(image) => if image_accepted(image) {
                HandoffModel::begun(
                    image,
                    elf_file_header(image).unwrap().entry_point,
                    spec_segments(image, elf_file_header(image).unwrap()),
                )
            } else {
                HandoffModel::failed(LoadError::MalformedImage)
            },
        }
    }

    /// The same attempt, given up for `error`. What was done stays done.
    pub open spec fn halted(self, error: LoadError) -> HandoffModel {
        HandoffModel { stage: Stage::Halted, failure: Some(error), ..self }
    }

    /// What has to be done next.
    pub open spec fn pending(self) -> Action {
        match self.stage {
            Stage::Loading => Action::AllocatePages {
                base_address: self.segments[self.cursor].spec_placement().base_address,
                page_count: self.segments[self.cursor].spec_placement().page_count,
            },
            Stage::SegmentsMapped => Action::CaptureDisplay,
            Stage::DisplayCaptured => match self.snapshot_len {
                None => Action::SizeMemoryMap,
                Some(buffer_len) => Action::Finalize { buffer_len },
            },
            Stage::ServicesFinalized => Action::Dispatch,
            Stage::Dispatched => Action::Finished,
            Stage::Halted => Action::Halt(self.failure.unwrap()),
        }
    }

    /// The attempt after pages of `region_len` bytes were handed over for
    /// the segment that is to be placed. Pages of another size than was
    /// asked for are no answer to the request: the attempt is given up.
    /// Outside `Loading` no pages are expected, and nothing changes.
    pub open spec fn placed(self, region_len: int) -> HandoffModel {
        if self.stage != Stage::Loading {
            self
        } else if region_len != self.segments[self.cursor].spec_allocation_len() {
            self.halted(LoadError::AllocationFailed)
        } else {
            let next = spec_next_loadable(self.segments, self.cursor + 1);
            HandoffModel {
                stage: if next < self.segments.len() {
                    Stage::Loading
                } else {
                    Stage::SegmentsMapped
                },
                cursor: next,
                ..self
            }
        }
    }

    /// What the pages handed over hold afterwards.
    pub open spec fn filled(self, region: Seq<u8>) -> Seq<u8> {
        if self.stage == Stage::Loading && region.len() == self.segments[self.cursor].spec_allocation_len() {
            spec_loaded(self.image, self.segments[self.cursor])
        } else {
            region
        }
    }

    /// The attempt after the firmware's answer `event`. An answer to
    /// something that was not asked changes nothing.
    pub open spec fn advanced(self, event: Event) -> HandoffModel {
        match (self.stage, event) {
            (Stage::Loading, Event::AllocationRefused) => self.halted(LoadError::AllocationFailed),
            (
                Stage::SegmentsMapped,
                Event::DisplayFound { base_pointer, byte_size, width_px, height_px, stride_px },
            ) => HandoffModel {
                stage: Stage::DisplayCaptured,
                display: Some(
                    FrameBuffer::spec_new(base_pointer, byte_size, width_px, height_px, stride_px),
                ),
                ..self
            },
            (Stage::SegmentsMapped, Event::DisplayMissing) => self.halted(
                LoadError::NoDisplaySurface,
            ),
            (Stage::DisplayCaptured, Event::MemoryMapSized { required_size, entry_size }) => {
                if self.snapshot_len is Some {
                    self
                } else if spec_snapshot_len(required_size as int, entry_size as int) <= usize::MAX {
                    HandoffModel {
                        snapshot_len: Some(
                            spec_snapshot_len(required_size as int, entry_size as int) as usize,
                        ),
                        ..self
                    }
                } else {
                    self.halted(LoadError::FinalizeFailed)
                }
            },
            (Stage::DisplayCaptured, Event::Finalized) => {
                if self.snapshot_len is Some {
                    HandoffModel { stage: Stage::ServicesFinalized, ..self }
                } else {
                    self
                }
            },
            (Stage::DisplayCaptured, Event::FinalizeRefused) => self.halted(
                LoadError::FinalizeFailed,
            ),
            _ => self,
        }
    }

    /// The attempt after control has passed to the kernel, which it does
    /// from `ServicesFinalized` only.
    pub open spec fn dispatched(self) -> HandoffModel {
        if self.stage == Stage::ServicesFinalized {
            HandoffModel { stage: Stage::Dispatched, ..self }
        } else {
            self
        }
    }

    /// What the kernel is entered with, from `ServicesFinalized` only.
    pub open spec fn boot_context(self) -> Option<BootContext> {
        if self.stage == Stage::ServicesFinalized {
            Some(
                BootContext {
                    entry_point: self.entry_point,
                    display: self.display.unwrap(),
                    snapshot_len: self.snapshot_len.unwrap(),
                },
            )
        } else {
            None
        }
    }
}

/// The position of a stage in the course of an attempt. `Halted` is last: it
/// can follow any stage, and nothing follows it.
pub open spec fn stage_rank(stage: Stage) -> int {
    match stage {
        Stage::Loading => 0,
        Stage::SegmentsMapped => 1,
        Stage::DisplayCaptured => 2,
        Stage::ServicesFinalized => 3,
        Stage::Dispatched => 4,
        Stage::Halted => 5,
    }
}

/// From `from` on, the first loadable segment is where `spec_next_loadable`
/// says, and no segment before it is loadable.
pub proof fn next_loadable_is_first(segments: Seq<SegmentDescriptor>, from: int)
    requires
        0 <= from <= segments.len(),
    ensures
        from <= spec_next_loadable(segments, from) <= segments.len(),
        spec_next_loadable(segments, from) < segments.len() ==> segments[spec_next_loadable(
            segments,
            from,
        )].spec_is_loadable(),
        forall|i: int|
            from <= i < spec_next_loadable(segments, from) ==> !(#[trigger] segments[i]).spec_is_loadable(),
    decreases segments.len() - from,
{
    if from < segments.len() && !segments[from].spec_is_loadable() {
        next_loadable_is_first(segments, from + 1);
    }
}

/// Whatever the firmware answers, a boot attempt stays one of the states
/// that an attempt can be in and never goes back to an earlier stage. The
/// image stays what it is, no placed segment is given up, and the display
/// and the length of the buffer for the memory map, once taken, are not
/// taken again.
pub proof fn advancing_keeps_order(state: HandoffModel, event: Event)
    requires
        state.wf(),
    ensures
        state.advanced(event).wf(),
        stage_rank(state.advanced(event).stage) >= stage_rank(state.stage),
        state.advanced(event).image == state.image,
        state.advanced(event).entry_point == state.entry_point,
        state.advanced(event).segments == state.segments,
        state.advanced(event).cursor == state.cursor,
        state.display is Some ==> state.advanced(event).display == state.display,
        state.snapshot_len is Some ==> state.advanced(event).snapshot_len == state.snapshot_len,
{
}

/// Whatever pages are handed over, a boot attempt stays one of the states
/// that an attempt can be in and never goes back to an earlier stage. The
/// image stays what it is, and every segment that was placed before stays
/// placed. Pages of the size asked for place the segment they were asked
/// for.
pub proof fn placing_keeps_order(state: HandoffModel, region_len: int)
    requires
        state.wf(),
    ensures
        state.placed(region_len).wf(),
        stage_rank(state.placed(region_len).stage) >= stage_rank(state.stage),
        state.placed(region_len).image == state.image,
        state.placed(region_len).entry_point == state.entry_point,
        state.placed(region_len).segments == state.segments,
        forall|i: int| state.is_placed(i) ==> state.placed(region_len).is_placed(i),
        state.stage == Stage::Loading && region_len == state.segments[state.cursor].spec_allocation_len()
            ==> state.placed(region_len).is_placed(state.cursor),
{
    if state.stage == Stage::Loading {
        next_loadable_is_first(state.segments, state.cursor + 1);
    }
}

/// An attempt begins with the first loadable segment of the image, with
/// nothing placed; where the image has no loadable segment it begins with
/// the display.
pub proof fn beginning_is_in_order(
    image: Seq<u8>,
    entry_point: u64,
    segments: Seq<SegmentDescriptor>,
)
    requires
        descriptors_accepted(segments, image.len() as int),
        image.len() <= usize::MAX,
        segments.len() <= usize::MAX,
    ensures
        HandoffModel::begun(image, entry_point, segments).wf(),
        forall|i: int| !HandoffModel::begun(image, entry_point, segments).is_placed(i),
        HandoffModel::begun(image, entry_point, segments).stage == Stage::SegmentsMapped <==> forall|
            i: int,
        |
            0 <= i < segments.len() ==> !(#[trigger] segments[i]).spec_is_loadable(),
{
    next_loadable_is_first(segments, 0);
}

/// Once an attempt is past `Loading` without having been given up, every
/// loadable segment of the image has been placed: the display is recorded,
/// and boot-time services are ended, only after all the pages are set aside.
pub proof fn later_stages_follow_all_placements(state: HandoffModel, i: int)
    requires
        state.wf(),
        state.stage != Stage::Loading,
        state.stage != Stage::Halted,
        0 <= i < state.segments.len(),
        state.segments[i].spec_is_loadable(),
    ensures
        state.is_placed(i),
{
}

/// An attempt that was given up, and one that has reached the kernel, stay
/// as they are whatever comes: nothing is asked of the firmware again.
pub proof fn terminal_stages_are_final(state: HandoffModel, event: Event, region_len: int)
    requires
        state.stage == Stage::Halted || state.stage == Stage::Dispatched,
    ensures
        state.advanced(event) == state,
        state.placed(region_len) == state,
        state.dispatched() == state,
        state.boot_context() is None,
{
}

/// What is asked for goes by the stage alone. Pages are asked for in
/// `Loading` only, the display in `SegmentsMapped` only, and the size of the
/// memory map and the end of boot-time services in `DisplayCaptured` only:
/// each answer leaves its stage behind or leaves nothing to ask there, so
/// none of them is asked for again once it was had.
pub proof fn requests_follow_stage(state: HandoffModel)
    ensures
        state.pending() is AllocatePages <==> state.stage == Stage::Loading,
        state.pending() is CaptureDisplay <==> state.stage == Stage::SegmentsMapped,
        state.pending() is SizeMemoryMap <==> state.stage == Stage::DisplayCaptured
            && state.snapshot_len is None,
        state.pending() is Finalize <==> state.stage == Stage::DisplayCaptured
            && state.snapshot_len is Some,
        state.pending() is Dispatch <==> state.stage == Stage::ServicesFinalized,
        state.pending() is Finished <==> state.stage == Stage::Dispatched,
        state.pending() is Halt <==> state.stage == Stage::Halted,
{
}

/// The index of the first loadable segment at or after `from`, or the
/// number of segments where there is none.
pub fn next_loadable(segments: &Vec<SegmentDescriptor>, from: usize) -> (index: usize)
    ensures
        index == spec_next_loadable(segments@, from as int),
{
    let count: usize = segments.len();
    if from >= count {
        return count;
    }
    let mut i: usize = from;
    while i < count
        invariant
            from <= i <= count == segments@.len(),
            spec_next_loadable(segments@, from as int) == spec_next_loadable(segments@, i as int),
        decreases count - i,
    {
        if segments[i].is_loadable() {
            return i;
        }
        i += 1;
    }
    count
}

/// What changes in the course of an attempt.
#[derive(Clone, Copy)]
struct Progress {
    stage: Stage,
    cursor: usize,
    display: Option<FrameBuffer>,
    snapshot_len: Option<usize>,
    failure: Option<LoadError>,
}

/// One boot attempt. It is always in one of the states that an attempt can
/// be in.
pub struct BootHandoff {
    image: Vec<u8>,
    entry_point: u64,
    segments: Vec<SegmentDescriptor>,
    progress: Progress,
}

impl View for BootHandoff {
    type V = HandoffModel;

    closed spec fn view(&self) -> HandoffModel {
        HandoffModel {
            stage: self.progress.stage,
            image: self.image@,
            entry_point: self.entry_point,
            segments: self.segments@,
            cursor: self.progress.cursor as int,
            display: self.progress.display,
            snapshot_len: self.progress.snapshot_len,
            failure: self.progress.failure,
        }
    }
}

impl BootHandoff {
    #[verifier::type_invariant]
    spec fn in_order(&self) -> bool {
        self@.wf()
    }

    /// An attempt that is given up before there is an image.
    pub fn failed(error: LoadError) -> (handoff: BootHandoff)
        ensures
            handoff@ == HandoffModel::failed(error),
            handoff@.wf(),
    {
        BootHandoff {
            image: Vec::new(),
            entry_point: 0,
            segments: Vec::new(),
            progress: Progress {
                stage: Stage::Halted,
                cursor: 0,
                display: None,
                snapshot_len: None,
                failure: Some(error),
            },
        }
    }

    /// Begins an attempt with an image that has been read. Where a loadable
    /// entry of `parsed` does not fit `image`, the attempt is given up as
    /// `MalformedImage`.
    pub fn begin(image: Vec<u8>, parsed: ParsedImage) -> (handoff: BootHandoff)
        ensures
            handoff@ == if descriptors_accepted(parsed.segments@, image@.len() as int) {
                HandoffModel::begun(image@, parsed.entry_point, parsed.segments@)
            } else {
                HandoffModel::failed(LoadError::MalformedImage)
            },
            handoff@.wf(),
    {
        match ParsedImage::assemble(parsed.entry_point, parsed.segments, image.len()) {
            Err(_) => BootHandoff::failed(LoadError::MalformedImage),
            Ok(checked) => {
                let first = next_loadable(&checked.segments, 0);
                let count = checked.segments.len();
                proof {
                    beginning_is_in_order(image@, checked.entry_point, checked.segments@);
                }
                BootHandoff {
                    entry_point: checked.entry_point,
                    progress: Progress {
                        stage: if first < count {
                            Stage::Loading
                        } else {
                            Stage::SegmentsMapped
                        },
                        cursor: first,
                        display: None,
                        snapshot_len: None,
                        failure: None,
                    },
                    segments: checked.segments,
                    image,
                }
            },
        }
    }

    /// Begins an attempt with what came of reading the kernel file: its
    /// bytes, or the reason why there are none. The attempt is given up at
    /// once where there are no bytes, for that reason, and where the bytes
    /// are not taken for a kernel image, as `MalformedImage`.
    pub fn start(read: Result<Vec<u8>, LoadError>) -> (handoff: BootHandoff)
        ensures
            handoff@ == HandoffModel::started(
                match read {
                    Ok(image) => Ok(image@),
                    Err(error) => Err(error),
                },
            ),
            handoff@.wf(),
    {
        match read {
            Err(error) => BootHandoff::failed(error),
            Ok(image) => match parse_image(image.as_slice()) {
                Err(_) => BootHandoff::failed(LoadError::MalformedImage),
                Ok(parsed) => BootHandoff::begin(image, parsed),
            },
        }
    }

    /// How far the attempt has come.
    pub fn stage(&self) -> (stage: Stage)
        ensures
            stage == self@.stage,
    {
        self.progress.stage
    }

    /// Why the attempt was given up, if it was.
    pub fn failure(&self) -> (failure: Option<LoadError>)
        ensures
            failure == self@.failure,
    {
        self.progress.failure
    }

    /// The display, once it has been recorded.
    pub fn display(&self) -> (display: Option<FrameBuffer>)
        ensures
            display == self@.display,
    {
        self.progress.display
    }

    /// The virtual address of the kernel's first instruction.
    pub fn entry_point(&self) -> (entry_point: u64)
        ensures
            entry_point == self@.entry_point,
    {
        self.entry_point
    }

    /// The number of entries in the image's program-header table.
    pub fn segment_count(&self) -> (count: usize)
        ensures
            count == self@.segments.len(),
    {
        self.segments.len()
    }

    /// Whether segment `index` has been placed. A segment that was placed
    /// stays placed, also when the attempt is given up later.
    pub fn is_placed(&self, index: usize) -> (placed: bool)
        ensures
            placed == self@.is_placed(index as int),
    {
        index < self.progress.cursor && index < self.segments.len()
            && self.segments[index].is_loadable()
    }

    /// What has to be done next.
    pub fn pending(&self) -> (action: Action)
        ensures
            action == self@.pending(),
            self@.wf(),
    {
        proof {
            use_type_invariant(self);
        }
        match self.progress.stage {
            Stage::Loading => match self.segments[self.progress.cursor].placement() {
                Some(placement) => Action::AllocatePages {
                    base_address: placement.base_address,
                    page_count: placement.page_count,
                },
                None => vstd::pervasive::unreached(),
            },
            Stage::SegmentsMapped => Action::CaptureDisplay,
            Stage::DisplayCaptured => match self.progress.snapshot_len {
                None => Action::SizeMemoryMap,
                Some(buffer_len) => Action::Finalize { buffer_len },
            },
            Stage::ServicesFinalized => Action::Dispatch,
            Stage::Dispatched => Action::Finished,
            Stage::Halted => match self.progress.failure {
                Some(error) => Action::Halt(error),
                None => vstd::pervasive::unreached(),
            },
        }
    }

    /// Takes over the pages that were set aside for the segment to be placed
    /// next, and loads the segment into them: `region` stands for the pages.
    /// The attempt goes on to the next loadable segment or, after the last,
    /// to `SegmentsMapped`.
    ///
    /// Pages of another size than was asked for are left as they are, and
    /// the attempt is given up as `AllocationFailed`. Outside `Loading` no
    /// pages are expected: they are left as they are, and nothing changes.
    pub fn place_segment(&mut self, region: &mut [u8]) -> (action: Action)
        ensures
            final(self)@ == old(self)@.placed(old(region)@.len() as int),
            final(region)@ == old(self)@.filled(old(region)@),
            final(self)@.wf(),
            action == final(self)@.pending(),
    {
        proof {
            use_type_invariant(&*self);
            placing_keeps_order(self@, region@.len() as int);
        }
        let now = self.progress;
        match now.stage {
            Stage::Loading => {
                let segment = self.segments[now.cursor];
                match load_segment(region, self.image.as_slice(), &segment) {
                    Ok(()) => {
                        let next = next_loadable(&self.segments, now.cursor + 1);
                        self.progress = Progress {
                            stage: if next < self.segments.len() {
                                Stage::Loading
                            } else {
                                Stage::SegmentsMapped
                            },
                            cursor: next,
                            ..now
                        };
                    },
                    Err(_) => {
                        self.progress = Progress {
                            stage: Stage::Halted,
                            failure: Some(LoadError::AllocationFailed),
                            ..now
                        };
                    },
                }
            },
            _ => {},
        }
        self.pending()
    }

    /// Takes the firmware's answer `event` and tells what has to be done
    /// next. An answer to something that was not asked changes nothing: what
    /// was asked is asked again.
    pub fn advance(&mut self, event: Event) -> (action: Action)
        ensures
            final(self)@ == old(self)@.advanced(event),
            final(self)@.wf(),
            action == final(self)@.pending(),
    {
        proof {
            use_type_invariant(&*self);
            advancing_keeps_order(self@, event);
        }
        let now = self.progress;
        let next = match (now.stage, event) {
            (Stage::Loading, Event::AllocationRefused) => Progress {
                stage: Stage::Halted,
                failure: Some(LoadError::AllocationFailed),
                ..now
            },
            (
                Stage::SegmentsMapped,
                Event::DisplayFound { base_pointer, byte_size, width_px, height_px, stride_px },
            ) => {
                let surface = FrameBuffer::new(
                    base_pointer,
                    byte_size,
                    width_px,
                    height_px,
                    stride_px,
                );
                Progress { stage: Stage::DisplayCaptured, display: Some(*surface), ..now }
            },
            (Stage::SegmentsMapped, Event::DisplayMissing) => Progress {
                stage: Stage::Halted,
                failure: Some(LoadError::NoDisplaySurface),
                ..now
            },
            (Stage::DisplayCaptured, Event::MemoryMapSized { required_size, entry_size }) => {
                if now.snapshot_len.is_some() {
                    now
                } else {
                    match snapshot_len(required_size, entry_size) {
                        Some(buffer_len) => Progress { snapshot_len: Some(buffer_len), ..now },
                        None => Progress {
                            stage: Stage::Halted,
                            failure: Some(LoadError::FinalizeFailed),
                            ..now
                        },
                    }
                }
            },
            (Stage::DisplayCaptured, Event::Finalized) => {
                if now.snapshot_len.is_some() {
                    Progress { stage: Stage::ServicesFinalized, ..now }
                } else {
                    now
                }
            },
            (Stage::DisplayCaptured, Event::FinalizeRefused) => Progress {
                stage: Stage::Halted,
                failure: Some(LoadError::FinalizeFailed),
                ..now
            },
            _ => now,
        };
        self.progress = next;
        self.pending()
    }

    /// Hands out what the kernel is entered with, and marks the attempt as
    /// `Dispatched`. This happens once, from `ServicesFinalized`: before
    /// that, and ever after, there is nothing to hand out and nothing
    /// changes.
    pub fn dispatch(&mut self) -> (context: Option<BootContext>)
        ensures
            final(self)@ == old(self)@.dispatched(),
            final(self)@.wf(),
            context == old(self)@.boot_context(),
    {
        proof {
            use_type_invariant(&*self);
        }
        let now = self.progress;
        match (now.stage, now.display, now.snapshot_len) {
            (Stage::ServicesFinalized, Some(display), Some(snapshot_len)) => {
                self.progress = Progress { stage: Stage::Dispatched, ..now };
                Some(BootContext { entry_point: self.entry_point, display, snapshot_len })
            },
            _ => None,
        }
    }
}

} // verus!
