use kernel_loader::error::LoadError;
use kernel_loader::segment::copy_file_bytes;
use kernel_loader::segment::load_check;
use kernel_loader::segment::load_segment;
use kernel_loader::segment::zero_fill;
use kernel_loader::segment::Placement;
use kernel_loader::segment::SegmentDescriptor;
use kernel_loader::segment::SegmentType;
use kernel_loader::segment::PAGE_SIZE;

fn loadable(virtual_address: u64, file_offset: u64, file_size: u64, mem_size: u64) -> SegmentDescriptor {
    SegmentDescriptor {
        virtual_address,
        file_offset,
        file_size,
        mem_size,
        segment_type: SegmentType::Loadable,
    }
}

/// An image of `len` bytes, none of them zero.
fn image(len: usize) -> Vec<u8> {
    (0..len).map(|i| (i % 251) as u8 + 1).collect()
}

#[test]
fn a_page_is_4096_bytes() {
    assert_eq!(PAGE_SIZE, 4096);
}

#[test]
fn an_aligned_segment_of_two_pages_takes_three() {
    let segment = loadable(0x100000, 0x40, 0x1000, 0x2000);
    let placement = segment.placement().unwrap();
    assert_eq!(placement, Placement { base_address: 0x100000, page_count: 3, offset: 0 });
    let image = image(0x1040);
    let mut region = vec![0xaau8; 3 * 4096];
    assert_eq!(load_segment(&mut region, &image, &segment), Ok(()));
    assert_eq!(&region[..0x1000], &image[0x40..0x1040]);
    assert!(region[0x1000..0x2000].iter().all(|&byte| byte == 0));
    assert!(region[0x2000..].iter().all(|&byte| byte == 0));
}

#[test]
fn an_unaligned_segment_is_placed_from_the_page_below() {
    let segment = loadable(0x100FFF, 0, 0, 0x1001);
    let placement = segment.placement().unwrap();
    assert_eq!(placement, Placement { base_address: 0x100000, page_count: 3, offset: 0xFFF });
}

#[test]
fn pages_are_the_span_rounded_up_and_one_more() {
    // A span of two pages and one byte takes three pages, and one to spare.
    assert_eq!(loadable(0x100000, 0, 0, 0x2001).placement().unwrap().page_count, 4);
    assert_eq!(loadable(0x100001, 0, 0, 0x2000).placement().unwrap().page_count, 4);
    assert_eq!(loadable(0x100000, 0, 0, 0x2000).placement().unwrap().page_count, 3);
    assert_eq!(loadable(0x100000, 0, 0, 1).placement().unwrap().page_count, 2);
    assert_eq!(loadable(0x100FFF, 0, 0, 1).placement().unwrap().page_count, 2);
    assert_eq!(loadable(0x100FFF, 0, 0, 2).placement().unwrap().page_count, 3);
}

#[test]
fn a_segment_without_memory_still_has_a_page() {
    let empty = loadable(0x200000, 0, 0, 0);
    assert_eq!(
        empty.placement().unwrap(),
        Placement { base_address: 0x200000, page_count: 1, offset: 0 }
    );
    let mut region = vec![7u8; 4096];
    assert_eq!(load_segment(&mut region, &[], &empty), Ok(()));
    assert!(region.iter().all(|&byte| byte == 0));
    assert_eq!(loadable(0x200010, 0, 0, 0).placement().unwrap().page_count, 2);
}

#[test]
fn placement_holds_for_addresses_of_all_kinds() {
    for &(address, mem_size) in &[
        (0u64, 0u64),
        (1, 1),
        (0xFFF, 0x1000),
        (0x1000, 0xFFF),
        (0x7FFF_FFFF_F123, 0x12345),
        (0xFFFF_FFFF_FFFF_FFFF, 0x10),
    ] {
        let placement = loadable(address, 0, 0, mem_size).placement().unwrap();
        assert_eq!(placement.base_address % 4096, 0);
        assert!(placement.base_address <= address);
        assert_eq!(placement.base_address + placement.offset as u64, address);
        assert!(placement.page_count >= 1);
        let bytes = placement.page_count as u128 * 4096;
        let span = placement.offset as u128 + mem_size as u128;
        assert!(bytes >= span);
        assert!(bytes < span + 2 * 4096);
        assert!(placement.base_address as u128 + bytes >= address as u128 + mem_size as u128);
    }
}

#[test]
fn there_is_no_placement_beyond_what_the_machine_addresses() {
    assert_eq!(loadable(0x1000, 0, 0, u64::MAX).placement(), None);
    assert_eq!(loadable(0x1FFF, 0, 0, u64::MAX - 0xFFE).placement(), None);
    assert_eq!(loadable(0, 0, 0, usize::MAX as u64 - 4095).placement(), None);
    assert!(loadable(0, 0, 0, (usize::MAX as u64 & !4095) - 4096).placement().is_some());
}

#[test]
fn tells_whether_a_descriptor_fits_an_image() {
    assert!(loadable(0x1000, 0x10, 0x20, 0x20).fits_image(0x30));
    assert!(!loadable(0x1000, 0x10, 0x20, 0x20).fits_image(0x2f));
    assert!(!loadable(0x1000, 0x10, 0x21, 0x20).fits_image(0x100));
    assert!(!loadable(0x1000, 0x101, 0, 0x20).fits_image(0x100));
    assert!(loadable(0x1000, 0x100, 0, 0x20).fits_image(0x100));
    assert!(!loadable(0x1000, u64::MAX, 2, 0x20).fits_image(0x100));
    assert!(!loadable(0x1000, 0, 0, u64::MAX).fits_image(0x100));
}

#[test]
fn only_load_segments_are_loadable() {
    assert!(loadable(0, 0, 0, 0).is_loadable());
    for kind in [
        SegmentType::Null,
        SegmentType::Dynamic,
        SegmentType::Interp,
        SegmentType::Note,
        SegmentType::ShLib,
        SegmentType::Phdr,
        SegmentType::Tls,
        SegmentType::GnuRelro,
        SegmentType::OsSpecific(0x60000000),
        SegmentType::ProcessorSpecific(0x70000000),
        SegmentType::Unknown,
    ] {
        assert!(!SegmentDescriptor { segment_type: kind, ..loadable(0, 0, 0, 0) }.is_loadable());
    }
}

#[test]
fn zero_fill_clears_every_byte() {
    let mut region = image(10000);
    zero_fill(&mut region);
    assert_eq!(region, vec![0u8; 10000]);
    let mut nothing: Vec<u8> = Vec::new();
    zero_fill(&mut nothing);
    assert!(nothing.is_empty());
}

#[test]
fn the_copy_leaves_the_rest_of_the_pages_alone() {
    let segment = loadable(0x5ff0, 8, 0x20, 0x30);
    let image = image(0x40);
    let mut region = vec![0x55u8; 3 * 4096];
    assert_eq!(copy_file_bytes(&mut region, &image, &segment), Ok(()));
    assert!(region[..0xff0].iter().all(|&byte| byte == 0x55));
    assert_eq!(&region[0xff0..0x1010], &image[8..0x28]);
    assert!(region[0x1010..].iter().all(|&byte| byte == 0x55));
}

#[test]
fn bytes_outside_the_file_bytes_are_zero_before_and_after_the_copy() {
    let segment = loadable(0x5ff0, 8, 0x20, 0x30);
    let image = image(0x40);
    let mut region = vec![0x55u8; 3 * 4096];
    zero_fill(&mut region);
    let before = region.clone();
    assert_eq!(copy_file_bytes(&mut region, &image, &segment), Ok(()));
    for i in (0..0xff0).chain(0x1010..3 * 4096) {
        assert_eq!(before[i], 0);
        assert_eq!(region[i], 0);
    }
    assert!(region[0xff0..0x1010].iter().all(|&byte| byte != 0));
}

#[test]
fn an_unaligned_segment_is_loaded_where_it_begins() {
    let segment = loadable(0x100FFF, 4, 3, 0x1001);
    let image = image(16);
    let mut region = vec![9u8; 3 * 4096];
    assert_eq!(load_segment(&mut region, &image, &segment), Ok(()));
    assert!(region[..0xFFF].iter().all(|&byte| byte == 0));
    assert_eq!(&region[0xFFF..0x1002], &image[4..7]);
    assert!(region[0x1002..].iter().all(|&byte| byte == 0));
}

#[test]
fn a_segment_without_file_bytes_is_zeros() {
    let segment = loadable(0x3000, 0x1000, 0, 0x800);
    let mut region = vec![1u8; 2 * 4096];
    assert_eq!(load_segment(&mut region, &image(0x1000), &segment), Ok(()));
    assert_eq!(region, vec![0u8; 2 * 4096]);
}

#[test]
fn a_segment_that_is_not_loadable_is_passed_over() {
    let note = SegmentDescriptor { segment_type: SegmentType::Note, ..loadable(0x3000, 0, 8, 8) };
    let mut region = vec![1u8; 2 * 4096];
    assert_eq!(load_segment(&mut region, &image(8), &note), Ok(()));
    assert_eq!(region, vec![1u8; 2 * 4096]);
    let odd = SegmentDescriptor { segment_type: SegmentType::Null, ..loadable(0, 50, 9, 1) };
    assert_eq!(load_segment(&mut region[..5], &image(8), &odd), Ok(()));
    assert_eq!(region, vec![1u8; 2 * 4096]);
}

#[test]
fn nothing_is_written_for_a_descriptor_that_does_not_fit() {
    let mut region = vec![1u8; 2 * 4096];
    let short = loadable(0x3000, 0, 9, 8);
    assert_eq!(load_segment(&mut region, &image(16), &short), Err(LoadError::MalformedImage));
    let outside = loadable(0x3000, 10, 8, 8);
    assert_eq!(load_segment(&mut region, &image(16), &outside), Err(LoadError::MalformedImage));
    assert_eq!(copy_file_bytes(&mut region, &image(16), &outside), Err(LoadError::MalformedImage));
    assert_eq!(region, vec![1u8; 2 * 4096]);
}

#[test]
fn nothing_is_written_to_pages_of_the_wrong_size() {
    let segment = loadable(0x3000, 0, 8, 8);
    for len in [0, 4096, 2 * 4096 - 1, 2 * 4096 + 1, 3 * 4096] {
        let mut region = vec![1u8; len];
        assert_eq!(load_segment(&mut region, &image(16), &segment), Err(LoadError::AllocationFailed));
        assert_eq!(copy_file_bytes(&mut region, &image(16), &segment), Err(LoadError::AllocationFailed));
        assert_eq!(region, vec![1u8; len]);
    }
}

#[test]
fn the_check_before_loading_names_the_fault() {
    let segment = loadable(0x3000, 0, 8, 8);
    assert_eq!(load_check(2 * 4096, 8, &segment), Ok(()));
    assert_eq!(load_check(2 * 4096, 7, &segment), Err(LoadError::MalformedImage));
    assert_eq!(load_check(4096, 8, &segment), Err(LoadError::AllocationFailed));
    assert_eq!(load_check(4096, 7, &segment), Err(LoadError::MalformedImage));
}
