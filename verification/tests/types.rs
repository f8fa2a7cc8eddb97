//! Address, frame and range behaviour on concrete values.

use kernel::PhysAddr;
use kernel::U64Ext;
use kernel::UsizeExt;
use kernel::PhysFrame;
use kernel::PhysFrameRange;
use kernel::VirtAddr;

#[test]
fn align_down_rounds_to_lower_multiple() {
    assert_eq!(PhysAddr::new(0x1234).align_down(0x1000).as_u64(), 0x1000);
    assert_eq!(PhysAddr::new(0x1000).align_down(0x1000).as_u64(), 0x1000);
    assert_eq!(PhysAddr::new(0xfff).align_down(0x1000).as_u64(), 0);
    assert_eq!(PhysAddr::new(7).align_down(1).as_u64(), 7);
    assert_eq!(VirtAddr::new(0xffff_ffff_ffff_ffff).align_down(0x1000).as_u64(), 0xffff_ffff_ffff_f000);
}

#[test]
fn align_up_rounds_to_least_upper_multiple() {
    assert_eq!(PhysAddr::new(0x1234).align_up(0x1000).as_u64(), 0x2000);
    assert_eq!(PhysAddr::new(0x1000).align_up(0x1000).as_u64(), 0x1000);
    assert_eq!(PhysAddr::new(1).align_up(0x1000).as_u64(), 0x1000);
    assert_eq!(PhysAddr::new(0).align_up(0x1000).as_u64(), 0);
    assert_eq!(VirtAddr::new(0x2001).align_up(2).as_u64(), 0x2002);
}

#[test]
fn align_down_bounds_hold_for_varied_inputs() {
    let alignments = [1u64, 2, 4, 64, 0x1000, 1 << 30];
    let addrs = [0u64, 1, 0xfff, 0x1000, 0x1001, 0xdead_beef, u64::MAX];
    for &a in &alignments {
        for &x in &addrs {
            let d = PhysAddr::new(x).align_down(a).as_u64();
            assert!(d <= x);
            assert!(x - d < a);
            assert_eq!(d % a, 0);
        }
    }
}

#[test]
fn is_aligned_agrees_with_remainder() {
    assert!(PhysAddr::new(0x3000).is_aligned(0x1000));
    assert!(!PhysAddr::new(0x3001).is_aligned(0x1000));
    assert!(VirtAddr::new(0).is_aligned(0x1000));
    assert!(VirtAddr::new(6).is_aligned(2));
    assert!(!VirtAddr::new(6).is_aligned(4));
}

#[test]
fn virt_addr_conversions_are_exact() {
    let v = VirtAddr::new(0x1234_5678);
    assert_eq!(v.as_u64(), 0x1234_5678);
    assert_eq!(v.as_usize(), 0x1234_5678usize);
}

#[test]
fn containing_address_starts_on_frame_boundary() {
    let f = PhysFrame::containing_address(PhysAddr::new(0x1abc));
    assert_eq!(f.start_address().as_u64(), 0x1000);
    assert_eq!(f.start_address().as_u64() % 4096, 0);
    assert_eq!(f.number(), 1);
}

#[test]
fn containing_address_is_idempotent() {
    let f = PhysFrame::containing_address(PhysAddr::new(0xdead_beef));
    let again = PhysFrame::containing_address(f.start_address());
    assert_eq!(f, again);
    assert_eq!(f.start_address().as_u64() % 4096, 0);
}

#[test]
fn empty_range_counts_zero() {
    let f1 = PhysFrame::containing_address(PhysAddr::new(0x5000));
    let f2 = PhysFrame::containing_address(PhysAddr::new(0x3000));
    let r = PhysFrameRange::new(f1, f2);
    assert!(r.is_empty());
    assert_eq!(r.count(), 0);
    let same = PhysFrameRange::new(f1, f1);
    assert!(same.is_empty());
    assert_eq!(same.count(), 0);
}

#[test]
fn count_times_frame_size_spans_the_range() {
    let start = PhysFrame::containing_address(PhysAddr::new(0x3000));
    let end = PhysFrame::containing_address(PhysAddr::new(0x8000));
    let r = PhysFrameRange::new(start, end);
    assert!(!r.is_empty());
    assert_eq!(r.count(), 5);
    assert_eq!(
        r.count() * 4096,
        end.start_address().as_u64() - start.start_address().as_u64()
    );
}

#[test]
fn single_frame_range_counts_one() {
    let start = PhysFrame::containing_address(PhysAddr::new(0));
    let end = PhysFrame::containing_address(PhysAddr::new(0x1000));
    assert_eq!(PhysFrameRange::new(start, end).count(), 1);
}

#[test]
fn extension_traits_convert_exactly() {
    assert_eq!(0x1234_5678_9abcu64.into_usize(), 0x1234_5678_9abcusize);
    assert_eq!(42usize.into_u64(), 42u64);
}

#[test]
fn align_up_bounds_hold_for_varied_inputs() {
    let alignments = [1u64, 2, 4, 64, 0x1000, 1 << 30];
    let addrs = [0u64, 1, 0xfff, 0x1000, 0x1001, 0xdead_beef];
    for &a in &alignments {
        for &x in &addrs {
            let u = PhysAddr::new(x).align_up(a).as_u64();
            assert!(u >= x);
            assert!(u - x < a);
            assert_eq!(u % a, 0);
        }
    }
}
