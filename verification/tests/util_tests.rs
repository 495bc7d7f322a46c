use kernel::allocator::mmio::{dma_layout, mmio_layout};
use kernel::helpers::{build_range, fold_sum, sum_byte_arr};
use kernel::util::align::{align_down, align_up};
use kernel::util::bitmap::Bitmap;
use kernel::util::le::{read_4, read_le16, read_le32, read_le64};
use kernel::util::fmt::{format_bool, format_decimal, format_hex_prefixed, format_padded};
use kernel::QemuExitCode;

#[test]
fn align_down_rounds_to_multiple() {
    assert_eq!(align_down(0x1234, 0x1000), 0x1000);
    assert_eq!(align_down(0x2000, 0x1000), 0x2000);
    assert_eq!(align_down(7, 8), 0);
}

#[test]
fn align_up_rounds_to_multiple() {
    assert_eq!(align_up(0x1234, 0x1000), 0x2000);
    assert_eq!(align_up(0x2000, 0x1000), 0x2000);
    assert_eq!(align_up(1, 8), 8);
    assert_eq!(align_up(0, 4096), 0);
}

#[test]
fn bitmap_set_get_clear() {
    let mut b = Bitmap::new(20);
    assert_eq!(b.bit_count(), 20);
    assert!(!b.get(3));
    b.set(3);
    b.set(17);
    assert!(b.get(3));
    assert!(b.get(17));
    assert!(!b.get(4));
    b.clear(3);
    assert!(!b.get(3));
    assert!(b.get(17));
}

#[test]
fn bitmap_first_empty_finds_lowest_clear_bit() {
    let mut b = Bitmap::new(10);
    assert_eq!(b.first_empty(), Some(0));
    for i in 0..4 {
        b.set(i);
    }
    assert_eq!(b.first_empty(), Some(4));
    for i in 4..10 {
        b.set(i);
    }
    assert_eq!(b.first_empty(), None);
}

#[test]
fn bitmap_from_bytes_reads_low_bit_first() {
    let b = Bitmap::from_bytes(vec![0b0000_0101, 0b1000_0000], 16);
    assert!(b.get(0));
    assert!(!b.get(1));
    assert!(b.get(2));
    assert!(b.get(15));
    assert!(!b.get(14));
    assert_eq!(b.first_empty(), Some(1));
}

#[test]
fn little_endian_reads() {
    let b = [0x78, 0x56, 0x34, 0x12, 0xF0, 0xDE, 0xBC, 0x9A, 0x11];
    assert_eq!(read_le16(&b, 0), 0x5678);
    assert_eq!(read_le32(&b, 0), 0x1234_5678);
    assert_eq!(read_le64(&b, 0), 0x9ABC_DEF0_1234_5678);
    assert_eq!(read_le32(&b, 5), 0x119A_BCDE);
    assert_eq!(read_4(&b, 2), [0x34, 0x12, 0xF0, 0xDE]);
}

#[test]
fn build_range_steps_from_start() {
    assert_eq!(build_range(4, 10, 3), vec![10, 13, 16, 19]);
    assert_eq!(build_range(0, 1, 1), Vec::<u16>::new());
}

#[test]
fn fold_sum_folds_carries() {
    assert_eq!(fold_sum(0x1_FFFF), 0x0001);
    assert_eq!(fold_sum(0x0001_2345), 0x2346);
    assert_eq!(fold_sum(0xFFFF), 0xFFFF);
    assert_eq!(fold_sum(0), 0);
    assert_eq!(fold_sum(0xFFFF_FFFF), 0xFFFF);
}

#[test]
fn sum_byte_arr_sums_big_endian_words() {
    assert_eq!(sum_byte_arr(&[0x12, 0x34, 0x56, 0x78]), 0x1234 + 0x5678);
    assert_eq!(sum_byte_arr(&[0x12, 0x34, 0x56]), 0x1234 + 0x5600);
    assert_eq!(sum_byte_arr(&[]), 0);
}

#[test]
fn fold_law_keeps_value_modulo_ffff() {
    for s in [0u32, 1, 0xFFFF, 0x1_0000, 0x1234_5678, 0xFFFF_FFFF, 0xABCD_EF01] {
        let f = fold_sum(s) as u64;
        assert!(f <= 0xFFFF);
        assert_eq!(f % 0xFFFF, s as u64 % 0xFFFF);
        assert_eq!(f == 0, s == 0);
    }
}

#[test]
fn mmio_layout_aligns_down_to_page() {
    let l = mmio_layout(0x1234_5678, 0x10);
    assert_eq!(l.phys_start, 0x1234_5000);
    assert_eq!(l.offset, 0x678);
    assert_eq!(l.aligned_size, 0x1000);
    let l = mmio_layout(0xFEE0_0FF0, 0x20);
    assert_eq!(l.phys_start, 0xFEE0_0000);
    assert_eq!(l.offset, 0xFF0);
    assert_eq!(l.aligned_size, 0x2000);
}

#[test]
fn dma_layout_rounds_to_pages() {
    assert_eq!(dma_layout(1), (0x1000, 1));
    assert_eq!(dma_layout(0x1000), (0x1000, 1));
    assert_eq!(dma_layout(0x1001), (0x2000, 2));
}

#[test]
fn decimal_text() {
    assert_eq!(format_decimal(0), "0");
    assert_eq!(format_decimal(7), "7");
    assert_eq!(format_decimal(255), "255");
    assert_eq!(format_decimal(1000), "1000");
    assert_eq!(format_decimal(u64::MAX), "18446744073709551615");
}

#[test]
fn padded_text() {
    assert_eq!(format_padded(0xab, 16, 4), "00ab");
    assert_eq!(format_padded(0x12345, 16, 4), "12345");
    assert_eq!(format_padded(5, 2, 16), "0000000000000101");
    assert_eq!(format_padded(0, 16, 0), "0");
    assert_eq!(format_padded(0xFF, 16, 2), "ff");
}

#[test]
fn prefixed_hex_and_bool_text() {
    assert_eq!(format_hex_prefixed(0x1f), "0x1f");
    assert_eq!(format_hex_prefixed(0), "0x0");
    assert_eq!(format_bool(true), "true");
    assert_eq!(format_bool(false), "false");
}

#[test]
fn qemu_exit_codes() {
    assert_eq!(QemuExitCode::Success.code(), 0x10);
    assert_eq!(QemuExitCode::Failed.code(), 0x11);
}
