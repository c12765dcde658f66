use packet_headers::checksum::{finalize_checksum, ip_sum, sum_words};

#[test]
fn ip_sum_adds_both_halves() {
    assert_eq!(ip_sum([10, 0, 0, 1]), 0x0a00 + 0x0001);
    assert_eq!(ip_sum([10, 0, 0, 2]), 0x0a00 + 0x0002);
    assert_eq!(ip_sum([192, 168, 1, 77]), 0xc0a8 + 0x014d);
    assert_eq!(ip_sum([0, 0, 0, 0]), 0);
}

#[test]
fn ip_sum_can_exceed_sixteen_bits() {
    assert_eq!(ip_sum([255, 255, 255, 255]), 0x1fffe);
}

#[test]
fn finalize_without_carry_complements() {
    assert_eq!(finalize_checksum(0), 0xffff);
    assert_eq!(finalize_checksum(0xffff), 0);
    assert_eq!(finalize_checksum(0x1234), 0xedcb);
    assert_eq!(finalize_checksum(1), 0xfffe);
}

#[test]
fn finalize_folds_one_carry() {
    assert_eq!(finalize_checksum(0x1dd11), 0x22ed);
    assert_eq!(finalize_checksum(0x10000), 0xfffe);
    assert_eq!(finalize_checksum(0x2ddf0), 0x220d);
}

#[test]
fn finalize_folds_more_than_once() {
    // 0x1ffff -> 0x1 + 0xffff = 0x10000 -> 0x1 + 0x0 = 0x1
    assert_eq!(finalize_checksum(0x1ffff), 0xfffe);
    // 0xffffffff -> 0xffff + 0xffff = 0x1fffe -> 0x1 + 0xfffe = 0xffff
    assert_eq!(finalize_checksum(0xffff_ffff), 0);
    // 0xffff0001 -> 0xffff + 0x0001 = 0x10000 -> 0x1
    assert_eq!(finalize_checksum(0xffff_0001), 0xfffe);
}

#[test]
fn sum_words_of_nothing_is_zero() {
    assert_eq!(sum_words(&[]), 0);
}

#[test]
fn sum_words_reads_big_endian_pairs() {
    assert_eq!(sum_words(&[0x01, 0xbb]), 0x01bb);
    assert_eq!(sum_words(&[0x01, 0xbb, 0xc7, 0x38]), 0x01bb + 0xc738);
    assert_eq!(sum_words(&[0xff, 0xff, 0xff, 0xff, 0xff, 0xff]), 3 * 0xffff);
}

#[test]
fn sum_words_pads_a_single_last_byte() {
    assert_eq!(sum_words(&[0xab]), 0xab00);
    assert_eq!(sum_words(&[0x00, 0x01, 0xf2]), 0x0001 + 0xf200);
}

#[test]
fn sum_words_at_the_largest_length() {
    let data = vec![0xffu8; 0x2_0000];
    assert_eq!(sum_words(&data), 0x1_0000 * 0xffff);
}

#[test]
fn rfc_1071_worked_example() {
    let data = [0x00, 0x01, 0xf2, 0x03, 0xf4, 0xf5, 0xf6, 0xf7];
    let sum = sum_words(&data);
    assert_eq!(sum, 0x2ddf0);
    assert_eq!(finalize_checksum(sum), 0x220d);
}

#[test]
fn data_with_its_checksum_sums_to_zero() {
    let data = [0x45u8, 0x00, 0x00, 0x3c, 0x1c, 0x46, 0x40, 0x00, 0x40, 0x06];
    let sum = sum_words(&data);
    let checksum = finalize_checksum(sum);
    assert_eq!(finalize_checksum(sum + checksum as u32), 0);
}
