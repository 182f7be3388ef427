use idgen::layout::{pack, random_bits, sequence_bits, timestamp_bits};

#[test]
fn pack_of_ones() {
    assert_eq!(pack(1, 1, 1), (1 << 24) | (1 << 12) | 1);
    assert_eq!(pack(1, 1, 1), 16781313);
}

#[test]
fn pack_of_zeros() {
    assert_eq!(pack(0, 0, 0), 0);
}

#[test]
fn pack_places_each_part() {
    assert_eq!(pack(1, 0, 0), 0x0100_0000);
    assert_eq!(pack(0, 1, 0), 0x1000);
    assert_eq!(pack(0, 0, 1), 1);
    assert_eq!(pack(0xAB, 0x123, 0x456), 0xAB12_3456);
}

#[test]
fn pack_keeps_twelve_bits_of_sequence_and_random() {
    assert_eq!(pack(0, 0xFFFF, 0), 0x00FF_F000);
    assert_eq!(pack(0, 0, 0xFFFF), 0x0FFF);
    assert_eq!(pack(0, 0x1000, 0), 0);
    assert_eq!(pack(0, 0, 0x1000), 0);
    assert_eq!(pack(7, 0xF001, 0xE002), (7 << 24) | (1 << 12) | 2);
}

#[test]
fn pack_keeps_forty_bits_of_timestamp() {
    assert_eq!(pack(u64::MAX, 0, 0), 0xFFFF_FFFF_FF00_0000);
    assert_eq!(pack(1 << 40, 0, 0), 0);
    assert_eq!(pack((1 << 40) + 3, 0, 0), 3 << 24);
    assert_eq!(pack(u64::MAX, u16::MAX, u16::MAX), u64::MAX);
}

#[test]
fn pack_of_a_present_day_timestamp() {
    let timestamp: u64 = 1_700_000_000_000;
    let id = pack(timestamp, 0x0ABC, 0x0DEF);
    assert_eq!(id, ((timestamp % (1 << 40)) << 24) + (0xABC << 12) + 0xDEF);
    assert_eq!(id, 10_074_523_126_301_707_759);
}

#[test]
fn fields_read_back_what_was_packed() {
    let id = pack(0x12_3456_789A, 0x0BCD, 0x0EF0);
    assert_eq!(timestamp_bits(id), 0x12_3456_789A);
    assert_eq!(sequence_bits(id), 0x0BCD);
    assert_eq!(random_bits(id), 0x0EF0);
}

#[test]
fn fields_read_back_reduced_parts() {
    let id = pack((5 << 40) | 77, 0xF123, 0xE456);
    assert_eq!(timestamp_bits(id), 77);
    assert_eq!(sequence_bits(id), 0x123);
    assert_eq!(random_bits(id), 0x456);
}

#[test]
fn fields_of_extreme_identifiers() {
    assert_eq!(timestamp_bits(0), 0);
    assert_eq!(sequence_bits(0), 0);
    assert_eq!(random_bits(0), 0);
    assert_eq!(timestamp_bits(u64::MAX), (1 << 40) - 1);
    assert_eq!(sequence_bits(u64::MAX), 0xFFF);
    assert_eq!(random_bits(u64::MAX), 0xFFF);
}

#[test]
fn packing_the_fields_gives_the_identifier_back() {
    for id in [0u64, 1, 16781313, 0xDEAD_BEEF_CAFE_F00D, u64::MAX] {
        assert_eq!(pack(timestamp_bits(id), sequence_bits(id), random_bits(id)), id);
    }
}
