use libmetro::util::{
    from_mac_datetime, from_mac_with_offset, mac_epoch_offset, nametable_hash,
    nametable_hash_bytes, to_mac_datetime, to_mac_with_offset,
};

#[test]
fn hash_of_empty_name_is_zero() {
    assert_eq!(nametable_hash(""), 0);
    assert_eq!(nametable_hash_bytes(b""), 0);
}

#[test]
fn hash_of_single_letter() {
    assert_eq!(nametable_hash("a"), 0x161);
}

#[test]
fn hash_of_add() {
    // L = 3; u runs 0x61, 0x90, 0x76; ((3 << 8) | 0x76) & 0x3FF.
    assert_eq!(nametable_hash("add"), 0x376);
}

#[test]
fn hash_is_below_table_size() {
    let samples: Vec<&str> = vec!["", "a", "b", "add", "sub_routine", "x", "longer_name_here"];
    for s in samples {
        assert!(nametable_hash(s) < 1024);
    }
}

#[test]
fn hash_same_bytes_same_value() {
    assert_eq!(nametable_hash("add"), nametable_hash_bytes(b"add"));
    assert_eq!(nametable_hash("b"), 0x162);
}

#[test]
fn mac_epoch_base_in_utc() {
    // Under a UTC local zone the Mac epoch offset is exactly the distance
    // from 1904-01-01 to 1970-01-01.
    assert_eq!(mac_epoch_offset(), 2082844800);
    assert_eq!(from_mac_datetime(0), -2082844800);
}

#[test]
fn mac_round_trip_with_offset() {
    let off = 2082844800i64;
    for d in [0u32, 1, 0xDEADBEEF, 0xFFFFFFFF] {
        let t = from_mac_with_offset(d, off);
        assert_eq!(to_mac_with_offset(t, off), d);
    }
}

#[test]
fn mac_round_trip_local() {
    let t = from_mac_datetime(0xDEADBEEF);
    assert_eq!(to_mac_datetime(t), Some(0xDEADBEEF));
}

#[test]
fn mac_out_of_range_is_none() {
    assert_eq!(to_mac_datetime(i64::MIN / 2), None);
    assert_eq!(to_mac_datetime(i64::MAX / 2), None);
}
