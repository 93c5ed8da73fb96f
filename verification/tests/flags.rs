use ffmpeg_next::{frame, packet, resampling};

#[test]
fn packet_constants_match_native_bits() {
    assert_eq!(packet::KEY, 0x0001);
    assert_eq!(packet::CORRUPT, 0x0002);
    assert_eq!(packet::ALL_BITS, 0x0003);
}

#[test]
fn packet_union_intersection_roundtrip() {
    // every combination within the declared packet set
    let values = [0, packet::KEY, packet::CORRUPT, packet::KEY | packet::CORRUPT];
    for &a_bits in &values {
        for &b_bits in &values {
            let a = packet::Flags::from_bits_truncate(a_bits);
            let b = packet::Flags::from_bits_truncate(b_bits);
            let u = a.union(b);
            let i = a.intersection(b);
            assert_eq!(packet::Flags::from_bits_truncate(u.bits()), u);
            assert_eq!(packet::Flags::from_bits_truncate(i.bits()), i);
            assert_eq!(u.bits(), a_bits | b_bits);
            assert_eq!(i.bits(), a_bits & b_bits);
        }
    }
}

#[test]
fn packet_from_bits_truncate_masks_unknown_bits() {
    let f = packet::Flags::from_bits_truncate(0x7fff_fff4);
    assert_eq!(f.bits(), 0);
    let g = packet::Flags::from_bits_truncate(-1);
    assert_eq!(g.bits(), packet::ALL_BITS);
}

#[test]
fn packet_set_operations() {
    let key = packet::Flags::from_bits_truncate(packet::KEY);
    let corrupt = packet::Flags::from_bits_truncate(packet::CORRUPT);
    let both = key.union(corrupt);
    assert!(both.contains(key));
    assert!(both.contains(corrupt));
    assert!(!key.contains(corrupt));
    assert_eq!(both.difference(key), corrupt);
    assert_eq!(key.complement(), corrupt);
    assert_eq!(packet::Flags::all().bits(), packet::ALL_BITS);
    assert!(packet::Flags::empty().is_empty());
    assert!(!both.is_empty());
}

#[test]
fn resampling_constants_and_roundtrip() {
    assert_eq!(resampling::FORCE, 0x0001);
    assert_eq!(resampling::ALL_BITS, 0x0001);
    let force = resampling::Flags::from_bits_truncate(resampling::FORCE);
    let none = resampling::Flags::empty();
    let u = force.union(none);
    assert_eq!(resampling::Flags::from_bits_truncate(u.bits()), u);
    assert_eq!(u.bits(), resampling::FORCE);
    assert_eq!(force.intersection(none).bits(), 0);
    assert_eq!(resampling::Flags::from_bits_truncate(0x10).bits(), 0);
}

#[test]
fn frame_constants_and_roundtrip() {
    assert_eq!(frame::CORRUPT, 0x0001);
    assert_eq!(frame::ALL_BITS, 0x0001);
    let corrupt = frame::Flags::from_bits_truncate(frame::CORRUPT);
    let u = corrupt.union(corrupt);
    let i = corrupt.intersection(corrupt);
    assert_eq!(frame::Flags::from_bits_truncate(u.bits()), u);
    assert_eq!(frame::Flags::from_bits_truncate(i.bits()), i);
    assert_eq!(u, corrupt);
    // the corrupt bit of the packet set is not a frame flag
    assert_eq!(frame::Flags::from_bits_truncate(0x0002).bits(), 0);
}
