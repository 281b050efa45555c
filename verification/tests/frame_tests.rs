use live_collab::frame::{decode_frame, encode_frame, SAMPLE_BYTES, SILENCE};

#[test]
fn encode_writes_each_sample_least_significant_byte_first() {
    let bytes = encode_frame(&[0x4060_0000, 0x0102_0304]);
    assert_eq!(bytes, vec![0x00, 0x00, 0x60, 0x40, 0x04, 0x03, 0x02, 0x01]);
}

#[test]
fn encode_matches_the_float_wire_format() {
    let samples = [3.5f32, -1.0, 0.0, 0.25];
    let bits: Vec<u32> = samples.iter().map(|s| s.to_bits()).collect();
    let expected: Vec<u8> = samples.iter().flat_map(|s| s.to_le_bytes()).collect();
    assert_eq!(encode_frame(&bits), expected);
}

#[test]
fn encode_of_nothing_is_empty() {
    assert_eq!(encode_frame(&[]), Vec::<u8>::new());
}

#[test]
fn decode_reads_whole_groups_of_four() {
    let samples = decode_frame(&[0x00, 0x00, 0x60, 0x40, 0x04, 0x03, 0x02, 0x01]);
    assert_eq!(samples, vec![0x4060_0000, 0x0102_0304]);
    assert_eq!(f32::from_bits(samples[0]), 3.5);
}

#[test]
fn decode_drops_a_trailing_group_of_fewer_than_four_bytes() {
    assert_eq!(decode_frame(&[1, 0, 0, 0, 9, 9, 9]), vec![1]);
    assert_eq!(decode_frame(&[9, 9, 9]), Vec::<u32>::new());
    assert_eq!(decode_frame(&[]), Vec::<u32>::new());
}

#[test]
fn decode_frame_inverts_encode_frame() {
    let samples = vec![0, 1, u32::MAX, 0x8000_0000, 0x3f80_0000];
    assert_eq!(decode_frame(&encode_frame(&samples)), samples);
}

#[test]
fn silence_is_the_bit_pattern_of_zero() {
    assert_eq!(f32::from_bits(SILENCE), 0.0);
    assert_eq!(SAMPLE_BYTES, 4);
}
