use hdars::error::HdaError;
use hdars::verb::{decode_node_range, encode, hda_verb, PARAMS_NODE_COUNT, VERBS_PARAMETERS};

#[test]
fn encode_round_trip_fields() {
    for &node_id in &[0u32, 1, 5, 127, 255] {
        for &command in &[0u32, 4, 0x0f00, 0x1234, 65535] {
            for &parameter in &[0u32, 4, 99, 255] {
                let w = encode(node_id, command, parameter).unwrap();
                assert_eq!((w >> 24) & 0xff, node_id);
                assert_eq!((w >> 8) & 0xffff, command);
                assert_eq!(w & 0xff, parameter);
                assert_eq!(w, (node_id << 24) | (command << 8) | parameter);
            }
        }
    }
}

#[test]
fn encode_rejects_out_of_range() {
    assert_eq!(encode(256, 0, 0), Err(HdaError::OutOfRange));
    assert_eq!(encode(0, 65536, 0), Err(HdaError::OutOfRange));
    assert_eq!(encode(0, 0, 256), Err(HdaError::OutOfRange));
    assert_eq!(encode(u32::MAX, u32::MAX, u32::MAX), Err(HdaError::OutOfRange));
    assert_eq!(encode(255, 65535, 255), Ok(0xffff_ffff));
}

#[test]
fn node_range_decoding() {
    assert_eq!(decode_node_range(0x0001_0005), (5, 1));
    assert_eq!(decode_node_range(0x7fff_7fff), (0x7fff, 0x7fff));
    assert_eq!(decode_node_range(0), (0, 0));
    // The top bit of each half-word is not part of the field.
    assert_eq!(decode_node_range(0xffff_ffff), (0x7fff, 0x7fff));
}

#[test]
fn new_packs_sub_node_count_query() {
    let v = hda_verb::new(2, VERBS_PARAMETERS, PARAMS_NODE_COUNT);
    assert_eq!(v.verb, 0x020f_0004);
    assert_eq!(v.response, 0);
    let root = hda_verb::new(0, VERBS_PARAMETERS, PARAMS_NODE_COUNT);
    assert_eq!(root.verb, 0x000f_0004);
}
