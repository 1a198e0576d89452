use kraken_collector::collectors::ibeacon::{
    beacon_key, bytes_eq, ibeacon_payload, parse_ibeacon, uuid_allowed, uuid_hyphenated,
    BeaconFilter,
};

fn sample_frame_bytes() -> Vec<u8> {
    let mut data = vec![0x02, 0x15];
    data.extend_from_slice(&[
        0xe2, 0xc5, 0x6d, 0xb5, 0xdf, 0xfb, 0x48, 0xd2, 0xb0, 0x60, 0xd0, 0xf5, 0xa7, 0x10, 0x96,
        0xe0,
    ]);
    data.extend_from_slice(&[0x01, 0x02]); // group 258
    data.extend_from_slice(&[0x00, 0x07]); // unit 7
    data.push(0xc5); // transmit power -59
    data
}

#[test]
fn well_formed_frame_is_decoded_exactly() {
    let data = sample_frame_bytes();
    let frame = parse_ibeacon(&data).unwrap();
    assert_eq!(frame.uuid, data[2..18].to_vec());
    assert_eq!(frame.major, 258);
    assert_eq!(frame.minor, 7);
    assert_eq!(frame.tx_power, -59);
}

#[test]
fn short_or_mismarked_data_is_refused() {
    assert!(parse_ibeacon(&vec![0x02, 0x15, 0x00]).is_none());
    let mut wrong_type = sample_frame_bytes();
    wrong_type[0] = 0x03;
    assert!(parse_ibeacon(&wrong_type).is_none());
    let mut wrong_len = sample_frame_bytes();
    wrong_len[1] = 0x14;
    assert!(parse_ibeacon(&wrong_len).is_none());
}

#[test]
fn byte_vectors_compare_by_contents() {
    assert!(bytes_eq(&vec![1, 2, 3], &vec![1, 2, 3]));
    assert!(!bytes_eq(&vec![1, 2, 3], &vec![1, 2, 4]));
    assert!(!bytes_eq(&vec![1, 2], &vec![1, 2, 3]));
}

#[test]
fn empty_allow_list_admits_every_identifier() {
    let allowed: Vec<Vec<u8>> = Vec::new();
    assert!(uuid_allowed(&vec![0; 16], &allowed));
}

#[test]
fn only_listed_identifiers_pass_a_non_empty_list() {
    let listed = sample_frame_bytes()[2..18].to_vec();
    let allowed = vec![listed.clone()];
    assert!(uuid_allowed(&listed, &allowed));
    assert!(!uuid_allowed(&vec![0; 16], &allowed));
}

#[test]
fn repeat_sighting_inside_window_is_suppressed() {
    let frame = parse_ibeacon(&sample_frame_bytes()).unwrap();
    let key = beacon_key(&frame);
    let mut filter = BeaconFilter::new(1_000);
    assert!(filter.observe(key, 10_000));
    assert!(!filter.observe(key, 10_500));
    assert!(!filter.observe(key, 10_999));
    assert!(filter.observe(key, 11_000));
}

#[test]
fn different_beacons_are_filtered_independently() {
    let frame = parse_ibeacon(&sample_frame_bytes()).unwrap();
    let key_a = beacon_key(&frame);
    let mut other = key_a;
    other.minor = 8;
    let mut filter = BeaconFilter::new(1_000);
    assert!(filter.observe(key_a, 10_000));
    assert!(filter.observe(other, 10_001));
    assert!(!filter.observe(key_a, 10_500));
    assert!(!filter.observe(other, 10_500));
}

#[test]
fn identifier_is_formatted_hyphenated() {
    let uuid = sample_frame_bytes()[2..18].to_vec();
    assert_eq!(uuid_hyphenated(&uuid), "e2c56db5-dffb-48d2-b060-d0f5a71096e0");
}

#[test]
fn sighting_payload_is_framed_exactly() {
    let uuid = sample_frame_bytes()[2..18].to_vec();
    let json = ibeacon_payload(&uuid, -59, "AA:BB:CC:DD:EE:FF", 258, 7);
    assert_eq!(
        json,
        "{\"uuid\":\"e2c56db5-dffb-48d2-b060-d0f5a71096e0\",\"rssi\":-59,\
         \"address\":\"AA:BB:CC:DD:EE:FF\",\"major\":258,\"minor\":7}"
    );
}
