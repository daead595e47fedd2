use latency_reader::messages::decode_message;
use latency_reader::messages::encode_message;
use latency_reader::messages::NetworkMessage;

const ALL_MESSAGES: [NetworkMessage; 6] = [
    NetworkMessage::StartTimer,
    NetworkMessage::StopTimer,
    NetworkMessage::ResetTimer,
    NetworkMessage::Ping,
    NetworkMessage::Pong,
    NetworkMessage::Connect,
];

#[test]
fn every_variant_round_trips() {
    for m in ALL_MESSAGES {
        let wire = encode_message(&m);
        assert_eq!(decode_message(&wire), Some(m));
    }
}

#[test]
fn wire_form_is_a_four_byte_tag() {
    assert_eq!(encode_message(&NetworkMessage::StartTimer), vec![0, 0, 0, 0]);
    assert_eq!(encode_message(&NetworkMessage::StopTimer), vec![1, 0, 0, 0]);
    assert_eq!(encode_message(&NetworkMessage::ResetTimer), vec![2, 0, 0, 0]);
    assert_eq!(encode_message(&NetworkMessage::Ping), vec![3, 0, 0, 0]);
    assert_eq!(encode_message(&NetworkMessage::Pong), vec![4, 0, 0, 0]);
    assert_eq!(encode_message(&NetworkMessage::Connect), vec![5, 0, 0, 0]);
}

#[test]
fn undecodable_datagrams_yield_nothing() {
    assert_eq!(decode_message(&[6, 0, 0, 0]), None);
    assert_eq!(decode_message(&[255, 0, 0, 0]), None);
    assert_eq!(decode_message(&[0, 1, 0, 0]), None);
    assert_eq!(decode_message(&[0, 0, 0]), None);
    assert_eq!(decode_message(&[0, 0, 0, 0, 0]), None);
    assert_eq!(decode_message(&[]), None);
}
