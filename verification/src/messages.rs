use vstd::prelude::*;

verus! {

/// The closed set of peer-protocol messages. Every message is a bare tag
/// with no payload; one datagram carries exactly one message.
#[derive(Clone, Copy, PartialEq, Eq, Structural, Debug)]
pub enum NetworkMessage {
    StartTimer,
    StopTimer,
    ResetTimer,
    Ping,
    Pong,
    Connect,
}

/// The wire tag of a message: its position in the declaration order.
pub open spec fn tag_of(m: NetworkMessage) -> u8 {
    match m {
        NetworkMessage::StartTimer => 0,
        NetworkMessage::StopTimer => 1,
        NetworkMessage::ResetTimer => 2,
        NetworkMessage::Ping => 3,
        NetworkMessage::Pong => 4,
        NetworkMessage::Connect => 5,
    }
}

/// The message a wire tag denotes, if any.
pub open spec fn message_of_tag(t: u8) -> Option<NetworkMessage> {
    if t == 0 {
        Some(NetworkMessage::StartTimer)
    } else if t == 1 {
        Some(NetworkMessage::StopTimer)
    } else if t == 2 {
        Some(NetworkMessage::ResetTimer)
    } else if t == 3 {
        Some(NetworkMessage::Ping)
    } else if t == 4 {
        Some(NetworkMessage::Pong)
    } else if t == 5 {
        Some(NetworkMessage::Connect)
    } else {
        None
    }
}

/// The wire form of a message: its tag as a four-byte little-endian word,
/// so a datagram is exactly four bytes.
pub open spec fn encoded(m: NetworkMessage) -> Seq<u8> {
    seq![tag_of(m), 0u8, 0u8, 0u8]
}

/// The message a datagram decodes to: a known tag in four-byte
/// little-endian form. Anything else is undecodable and gets dropped.
pub open spec fn decoded(bytes: Seq<u8>) -> Option<NetworkMessage> {
    if bytes.len() == 4 && bytes[1] == 0 && bytes[2] == 0 && bytes[3] == 0 {
        message_of_tag(bytes[0])
    } else {
        None
    }
}

/// Serializes a message for one outbound datagram.
pub fn encode_message(m: &NetworkMessage) -> (r: Vec<u8>)
    ensures
        r@ == encoded(*m),
{
    let tag: u8 = match *m {
        NetworkMessage::StartTimer => 0,
        NetworkMessage::StopTimer => 1,
        NetworkMessage::ResetTimer => 2,
        NetworkMessage::Ping => 3,
        NetworkMessage::Pong => 4,
        NetworkMessage::Connect => 5,
    };
    let mut out: Vec<u8> = Vec::new();
    out.push(tag);
    out.push(0);
    out.push(0);
    out.push(0);
    out
}

/// Deserializes one inbound datagram; an undecodable datagram yields
/// nothing, never a failure.
pub fn decode_message(bytes: &[u8]) -> (r: Option<NetworkMessage>)
    ensures
        r == decoded(bytes@),
{
    if bytes.len() != 4 {
        return None;
    }
    if bytes[1] != 0 || bytes[2] != 0 || bytes[3] != 0 {
        return None;
    }
    let tag: u8 = bytes[0];
    if tag == 0 {
        Some(NetworkMessage::StartTimer)
    } else if tag == 1 {
        Some(NetworkMessage::StopTimer)
    } else if tag == 2 {
        Some(NetworkMessage::ResetTimer)
    } else if tag == 3 {
        Some(NetworkMessage::Ping)
    } else if tag == 4 {
        Some(NetworkMessage::Pong)
    } else if tag == 5 {
        Some(NetworkMessage::Connect)
    } else {
        None
    }
}

/// Every message survives the wire: decoding its encoding gives the same
/// message back.
pub proof fn lemma_message_round_trip(m: NetworkMessage)
    ensures
        decoded(encoded(m)) == Some(m),
{
}

} // verus!
