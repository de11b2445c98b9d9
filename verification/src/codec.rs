use vstd::prelude::*;
use crate::message::{Message, MessageType};

verus! {

// ---------------------------------------------------------------------------
// The wire format: one frame per message.
//
//   byte 0       the discriminant's code
//   bytes 1..5   the payload length, big endian
//   bytes 5..    the payload
//
// The runtime writes one encoded frame per send and reads one frame per
// receive (five header bytes, then exactly the announced payload). The
// round-trip law below is the invariant the connection layer rests on:
// every message put on the wire is decodable, and decoding recovers
// exactly the discriminant and payload that were sent.
// ---------------------------------------------------------------------------

/// The code a discriminant is sent as.
pub open spec fn type_code(t: MessageType) -> u8 {
    match t {
        MessageType::Data => 0u8,
        MessageType::End => 1u8,
        MessageType::Quit => 2u8,
        MessageType::Shutdown => 3u8,
    }
}

/// The discriminant a code stands for; an unknown code is malformed.
pub open spec fn code_type(b: u8) -> Option<MessageType> {
    if b == 0u8 {
        Some(MessageType::Data)
    } else if b == 1u8 {
        Some(MessageType::End)
    } else if b == 2u8 {
        Some(MessageType::Quit)
    } else if b == 3u8 {
        Some(MessageType::Shutdown)
    } else {
        None
    }
}

/// A payload length as its four wire bytes, big endian.
pub open spec fn len_bytes(n: u32) -> Seq<u8> {
    seq![(n >> 24u32) as u8, (n >> 16u32) as u8, (n >> 8u32) as u8, n as u8]
}

/// Four wire bytes read back as a length.
pub open spec fn bytes_len(b0: u8, b1: u8, b2: u8, b3: u8) -> u32 {
    ((b0 as u32) << 24u32) | ((b1 as u32) << 16u32) | ((b2 as u32) << 8u32) | (b3 as u32)
}

/// The frame a message is sent as.
pub open spec fn encode_spec(m: Message) -> Seq<u8> {
    seq![type_code(m.mt)] + len_bytes(m.content@.len() as u32) + m.content@
}

/// What one whole frame decodes to: the discriminant and the payload bytes,
/// or nothing if the frame is malformed — too short for a header, an
/// unknown discriminant code, or a length field that does not match the
/// payload.
pub open spec fn decode_spec(b: Seq<u8>) -> Option<(MessageType, Seq<u8>)> {
    if b.len() < 5 {
        None
    } else {
        match code_type(b[0]) {
            None => None,
            Some(t) => if bytes_len(b[1], b[2], b[3], b[4]) as int == b.len() - 5 {
                Some((t, b.skip(5)))
            } else {
                None
            },
        }
    }
}

/// Executable form of `type_code`.
pub fn encode_type(t: MessageType) -> (b: u8)
    ensures
        b == type_code(t),
{
    match t {
        MessageType::Data => 0u8,
        MessageType::End => 1u8,
        MessageType::Quit => 2u8,
        MessageType::Shutdown => 3u8,
    }
}

/// Executable form of `code_type`.
pub fn decode_type(b: u8) -> (r: Option<MessageType>)
    ensures
        r == code_type(b),
{
    if b == 0u8 {
        Some(MessageType::Data)
    } else if b == 1u8 {
        Some(MessageType::End)
    } else if b == 2u8 {
        Some(MessageType::Quit)
    } else if b == 3u8 {
        Some(MessageType::Shutdown)
    } else {
        None
    }
}

/// Encode one message as one frame.
pub fn encode_message(m: &Message) -> (b: Vec<u8>)
    requires
        m.content@.len() < 0x1_0000_0000,
    ensures
        b@ == encode_spec(*m),
{
    let n: u32 = m.content.len() as u32;
    let mut b: Vec<u8> = Vec::new();
    b.push(encode_type(m.get_type()));
    b.push((n >> 24u32) as u8);
    b.push((n >> 16u32) as u8);
    b.push((n >> 8u32) as u8);
    b.push(n as u8);
    assert(b@ =~= seq![type_code(m.mt)] + len_bytes(m.content@.len() as u32));
    let mut i: usize = 0;
    while i < m.content.len()
        invariant
            i <= m.content@.len(),
            m.content@.len() < 0x1_0000_0000,
            b@ == seq![type_code(m.mt)] + len_bytes(m.content@.len() as u32) + m.content@.take(
                i as int,
            ),
        decreases m.content@.len() - i,
    {
        b.push(m.content[i]);
        i = i + 1;
        proof {
            assert(m.content@.take(i as int) =~= m.content@.take(i - 1) + seq![
                m.content@[i - 1],
            ]);
        }
    }
    proof {
        assert(m.content@.take(m.content@.len() as int) =~= m.content@);
        assert(b@ =~= encode_spec(*m));
    }
    b
}

/// Decode one whole frame back into a message; a malformed frame is
/// reported, never misread.
pub fn decode_message(b: &Vec<u8>) -> (r: Option<Message>)
    ensures
        match r {
            Some(m) => decode_spec(b@) == Some((m.mt, m.content@)),
            None => decode_spec(b@) is None,
        },
{
    if b.len() < 5 {
        return None;
    }
    let t = match decode_type(b[0]) {
        Some(t) => t,
        None => {
            return None;
        },
    };
    let n: u32 = ((b[1] as u32) << 24u32) | ((b[2] as u32) << 16u32) | ((b[3] as u32) << 8u32) | (
    b[4] as u32);
    if n as usize != b.len() - 5 {
        return None;
    }
    let mut content: Vec<u8> = Vec::new();
    let mut i: usize = 5;
    while i < b.len()
        invariant
            5 <= i <= b@.len(),
            content@ == b@.subrange(5, i as int),
        decreases b@.len() - i,
    {
        content.push(b[i]);
        i = i + 1;
        proof {
            assert(b@.subrange(5, i as int) =~= b@.subrange(5, i - 1) + seq![b@[i - 1]]);
        }
    }
    proof {
        assert(content@ =~= b@.skip(5));
    }
    Some(Message { mt: t, content })
}

/// Every frame the encoder produces decodes, and decodes to exactly the
/// discriminant and payload that were encoded: nothing sent over the wire
/// can lose or change its discriminant.
pub proof fn lemma_codec_round_trip(m: Message)
    requires
        m.content@.len() < 0x1_0000_0000,
    ensures
        decode_spec(encode_spec(m)) == Some((m.mt, m.content@)),
{
    let b = encode_spec(m);
    let n = m.content@.len() as u32;
    assert(b.len() == 5 + m.content@.len());
    assert(b[0] == type_code(m.mt));
    assert(code_type(type_code(m.mt)) == Some(m.mt));
    assert(b[1] == (n >> 24u32) as u8 && b[2] == (n >> 16u32) as u8 && b[3] == (n >> 8u32) as u8
        && b[4] == n as u8);
    lemma_len_bytes_round_trip(n);
    assert(b.skip(5) =~= m.content@);
}

/// The four length bytes read back as the length they were written from.
pub proof fn lemma_len_bytes_round_trip(n: u32)
    ensures
        bytes_len((n >> 24u32) as u8, (n >> 16u32) as u8, (n >> 8u32) as u8, n as u8) == n,
{
    assert((((n >> 24u32) as u8 as u32) << 24u32) | (((n >> 16u32) as u8 as u32) << 16u32) | (((n
        >> 8u32) as u8 as u32) << 8u32) | ((n as u8) as u32) == n) by (bit_vector);
}

} // verus!
