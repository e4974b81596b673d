//! The frame that carries one routed message on a transfer session.
//!
//! Layout: a 4-byte version, a 4-byte reserved field (both zero), one byte
//! that holds the length of the routing key, the key as UTF-8, then the
//! message body up to the end of the frame.  The transport puts its own
//! length prefix around the frame; that prefix is not handled here.

use bytes::BytesMut;
use vstd::prelude::*;
use vstd::utf8::*;

verus! {

/// Bytes in front of the key: version, reserved field, key length.
pub const FRAME_HEADER_LEN: usize = 9;

/// Longest routing key, in bytes, that the one-byte length field can hold.
pub const MAX_KEY_LEN: usize = 255;

#[verifier::external_type_specification]
#[verifier::external_body]
pub struct ExBytesMut(bytes::BytesMut);

/// The bytes that a buffer holds, first to last.
pub uninterp spec fn buffer_bytes(buf: BytesMut) -> Seq<u8>;

/// `BytesMut::with_capacity`: a buffer that holds no bytes.  Capacities
/// that the allocator refuses outright are left out.
pub assume_specification[ BytesMut::with_capacity ](capacity: usize) -> (buf: BytesMut)
    requires
        capacity <= isize::MAX,
    ensures
        buffer_bytes(buf) == Seq::<u8>::empty(),
;

/// `BytesMut::len`: the number of bytes held.
pub assume_specification[ BytesMut::len ](buf: &BytesMut) -> (n: usize)
    ensures
        n == buffer_bytes(*buf).len(),
;

/// `BytesMut::extend_from_slice`: the slice is appended, the buffer growing
/// as needed.
pub assume_specification[ BytesMut::extend_from_slice ](buf: &mut BytesMut, extend: &[u8])
    requires
        buffer_bytes(*old(buf)).len() + extend@.len() <= isize::MAX,
    ensures
        buffer_bytes(*final(buf)) == buffer_bytes(*old(buf)) + extend@,
;

/// `BytesMut::clear`: every byte is removed.
pub assume_specification[ BytesMut::clear ](buf: &mut BytesMut)
    ensures
        buffer_bytes(*final(buf)) == Seq::<u8>::empty(),
;

/// `<[u8]>::to_vec` through the buffer's `Deref`: a copy of the bytes held.
#[verifier::external_body]
pub(crate) fn buffer_to_vec(buf: &BytesMut) -> (bytes: Vec<u8>)
    ensures
        bytes@ == buffer_bytes(*buf),
{
    buf.to_vec()
}

/// `BytesMut::from` a vector: a buffer that holds the vector's bytes.
#[verifier::external_body]
pub(crate) fn buffer_from_vec(src: Vec<u8>) -> (buf: BytesMut)
    ensures
        buffer_bytes(buf) == src@,
{
    BytesMut::from(src)
}

/// `String::from_utf8`: the text that the bytes encode when they are
/// well-formed UTF-8, and nothing when they are not.
#[verifier::external_body]
fn string_from_utf8(bytes: Vec<u8>) -> (text: Option<String>)
    ensures
        valid_utf8(bytes@) ==> text is Some && text->0@ == decode_utf8(bytes@),
        !valid_utf8(bytes@) ==> text is None,
{
    String::from_utf8(bytes).ok()
}

/// The frame for a key, given as its UTF-8 bytes, and a body.
pub open spec fn frame_bytes(key: Seq<u8>, body: Seq<u8>) -> Seq<u8> {
    seq![0u8, 0u8, 0u8, 0u8, 0u8, 0u8, 0u8, 0u8] + seq![key.len() as u8] + key + body
}

/// The frame for a routed message, if its key fits the length field.
pub open spec fn encoded(key: Seq<char>, body: Seq<u8>) -> Option<Seq<u8>> {
    if encode_utf8(key).len() <= MAX_KEY_LEN {
        Some(frame_bytes(encode_utf8(key), body))
    } else {
        None
    }
}

/// Splits a frame into the bytes of its key and its body.  A frame shorter
/// than its header, or shorter than the key it announces, has no parts.
pub open spec fn frame_parts(frame: Seq<u8>) -> Option<(Seq<u8>, Seq<u8>)> {
    if frame.len() < FRAME_HEADER_LEN {
        None
    } else {
        let key_end = FRAME_HEADER_LEN + frame[8] as int;
        if frame.len() < key_end {
            None
        } else {
            Some(
                (
                    frame.subrange(FRAME_HEADER_LEN as int, key_end),
                    frame.subrange(key_end, frame.len() as int),
                ),
            )
        }
    }
}

/// The routed message that a frame carries, if it carries one: its parts
/// must be there and the key must be well-formed UTF-8.
pub open spec fn decoded(frame: Seq<u8>) -> Option<(Seq<char>, Seq<u8>)> {
    match frame_parts(frame) {
        Some((key, body)) => if valid_utf8(key) {
            Some((decode_utf8(key), body))
        } else {
            None
        },
        None => None,
    }
}

/// Decoding the frame of a key and a body gives back that key and that body.
pub proof fn lemma_frame_round_trip(key: Seq<char>, body: Seq<u8>)
    requires
        encode_utf8(key).len() <= MAX_KEY_LEN,
    ensures
        encoded(key, body) is Some,
        decoded(encoded(key, body)->0) == Some((key, body)),
{
    let k = encode_utf8(key);
    let frame = frame_bytes(k, body);
    assert(frame.len() == FRAME_HEADER_LEN + k.len() + body.len());
    assert(frame[8] == k.len() as u8);
    let key_end = FRAME_HEADER_LEN + k.len();
    assert(frame.subrange(FRAME_HEADER_LEN as int, key_end as int) =~= k);
    assert(frame.subrange(key_end as int, frame.len() as int) =~= body);
    encode_utf8_valid_utf8(key);
    encode_utf8_decode_utf8(key);
}

/// Appends the frame of `msg` to `buf`.  Nothing is written when there is no
/// message or when its key is longer than the length field can say.
pub fn pubsub_message_to_network_message(buf: &mut BytesMut, msg: Option<(String, Vec<u8>)>)
    requires
        match msg {
            Some((key, body)) => match encoded(key@, body@) {
                Some(frame) => buffer_bytes(*old(buf)).len() + frame.len() <= isize::MAX,
                None => true,
            },
            None => true,
        },
    ensures
        buffer_bytes(*final(buf)) == match msg {
            Some((key, body)) => match encoded(key@, body@) {
                Some(frame) => buffer_bytes(*old(buf)) + frame,
                None => buffer_bytes(*old(buf)),
            },
            None => buffer_bytes(*old(buf)),
        },
{
    if let Some((key, body)) = msg {
        let key_bytes = key.as_str().as_bytes();
        let key_len = key_bytes.len();
        if key_len <= MAX_KEY_LEN {
            let mut header: Vec<u8> = Vec::with_capacity(FRAME_HEADER_LEN);
            let mut i: usize = 0;
            while i < 8
                invariant
                    i <= 8,
                    header@ == Seq::new(i as nat, |j: int| 0u8),
                decreases 8 - i,
            {
                header.push(0u8);
                i = i + 1;
                assert(header@ =~= Seq::new(i as nat, |j: int| 0u8));
            }
            header.push(key_len as u8);
            assert(header@ =~= seq![0u8, 0u8, 0u8, 0u8, 0u8, 0u8, 0u8, 0u8] + seq![key_len as u8]);
            let ghost before = buffer_bytes(*buf);
            assert(frame_bytes(encode_utf8(key@), body@).len() == header@.len() + encode_utf8(
                key@,
            ).len() + body@.len());
            buf.extend_from_slice(header.as_slice());
            buf.extend_from_slice(key_bytes);
            buf.extend_from_slice(body.as_slice());
            assert(buffer_bytes(*buf) =~= before + frame_bytes(encode_utf8(key@), body@));
        }
    }
}

/// Takes the routed message out of the frame in `buf`.  On success the
/// buffer is left empty; a frame that does not decode is left in place.
pub fn network_message_to_pubsub_message(buf: &mut BytesMut) -> (msg: Option<(String, Vec<u8>)>)
    ensures
        msg is Some <==> decoded(buffer_bytes(*old(buf))) is Some,
        msg matches Some((key, body)) ==> decoded(buffer_bytes(*old(buf))) == Some((key@, body@)),
        buffer_bytes(*final(buf)) == if msg is Some {
            Seq::<u8>::empty()
        } else {
            buffer_bytes(*old(buf))
        },
{
    let len = buf.len();
    if len < FRAME_HEADER_LEN {
        return None;
    }
    let frame = buffer_to_vec(buf);
    let key_len = frame[8] as usize;
    let key_end = FRAME_HEADER_LEN + key_len;
    if len < key_end {
        return None;
    }
    let mut key_bytes: Vec<u8> = Vec::with_capacity(key_len);
    let mut i: usize = FRAME_HEADER_LEN;
    while i < key_end
        invariant
            FRAME_HEADER_LEN <= i <= key_end <= frame@.len(),
            key_bytes@ == frame@.subrange(FRAME_HEADER_LEN as int, i as int),
        decreases key_end - i,
    {
        key_bytes.push(frame[i]);
        i = i + 1;
        assert(key_bytes@ =~= frame@.subrange(FRAME_HEADER_LEN as int, i as int));
    }
    let mut body: Vec<u8> = Vec::with_capacity(len - key_end);
    while i < len
        invariant
            key_end <= i <= len == frame@.len(),
            body@ == frame@.subrange(key_end as int, i as int),
        decreases len - i,
    {
        body.push(frame[i]);
        i = i + 1;
        assert(body@ =~= frame@.subrange(key_end as int, i as int));
    }
    match string_from_utf8(key_bytes) {
        Some(key) => {
            buf.clear();
            Some((key, body))
        },
        None => None,
    }
}

} // verus!
