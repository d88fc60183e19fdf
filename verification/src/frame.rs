use vstd::prelude::*;
use crate::wire::{
    le_bytes_u32, le_value_u32, lemma_le_u32_roundtrip, lemma_two_words_read_back, two_words_le,
};

verus! {

/// The word that opens every frame on the serial link.
pub const UART_FRAME_START: u32 = 0x7777_7777u32;

/// Number of bytes the encoded header takes on the wire.
pub const UART_HEADER_LEN: usize = 8usize;

/// The header sent before each serialized orientation message: a start marker
/// and the number of payload bytes that follow.
#[derive(Debug)]
pub struct UartHeader {
    pub frame_start: u32,
    pub payload_len: u32,
}

/// The header after `prepare` for a payload: the same marker, the payload's
/// length taken modulo 2^32.
pub open spec fn after_prepare(header: UartHeader, payload: Seq<u8>) -> UartHeader {
    UartHeader { frame_start: header.frame_start, payload_len: payload.len() as u32 }
}

/// A whole frame as it goes out: the header's wire bytes, then the payload.
pub open spec fn frame_bytes(header: UartHeader, payload: Seq<u8>) -> Seq<u8> {
    header.wire() + payload
}

impl UartHeader {
    /// The bytes of the header on the wire: the start marker, then the payload
    /// length, each as four bytes least significant first.
    pub open spec fn wire(self) -> Seq<u8> {
        le_bytes_u32(self.frame_start) + le_bytes_u32(self.payload_len)
    }

    /// A header with the standard start marker and no payload announced yet.
    pub fn new() -> (header: UartHeader)
        ensures
            header.frame_start == UART_FRAME_START,
            header.payload_len == 0,
    {
        UartHeader { frame_start: UART_FRAME_START, payload_len: 0 }
    }

    /// Records the length of the payload about to be sent. The length is taken
    /// modulo 2^32, as a `u32` field holds it.
    pub fn set_payload_len(&mut self, len: usize)
        ensures
            final(self).payload_len == len as u32,
            final(self).frame_start == old(self).frame_start,
    {
        self.payload_len = len as u32;
    }

    /// The header's bytes as they go on the wire.
    pub fn as_bytes(&self) -> (bytes: [u8; 8])
        ensures
            bytes@ == self.wire(),
            bytes@.len() == UART_HEADER_LEN,
            le_value_u32(bytes@.subrange(0, 4)) == self.frame_start,
            le_value_u32(bytes@.subrange(4, 8)) == self.payload_len,
    {
        proof {
            lemma_two_words_read_back(self.frame_start, self.payload_len);
        }
        two_words_le(self.frame_start, self.payload_len)
    }

    /// Prepares the header for one serialized message: records the payload's
    /// length and returns the header bytes to send in front of it, so that
    /// these bytes followed by the payload make up the message's frame.
    pub fn prepare(&mut self, payload: &[u8]) -> (head: [u8; 8])
        ensures
            final(self).frame_start == old(self).frame_start,
            final(self).payload_len == payload@.len() as u32,
            *final(self) == after_prepare(*old(self), payload@),
            head@ == final(self).wire(),
            head@ + payload@ == frame_bytes(*final(self), payload@),
            le_value_u32(head@.subrange(0, 4)) == old(self).frame_start,
            le_value_u32(head@.subrange(4, 8)) == payload@.len() as u32,
    {
        self.set_payload_len(payload.len());
        self.as_bytes()
    }
}

/// A frame can be read back: its first word is the header's start marker, its
/// second word is the payload's length, and the bytes after the header are the
/// payload, whenever the payload's length fits in the length field.
pub proof fn lemma_frame_reads_back(header: UartHeader, payload: Seq<u8>)
    requires
        payload.len() <= u32::MAX,
        header.payload_len == payload.len(),
    ensures
        frame_bytes(header, payload).len() == UART_HEADER_LEN + payload.len(),
        le_value_u32(frame_bytes(header, payload).subrange(0, 4)) == header.frame_start,
        le_value_u32(frame_bytes(header, payload).subrange(4, 8)) == payload.len(),
        frame_bytes(header, payload).subrange(
            UART_HEADER_LEN as int,
            frame_bytes(header, payload).len() as int,
        ) == payload,
{
    lemma_le_u32_roundtrip(header.frame_start);
    lemma_le_u32_roundtrip(header.payload_len);
    let f = frame_bytes(header, payload);
    assert(f.subrange(0, 4) == le_bytes_u32(header.frame_start));
    assert(f.subrange(4, 8) == le_bytes_u32(header.payload_len));
    assert(f.subrange(8, f.len() as int) == payload);
}

/// Every frame starts with the four marker bytes `0x77`, whatever its payload,
/// as long as the header carries the standard start marker.
pub proof fn lemma_frame_starts_with_marker(header: UartHeader, payload: Seq<u8>)
    requires
        header.frame_start == UART_FRAME_START,
    ensures
        frame_bytes(header, payload).subrange(0, 4) == seq![0x77u8, 0x77u8, 0x77u8, 0x77u8],
{
    let x: u32 = UART_FRAME_START;
    assert((x & 0xff) as u8 == 0x77u8 && ((x >> 8u32) & 0xff) as u8 == 0x77u8 && ((x >> 16u32)
        & 0xff) as u8 == 0x77u8 && ((x >> 24u32) & 0xff) as u8 == 0x77u8) by (bit_vector)
        requires
            x == 0x7777_7777u32,
    ;
    let f = frame_bytes(header, payload);
    assert(f.subrange(0, 4) == le_bytes_u32(header.frame_start));
}

/// Two frames with the same start marker are equal only if their payloads are,
/// when the headers record the payloads' lengths and those lengths fit: the
/// framing loses nothing.
pub proof fn lemma_frame_injective(h1: UartHeader, p1: Seq<u8>, h2: UartHeader, p2: Seq<u8>)
    requires
        p1.len() <= u32::MAX,
        p2.len() <= u32::MAX,
        h1.payload_len == p1.len(),
        h2.payload_len == p2.len(),
        frame_bytes(h1, p1) == frame_bytes(h2, p2),
    ensures
        p1 == p2,
        h1 == h2,
{
    lemma_frame_reads_back(h1, p1);
    lemma_frame_reads_back(h2, p2);
}

/// The bytes sent for a sequence of payloads by a header that is prepared for
/// each payload in turn, each header followed by its payload.
pub open spec fn sent_stream(header: UartHeader, payloads: Seq<Seq<u8>>) -> Seq<u8>
    decreases payloads.len(),
{
    if payloads.len() == 0 {
        Seq::empty()
    } else {
        let h = after_prepare(header, payloads[0]);
        frame_bytes(h, payloads[0]) + sent_stream(h, payloads.drop_first())
    }
}

/// The frame of one payload under the standard start marker.
pub open spec fn standard_frame(payload: Seq<u8>) -> Seq<u8> {
    le_bytes_u32(UART_FRAME_START) + le_bytes_u32(payload.len() as u32) + payload
}

/// The standard frames of a sequence of payloads, one after another.
pub open spec fn standard_stream(payloads: Seq<Seq<u8>>) -> Seq<u8>
    decreases payloads.len(),
{
    if payloads.len() == 0 {
        Seq::empty()
    } else {
        standard_frame(payloads[0]) + standard_stream(payloads.drop_first())
    }
}

/// A header that starts with the standard marker and is prepared for every
/// message in turn sends, for each message in order, the marker, the message's
/// length and the message, with nothing dropped, reordered or repeated.
pub proof fn lemma_stream_of_frames(header: UartHeader, payloads: Seq<Seq<u8>>)
    requires
        header.frame_start == UART_FRAME_START,
    ensures
        sent_stream(header, payloads) == standard_stream(payloads),
    decreases payloads.len(),
{
    if payloads.len() > 0 {
        let h = after_prepare(header, payloads[0]);
        lemma_stream_of_frames(h, payloads.drop_first());
        assert(frame_bytes(h, payloads[0]) == standard_frame(payloads[0]));
    }
}

} // verus!
