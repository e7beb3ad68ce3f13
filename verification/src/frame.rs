use vstd::prelude::*;

use tokio_util::codec::Decoder;
use tokio_util::codec::Encoder;

verus! {

/// The largest payload a frame may carry: the default limit of the
/// length-delimited codec, 8 MiB.
pub const MAX_FRAME_LENGTH: usize = 8388608;

/// The number of bytes of the big-endian length field in front of a payload.
pub const HEADER_LENGTH: usize = 4;

/// The length field for a payload of `n` bytes: `n` as four big-endian bytes.
pub open spec fn length_field(n: nat) -> Seq<u8> {
    seq![
        (n / 0x1000000 % 0x100) as u8,
        (n / 0x10000 % 0x100) as u8,
        (n / 0x100 % 0x100) as u8,
        (n % 0x100) as u8,
    ]
}

/// A payload as it travels on the stream: its length field, then its bytes.
pub open spec fn framed(payload: Seq<u8>) -> Seq<u8> {
    length_field(payload.len()) + payload
}

/// The length that the first four bytes of `b` announce.
pub open spec fn announced_len(b: Seq<u8>) -> int {
    b[0] * 0x1000000 + b[1] * 0x10000 + b[2] * 0x100 + b[3]
}

/// `b` starts with a length field announcing more than a frame may carry.
pub open spec fn announces_too_long(b: Seq<u8>) -> bool {
    b.len() >= HEADER_LENGTH && announced_len(b) > MAX_FRAME_LENGTH
}

/// `b` starts with a whole frame.
pub open spec fn holds_frame(b: Seq<u8>) -> bool {
    &&& b.len() >= HEADER_LENGTH
    &&& announced_len(b) <= MAX_FRAME_LENGTH
    &&& b.len() >= HEADER_LENGTH + announced_len(b)
}

/// The payload of the frame that `b` starts with.
pub open spec fn first_payload(b: Seq<u8>) -> Seq<u8> {
    b.subrange(HEADER_LENGTH as int, HEADER_LENGTH + announced_len(b))
}

/// What follows the frame that `b` starts with.
pub open spec fn after_first_frame(b: Seq<u8>) -> Seq<u8> {
    b.subrange(HEADER_LENGTH + announced_len(b), b.len() as int)
}

/// The bytes `b` may be left when the stream ends: none, or a length field
/// whose payload never came (the codec has already taken such a field in).
pub open spec fn ends_between_frames(b: Seq<u8>) -> bool {
    b.len() == 0 || (b.len() == HEADER_LENGTH && announced_len(b) <= MAX_FRAME_LENGTH)
}

#[verifier::external_type_specification]
#[verifier::external_body]
pub struct ExIoError(std::io::Error);

/// Calls `Encoder::<&[u8]>::encode` of a new `tokio_util::codec::LengthDelimitedCodec`
/// (default settings) on an empty buffer, and returns what it wrote. Claimed of it,
/// as its source shows: it fails exactly when the payload is longer than 8 MiB, and
/// otherwise writes the length as four big-endian bytes followed by the payload.
#[verifier::external_body]
fn codec_encode(data: &[u8]) -> (r: Result<Vec<u8>, std::io::Error>)
    ensures
        r is Ok <==> data@.len() <= MAX_FRAME_LENGTH,
        r matches Ok(bytes) ==> bytes@ == framed(data@),
{
    let mut dst = bytes::BytesMut::new();
    let mut codec = tokio_util::codec::LengthDelimitedCodec::new();
    match codec.encode(data, &mut dst) {
        Ok(()) => Ok(dst.to_vec()),
        Err(e) => Err(e),
    }
}

/// Calls `Decoder::decode` of a new `tokio_util::codec::LengthDelimitedCodec`
/// (default settings) on a copy of `buf`, and returns the frame it yields. Claimed
/// of it, as its source shows: with fewer than four bytes it yields nothing; when
/// the big-endian length in the first four bytes is over 8 MiB it fails; when fewer
/// bytes than that length follow the field it yields nothing; otherwise it yields
/// the bytes that follow the field, as many as the field announces.
#[verifier::external_body]
fn codec_decode(buf: &[u8]) -> (r: Result<Option<Vec<u8>>, std::io::Error>)
    ensures
        r is Err <==> announces_too_long(buf@),
        r matches Ok(Some(frame)) <==> holds_frame(buf@),
        r matches Ok(Some(frame)) ==> frame@ == first_payload(buf@),
{
    let mut src = bytes::BytesMut::from(buf);
    let mut codec = tokio_util::codec::LengthDelimitedCodec::new();
    match codec.decode(&mut src) {
        Ok(frame) => Ok(frame.map(|f| f.to_vec())),
        Err(e) => Err(e),
    }
}

/// Why a frame could not be written or read.
#[derive(Debug, PartialEq, Eq, Structural)]
pub enum FrameError {
    /// The payload, or the length a frame announces, is over `MAX_FRAME_LENGTH`.
    TooLong,
    /// The stream ended with bytes the codec had not taken in.
    BytesRemaining,
}

/// Calls `Decoder::decode_eof` of a new `tokio_util::codec::LengthDelimitedCodec`
/// (default settings) on a copy of `buf`, as a framed reader does when its stream
/// ends, and returns the frame it yields; an error whose kind is `InvalidData`
/// (a length over the limit) becomes `TooLong`, any other ("bytes remaining on
/// stream") `BytesRemaining`. Claimed of it, as its source shows: it decodes as
/// `decode` does; when that yields nothing, it yields nothing if the codec has
/// taken in every byte (no bytes, or only a length field within the limit whose
/// payload has not come), and fails otherwise.
#[verifier::external_body]
fn codec_decode_eof(buf: &[u8]) -> (r: Result<Option<Vec<u8>>, FrameError>)
    ensures
        r matches Ok(Some(frame)) <==> holds_frame(buf@),
        r matches Ok(Some(frame)) ==> frame@ == first_payload(buf@),
        (r matches Ok(found) && found is None) == (ends_between_frames(buf@) && !holds_frame(buf@)),
        r matches Err(e) ==> (announces_too_long(buf@) ==> e == FrameError::TooLong),
        r matches Err(e) ==> (!announces_too_long(buf@) ==> e == FrameError::BytesRemaining),
{
    let mut src = bytes::BytesMut::from(buf);
    let mut codec = tokio_util::codec::LengthDelimitedCodec::new();
    match codec.decode_eof(&mut src) {
        Ok(frame) => Ok(frame.map(|f| f.to_vec())),
        Err(e) if e.kind() == std::io::ErrorKind::InvalidData => Err(FrameError::TooLong),
        Err(_) => Err(FrameError::BytesRemaining),
    }
}

/// The bytes that carry `payload` on the stream: its length as four
/// big-endian bytes, then the payload.
pub fn encode_frame(payload: &[u8]) -> (r: Result<Vec<u8>, FrameError>)
    ensures
        r is Ok <==> payload@.len() <= MAX_FRAME_LENGTH,
        r matches Ok(bytes) ==> bytes@ == framed(payload@),
        r matches Err(e) ==> e == FrameError::TooLong,
{
    match codec_encode(payload) {
        Ok(bytes) => Ok(bytes),
        Err(_) => Err(FrameError::TooLong),
    }
}

/// The bytes received from a stream of frames and not yet taken as frames.
pub struct FrameReader {
    buffer: Vec<u8>,
}

impl View for FrameReader {
    type V = Seq<u8>;

    closed spec fn view(&self) -> Seq<u8> {
        self.buffer@
    }
}

impl FrameReader {
    /// A reader that has received nothing.
    pub fn new() -> (r: Self)
        ensures
            r@ == Seq::<u8>::empty(),
    {
        FrameReader { buffer: Vec::new() }
    }

    /// Adds bytes received from the stream.
    pub fn push_bytes(&mut self, bytes: &[u8])
        ensures
            final(self)@ == old(self)@ + bytes@,
    {
        let mut i: usize = 0;
        while i < bytes.len()
            invariant
                0 <= i <= bytes@.len(),
                self.buffer@ == old(self)@ + bytes@.subrange(0, i as int),
            decreases bytes@.len() - i,
        {
            self.buffer.push(bytes[i]);
            i = i + 1;
            assert(bytes@.subrange(0, i as int) == bytes@.subrange(0, i - 1).push(bytes@[i - 1]));
        }
        assert(bytes@.subrange(0, bytes@.len() as int) == bytes@);
    }

    /// Takes the next whole frame, if the bytes received hold one. Fails,
    /// keeping the bytes, when they announce a frame that is too long.
    pub fn next_frame(&mut self) -> (r: Result<Option<Vec<u8>>, FrameError>)
        ensures
            r is Err <==> announces_too_long(old(self)@),
            r matches Err(e) ==> e == FrameError::TooLong,
            r matches Ok(Some(frame)) <==> holds_frame(old(self)@),
            r matches Ok(Some(frame)) ==> {
                &&& frame@ == first_payload(old(self)@)
                &&& final(self)@ == after_first_frame(old(self)@)
            },
            !(r matches Ok(Some(frame))) ==> final(self)@ == old(self)@,
    {
        match codec_decode(self.buffer.as_slice()) {
            Err(_) => Err(FrameError::TooLong),
            Ok(None) => Ok(None),
            Ok(Some(frame)) => {
                let consumed = HEADER_LENGTH + frame.len();
                let rest = self.buffer.split_off(consumed);
                self.buffer = rest;
                Ok(Some(frame))
            },
        }
    }

    /// Takes what is left when the stream ends: a last whole frame, if the
    /// bytes hold one; nothing, if they end between frames; otherwise an error.
    pub fn end_of_stream(&mut self) -> (r: Result<Option<Vec<u8>>, FrameError>)
        ensures
            r matches Ok(Some(frame)) <==> holds_frame(old(self)@),
            r matches Ok(Some(frame)) ==> {
                &&& frame@ == first_payload(old(self)@)
                &&& final(self)@ == after_first_frame(old(self)@)
            },
            (r matches Ok(found) && found is None) == (ends_between_frames(old(self)@) && !holds_frame(old(self)@)),
            r matches Err(e) ==> (announces_too_long(old(self)@) ==> e == FrameError::TooLong),
            r matches Err(e) ==> (!announces_too_long(old(self)@) ==> e == FrameError::BytesRemaining),
            !(r matches Ok(Some(frame))) ==> final(self)@ == old(self)@,
    {
        let r = codec_decode_eof(self.buffer.as_slice());
        if let Ok(Some(frame)) = &r {
            let consumed = HEADER_LENGTH + frame.len();
            let rest = self.buffer.split_off(consumed);
            self.buffer = rest;
        }
        r
    }
}

/// The length field holds the length in four bytes, most significant first.
pub proof fn lemma_length_field_big_endian(n: nat)
    requires
        n < 0x1_0000_0000,
    ensures
        length_field(n).len() == HEADER_LENGTH,
        HEADER_LENGTH == 4,
        length_field(n)[0] == n / 0x1000000,
        length_field(n)[1] == n / 0x10000 % 0x100,
        length_field(n)[2] == n / 0x100 % 0x100,
        length_field(n)[3] == n % 0x100,
        announced_len(length_field(n)) == n,
{
    let x = n as u32;
    assert(x / 0x1000000 % 0x100 * 0x1000000 + x / 0x10000 % 0x100 * 0x10000 + x / 0x100 % 0x100
        * 0x100 + x % 0x100 == x) by (bit_vector);
    assert(x / 0x1000000 < 0x100) by (bit_vector);
}

/// A stream holding a framed payload, then anything, yields that payload
/// first and leaves what followed it.
pub proof fn lemma_frame_then_rest(payload: Seq<u8>, rest: Seq<u8>)
    requires
        payload.len() <= MAX_FRAME_LENGTH,
    ensures
        holds_frame(framed(payload) + rest),
        first_payload(framed(payload) + rest) == payload,
        after_first_frame(framed(payload) + rest) == rest,
{
    let n = payload.len();
    let x = n as u32;
    assert(x / 0x1000000 % 0x100 * 0x1000000 + x / 0x10000 % 0x100 * 0x10000 + x / 0x100 % 0x100
        * 0x100 + x % 0x100 == x) by (bit_vector);
    let b = framed(payload) + rest;
    assert(announced_len(b) == n);
    assert(first_payload(b) =~= payload);
    assert(after_first_frame(b) =~= rest);
}

} // verus!
