//! The frame decoder: from the frames of the socket to JSON documents.
//!
//! A text frame is a document as it stands. Binary frames carry a deflate
//! stream in pieces; the piece that ends a message ends with the four bytes
//! `00 00 FF FF`. The decoder collects the pieces and inflates the message
//! once its last piece is in.
use miniz_oxide::inflate::DecompressError;
use std::string::FromUtf8Error;
use vstd::prelude::*;
use vstd::utf8::{decode_utf8, encode_utf8, valid_utf8};

verus! {

/// Why a frame, or the envelope in it, could not be decoded.
#[derive(Clone, Copy, Debug, PartialEq, Eq, Structural)]
pub enum DecodeError {
    /// The bytes of a binary message are no deflate stream.
    Decompression,
    /// The inflated bytes are no UTF-8 text.
    InvalidUtf8,
    /// The number in `op` stands for no opcode.
    UnknownOpcode,
    /// The opcode is one that only a client sends.
    UnexpectedOpcode,
    /// A dispatch frame without an event name, or with one that is not known.
    UnknownEvent,
    /// A dispatch frame without a sequence number.
    MissingSequence,
    /// A frame that is no dispatch frame and has a sequence number or an
    /// event name.
    UnexpectedDispatchField,
    /// The payload is not the one that opcode and event name ask for.
    PayloadMismatch,
    /// The document is no envelope: it is no JSON, or a field of it is
    /// missing or of another type. The decoder never reports this itself; it
    /// is for whoever reads the document.
    Malformed,
}

/// One frame as it comes from the socket.
#[derive(Clone, Debug, PartialEq, Eq)]
pub enum Frame {
    /// A text frame.
    Text(String),
    /// A binary frame.
    Binary(Vec<u8>),
}

/// The mathematical value of a [`Frame`].
pub enum FrameView {
    Text(Seq<char>),
    Binary(Seq<u8>),
}

impl View for Frame {
    type V = FrameView;

    open spec fn view(&self) -> FrameView {
        match self {
            Frame::Text(text) => FrameView::Text(text@),
            Frame::Binary(bytes) => FrameView::Binary(bytes@),
        }
    }
}

/// What `miniz_oxide::inflate::decompress_to_vec` makes of `input`: the
/// inflated bytes, or nothing where it reports an error.
pub uninterp spec fn spec_inflate(input: Seq<u8>) -> Option<Seq<u8>>;

#[verifier::external_type_specification]
#[verifier::external_body]
pub struct ExDecompressError(DecompressError);

#[verifier::external_type_specification]
#[verifier::external_body]
pub struct ExFromUtf8Error(FromUtf8Error);

/// Calls `miniz_oxide::inflate::decompress_to_vec`, which inflates a raw
/// deflate stream into a vector. Nothing is claimed of what the bytes are,
/// only that they are the ones that [`spec_inflate`] names, and that an error
/// comes back exactly where it names none.
#[verifier::external_body]
fn inflate(input: &[u8]) -> (res: Result<Vec<u8>, DecompressError>)
    ensures
        res matches Ok(bytes) ==> spec_inflate(input@) == Some(bytes@),
        res is Err ==> spec_inflate(input@) is None,
{
    miniz_oxide::inflate::decompress_to_vec(input)
}

/// Calls `String::from_utf8`, which turns a vector of bytes into a string and
/// fails if and only if the bytes are not valid UTF-8. The string holds the
/// characters that the bytes encode.
#[verifier::external_body]
fn string_from_utf8(bytes: Vec<u8>) -> (res: Result<String, FromUtf8Error>)
    ensures
        res is Ok <==> valid_utf8(bytes@),
        res matches Ok(text) ==> text@ == decode_utf8(bytes@),
{
    String::from_utf8(bytes)
}

/// Whether a binary frame ends a message: its last four bytes are
/// `00 00 FF FF`.
pub open spec fn spec_has_trailer(frame: Seq<u8>) -> bool {
    &&& frame.len() >= 4
    &&& frame[frame.len() - 4] == 0x00
    &&& frame[frame.len() - 3] == 0x00
    &&& frame[frame.len() - 2] == 0xff
    &&& frame[frame.len() - 1] == 0xff
}

/// The document in inflated bytes: their text, if they are valid UTF-8.
pub open spec fn spec_document_of_bytes(bytes: Seq<u8>) -> Result<Seq<char>, DecodeError> {
    if valid_utf8(bytes) {
        Ok(decode_utf8(bytes))
    } else {
        Err(DecodeError::InvalidUtf8)
    }
}

/// The document in what the inflater made of a message.
pub open spec fn spec_document(inflated: Option<Seq<u8>>) -> Result<Seq<char>, DecodeError> {
    match inflated {
        Some(bytes) => spec_document_of_bytes(bytes),
        None => Err(DecodeError::Decompression),
    }
}

/// The document in the bytes of a whole binary message.
pub open spec fn spec_message(data: Seq<u8>) -> Result<Seq<char>, DecodeError> {
    spec_document(spec_inflate(data))
}

/// What the decoder yields for a frame when `buffer` holds the pieces
/// collected so far: no document yet, a document, or an error.
pub open spec fn spec_outcome(buffer: Seq<u8>, frame: FrameView) -> Result<
    Option<Seq<char>>,
    DecodeError,
> {
    match frame {
        FrameView::Text(text) => Ok(Some(text)),
        FrameView::Binary(bytes) => {
            if spec_has_trailer(bytes) {
                match spec_message(buffer + bytes) {
                    Ok(text) => Ok(Some(text)),
                    Err(e) => Err(e),
                }
            } else {
                Ok(None)
            }
        },
    }
}

/// The pieces that the decoder holds after a frame when it held `buffer`
/// before.
pub open spec fn spec_buffer_after(buffer: Seq<u8>, frame: FrameView) -> Seq<u8> {
    match frame {
        FrameView::Text(_) => buffer,
        FrameView::Binary(bytes) => {
            if spec_has_trailer(bytes) {
                Seq::empty()
            } else {
                buffer + bytes
            }
        },
    }
}

/// The pieces that the decoder holds after the binary frames `chunks`, in
/// this order, when it held `buffer` before.
pub open spec fn spec_buffer_after_all(buffer: Seq<u8>, chunks: Seq<Seq<u8>>) -> Seq<u8>
    decreases chunks.len(),
{
    if chunks.len() == 0 {
        buffer
    } else {
        spec_buffer_after(
            spec_buffer_after_all(buffer, chunks.drop_last()),
            FrameView::Binary(chunks.last()),
        )
    }
}

/// The bytes of `chunks`, one after the other.
pub open spec fn spec_joined(chunks: Seq<Seq<u8>>) -> Seq<u8>
    decreases chunks.len(),
{
    if chunks.len() == 0 {
        Seq::empty()
    } else {
        spec_joined(chunks.drop_last()) + chunks.last()
    }
}

/// The view of what the decoder returns.
pub open spec fn outcome_view(res: Result<Option<String>, DecodeError>) -> Result<
    Option<Seq<char>>,
    DecodeError,
> {
    match res {
        Ok(Some(text)) => Ok(Some(text@)),
        Ok(None) => Ok(None),
        Err(e) => Err(e),
    }
}

/// Whether a binary frame ends a message: its last four bytes are
/// `00 00 FF FF`. A frame of fewer than four bytes ends none.
pub fn has_trailer(frame: &[u8]) -> (b: bool)
    ensures
        b == spec_has_trailer(frame@),
{
    let n = frame.len();
    n >= 4 && frame[n - 4] == 0x00 && frame[n - 3] == 0x00 && frame[n - 2] == 0xff && frame[n - 1]
        == 0xff
}

/// The document in what the inflater made of a message: the text of the
/// inflated bytes. An error of the inflater is a decompression error; bytes
/// that are no UTF-8 are an error of their own.
pub fn document_of(inflated: Result<Vec<u8>, DecompressError>) -> (res: Result<String, DecodeError>)
    ensures
        match inflated {
            Ok(bytes) => match res {
                Ok(text) => spec_document_of_bytes(bytes@) == Ok::<Seq<char>, DecodeError>(text@),
                Err(e) => spec_document_of_bytes(bytes@) == Err::<Seq<char>, DecodeError>(e),
            },
            Err(_) => res == Err::<String, DecodeError>(DecodeError::Decompression),
        },
{
    match inflated {
        Ok(bytes) => match string_from_utf8(bytes) {
            Ok(text) => Ok(text),
            Err(_) => Err(DecodeError::InvalidUtf8),
        },
        Err(_) => Err(DecodeError::Decompression),
    }
}

/// The document in the bytes of a whole binary message: the message is
/// inflated and read as UTF-8.
pub fn decode_message(data: &[u8]) -> (res: Result<String, DecodeError>)
    ensures
        match res {
            Ok(text) => spec_message(data@) == Ok::<Seq<char>, DecodeError>(text@),
            Err(e) => spec_message(data@) == Err::<Seq<char>, DecodeError>(e),
        },
{
    document_of(inflate(data))
}

/// The frame decoder. It holds the pieces of a binary message whose last
/// piece has not come yet.
pub struct FrameDecoder {
    buffer: Vec<u8>,
}

impl View for FrameDecoder {
    type V = Seq<u8>;

    closed spec fn view(&self) -> Seq<u8> {
        self.buffer@
    }
}

impl FrameDecoder {
    /// A decoder that holds no pieces.
    pub fn new() -> (decoder: FrameDecoder)
        ensures
            decoder@ == Seq::<u8>::empty(),
    {
        FrameDecoder { buffer: Vec::new() }
    }

    /// The number of bytes that wait for the last piece of their message.
    pub fn pending(&self) -> (n: usize)
        ensures
            n == self@.len(),
    {
        self.buffer.len()
    }

    /// Drops the pieces collected so far, as is due when the connection they
    /// came over is gone.
    pub fn reset(&mut self)
        ensures
            final(self)@ == Seq::<u8>::empty(),
    {
        self.buffer = Vec::new();
    }

    /// Takes one frame from the socket and gives back the document that it
    /// completes, if it completes one.
    ///
    /// A text frame is a document as it stands, and leaves the pieces
    /// collected so far alone. A binary frame without the trailer is kept as
    /// one more piece and yields nothing. A binary frame with the trailer
    /// ends a message: the pieces and the frame are inflated together and
    /// read as UTF-8, and no pieces are left, whether that went well or not.
    pub fn decode(&mut self, frame: Frame) -> (res: Result<Option<String>, DecodeError>)
        ensures
            outcome_view(res) == spec_outcome(old(self)@, frame@),
            final(self)@ == spec_buffer_after(old(self)@, frame@),
    {
        match frame {
            Frame::Text(text) => Ok(Some(text)),
            Frame::Binary(bytes) => {
                let ghost before = self.buffer@;
                self.buffer.extend_from_slice(bytes.as_slice());
                assert(self.buffer@ =~= before + bytes@);
                if has_trailer(bytes.as_slice()) {
                    let mut data: Vec<u8> = Vec::new();
                    std::mem::swap(&mut self.buffer, &mut data);
                    match decode_message(data.as_slice()) {
                        Ok(text) => Ok(Some(text)),
                        Err(e) => Err(e),
                    }
                } else {
                    Ok(None)
                }
            },
        }
    }
}

/// Pieces without the trailer pile up: after such frames the decoder holds
/// what it held before and then the bytes of the frames, in their order.
pub proof fn lemma_pieces_accumulate(buffer: Seq<u8>, chunks: Seq<Seq<u8>>)
    requires
        forall|i: int| 0 <= i < chunks.len() ==> !spec_has_trailer(#[trigger] chunks[i]),
    ensures
        spec_buffer_after_all(buffer, chunks) == buffer + spec_joined(chunks),
        forall|i: int|
            0 <= i < chunks.len() ==> spec_outcome(
                spec_buffer_after_all(buffer, chunks.take(i)),
                FrameView::Binary(#[trigger] chunks[i]),
            ) == Ok::<Option<Seq<char>>, DecodeError>(None),
    decreases chunks.len(),
{
    if chunks.len() == 0 {
        assert(buffer + spec_joined(chunks) =~= buffer);
    } else {
        let front = chunks.drop_last();
        assert forall|i: int| 0 <= i < front.len() implies !spec_has_trailer(
            #[trigger] front[i],
        ) by {
            assert(front[i] == chunks[i]);
        }
        lemma_pieces_accumulate(buffer, front);
        assert(!spec_has_trailer(chunks[chunks.len() - 1]));
        assert((buffer + spec_joined(front)) + chunks.last() =~= buffer + (spec_joined(front)
            + chunks.last()));
    }
}

/// A message that comes in pieces is decoded as a whole: when only the last
/// of the frames `chunks` has the trailer, a decoder that held nothing yields
/// on that last frame the document in the bytes of all frames together, and
/// holds nothing afterwards.
pub proof fn lemma_reassembly(chunks: Seq<Seq<u8>>)
    requires
        chunks.len() > 0,
        forall|i: int| 0 <= i < chunks.len() - 1 ==> !spec_has_trailer(#[trigger] chunks[i]),
        spec_has_trailer(chunks.last()),
    ensures
        spec_outcome(
            spec_buffer_after_all(Seq::empty(), chunks.drop_last()),
            FrameView::Binary(chunks.last()),
        ) == (match spec_message(spec_joined(chunks)) {
            Ok(text) => Ok::<Option<Seq<char>>, DecodeError>(Some(text)),
            Err(e) => Err(e),
        }),
        spec_buffer_after_all(Seq::empty(), chunks) == Seq::<u8>::empty(),
{
    let front = chunks.drop_last();
    assert forall|i: int| 0 <= i < front.len() implies !spec_has_trailer(#[trigger] front[i]) by {
        assert(front[i] == chunks[i]);
    }
    lemma_pieces_accumulate(Seq::empty(), front);
    assert(Seq::<u8>::empty() + spec_joined(front) =~= spec_joined(front));
}

/// A document that comes compressed and in pieces is the document that comes
/// in one text frame: when the bytes of the frames `chunks` inflate to the
/// UTF-8 encoding of `text`, the last of the frames yields what a text frame
/// with `text` yields.
pub proof fn lemma_reassembled_equals_text(chunks: Seq<Seq<u8>>, text: Seq<char>)
    requires
        chunks.len() > 0,
        forall|i: int| 0 <= i < chunks.len() - 1 ==> !spec_has_trailer(#[trigger] chunks[i]),
        spec_has_trailer(chunks.last()),
    ensures
        spec_inflate(spec_joined(chunks)) == Some(encode_utf8(text)) ==> spec_outcome(
            spec_buffer_after_all(Seq::empty(), chunks.drop_last()),
            FrameView::Binary(chunks.last()),
        ) == spec_outcome(Seq::empty(), FrameView::Text(text)),
{
    lemma_reassembly(chunks);
    vstd::utf8::encode_utf8_valid_utf8(text);
    vstd::utf8::encode_utf8_decode_utf8(text);
}

} // verus!
