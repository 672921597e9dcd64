//! The diagnostic line that reports a failed time fetch on the debug
//! serial channel.
//!
//! A line is put together in a buffer of fixed capacity: the label of the
//! stage that failed, the text of the error, and a line end. A piece that
//! no longer fits is left out whole, together with every piece after it.

use vstd::prelude::*;
use vstd::string::StringSliceAdditionalSpecFns;
use vstd::utf8::{encode_utf8, is_ascii_chars, is_ascii_chars_encode_utf8};

verus! {

/// The capacity of the buffer that a diagnostic line is put together in,
/// in bytes.
pub const PACKET_CAPACITY: usize = 64;

/// The length up to which an error text fits into a diagnostic line
/// together with every label and the line end, in bytes.
pub const DETAIL_CAPACITY: usize = 50;

/// The stage of a time fetch at which it failed.
#[derive(Clone, Copy, Debug, PartialEq, Eq, Structural)]
pub enum FetchStage {
    /// The request could not be set up.
    Request,
    /// The request was not sent, or no response came.
    Send,
    /// The body of the response could not be read.
    Body,
    /// The body is not UTF-8 text.
    Text,
    /// The text is not the expected JSON document.
    Json,
}

/// The label that a diagnostic line of `stage` starts with.
pub open spec fn label_of(stage: FetchStage) -> Seq<char> {
    match stage {
        FetchStage::Request => "Error req: "@,
        FetchStage::Send => "Error res: "@,
        FetchStage::Body => "Error byte: "@,
        FetchStage::Text => "Error body: "@,
        FetchStage::Json => "Error buf: "@,
    }
}

/// The end of a diagnostic line: carriage return, line feed.
pub open spec fn line_end() -> Seq<char> {
    "\r\n"@
}

/// Every label is ASCII text of at most twelve characters.
pub proof fn label_is_short(stage: FetchStage)
    ensures
        is_ascii_chars(label_of(stage)),
        0 < label_of(stage).len() <= 12,
        encode_utf8(label_of(stage)).len() == label_of(stage).len(),
        is_ascii_chars(line_end()),
        encode_utf8(line_end()).len() == 2,
{
    reveal_strlit("Error req: ");
    reveal_strlit("Error res: ");
    reveal_strlit("Error byte: ");
    reveal_strlit("Error body: ");
    reveal_strlit("Error buf: ");
    reveal_strlit("\r\n");
    is_ascii_chars_encode_utf8(label_of(stage));
    is_ascii_chars_encode_utf8(line_end());
}

/// Whether `piece` still fits into a buffer that holds `text`.
pub open spec fn fits(text: Seq<u8>, piece: Seq<u8>) -> bool {
    text.len() + piece.len() <= PACKET_CAPACITY
}

/// The bytes of the diagnostic line of `stage` with the error text
/// `detail`: label, detail and line end, as far as they fit.
pub open spec fn diagnostic_of(stage: FetchStage, detail: Seq<char>) -> Seq<u8> {
    let label = encode_utf8(label_of(stage));
    let body = label + encode_utf8(detail);
    let line = body + encode_utf8(line_end());
    if !fits(Seq::empty(), label) {
        Seq::empty()
    } else if !fits(label, encode_utf8(detail)) {
        label
    } else if !fits(body, encode_utf8(line_end())) {
        body
    } else {
        line
    }
}

/// A buffer of [`PACKET_CAPACITY`] bytes for one diagnostic line.
#[verifier::external_body]
pub struct PacketBuffer {
    text: heapless::String<64>,
}

/// The bytes that `buffer` holds.
pub uninterp spec fn buffer_bytes(buffer: PacketBuffer) -> Seq<u8>;

/// Trusted: `heapless::String::new`, for a capacity of 64 bytes. The
/// contract claims that the string that comes back is empty.
#[verifier::external_body]
fn buffer_new() -> (buffer: PacketBuffer)
    ensures
        buffer_bytes(buffer) == Seq::<u8>::empty(),
{
    PacketBuffer { text: heapless::String::new() }
}

/// Trusted: `heapless::String::push_str`. The contract claims that the
/// bytes of `piece` are appended where they all fit into the capacity,
/// that the string is left as it was where they do not, and that the
/// result says which of the two happened.
#[verifier::external_body]
fn buffer_push(buffer: &mut PacketBuffer, piece: &str) -> (pushed: bool)
    ensures
        pushed == fits(buffer_bytes(*old(buffer)), piece.spec_bytes()),
        pushed ==> buffer_bytes(*final(buffer)) == buffer_bytes(*old(buffer)) + piece.spec_bytes(),
        !pushed ==> buffer_bytes(*final(buffer)) == buffer_bytes(*old(buffer)),
{
    buffer.text.push_str(piece).is_ok()
}

/// Trusted: `heapless::String::as_bytes`, copied into a vector. The
/// contract claims that the vector holds the bytes of the string.
#[verifier::external_body]
fn buffer_to_vec(buffer: &PacketBuffer) -> (bytes: Vec<u8>)
    ensures
        bytes@ == buffer_bytes(*buffer),
{
    buffer.text.as_bytes().to_vec()
}

impl FetchStage {
    /// The label that a diagnostic line of this stage starts with.
    pub fn label(self) -> (text: &'static str)
        ensures
            text@ == label_of(self),
    {
        match self {
            FetchStage::Request => "Error req: ",
            FetchStage::Send => "Error res: ",
            FetchStage::Body => "Error byte: ",
            FetchStage::Text => "Error body: ",
            FetchStage::Json => "Error buf: ",
        }
    }
}

/// The packet that reports a time fetch that failed at `stage` with the
/// error text `detail`.
///
/// The packet always starts with the label of the stage and never exceeds
/// [`PACKET_CAPACITY`] bytes. Where the detail takes at most
/// [`DETAIL_CAPACITY`] bytes, the packet is the whole line: label, detail,
/// line end.
pub fn diagnostic(stage: FetchStage, detail: &str) -> (packet: Vec<u8>)
    ensures
        packet@ == diagnostic_of(stage, detail@),
        packet@.len() <= PACKET_CAPACITY,
        encode_utf8(label_of(stage)).is_prefix_of(packet@),
        encode_utf8(detail@).len() <= DETAIL_CAPACITY ==> packet@ == encode_utf8(label_of(stage))
            + encode_utf8(detail@) + encode_utf8(line_end()),
{
    proof {
        label_is_short(stage);
    }
    let mut buffer = buffer_new();
    if buffer_push(&mut buffer, stage.label()) {
        if buffer_push(&mut buffer, detail) {
            let _ = buffer_push(&mut buffer, "\r\n");
        }
    }
    let packet = buffer_to_vec(&buffer);
    proof {
        let label = encode_utf8(label_of(stage));
        assert(Seq::<u8>::empty() + label =~= label);
    }
    packet
}

} // verus!
