//! Newline framing: the rolling buffer of a connection, the frames of the
//! miner's protocol and the line ends of the pool's.

use crate::limits::LINE_BUFFER_CAPACITY;
use bytes::BytesMut;
use vstd::prelude::*;
use vstd::slice::slice_to_vec;
use vstd::utf8::{decode_utf8, valid_utf8};

verus! {

/// `bytes::BytesMut`, a growable byte buffer that can be cut at the front.
#[verifier::external_type_specification]
#[verifier::external_body]
pub struct ExBytesMut(bytes::BytesMut);

/// The bytes that a `bytes::BytesMut` holds, first to last.
pub uninterp spec fn buffered(buf: BytesMut) -> Seq<u8>;

/// The text that `str::trim` leaves of a text: the same without the white
/// space at either end.
pub uninterp spec fn trimmed(text: Seq<char>) -> Seq<char>;

/// The most bytes that one allocation can hold.
pub open spec fn max_len() -> int {
    isize::MAX as int
}

/// `BytesMut::with_capacity` makes an empty buffer.
pub assume_specification[ bytes::BytesMut::with_capacity ](capacity: usize) -> (r: BytesMut)
    requires
        capacity <= max_len(),
    ensures
        buffered(r) == Seq::<u8>::empty(),
;

/// `BytesMut::extend_from_slice` appends the slice to what the buffer holds.
pub assume_specification[ bytes::BytesMut::extend_from_slice ](buf: &mut BytesMut, extend: &[u8])
    requires
        buffered(*old(buf)).len() + extend@.len() <= max_len(),
    ensures
        buffered(*final(buf)) == buffered(*old(buf)) + extend@,
;

/// `BytesMut::split_to` hands out the first `at` bytes and keeps the rest; it
/// panics where `at` is beyond the end.
pub assume_specification[ bytes::BytesMut::split_to ](buf: &mut BytesMut, at: usize) -> (r:
    BytesMut)
    requires
        at <= buffered(*old(buf)).len(),
    ensures
        buffered(r) == buffered(*old(buf)).subrange(0, at as int),
        buffered(*final(buf)) == buffered(*old(buf)).subrange(
            at as int,
            buffered(*old(buf)).len() as int,
        ),
;

/// `AsRef<[u8]>` of a `BytesMut` is the slice of what it holds.
pub assume_specification<'a>[ <bytes::BytesMut as core::convert::AsRef<[u8]>>::as_ref ](
    buf: &'a BytesMut,
) -> (r: &'a [u8])
    ensures
        r@ == buffered(*buf),
;

/// Calls `std::str::from_utf8`, which accepts exactly the well-formed UTF-8
/// and then gives the text that the bytes encode.
#[verifier::external_body]
fn utf8_text(bytes: &[u8]) -> (r: Option<&str>)
    ensures
        r is Some == valid_utf8(bytes@),
        r matches Some(s) ==> s@ == decode_utf8(bytes@),
{
    match std::str::from_utf8(bytes) {
        Ok(text) => Some(text),
        Err(_) => None,
    }
}

/// Calls `str::trim`. The contract only names the result.
#[verifier::external_body]
fn trim_text(text: &str) -> (r: &str)
    ensures
        r@ == trimmed(text@),
{
    text.trim()
}

/// The byte that ends a line.
pub const NEWLINE: u8 = 10;

/// Whether the first newline of `s` is at `pos`.
pub open spec fn first_newline_at(s: Seq<u8>, pos: int) -> bool {
    &&& 0 <= pos < s.len()
    &&& s[pos] == NEWLINE
    &&& forall|j: int| 0 <= j < pos ==> s[j] != NEWLINE
}

/// Whether `s` holds no newline.
pub open spec fn no_newline(s: Seq<u8>) -> bool {
    forall|j: int| 0 <= j < s.len() ==> s[j] != NEWLINE
}

/// What one complete line of the miner's protocol is.
#[derive(Debug)]
pub enum Frame {
    /// The buffer holds no complete line.
    Incomplete,
    /// The line is empty but for white space, and is passed over.
    Blank,
    /// The line, without the white space at its ends.
    Line(String),
    /// The line is no UTF-8; the connection cannot go on.
    Invalid,
}

/// A frame as plain values.
pub enum FrameView {
    Incomplete,
    Blank,
    Line(Seq<char>),
    Invalid,
}

impl View for Frame {
    type V = FrameView;

    open spec fn view(&self) -> FrameView {
        match self {
            Frame::Incomplete => FrameView::Incomplete,
            Frame::Blank => FrameView::Blank,
            Frame::Line(text) => FrameView::Line(text@),
            Frame::Invalid => FrameView::Invalid,
        }
    }
}

/// What the raw bytes of one line, newline included, are as a frame.
pub open spec fn frame_of(raw: Seq<u8>) -> FrameView {
    if !valid_utf8(raw) {
        FrameView::Invalid
    } else if trimmed(decode_utf8(raw)).len() == 0 {
        FrameView::Blank
    } else {
        FrameView::Line(trimmed(decode_utf8(raw)))
    }
}

/// The frame at the head of a buffer.
pub open spec fn head_frame(buf: Seq<u8>) -> FrameView {
    if no_newline(buf) {
        FrameView::Incomplete
    } else {
        frame_of(buf.subrange(0, first_newline(buf) + 1))
    }
}

/// What stays in a buffer once its head frame is taken.
pub open spec fn after_head(buf: Seq<u8>) -> Seq<u8> {
    if no_newline(buf) {
        buf
    } else {
        buf.subrange(first_newline(buf) + 1, buf.len() as int)
    }
}

/// The place of the first newline of `s`, or its length where it has none.
pub open spec fn first_newline(s: Seq<u8>) -> int
    decreases s.len(),
{
    if s.len() == 0 || s[0] == NEWLINE {
        0
    } else {
        1 + first_newline(s.skip(1))
    }
}

/// `first_newline` finds what `first_newline_at` describes.
pub proof fn first_newline_is_first(s: Seq<u8>, pos: int)
    requires
        first_newline_at(s, pos),
    ensures
        first_newline(s) == pos,
    decreases s.len(),
{
    if pos > 0 {
        assert(s[0] != NEWLINE);
        let rest = s.skip(1);
        assert forall|j: int| 0 <= j < pos - 1 implies rest[j] != NEWLINE by {
            assert(rest[j] == s[j + 1]);
        }
        first_newline_is_first(rest, pos - 1);
    }
}

/// Reads the raw bytes of one line as a frame.
pub fn frame_line(raw: &[u8]) -> (f: Frame)
    ensures
        f@ == frame_of(raw@),
{
    match utf8_text(raw) {
        None => Frame::Invalid,
        Some(text) => {
            let line = trim_text(text);
            if line.is_empty() {
                Frame::Blank
            } else {
                Frame::Line(line.to_owned())
            }
        },
    }
}

/// The bytes read from a socket and not yet cut into lines.
pub struct LineBuffer {
    buf: BytesMut,
}

impl View for LineBuffer {
    type V = Seq<u8>;

    closed spec fn view(&self) -> Seq<u8> {
        buffered(self.buf)
    }
}

impl LineBuffer {
    /// An empty buffer.
    pub fn new() -> (b: LineBuffer)
        ensures
            b@ == Seq::<u8>::empty(),
    {
        LineBuffer { buf: BytesMut::with_capacity(LINE_BUFFER_CAPACITY) }
    }

    /// Whether nothing is buffered.
    pub fn is_empty(&self) -> (r: bool)
        ensures
            r == (self@.len() == 0),
    {
        self.buf.as_ref().len() == 0
    }

    /// Appends what a read brought. A read of nothing means that the peer
    /// closed the connection; the answer is then `false`, as it is for a chunk
    /// that would not fit in memory, and the buffer stays as it is.
    pub fn feed(&mut self, chunk: &[u8]) -> (open: bool)
        ensures
            open == (chunk@.len() > 0 && old(self)@.len() + chunk@.len() <= max_len()),
            final(self)@ == if open {
                old(self)@ + chunk@
            } else {
                old(self)@
            },
    {
        let held = self.buf.as_ref().len();
        let limit: usize = isize::MAX as usize;
        if chunk.len() == 0 || held > limit || chunk.len() > limit - held {
            return false;
        }
        self.buf.extend_from_slice(chunk);
        true
    }

    /// Cuts the first line off, newline included, where the buffer holds one.
    pub fn split_line(&mut self) -> (r: Option<BytesMut>)
        ensures
            match r {
                Some(line) => {
                    &&& first_newline_at(old(self)@, buffered(line).len() - 1)
                    &&& buffered(line) == old(self)@.subrange(0, buffered(line).len() as int)
                    &&& final(self)@ == old(self)@.subrange(
                        buffered(line).len() as int,
                        old(self)@.len() as int,
                    )
                },
                None => no_newline(old(self)@) && final(self)@ == old(self)@,
            },
    {
        let bytes = self.buf.as_ref();
        let mut pos: usize = 0;
        while pos < bytes.len() && bytes[pos] != NEWLINE
            invariant
                pos <= bytes.len(),
                bytes@ == self@,
                forall|j: int| 0 <= j < pos ==> bytes@[j] != NEWLINE,
            decreases bytes.len() - pos,
        {
            pos += 1;
        }
        if pos < bytes.len() {
            let line = self.buf.split_to(pos + 1);
            assert(buffered(line).len() == pos + 1);
            Some(line)
        } else {
            None
        }
    }

    /// The next line of a pool's stream, without its newline, where the buffer
    /// holds a complete one. Ended with a newline again, the line and what
    /// stays in the buffer are the bytes that were there.
    pub fn next_pool_line(&mut self) -> (r: Option<Vec<u8>>)
        ensures
            match r {
                Some(body) => {
                    &&& no_newline(body@)
                    &&& terminated(body@) == body@.push(NEWLINE)
                    &&& terminated(body@) + final(self)@ == old(self)@
                },
                None => no_newline(old(self)@) && final(self)@ == old(self)@,
            },
    {
        match self.split_line() {
            None => None,
            Some(line) => {
                let body = strip_line_end(slice_to_vec(line.as_ref()));
                proof {
                    let cut = buffered(line);
                    assert(cut.last() == NEWLINE);
                    assert(body@ == cut.drop_last());
                    assert(body@.push(NEWLINE) =~= cut);
                    assert(cut + final(self)@ =~= old(self)@);
                    assert forall|j: int| 0 <= j < body@.len() implies body@[j] != NEWLINE by {
                        assert(body@[j] == old(self)@[j]);
                    }
                }
                Some(body)
            },
        }
    }

    /// Takes everything out of the buffer: at the end of a stream, the line
    /// that was left open.
    pub fn take_rest(&mut self) -> (r: Vec<u8>)
        ensures
            r@ == old(self)@,
            final(self)@ == Seq::<u8>::empty(),
    {
        let held = self.buf.as_ref().len();
        let rest = self.buf.split_to(held);
        assert(old(self)@.subrange(0, held as int) =~= old(self)@);
        assert(old(self)@.subrange(held as int, held as int) =~= Seq::<u8>::empty());
        slice_to_vec(rest.as_ref())
    }

    /// The next frame of the buffer: the first line, cut off and read, or
    /// `Incomplete` with the buffer unchanged.
    pub fn next_frame(&mut self) -> (f: Frame)
        ensures
            f@ == head_frame(old(self)@),
            final(self)@ == after_head(old(self)@),
    {
        match self.split_line() {
            None => Frame::Incomplete,
            Some(line) => {
                proof {
                    let here = buffered(line).len() - 1;
                    first_newline_is_first(old(self)@, here);
                    assert(old(self)@[here] == NEWLINE);
                }
                frame_line(line.as_ref())
            },
        }
    }
}

/// A line without its final newline, if it has one.
pub open spec fn stripped(line: Seq<u8>) -> Seq<u8> {
    if line.len() > 0 && line.last() == NEWLINE {
        line.drop_last()
    } else {
        line
    }
}

/// A line with a final newline, added where there is none.
pub open spec fn terminated(line: Seq<u8>) -> Seq<u8> {
    if line.len() > 0 && line.last() == NEWLINE {
        line
    } else {
        line.push(NEWLINE)
    }
}

/// Takes the final newline off a line read from the pool.
pub fn strip_line_end(line: Vec<u8>) -> (r: Vec<u8>)
    ensures
        r@ == stripped(line@),
{
    let mut line = line;
    let n = line.len();
    if n > 0 && line[n - 1] == NEWLINE {
        line.pop();
    }
    line
}

/// Ends a line with a newline before it is written, unless it has one.
pub fn terminate_line(line: Vec<u8>) -> (r: Vec<u8>)
    ensures
        r@ == terminated(line@),
{
    let mut line = line;
    let n = line.len();
    if n == 0 || line[n - 1] != NEWLINE {
        line.push(NEWLINE);
    }
    line
}

/// Whether `line` is a line as it is read from the pool: it holds no newline
/// but, at most, a final one.
pub open spec fn is_pool_line(line: Seq<u8>) -> bool {
    forall|j: int| 0 <= j < line.len() - 1 ==> line[j] != NEWLINE
}

/// Line boundaries survive the relay: a line of the pool that ends in a
/// newline reaches the miner byte for byte, and one that the pool left open
/// reaches it with the newline added and nothing else changed.
pub proof fn relay_preserves_lines(line: Seq<u8>)
    requires
        is_pool_line(line),
    ensures
        line.len() > 0 && line.last() == NEWLINE ==> terminated(stripped(line)) == line,
        !(line.len() > 0 && line.last() == NEWLINE) ==> terminated(stripped(line)) == line.push(
            NEWLINE,
        ),
        no_newline(stripped(line)),
{
    if line.len() > 0 && line.last() == NEWLINE {
        let body = line.drop_last();
        assert(body.push(NEWLINE) =~= line);
        if body.len() > 0 {
            assert(body.last() == line[line.len() - 2]);
        }
    }
}

/// The place of the first newline lies within the sequence, and is a newline's
/// place wherever the sequence holds one.
pub proof fn first_newline_found(s: Seq<u8>)
    ensures
        0 <= first_newline(s) <= s.len(),
        no_newline(s) <==> first_newline(s) == s.len(),
        !no_newline(s) ==> first_newline_at(s, first_newline(s)),
    decreases s.len(),
{
    if s.len() > 0 && s[0] != NEWLINE {
        let rest = s.skip(1);
        first_newline_found(rest);
        if no_newline(rest) {
            assert forall|j: int| 0 <= j < s.len() implies s[j] != NEWLINE by {
                if j > 0 {
                    assert(rest[j - 1] == s[j]);
                }
            }
        } else {
            let pos = first_newline(rest);
            assert(s[pos + 1] == rest[pos]);
            assert forall|j: int| 0 <= j < pos + 1 implies s[j] != NEWLINE by {
                if j > 0 {
                    assert(rest[j - 1] == s[j]);
                }
            }
        }
    }
}

/// What reaches the miner of a pool's stream: each complete line cut off,
/// stripped of its newline and ended with one again, and the line that the
/// stream left open, if any, ended with a newline.
pub open spec fn relayed(stream: Seq<u8>) -> Seq<u8>
    decreases stream.len(),
{
    let cut = first_newline(stream) + 1;
    if stream.len() == 0 {
        stream
    } else if no_newline(stream) || cut <= 0 || cut > stream.len() {
        terminated(stream)
    } else {
        terminated(stripped(stream.subrange(0, cut))) + relayed(
            stream.subrange(cut, stream.len() as int),
        )
    }
}

/// The relay changes nothing but the end of the stream: what reaches the
/// miner is the pool's stream, with a newline added where the stream ended in
/// an open line.
pub proof fn relay_preserves_stream(stream: Seq<u8>)
    ensures
        relayed(stream) == if stream.len() == 0 || stream.last() == NEWLINE {
            stream
        } else {
            stream.push(NEWLINE)
        },
    decreases stream.len(),
{
    first_newline_found(stream);
    if stream.len() > 0 && !no_newline(stream) {
        let cut = first_newline(stream) + 1;
        let line = stream.subrange(0, cut);
        let rest = stream.subrange(cut, stream.len() as int);
        assert forall|j: int| 0 <= j < line.len() - 1 implies line[j] != NEWLINE by {
            assert(line[j] == stream[j]);
        }
        assert(line.last() == stream[cut - 1]);
        relay_preserves_lines(line);
        relay_preserves_stream(rest);
        assert(line + rest =~= stream);
        if rest.len() > 0 {
            assert(rest.last() == stream.last());
            assert(line + rest.push(NEWLINE) =~= stream.push(NEWLINE));
        } else {
            assert(line + rest =~= line);
        }
    }
}

} // verus!
