//! The frames that travel between a client and the host, and their bytes.
//!
//! A frame is a length, a kind and a body. The length is a `u32`, least significant
//! byte first, and counts the kind and the body. The kind is one byte: 1 for a
//! handshake, 2 for a subscription, 3 for a publish, 4 for an event. A text is its
//! length in bytes as a `u32` and then its UTF-8 bytes; a task is its identity and its
//! time of creation, a `u64` each, and then its prompt.

use crate::message::{Task, TaskView};
use vstd::bytes::*;
use vstd::prelude::*;
use vstd::slice::slice_subrange;
use vstd::utf8::*;

verus! {

/// What travels over a connection.
#[derive(Debug, Clone)]
pub enum Frame {
    /// The first frame of a connection: who connects, and the cluster's secret.
    Handshake { node_name: String, cookie: String },
    /// The sender subscribes to a topic.
    Subscribe { topic: String },
    /// The sender publishes a task on a topic.
    Publish { topic: String, task: Task },
    /// A task that was published on a topic the receiver subscribes to.
    Event { topic: String, task: Task },
}

/// A frame as plain values.
pub enum FrameView {
    Handshake { node_name: Seq<char>, cookie: Seq<char> },
    Subscribe { topic: Seq<char> },
    Publish { topic: Seq<char>, task: TaskView },
    Event { topic: Seq<char>, task: TaskView },
}

impl View for Frame {
    type V = FrameView;

    open spec fn view(&self) -> FrameView {
        match self {
            Frame::Handshake { node_name, cookie } => FrameView::Handshake {
                node_name: node_name@,
                cookie: cookie@,
            },
            Frame::Subscribe { topic } => FrameView::Subscribe { topic: topic@ },
            Frame::Publish { topic, task } => FrameView::Publish { topic: topic@, task: task@ },
            Frame::Event { topic, task } => FrameView::Event { topic: topic@, task: task@ },
        }
    }
}

/// Why bytes are no frame, or a frame has no bytes.
#[derive(Clone, Copy, Debug, PartialEq, Eq, Structural)]
pub enum WireError {
    /// There are fewer bytes than the length says, or than a length takes.
    Truncated,
    /// There are more bytes than the length says.
    TrailingBytes,
    /// The kind is none of the four.
    UnknownKind,
    /// The body does not hold what its kind asks for.
    Malformed,
    /// A text or the frame is longer than a `u32` can say.
    TooLong,
}

/// The largest number of bytes that a length can say.
pub open spec fn max_len() -> int {
    0xffff_ffff
}

/// The bytes of a text.
pub open spec fn text_bytes(text: Seq<char>) -> Seq<u8> {
    spec_u32_to_le_bytes(encode_utf8(text).len() as u32) + encode_utf8(text)
}

/// The bytes of a task.
pub open spec fn task_bytes(task: TaskView) -> Seq<u8> {
    spec_u64_to_le_bytes(task.id) + spec_u64_to_le_bytes(task.created_at) + text_bytes(
        task.prompt,
    )
}

/// The byte that says a frame's kind.
pub open spec fn kind_of(frame: FrameView) -> u8 {
    match frame {
        FrameView::Handshake { .. } => 1,
        FrameView::Subscribe { .. } => 2,
        FrameView::Publish { .. } => 3,
        FrameView::Event { .. } => 4,
    }
}

/// The bytes of a frame's body.
pub open spec fn body_bytes(frame: FrameView) -> Seq<u8> {
    match frame {
        FrameView::Handshake { node_name, cookie } => text_bytes(node_name) + text_bytes(cookie),
        FrameView::Subscribe { topic } => text_bytes(topic),
        FrameView::Publish { topic, task } => text_bytes(topic) + task_bytes(task),
        FrameView::Event { topic, task } => text_bytes(topic) + task_bytes(task),
    }
}

/// The bytes of a frame.
pub open spec fn frame_bytes(frame: FrameView) -> Seq<u8> {
    spec_u32_to_le_bytes((1 + body_bytes(frame).len()) as u32) + seq![kind_of(frame)]
        + body_bytes(frame)
}

/// Every text of the frame fits its length.
pub open spec fn texts_fit(frame: FrameView) -> bool {
    match frame {
        FrameView::Handshake { node_name, cookie } => encode_utf8(node_name).len() <= max_len()
            && encode_utf8(cookie).len() <= max_len(),
        FrameView::Subscribe { topic } => encode_utf8(topic).len() <= max_len(),
        FrameView::Publish { topic, task } => encode_utf8(topic).len() <= max_len()
            && encode_utf8(task.prompt).len() <= max_len(),
        FrameView::Event { topic, task } => encode_utf8(topic).len() <= max_len() && encode_utf8(
            task.prompt,
        ).len() <= max_len(),
    }
}

/// The frame has bytes: every text and the frame itself fit their lengths.
pub open spec fn encodable(frame: FrameView) -> bool {
    texts_fit(frame) && 1 + body_bytes(frame).len() <= max_len()
}

/// A `u32` at the head of the bytes, and what follows it.
pub open spec fn parse_u32(bytes: Seq<u8>) -> Option<(u32, Seq<u8>)> {
    if bytes.len() >= 4 {
        Some((spec_u32_from_le_bytes(bytes.subrange(0, 4)), bytes.subrange(4, bytes.len() as int)))
    } else {
        None
    }
}

/// A `u64` at the head of the bytes, and what follows it.
pub open spec fn parse_u64(bytes: Seq<u8>) -> Option<(u64, Seq<u8>)> {
    if bytes.len() >= 8 {
        Some((spec_u64_from_le_bytes(bytes.subrange(0, 8)), bytes.subrange(8, bytes.len() as int)))
    } else {
        None
    }
}

/// A text at the head of the bytes, and what follows it.
pub open spec fn parse_text(bytes: Seq<u8>) -> Option<(Seq<char>, Seq<u8>)> {
    match parse_u32(bytes) {
        Some((n, rest)) => if rest.len() >= n && valid_utf8(rest.subrange(0, n as int)) {
            Some((decode_utf8(rest.subrange(0, n as int)), rest.subrange(n as int, rest.len() as int)))
        } else {
            None
        },
        None => None,
    }
}

/// A task at the head of the bytes, and what follows it.
pub open spec fn parse_task(bytes: Seq<u8>) -> Option<(TaskView, Seq<u8>)> {
    match parse_u64(bytes) {
        Some((id, rest)) => match parse_u64(rest) {
            Some((created_at, rest)) => match parse_text(rest) {
                Some((prompt, rest)) => Some((TaskView { id, prompt, created_at }, rest)),
                None => None,
            },
            None => None,
        },
        None => None,
    }
}

/// The frame of this kind that the bytes are the body of.
pub open spec fn parse_body(kind: u8, bytes: Seq<u8>) -> Option<FrameView> {
    if kind == 1 {
        match parse_text(bytes) {
            Some((node_name, rest)) => match parse_text(rest) {
                Some((cookie, rest)) => if rest.len() == 0 {
                    Some(FrameView::Handshake { node_name, cookie })
                } else {
                    None
                },
                None => None,
            },
            None => None,
        }
    } else if kind == 2 {
        match parse_text(bytes) {
            Some((topic, rest)) => if rest.len() == 0 {
                Some(FrameView::Subscribe { topic })
            } else {
                None
            },
            None => None,
        }
    } else {
        match parse_text(bytes) {
            Some((topic, rest)) => match parse_task(rest) {
                Some((task, rest)) => if rest.len() == 0 {
                    if kind == 3 {
                        Some(FrameView::Publish { topic, task })
                    } else {
                        Some(FrameView::Event { topic, task })
                    }
                } else {
                    None
                },
                None => None,
            },
            None => None,
        }
    }
}

/// The frame that the bytes are, or why they are none.
pub open spec fn parse_frame(bytes: Seq<u8>) -> Result<FrameView, WireError> {
    match parse_u32(bytes) {
        None => Err(WireError::Truncated),
        Some((n, rest)) => if rest.len() < n || n == 0 {
            Err(WireError::Truncated)
        } else if rest.len() > n {
            Err(WireError::TrailingBytes)
        } else if rest[0] < 1 || rest[0] > 4 {
            Err(WireError::UnknownKind)
        } else {
            match parse_body(rest[0], rest.subrange(1, rest.len() as int)) {
                Some(frame) => Ok(frame),
                None => Err(WireError::Malformed),
            }
        },
    }
}

/// Calls `std::str::from_utf8` and copies what it gives into a `String`: there is a
/// result exactly where the bytes are valid UTF-8, and its bytes are the ones given.
#[verifier::external_body]
fn text_from_utf8(bytes: &[u8]) -> (text: Option<String>)
    ensures
        text is Some <==> valid_utf8(bytes@),
        text matches Some(t) ==> encode_utf8(t@) == bytes@,
{
    std::str::from_utf8(bytes).ok().map(|s| s.to_owned())
}

/// Puts the bytes at the end of `out`.
fn append_bytes(out: &mut Vec<u8>, bytes: &[u8])
    ensures
        final(out)@ == old(out)@ + bytes@,
{
    let mut i: usize = 0;
    while i < bytes.len()
        invariant
            i <= bytes@.len(),
            out@ == old(out)@ + bytes@.subrange(0, i as int),
        decreases bytes@.len() - i,
    {
        out.push(bytes[i]);
        assert(bytes@.subrange(0, i + 1) =~= bytes@.subrange(0, i as int).push(bytes@[i as int]));
        i += 1;
    }
    assert(bytes@.subrange(0, bytes@.len() as int) =~= bytes@);
}

/// Puts the bytes of a text at the end of `out`; `false`, and nothing, where the text
/// is too long.
fn put_text(out: &mut Vec<u8>, text: &str) -> (fits: bool)
    ensures
        fits == (encode_utf8(text@).len() <= max_len()),
        fits ==> final(out)@ == old(out)@ + text_bytes(text@),
        !fits ==> final(out)@ == old(out)@,
{
    let bytes = text.as_bytes();
    if bytes.len() > 0xffff_ffff {
        return false;
    }
    let n = u32_to_le_bytes(bytes.len() as u32);
    append_bytes(out, n.as_slice());
    append_bytes(out, bytes);
    assert(out@ =~= old(out)@ + text_bytes(text@));
    true
}

/// Puts the bytes of a task at the end of `out`; `false` where its prompt is too long.
fn put_task(out: &mut Vec<u8>, task: &Task) -> (fits: bool)
    ensures
        fits == (encode_utf8(task@.prompt).len() <= max_len()),
        fits ==> final(out)@ == old(out)@ + task_bytes(task@),
{
    let id = u64_to_le_bytes(task.id);
    let created_at = u64_to_le_bytes(task.created_at);
    append_bytes(out, id.as_slice());
    append_bytes(out, created_at.as_slice());
    let fits = put_text(out, task.prompt.as_str());
    if fits {
        assert(out@ =~= old(out)@ + task_bytes(task@));
    }
    fits
}

/// The bytes of a frame. Fails with `TooLong`, and only then, where a text or the frame
/// is longer than a length can say.
pub fn encode(frame: &Frame) -> (result: Result<Vec<u8>, WireError>)
    ensures
        match result {
            Ok(bytes) => encodable(frame@) && bytes@ == frame_bytes(frame@),
            Err(e) => !encodable(frame@) && e == WireError::TooLong,
        },
{
    let mut body: Vec<u8> = Vec::new();
    let (kind, fits): (u8, bool) = match frame {
        Frame::Handshake { node_name, cookie } => {
            let a = put_text(&mut body, node_name.as_str());
            let b = a && put_text(&mut body, cookie.as_str());
            (1, b)
        },
        Frame::Subscribe { topic } => {
            let a = put_text(&mut body, topic.as_str());
            (2, a)
        },
        Frame::Publish { topic, task } => {
            let a = put_text(&mut body, topic.as_str());
            let b = a && put_task(&mut body, task);
            (3, b)
        },
        Frame::Event { topic, task } => {
            let a = put_text(&mut body, topic.as_str());
            let b = a && put_task(&mut body, task);
            (4, b)
        },
    };
    if !fits {
        return Err(WireError::TooLong);
    }
    assert(body@ =~= body_bytes(frame@));
    if body.len() >= 0xffff_ffff {
        return Err(WireError::TooLong);
    }
    let mut out = u32_to_le_bytes((body.len() + 1) as u32);
    out.push(kind);
    append_bytes(&mut out, body.as_slice());
    assert(out@ =~= frame_bytes(frame@));
    Ok(out)
}

/// The number of bytes that follow a frame's length, given the four bytes of the
/// length; `None` where they are not four.
pub fn payload_length(prefix: &[u8]) -> (n: Option<u32>)
    ensures
        n == if prefix@.len() == 4 {
            Some(spec_u32_from_le_bytes(prefix@))
        } else {
            None
        },
{
    if prefix.len() == 4 {
        Some(u32_from_le_bytes(prefix))
    } else {
        None
    }
}

/// Takes a `u32` off the head of the bytes.
fn take_u32(bytes: &[u8]) -> (r: Option<(u32, &[u8])>)
    ensures
        match r {
            Some((n, rest)) => parse_u32(bytes@) == Some((n, rest@)),
            None => parse_u32(bytes@) is None,
        },
{
    if bytes.len() < 4 {
        return None;
    }
    let n = u32_from_le_bytes(slice_subrange(bytes, 0, 4));
    Some((n, slice_subrange(bytes, 4, bytes.len())))
}

/// Takes a `u64` off the head of the bytes.
fn take_u64(bytes: &[u8]) -> (r: Option<(u64, &[u8])>)
    ensures
        match r {
            Some((n, rest)) => parse_u64(bytes@) == Some((n, rest@)),
            None => parse_u64(bytes@) is None,
        },
{
    if bytes.len() < 8 {
        return None;
    }
    let n = u64_from_le_bytes(slice_subrange(bytes, 0, 8));
    Some((n, slice_subrange(bytes, 8, bytes.len())))
}

/// Takes a text off the head of the bytes.
fn take_text(bytes: &[u8]) -> (r: Option<(String, &[u8])>)
    ensures
        match r {
            Some((text, rest)) => parse_text(bytes@) == Some((text@, rest@)),
            None => parse_text(bytes@) is None,
        },
{
    match take_u32(bytes) {
        Some((n, rest)) => {
            if rest.len() < n as usize {
                return None;
            }
            let raw = slice_subrange(rest, 0, n as usize);
            match text_from_utf8(raw) {
                Some(text) => {
                    proof {
                        encode_utf8_decode_utf8(text@);
                    }
                    Some((text, slice_subrange(rest, n as usize, rest.len())))
                },
                None => None,
            }
        },
        None => None,
    }
}

/// Takes a task off the head of the bytes.
fn take_task(bytes: &[u8]) -> (r: Option<(Task, &[u8])>)
    ensures
        match r {
            Some((task, rest)) => parse_task(bytes@) == Some((task@, rest@)),
            None => parse_task(bytes@) is None,
        },
{
    match take_u64(bytes) {
        Some((id, rest)) => match take_u64(rest) {
            Some((created_at, rest)) => match take_text(rest) {
                Some((prompt, rest)) => Some((Task { id, prompt, created_at }, rest)),
                None => None,
            },
            None => None,
        },
        None => None,
    }
}

/// Reads the body of a frame of this kind.
fn take_body(kind: u8, bytes: &[u8]) -> (r: Option<Frame>)
    requires
        1 <= kind <= 4,
    ensures
        match r {
            Some(frame) => parse_body(kind, bytes@) == Some(frame@),
            None => parse_body(kind, bytes@) is None,
        },
{
    if kind == 1 {
        match take_text(bytes) {
            Some((node_name, rest)) => match take_text(rest) {
                Some((cookie, rest)) => if rest.len() == 0 {
                    Some(Frame::Handshake { node_name, cookie })
                } else {
                    None
                },
                None => None,
            },
            None => None,
        }
    } else if kind == 2 {
        match take_text(bytes) {
            Some((topic, rest)) => if rest.len() == 0 {
                Some(Frame::Subscribe { topic })
            } else {
                None
            },
            None => None,
        }
    } else {
        match take_text(bytes) {
            Some((topic, rest)) => match take_task(rest) {
                Some((task, rest)) => if rest.len() == 0 {
                    if kind == 3 {
                        Some(Frame::Publish { topic, task })
                    } else {
                        Some(Frame::Event { topic, task })
                    }
                } else {
                    None
                },
                None => None,
            },
            None => None,
        }
    }
}

/// Reads one frame from exactly its bytes, or says why they are none.
pub fn decode(bytes: &[u8]) -> (result: Result<Frame, WireError>)
    ensures
        match result {
            Ok(frame) => parse_frame(bytes@) == Ok::<FrameView, WireError>(frame@),
            Err(e) => parse_frame(bytes@) == Err::<FrameView, WireError>(e),
        },
{
    match take_u32(bytes) {
        None => Err(WireError::Truncated),
        Some((n, rest)) => {
            if rest.len() < n as usize || n == 0 {
                Err(WireError::Truncated)
            } else if rest.len() > n as usize {
                Err(WireError::TrailingBytes)
            } else if rest[0] < 1 || rest[0] > 4 {
                Err(WireError::UnknownKind)
            } else {
                match take_body(rest[0], slice_subrange(rest, 1, rest.len())) {
                    Some(frame) => Ok(frame),
                    None => Err(WireError::Malformed),
                }
            }
        },
    }
}

} // verus!
