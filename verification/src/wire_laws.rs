//! Every frame comes back out of its bytes.

use crate::message::TaskView;
use crate::wire::{
    body_bytes, encodable, frame_bytes, kind_of, max_len, parse_body, parse_frame, parse_task,
    parse_text, parse_u32, parse_u64, task_bytes, text_bytes, texts_fit, FrameView, WireError,
};
use vstd::bytes::*;
use vstd::prelude::*;
use vstd::utf8::*;

verus! {

/// A `u32` comes back off the head of its bytes, with what follows them.
pub proof fn lemma_parse_u32(x: u32, rest: Seq<u8>)
    ensures
        parse_u32(spec_u32_to_le_bytes(x) + rest) == Some((x, rest)),
{
    lemma_auto_spec_u32_to_from_le_bytes();
    let head = spec_u32_to_le_bytes(x);
    let all = head + rest;
    assert(all.subrange(0, 4) =~= head);
    assert(all.subrange(4, all.len() as int) =~= rest);
}

/// A `u64` comes back off the head of its bytes, with what follows them.
pub proof fn lemma_parse_u64(x: u64, rest: Seq<u8>)
    ensures
        parse_u64(spec_u64_to_le_bytes(x) + rest) == Some((x, rest)),
{
    lemma_auto_spec_u64_to_from_le_bytes();
    let head = spec_u64_to_le_bytes(x);
    let all = head + rest;
    assert(all.subrange(0, 8) =~= head);
    assert(all.subrange(8, all.len() as int) =~= rest);
}

/// A text that fits its length comes back off the head of its bytes.
pub proof fn lemma_parse_text(text: Seq<char>, rest: Seq<u8>)
    requires
        encode_utf8(text).len() <= max_len(),
    ensures
        parse_text(text_bytes(text) + rest) == Some((text, rest)),
{
    let raw = encode_utf8(text);
    let n = raw.len() as u32;
    let tail = raw + rest;
    assert(text_bytes(text) + rest =~= spec_u32_to_le_bytes(n) + tail);
    lemma_parse_u32(n, tail);
    assert(tail.subrange(0, n as int) =~= raw);
    assert(tail.subrange(n as int, tail.len() as int) =~= rest);
    encode_utf8_valid_utf8(text);
    encode_utf8_decode_utf8(text);
}

/// A task whose prompt fits its length comes back off the head of its bytes.
pub proof fn lemma_parse_task(task: TaskView, rest: Seq<u8>)
    requires
        encode_utf8(task.prompt).len() <= max_len(),
    ensures
        parse_task(task_bytes(task) + rest) == Some((task, rest)),
{
    let after_id = spec_u64_to_le_bytes(task.created_at) + text_bytes(task.prompt) + rest;
    let after_time = text_bytes(task.prompt) + rest;
    assert(task_bytes(task) + rest =~= spec_u64_to_le_bytes(task.id) + after_id);
    lemma_parse_u64(task.id, after_id);
    assert(after_id =~= spec_u64_to_le_bytes(task.created_at) + after_time);
    lemma_parse_u64(task.created_at, after_time);
    lemma_parse_text(task.prompt, rest);
}

/// The body of a frame whose texts fit is read back as the frame.
pub proof fn lemma_parse_body(frame: FrameView)
    requires
        texts_fit(frame),
    ensures
        parse_body(kind_of(frame), body_bytes(frame)) == Some(frame),
{
    let none = Seq::<u8>::empty();
    match frame {
        FrameView::Handshake { node_name, cookie } => {
            lemma_parse_text(node_name, text_bytes(cookie));
            lemma_parse_text(cookie, none);
            assert(text_bytes(cookie) + none =~= text_bytes(cookie));
        },
        FrameView::Subscribe { topic } => {
            lemma_parse_text(topic, none);
            assert(text_bytes(topic) + none =~= text_bytes(topic));
        },
        FrameView::Publish { topic, task } => {
            lemma_parse_text(topic, task_bytes(task));
            lemma_parse_task(task, none);
            assert(task_bytes(task) + none =~= task_bytes(task));
        },
        FrameView::Event { topic, task } => {
            lemma_parse_text(topic, task_bytes(task));
            lemma_parse_task(task, none);
            assert(task_bytes(task) + none =~= task_bytes(task));
        },
    }
}

/// Every frame that has bytes is read back from them as it was.
pub proof fn law_frame_round_trip(frame: FrameView)
    requires
        encodable(frame),
    ensures
        parse_frame(frame_bytes(frame)) == Ok::<FrameView, WireError>(frame),
{
    let body = body_bytes(frame);
    let n = (1 + body.len()) as u32;
    let payload = seq![kind_of(frame)] + body;
    assert(frame_bytes(frame) =~= spec_u32_to_le_bytes(n) + payload);
    lemma_parse_u32(n, payload);
    assert(payload[0] == kind_of(frame));
    assert(payload.subrange(1, payload.len() as int) =~= body);
    lemma_parse_body(frame);
}

/// Two frames with the same bytes are the same frame.
pub proof fn law_frames_differ_in_their_bytes(a: FrameView, b: FrameView)
    requires
        encodable(a),
        encodable(b),
        frame_bytes(a) == frame_bytes(b),
    ensures
        a == b,
{
    law_frame_round_trip(a);
    law_frame_round_trip(b);
}

} // verus!
