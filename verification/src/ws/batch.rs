//! Outbound coalescing for the writer task. A fast serial device or a chatty
//! compiler streams many tiny `monitorData` / `log` chunks; the writer buffers
//! them over a short window and merges consecutive same-`id` chunks into one
//! frame. The wire envelope is unchanged (a payload just carries a longer
//! concatenated string), so chunk boundaries within a stream carry no meaning.
//!
//! Only `log` / `monitorData` are batched; terminal (`result`/`error`),
//! `progress` and `event` messages bypass the buffer and are sent promptly.

use vstd::prelude::*;
use crate::ws::protocol::{BodyView, Response, ResponseBody, ResponseView, responses_view};

verus! {

/// A body is streamed text (`log` or `monitorData`).
pub open spec fn spec_is_batchable(b: BodyView) -> bool {
    b is Log || b is MonitorData
}

/// Whether a response may be buffered/coalesced (streamed text). Terminal,
/// progress and event messages return `false` and are sent promptly.
pub fn is_batchable(body: &ResponseBody) -> (r: bool)
    ensures
        r == spec_is_batchable(body@),
{
    match body {
        ResponseBody::Log { .. } => true,
        ResponseBody::MonitorData { .. } => true,
        _ => false,
    }
}

/// The entry that results from appending `next` onto `last`, when the two merge:
/// same `id` and both `log`, or both `monitorData`.
pub open spec fn merged(last: ResponseView, next: ResponseView) -> Option<ResponseView> {
    if last.id == next.id {
        match (last.body, next.body) {
            (BodyView::Log(a), BodyView::Log(b)) => Some(ResponseView { id: last.id, body: BodyView::Log(a + b) }),
            (BodyView::MonitorData(a), BodyView::MonitorData(b)) => Some(
                ResponseView { id: last.id, body: BodyView::MonitorData(a + b) },
            ),
            _ => None,
        }
    } else {
        None
    }
}

/// The buffer after `push_coalesced`: the tail absorbs `next` when they merge,
/// otherwise `next` is appended.
pub open spec fn coalesce(buf: Seq<ResponseView>, next: ResponseView) -> Seq<ResponseView> {
    if buf.len() > 0 && merged(buf.last(), next) is Some {
        buf.drop_last().push(merged(buf.last(), next)->0)
    } else {
        buf.push(next)
    }
}

/// Append `resp` to the pending buffer, merging into the tail when it is the same
/// `id` and the same streamed-text variant (`log`+`log`, `monitorData`+
/// `monitorData`). Otherwise push it as a new entry. Order is always preserved.
pub fn push_coalesced(buf: &mut Vec<Response>, resp: Response)
    ensures
        responses_view(final(buf)@) == coalesce(responses_view(old(buf)@), resp@),
{
    let ghost old_views = responses_view(buf@);
    let n = buf.len();
    if n > 0 && buf[n - 1].id == resp.id {
        let last = buf.pop().unwrap();
        proof {
            assert(responses_view(buf@) =~= old_views.drop_last());
            assert(old_views.last() == last@);
        }
        let Response { id, body } = last;
        let Response { id: rid, body: rbody } = resp;
        match (body, rbody) {
            (ResponseBody::Log { chunk }, ResponseBody::Log { chunk: more }) => {
                let mut chunk = chunk;
                chunk.append(more.as_str());
                buf.push(Response { id, body: ResponseBody::Log { chunk } });
            },
            (ResponseBody::MonitorData { data }, ResponseBody::MonitorData { data: more }) => {
                let mut data = data;
                data.append(more.as_str());
                buf.push(Response { id, body: ResponseBody::MonitorData { data } });
            },
            (b, rb) => {
                buf.push(Response { id, body: b });
                buf.push(Response { id: rid, body: rb });
            },
        }
        proof {
            assert(responses_view(buf@) =~= coalesce(old_views, resp@));
        }
    } else {
        buf.push(resp);
        proof {
            assert(responses_view(buf@) =~= coalesce(old_views, resp@));
        }
    }
}

/// No two neighbouring entries could have been merged: the shape of a buffer
/// built only through `push_coalesced`.
pub open spec fn fully_coalesced(buf: Seq<ResponseView>) -> bool {
    forall|i: int| 0 <= i < buf.len() - 1 ==> #[trigger] merged(buf[i], buf[i + 1]) is None
}

/// Coalescing keeps a buffer fully coalesced: a buffer built by successive
/// `push_coalesced` calls never holds two neighbouring entries that share an
/// `id` and a streamed-text variant.
pub proof fn lemma_coalesce_keeps_fully_coalesced(buf: Seq<ResponseView>, next: ResponseView)
    requires
        fully_coalesced(buf),
    ensures
        fully_coalesced(coalesce(buf, next)),
{
    let out = coalesce(buf, next);
    assert forall|i: int| 0 <= i < out.len() - 1 implies #[trigger] merged(out[i], out[i + 1]) is None by {
        if buf.len() > 0 && merged(buf.last(), next) is Some {
            assert(out[i] == buf[i]);
            if i + 1 < buf.len() - 1 {
                assert(out[i + 1] == buf[i + 1]);
            } else {
                assert(merged(buf[i], buf[i + 1]) is None);
            }
        } else {
            assert(out[i] == buf[i]);
            if i + 1 < buf.len() {
                assert(out[i + 1] == buf[i + 1]);
            }
        }
    }
}

/// Coalescing changes at most the last entry: every entry before the old tail
/// stays as it was, the buffer grows by at most one, and the new tail carries the
/// pushed message's `id`.
pub proof fn lemma_coalesce_preserves_order(buf: Seq<ResponseView>, next: ResponseView)
    ensures
        ({
            let out = coalesce(buf, next);
            &&& buf.len() <= out.len() <= buf.len() + 1
            &&& out.len() > 0
            &&& out.last().id == next.id
            &&& forall|i: int| 0 <= i < buf.len() - 1 ==> out[i] == buf[i]
            &&& out.len() == buf.len() + 1 ==> out.drop_last() == buf && out.last() == next
        }),
{
    let out = coalesce(buf, next);
    if buf.len() > 0 && merged(buf.last(), next) is Some {
    } else {
        assert(out.drop_last() =~= buf);
    }
}

/// Only streamed text merges: a terminal, progress or event message is always
/// appended as its own entry.
pub proof fn lemma_non_streamed_never_merges(buf: Seq<ResponseView>, next: ResponseView)
    requires
        !spec_is_batchable(next.body),
    ensures
        coalesce(buf, next) == buf.push(next),
{
}

/// The streamed kinds of text.
pub enum StreamKind {
    Log,
    MonitorData,
}

/// The text an entry contributes to the stream of `id` and `kind`.
pub open spec fn text_in(v: ResponseView, id: Seq<char>, kind: StreamKind) -> Seq<char> {
    if v.id == id {
        match (v.body, kind) {
            (BodyView::Log(t), StreamKind::Log) => t,
            (BodyView::MonitorData(t), StreamKind::MonitorData) => t,
            _ => Seq::empty(),
        }
    } else {
        Seq::empty()
    }
}

/// The whole text of one stream (one `id`, one kind) across a buffer, in order.
pub open spec fn stream_text(buf: Seq<ResponseView>, id: Seq<char>, kind: StreamKind) -> Seq<char>
    decreases buf.len(),
{
    if buf.len() == 0 {
        Seq::empty()
    } else {
        stream_text(buf.drop_last(), id, kind) + text_in(buf.last(), id, kind)
    }
}

/// Chunk boundaries carry no meaning: after coalescing, the text of every
/// stream is exactly the text it had before followed by whatever the pushed
/// message contributes to it. Nothing is lost, duplicated or reordered.
pub proof fn lemma_coalesce_preserves_stream_text(
    buf: Seq<ResponseView>,
    next: ResponseView,
    id: Seq<char>,
    kind: StreamKind,
)
    ensures
        stream_text(coalesce(buf, next), id, kind) == stream_text(buf, id, kind) + text_in(next, id, kind),
{
    let out = coalesce(buf, next);
    if buf.len() > 0 && merged(buf.last(), next) is Some {
        let m = merged(buf.last(), next)->0;
        assert(out.drop_last() =~= buf.drop_last());
        assert(text_in(m, id, kind) =~= text_in(buf.last(), id, kind) + text_in(next, id, kind));
        assert(stream_text(buf, id, kind) == stream_text(buf.drop_last(), id, kind) + text_in(buf.last(), id, kind));
        assert(stream_text(out, id, kind) =~= stream_text(buf, id, kind) + text_in(next, id, kind));
    } else {
        assert(out.drop_last() =~= buf);
    }
}

} // verus!
