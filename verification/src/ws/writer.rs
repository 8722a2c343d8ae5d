//! The writer path of a session: the responses queued for the socket become the
//! frames written to it. Streamed text (`log`, `monitorData`) waits in a buffer
//! over a short window and is coalesced there ([`push_coalesced`]); any other
//! message first flushes the buffer, to keep order, and is then written at once.
//! When the window elapses, or when every sender is gone, the buffer is flushed.
//!
//! The socket driver owns the timer and the socket; [`writer_step`] decides, for
//! each event, what to write and what to do with the timer.

use vstd::prelude::*;
use crate::ws::batch::{coalesce, is_batchable, merged, push_coalesced, spec_is_batchable};
use crate::ws::protocol::{BodyView, Response, ResponseView, responses_view};

verus! {

/// What wakes the writer.
#[derive(Debug)]
pub enum WriterEvent {
    /// A response was queued on the session's channel.
    Queued(Response),
    /// The coalescing window armed by a streamed chunk has elapsed.
    FlushDue,
    /// Every sender is gone: the session is tearing down.
    SendersGone,
}

pub enum WriterEventView {
    Queued(ResponseView),
    FlushDue,
    SendersGone,
}

impl View for WriterEvent {
    type V = WriterEventView;

    open spec fn view(&self) -> WriterEventView {
        match self {
            WriterEvent::Queued(r) => WriterEventView::Queued(r@),
            WriterEvent::FlushDue => WriterEventView::FlushDue,
            WriterEvent::SendersGone => WriterEventView::SendersGone,
        }
    }
}

/// What to do with the coalescing window's timer.
#[derive(Debug, Clone, Copy, PartialEq, Eq, Structural)]
pub enum Timer {
    /// Start the window, unless it is already running.
    Arm,
    /// Stop the window: the buffer is empty.
    Disarm,
}

/// What one writer event asks of the socket driver.
#[derive(Debug)]
pub struct WriterStep {
    /// Write these frames, in order.
    pub frames: Vec<Response>,
    pub timer: Timer,
    /// The writer is done once the frames are written.
    pub stop: bool,
}

/// The frames one event writes and the buffer it leaves, from the buffer before
/// it.
pub open spec fn spec_step(buf: Seq<ResponseView>, ev: WriterEventView) -> (Seq<ResponseView>, Seq<ResponseView>) {
    match ev {
        WriterEventView::Queued(r) => if spec_is_batchable(r.body) {
            (Seq::empty(), coalesce(buf, r))
        } else {
            (buf.push(r), Seq::empty())
        },
        WriterEventView::FlushDue => (buf, Seq::empty()),
        WriterEventView::SendersGone => (buf, Seq::empty()),
    }
}

/// Handle one writer event: buffer and coalesce streamed text (arming the
/// window), or flush the buffer, followed by the queued message when it is not
/// streamed text (disarming the window); stop when the senders are gone.
pub fn writer_step(buf: &mut Vec<Response>, event: WriterEvent) -> (r: WriterStep)
    ensures
        responses_view(r.frames@) == spec_step(responses_view(old(buf)@), event@).0,
        responses_view(final(buf)@) == spec_step(responses_view(old(buf)@), event@).1,
        r.timer == (if event@ matches WriterEventView::Queued(q) && spec_is_batchable(q.body) {
            Timer::Arm
        } else {
            Timer::Disarm
        }),
        r.stop == (event@ is SendersGone),
{
    match event {
        WriterEvent::Queued(resp) => {
            if is_batchable(&resp.body) {
                push_coalesced(buf, resp);
                WriterStep { frames: Vec::new(), timer: Timer::Arm, stop: false }
            } else {
                let mut frames: Vec<Response> = Vec::new();
                std::mem::swap(&mut frames, buf);
                let ghost before = frames@;
                frames.push(resp);
                proof {
                    assert(responses_view(frames@) =~= responses_view(before).push(resp@));
                    assert(responses_view(buf@) =~= Seq::<ResponseView>::empty());
                }
                WriterStep { frames, timer: Timer::Disarm, stop: false }
            }
        },
        WriterEvent::FlushDue => {
            let mut frames: Vec<Response> = Vec::new();
            std::mem::swap(&mut frames, buf);
            proof {
                assert(responses_view(buf@) =~= Seq::<ResponseView>::empty());
            }
            WriterStep { frames, timer: Timer::Disarm, stop: false }
        },
        WriterEvent::SendersGone => {
            let mut frames: Vec<Response> = Vec::new();
            std::mem::swap(&mut frames, buf);
            proof {
                assert(responses_view(buf@) =~= Seq::<ResponseView>::empty());
            }
            WriterStep { frames, timer: Timer::Disarm, stop: true }
        },
    }
}

/// All the frames a run of events writes, and the buffer it leaves, starting
/// from an empty buffer.
pub open spec fn run_writer(events: Seq<WriterEventView>) -> (Seq<ResponseView>, Seq<ResponseView>)
    decreases events.len(),
{
    if events.len() == 0 {
        (Seq::empty(), Seq::empty())
    } else {
        let prev = run_writer(events.drop_last());
        let st = spec_step(prev.1, events.last());
        (prev.0 + st.0, st.1)
    }
}

/// The responses queued during a run of events, in order.
pub open spec fn queued(events: Seq<WriterEventView>) -> Seq<ResponseView>
    decreases events.len(),
{
    if events.len() == 0 {
        Seq::empty()
    } else {
        queued(events.drop_last()) + match events.last() {
            WriterEventView::Queued(r) => seq![r],
            _ => Seq::empty(),
        }
    }
}

/// `t` ends with `u`.
pub open spec fn has_suffix(t: Seq<char>, u: Seq<char>) -> bool {
    u.len() <= t.len() && t.subrange(t.len() - u.len(), t.len() as int) == u
}

/// `y` could be a merged frame whose last part is `r`: the same `id`, both `log`
/// or both `monitorData`, and `y`'s text ends with `r`'s.
pub open spec fn splittable(y: ResponseView, r: ResponseView) -> bool {
    y.id == r.id && match (y.body, r.body) {
        (BodyView::Log(a), BodyView::Log(b)) => has_suffix(a, b),
        (BodyView::MonitorData(a), BodyView::MonitorData(b)) => has_suffix(a, b),
        _ => false,
    }
}

/// What is left of `y` once its last part `r` is taken off.
pub open spec fn unmerge(y: ResponseView, r: ResponseView) -> ResponseView {
    match (y.body, r.body) {
        (BodyView::Log(a), BodyView::Log(b)) => ResponseView {
            id: y.id,
            body: BodyView::Log(a.subrange(0, a.len() - b.len())),
        },
        (BodyView::MonitorData(a), BodyView::MonitorData(b)) => ResponseView {
            id: y.id,
            body: BodyView::MonitorData(a.subrange(0, a.len() - b.len())),
        },
        _ => y,
    }
}

/// `frames` are the responses `rs` in order, except that runs of consecutive
/// same-`id` `log` (or same-`id` `monitorData`) responses may be written as one
/// frame carrying their concatenated text. Every other response is written as
/// itself; nothing is dropped, duplicated or reordered.
pub open spec fn merge_of(frames: Seq<ResponseView>, rs: Seq<ResponseView>) -> bool
    decreases rs.len(),
{
    if rs.len() == 0 {
        frames.len() == 0
    } else if frames.len() == 0 {
        false
    } else {
        ||| frames.last() == rs.last() && merge_of(frames.drop_last(), rs.drop_last())
        ||| splittable(frames.last(), rs.last()) && merge_of(
            frames.drop_last().push(unmerge(frames.last(), rs.last())),
            rs.drop_last(),
        )
    }
}

proof fn lemma_merged_splits(x: ResponseView, r: ResponseView)
    requires
        merged(x, r) is Some,
    ensures
        splittable(merged(x, r)->0, r),
        unmerge(merged(x, r)->0, r) == x,
{
    match (x.body, r.body) {
        (BodyView::Log(a), BodyView::Log(b)) => {
            assert((a + b).subrange(a.len() as int, (a + b).len() as int) =~= b);
            assert((a + b).subrange(0, a.len() as int) =~= a);
        },
        (BodyView::MonitorData(a), BodyView::MonitorData(b)) => {
            assert((a + b).subrange(a.len() as int, (a + b).len() as int) =~= b);
            assert((a + b).subrange(0, a.len() as int) =~= a);
        },
        _ => {},
    }
}

proof fn lemma_merge_of_push(frames: Seq<ResponseView>, rs: Seq<ResponseView>, r: ResponseView)
    requires
        merge_of(frames, rs),
    ensures
        merge_of(frames.push(r), rs.push(r)),
{
    assert(frames.push(r).drop_last() =~= frames);
    assert(rs.push(r).drop_last() =~= rs);
}

proof fn lemma_merge_of_coalesce(w: Seq<ResponseView>, b: Seq<ResponseView>, rs: Seq<ResponseView>, r: ResponseView)
    requires
        merge_of(w + b, rs),
    ensures
        merge_of(w + coalesce(b, r), rs.push(r)),
{
    if b.len() > 0 && merged(b.last(), r) is Some {
        let m = merged(b.last(), r)->0;
        let f = w + coalesce(b, r);
        lemma_merged_splits(b.last(), r);
        assert(f.last() == m);
        assert(f.drop_last().push(unmerge(f.last(), r)) =~= w + b);
        assert(rs.push(r).drop_last() =~= rs);
        assert(rs.push(r).last() == r);
    } else {
        lemma_merge_of_push(w + b, rs, r);
        assert(w + coalesce(b, r) =~= (w + b).push(r));
    }
}

/// The writer writes what was queued: over any run of events, the frames
/// written, followed by the still-buffered ones, are the queued responses in
/// order with runs of same-`id` streamed text merged ([`merge_of`]). Once the
/// run ends with a flush (the window elapsed, or the senders are gone), nothing
/// is left buffered, so the frames written alone are.
pub proof fn lemma_writer_writes_merge_of_queued(events: Seq<WriterEventView>)
    ensures
        merge_of(run_writer(events).0 + run_writer(events).1, queued(events)),
        events.len() > 0 && !(events.last() is Queued) ==> run_writer(events).1.len() == 0,
    decreases events.len(),
{
    if events.len() > 0 {
        let prev_events = events.drop_last();
        lemma_writer_writes_merge_of_queued(prev_events);
        let prev = run_writer(prev_events);
        let w = prev.0;
        let b = prev.1;
        let rs = queued(prev_events);
        let out = run_writer(events);
        match events.last() {
            WriterEventView::Queued(r) => {
                assert(queued(events) =~= rs.push(r));
                if spec_is_batchable(r.body) {
                    assert(out.0 =~= w);
                    lemma_merge_of_coalesce(w, b, rs, r);
                } else {
                    lemma_merge_of_push(w + b, rs, r);
                    assert(out.0 + out.1 =~= (w + b).push(r));
                }
            },
            _ => {
                assert(queued(events) =~= rs);
                assert(out.0 + out.1 =~= w + b);
            },
        }
    }
}

/// A message that is not streamed text is never held back: it is written at
/// once, after whatever was buffered, and leaves nothing buffered.
pub proof fn lemma_non_streamed_written_at_once(buf: Seq<ResponseView>, r: ResponseView)
    requires
        !spec_is_batchable(r.body),
    ensures
        spec_step(buf, WriterEventView::Queued(r)).0 == buf.push(r),
        spec_step(buf, WriterEventView::Queued(r)).1.len() == 0,
{
}

} // verus!
