//! The engine's laws: what holds across whole runs of events, proved once
//! and for all over the model transitions that every engine method is
//! verified against.

use vstd::prelude::*;
use crate::codec::request_line_spec;
use crate::engine::{
    commit_acts, commit_model, down_model, feed_model, im_event_model, motion_model, poll_acts,
    poll_model, resize_model, resize_trigger, undo_acts, undo_model, up_acts, up_model, Act,
    ImEvent, Model, RESIZE_INCREMENT,
};
use crate::ink::InkPoint;

verus! {

/// One motion event's payload, for stating laws over whole sequences of
/// events.
pub struct MotionSample {
    pub x: i32,
    pub y: i32,
    pub time: u32,
}

/// The state after a sequence of motion events, applied in arrival order.
pub open spec fn run_motions(m: Model, ms: Seq<MotionSample>) -> Model
    decreases ms.len(),
{
    if ms.len() == 0 {
        m
    } else {
        run_motions(motion_model(m, ms[0].x, ms[0].y, ms[0].time), ms.drop_first())
    }
}

/// The samples that a motion sequence records under a fixed pressure.
pub open spec fn recorded_points(ms: Seq<MotionSample>, pressure: Option<u32>) -> Seq<InkPoint> {
    Seq::new(ms.len(), |i: int| InkPoint { x: ms[i].x, y: ms[i].y, time: ms[i].time, pressure })
}

/// While Drawing, motion events only append to the last stroke: one
/// sample each, in arrival order, under the pressure that held.
proof fn lemma_run_motions_appends(m: Model, ms: Seq<MotionSample>)
    requires
        m.pen_down,
        m.ink.len() >= 1,
    ensures
        ({
            let r = run_motions(m, ms);
            &&& r.pen_down
            &&& r.pressure == m.pressure
            &&& r.ink.len() == m.ink.len()
            &&& forall|j: int| 0 <= j < m.ink.len() - 1 ==> r.ink[j] == m.ink[j]
            &&& r.ink.last() == m.ink.last() + recorded_points(ms, m.pressure)
        }),
    decreases ms.len(),
{
    if ms.len() == 0 {
        assert(m.ink.last() + recorded_points(ms, m.pressure) =~= m.ink.last());
    } else {
        let m1 = motion_model(m, ms[0].x, ms[0].y, ms[0].time);
        let p0 = InkPoint { x: ms[0].x, y: ms[0].y, time: ms[0].time, pressure: m.pressure };
        assert(m1.ink.last() == m.ink.last().push(p0));
        lemma_run_motions_appends(m1, ms.drop_first());
        let r = run_motions(m, ms);
        assert(m.ink.last().push(p0) + recorded_points(ms.drop_first(), m.pressure)
            =~= m.ink.last() + recorded_points(ms, m.pressure));
    }
}

/// For every run down, motion*, up: the down opens one new stroke, and
/// that stroke ends holding exactly one sample per motion event observed
/// while Drawing, in arrival order; the up appends nothing.
pub proof fn lemma_stroke_capture(m: Model, ms: Seq<MotionSample>)
    ensures
        ({
            let done = up_model(run_motions(down_model(m), ms));
            &&& done.ink.len() == m.ink.len() + 1
            &&& done.ink.last().len() == ms.len()
            &&& forall|i: int|
                0 <= i < ms.len() ==> done.ink.last()[i] == (InkPoint {
                    x: ms[i].x,
                    y: ms[i].y,
                    time: ms[i].time,
                    pressure: m.pressure,
                })
        }),
{
    lemma_run_motions_appends(down_model(m), ms);
    let r = run_motions(down_model(m), ms);
    assert(Seq::<InkPoint>::empty() + recorded_points(ms, m.pressure) =~= recorded_points(
        ms,
        m.pressure,
    ));
    assert(up_model(r).ink == r.ink);
}

/// Undo on an empty session is a no-op: the state is unchanged and the
/// session stays empty.
pub proof fn lemma_undo_empty_noop(m: Model)
    requires
        m.ink.len() == 0,
    ensures
        undo_model(m) == m,
        undo_model(m).ink.len() == 0,
{
}

/// Commit always empties the session and returns the canvas to the
/// configured original dimensions, whatever held before.
pub proof fn lemma_commit_resets(m: Model)
    ensures
        commit_model(m).ink.len() == 0,
        commit_model(m).preedit.len() == 0,
        commit_model(m).width == m.original_width,
        commit_model(m).height == m.original_height,
        commit_model(m).max_x == 0,
        commit_model(m).max_y == 0,
{
}

/// No resize, automatic or restoring, touches the configured original
/// dimensions; that is why a commit after any number of auto-resizes
/// still returns to them.
pub proof fn lemma_resize_keeps_original(m: Model, width: u32, height: u32)
    ensures
        resize_model(m, width, height).original_width == m.original_width,
        resize_model(m, width, height).original_height == m.original_height,
        up_model(m).original_width == m.original_width,
        up_model(m).original_height == m.original_height,
{
}

/// The auto-resize policy at pen-up: it fires if and only if the tracked
/// maximum x extent exceeds 8/10 of the width at that moment; firing
/// grows the width by exactly the fixed increment — so strictly — and
/// never changes the height.
pub proof fn lemma_auto_resize_policy(m: Model)
    requires
        m.wf(),
    ensures
        resize_trigger(m) <==> 10 * m.max_x > 8 * m.width,
        up_model(m).height == m.height,
        resize_trigger(m) ==> up_model(m).width == m.width + RESIZE_INCREMENT,
        resize_trigger(m) ==> up_model(m).width > m.width,
        !resize_trigger(m) ==> up_model(m).width == m.width,
{
    if resize_trigger(m) {
        // The trigger bounds the width: 4 * width < 5 * max_x, and max_x
        // is an i32, so width + RESIZE_INCREMENT cannot overflow.
        assert(m.width + RESIZE_INCREMENT <= u32::MAX);
    }
}

/// Every recognition request names the dimensions that hold at request
/// time: after the pen-up policy ran, or unchanged under undo.
pub proof fn lemma_request_names_current_size(m: Model)
    ensures
        up_acts(m).len() >= 1,
        up_acts(m).last() == (Act::Request {
            line: request_line_spec(up_model(m).width, up_model(m).height),
        }),
        undo_acts(m).len() >= 1,
        undo_acts(m).last() == (Act::Request {
            line: request_line_spec(undo_model(m).width, undo_model(m).height),
        }),
{
    let m1 = Model { pen_down: false, ..m };
    let tail = seq![
        Act::Request { line: request_line_spec(up_model(m).width, up_model(m).height) },
    ];
    if resize_trigger(m1) {
        let part = crate::engine::resize_acts(
            m1,
            (m1.width + RESIZE_INCREMENT) as u32,
            m1.height,
        );
        assert((part + tail).last() == tail[0]);
    } else {
        assert((Seq::<Act>::empty() + tail).last() == tail[0]);
    }
    let rtail = seq![Act::Request { line: request_line_spec(m.width, m.height) }];
    assert((crate::engine::redraw_acts(undo_model(m).ink) + rtail).last() == rtail[0]);
}

/// The serial discipline: a host `done` advances the serial by exactly
/// one, no other session event moves it, and every preedit or commit
/// message is tagged with the serial holding at the moment it is emitted.
pub proof fn lemma_serial_discipline(m: Model, ev: ImEvent)
    requires
        m.serial < u32::MAX,
    ensures
        im_event_model(m, ImEvent::Done).serial == m.serial + 1,
        !(ev is Done) ==> im_event_model(m, ev).serial == m.serial,
        crate::linebuf::line_split_spec(m.pending) is Some ==> poll_acts(m) == seq![
            Act::Preedit { text: poll_model(m).preedit, serial: m.serial },
        ],
        crate::linebuf::line_split_spec(m.pending) is None ==> poll_acts(m) == Seq::<
            Act,
        >::empty(),
        commit_acts(m)[0] == (Act::Commit { text: m.preedit, serial: m.serial }),
{
}

/// A response delivered in any two pieces leaves the engine exactly as
/// the same bytes delivered whole: feeding concatenates, and everything
/// after feeding is a function of the state alone.
pub proof fn lemma_split_delivery(m: Model, a: Seq<u8>, b: Seq<u8>)
    ensures
        feed_model(feed_model(m, a), b) == feed_model(m, a + b),
        poll_model(feed_model(feed_model(m, a), b)) == poll_model(feed_model(m, a + b)),
{
    assert(feed_model(feed_model(m, a), b) =~~= feed_model(m, a + b));
}

} // verus!

