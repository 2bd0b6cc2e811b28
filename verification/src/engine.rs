//! The session-state engine.
//!
//! One struct owns everything the input method decides with: the captured
//! strokes, the pen state, the canvas dimensions and their sizing policy,
//! the host serial, the preedit text and the recognizer's read buffer.
//! Each event handler mutates that state and hands back the ordered list
//! of [`Action`]s its surroundings must perform — drawing, presenting,
//! buffer recreation, pipe writes, preedit and commit messages. The engine
//! itself performs no I/O.

use vstd::prelude::*;
use crate::codec::{request_line, request_line_spec, parse_response, parse_response_spec};
use crate::ink::{InkPoint, Stroke};
use crate::linebuf::{line_split_spec, LineBuffer};

verus! {

/// How much the canvas grows in width when ink crowds its right edge.
pub const RESIZE_INCREMENT: u32 = 100;

/// Canvas width at startup, and again after every commit.
pub const DEFAULT_WIDTH: u32 = 200;

/// Canvas height at startup, and again after every commit.
pub const DEFAULT_HEIGHT: u32 = 80;

/// One side effect the engine asks its surroundings to perform, in order.
#[derive(Debug, PartialEq, Eq)]
pub enum Action {
    /// Paint the whole canvas with the background color.
    ClearCanvas,
    /// Start a path at this point.
    MoveTo { x: i32, y: i32 },
    /// Stroke one segment; `pressure` selects the stroke weight, `None`
    /// meaning the fixed default.
    DrawSegment { x0: i32, y0: i32, x1: i32, y1: i32, pressure: Option<u32> },
    /// Attach the buffer, damage the full surface, commit the surface.
    PresentCanvas,
    /// Destroy the protocol buffer and its mapping and create a fresh pair
    /// with these dimensions.
    RecreateBuffer { width: u32, height: u32 },
    /// Write this request line to the recognizer's input pipe and flush.
    SendRequest { line: Vec<u8> },
    /// Send this provisional text, tagged with this serial, to the host.
    StagePreedit { text: Vec<u8>, serial: u32 },
    /// Send this final text, tagged with this serial, to the host.
    CommitText { text: Vec<u8>, serial: u32 },
}

/// The mathematical shape of an [`Action`].
pub enum Act {
    Clear,
    MoveTo { x: i32, y: i32 },
    Segment { x0: i32, y0: i32, x1: i32, y1: i32, pressure: Option<u32> },
    Present,
    NewBuffer { width: u32, height: u32 },
    Request { line: Seq<u8> },
    Preedit { text: Seq<u8>, serial: u32 },
    Commit { text: Seq<u8>, serial: u32 },
}

impl View for Action {
    type V = Act;

    open spec fn view(&self) -> Act {
        match self {
            Action::ClearCanvas => Act::Clear,
            Action::MoveTo { x, y } => Act::MoveTo { x: *x, y: *y },
            Action::DrawSegment { x0, y0, x1, y1, pressure } => Act::Segment {
                x0: *x0,
                y0: *y0,
                x1: *x1,
                y1: *y1,
                pressure: *pressure,
            },
            Action::PresentCanvas => Act::Present,
            Action::RecreateBuffer { width, height } => Act::NewBuffer {
                width: *width,
                height: *height,
            },
            Action::SendRequest { line } => Act::Request { line: line@ },
            Action::StagePreedit { text, serial } => Act::Preedit {
                text: text@,
                serial: *serial,
            },
            Action::CommitText { text, serial } => Act::Commit { text: text@, serial: *serial },
        }
    }
}

/// The shapes of a list of actions.
pub open spec fn act_views(acts: Seq<Action>) -> Seq<Act> {
    acts.map_values(|a: Action| a@)
}

/// The mathematical state of the engine.
#[verifier::ext_equal]
pub struct Model {
    /// Every stroke drawn since the last commit, oldest first.
    pub ink: Seq<Seq<InkPoint>>,
    /// Whether the capture state machine is in its Drawing state.
    pub pen_down: bool,
    /// The most recent raw pressure sample, if the tool reports one.
    pub pressure: Option<u32>,
    /// Current canvas width in pixels.
    pub width: u32,
    /// Current canvas height in pixels.
    pub height: u32,
    /// Width the canvas returns to on commit.
    pub original_width: u32,
    /// Height the canvas returns to on commit.
    pub original_height: u32,
    /// Largest x coordinate seen since the last resize or commit.
    pub max_x: i32,
    /// Largest y coordinate seen since the last resize or commit.
    pub max_y: i32,
    /// Whether the host has activated the input-method session.
    pub active: bool,
    /// The serial after the most recent host `done` event.
    pub serial: u32,
    /// The current provisional text.
    pub preedit: Seq<u8>,
    /// Bytes read from the recognizer but not yet forming a full line.
    pub pending: Seq<u8>,
}

impl Model {
    /// What every reachable engine state satisfies.
    pub open spec fn wf(self) -> bool {
        &&& self.width >= 1
        &&& self.height >= 1
        &&& self.original_width >= 1
        &&& self.original_height >= 1
        &&& self.max_x >= 0
        &&& self.max_y >= 0
    }
}

/// The state a fresh engine starts in.
pub open spec fn init_model(width: u32, height: u32) -> Model {
    Model {
        ink: Seq::empty(),
        pen_down: false,
        pressure: None,
        width,
        height,
        original_width: width,
        original_height: height,
        max_x: 0,
        max_y: 0,
        active: false,
        serial: 0,
        preedit: Seq::empty(),
        pending: Seq::empty(),
    }
}

/// Pen down: open a new, empty stroke and enter the Drawing state.
pub open spec fn down_model(m: Model) -> Model {
    Model { ink: m.ink.push(Seq::empty()), pen_down: true, ..m }
}

/// The sample a motion event records: the engine's current pressure rides
/// along with the reported position and time.
pub open spec fn motion_point(m: Model, x: i32, y: i32, time: u32) -> InkPoint {
    InkPoint { x, y, time, pressure: m.pressure }
}

/// Motion while Drawing: append the sample to the last stroke and widen
/// the running extent tracker. Motion with the pen up changes nothing.
pub open spec fn motion_model(m: Model, x: i32, y: i32, time: u32) -> Model {
    if m.pen_down && m.ink.len() > 0 {
        Model {
            ink: m.ink.update(m.ink.len() - 1, m.ink.last().push(motion_point(m, x, y, time))),
            max_x: if x > m.max_x {
                x
            } else {
                m.max_x
            },
            max_y: if y > m.max_y {
                y
            } else {
                m.max_y
            },
            ..m
        }
    } else {
        m
    }
}

/// The incremental render a motion event asks for: a segment from the
/// previous sample, or the start of a path for a stroke's first sample,
/// then a presentation of the canvas.
pub open spec fn motion_acts(m: Model, x: i32, y: i32, time: u32) -> Seq<Act> {
    if m.pen_down && m.ink.len() > 0 {
        if m.ink.last().len() > 0 {
            let prev = m.ink.last().last();
            seq![
                Act::Segment { x0: prev.x, y0: prev.y, x1: x, y1: y, pressure: m.pressure },
                Act::Present,
            ]
        } else {
            seq![Act::MoveTo { x, y }, Act::Present]
        }
    } else {
        Seq::empty()
    }
}

/// The full-canvas redraw of one stroke after its first sample: one
/// segment per consecutive pair, each with the weight of its later sample.
pub open spec fn stroke_tail_acts(ps: Seq<InkPoint>, i: int) -> Seq<Act>
    decreases ps.len() - i,
{
    if i < 1 || i >= ps.len() {
        Seq::empty()
    } else {
        seq![
            Act::Segment {
                x0: ps[i - 1].x,
                y0: ps[i - 1].y,
                x1: ps[i].x,
                y1: ps[i].y,
                pressure: ps[i].pressure,
            },
        ] + stroke_tail_acts(ps, i + 1)
    }
}

/// The full-canvas redraw of one stroke.
pub open spec fn stroke_acts(ps: Seq<InkPoint>) -> Seq<Act> {
    if ps.len() == 0 {
        Seq::empty()
    } else {
        seq![Act::MoveTo { x: ps[0].x, y: ps[0].y }] + stroke_tail_acts(ps, 1)
    }
}

/// The redraws of the strokes from `j` on, in order.
pub open spec fn strokes_acts(ink: Seq<Seq<InkPoint>>, j: int) -> Seq<Act>
    decreases ink.len() - j,
{
    if j < 0 || j >= ink.len() {
        Seq::empty()
    } else {
        stroke_acts(ink[j]) + strokes_acts(ink, j + 1)
    }
}

/// A full redraw: clear, repaint every stroke, present.
pub open spec fn redraw_acts(ink: Seq<Seq<InkPoint>>) -> Seq<Act> {
    seq![Act::Clear] + strokes_acts(ink, 0) + seq![Act::Present]
}

/// A resize forgets the extent tracker and takes the new dimensions.
pub open spec fn resize_model(m: Model, width: u32, height: u32) -> Model {
    Model { width, height, max_x: 0, max_y: 0, ..m }
}

/// A resize recreates the buffer, redraws every stroke onto it, and
/// presents the result.
pub open spec fn resize_acts(m: Model, width: u32, height: u32) -> Seq<Act> {
    seq![Act::NewBuffer { width, height }] + redraw_acts(m.ink) + seq![Act::Present]
}

/// The auto-resize policy: grow exactly when the tracked maximum x extent
/// exceeds 8/10 of the current width.
pub open spec fn resize_trigger(m: Model) -> bool {
    5 * m.max_x > 4 * m.width
}

/// Pen up: leave the Drawing state, then grow the canvas if the policy
/// asks for it.
pub open spec fn up_model(m: Model) -> Model {
    let m1 = Model { pen_down: false, ..m };
    if resize_trigger(m1) {
        resize_model(m1, (m1.width + RESIZE_INCREMENT) as u32, m1.height)
    } else {
        m1
    }
}

/// Pen up asks for the resize's work when the policy triggers, then always
/// for a recognition request naming the dimensions that now hold.
pub open spec fn up_acts(m: Model) -> Seq<Act> {
    let m1 = Model { pen_down: false, ..m };
    let m2 = up_model(m);
    let resize_part = if resize_trigger(m1) {
        resize_acts(m1, (m1.width + RESIZE_INCREMENT) as u32, m1.height)
    } else {
        Seq::empty()
    };
    resize_part + seq![Act::Request { line: request_line_spec(m2.width, m2.height) }]
}

/// Undo discards the last stroke, if any.
pub open spec fn undo_model(m: Model) -> Model {
    if m.ink.len() > 0 {
        Model { ink: m.ink.drop_last(), ..m }
    } else {
        m
    }
}

/// Undo redraws what remains and re-requests recognition at the current
/// dimensions.
pub open spec fn undo_acts(m: Model) -> Seq<Act> {
    redraw_acts(undo_model(m).ink) + seq![
        Act::Request { line: request_line_spec(m.width, m.height) },
    ]
}

/// Commit clears the session and returns the canvas to its original
/// dimensions.
pub open spec fn commit_model(m: Model) -> Model {
    Model {
        ink: Seq::empty(),
        preedit: Seq::empty(),
        width: m.original_width,
        height: m.original_height,
        max_x: 0,
        max_y: 0,
        ..m
    }
}

/// Commit sends the preedit as final text under the current serial, then
/// does the restoring resize's work on the now-empty session.
pub open spec fn commit_acts(m: Model) -> Seq<Act> {
    seq![
        Act::Commit { text: m.preedit, serial: m.serial },
        Act::NewBuffer { width: m.original_width, height: m.original_height },
        Act::Clear,
        Act::Present,
        Act::Present,
    ]
}

/// The engine itself. Fields mirror [`Model`]; the view says how.
pub struct Engine {
    strokes: Vec<Stroke>,
    is_pen_down: bool,
    pressure: Option<u32>,
    width: u32,
    height: u32,
    original_width: u32,
    original_height: u32,
    max_x: i32,
    max_y: i32,
    active: bool,
    serial: u32,
    preedit: Vec<u8>,
    pending: LineBuffer,
}

impl View for Engine {
    type V = Model;

    closed spec fn view(&self) -> Model {
        Model {
            ink: Seq::new(self.strokes@.len(), |i: int| self.strokes@[i]@),
            pen_down: self.is_pen_down,
            pressure: self.pressure,
            width: self.width,
            height: self.height,
            original_width: self.original_width,
            original_height: self.original_height,
            max_x: self.max_x,
            max_y: self.max_y,
            active: self.active,
            serial: self.serial,
            preedit: self.preedit@,
            pending: self.pending@,
        }
    }
}

impl Engine {
    /// A fresh engine for a canvas of the given dimensions.
    pub fn new(width: u32, height: u32) -> (e: Engine)
        requires
            1 <= width,
            1 <= height,
        ensures
            e@ == init_model(width, height),
            e@.wf(),
    {
        let e = Engine {
            strokes: Vec::new(),
            is_pen_down: false,
            pressure: None,
            width,
            height,
            original_width: width,
            original_height: height,
            max_x: 0,
            max_y: 0,
            active: false,
            serial: 0,
            preedit: Vec::new(),
            pending: LineBuffer::new(),
        };
        proof {
            assert(e@ =~~= init_model(width, height));
        }
        e
    }

    /// A pressure sample from the tool; the next motions record it.
    pub fn on_pressure(&mut self, pressure: u32)
        ensures
            final(self)@ == (Model { pressure: Some(pressure), ..old(self)@ }),
    {
        self.pressure = Some(pressure);
        proof {
            assert(self@ =~~= (Model { pressure: Some(pressure), ..old(self)@ }));
        }
    }

    /// Forget the pressure sample; sources without pressure (the plain
    /// pointer) clear it before down and up.
    pub fn clear_pressure(&mut self)
        ensures
            final(self)@ == (Model { pressure: None, ..old(self)@ }),
    {
        self.pressure = None;
        proof {
            assert(self@ =~~= (Model { pressure: None, ..old(self)@ }));
        }
    }

    /// Pen down: open a new stroke and enter the Drawing state.
    pub fn on_down(&mut self) -> (acts: Vec<Action>)
        ensures
            final(self)@ == down_model(old(self)@),
            act_views(acts@) == Seq::<Act>::empty(),
    {
        self.strokes.push(Stroke::new());
        self.is_pen_down = true;
        let acts: Vec<Action> = Vec::new();
        proof {
            assert(self@.ink =~~= down_model(old(self)@).ink);
            assert(self@ =~~= down_model(old(self)@));
            assert(act_views(acts@) =~= Seq::<Act>::empty());
        }
        acts
    }

    /// Motion: record a sample while Drawing and render its increment.
    ///
    /// A motion while Drawing grows the last stroke, so one must exist;
    /// a down always opens one before Drawing begins.
    pub fn on_motion(&mut self, x: i32, y: i32, time: u32) -> (acts: Vec<Action>)
        requires
            old(self)@.pen_down ==> old(self)@.ink.len() >= 1,
        ensures
            final(self)@ == motion_model(old(self)@, x, y, time),
            act_views(acts@) == motion_acts(old(self)@, x, y, time),
    {
        let mut acts: Vec<Action> = Vec::new();
        if self.is_pen_down {
            let mut s = self.strokes.pop().unwrap();
            let slen = s.points.len();
            if slen > 0 {
                let prev = s.points[slen - 1];
                acts.push(
                    Action::DrawSegment {
                        x0: prev.x,
                        y0: prev.y,
                        x1: x,
                        y1: y,
                        pressure: self.pressure,
                    },
                );
            } else {
                acts.push(Action::MoveTo { x, y });
            }
            acts.push(Action::PresentCanvas);
            s.push_point(InkPoint { x, y, time, pressure: self.pressure });
            self.strokes.push(s);
            if x > self.max_x {
                self.max_x = x;
            }
            if y > self.max_y {
                self.max_y = y;
            }
        }
        proof {
            assert(self@.ink =~~= motion_model(old(self)@, x, y, time).ink);
            assert(self@ =~~= motion_model(old(self)@, x, y, time));
            assert(act_views(acts@) =~= motion_acts(old(self)@, x, y, time));
        }
        acts
    }
}

/// The redraw commands for one stroke.
fn stroke_actions(s: &Stroke) -> (acts: Vec<Action>)
    ensures
        act_views(acts@) == stroke_acts(s@),
{
    let mut acts: Vec<Action> = Vec::new();
    let len = s.points.len();
    if len == 0 {
        proof {
            assert(act_views(acts@) =~= stroke_acts(s@));
        }
        return acts;
    }
    let first = s.points[0];
    acts.push(Action::MoveTo { x: first.x, y: first.y });
    proof {
        assert(act_views(acts@) =~= seq![Act::MoveTo { x: s@[0].x, y: s@[0].y }]);
        assert(act_views(acts@) + stroke_tail_acts(s@, 1) =~= stroke_acts(s@));
    }
    let mut i: usize = 1;
    while i < len
        invariant
            1 <= i <= len,
            len == s@.len(),
            act_views(acts@) + stroke_tail_acts(s@, i as int) == stroke_acts(s@),
        decreases len - i,
    {
        let prev = s.points[i - 1];
        let cur = s.points[i];
        let ghost before = act_views(acts@);
        acts.push(
            Action::DrawSegment {
                x0: prev.x,
                y0: prev.y,
                x1: cur.x,
                y1: cur.y,
                pressure: cur.pressure,
            },
        );
        proof {
            let seg = Act::Segment {
                x0: s@[i - 1].x,
                y0: s@[i - 1].y,
                x1: s@[i as int].x,
                y1: s@[i as int].y,
                pressure: s@[i as int].pressure,
            };
            assert(act_views(acts@) =~= before + seq![seg]);
            assert(stroke_tail_acts(s@, i as int) == seq![seg] + stroke_tail_acts(s@, i + 1));
            assert(before + seq![seg] + stroke_tail_acts(s@, i + 1) =~= before + stroke_tail_acts(
                s@,
                i as int,
            ));
        }
        i = i + 1;
    }
    proof {
        assert(act_views(acts@) + stroke_tail_acts(s@, len as int) =~= act_views(acts@));
    }
    acts
}

impl Engine {
    /// The full redraw of everything in the session, as the commands that
    /// paint it.
    fn redraw_actions(&self) -> (acts: Vec<Action>)
        ensures
            act_views(acts@) == redraw_acts(self@.ink),
    {
        let ghost ink = self@.ink;
        let mut acts: Vec<Action> = Vec::new();
        acts.push(Action::ClearCanvas);
        let n = self.strokes.len();
        proof {
            assert(act_views(acts@) =~= seq![Act::Clear]);
            assert(act_views(acts@) + strokes_acts(ink, 0) =~= seq![Act::Clear] + strokes_acts(
                ink,
                0,
            ));
        }
        let mut j: usize = 0;
        while j < n
            invariant
                0 <= j <= n,
                n == self.strokes@.len(),
                ink == self@.ink,
                ink.len() == n,
                act_views(acts@) + strokes_acts(ink, j as int) == seq![Act::Clear] + strokes_acts(
                    ink,
                    0,
                ),
            decreases n - j,
        {
            let ghost before = act_views(acts@);
            let mut sa = stroke_actions(&self.strokes[j]);
            let ghost sa_view = act_views(sa@);
            acts.append(&mut sa);
            proof {
                assert(ink[j as int] == self.strokes@[j as int]@);
                assert(sa_view == stroke_acts(ink[j as int]));
                assert(act_views(acts@) =~= before + sa_view);
                assert(strokes_acts(ink, j as int) == stroke_acts(ink[j as int]) + strokes_acts(
                    ink,
                    j + 1,
                ));
                assert(before + sa_view + strokes_acts(ink, j + 1) =~= before + strokes_acts(
                    ink,
                    j as int,
                ));
            }
            j = j + 1;
        }
        acts.push(Action::PresentCanvas);
        proof {
            let without = act_views(acts@.drop_last());
            assert(strokes_acts(ink, n as int) == Seq::<Act>::empty());
            assert(without =~= without + strokes_acts(ink, n as int));
            assert(act_views(acts@) =~= without + seq![Act::Present]);
            assert(act_views(acts@) =~= redraw_acts(ink));
        }
        acts
    }

    /// Replace the canvas: forget the extent tracker, take the new
    /// dimensions, and ask for a fresh buffer, a full redraw onto it and
    /// its presentation.
    pub fn resize(&mut self, width: u32, height: u32) -> (acts: Vec<Action>)
        requires
            1 <= width,
            1 <= height,
        ensures
            final(self)@ == resize_model(old(self)@, width, height),
            act_views(acts@) == resize_acts(old(self)@, width, height),
    {
        self.max_x = 0;
        self.max_y = 0;
        self.width = width;
        self.height = height;
        let mut acts: Vec<Action> = Vec::new();
        acts.push(Action::RecreateBuffer { width, height });
        let mut rd = self.redraw_actions();
        let ghost rd_view = act_views(rd@);
        acts.append(&mut rd);
        acts.push(Action::PresentCanvas);
        proof {
            assert(self@ =~~= resize_model(old(self)@, width, height));
            assert(self@.ink == old(self)@.ink);
            assert(act_views(acts@) =~= seq![
                Act::NewBuffer { width, height },
            ] + rd_view + seq![Act::Present]);
        }
        acts
    }

    /// Pen up: leave Drawing, apply the auto-resize policy, and always ask
    /// for recognition of the canvas as it now stands.
    pub fn on_up(&mut self) -> (acts: Vec<Action>)
        requires
            old(self)@.wf(),
        ensures
            final(self)@ == up_model(old(self)@),
            act_views(acts@) == up_acts(old(self)@),
            final(self)@.wf(),
    {
        self.is_pen_down = false;
        proof {
            assert(self@ =~~= (Model { pen_down: false, ..old(self)@ }));
        }
        let mut acts: Vec<Action> = Vec::new();
        if (self.max_x as u64) * 5 > (self.width as u64) * 4 {
            proof {
                assert(resize_trigger(self@));
                // The policy can only fire while 4 * width < 5 * max_x,
                // and max_x is an i32, so the grown width still fits.
                assert(4 * self@.width < 5 * self@.max_x);
                assert(self@.width + RESIZE_INCREMENT <= u32::MAX);
            }
            let w = self.width + RESIZE_INCREMENT;
            let mut r = self.resize(w, self.height);
            acts.append(&mut r);
        }
        let line = request_line(self.width, self.height);
        acts.push(Action::SendRequest { line });
        proof {
            assert(self@ =~~= up_model(old(self)@));
            assert(act_views(acts@) =~= up_acts(old(self)@));
        }
        acts
    }

    /// Undo: drop the last stroke if one exists, repaint what remains,
    /// and ask for recognition of the reduced ink.
    pub fn undo(&mut self) -> (acts: Vec<Action>)
        ensures
            final(self)@ == undo_model(old(self)@),
            act_views(acts@) == undo_acts(old(self)@),
    {
        self.strokes.pop();
        proof {
            assert(self@.ink =~~= undo_model(old(self)@).ink);
            assert(self@ =~~= undo_model(old(self)@));
        }
        let mut acts = self.redraw_actions();
        let line = request_line(self.width, self.height);
        acts.push(Action::SendRequest { line });
        proof {
            assert(act_views(acts@) =~= undo_acts(old(self)@));
        }
        acts
    }

    /// Commit: send the preedit as final text under the current serial,
    /// clear the whole session, and restore the original canvas size.
    pub fn enter_input(&mut self) -> (acts: Vec<Action>)
        requires
            old(self)@.wf(),
        ensures
            final(self)@ == commit_model(old(self)@),
            act_views(acts@) == commit_acts(old(self)@),
            final(self)@.wf(),
    {
        let mut acts: Vec<Action> = Vec::new();
        let text = vstd::slice::slice_to_vec(self.preedit.as_slice());
        acts.push(Action::CommitText { text, serial: self.serial });
        self.strokes = Vec::new();
        self.preedit = Vec::new();
        proof {
            assert(self@.ink =~~= Seq::<Seq<InkPoint>>::empty());
        }
        let ow = self.original_width;
        let oh = self.original_height;
        let mut r = self.resize(ow, oh);
        let ghost r_view = act_views(r@);
        acts.append(&mut r);
        proof {
            assert(self@ =~~= commit_model(old(self)@));
            assert(r_view =~= seq![
                Act::NewBuffer { width: ow, height: oh },
                Act::Clear,
                Act::Present,
                Act::Present,
            ]);
            assert(act_views(acts@) =~= commit_acts(old(self)@));
        }
        acts
    }
}

/// A pointer leaving the drawing surface mid-stroke only ends the Drawing
/// state: no resize, no recognition request.
pub open spec fn leave_model(m: Model, left_our_surface: bool) -> Model {
    if m.pen_down && left_our_surface {
        Model { pen_down: false, ..m }
    } else {
        m
    }
}

impl Engine {
    /// The pointer left a surface; `left_our_surface` says whether it was
    /// the drawing surface.
    pub fn on_pointer_leave(&mut self, left_our_surface: bool)
        ensures
            final(self)@ == leave_model(old(self)@, left_our_surface),
    {
        if self.is_pen_down && left_our_surface {
            self.is_pen_down = false;
        }
        proof {
            assert(self@ =~~= leave_model(old(self)@, left_our_surface));
        }
    }

    /// Current canvas width in pixels.
    pub fn width(&self) -> (w: u32)
        ensures
            w == self@.width,
    {
        self.width
    }

    /// Current canvas height in pixels.
    pub fn height(&self) -> (h: u32)
        ensures
            h == self@.height,
    {
        self.height
    }

    /// The serial after the most recent host `done` event.
    pub fn serial(&self) -> (s: u32)
        ensures
            s == self@.serial,
    {
        self.serial
    }

    /// Whether the capture state machine is Drawing.
    pub fn pen_is_down(&self) -> (b: bool)
        ensures
            b == self@.pen_down,
    {
        self.is_pen_down
    }

    /// Whether the host has activated the session.
    pub fn is_active(&self) -> (b: bool)
        ensures
            b == self@.active,
    {
        self.active
    }

    /// How many strokes the session holds.
    pub fn stroke_count(&self) -> (n: usize)
        ensures
            n == self@.ink.len(),
    {
        self.strokes.len()
    }

    /// How many samples stroke `i` holds.
    pub fn stroke_len(&self, i: usize) -> (n: usize)
        requires
            i < self@.ink.len(),
        ensures
            n == self@.ink[i as int].len(),
    {
        self.strokes[i].points.len()
    }

    /// The sample at position `j` of stroke `i`.
    pub fn stroke_point(&self, i: usize, j: usize) -> (p: InkPoint)
        requires
            i < self@.ink.len(),
            j < self@.ink[i as int].len(),
        ensures
            p == self@.ink[i as int][j as int],
    {
        self.strokes[i].points[j]
    }

    /// A copy of the current preedit text.
    pub fn preedit_text(&self) -> (t: Vec<u8>)
        ensures
            t@ == self@.preedit,
    {
        vstd::slice::slice_to_vec(self.preedit.as_slice())
    }
}

/// The one condition the engine treats as fatal: the host declared the
/// input-method capability unavailable, and the process cannot serve
/// without it.
#[derive(Clone, Copy, Debug, PartialEq, Eq, Structural)]
pub enum EngineError {
    InputMethodUnavailable,
}

/// A host event on the input-method session object.
#[derive(Clone, Copy, Debug, PartialEq, Eq, Structural)]
pub enum ImEvent {
    /// The session gained focus.
    Activate,
    /// The session lost focus.
    Deactivate,
    /// The host finished a round of state changes; the serial advances.
    Done,
    /// The capability is gone for good.
    Unavailable,
}

/// How a session event moves the state: activation is a flag, every
/// `done` advances the serial by one, and `unavailable` changes nothing
/// here because the process stops instead.
pub open spec fn im_event_model(m: Model, ev: ImEvent) -> Model {
    match ev {
        ImEvent::Activate => Model { active: true, ..m },
        ImEvent::Deactivate => Model { active: false, ..m },
        ImEvent::Done => Model { serial: (m.serial + 1) as u32, ..m },
        ImEvent::Unavailable => m,
    }
}

/// Bytes arrived from the recognizer pipe: they only accumulate.
pub open spec fn feed_model(m: Model, chunk: Seq<u8>) -> Model {
    Model { pending: m.pending + chunk, ..m }
}

/// One turn of response handling: if a full line has arrived, consume
/// exactly that line; a line carrying the result prefix replaces the
/// preedit with its trimmed remainder, any other line leaves it alone.
pub open spec fn poll_model(m: Model) -> Model {
    match line_split_spec(m.pending) {
        None => m,
        Some(p) => {
            let text = match parse_response_spec(p.0) {
                Some(t) => t,
                None => m.preedit,
            };
            Model { pending: p.1, preedit: text, ..m }
        },
    }
}

/// Each consumed line re-stages the preedit that now holds, tagged with
/// the current serial; an incomplete line asks for nothing.
pub open spec fn poll_acts(m: Model) -> Seq<Act> {
    match line_split_spec(m.pending) {
        None => Seq::empty(),
        Some(p) => seq![Act::Preedit { text: poll_model(m).preedit, serial: m.serial }],
    }
}

impl Engine {
    /// Apply a host event on the input-method session. `Unavailable` is
    /// the one fatal answer; the caller stops the process on it, as the
    /// capability is mandatory.
    pub fn on_im_event(&mut self, ev: ImEvent) -> (r: Result<(), EngineError>)
        requires
            ev is Done ==> old(self)@.serial < u32::MAX,
        ensures
            final(self)@ == im_event_model(old(self)@, ev),
            r is Ok <==> !(ev is Unavailable),
            r matches Err(e) ==> e == EngineError::InputMethodUnavailable,
    {
        match ev {
            ImEvent::Activate => {
                self.active = true;
                proof {
                    assert(self@ =~~= im_event_model(old(self)@, ev));
                }
                Ok(())
            },
            ImEvent::Deactivate => {
                self.active = false;
                proof {
                    assert(self@ =~~= im_event_model(old(self)@, ev));
                }
                Ok(())
            },
            ImEvent::Done => {
                self.serial = self.serial + 1;
                proof {
                    assert(self@ =~~= im_event_model(old(self)@, ev));
                }
                Ok(())
            },
            ImEvent::Unavailable => {
                proof {
                    assert(self@ =~~= im_event_model(old(self)@, ev));
                }
                Err(EngineError::InputMethodUnavailable)
            },
        }
    }

    /// Hand the engine whatever one non-blocking read of the recognizer
    /// pipe delivered, a partial line included.
    pub fn feed_recognizer(&mut self, chunk: &[u8])
        ensures
            final(self)@ == feed_model(old(self)@, chunk@),
    {
        self.pending.feed(chunk);
        proof {
            assert(self@ =~~= feed_model(old(self)@, chunk@));
        }
    }

    /// Handle at most one completed response line. Call again until the
    /// answer is empty to drain every line that has fully arrived.
    pub fn poll_recognizer(&mut self) -> (acts: Vec<Action>)
        ensures
            final(self)@ == poll_model(old(self)@),
            act_views(acts@) == poll_acts(old(self)@),
    {
        let mut acts: Vec<Action> = Vec::new();
        if let Some(line) = self.pending.take_line() {
            if let Some(text) = parse_response(line.as_slice()) {
                self.preedit = text;
            }
            let staged = vstd::slice::slice_to_vec(self.preedit.as_slice());
            acts.push(Action::StagePreedit { text: staged, serial: self.serial });
        }
        proof {
            assert(self@ =~~= poll_model(old(self)@));
            assert(act_views(acts@) =~= poll_acts(old(self)@));
        }
        acts
    }
}

} // verus!
