//! Dispatch of compositor input events onto the engine.
//!
//! The protocol delivers events per object — pointer, tablet tool,
//! keyboard grab. Each handler here is one arm of that dispatch, written
//! over plain event values so it needs no live connection: the plumbing
//! translates a protocol event into one of these variants and performs
//! the actions handed back.

use vstd::prelude::*;
use crate::engine::{
    act_views, commit_acts, commit_model, down_model, leave_model, motion_acts, motion_model,
    undo_acts, undo_model, up_acts, up_model, Act, Action, Engine, Model,
};
use crate::keys::{key_command, key_command_spec, pen_button_command, pen_button_command_spec, KeyCommand};

verus! {

/// An event from the plain pointer device.
#[derive(Clone, Copy, Debug, PartialEq, Eq, Structural)]
pub enum PointerEvent {
    /// The pointer entered a surface.
    Enter,
    /// The pointer left a surface; the flag says whether it was the
    /// drawing surface.
    Leave { left_our_surface: bool },
    /// The pointer moved.
    Motion { x: i32, y: i32, time: u32 },
    /// A pointer button changed state; the pointer has no pressure, so
    /// the sample is cleared either way.
    Button { pressed: bool },
}

/// An event from the tablet tool.
#[derive(Clone, Copy, Debug, PartialEq, Eq, Structural)]
pub enum ToolEvent {
    /// The tool touched the surface.
    Down,
    /// The tool lifted.
    Up,
    /// The tool moved.
    Motion { x: i32, y: i32, time: u32 },
    /// A pressure sample from the tool's sensor.
    Pressure { value: u32 },
    /// A tool button changed state.
    Button { button: u32, pressed: bool },
}

/// How a pointer event moves the state.
pub open spec fn pointer_event_model(m: Model, ev: PointerEvent) -> Model {
    match ev {
        PointerEvent::Enter => m,
        PointerEvent::Leave { left_our_surface } => leave_model(m, left_our_surface),
        PointerEvent::Motion { x, y, time } => motion_model(m, x, y, time),
        PointerEvent::Button { pressed } => {
            let m1 = Model { pressure: None, ..m };
            if pressed {
                down_model(m1)
            } else {
                up_model(m1)
            }
        },
    }
}

/// Which actions a pointer event asks for.
pub open spec fn pointer_event_acts(m: Model, ev: PointerEvent) -> Seq<Act> {
    match ev {
        PointerEvent::Enter => Seq::empty(),
        PointerEvent::Leave { left_our_surface } => Seq::empty(),
        PointerEvent::Motion { x, y, time } => motion_acts(m, x, y, time),
        PointerEvent::Button { pressed } => {
            let m1 = Model { pressure: None, ..m };
            if pressed {
                Seq::empty()
            } else {
                up_acts(m1)
            }
        },
    }
}

/// How a tool event moves the state.
pub open spec fn tool_event_model(m: Model, ev: ToolEvent) -> Model {
    match ev {
        ToolEvent::Down => down_model(m),
        ToolEvent::Up => up_model(m),
        ToolEvent::Motion { x, y, time } => motion_model(m, x, y, time),
        ToolEvent::Pressure { value } => Model { pressure: Some(value), ..m },
        ToolEvent::Button { button, pressed } => {
            if pressed {
                match pen_button_command_spec(button) {
                    KeyCommand::CommitInput => commit_model(m),
                    KeyCommand::Undo => undo_model(m),
                    KeyCommand::Ignored => m,
                }
            } else {
                m
            }
        },
    }
}

/// Which actions a tool event asks for.
pub open spec fn tool_event_acts(m: Model, ev: ToolEvent) -> Seq<Act> {
    match ev {
        ToolEvent::Down => Seq::empty(),
        ToolEvent::Up => up_acts(m),
        ToolEvent::Motion { x, y, time } => motion_acts(m, x, y, time),
        ToolEvent::Pressure { value } => Seq::empty(),
        ToolEvent::Button { button, pressed } => {
            if pressed {
                match pen_button_command_spec(button) {
                    KeyCommand::CommitInput => commit_acts(m),
                    KeyCommand::Undo => undo_acts(m),
                    KeyCommand::Ignored => Seq::empty(),
                }
            } else {
                Seq::empty()
            }
        },
    }
}

/// How a resolved key press moves the state.
pub open spec fn key_char_model(m: Model, c: char) -> Model {
    match key_command_spec(c) {
        KeyCommand::Undo => undo_model(m),
        KeyCommand::CommitInput => commit_model(m),
        KeyCommand::Ignored => m,
    }
}

/// Which actions a resolved key press asks for.
pub open spec fn key_char_acts(m: Model, c: char) -> Seq<Act> {
    match key_command_spec(c) {
        KeyCommand::Undo => undo_acts(m),
        KeyCommand::CommitInput => commit_acts(m),
        KeyCommand::Ignored => Seq::empty(),
    }
}

impl Engine {
    /// One pointer event, dispatched.
    pub fn handle_pointer(&mut self, ev: PointerEvent) -> (acts: Vec<Action>)
        requires
            old(self)@.wf(),
            (ev matches PointerEvent::Motion { .. }) && old(self)@.pen_down ==> old(
                self,
            )@.ink.len() >= 1,
        ensures
            final(self)@ == pointer_event_model(old(self)@, ev),
            act_views(acts@) == pointer_event_acts(old(self)@, ev),
            final(self)@.wf(),
    {
        match ev {
            PointerEvent::Enter => {
                let acts: Vec<Action> = Vec::new();
                proof {
                    assert(act_views(acts@) =~= Seq::<Act>::empty());
                }
                acts
            },
            PointerEvent::Leave { left_our_surface } => {
                self.on_pointer_leave(left_our_surface);
                let acts: Vec<Action> = Vec::new();
                proof {
                    assert(act_views(acts@) =~= Seq::<Act>::empty());
                }
                acts
            },
            PointerEvent::Motion { x, y, time } => self.on_motion(x, y, time),
            PointerEvent::Button { pressed } => {
                self.clear_pressure();
                if pressed {
                    self.on_down()
                } else {
                    self.on_up()
                }
            },
        }
    }

    /// One tablet tool event, dispatched.
    pub fn handle_tool(&mut self, ev: ToolEvent) -> (acts: Vec<Action>)
        requires
            old(self)@.wf(),
            (ev matches ToolEvent::Motion { .. }) && old(self)@.pen_down ==> old(
                self,
            )@.ink.len() >= 1,
        ensures
            final(self)@ == tool_event_model(old(self)@, ev),
            act_views(acts@) == tool_event_acts(old(self)@, ev),
            final(self)@.wf(),
    {
        match ev {
            ToolEvent::Down => self.on_down(),
            ToolEvent::Up => self.on_up(),
            ToolEvent::Motion { x, y, time } => self.on_motion(x, y, time),
            ToolEvent::Pressure { value } => {
                self.on_pressure(value);
                let acts: Vec<Action> = Vec::new();
                proof {
                    assert(act_views(acts@) =~= Seq::<Act>::empty());
                }
                acts
            },
            ToolEvent::Button { button, pressed } => {
                if pressed {
                    match pen_button_command(button) {
                        KeyCommand::CommitInput => self.enter_input(),
                        KeyCommand::Undo => self.undo(),
                        KeyCommand::Ignored => {
                            let acts: Vec<Action> = Vec::new();
                            proof {
                                assert(act_views(acts@) =~= Seq::<Act>::empty());
                            }
                            acts
                        },
                    }
                } else {
                    let acts: Vec<Action> = Vec::new();
                    proof {
                        assert(act_views(acts@) =~= Seq::<Act>::empty());
                    }
                    acts
                }
            },
        }
    }

    /// One pressed key, already resolved through the keyboard layout.
    pub fn on_key_char(&mut self, c: char) -> (acts: Vec<Action>)
        requires
            old(self)@.wf(),
        ensures
            final(self)@ == key_char_model(old(self)@, c),
            act_views(acts@) == key_char_acts(old(self)@, c),
            final(self)@.wf(),
    {
        match key_command(c) {
            KeyCommand::Undo => self.undo(),
            KeyCommand::CommitInput => self.enter_input(),
            KeyCommand::Ignored => {
                let acts: Vec<Action> = Vec::new();
                proof {
                    assert(act_views(acts@) =~= Seq::<Act>::empty());
                }
                acts
            },
        }
    }
}

} // verus!
