//! What an input event does to the viewer.

use crate::camera::{Intents, Movement};
use crate::controls::{Command, KeyBindings};
use crate::eventutil::LoopAction;
use vstd::prelude::*;

verus! {

/// The part of the viewer's state that input events decide.
#[derive(Clone, Copy, Debug, PartialEq, Eq, Structural)]
pub struct ViewerState {
    /// Whether the window has the focus; without it keys and mouse are ignored.
    pub focused: bool,
    /// Whether the light marker is drawn.
    pub show_light: bool,
    /// The movement keys that are held.
    pub intents: Intents,
}

/// An input event, reduced to what the viewer looks at.
#[derive(Clone, Copy, Debug, PartialEq, Eq, Structural)]
pub enum InputEvent {
    /// The window was asked to close.
    CloseRequested,
    /// The window gained or lost the focus.
    Focused(bool),
    /// A key went down or up; `key` is `None` for a key without a number.
    Keyboard { key: Option<u32>, pressed: bool },
    /// The mouse moved; the distance stays with the caller.
    MouseMotion,
    /// Anything else.
    Other,
}

/// What the caller has to do after an event.
#[derive(Clone, Copy, Debug, PartialEq, Eq, Structural)]
pub struct Reaction {
    /// Grab the cursor (`Some(true)`) or let it go (`Some(false)`).
    pub capture: Option<bool>,
    /// Point the light along the camera's line of sight.
    pub move_light: bool,
    /// Add the distance the mouse moved to what the camera has yet to turn by.
    pub turn_camera: bool,
}

/// The command that a key event gives: the one bound to the key, and only
/// when the key went down.
pub open spec fn command_given(bindings: KeyBindings, key: Option<u32>, pressed: bool) -> Option<
    Command,
> {
    match key {
        Some(k) => if pressed {
            bindings.spec_command(k)
        } else {
            None
        },
        None => None,
    }
}

/// The movement keys held after a key event.
pub open spec fn intents_after(
    held: Set<Movement>,
    bindings: KeyBindings,
    key: Option<u32>,
    pressed: bool,
) -> Set<Movement> {
    match key {
        Some(k) => match bindings.spec_movement(k) {
            Some(m) => if pressed {
                held.insert(m)
            } else {
                held.remove(m)
            },
            None => held,
        },
        None => held,
    }
}

impl ViewerState {
    /// The state at start: focused, the light marker shown, no key held.
    pub fn new() -> (r: ViewerState)
        ensures
            r.focused,
            r.show_light,
            r.intents@ == Set::<Movement>::empty(),
    {
        ViewerState { focused: true, show_light: true, intents: Intents::new() }
    }
}

/// Takes one input event.
///
/// A request to close stops the loop. A change of focus is recorded and the
/// cursor grabbed or let go with it. While the window has the focus, a key
/// sets or clears the movement bound to it and, when it goes down, gives the
/// command bound to it; a mouse motion turns the camera. Without the focus
/// keys and mouse do nothing. Nothing but a request to close or the exit key
/// changes `action`.
pub fn handle_event(
    viewer: &mut ViewerState,
    bindings: &KeyBindings,
    event: InputEvent,
    action: &mut LoopAction,
) -> (reaction: Reaction)
    ensures
        final(viewer).focused == match event {
            InputEvent::Focused(focus) => focus,
            _ => old(viewer).focused,
        },
        final(viewer).intents@ == match event {
            InputEvent::Keyboard { key, pressed } if old(viewer).focused => intents_after(
                old(viewer).intents@,
                *bindings,
                key,
                pressed,
            ),
            _ => old(viewer).intents@,
        },
        final(viewer).show_light == match event {
            InputEvent::Keyboard { key, pressed } if old(viewer).focused && command_given(
                *bindings,
                key,
                pressed,
            ) == Some(Command::ShowLight) => !old(viewer).show_light,
            _ => old(viewer).show_light,
        },
        *final(action) == match event {
            InputEvent::CloseRequested => LoopAction::Stop,
            InputEvent::Keyboard { key, pressed } if old(viewer).focused && command_given(
                *bindings,
                key,
                pressed,
            ) == Some(Command::Exit) => LoopAction::Stop,
            _ => *old(action),
        },
        reaction.capture == match event {
            InputEvent::Focused(focus) => Some(focus),
            _ => None,
        },
        reaction.move_light == match event {
            InputEvent::Keyboard { key, pressed } => old(viewer).focused && command_given(
                *bindings,
                key,
                pressed,
            ) == Some(Command::MoveLight),
            _ => false,
        },
        reaction.turn_camera == (event == InputEvent::MouseMotion && old(viewer).focused),
{
    let mut reaction = Reaction { capture: None, move_light: false, turn_camera: false };
    match event {
        InputEvent::CloseRequested => {
            *action = LoopAction::Stop;
        },
        InputEvent::Focused(focus) => {
            viewer.focused = focus;
            reaction.capture = Some(focus);
        },
        InputEvent::Keyboard { key, pressed } => {
            if viewer.focused {
                viewer.intents.handle_keyboard(bindings, key, pressed);
                if pressed {
                    if let Some(k) = key {
                        match bindings.command(k) {
                            Some(Command::Exit) => {
                                *action = LoopAction::Stop;
                            },
                            Some(Command::MoveLight) => {
                                reaction.move_light = true;
                            },
                            Some(Command::ShowLight) => {
                                viewer.show_light = !viewer.show_light;
                            },
                            None => {},
                        }
                    }
                }
            }
        },
        InputEvent::MouseMotion => {
            if viewer.focused {
                reaction.turn_camera = true;
            }
        },
        InputEvent::Other => {},
    }
    reaction
}

} // verus!
