//! What the pointer does to the engine: which vertex or link is selected,
//! hovered or dragged, and which chain of vertices is being drawn.

use vstd::prelude::*;

verus! {

/// Whether the engine is being edited or is running.
#[derive(Clone, Copy, Debug, PartialEq, Eq, Structural)]
pub enum Mode {
    /// The scene is drawn and changed; time stands still.
    Editing,
    /// The scene is stepped forward on every frame.
    Simulating,
    /// A saved scene named a mode that is neither of the two: nothing is
    /// stepped and nothing is drawn anew.
    Inert,
}

impl Mode {
    /// The mode that a saved scene's code stands for.
    pub open spec fn of_code(code: u8) -> Mode {
        if code == 0 {
            Mode::Editing
        } else if code == 1 {
            Mode::Simulating
        } else {
            Mode::Inert
        }
    }

    /// The mode that a saved scene's code stands for.
    pub fn from_code(code: u8) -> (mode: Mode)
        ensures
            mode == Mode::of_code(code),
    {
        if code == 0 {
            Mode::Editing
        } else if code == 1 {
            Mode::Simulating
        } else {
            Mode::Inert
        }
    }
}

/// What the pointer is in the middle of.
#[derive(Clone, Copy, Debug, PartialEq, Eq, Structural)]
pub enum Gesture {
    Idle,
    /// A chain is being drawn; the next vertex is linked to the anchor.
    Chain,
    /// The anchor is being dragged.
    Dragging,
    /// A link is selected.
    LinkSelected,
}

/// The pointer's state.
#[derive(Clone, Copy, Debug, PartialEq, Eq)]
pub struct Editor {
    pub mode: Mode,
    pub gesture: Gesture,
    /// The vertex that the gesture works on: the end of the chain, or the
    /// vertex being dragged.
    pub anchor: usize,
    pub sel_vertex: Option<usize>,
    pub sel_link: Option<usize>,
    pub hover_vertex: Option<usize>,
    pub hover_link: Option<usize>,
    /// The vertex whose position follows the pointer.
    pub drag_dot: Option<usize>,
    /// Actuation group given to new vertices and links.
    pub current_phase: u8,
}

impl Editor {
    /// The editor at rest, in editing mode.
    pub open spec fn at_rest() -> Editor {
        Editor {
            mode: Mode::Editing,
            gesture: Gesture::Idle,
            anchor: 0,
            sel_vertex: None,
            sel_link: None,
            hover_vertex: None,
            hover_link: None,
            drag_dot: None,
            current_phase: 0,
        }
    }

    /// The editor at rest, in editing mode.
    pub fn new() -> (editor: Editor)
        ensures
            editor == Editor::at_rest(),
    {
        Editor {
            mode: Mode::Editing,
            gesture: Gesture::Idle,
            anchor: 0,
            sel_vertex: None,
            sel_link: None,
            hover_vertex: None,
            hover_link: None,
            drag_dot: None,
            current_phase: 0,
        }
    }

    /// Whether vertex `id` is held by a drag, so that a tick keeps it where
    /// the pointer put it.
    pub open spec fn is_holding(self, id: usize) -> bool {
        self.drag_dot == Some(id) && self.gesture == Gesture::Dragging
    }

    /// Whether vertex `id` is held by a drag.
    pub fn holds(&self, id: usize) -> (held: bool)
        ensures
            held == self.is_holding(id),
    {
        let dragged = match self.drag_dot {
            Some(v) => v == id,
            None => false,
        };
        dragged && matches!(self.gesture, Gesture::Dragging)
    }
}

/// What a press of the pointer comes to.
#[derive(Clone, Copy, Debug, PartialEq, Eq, Structural)]
pub enum Click {
    /// Drop the gesture and the selection of vertices.
    Cancel,
    /// Put down the first vertex of a chain.
    PlaceFirst,
    /// Put down the next vertex of the chain and link it to the anchor.
    PlaceNext,
    /// Link the chain to a vertex that is there already.
    JoinTo(usize),
    /// Select one vertex alone and start dragging it.
    Grab(usize),
    /// Start dragging a vertex and leave the other selection marks.
    GrabKeep(usize),
    /// Select a link.
    PickLink(usize),
    /// Clear the selection of vertices.
    Deselect,
    /// Add a vertex to the selection or take it out.
    Toggle(usize),
    Nothing,
}

/// What a press over a vertex or a link comes to where no chain and no
/// modifier says otherwise.
pub open spec fn plain_click(hover_vertex: Option<usize>, hover_link: Option<usize>, keep: bool) -> Click {
    match hover_vertex {
        Some(v) => if keep {
            Click::GrabKeep(v)
        } else {
            Click::Grab(v)
        },
        None => match hover_link {
            Some(l) => Click::PickLink(l),
            None => Click::Nothing,
        },
    }
}

/// What a press of the pointer comes to, given what lies under it. The
/// secondary button cancels. While simulating, a press grabs. While
/// editing, shift toggles the selection; a press on empty ground draws a
/// chain; a press on a vertex ends the chain there, or grabs the vertex.
pub open spec fn click_of(
    editor: Editor,
    hover_vertex: Option<usize>,
    hover_link: Option<usize>,
    button2: bool,
    shift: bool,
) -> Click {
    if button2 {
        Click::Cancel
    } else {
        match editor.mode {
            Mode::Simulating => if hover_vertex is None && hover_link is None {
                Click::Deselect
            } else {
                plain_click(hover_vertex, hover_link, false)
            },
            Mode::Inert => plain_click(hover_vertex, hover_link, true),
            Mode::Editing => if shift {
                match hover_vertex {
                    Some(v) => Click::Toggle(v),
                    None => Click::Nothing,
                }
            } else if editor.gesture == Gesture::Chain {
                if hover_link is None {
                    match hover_vertex {
                        Some(v) => Click::JoinTo(v),
                        None => Click::PlaceNext,
                    }
                } else {
                    plain_click(hover_vertex, hover_link, true)
                }
            } else if editor.gesture == Gesture::Idle && hover_vertex is None && hover_link
                is None {
                Click::PlaceFirst
            } else {
                plain_click(hover_vertex, hover_link, false)
            },
        }
    }
}

fn plain(hover_vertex: Option<usize>, hover_link: Option<usize>, keep: bool) -> (click: Click)
    ensures
        click == plain_click(hover_vertex, hover_link, keep),
{
    match hover_vertex {
        Some(v) => if keep {
            Click::GrabKeep(v)
        } else {
            Click::Grab(v)
        },
        None => match hover_link {
            Some(l) => Click::PickLink(l),
            None => Click::Nothing,
        },
    }
}

/// Decides what a press of the pointer comes to.
pub fn decide_click(
    editor: &Editor,
    hover_vertex: Option<usize>,
    hover_link: Option<usize>,
    button2: bool,
    shift: bool,
) -> (click: Click)
    ensures
        click == click_of(*editor, hover_vertex, hover_link, button2, shift),
{
    if button2 {
        return Click::Cancel;
    }
    match editor.mode {
        Mode::Simulating => {
            if hover_vertex.is_none() && hover_link.is_none() {
                Click::Deselect
            } else {
                plain(hover_vertex, hover_link, false)
            }
        },
        Mode::Inert => plain(hover_vertex, hover_link, true),
        Mode::Editing => {
            if shift {
                match hover_vertex {
                    Some(v) => Click::Toggle(v),
                    None => Click::Nothing,
                }
            } else if matches!(editor.gesture, Gesture::Chain) {
                if hover_link.is_none() {
                    match hover_vertex {
                        Some(v) => Click::JoinTo(v),
                        None => Click::PlaceNext,
                    }
                } else {
                    plain(hover_vertex, hover_link, true)
                }
            } else if matches!(editor.gesture, Gesture::Idle) && hover_vertex.is_none()
                && hover_link.is_none() {
                Click::PlaceFirst
            } else {
                plain(hover_vertex, hover_link, false)
            }
        },
    }
}

} // verus!
