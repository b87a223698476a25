//! The pointer at work on the engine: presses, releases, hovering and the
//! switch between editing and simulating.

use vstd::prelude::*;
use crate::editor::{click_of, decide_click, Click, Editor, Gesture, Mode};
use crate::graph::{
    counted_selected, first_free, lemma_first_free_is_unique, linked, selecting, Link, Vertex,
};
use crate::state::State;

verus! {

impl<B, S> State<B, S> {
    /// The vertex under the pointer, if it is still in use.
    pub open spec fn hovered_vertex(&self) -> Option<usize> {
        match self.editor.hover_vertex {
            Some(v) => if self.graph.is_live(v) {
                Some(v)
            } else {
                None
            },
            None => None,
        }
    }

    /// The link under the pointer, if there still is one of that number.
    pub open spec fn hovered_link(&self) -> Option<usize> {
        match self.editor.hover_link {
            Some(l) => if l < self.graph.links().len() {
                Some(l)
            } else {
                None
            },
            None => None,
        }
    }

    /// What a press of the pointer comes to in this state.
    pub open spec fn click(&self, button2: bool, shift: bool) -> Click {
        click_of(self.editor, self.hovered_vertex(), self.hovered_link(), button2, shift)
    }

    /// Whether a press on vertex `v` while a chain is drawn links `v` to the
    /// end of the chain.
    pub open spec fn joins_chain(&self, v: usize) -> bool {
        &&& self.graph.is_live(self.editor.anchor)
        &&& v != self.editor.anchor
        &&& !linked(self.graph.links(), v, self.editor.anchor)
    }

    /// The slots after a click.
    pub open spec fn vertices_after(&self, click: Click, body: B) -> Seq<Vertex<B>> {
        let vs = self.graph.vertices();
        match click {
            Click::Cancel | Click::PickLink(_) | Click::Deselect => selecting(vs, None),
            Click::Grab(v) | Click::JoinTo(v) => selecting(vs, Some(v)),
            Click::GrabKeep(v) => vs.update(v as int, Vertex { selected: true, ..vs[v as int] }),
            Click::Toggle(v) => vs.update(
                v as int,
                Vertex { selected: !vs[v as int].selected, ..vs[v as int] },
            ),
            Click::PlaceFirst | Click::PlaceNext => {
                let placed = Vertex {
                    selected: true,
                    ..Vertex::fresh(0, self.editor.current_phase, body)
                };
                if first_free(vs) < vs.len() {
                    selecting(vs, None).update(first_free(vs), placed)
                } else {
                    selecting(vs, None).push(placed)
                }
            },
            Click::Nothing => vs,
        }
    }

    /// The links after a click.
    pub open spec fn links_after(&self, click: Click, spring: S) -> Seq<Link<S>> {
        let ls = self.graph.links();
        let e = self.editor;
        match click {
            Click::PlaceNext => if self.graph.is_live(e.anchor) {
                ls.push(
                    Link::fresh(
                        first_free(self.graph.vertices()) as usize,
                        e.anchor,
                        e.current_phase,
                        spring,
                    ),
                )
            } else {
                ls
            },
            Click::JoinTo(v) => if self.joins_chain(v) {
                ls.push(Link::fresh(v, e.anchor, e.current_phase, spring))
            } else {
                ls
            },
            _ => ls,
        }
    }

    /// Whether the cache of triangles is stale after a click.
    pub open spec fn dirty_after(&self, click: Click) -> bool {
        match click {
            Click::PlaceFirst | Click::PlaceNext => true,
            Click::JoinTo(v) => self.graph.dirty() || self.joins_chain(v),
            _ => self.graph.dirty(),
        }
    }

    /// The pointer's state after a click.
    pub open spec fn editor_after(&self, click: Click) -> Editor {
        let e = self.editor;
        let slot = first_free(self.graph.vertices()) as usize;
        match click {
            Click::Cancel => Editor {
                gesture: Gesture::Idle,
                sel_vertex: None,
                anchor: 0,
                drag_dot: None,
                ..e
            },
            Click::Grab(v) | Click::GrabKeep(v) => Editor {
                sel_vertex: Some(v),
                sel_link: None,
                anchor: v,
                gesture: Gesture::Dragging,
                drag_dot: Some(v),
                ..e
            },
            Click::PickLink(l) => Editor {
                sel_link: Some(l),
                sel_vertex: None,
                anchor: 0,
                gesture: Gesture::LinkSelected,
                drag_dot: None,
                ..e
            },
            Click::Deselect => Editor { sel_vertex: None, ..e },
            Click::PlaceFirst => Editor {
                anchor: slot,
                gesture: Gesture::Chain,
                sel_vertex: Some(slot),
                ..e
            },
            Click::PlaceNext => Editor { anchor: slot, sel_vertex: Some(slot), ..e },
            Click::JoinTo(v) => if self.joins_chain(v) {
                Editor { anchor: v, sel_vertex: Some(v), ..e }
            } else {
                Editor {
                    gesture: Gesture::Dragging,
                    anchor: v,
                    sel_vertex: Some(v),
                    drag_dot: Some(v),
                    ..e
                }
            },
            Click::Toggle(_) | Click::Nothing => e,
        }
    }

    /// The engine shows what `click` does to `old`.
    pub open spec fn shows_click(&self, old: &State<B, S>, click: Click, body: B, spring: S) -> bool {
        &&& self.wf()
        &&& self.graph.vertices() == old.vertices_after(click, body)
        &&& self.graph.links() == old.links_after(click, spring)
        &&& self.graph.dirty() == old.dirty_after(click)
        &&& self.graph.triangles() == old.graph.triangles()
        &&& self.editor == old.editor_after(click)
        &&& self.clock == old.clock
        &&& self.drive == old.drive
        &&& self.walls == old.walls
    }

    /// A press of the pointer. What it comes to is decided from the mode,
    /// the gesture and what lies under the pointer; a hovered vertex that
    /// is no longer in use, and a hovered link that is no longer there,
    /// count as not hovered. `body` is the body of a vertex at the pointer,
    /// `spring` the spring of a link from there, or from the hovered
    /// vertex, to the anchor; both are dropped where the click needs none.
    pub fn mouse_down(&mut self, button2: bool, shift: bool, body: B, spring: S) -> (click: Click)
        requires
            old(self).wf(),
        ensures
            click == old(self).click(button2, shift),
            final(self).shows_click(old(self), click, body, spring),
    {
        let hover_vertex = match self.editor.hover_vertex {
            Some(v) => if self.graph.has_vertex(v) {
                Some(v)
            } else {
                None
            },
            None => None,
        };
        let hover_link = match self.editor.hover_link {
            Some(l) => if l < self.graph.link_count() {
                Some(l)
            } else {
                None
            },
            None => None,
        };
        let click = decide_click(&self.editor, hover_vertex, hover_link, button2, shift);
        match click {
            Click::Cancel => self.cancel(),
            Click::Grab(v) => self.grab(v, false),
            Click::GrabKeep(v) => self.grab(v, true),
            Click::PickLink(l) => self.pick_link(l),
            Click::Deselect => self.deselect(),
            Click::Toggle(v) => self.toggle(v),
            Click::PlaceFirst => self.place(true, body, spring),
            Click::PlaceNext => self.place(false, body, spring),
            Click::JoinTo(v) => self.join_to(v, spring),
            Click::Nothing => {},
        }
        click
    }

    fn cancel(&mut self)
        requires
            old(self).wf(),
        ensures
            forall|body: B, spring: S| #[trigger]
                final(self).shows_click(old(self), Click::Cancel, body, spring),
    {
        self.graph.clear_multi_select();
        self.editor.gesture = Gesture::Idle;
        self.editor.sel_vertex = None;
        self.editor.anchor = 0;
        self.editor.drag_dot = None;
    }

    fn deselect(&mut self)
        requires
            old(self).wf(),
        ensures
            forall|body: B, spring: S| #[trigger]
                final(self).shows_click(old(self), Click::Deselect, body, spring),
    {
        self.graph.clear_multi_select();
        self.editor.sel_vertex = None;
    }

    fn pick_link(&mut self, l: usize)
        requires
            old(self).wf(),
        ensures
            forall|body: B, spring: S| #[trigger]
                final(self).shows_click(old(self), Click::PickLink(l), body, spring),
    {
        self.graph.clear_multi_select();
        self.editor.sel_link = Some(l);
        self.editor.sel_vertex = None;
        self.editor.anchor = 0;
        self.editor.gesture = Gesture::LinkSelected;
        self.editor.drag_dot = None;
    }

    fn toggle(&mut self, v: usize)
        requires
            old(self).wf(),
            old(self).graph.is_live(v),
        ensures
            forall|body: B, spring: S| #[trigger]
                final(self).shows_click(old(self), Click::Toggle(v), body, spring),
    {
        self.graph.toggle_selection(v);
    }

    fn grab(&mut self, v: usize, keep: bool)
        requires
            old(self).wf(),
            old(self).graph.is_live(v),
        ensures
            keep ==> forall|body: B, spring: S| #[trigger]
                final(self).shows_click(old(self), Click::GrabKeep(v), body, spring),
            !keep ==> forall|body: B, spring: S| #[trigger]
                final(self).shows_click(old(self), Click::Grab(v), body, spring),
    {
        if !keep {
            self.graph.clear_multi_select();
        }
        self.graph.set_selected(v, true);
        self.editor.sel_vertex = Some(v);
        self.editor.sel_link = None;
        self.editor.anchor = v;
        self.editor.gesture = Gesture::Dragging;
        self.editor.drag_dot = Some(v);
        proof {
            if !keep {
                assert(self.graph.vertices() =~= selecting(old(self).graph.vertices(), Some(v)));
            }
        }
    }

    fn place(&mut self, first: bool, body: B, spring: S)
        requires
            old(self).wf(),
        ensures
            final(self).shows_click(
                old(self),
                if first {
                    Click::PlaceFirst
                } else {
                    Click::PlaceNext
                },
                body,
                spring,
            ),
    {
        let phase = self.editor.current_phase;
        let anchor = self.editor.anchor;
        let ghost vs = self.graph.vertices();
        let anchored = self.graph.has_vertex(anchor);
        self.graph.clear_multi_select();
        let id = self.graph.add_vertex(0, phase, body);
        proof {
            assert forall|j: int| 0 <= j < id implies (#[trigger] vs[j]).used by {
                assert(selecting(vs, None)[j].used);
            }
            assert(id < vs.len() ==> !selecting(vs, None)[id as int].used);
            lemma_first_free_is_unique(vs, id as int);
        }
        if !first && anchored {
            let ghost before = self.graph.links();
            let added = self.graph.add_link(id, anchor, phase, spring);
            proof {
                if linked(before, id, anchor) {
                    let k = choose|k: int|
                        0 <= k < before.len() && #[trigger] before[k].joins(id, anchor);
                    assert(vs[before[k].src as int].used && vs[before[k].dest as int].used);
                }
                assert(added);
            }
        }
        self.graph.set_selected(id, true);
        self.editor.anchor = id;
        self.editor.sel_vertex = Some(id);
        if first {
            self.editor.gesture = Gesture::Chain;
        }
        assert(self.graph.vertices() =~= old(self).vertices_after(
            if first {
                Click::PlaceFirst
            } else {
                Click::PlaceNext
            },
            body,
        ));
    }

    fn join_to(&mut self, v: usize, spring: S)
        requires
            old(self).wf(),
            old(self).graph.is_live(v),
        ensures
            forall|body: B| #[trigger] final(self).shows_click(old(self), Click::JoinTo(v), body, spring),
    {
        let phase = self.editor.current_phase;
        let anchor = self.editor.anchor;
        let anchored = self.graph.has_vertex(anchor);
        self.graph.clear_multi_select();
        let joined = anchored && self.graph.add_link(v, anchor, phase, spring);
        self.graph.set_selected(v, true);
        self.editor.anchor = v;
        self.editor.sel_vertex = Some(v);
        if !joined {
            self.editor.gesture = Gesture::Dragging;
            self.editor.drag_dot = Some(v);
        }
        assert(self.graph.vertices() =~= selecting(old(self).graph.vertices(), Some(v)));
    }
}

impl<B, S> State<B, S> {
    /// The pointer's state after the button went up. A drag ends: while
    /// simulating, always; while editing, it turns into a chain from the
    /// dragged vertex where one vertex is selected, and into rest where
    /// several are. The secondary button ends nothing.
    pub open spec fn editor_after_release(&self, button2: bool) -> Editor {
        let e = self.editor;
        let n = self.graph.vertices().filter(counted_selected()).len();
        let gesture = if button2 || e.gesture != Gesture::Dragging {
            e.gesture
        } else {
            match e.mode {
                Mode::Editing => if n == 1 {
                    Gesture::Chain
                } else if n > 1 {
                    Gesture::Idle
                } else {
                    Gesture::Dragging
                },
                Mode::Simulating => Gesture::Idle,
                Mode::Inert => Gesture::Dragging,
            }
        };
        Editor { gesture, drag_dot: None, ..e }
    }

    /// Whether the release lets go of a vertex that was dragged through the
    /// running simulation.
    pub open spec fn lets_go(&self, button2: bool) -> bool {
        &&& !button2
        &&& self.editor.mode == Mode::Simulating
        &&& self.editor.gesture == Gesture::Dragging
        &&& self.editor.anchor < self.graph.vertices().len()
    }

    /// The pointer's button went up.
    pub fn mouse_up(&mut self, button2: bool)
        requires
            old(self).wf(),
        ensures
            final(self).wf(),
            final(self).editor == old(self).editor_after_release(button2),
            final(self).graph.vertices() == if old(self).lets_go(button2) {
                old(self).graph.vertices().update(
                    old(self).editor.anchor as int,
                    Vertex {
                        just_released: true,
                        ..old(self).graph.vertices()[old(self).editor.anchor as int]
                    },
                )
            } else {
                old(self).graph.vertices()
            },
            final(self).graph.links() == old(self).graph.links(),
            final(self).graph.triangles() == old(self).graph.triangles(),
            final(self).graph.dirty() == old(self).graph.dirty(),
            final(self).clock == old(self).clock,
            final(self).drive == old(self).drive,
            final(self).walls == old(self).walls,
    {
        let n = self.graph.how_many_selected();
        if !button2 && matches!(self.editor.gesture, Gesture::Dragging) {
            match self.editor.mode {
                Mode::Editing => {
                    if n == 1 {
                        self.editor.gesture = Gesture::Chain;
                    } else if n > 1 {
                        self.editor.gesture = Gesture::Idle;
                    }
                },
                Mode::Simulating => {
                    self.editor.gesture = Gesture::Idle;
                    if self.editor.anchor < self.graph.vertex_count() {
                        self.graph.release(self.editor.anchor);
                    }
                },
                Mode::Inert => {},
            }
        }
        self.editor.drag_dot = None;
    }
}

/// The first index at or behind `from` at which `hits` holds `true`, or the
/// length of `hits` where there is none.
pub open spec fn first_hit(hits: Seq<bool>, from: int) -> int
    decreases hits.len() - from,
{
    if from >= hits.len() {
        hits.len() as int
    } else if hits[from] {
        from
    } else {
        first_hit(hits, from + 1)
    }
}

/// The vertices that the pointer is on and that are in use.
pub open spec fn live_hits<B>(vertices: Seq<Vertex<B>>, on_vertex: Seq<bool>) -> Seq<bool> {
    Seq::new(vertices.len(), |i: int| vertices[i].used && on_vertex[i])
}

impl<B, S> State<B, S> {
    /// What the pointer hovers over, given for each vertex and for each link
    /// whether the pointer is on it. The first vertex of the store goes
    /// before every link, a link before every other vertex, and among
    /// links and among vertices the lowest number wins. An empty store
    /// leaves the hover as it is.
    pub open spec fn hover_after(&self, on_vertex: Seq<bool>, on_link: Seq<bool>) -> (
        Option<usize>,
        Option<usize>,
    ) {
        let vs = self.graph.vertices();
        let hits = live_hits(vs, on_vertex);
        let link = first_hit(on_link, 0);
        let vertex = first_hit(hits, 1);
        if vs.len() == 0 {
            (self.editor.hover_vertex, self.editor.hover_link)
        } else if hits[0] {
            (Some(0), None)
        } else if link < on_link.len() {
            (None, Some(link as usize))
        } else if vertex < hits.len() {
            (Some(vertex as usize), None)
        } else {
            (None, None)
        }
    }

    /// The pointer moved: works out anew what it hovers over.
    pub fn point_at(&mut self, on_vertex: &Vec<bool>, on_link: &Vec<bool>)
        requires
            old(self).wf(),
            on_vertex@.len() == old(self).graph.vertices().len(),
            on_link@.len() == old(self).graph.links().len(),
        ensures
            final(self).wf(),
            final(self).graph == old(self).graph,
            final(self).clock == old(self).clock,
            final(self).drive == old(self).drive,
            final(self).walls == old(self).walls,
            final(self).editor == (Editor {
                hover_vertex: old(self).hover_after(on_vertex@, on_link@).0,
                hover_link: old(self).hover_after(on_vertex@, on_link@).1,
                ..old(self).editor
            }),
    {
        let n = self.graph.vertex_count();
        if n == 0 {
            return ;
        }
        let ghost hits = live_hits(self.graph.vertices(), on_vertex@);
        if self.graph.vertex(0).used && on_vertex[0] {
            self.editor.hover_vertex = Some(0);
            self.editor.hover_link = None;
            return ;
        }
        let mut link: usize = 0;
        while link < on_link.len()
            invariant
                link <= on_link@.len(),
                first_hit(on_link@, 0) == first_hit(on_link@, link as int),
            ensures
                link == first_hit(on_link@, 0),
                link <= on_link@.len(),
            decreases on_link@.len() - link,
        {
            if on_link[link] {
                break ;
            }
            link += 1;
        }
        if link < on_link.len() {
            self.editor.hover_vertex = None;
            self.editor.hover_link = Some(link);
            return ;
        }
        let mut vertex: usize = 1;
        while vertex < n
            invariant
                1 <= vertex <= n,
                n == hits.len(),
                n == on_vertex@.len(),
                n == self.graph.vertices().len(),
                hits == live_hits(self.graph.vertices(), on_vertex@),
                first_hit(hits, 1) == first_hit(hits, vertex as int),
            ensures
                vertex == first_hit(hits, 1),
                vertex <= n,
            decreases n - vertex,
        {
            if self.graph.vertex(vertex).used && on_vertex[vertex] {
                break ;
            }
            vertex += 1;
        }
        if vertex < n {
            self.editor.hover_vertex = Some(vertex);
        } else {
            self.editor.hover_vertex = None;
        }
        self.editor.hover_link = None;
    }

    /// Switches between editing and simulating: the gesture and the
    /// selection are dropped.
    pub fn enter(&mut self, mode: Mode)
        requires
            old(self).wf(),
        ensures
            final(self).wf(),
            final(self).graph.vertices() == selecting(old(self).graph.vertices(), None),
            final(self).graph.links() == old(self).graph.links(),
            final(self).graph.triangles() == old(self).graph.triangles(),
            final(self).graph.dirty() == old(self).graph.dirty(),
            final(self).editor == (Editor {
                mode,
                gesture: Gesture::Idle,
                sel_vertex: None,
                sel_link: None,
                ..old(self).editor
            }),
            final(self).clock == old(self).clock,
            final(self).drive == old(self).drive,
            final(self).walls == old(self).walls,
    {
        self.editor.mode = mode;
        self.editor.gesture = Gesture::Idle;
        self.graph.clear_multi_select();
        self.editor.sel_vertex = None;
        self.editor.sel_link = None;
    }
}

} // verus!
