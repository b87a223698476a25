//! Deletion: of one vertex, and of everything that is selected.

use vstd::prelude::*;
use crate::editor::{Editor, Gesture};
use crate::filters::{lemma_filter_alike, lemma_filter_all, lemma_filter_twice};
use crate::graph::{clear_of, selecting, Link, Vertex};
use crate::state::State;

verus! {

/// Whether deletion of the selection takes vertex `j`, as far as the vertices
/// below `upto` have been looked at: nothing goes unless a vertex is
/// selected as the current one; then that one goes, and every slot that
/// carries a selection mark.
pub open spec fn doomed<B>(vertices: Seq<Vertex<B>>, current: Option<usize>, upto: int, j: int) -> bool {
    match current {
        Some(c) => 0 <= j < vertices.len() && (j == c || (j < upto && vertices[j].selected)),
        None => false,
    }
}

/// The predicate that keeps the links between vertices that stay.
pub open spec fn sparing<B, S>(vertices: Seq<Vertex<B>>, current: Option<usize>, upto: int) -> spec_fn(
    Link<S>,
) -> bool {
    |link: Link<S>|
        !doomed(vertices, current, upto, link.src as int) && !doomed(
            vertices,
            current,
            upto,
            link.dest as int,
        )
}

impl<B, S> State<B, S> {
    /// The pointer's state after vertex `id` went: a gesture that worked on
    /// it is dropped.
    pub open spec fn editor_without(editor: Editor, id: usize) -> Editor {
        if editor.anchor == id || editor.drag_dot == Some(id) {
            Editor { anchor: 0, gesture: Gesture::Idle, drag_dot: None, ..editor }
        } else {
            editor
        }
    }

    /// Deletes a vertex with its links, and drops a gesture that worked on
    /// it.
    pub fn delete_vertex(&mut self, id: usize)
        requires
            old(self).wf(),
            id < old(self).graph.vertices().len(),
        ensures
            final(self).wf(),
            final(self).graph.vertices() == old(self).graph.vertices().update(
                id as int,
                Vertex { used: false, ..old(self).graph.vertices()[id as int] },
            ),
            final(self).graph.links() == old(self).graph.links().filter(clear_of(id)),
            final(self).graph.triangles() == old(self).graph.triangles(),
            final(self).graph.dirty(),
            final(self).editor == Self::editor_without(old(self).editor, id),
            final(self).clock == old(self).clock,
            final(self).drive == old(self).drive,
            final(self).walls == old(self).walls,
    {
        let dragged = match self.editor.drag_dot {
            Some(d) => d == id,
            None => false,
        };
        if self.editor.anchor == id || dragged {
            self.editor.anchor = 0;
            self.editor.gesture = Gesture::Idle;
            self.editor.drag_dot = None;
        }
        self.graph.delete_vertex(id);
    }
}

impl<B, S> State<B, S> {
    /// The slots after the vertices that deletion takes have become
    /// tombstones, as far as the vertices below `upto` have been looked at.
    pub open spec fn vertices_without_doomed(&self, upto: int) -> Seq<Vertex<B>> {
        let vs = self.graph.vertices();
        Seq::new(
            vs.len(),
            |j: int|
                Vertex {
                    used: vs[j].used && !doomed(vs, self.editor.sel_vertex, upto, j),
                    ..vs[j]
                },
        )
    }

    /// Whether deletion takes a vertex that the gesture works on.
    pub open spec fn gesture_is_doomed(&self, upto: int) -> bool {
        let vs = self.graph.vertices();
        let e = self.editor;
        ||| doomed(vs, e.sel_vertex, upto, e.anchor as int)
        ||| match e.drag_dot {
            Some(d) => doomed(vs, e.sel_vertex, upto, d as int),
            None => false,
        }
    }

    /// The pointer's state after the doomed vertices went.
    pub open spec fn editor_without_doomed(&self, upto: int) -> Editor {
        if self.gesture_is_doomed(upto) {
            Editor { anchor: 0, gesture: Gesture::Idle, drag_dot: None, ..self.editor }
        } else {
            self.editor
        }
    }

    /// Some vertex is taken by deletion.
    pub open spec fn any_doomed(&self, upto: int) -> bool {
        exists|j: int| doomed(self.graph.vertices(), self.editor.sel_vertex, upto, j)
    }

    /// Deletes the current vertex and every vertex that carries a selection
    /// mark, if there is a current vertex at all.
    fn delete_selected_vertices(&mut self)
        requires
            old(self).wf(),
        ensures
            final(self).wf(),
            final(self).graph.vertices() == old(self).vertices_without_doomed(
                old(self).graph.vertices().len() as int,
            ),
            final(self).graph.links() == old(self).graph.links().filter(
                sparing(
                    old(self).graph.vertices(),
                    old(self).editor.sel_vertex,
                    old(self).graph.vertices().len() as int,
                ),
            ),
            final(self).graph.triangles() == old(self).graph.triangles(),
            final(self).graph.dirty() == (old(self).graph.dirty() || old(self).any_doomed(
                old(self).graph.vertices().len() as int,
            )),
            final(self).editor == old(self).editor_without_doomed(
                old(self).graph.vertices().len() as int,
            ),
            final(self).clock == old(self).clock,
            final(self).drive == old(self).drive,
            final(self).walls == old(self).walls,
    {
        let ghost vs = self.graph.vertices();
        let ghost ls = self.graph.links();
        let ghost current = self.editor.sel_vertex;
        let n = self.graph.vertex_count();
        let c = match self.editor.sel_vertex {
            Some(c) => c,
            None => {
                proof {
                    lemma_filter_all(ls, sparing::<B, S>(vs, current, n as int));
                    assert(self.graph.vertices() =~= old(self).vertices_without_doomed(n as int));
                }
                return ;
            },
        };
        if c < n {
            self.delete_vertex(c);
            proof {
                lemma_filter_alike(ls, clear_of::<S>(c), sparing::<B, S>(vs, current, 0));
                assert(doomed(vs, current, 0, c as int));
            }
        } else {
            proof {
                lemma_filter_all(ls, sparing::<B, S>(vs, current, 0));
            }
        }
        assert(self.graph.vertices() =~= old(self).vertices_without_doomed(0));
        let mut i: usize = 0;
        while i < n
            invariant
                i <= n,
                n == vs.len(),
                vs == old(self).graph.vertices(),
                ls == old(self).graph.links(),
                current == old(self).editor.sel_vertex,
                current == Some(c),
                self.wf(),
                self.graph.vertices() == old(self).vertices_without_doomed(i as int),
                self.graph.links() == ls.filter(sparing::<B, S>(vs, current, i as int)),
                self.graph.triangles() == old(self).graph.triangles(),
                self.graph.dirty() == (old(self).graph.dirty() || old(self).any_doomed(i as int)),
                self.editor == old(self).editor_without_doomed(i as int),
                self.clock == old(self).clock,
                self.drive == old(self).drive,
                self.walls == old(self).walls,
            decreases n - i,
        {
            let ghost before = self.editor;
            if self.graph.vertex(i).selected {
                self.delete_vertex(i);
                proof {
                    lemma_filter_twice(
                        ls,
                        sparing::<B, S>(vs, current, i as int),
                        clear_of::<S>(i),
                        sparing::<B, S>(vs, current, i + 1),
                    );
                    assert(doomed(vs, current, i + 1, i as int));
                    assert(self.editor == old(self).editor_without_doomed(i + 1));
                }
            } else {
                proof {
                    lemma_filter_alike(
                        ls,
                        sparing::<B, S>(vs, current, i as int),
                        sparing::<B, S>(vs, current, i + 1),
                    );
                    let here: int = i as int;
                    let next: int = i + 1;
                    if old(self).any_doomed(next) {
                        let j = choose|j: int| doomed(vs, current, next, j);
                        assert(doomed(vs, current, here, j));
                    }
                    if old(self).any_doomed(here) {
                        let j = choose|j: int| doomed(vs, current, here, j);
                        assert(doomed(vs, current, next, j));
                    }
                }
            }
            assert(self.graph.vertices() =~= old(self).vertices_without_doomed(i + 1));
            i += 1;
        }
    }
}

impl<B, S> State<B, S> {
    /// The links after the doomed vertices went with theirs.
    pub open spec fn links_without_doomed(&self) -> Seq<Link<S>> {
        self.graph.links().filter(
            sparing(
                self.graph.vertices(),
                self.editor.sel_vertex,
                self.graph.vertices().len() as int,
            ),
        )
    }

    /// Whether deletion takes the selected link: there is one, and its
    /// number still names a link once the doomed vertices went with theirs.
    pub open spec fn link_is_doomed(&self) -> bool {
        match self.editor.sel_link {
            Some(l) => l < self.links_without_doomed().len(),
            None => false,
        }
    }

    /// Deletes what is selected. If a vertex is the current one, it goes
    /// together with every vertex that carries a selection mark, and with
    /// the links of all of them. Then the selected link goes, by its number
    /// among the links that are left. Nothing is selected afterwards.
    pub fn delete(&mut self)
        requires
            old(self).wf(),
        ensures
            final(self).wf(),
            final(self).graph.vertices() == selecting(
                old(self).vertices_without_doomed(old(self).graph.vertices().len() as int),
                None,
            ),
            final(self).graph.links() == if old(self).link_is_doomed() {
                old(self).links_without_doomed().remove(old(self).editor.sel_link->0 as int)
            } else {
                old(self).links_without_doomed()
            },
            final(self).graph.triangles() == old(self).graph.triangles(),
            final(self).graph.dirty() == (old(self).graph.dirty() || old(self).any_doomed(
                old(self).graph.vertices().len() as int,
            ) || old(self).link_is_doomed()),
            final(self).editor == (Editor {
                sel_vertex: None,
                sel_link: None,
                ..old(self).editor_without_doomed(old(self).graph.vertices().len() as int)
            }),
            final(self).clock == old(self).clock,
            final(self).drive == old(self).drive,
            final(self).walls == old(self).walls,
    {
        self.delete_selected_vertices();
        match self.editor.sel_link {
            Some(l) => {
                if l < self.graph.link_count() {
                    self.graph.delete_link(l);
                }
            },
            None => {},
        }
        self.graph.clear_multi_select();
        self.editor.sel_vertex = None;
        self.editor.sel_link = None;
    }
}

} // verus!
