//! The vertex and link store: point masses in numbered slots, joined by
//! links that name their endpoints by slot. A deleted vertex leaves its slot
//! behind as a tombstone, so the numbers of the others never change.
//!
//! Positions, velocities and spring constants are not interpreted here. Each
//! vertex carries them as a body of type `B`, each link as a spring of type
//! `S`, and the store hands them back exactly as it was given them.

use vstd::prelude::*;
use crate::filters::lemma_filter_step;
use crate::triangles::find;

verus! {

/// Phase at which a new link's actuation pulse is centred.
pub const DEFAULT_PUSH_TIMING: i32 = 180;

/// Half-width of a new link's actuation pulse.
pub const DEFAULT_PUSH_SPAN: i32 = 40;

/// A point mass, or a wheel where `radius` is positive.
#[derive(Debug)]
pub struct Vertex<B> {
    /// `false` marks a tombstone: the slot is free and takes no part in
    /// anything.
    pub used: bool,
    /// Set when a drag ends; the next tick drops the velocity and clears it.
    pub just_released: bool,
    pub selected: bool,
    /// Contact radius; zero for a plain point.
    pub radius: u32,
    /// Always `radius > 0`.
    pub is_wheel: bool,
    /// Actuation group.
    pub phase: u8,
    /// Position, velocity, spin and heading.
    pub body: B,
}

impl<B> Vertex<B> {
    /// The wheel flag is in line with the radius.
    pub open spec fn wf(self) -> bool {
        self.is_wheel == (self.radius > 0)
    }

    /// The vertex that `add_vertex` puts into a slot.
    pub open spec fn fresh(radius: u32, phase: u8, body: B) -> Vertex<B> {
        Vertex {
            used: true,
            just_released: false,
            selected: false,
            radius,
            is_wheel: radius > 0,
            phase,
            body,
        }
    }
}

/// A distance constraint between two vertices.
#[derive(Debug)]
pub struct Link<S> {
    pub src: usize,
    pub dest: usize,
    /// Centre of the actuation pulse, in clock units.
    pub push_timing: i32,
    /// Half-width of the actuation pulse, in clock units.
    pub push_span: i32,
    /// Actuation group.
    pub phase: u8,
    /// Rest length, tension and push strength.
    pub spring: S,
}

impl<S> Link<S> {
    /// One end of the link is `v`.
    pub open spec fn touches(self, v: usize) -> bool {
        self.src == v || self.dest == v
    }

    /// The link runs between `a` and `b`, in either direction.
    pub open spec fn joins(self, a: usize, b: usize) -> bool {
        (self.src == a && self.dest == b) || (self.src == b && self.dest == a)
    }

    /// The link that `add_link` appends.
    pub open spec fn fresh(src: usize, dest: usize, phase: u8, spring: S) -> Link<S> {
        Link {
            src,
            dest,
            push_timing: DEFAULT_PUSH_TIMING,
            push_span: DEFAULT_PUSH_SPAN,
            phase,
            spring,
        }
    }
}

/// `i` is the slot that a new vertex goes to: the first tombstone, or the
/// end of the slots where there is none.
pub open spec fn is_first_free<B>(vertices: Seq<Vertex<B>>, i: int) -> bool {
    &&& 0 <= i <= vertices.len()
    &&& forall|j: int| 0 <= j < i ==> (#[trigger] vertices[j]).used
    &&& i < vertices.len() ==> !vertices[i].used
}

/// The slot that a new vertex goes to.
pub open spec fn first_free<B>(vertices: Seq<Vertex<B>>) -> int {
    choose|i: int| is_first_free(vertices, i)
}

/// There is one slot that a new vertex can go to, and no other.
pub proof fn lemma_first_free_is_unique<B>(vertices: Seq<Vertex<B>>, i: int)
    requires
        is_first_free(vertices, i),
    ensures
        first_free(vertices) == i,
{
    let j = first_free(vertices);
    if j < i {
        assert(vertices[j].used);
    }
    if i < j {
        assert(vertices[i].used);
    }
}

/// Some link runs between `a` and `b`.
pub open spec fn linked<S>(links: Seq<Link<S>>, a: usize, b: usize) -> bool {
    exists|k: int| 0 <= k < links.len() && #[trigger] links[k].joins(a, b)
}

/// A store with `links` takes `link` as one more: it runs between two
/// different vertices that no link joins yet.
pub open spec fn admits<S>(links: Seq<Link<S>>, link: Link<S>) -> bool {
    link.src != link.dest && !linked(links, link.src, link.dest)
}

/// The links that a store takes when `links` are offered to it one after
/// the other.
pub open spec fn admitted<S>(links: Seq<Link<S>>) -> Seq<Link<S>>
    decreases links.len(),
{
    if links.len() == 0 {
        Seq::empty()
    } else {
        let before = admitted(links.drop_last());
        if admits(before, links.last()) {
            before.push(links.last())
        } else {
            before
        }
    }
}

/// Every link runs between two different live vertices.
pub open spec fn links_anchored<B, S>(vertices: Seq<Vertex<B>>, links: Seq<Link<S>>) -> bool {
    forall|k: int|
        0 <= k < links.len() ==> {
            let link = #[trigger] links[k];
            &&& link.src < vertices.len()
            &&& link.dest < vertices.len()
            &&& link.src != link.dest
            &&& vertices[link.src as int].used
            &&& vertices[link.dest as int].used
        }
}

/// No two links run between the same pair of vertices.
pub open spec fn links_distinct<S>(links: Seq<Link<S>>) -> bool {
    forall|j: int, k: int|
        0 <= j < k < links.len() ==> !(#[trigger] links[j]).joins(
            (#[trigger] links[k]).src,
            links[k].dest,
        )
}

/// The three vertices are pairwise linked; the triple names them in
/// ascending order.
pub open spec fn is_triangle<S>(links: Seq<Link<S>>, t: (usize, usize, usize)) -> bool {
    &&& t.0 < t.1 < t.2
    &&& linked(links, t.0, t.1)
    &&& linked(links, t.1, t.2)
    &&& linked(links, t.0, t.2)
}

/// `found` lists every triangle of `links` once and nothing else.
pub open spec fn lists_triangles<S>(
    found: Seq<(usize, usize, usize)>,
    links: Seq<Link<S>>,
) -> bool {
    &&& found.no_duplicates()
    &&& forall|t: (usize, usize, usize)| found.contains(t) <==> is_triangle(links, t)
}

/// The slots with the selection mark on `only` and on no other.
pub open spec fn selecting<B>(vertices: Seq<Vertex<B>>, only: Option<usize>) -> Seq<Vertex<B>> {
    Seq::new(
        vertices.len(),
        |i: int|
            Vertex {
                selected: match only {
                    Some(v) => i == v,
                    None => false,
                },
                ..vertices[i]
            },
    )
}

/// The predicate that keeps the links clear of vertex `id`.
pub open spec fn clear_of<S>(id: usize) -> spec_fn(Link<S>) -> bool {
    |link: Link<S>| !link.touches(id)
}

/// The predicate that picks the vertices counted as selected.
pub open spec fn counted_selected<B>() -> spec_fn(Vertex<B>) -> bool {
    |v: Vertex<B>| v.selected && v.used
}

/// The store itself, with the cache of triangles that is derived from it.
pub struct Graph<B, S> {
    vertices: Vec<Vertex<B>>,
    links: Vec<Link<S>>,
    triangles: Vec<(usize, usize, usize)>,
    dirty: bool,
}

impl<B, S> Graph<B, S> {
    /// The vertex slots, tombstones included, by number.
    pub closed spec fn vertices(&self) -> Seq<Vertex<B>> {
        self.vertices@
    }

    /// The links in storage order.
    pub closed spec fn links(&self) -> Seq<Link<S>> {
        self.links@
    }

    /// The cached triangles, which may be stale while `dirty` holds.
    pub closed spec fn triangles(&self) -> Seq<(usize, usize, usize)> {
        self.triangles@
    }

    /// The topology changed since the triangles were last derived.
    pub closed spec fn dirty(&self) -> bool {
        self.dirty
    }

    /// `id` names a vertex that is in use.
    pub open spec fn is_live(&self, id: usize) -> bool {
        id < self.vertices().len() && self.vertices()[id as int].used
    }

    /// The store is in order: wheel flags in line with the radii, every link
    /// between two different live vertices, no pair of vertices linked twice,
    /// and the cache, unless marked stale, a list of the triangles.
    pub open spec fn wf(&self) -> bool {
        &&& forall|i: int| 0 <= i < self.vertices().len() ==> (#[trigger] self.vertices()[i]).wf()
        &&& links_anchored(self.vertices(), self.links())
        &&& links_distinct(self.links())
        &&& !self.dirty() ==> lists_triangles(self.triangles(), self.links())
    }

    /// An empty store.
    pub fn new() -> (graph: Graph<B, S>)
        ensures
            graph.wf(),
            graph.vertices().len() == 0,
            graph.links().len() == 0,
            graph.triangles().len() == 0,
            !graph.dirty(),
    {
        let graph = Graph { vertices: Vec::new(), links: Vec::new(), triangles: Vec::new(), dirty: false };
        assert forall|t: (usize, usize, usize)|
            graph.triangles().contains(t) <==> is_triangle(graph.links(), t) by {
            if is_triangle(graph.links(), t) {
                assert(linked(graph.links(), t.0, t.1));
            }
        }
        graph
    }

    /// The number of slots, tombstones included.
    pub fn vertex_count(&self) -> (n: usize)
        ensures
            n == self.vertices().len(),
    {
        self.vertices.len()
    }

    /// The number of links.
    pub fn link_count(&self) -> (n: usize)
        ensures
            n == self.links().len(),
    {
        self.links.len()
    }

    /// The vertex in slot `id`.
    pub fn vertex(&self, id: usize) -> (v: &Vertex<B>)
        requires
            id < self.vertices().len(),
        ensures
            *v == self.vertices()[id as int],
    {
        &self.vertices[id]
    }

    /// The link of number `id`.
    pub fn link(&self, id: usize) -> (l: &Link<S>)
        requires
            id < self.links().len(),
        ensures
            *l == self.links()[id as int],
    {
        &self.links[id]
    }

    /// Whether the topology changed since the triangles were last derived.
    pub fn is_dirty(&self) -> (d: bool)
        ensures
            d == self.dirty(),
    {
        self.dirty
    }

    /// Whether `id` names a vertex in use.
    pub fn has_vertex(&self, id: usize) -> (live: bool)
        ensures
            live == self.is_live(id),
    {
        id < self.vertices.len() && self.vertices[id].used
    }
}

impl<B, S> Graph<B, S> {
    /// Puts a new vertex into the first free slot, or into a new slot at the
    /// end where none is free, and returns the slot's number.
    pub fn add_vertex(&mut self, radius: u32, phase: u8, body: B) -> (id: usize)
        requires
            old(self).wf(),
        ensures
            final(self).wf(),
            is_first_free(old(self).vertices(), id as int),
            id == first_free(old(self).vertices()),
            final(self).vertices() == if id < old(self).vertices().len() {
                old(self).vertices().update(id as int, Vertex::fresh(radius, phase, body))
            } else {
                old(self).vertices().push(Vertex::fresh(radius, phase, body))
            },
            final(self).is_live(id),
            final(self).links() == old(self).links(),
            final(self).triangles() == old(self).triangles(),
            final(self).dirty(),
    {
        let vertex = Vertex {
            used: true,
            just_released: false,
            selected: false,
            radius,
            is_wheel: radius > 0,
            phase,
            body,
        };
        self.dirty = true;
        let mut i: usize = 0;
        while i < self.vertices.len()
            invariant
                i <= self.vertices.len(),
                forall|j: int| 0 <= j < i ==> self.vertices@[j].used,
            ensures
                i < self.vertices.len() ==> !self.vertices@[i as int].used,
            decreases self.vertices.len() - i,
        {
            if !self.vertices[i].used {
                break ;
            }
            i += 1;
        }
        proof {
            lemma_first_free_is_unique(old(self).vertices(), i as int);
        }
        if i < self.vertices.len() {
            self.vertices[i] = vertex;
        } else {
            self.vertices.push(vertex);
        }
        i
    }

    /// Removes every link that ends at `id`, then turns the vertex into a
    /// tombstone. No other vertex changes or moves.
    pub fn delete_vertex(&mut self, id: usize)
        requires
            old(self).wf(),
            id < old(self).vertices().len(),
        ensures
            final(self).wf(),
            final(self).vertices() == old(self).vertices().update(
                id as int,
                Vertex { used: false, ..old(self).vertices()[id as int] },
            ),
            final(self).links() == old(self).links().filter(clear_of(id)),
            final(self).triangles() == old(self).triangles(),
            final(self).dirty(),
    {
        self.dirty = true;
        let ghost before = self.links@;
        let ghost keep = clear_of::<S>(id);
        let ghost mut seen: int = 0;
        let mut i: usize = 0;
        while i < self.links.len()
            invariant
                0 <= seen <= before.len(),
                i <= self.links.len(),
                self.links.len() - i == before.len() - seen,
                self.links@.take(i as int) == before.take(seen).filter(keep),
                self.links@.skip(i as int) == before.skip(seen),
                forall|k: int| 0 <= k < i ==> !(#[trigger] self.links@[k]).touches(id),
                links_anchored(self.vertices@, self.links@),
                links_distinct(self.links@),
                keep == clear_of::<S>(id),
                self.vertices == old(self).vertices,
                self.triangles == old(self).triangles,
                self.dirty,
            decreases self.links.len() - i,
        {
            let ghost current = self.links@;
            proof {
                lemma_filter_step(before, seen, keep);
                assert(current[i as int] == current.skip(i as int)[0]);
            }
            if self.links[i].src == id || self.links[i].dest == id {
                self.links.remove(i);
                proof {
                    assert(self.links@.take(i as int) =~= current.take(i as int));
                    assert(self.links@.skip(i as int) =~= current.skip(i as int).skip(1));
                    assert(before.skip(seen).skip(1) =~= before.skip(seen + 1));
                }
            } else {
                i += 1;
                proof {
                    assert(self.links@.take(i as int) =~= current.take(i - 1).push(
                        current[i - 1],
                    ));
                    assert(self.links@.skip(i as int) =~= current.skip(i - 1).skip(1));
                    assert(before.skip(seen).skip(1) =~= before.skip(seen + 1));
                }
            }
            proof {
                seen = seen + 1;
            }
        }
        proof {
            assert(self.links@.take(i as int) =~= self.links@);
            assert(before.take(seen) =~= before);
        }
        self.vertices[id].used = false;
    }

    /// Removes link `id`. The links behind it move up by one.
    pub fn delete_link(&mut self, id: usize)
        requires
            old(self).wf(),
            id < old(self).links().len(),
        ensures
            final(self).wf(),
            final(self).links() == old(self).links().remove(id as int),
            final(self).vertices() == old(self).vertices(),
            final(self).triangles() == old(self).triangles(),
            final(self).dirty(),
    {
        self.links.remove(id);
        self.dirty = true;
    }

    /// Whether some link runs between `src` and `dest`, in either direction.
    pub fn are_linked(&self, src: usize, dest: usize) -> (found: bool)
        ensures
            found == linked(self.links(), src, dest),
    {
        let mut k: usize = 0;
        while k < self.links.len()
            invariant
                k <= self.links.len(),
                forall|j: int| 0 <= j < k ==> !(#[trigger] self.links@[j]).joins(src, dest),
            decreases self.links.len() - k,
        {
            let link = &self.links[k];
            if (link.src == src && link.dest == dest) || (link.dest == src && link.src == dest) {
                assert(self.links@[k as int].joins(src, dest));
                return true;
            }
            k += 1;
        }
        false
    }

    /// Puts a link that is ready-made at the end of the store, unless it runs
    /// from a vertex to itself or between two that are linked already. Says
    /// whether the link was put in; if not, nothing changes.
    pub fn insert_link(&mut self, link: Link<S>) -> (added: bool)
        requires
            old(self).wf(),
            old(self).is_live(link.src),
            old(self).is_live(link.dest),
        ensures
            final(self).wf(),
            added == admits(old(self).links(), link),
            added ==> final(self).links() == old(self).links().push(link) && final(self).dirty(),
            !added ==> final(self).links() == old(self).links() && final(self).dirty() == old(
                self,
            ).dirty(),
            final(self).vertices() == old(self).vertices(),
            final(self).triangles() == old(self).triangles(),
    {
        if link.src == link.dest {
            return false;
        }
        if self.are_linked(link.src, link.dest) {
            return false;
        }
        self.links.push(link);
        self.dirty = true;
        true
    }

    /// Joins two vertices by a new link at the end of the store, unless they
    /// are one and the same or a link already runs between them. Says
    /// whether the link was added; if not, nothing changes.
    pub fn add_link(&mut self, src: usize, dest: usize, phase: u8, spring: S) -> (added: bool)
        requires
            old(self).wf(),
            old(self).is_live(src),
            old(self).is_live(dest),
        ensures
            final(self).wf(),
            added == (src != dest && !linked(old(self).links(), src, dest)),
            added ==> final(self).links() == old(self).links().push(
                Link::fresh(src, dest, phase, spring),
            ) && final(self).dirty(),
            !added ==> final(self).links() == old(self).links() && final(self).dirty() == old(
                self,
            ).dirty(),
            final(self).vertices() == old(self).vertices(),
            final(self).triangles() == old(self).triangles(),
    {
        self.insert_link(
            Link {
                src,
                dest,
                push_timing: DEFAULT_PUSH_TIMING,
                push_span: DEFAULT_PUSH_SPAN,
                phase,
                spring,
            },
        )
    }

    /// Makes a vertex a wheel of the given radius, or a plain point where
    /// the radius is zero.
    pub fn set_wheel(&mut self, vertex: usize, radius: u32)
        requires
            old(self).wf(),
            vertex < old(self).vertices().len(),
        ensures
            final(self).wf(),
            final(self).vertices() == old(self).vertices().update(
                vertex as int,
                Vertex { radius, is_wheel: radius > 0, ..old(self).vertices()[vertex as int] },
            ),
            final(self).links() == old(self).links(),
            final(self).triangles() == old(self).triangles(),
            final(self).dirty(),
    {
        self.vertices[vertex].radius = radius;
        self.vertices[vertex].is_wheel = radius > 0;
        self.dirty = true;
    }
}

impl<B, S> Graph<B, S> {
    /// Replaces the body of a vertex. The topology is untouched, so the
    /// cached triangles stay as good as they were.
    pub fn set_body(&mut self, id: usize, body: B)
        requires
            old(self).wf(),
            id < old(self).vertices().len(),
        ensures
            final(self).wf(),
            final(self).vertices() == old(self).vertices().update(
                id as int,
                Vertex { body, ..old(self).vertices()[id as int] },
            ),
            final(self).links() == old(self).links(),
            final(self).triangles() == old(self).triangles(),
            final(self).dirty() == old(self).dirty(),
    {
        self.vertices[id].body = body;
    }

    /// Replaces the spring of a link, as the stepper does each tick.
    pub fn set_spring(&mut self, id: usize, spring: S)
        requires
            old(self).wf(),
            id < old(self).links().len(),
        ensures
            final(self).wf(),
            final(self).links() == old(self).links().update(
                id as int,
                Link { spring, ..old(self).links()[id as int] },
            ),
            final(self).vertices() == old(self).vertices(),
            final(self).triangles() == old(self).triangles(),
            final(self).dirty() == old(self).dirty(),
    {
        self.links[id].spring = spring;
        proof {
            lemma_same_ends_keep_triangles(old(self).links(), self.links());
        }
    }

    /// Gives a link the spring that was measured anew from its endpoints,
    /// and marks the cache stale as every edit does.
    pub fn reset_link(&mut self, link: usize, spring: S)
        requires
            old(self).wf(),
            link < old(self).links().len(),
        ensures
            final(self).wf(),
            final(self).links() == old(self).links().update(
                link as int,
                Link { spring, ..old(self).links()[link as int] },
            ),
            final(self).vertices() == old(self).vertices(),
            final(self).triangles() == old(self).triangles(),
            final(self).dirty(),
    {
        self.links[link].spring = spring;
        self.dirty = true;
    }

    /// Sets centre and half-width of a link's actuation pulse.
    pub fn set_push(&mut self, id: usize, push_timing: i32, push_span: i32)
        requires
            old(self).wf(),
            id < old(self).links().len(),
        ensures
            final(self).wf(),
            final(self).links() == old(self).links().update(
                id as int,
                Link { push_timing, push_span, ..old(self).links()[id as int] },
            ),
            final(self).vertices() == old(self).vertices(),
            final(self).triangles() == old(self).triangles(),
            final(self).dirty() == old(self).dirty(),
    {
        self.links[id].push_timing = push_timing;
        self.links[id].push_span = push_span;
        proof {
            lemma_same_ends_keep_triangles(old(self).links(), self.links());
        }
    }

    /// Marks a vertex as selected or not.
    pub fn set_selected(&mut self, id: usize, selected: bool)
        requires
            old(self).wf(),
            id < old(self).vertices().len(),
        ensures
            final(self).wf(),
            final(self).vertices() == old(self).vertices().update(
                id as int,
                Vertex { selected, ..old(self).vertices()[id as int] },
            ),
            final(self).links() == old(self).links(),
            final(self).triangles() == old(self).triangles(),
            final(self).dirty() == old(self).dirty(),
    {
        self.vertices[id].selected = selected;
    }

    /// Inverts the selection mark of one vertex.
    pub fn toggle_selection(&mut self, id: usize)
        requires
            old(self).wf(),
            id < old(self).vertices().len(),
        ensures
            final(self).wf(),
            final(self).vertices() == old(self).vertices().update(
                id as int,
                Vertex {
                    selected: !old(self).vertices()[id as int].selected,
                    ..old(self).vertices()[id as int]
                },
            ),
            final(self).links() == old(self).links(),
            final(self).triangles() == old(self).triangles(),
            final(self).dirty() == old(self).dirty(),
    {
        let now = !self.vertices[id].selected;
        self.vertices[id].selected = now;
    }

    /// Clears the selection mark of every slot, tombstones included.
    pub fn clear_multi_select(&mut self)
        requires
            old(self).wf(),
        ensures
            final(self).wf(),
            final(self).vertices() == selecting(old(self).vertices(), None),
            final(self).links() == old(self).links(),
            final(self).triangles() == old(self).triangles(),
            final(self).dirty() == old(self).dirty(),
    {
        let mut i: usize = 0;
        while i < self.vertices.len()
            invariant
                i <= self.vertices.len(),
                self.vertices.len() == old(self).vertices.len(),
                forall|j: int|
                    0 <= j < i ==> #[trigger] self.vertices@[j] == (Vertex {
                        selected: false,
                        ..old(self).vertices@[j]
                    }),
                forall|j: int|
                    i <= j < self.vertices.len() ==> #[trigger] self.vertices@[j] == old(
                        self,
                    ).vertices@[j],
                self.links == old(self).links,
                self.triangles == old(self).triangles,
                self.dirty == old(self).dirty,
            decreases self.vertices.len() - i,
        {
            self.vertices[i].selected = false;
            i += 1;
        }
        assert(self.vertices@ =~= selecting(old(self).vertices@, None));
    }

    /// Counts the vertices that are in use and selected.
    pub fn how_many_selected(&self) -> (n: usize)
        ensures
            n == self.vertices().filter(counted_selected()).len(),
    {
        let ghost pick = counted_selected::<B>();
        let mut n: usize = 0;
        let mut i: usize = 0;
        while i < self.vertices.len()
            invariant
                i <= self.vertices.len(),
                n <= i,
                pick == counted_selected::<B>(),
                n == self.vertices@.take(i as int).filter(pick).len(),
            decreases self.vertices.len() - i,
        {
            proof {
                lemma_filter_step(self.vertices@, i as int, pick);
            }
            if self.vertices[i].selected && self.vertices[i].used {
                n += 1;
            }
            i += 1;
        }
        proof {
            assert(self.vertices@.take(i as int) =~= self.vertices@);
        }
        n
    }

    /// Marks a vertex as just let go of a drag, so that the next tick drops
    /// its velocity.
    pub fn release(&mut self, id: usize)
        requires
            old(self).wf(),
            id < old(self).vertices().len(),
        ensures
            final(self).wf(),
            final(self).vertices() == old(self).vertices().update(
                id as int,
                Vertex { just_released: true, ..old(self).vertices()[id as int] },
            ),
            final(self).links() == old(self).links(),
            final(self).triangles() == old(self).triangles(),
            final(self).dirty() == old(self).dirty(),
    {
        self.vertices[id].just_released = true;
    }

    /// A link is connected to the selection if one of its ends is a
    /// selected vertex.
    pub open spec fn link_is_connected(&self, k: int) -> bool {
        let link = self.links()[k];
        self.vertices()[link.src as int].selected || self.vertices()[link.dest as int].selected
    }

    /// The numbers of the links that have a selected vertex at one end, in
    /// ascending order: the links to measure anew after the selection moved.
    pub fn connected_links(&self) -> (ids: Vec<usize>)
        requires
            self.wf(),
        ensures
            forall|k: int|
                0 <= k < self.links().len() ==> (ids@.contains(k as usize)
                    <==> self.link_is_connected(k)),
            forall|n: int| 0 <= n < ids@.len() ==> (#[trigger] ids@[n]) < self.links().len(),
            forall|m: int, n: int| 0 <= m < n < ids@.len() ==> ids@[m] < ids@[n],
    {
        let mut ids: Vec<usize> = Vec::new();
        let mut k: usize = 0;
        while k < self.links.len()
            invariant
                k <= self.links.len(),
                self.wf(),
                forall|j: int|
                    0 <= j < k ==> (ids@.contains(j as usize) <==> self.link_is_connected(j)),
                forall|n: int| 0 <= n < ids@.len() ==> (#[trigger] ids@[n]) < k,
                forall|m: int, n: int| 0 <= m < n < ids@.len() ==> ids@[m] < ids@[n],
            decreases self.links.len() - k,
        {
            let link = &self.links[k];
            assert(self.links()[k as int] == *link);
            let ghost before = ids@;
            if self.vertices[link.src].selected || self.vertices[link.dest].selected {
                ids.push(k);
                proof {
                    assert(ids@[before.len() as int] == k);
                    assert forall|j: int| 0 <= j < k + 1 implies (ids@.contains(j as usize)
                        <==> self.link_is_connected(j)) by {
                        if j < k {
                            if before.contains(j as usize) {
                                let n = choose|n: int| 0 <= n < before.len() && before[n] == j as usize;
                                assert(ids@[n] == j as usize);
                            }
                            if ids@.contains(j as usize) {
                                let n = choose|n: int| 0 <= n < ids@.len() && ids@[n] == j as usize;
                                assert(before[n] == j as usize);
                            }
                        }
                    }
                }
            }
            k += 1;
        }
        ids
    }
}

/// Whether two vertices are linked depends on the endpoints of the links
/// alone, and so does what counts as a triangle.
proof fn lemma_same_ends_keep_triangles<S>(a: Seq<Link<S>>, b: Seq<Link<S>>)
    requires
        a.len() == b.len(),
        forall|k: int| 0 <= k < a.len() ==> a[k].src == b[k].src && a[k].dest == b[k].dest,
    ensures
        forall|x: usize, y: usize| linked(a, x, y) == linked(b, x, y),
        forall|t: (usize, usize, usize)| is_triangle(a, t) == is_triangle(b, t),
        links_distinct(a) ==> links_distinct(b),
{
    assert forall|x: usize, y: usize| linked(a, x, y) == linked(b, x, y) by {
        if linked(a, x, y) {
            let k = choose|k: int| 0 <= k < a.len() && #[trigger] a[k].joins(x, y);
            assert(b[k].joins(x, y));
        }
        if linked(b, x, y) {
            let k = choose|k: int| 0 <= k < b.len() && #[trigger] b[k].joins(x, y);
            assert(a[k].joins(x, y));
        }
    }
    if links_distinct(a) {
        assert forall|j: int, k: int| 0 <= j < k < b.len() implies !(#[trigger] b[j]).joins(
            (#[trigger] b[k]).src,
            b[k].dest,
        ) by {
            assert(!a[j].joins(a[k].src, a[k].dest));
        }
    }
}

/// What one tick does to a vertex before its body is moved.
#[derive(Clone, Copy, Debug, PartialEq, Eq, Structural)]
pub struct Tick {
    /// The vertex was let go since the last tick: its velocity is dropped
    /// once, after gravity and before wind.
    pub released: bool,
    /// The vertex is being dragged: its velocity is dropped after drag.
    pub held: bool,
    /// Contact radius for the walls.
    pub radius: u32,
    /// Wheels roll along walls instead of rubbing on them.
    pub is_wheel: bool,
}

impl<B, S> Graph<B, S> {
    /// Derives the triangles anew if the topology changed since they were
    /// last derived, and marks the cache as current. A cache that is current
    /// is left as it is.
    pub fn find_triangles(&mut self)
        requires
            old(self).wf(),
        ensures
            final(self).wf(),
            !final(self).dirty(),
            lists_triangles(final(self).triangles(), final(self).links()),
            !old(self).dirty() ==> final(self).triangles() == old(self).triangles(),
            final(self).vertices() == old(self).vertices(),
            final(self).links() == old(self).links(),
    {
        if !self.dirty {
            return ;
        }
        let found = find(self.vertices.len(), &self.links);
        self.triangles = found;
        self.dirty = false;
    }

    /// The cached triangles as they stand; `find_triangles` brings them up
    /// to date.
    pub fn triangle_list(&self) -> (list: &Vec<(usize, usize, usize)>)
        ensures
            list@ == self.triangles(),
    {
        &self.triangles
    }

    /// Opens the tick of one vertex: a tombstone is skipped; of a vertex in
    /// use the release mark is taken and cleared, and the wheel flag is
    /// brought in line with the radius.
    pub fn begin_tick(&mut self, id: usize, held: bool) -> (tick: Option<Tick>)
        requires
            old(self).wf(),
            id < old(self).vertices().len(),
        ensures
            final(self).wf(),
            final(self).links() == old(self).links(),
            final(self).triangles() == old(self).triangles(),
            final(self).dirty() == old(self).dirty(),
            !old(self).vertices()[id as int].used ==> tick is None && final(self).vertices() == old(
                self,
            ).vertices(),
            old(self).vertices()[id as int].used ==> tick == Some(
                Tick {
                    released: old(self).vertices()[id as int].just_released,
                    held,
                    radius: old(self).vertices()[id as int].radius,
                    is_wheel: old(self).vertices()[id as int].radius > 0,
                },
            ) && final(self).vertices() == old(self).vertices().update(
                id as int,
                Vertex {
                    just_released: false,
                    is_wheel: old(self).vertices()[id as int].radius > 0,
                    ..old(self).vertices()[id as int]
                },
            ),
    {
        if !self.vertices[id].used {
            return None;
        }
        let released = self.vertices[id].just_released;
        let radius = self.vertices[id].radius;
        self.vertices[id].just_released = false;
        self.vertices[id].is_wheel = radius > 0;
        Some(Tick { released, held, radius, is_wheel: radius > 0 })
    }
}

/// Vertices and links that may stand in a store together.
pub open spec fn fits_store<B, S>(vertices: Seq<Vertex<B>>, links: Seq<Link<S>>) -> bool {
    &&& forall|i: int| 0 <= i < vertices.len() ==> (#[trigger] vertices[i]).wf()
    &&& links_anchored(vertices, links)
    &&& links_distinct(links)
}

impl<B, S> Graph<B, S> {
    /// Makes a store of the given slots and links, if they may stand
    /// together: every wheel flag in line with its radius, every link between
    /// two different live vertices, and no pair of vertices linked twice.
    /// The store starts with no triangles and a stale cache.
    pub fn assemble(vertices: Vec<Vertex<B>>, links: Vec<Link<S>>) -> (graph: Option<Graph<B, S>>)
        ensures
            match graph {
                Some(g) => {
                    &&& fits_store(vertices@, links@)
                    &&& g.wf()
                    &&& g.vertices() == vertices@
                    &&& g.links() == links@
                    &&& g.triangles().len() == 0
                    &&& g.dirty()
                },
                None => !fits_store(vertices@, links@),
            },
    {
        let n = vertices.len();
        let mut i: usize = 0;
        while i < n
            invariant
                i <= n,
                n == vertices@.len(),
                forall|j: int| 0 <= j < i ==> (#[trigger] vertices@[j]).wf(),
            decreases n - i,
        {
            if vertices[i].is_wheel != (vertices[i].radius > 0) {
                assert(!vertices@[i as int].wf());
                return None;
            }
            i += 1;
        }
        let mut k: usize = 0;
        while k < links.len()
            invariant
                k <= links@.len(),
                n == vertices@.len(),
                links_anchored(vertices@, links@.take(k as int)),
                links_distinct(links@.take(k as int)),
            decreases links@.len() - k,
        {
            let src = links[k].src;
            let dest = links[k].dest;
            if src >= n || dest >= n || src == dest {
                assert(links@[k as int].src == src);
                return None;
            }
            if !vertices[src].used || !vertices[dest].used {
                assert(links@[k as int].src == src);
                return None;
            }
            let mut j: usize = 0;
            while j < k
                invariant
                    j <= k < links@.len(),
                    src == links@[k as int].src,
                    dest == links@[k as int].dest,
                    forall|m: int| 0 <= m < j ==> !(#[trigger] links@[m]).joins(src, dest),
                decreases k - j,
            {
                if (links[j].src == src && links[j].dest == dest) || (links[j].src == dest
                    && links[j].dest == src) {
                    assert(links@[j as int].joins(links@[k as int].src, links@[k as int].dest));
                    return None;
                }
                j += 1;
            }
            proof {
                let before = links@.take(k as int);
                let now = links@.take(k + 1);
                assert forall|m: int| 0 <= m < now.len() implies {
                    let link = #[trigger] now[m];
                    &&& link.src < vertices@.len()
                    &&& link.dest < vertices@.len()
                    &&& link.src != link.dest
                    &&& vertices@[link.src as int].used
                    &&& vertices@[link.dest as int].used
                } by {
                    if m < k {
                        assert(before[m] == now[m]);
                    }
                }
                assert forall|a: int, b: int| 0 <= a < b < now.len() implies !(#[trigger] now[a]).joins(
                    (#[trigger] now[b]).src,
                    now[b].dest,
                ) by {
                    if b < k {
                        assert(before[a] == now[a] && before[b] == now[b]);
                    } else {
                        assert(now[a] == links@[a]);
                    }
                }
            }
            k += 1;
        }
        assert(links@.take(k as int) =~= links@);
        Some(Graph { vertices, links, triangles: Vec::new(), dirty: true })
    }
}

} // verus!
