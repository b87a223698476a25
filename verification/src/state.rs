//! The engine state: the store, the clock, the drive and the walls, and the
//! decisions that one tick of the simulation takes on them.

use vstd::prelude::*;
use vstd::string::StringSliceAdditionalSpecFns;
use crate::clock::{phase_of, Clock, PERIOD};
use crate::editor::{Editor, Gesture, Mode};
use crate::graph::{admitted, Graph, Link, Tick, Vertex};
use crate::scene::{read_scene, scene_of, LinkSeed, Scene, SceneView, VertexSeed};
use crate::pulse::{pulse_at, pulse_distance};
use crate::walls::{respond, response_to, Drive, DriveMode, Response, Wall, Walls};

verus! {

/// Clock units per tick that a new engine runs at.
pub const DEFAULT_CLOCK_SPEED: i32 = 3;

/// The scenes that come with the simulator.
#[derive(Clone, Copy, Debug, PartialEq, Eq, Structural)]
pub enum Presets {
    Walker,
    Unicycle,
    Jumper,
    Spikeball,
    Muscles,
    Dancer,
    AntiGrav,
    Blank,
}

impl Presets {
    /// The name of the file that holds a preset's scene.
    pub open spec fn file(self) -> Seq<char> {
        match self {
            Presets::Walker => "walker.botz"@,
            Presets::Unicycle => "unicycle.botz"@,
            Presets::Jumper => "jumper.botz"@,
            Presets::Spikeball => "spikeball.botz"@,
            Presets::Muscles => "muscles.botz"@,
            Presets::Dancer => "dancer.botz"@,
            Presets::AntiGrav => "antigrav.botz"@,
            Presets::Blank => "blank.botz"@,
        }
    }

    /// The name of the file that holds a preset's scene.
    pub fn file_name(self) -> (name: &'static str)
        ensures
            name@ == self.file(),
    {
        match self {
            Presets::Walker => "walker.botz",
            Presets::Unicycle => "unicycle.botz",
            Presets::Jumper => "jumper.botz",
            Presets::Spikeball => "spikeball.botz",
            Presets::Muscles => "muscles.botz",
            Presets::Dancer => "dancer.botz",
            Presets::AntiGrav => "antigrav.botz",
            Presets::Blank => "blank.botz",
        }
    }
}

/// What a frame does to the engine.
#[derive(Clone, Copy, Debug, PartialEq, Eq, Structural)]
pub enum Step {
    /// The engine is not simulating: nothing moves.
    Skipped,
    /// The clock is paused: the links pull towards their rest length alone.
    Relaxing,
    /// The clock has moved: the links pull towards rest length plus push.
    Driven,
}

/// Everything the engine steps forward in time.
pub struct State<B, S> {
    pub graph: Graph<B, S>,
    pub clock: Clock,
    pub drive: Drive,
    pub walls: Walls,
    pub editor: Editor,
}

impl<B, S> State<B, S> {
    /// The store is in order, the clock shows a phase inside the period and
    /// the clock speed can be reversed.
    pub open spec fn wf(&self) -> bool {
        &&& self.graph.wf()
        &&& self.clock.wf()
        &&& self.drive.wf()
    }

    /// The kind of step that a frame takes in this state.
    pub open spec fn step_kind(&self) -> Step {
        if self.editor.mode != Mode::Simulating {
            Step::Skipped
        } else if self.clock.is_paused() {
            Step::Relaxing
        } else {
            Step::Driven
        }
    }

    /// Opens a frame. Outside the simulation nothing happens. In it, the
    /// clock moves by the drive's speed unless it is paused; the result says
    /// which of the three holds, and so whether the links and vertices are
    /// to be stepped and whether the push counts.
    pub fn begin_step(&mut self) -> (step: Step)
        requires
            old(self).wf(),
        ensures
            final(self).wf(),
            step == old(self).step_kind(),
            final(self).graph == old(self).graph,
            final(self).drive == old(self).drive,
            final(self).walls == old(self).walls,
            final(self).editor == old(self).editor,
            final(self).clock.is_paused() == old(self).clock.is_paused(),
            final(self).clock.time() == if step == Step::Driven {
                phase_of(old(self).clock.time() + old(self).drive.clock_speed)
            } else {
                old(self).clock.time()
            },
            0 <= final(self).clock.time() < PERIOD,
    {
        if !matches!(self.editor.mode, Mode::Simulating) {
            proof {
                self.clock.lemma_time_in_period();
            }
            return Step::Skipped;
        }
        let paused = self.clock.paused();
        self.clock.advance(self.drive.clock_speed);
        if paused {
            Step::Relaxing
        } else {
            Step::Driven
        }
    }

    /// Opens the tick of one vertex; see [`Graph::begin_tick`]. The vertex
    /// counts as held while the pointer drags it.
    pub fn begin_vertex(&mut self, id: usize) -> (tick: Option<Tick>)
        requires
            old(self).wf(),
            id < old(self).graph.vertices().len(),
        ensures
            final(self).wf(),
            final(self).graph.links() == old(self).graph.links(),
            final(self).graph.triangles() == old(self).graph.triangles(),
            final(self).graph.dirty() == old(self).graph.dirty(),
            final(self).clock == old(self).clock,
            final(self).drive == old(self).drive,
            final(self).walls == old(self).walls,
            final(self).editor == old(self).editor,
            !old(self).graph.vertices()[id as int].used ==> tick is None
                && final(self).graph.vertices() == old(self).graph.vertices(),
            old(self).graph.vertices()[id as int].used ==> tick == Some(
                Tick {
                    released: old(self).graph.vertices()[id as int].just_released,
                    held: old(self).editor.is_holding(id),
                    radius: old(self).graph.vertices()[id as int].radius,
                    is_wheel: old(self).graph.vertices()[id as int].radius > 0,
                },
            ) && final(self).graph.vertices() == old(self).graph.vertices().update(
                id as int,
                Vertex {
                    just_released: false,
                    is_wheel: old(self).graph.vertices()[id as int].radius > 0,
                    ..old(self).graph.vertices()[id as int]
                },
            ),
    {
        let held = self.editor.holds(id);
        self.graph.begin_tick(id, held)
    }

    /// Where the clock stands in the actuation pulse of a link: the distance
    /// from the centre of the window that covers the current phase, or
    /// `None` where the link is at rest.
    pub fn link_pulse(&self, link: usize) -> (distance: Option<u64>)
        requires
            self.wf(),
            link < self.graph.links().len(),
        ensures
            match distance {
                Some(d) => pulse_distance(
                    self.clock.time(),
                    self.graph.links()[link as int].push_timing as int,
                    self.graph.links()[link as int].push_span as int,
                ) == Some(d as int),
                None => pulse_distance(
                    self.clock.time(),
                    self.graph.links()[link as int].push_timing as int,
                    self.graph.links()[link as int].push_span as int,
                ) is None,
            },
    {
        let l = self.graph.link(link);
        pulse_at(self.clock.cycle_time(), l.push_timing, l.push_span)
    }

    /// A vertex touches a wall. Where that wall is switched off, nothing
    /// happens. Otherwise the drive takes note of the contact, which may
    /// reverse the clock, and the result says how the body responds.
    pub fn strike(&mut self, vertex: usize, wall: Wall) -> (response: Option<Response>)
        requires
            old(self).wf(),
            vertex < old(self).graph.vertices().len(),
        ensures
            final(self).wf(),
            final(self).graph == old(self).graph,
            final(self).clock == old(self).clock,
            final(self).walls == old(self).walls,
            final(self).editor == old(self).editor,
            !old(self).walls.has(wall) ==> response is None && final(self).drive == old(self).drive,
            old(self).walls.has(wall) ==> response == Some(
                response_to(wall, old(self).graph.vertices()[vertex as int].is_wheel),
            ) && final(self).drive == old(self).drive.struck(wall),
    {
        if !self.walls.enabled(wall) {
            return None;
        }
        let is_wheel = self.graph.vertex(vertex).is_wheel;
        let _flipped = self.drive.strike(wall);
        Some(respond(wall, is_wheel))
    }
}

/// The engine as it starts: an empty store, a running clock at phase zero,
/// the default speed with automatic reversal, and all four walls.
pub fn make_start<B, S>() -> (state: State<B, S>)
    ensures
        state.wf(),
        state.graph.vertices().len() == 0,
        state.graph.links().len() == 0,
        state.graph.triangles().len() == 0,
        !state.graph.dirty(),
        state.clock.time() == 0,
        !state.clock.is_paused(),
        state.drive == (Drive {
            clock_speed: DEFAULT_CLOCK_SPEED,
            auto_reverse: true,
            mode: DriveMode::Neutral,
        }),
        forall|wall: Wall| state.walls.has(wall),
        state.editor == Editor::at_rest(),
{
    State {
        graph: Graph::new(),
        clock: Clock::new(),
        drive: Drive::new(DEFAULT_CLOCK_SPEED, true),
        walls: Walls::closed(),
        editor: Editor::new(),
    }
}

/// The slots that a scene's vertex records make, each with its body. All
/// of them are in use.
pub open spec fn seeded_vertices<B>(seeds: Seq<VertexSeed>, bodies: Seq<B>) -> Seq<Vertex<B>> {
    Seq::new(seeds.len(), |i: int| Vertex::fresh(seeds[i].radius, seeds[i].phase, bodies[i]))
}

/// The links that a scene's link records make, each with its spring.
pub open spec fn seeded_links<S>(seeds: Seq<LinkSeed>, springs: Seq<S>) -> Seq<Link<S>> {
    Seq::new(
        seeds.len(),
        |i: int|
            Link {
                src: seeds[i].src,
                dest: seeds[i].dest,
                push_timing: seeds[i].push_timing,
                push_span: seeds[i].push_span,
                phase: 0,
                spring: springs[i],
            },
    )
}

/// Gives each vertex record its body.
pub fn seed_vertices<B>(seeds: &Vec<VertexSeed>, bodies: Vec<B>) -> (vertices: Vec<Vertex<B>>)
    requires
        seeds@.len() == bodies@.len(),
    ensures
        vertices@ == seeded_vertices(seeds@, bodies@),
{
    let mut vertices: Vec<Vertex<B>> = Vec::new();
    for body in it: bodies
        invariant
            seeds@.len() == it.seq().len(),
            vertices@.len() == it.index(),
            forall|j: int|
                0 <= j < vertices@.len() ==> #[trigger] vertices@[j] == Vertex::fresh(
                    seeds@[j].radius,
                    seeds@[j].phase,
                    it.seq()[j],
                ),
    {
        let seed = seeds[vertices.len()];
        vertices.push(
            Vertex {
                used: true,
                just_released: false,
                selected: false,
                radius: seed.radius,
                is_wheel: seed.radius > 0,
                phase: seed.phase,
                body,
            },
        );
    }
    assert(vertices@ =~= seeded_vertices(seeds@, bodies@));
    vertices
}

/// Gives each link record its spring.
pub fn seed_links<S>(seeds: &Vec<LinkSeed>, springs: Vec<S>) -> (links: Vec<Link<S>>)
    requires
        seeds@.len() == springs@.len(),
    ensures
        links@ == seeded_links(seeds@, springs@),
{
    let mut links: Vec<Link<S>> = Vec::new();
    for spring in it: springs
        invariant
            seeds@.len() == it.seq().len(),
            links@.len() == it.index(),
            forall|j: int|
                0 <= j < links@.len() ==> #[trigger] links@[j] == (Link {
                    src: seeds@[j].src,
                    dest: seeds@[j].dest,
                    push_timing: seeds@[j].push_timing,
                    push_span: seeds@[j].push_span,
                    phase: 0,
                    spring: it.seq()[j],
                }),
    {
        let seed = seeds[links.len()];
        links.push(
            Link {
                src: seed.src,
                dest: seed.dest,
                push_timing: seed.push_timing,
                push_span: seed.push_span,
                phase: 0,
                spring,
            },
        );
    }
    assert(links@ =~= seeded_links(seeds@, springs@));
    links
}

/// Every link record names two vertices of the scene.
pub open spec fn ends_exist(scene: SceneView) -> bool {
    forall|k: int|
        0 <= k < scene.links.len() ==> (#[trigger] scene.links[k]).src < scene.vertices.len()
            && scene.links[k].dest < scene.vertices.len()
}

/// A scene can be loaded with the given bodies and springs: there is one
/// body for each vertex record and one spring for each link record, every
/// link record names two vertices of the scene, and the clock speed, if
/// the scene sets one, can be reversed.
pub open spec fn loadable<B, S>(scene: SceneView, bodies: Seq<B>, springs: Seq<S>) -> bool {
    &&& bodies.len() == scene.vertices.len()
    &&& springs.len() == scene.links.len()
    &&& scene.clock_speed != Some(i32::MIN)
    &&& ends_exist(scene)
}

impl<B, S> State<B, S> {
    /// The engine after `scene` was loaded into `old` with the given bodies
    /// and springs: the store holds the scene's vertices and, of its links,
    /// those that a store takes one after the other, so that a link from a
    /// vertex to itself and a second link between two vertices are left
    /// out; the cache is stale and empty;
    /// the clock speed is the scene's where it sets one; the mode is the
    /// scene's, or editing where it sets none; selection and gesture are
    /// dropped; the rest stays.
    pub open spec fn holds_scene(
        &self,
        old: &State<B, S>,
        scene: SceneView,
        bodies: Seq<B>,
        springs: Seq<S>,
    ) -> bool {
        &&& self.graph.vertices() == seeded_vertices(scene.vertices, bodies)
        &&& self.graph.links() == admitted(seeded_links(scene.links, springs))
        &&& self.graph.triangles().len() == 0
        &&& self.graph.dirty()
        &&& self.drive == (Drive {
            clock_speed: match scene.clock_speed {
                Some(speed) => speed,
                None => old.drive.clock_speed,
            },
            ..old.drive
        })
        &&& self.clock == old.clock
        &&& self.walls == old.walls
        &&& self.editor == (Editor {
            mode: match scene.mode {
                Some(code) => Mode::of_code(code),
                None => Mode::Editing,
            },
            gesture: Gesture::Idle,
            sel_vertex: None,
            sel_link: None,
            drag_dot: None,
            ..old.editor
        })
    }

    /// Replaces the store by the one that `scene` describes, or changes
    /// nothing where the scene cannot be loaded.
    pub fn load_scene(&mut self, scene: &Scene, bodies: Vec<B>, springs: Vec<S>) -> (loaded: bool)
        requires
            old(self).wf(),
        ensures
            final(self).wf(),
            loaded == loadable(scene@, bodies@, springs@),
            loaded ==> final(self).holds_scene(old(self), scene@, bodies@, springs@),
            !loaded ==> *final(self) == *old(self),
    {
        if bodies.len() != scene.vertices.len() || springs.len() != scene.links.len() {
            return false;
        }
        let clock_speed = match scene.clock_speed {
            Some(speed) => {
                if speed == i32::MIN {
                    return false;
                }
                speed
            },
            None => self.drive.clock_speed,
        };
        let n = scene.vertices.len();
        let mut k: usize = 0;
        while k < scene.links.len()
            invariant
                k <= scene.links@.len(),
                n == scene.vertices@.len(),
                *self == *old(self),
                self.wf(),
                forall|j: int|
                    0 <= j < k ==> (#[trigger] scene.links@[j]).src < n && scene.links@[j].dest < n,
            decreases scene.links@.len() - k,
        {
            if scene.links[k].src >= n || scene.links[k].dest >= n {
                return false;
            }
            k += 1;
        }
        let vertices = seed_vertices(&scene.vertices, bodies);
        let links = seed_links(&scene.links, springs);
        // Vertices straight from their seeds, and no links yet, always fit.
        let mut graph = Graph::assemble(vertices, Vec::new()).unwrap();
        let ghost offered = links@;
        for link in it: links
            invariant
                it.seq() == offered,
                offered == seeded_links(scene@.links, springs@),
                ends_exist(scene@),
                graph.wf(),
                graph.vertices() == seeded_vertices(scene@.vertices, bodies@),
                graph.links() == admitted(offered.take(it.index() as int)),
                graph.triangles().len() == 0,
                graph.dirty(),
        {
            proof {
                let upto = it.index() as int;
                assert(offered.take(upto + 1).drop_last() =~= offered.take(upto));
                assert(offered.take(upto + 1).last() == link);
                assert(scene@.links[upto].src == link.src);
            }
            let _added = graph.insert_link(link);
        }
        proof {
            assert(offered.take(offered.len() as int) =~= offered);
        }
        self.graph = graph;
        self.drive.clock_speed = clock_speed;
        self.editor.mode = match scene.mode {
            Some(code) => Mode::from_code(code),
            None => Mode::Editing,
        };
        self.editor.gesture = Gesture::Idle;
        self.editor.sel_vertex = None;
        self.editor.sel_link = None;
        self.editor.drag_dot = None;
        true
    }

    /// Reads a saved scene and loads it. The caller brings the bodies and
    /// springs, decoded from the decimal fractions that `read_scene` finds
    /// in the same text. Where a whole number of the scene cannot be read,
    /// or the scene cannot be loaded, the result is `None` and nothing has
    /// changed.
    pub fn legacy_parse(&mut self, file: &str, bodies: Vec<B>, springs: Vec<S>) -> (done: Option<()>)
        requires
            old(self).wf(),
        ensures
            final(self).wf(),
            done is Some <==> scene_of(file.spec_bytes()) is Some && loadable(
                scene_of(file.spec_bytes())->0,
                bodies@,
                springs@,
            ),
            done is Some ==> final(self).holds_scene(
                old(self),
                scene_of(file.spec_bytes())->0,
                bodies@,
                springs@,
            ),
            done is None ==> *final(self) == *old(self),
    {
        match read_scene(file.as_bytes()) {
            Some(scene) => {
                if self.load_scene(&scene, bodies, springs) {
                    Some(())
                } else {
                    None
                }
            },
            None => None,
        }
    }
}

} // verus!
