//! The saved-scene format, as far as it is made of whole numbers.
//!
//! A scene is a run of records separated by `;`. The first byte of a record
//! says what it sets; a vertex or link record holds fields separated by
//! `|`, each again led by one byte. Whole-number fields are read here.
//! Fields that hold a decimal fraction are located but not decoded: the
//! reader notes which quantity each one sets and where its text lies.

use vstd::prelude::*;
use crate::numbers::{integer_within, parse_i32, parse_u32, parse_u8, parse_usize};

verus! {

/// Separates records.
pub const RECORD_END: u8 = 59;

/// Separates the fields of a vertex or link record.
pub const FIELD_END: u8 = 124;

/// The letter `A`.
pub const TAG_A: u8 = 65;

/// The letter `B`.
pub const TAG_B: u8 = 66;

/// The letter `C`.
pub const TAG_C: u8 = 67;

/// The letter `E`.
pub const TAG_E: u8 = 69;

/// The letter `F`.
pub const TAG_F: u8 = 70;

/// The letter `G`.
pub const TAG_G: u8 = 71;

/// The letter `H`.
pub const TAG_H: u8 = 72;

/// The letter `L`.
pub const TAG_L: u8 = 76;

/// The letter `M`.
pub const TAG_M: u8 = 77;

/// The letter `N`.
pub const TAG_N: u8 = 78;

/// The letter `P`.
pub const TAG_P: u8 = 80;

/// The letter `R`.
pub const TAG_R: u8 = 82;

/// The letter `S`.
pub const TAG_S: u8 = 83;

/// The letter `T`.
pub const TAG_T: u8 = 84;

/// The letter `U`.
pub const TAG_U: u8 = 85;

/// The letter `V`.
pub const TAG_V: u8 = 86;

/// The letter `W`.
pub const TAG_W: u8 = 87;

/// The letter `X`.
pub const TAG_X: u8 = 88;

/// The letter `Y`.
pub const TAG_Y: u8 = 89;

/// The quantities that a scene gives as decimal fractions.
#[derive(Clone, Copy, Debug, PartialEq, Eq, Structural)]
pub enum Quantity {
    Gravity,
    Atmosphere,
    WallFriction,
    WallBounce,
    LeftWind,
    Tension,
    X,
    Y,
    VelocityX,
    VelocityY,
    Spin,
    RestLength,
    LinkTension,
    Push,
    PushStrength,
    LastLength,
}

/// A decimal fraction that the scene holds at `start..end`, still as text.
#[derive(Clone, Copy, Debug, PartialEq, Eq, Structural)]
pub struct Number {
    pub quantity: Quantity,
    /// Which vertex or link record the number belongs to, counted from
    /// zero; zero for a quantity of the environment.
    pub index: usize,
    pub start: usize,
    pub end: usize,
}

/// The whole-number part of a vertex record.
#[derive(Clone, Copy, Debug, PartialEq, Eq, Structural)]
pub struct VertexSeed {
    pub radius: u32,
    pub phase: u8,
}

/// The whole-number part of a link record. The endpoints count from zero,
/// one less than the scene writes them.
#[derive(Clone, Copy, Debug, PartialEq, Eq, Structural)]
pub struct LinkSeed {
    pub src: usize,
    pub dest: usize,
    pub push_span: i32,
    pub push_timing: i32,
}

/// What a scene says, as mathematical sequences.
pub struct SceneView {
    pub clock_speed: Option<i32>,
    pub mode: Option<u8>,
    pub vertices: Seq<VertexSeed>,
    pub links: Seq<LinkSeed>,
    pub numbers: Seq<Number>,
}

/// What a scene says: the last clock speed and mode it sets, if any, its
/// vertex and link records in order, and the decimal fractions to decode.
pub struct Scene {
    pub clock_speed: Option<i32>,
    pub mode: Option<u8>,
    pub vertices: Vec<VertexSeed>,
    pub links: Vec<LinkSeed>,
    pub numbers: Vec<Number>,
}

impl View for Scene {
    type V = SceneView;

    open spec fn view(&self) -> SceneView {
        SceneView {
            clock_speed: self.clock_speed,
            mode: self.mode,
            vertices: self.vertices@,
            links: self.links@,
            numbers: self.numbers@,
        }
    }
}

impl SceneView {
    /// The scene that says nothing.
    pub open spec fn empty() -> SceneView {
        SceneView {
            clock_speed: None,
            mode: None,
            vertices: Seq::empty(),
            links: Seq::empty(),
            numbers: Seq::empty(),
        }
    }

    /// The scene with one more decimal fraction noted.
    pub open spec fn noting(self, quantity: Quantity, index: int, start: int, end: int) -> SceneView {
        SceneView {
            numbers: self.numbers.push(
                Number { quantity, index: index as usize, start: start as usize, end: end as usize },
            ),
            ..self
        }
    }
}

/// Where the piece that starts at `from` ends: at the first `sep` before
/// `to`, or at `to`.
pub open spec fn find_sep(bytes: Seq<u8>, from: int, to: int, sep: u8) -> int
    decreases to - from,
{
    if from >= to {
        to
    } else if bytes[from] == sep {
        from
    } else {
        find_sep(bytes, from + 1, to, sep)
    }
}

/// The quantity of the environment that a record tag stands for.
pub open spec fn environment_quantity(tag: u8) -> Option<Quantity> {
    if tag == TAG_G {
        Some(Quantity::Gravity)
    } else if tag == TAG_A {
        Some(Quantity::Atmosphere)
    } else if tag == TAG_F {
        Some(Quantity::WallFriction)
    } else if tag == TAG_B {
        Some(Quantity::WallBounce)
    } else if tag == TAG_W {
        Some(Quantity::LeftWind)
    } else if tag == TAG_T {
        Some(Quantity::Tension)
    } else {
        None
    }
}

/// The quantity of a vertex that a field tag stands for.
pub open spec fn vertex_quantity(tag: u8) -> Option<Quantity> {
    if tag == TAG_X {
        Some(Quantity::X)
    } else if tag == TAG_Y {
        Some(Quantity::Y)
    } else if tag == TAG_H {
        Some(Quantity::VelocityX)
    } else if tag == TAG_U {
        Some(Quantity::VelocityY)
    } else if tag == TAG_C {
        Some(Quantity::Spin)
    } else {
        None
    }
}

/// The quantity of a link that a field tag stands for.
pub open spec fn link_quantity(tag: u8) -> Option<Quantity> {
    if tag == TAG_L {
        Some(Quantity::RestLength)
    } else if tag == TAG_T {
        Some(Quantity::LinkTension)
    } else if tag == TAG_P {
        Some(Quantity::Push)
    } else if tag == TAG_N {
        Some(Quantity::PushStrength)
    } else if tag == TAG_E {
        Some(Quantity::LastLength)
    } else {
        None
    }
}

/// The scene after the field at `start..end` of its last vertex record.
/// An empty field and a field with an unknown tag change nothing; a whole
/// number that cannot be read spoils the scene.
pub open spec fn with_vertex_field(m: SceneView, bytes: Seq<u8>, start: int, end: int) -> Option<
    SceneView,
> {
    let k = m.vertices.len() - 1;
    let text = bytes.subrange(start + 1, end);
    if start >= end {
        Some(m)
    } else if vertex_quantity(bytes[start]) is Some {
        Some(m.noting(vertex_quantity(bytes[start])->0, k, start + 1, end))
    } else if bytes[start] == TAG_R {
        match integer_within(text, 0, u32::MAX as int) {
            Some(r) => Some(
                SceneView {
                    vertices: m.vertices.update(k, VertexSeed { radius: r as u32, ..m.vertices[k] }),
                    ..m
                },
            ),
            None => None,
        }
    } else if bytes[start] == TAG_P {
        match integer_within(text, 0, u8::MAX as int) {
            Some(p) => Some(
                SceneView {
                    vertices: m.vertices.update(k, VertexSeed { phase: p as u8, ..m.vertices[k] }),
                    ..m
                },
            ),
            None => None,
        }
    } else {
        Some(m)
    }
}

/// The endpoint that a field names: the scene counts vertices from one.
pub open spec fn endpoint_of(text: Seq<u8>) -> Option<usize> {
    match integer_within(text, 0, usize::MAX as int) {
        Some(v) => if v >= 1 { Some((v - 1) as usize) } else { None },
        None => None,
    }
}

/// The scene after the field at `start..end` of its last link record.
pub open spec fn with_link_field(m: SceneView, bytes: Seq<u8>, start: int, end: int) -> Option<
    SceneView,
> {
    let k = m.links.len() - 1;
    let text = bytes.subrange(start + 1, end);
    if start >= end {
        Some(m)
    } else if link_quantity(bytes[start]) is Some {
        Some(m.noting(link_quantity(bytes[start])->0, k, start + 1, end))
    } else if bytes[start] == TAG_A {
        match endpoint_of(text) {
            Some(v) => Some(
                SceneView { links: m.links.update(k, LinkSeed { src: v, ..m.links[k] }), ..m },
            ),
            None => None,
        }
    } else if bytes[start] == TAG_B {
        match endpoint_of(text) {
            Some(v) => Some(
                SceneView { links: m.links.update(k, LinkSeed { dest: v, ..m.links[k] }), ..m },
            ),
            None => None,
        }
    } else if bytes[start] == TAG_S {
        match integer_within(text, i32::MIN as int, i32::MAX as int) {
            Some(v) => Some(
                SceneView {
                    links: m.links.update(k, LinkSeed { push_span: v as i32, ..m.links[k] }),
                    ..m
                },
            ),
            None => None,
        }
    } else if bytes[start] == TAG_M {
        match integer_within(text, i32::MIN as int, i32::MAX as int) {
            Some(v) => Some(
                SceneView {
                    links: m.links.update(k, LinkSeed { push_timing: v as i32, ..m.links[k] }),
                    ..m
                },
            ),
            None => None,
        }
    } else {
        Some(m)
    }
}

/// The scene after the fields that lie in `pos..end`, taken from left to
/// right, of a vertex record or of a link record.
pub open spec fn with_fields(m: SceneView, bytes: Seq<u8>, pos: int, end: int, vertex: bool) -> Option<
    SceneView,
>
    decreases end - pos,
{
    let stop = find_sep(bytes, pos, end, FIELD_END);
    let after = if vertex {
        with_vertex_field(m, bytes, pos, stop)
    } else {
        with_link_field(m, bytes, pos, stop)
    };
    match after {
        None => None,
        Some(next) => if pos <= stop < end {
            with_fields(next, bytes, stop + 1, end, vertex)
        } else {
            Some(next)
        },
    }
}

/// The scene after the record at `start..end`.
pub open spec fn with_record(m: SceneView, bytes: Seq<u8>, start: int, end: int) -> Option<
    SceneView,
> {
    let text = bytes.subrange(start + 1, end);
    if start >= end {
        Some(m)
    } else if environment_quantity(bytes[start]) is Some {
        Some(m.noting(environment_quantity(bytes[start])->0, 0, start + 1, end))
    } else if bytes[start] == TAG_C {
        match integer_within(text, i32::MIN as int, i32::MAX as int) {
            Some(v) => Some(SceneView { clock_speed: Some(v as i32), ..m }),
            None => None,
        }
    } else if bytes[start] == TAG_M {
        match integer_within(text, 0, u8::MAX as int) {
            Some(v) => Some(SceneView { mode: Some(v as u8), ..m }),
            None => None,
        }
    } else if bytes[start] == TAG_V {
        with_fields(
            SceneView { vertices: m.vertices.push(VertexSeed { radius: 0, phase: 0 }), ..m },
            bytes,
            start + 1,
            end,
            true,
        )
    } else if bytes[start] == TAG_L {
        with_fields(
            SceneView {
                links: m.links.push(LinkSeed { src: 0, dest: 0, push_span: 0, push_timing: 0 }),
                ..m
            },
            bytes,
            start + 1,
            end,
            false,
        )
    } else {
        Some(m)
    }
}

/// The scene after the records that lie behind `pos`, taken from left to
/// right.
pub open spec fn with_records(m: SceneView, bytes: Seq<u8>, pos: int) -> Option<SceneView>
    decreases bytes.len() - pos,
{
    let stop = find_sep(bytes, pos, bytes.len() as int, RECORD_END);
    match with_record(m, bytes, pos, stop) {
        None => None,
        Some(next) => if pos <= stop < bytes.len() {
            with_records(next, bytes, stop + 1)
        } else {
            Some(next)
        },
    }
}

/// What the bytes of a saved scene say; `None` where a whole number in them
/// cannot be read.
pub open spec fn scene_of(bytes: Seq<u8>) -> Option<SceneView> {
    with_records(SceneView::empty(), bytes, 0)
}

fn environment_tag(tag: u8) -> (q: Option<Quantity>)
    ensures
        q == environment_quantity(tag),
{
    if tag == TAG_G {
        Some(Quantity::Gravity)
    } else if tag == TAG_A {
        Some(Quantity::Atmosphere)
    } else if tag == TAG_F {
        Some(Quantity::WallFriction)
    } else if tag == TAG_B {
        Some(Quantity::WallBounce)
    } else if tag == TAG_W {
        Some(Quantity::LeftWind)
    } else if tag == TAG_T {
        Some(Quantity::Tension)
    } else {
        None
    }
}

fn vertex_tag(tag: u8) -> (q: Option<Quantity>)
    ensures
        q == vertex_quantity(tag),
{
    if tag == TAG_X {
        Some(Quantity::X)
    } else if tag == TAG_Y {
        Some(Quantity::Y)
    } else if tag == TAG_H {
        Some(Quantity::VelocityX)
    } else if tag == TAG_U {
        Some(Quantity::VelocityY)
    } else if tag == TAG_C {
        Some(Quantity::Spin)
    } else {
        None
    }
}

fn link_tag(tag: u8) -> (q: Option<Quantity>)
    ensures
        q == link_quantity(tag),
{
    if tag == TAG_L {
        Some(Quantity::RestLength)
    } else if tag == TAG_T {
        Some(Quantity::LinkTension)
    } else if tag == TAG_P {
        Some(Quantity::Push)
    } else if tag == TAG_N {
        Some(Quantity::PushStrength)
    } else if tag == TAG_E {
        Some(Quantity::LastLength)
    } else {
        None
    }
}

/// Finds the end of the piece that starts at `from`.
pub fn seek(bytes: &[u8], from: usize, to: usize, sep: u8) -> (at: usize)
    requires
        from <= to <= bytes@.len(),
    ensures
        at == find_sep(bytes@, from as int, to as int, sep),
        from <= at <= to,
        at < to ==> bytes@[at as int] == sep,
{
    let mut i: usize = from;
    while i < to
        invariant
            from <= i <= to <= bytes@.len(),
            find_sep(bytes@, from as int, to as int, sep) == find_sep(
                bytes@,
                i as int,
                to as int,
                sep,
            ),
        decreases to - i,
    {
        if bytes[i] == sep {
            return i;
        }
        i += 1;
    }
    i
}

/// Reads an endpoint of a link.
fn read_endpoint(bytes: &[u8], start: usize, end: usize) -> (v: Option<usize>)
    requires
        start <= end <= bytes@.len(),
    ensures
        v == endpoint_of(bytes@.subrange(start as int, end as int)),
{
    match parse_usize(bytes, start, end) {
        Some(v) => if v >= 1 {
            Some(v - 1)
        } else {
            None
        },
        None => None,
    }
}

fn read_vertex_field(scene: &mut Scene, bytes: &[u8], start: usize, end: usize) -> (ok: bool)
    requires
        start <= end <= bytes@.len(),
        old(scene)@.vertices.len() > 0,
    ensures
        ok == (with_vertex_field(old(scene)@, bytes@, start as int, end as int) is Some),
        ok ==> Some(final(scene)@) == with_vertex_field(old(scene)@, bytes@, start as int, end as int),
        ok ==> final(scene)@.vertices.len() == old(scene)@.vertices.len(),
        ok ==> final(scene)@.links.len() == old(scene)@.links.len(),
{
    if start >= end {
        return true;
    }
    let tag = bytes[start];
    let k = scene.vertices.len() - 1;
    match vertex_tag(tag) {
        Some(quantity) => {
            scene.numbers.push(Number { quantity, index: k, start: start + 1, end });
            true
        },
        None => {
            if tag == TAG_R {
                match parse_u32(bytes, start + 1, end) {
                    Some(r) => {
                        scene.vertices[k].radius = r;
                        true
                    },
                    None => false,
                }
            } else if tag == TAG_P {
                match parse_u8(bytes, start + 1, end) {
                    Some(p) => {
                        scene.vertices[k].phase = p;
                        true
                    },
                    None => false,
                }
            } else {
                true
            }
        },
    }
}

fn read_link_field(scene: &mut Scene, bytes: &[u8], start: usize, end: usize) -> (ok: bool)
    requires
        start <= end <= bytes@.len(),
        old(scene)@.links.len() > 0,
    ensures
        ok == (with_link_field(old(scene)@, bytes@, start as int, end as int) is Some),
        ok ==> Some(final(scene)@) == with_link_field(old(scene)@, bytes@, start as int, end as int),
        ok ==> final(scene)@.vertices.len() == old(scene)@.vertices.len(),
        ok ==> final(scene)@.links.len() == old(scene)@.links.len(),
{
    if start >= end {
        return true;
    }
    let tag = bytes[start];
    let k = scene.links.len() - 1;
    match link_tag(tag) {
        Some(quantity) => {
            scene.numbers.push(Number { quantity, index: k, start: start + 1, end });
            true
        },
        None => {
            if tag == TAG_A {
                match read_endpoint(bytes, start + 1, end) {
                    Some(v) => {
                        scene.links[k].src = v;
                        true
                    },
                    None => false,
                }
            } else if tag == TAG_B {
                match read_endpoint(bytes, start + 1, end) {
                    Some(v) => {
                        scene.links[k].dest = v;
                        true
                    },
                    None => false,
                }
            } else if tag == TAG_S {
                match parse_i32(bytes, start + 1, end) {
                    Some(v) => {
                        scene.links[k].push_span = v;
                        true
                    },
                    None => false,
                }
            } else if tag == TAG_M {
                match parse_i32(bytes, start + 1, end) {
                    Some(v) => {
                        scene.links[k].push_timing = v;
                        true
                    },
                    None => false,
                }
            } else {
                true
            }
        },
    }
}

fn read_fields(scene: &mut Scene, bytes: &[u8], pos: usize, end: usize, vertex: bool) -> (ok: bool)
    requires
        pos <= end <= bytes@.len(),
        vertex ==> old(scene)@.vertices.len() > 0,
        !vertex ==> old(scene)@.links.len() > 0,
    ensures
        ok == (with_fields(old(scene)@, bytes@, pos as int, end as int, vertex) is Some),
        ok ==> Some(final(scene)@) == with_fields(old(scene)@, bytes@, pos as int, end as int, vertex),
{
    let mut at: usize = pos;
    loop
        invariant
            pos <= at <= end <= bytes@.len(),
            vertex ==> scene@.vertices.len() > 0,
            !vertex ==> scene@.links.len() > 0,
            with_fields(old(scene)@, bytes@, pos as int, end as int, vertex) == with_fields(
                scene@,
                bytes@,
                at as int,
                end as int,
                vertex,
            ),
        decreases end - at,
    {
        let stop = seek(bytes, at, end, FIELD_END);
        let ok = if vertex {
            read_vertex_field(scene, bytes, at, stop)
        } else {
            read_link_field(scene, bytes, at, stop)
        };
        if !ok {
            return false;
        }
        if stop >= end {
            return true;
        }
        at = stop + 1;
    }
}

fn read_record(scene: &mut Scene, bytes: &[u8], start: usize, end: usize) -> (ok: bool)
    requires
        start <= end <= bytes@.len(),
    ensures
        ok == (with_record(old(scene)@, bytes@, start as int, end as int) is Some),
        ok ==> Some(final(scene)@) == with_record(old(scene)@, bytes@, start as int, end as int),
{
    if start >= end {
        return true;
    }
    let tag = bytes[start];
    match environment_tag(tag) {
        Some(quantity) => {
            scene.numbers.push(Number { quantity, index: 0, start: start + 1, end });
            true
        },
        None => {
            if tag == TAG_C {
                match parse_i32(bytes, start + 1, end) {
                    Some(v) => {
                        scene.clock_speed = Some(v);
                        true
                    },
                    None => false,
                }
            } else if tag == TAG_M {
                match parse_u8(bytes, start + 1, end) {
                    Some(v) => {
                        scene.mode = Some(v);
                        true
                    },
                    None => false,
                }
            } else if tag == TAG_V {
                scene.vertices.push(VertexSeed { radius: 0, phase: 0 });
                read_fields(scene, bytes, start + 1, end, true)
            } else if tag == TAG_L {
                scene.links.push(LinkSeed { src: 0, dest: 0, push_span: 0, push_timing: 0 });
                read_fields(scene, bytes, start + 1, end, false)
            } else {
                true
            }
        },
    }
}

/// Reads a saved scene: its whole numbers, and where its decimal fractions
/// stand. Fails where a whole number is missing its digits, holds a byte
/// that is none, or does not fit its type, and where a link names vertex
/// zero.
pub fn read_scene(bytes: &[u8]) -> (scene: Option<Scene>)
    ensures
        match scene {
            Some(s) => scene_of(bytes@) == Some(s@),
            None => scene_of(bytes@) is None,
        },
{
    let mut scene = Scene {
        clock_speed: None,
        mode: None,
        vertices: Vec::new(),
        links: Vec::new(),
        numbers: Vec::new(),
    };
    assert(scene@ =~= SceneView::empty());
    let mut at: usize = 0;
    loop
        invariant
            at <= bytes@.len(),
            scene_of(bytes@) == with_records(scene@, bytes@, at as int),
        decreases bytes@.len() - at,
    {
        let stop = seek(bytes, at, bytes.len(), RECORD_END);
        if !read_record(&mut scene, bytes, at, stop) {
            return None;
        }
        if stop >= bytes.len() {
            return Some(scene);
        }
        at = stop + 1;
    }
}

} // verus!
