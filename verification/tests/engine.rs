use botz::graph::{Graph, Link, Vertex};
use botz::state::{make_start, Presets, State, DEFAULT_CLOCK_SPEED};
use botz::walls::{Axis, DriveMode, Response, Spin, Wall};

type Engine = State<(f64, f64), f64>;

#[test]
fn engine_starts_with_the_defaults() {
    let s: Engine = make_start();
    assert_eq!(s.graph.vertex_count(), 0);
    assert_eq!(s.graph.link_count(), 0);
    assert_eq!(s.clock.cycle_time(), 0);
    assert!(!s.clock.paused());
    assert_eq!(s.drive.clock_speed, 3);
    assert_eq!(DEFAULT_CLOCK_SPEED, 3);
    assert!(s.drive.auto_reverse);
    assert_eq!(s.drive.mode, DriveMode::Neutral);
    assert!(s.walls.floor && s.walls.left && s.walls.right && s.walls.ceiling);
}

#[test]
fn begin_step_uses_the_drive_speed() {
    let mut s: Engine = make_start();
    s.enter(botz::editor::Mode::Simulating);
    s.begin_step();
    assert_eq!(s.clock.cycle_time(), 3);
    s.drive.clock_speed = -10;
    s.begin_step();
    assert_eq!(s.clock.cycle_time(), 193);
    s.clock.set_paused(true);
    s.begin_step();
    assert_eq!(s.clock.cycle_time(), 193);
}

#[test]
fn link_pulse_reads_clock_and_link() {
    let mut s: Engine = make_start();
    s.graph.add_vertex(0, 0, (0.0, 0.0));
    s.graph.add_vertex(0, 0, (1.0, 0.0));
    assert!(s.graph.add_link(0, 1, 0, 1.0));
    // A new link pulses around 180, forty units either way.
    assert_eq!(s.link_pulse(0), Some(20));
    s.enter(botz::editor::Mode::Simulating);
    for _ in 0..7 {
        s.begin_step();
    }
    assert_eq!(s.clock.cycle_time(), 21);
    assert_eq!(s.link_pulse(0), None);
    s.graph.set_push(0, 30, 10);
    assert_eq!(s.link_pulse(0), Some(9));
}

#[test]
fn vertex_driven_into_the_left_wall_reverses_the_clock_once() {
    let mut s: Engine = make_start();
    s.graph.add_vertex(0, 0, (0.0, 10.0));
    assert_eq!(s.drive.clock_speed, 3);
    let first = s.strike(0, Wall::Left);
    assert_eq!(
        first,
        Some(Response { tangent: Axis::Vertical, friction: true, spin: Spin::Keep })
    );
    assert_eq!(s.drive.clock_speed, -3);
    // The vertex rests against the wall for some ticks.
    for _ in 0..5 {
        assert!(s.strike(0, Wall::Left).is_some());
        assert_eq!(s.drive.clock_speed, -3);
    }
    // It crosses the arena and comes back.
    s.strike(0, Wall::Right);
    assert_eq!(s.drive.clock_speed, 3);
    s.strike(0, Wall::Left);
    assert_eq!(s.drive.clock_speed, -3);
}

#[test]
fn wheel_on_the_floor_rolls_without_friction() {
    let mut s: Engine = make_start();
    s.graph.add_vertex(20, 0, (50.0, 20.0));
    assert_eq!(
        s.strike(0, Wall::Floor),
        Some(Response { tangent: Axis::Horizontal, friction: false, spin: Spin::Along })
    );
    assert_eq!(s.drive.clock_speed, 3);
    assert_eq!(s.drive.mode, DriveMode::Neutral);
}

#[test]
fn wall_that_is_switched_off_is_not_struck() {
    let mut s: Engine = make_start();
    s.graph.add_vertex(0, 0, (0.0, 0.0));
    s.walls.toggle(Wall::Left);
    assert_eq!(s.strike(0, Wall::Left), None);
    assert_eq!(s.drive.clock_speed, 3);
    assert_eq!(s.drive.mode, DriveMode::Neutral);
}

#[test]
fn strike_without_auto_reverse_only_responds() {
    let mut s: Engine = make_start();
    s.graph.add_vertex(0, 0, (0.0, 0.0));
    s.drive.auto_reverse = false;
    assert!(s.strike(0, Wall::Right).is_some());
    assert_eq!(s.drive.clock_speed, 3);
    assert_eq!(s.drive.mode, DriveMode::Neutral);
}

#[test]
fn engine_starts_in_editing_mode_at_rest() {
    let s: Engine = make_start();
    assert_eq!(s.editor, botz::editor::Editor::new());
    assert_eq!(s.editor.mode, botz::editor::Mode::Editing);
    assert_eq!(s.editor.gesture, botz::editor::Gesture::Idle);
}

#[test]
fn begin_step_is_skipped_while_editing() {
    let mut s: Engine = make_start();
    assert_eq!(s.begin_step(), botz::state::Step::Skipped);
    assert_eq!(s.clock.cycle_time(), 0);
    s.editor.mode = botz::editor::Mode::Inert;
    assert_eq!(s.begin_step(), botz::state::Step::Skipped);
    assert_eq!(s.clock.cycle_time(), 0);
}

#[test]
fn begin_step_drives_the_clock_while_simulating() {
    let mut s: Engine = make_start();
    s.editor.mode = botz::editor::Mode::Simulating;
    assert_eq!(s.begin_step(), botz::state::Step::Driven);
    assert_eq!(s.clock.cycle_time(), 3);
    s.clock.set_paused(true);
    assert_eq!(s.begin_step(), botz::state::Step::Relaxing);
    assert_eq!(s.clock.cycle_time(), 3);
}

#[test]
fn begin_vertex_reports_a_held_vertex() {
    let mut s: Engine = make_start();
    s.graph.add_vertex(7, 0, (0.0, 0.0));
    s.graph.add_vertex(0, 0, (1.0, 0.0));
    s.editor.drag_dot = Some(1);
    s.editor.gesture = botz::editor::Gesture::Dragging;
    let t0 = s.begin_vertex(0).unwrap();
    assert!(!t0.held);
    assert_eq!(t0.radius, 7);
    assert!(t0.is_wheel);
    let t1 = s.begin_vertex(1).unwrap();
    assert!(t1.held);
    assert!(!t1.is_wheel);
    s.editor.gesture = botz::editor::Gesture::Idle;
    assert!(!s.begin_vertex(1).unwrap().held);
    s.graph.delete_vertex(0);
    assert_eq!(s.begin_vertex(0), None);
}

#[test]
fn presets_name_their_files() {
    assert_eq!(Presets::Walker.file_name(), "walker.botz");
    assert_eq!(Presets::Unicycle.file_name(), "unicycle.botz");
    assert_eq!(Presets::Jumper.file_name(), "jumper.botz");
    assert_eq!(Presets::Spikeball.file_name(), "spikeball.botz");
    assert_eq!(Presets::Muscles.file_name(), "muscles.botz");
    assert_eq!(Presets::Dancer.file_name(), "dancer.botz");
    assert_eq!(Presets::AntiGrav.file_name(), "antigrav.botz");
    assert_eq!(Presets::Blank.file_name(), "blank.botz");
}

const TRIANGLE: &str = "G0.4;C-5;M1;VX0|Y0;VX3|Y0|R20|P12;VX0|Y4;LA1|B2|S10|M30;LA2|B3;LA3|B1";

fn corners() -> Vec<(f64, f64)> {
    vec![(0.0, 0.0), (3.0, 0.0), (0.0, 4.0)]
}

#[test]
fn legacy_parse_builds_the_store() {
    let mut s: Engine = make_start();
    s.graph.add_vertex(0, 0, (9.0, 9.0));
    s.editor.sel_vertex = Some(0);
    s.editor.drag_dot = Some(0);
    s.editor.gesture = botz::editor::Gesture::Dragging;
    assert_eq!(s.legacy_parse(TRIANGLE, corners(), vec![3.0, 5.0, 4.0]), Some(()));
    assert_eq!(s.graph.vertex_count(), 3);
    assert_eq!(s.graph.link_count(), 3);
    for i in 0..3 {
        let v = s.graph.vertex(i);
        assert!(v.used);
        assert!(!v.selected);
        assert!(!v.just_released);
        assert_eq!(v.body, corners()[i]);
    }
    assert_eq!(s.graph.vertex(1).radius, 20);
    assert!(s.graph.vertex(1).is_wheel);
    assert_eq!(s.graph.vertex(1).phase, 12);
    assert!(!s.graph.vertex(0).is_wheel);
    let l = s.graph.link(0);
    assert_eq!((l.src, l.dest, l.push_span, l.push_timing, l.phase), (0, 1, 10, 30, 0));
    assert_eq!(l.spring, 3.0);
    let l = s.graph.link(2);
    assert_eq!((l.src, l.dest, l.push_span, l.push_timing), (2, 0, 0, 0));
    assert_eq!(l.spring, 4.0);
    assert!(s.graph.is_dirty());
    assert!(s.graph.triangle_list().is_empty());
    s.graph.find_triangles();
    assert_eq!(s.graph.triangle_list(), &vec![(0, 1, 2)]);
    assert_eq!(s.drive.clock_speed, -5);
    assert!(s.drive.auto_reverse);
    assert_eq!(s.editor.mode, botz::editor::Mode::Simulating);
    assert_eq!(s.editor.gesture, botz::editor::Gesture::Idle);
    assert_eq!(s.editor.sel_vertex, None);
    assert_eq!(s.editor.drag_dot, None);
}

#[test]
fn legacy_parse_without_speed_and_mode_keeps_the_speed_and_edits() {
    let mut s: Engine = make_start();
    s.drive.clock_speed = 8;
    s.editor.mode = botz::editor::Mode::Simulating;
    assert_eq!(s.legacy_parse("VX1;VX2;LA1|B2", vec![(1.0, 0.0), (2.0, 0.0)], vec![1.0]), Some(()));
    assert_eq!(s.drive.clock_speed, 8);
    assert_eq!(s.editor.mode, botz::editor::Mode::Editing);
    assert_eq!(s.legacy_parse("M7", vec![], vec![]), Some(()));
    assert_eq!(s.editor.mode, botz::editor::Mode::Inert);
    assert_eq!(s.graph.vertex_count(), 0);
}

fn untouched_after(text: &str, bodies: Vec<(f64, f64)>, springs: Vec<f64>) {
    let mut s: Engine = make_start();
    s.graph.add_vertex(4, 1, (9.0, 9.0));
    s.graph.find_triangles();
    s.editor.sel_vertex = Some(0);
    assert_eq!(s.legacy_parse(text, bodies, springs), None);
    assert_eq!(s.graph.vertex_count(), 1);
    assert_eq!(s.graph.vertex(0).body, (9.0, 9.0));
    assert_eq!(s.graph.vertex(0).radius, 4);
    assert!(!s.graph.is_dirty());
    assert_eq!(s.drive.clock_speed, 3);
    assert_eq!(s.editor.sel_vertex, Some(0));
}

#[test]
fn legacy_parse_refuses_a_malformed_number_and_changes_nothing() {
    untouched_after("C7;VX0;VR-2", vec![(0.0, 0.0), (0.0, 0.0)], vec![]);
    untouched_after("C7;Mx", vec![], vec![]);
}

#[test]
fn legacy_parse_refuses_payloads_that_do_not_match() {
    untouched_after(TRIANGLE, vec![(0.0, 0.0), (3.0, 0.0)], vec![3.0, 5.0, 4.0]);
    untouched_after(TRIANGLE, corners(), vec![3.0, 5.0]);
    untouched_after(TRIANGLE, corners(), vec![3.0, 5.0, 4.0, 1.0]);
}

#[test]
fn legacy_parse_refuses_a_link_to_a_vertex_that_is_not_there() {
    untouched_after("C7;VX0;VX1;LA1|B3", vec![(0.0, 0.0), (1.0, 0.0)], vec![1.0]);
    untouched_after("C7;VX0;VX1;LA3|B1", vec![(0.0, 0.0), (1.0, 0.0)], vec![1.0]);
    untouched_after("C7;LA1|B1", vec![], vec![1.0]);
    // The vertices may come behind the links that name them.
    let mut s: Engine = make_start();
    assert_eq!(s.legacy_parse("LA1|B2;VX0;VX1", vec![(0.0, 0.0), (1.0, 0.0)], vec![1.0]), Some(()));
    assert_eq!(s.graph.link_count(), 1);
}

#[test]
fn legacy_parse_leaves_out_links_that_a_store_does_not_take() {
    let mut s: Engine = make_start();
    let text = "VX0;VX1;VX2;L;LA1|B2;LA2|B1|S9;LA3|B3;LA2|B3;LA1|B2";
    let springs = vec![10.0, 11.0, 12.0, 13.0, 14.0, 15.0];
    assert_eq!(s.legacy_parse(text, vec![(0.0, 0.0), (1.0, 0.0), (2.0, 0.0)], springs), Some(()));
    // A record without ends runs from the first vertex to itself; the third
    // and the last run where the second already does.
    assert_eq!(s.graph.link_count(), 2);
    let l = s.graph.link(0);
    assert_eq!((l.src, l.dest, l.push_span, l.spring), (0, 1, 0, 11.0));
    let l = s.graph.link(1);
    assert_eq!((l.src, l.dest, l.spring), (1, 2, 14.0));
}

#[test]
fn legacy_parse_refuses_a_speed_that_cannot_be_reversed() {
    untouched_after("C-2147483648", vec![], vec![]);
    let mut s: Engine = make_start();
    assert_eq!(s.legacy_parse("C-2147483647", vec![], vec![]), Some(()));
    assert_eq!(s.drive.clock_speed, -2147483647);
    s.graph.add_vertex(0, 0, (0.0, 0.0));
    s.strike(0, Wall::Left);
    assert_eq!(s.drive.clock_speed, 2147483647);
}

#[test]
fn load_scene_takes_a_scene_read_before() {
    let scene = botz::scene::read_scene(TRIANGLE.as_bytes()).unwrap();
    let mut s: Engine = make_start();
    assert!(s.load_scene(&scene, corners(), vec![3.0, 5.0, 4.0]));
    assert_eq!(s.graph.link_count(), 3);
    assert!(!s.load_scene(&scene, vec![], vec![]));
    assert_eq!(s.graph.link_count(), 3);
}

#[test]
fn assemble_checks_the_store_rules() {
    let vertex = |used: bool, radius: u32, is_wheel: bool| Vertex {
        used,
        just_released: false,
        selected: false,
        radius,
        is_wheel,
        phase: 0,
        body: (0.0, 0.0),
    };
    let link = |src: usize, dest: usize| Link {
        src,
        dest,
        push_timing: 0,
        push_span: 0,
        phase: 0,
        spring: 1.0,
    };
    let good = Graph::assemble(
        vec![vertex(true, 0, false), vertex(false, 3, true), vertex(true, 1, true)],
        vec![link(2, 0)],
    )
    .unwrap();
    assert_eq!(good.vertex_count(), 3);
    assert_eq!(good.link_count(), 1);
    assert!(good.is_dirty());
    assert!(Graph::assemble(vec![vertex(true, 3, false)], Vec::<Link<f64>>::new()).is_none());
    assert!(Graph::assemble(vec![vertex(true, 0, true)], Vec::<Link<f64>>::new()).is_none());
    assert!(Graph::assemble(
        vec![vertex(true, 0, false), vertex(false, 0, false)],
        vec![link(0, 1)]
    )
    .is_none());
    assert!(Graph::assemble(vec![vertex(true, 0, false)], vec![link(0, 0)]).is_none());
    assert!(Graph::assemble(vec![vertex(true, 0, false)], vec![link(0, 1)]).is_none());
    assert!(Graph::assemble(
        vec![vertex(true, 0, false), vertex(true, 0, false)],
        vec![link(0, 1), link(1, 0)]
    )
    .is_none());
}

/// Decodes the decimal fractions of a scene the way a caller does, and
/// loads the scene with them.
fn load(s: &mut Engine, text: &str) -> Option<()> {
    let scene = botz::scene::read_scene(text.as_bytes())?;
    let mut bodies = vec![(0.0, 0.0); scene.vertices.len()];
    let mut springs = vec![0.0; scene.links.len()];
    for n in &scene.numbers {
        let value: f64 = text[n.start..n.end].parse().ok()?;
        match n.quantity {
            botz::scene::Quantity::X => bodies[n.index].0 = value,
            botz::scene::Quantity::Y => bodies[n.index].1 = value,
            botz::scene::Quantity::RestLength => springs[n.index] = value,
            _ => {}
        }
    }
    s.legacy_parse(text, bodies, springs)
}

#[test]
fn measuring_the_links_of_a_loaded_scene_gives_the_distances_of_their_ends() {
    let text = "VX1.5|Y2;VX4.5|Y6;VX1.5|Y-2;LA1|B2|L99;LA3|B1|L0.25;LA2|B3|L7";
    let mut s: Engine = make_start();
    assert_eq!(load(&mut s, text), Some(()));
    assert_eq!(s.graph.link(0).spring, 99.0);
    assert_eq!(s.graph.link(1).spring, 0.25);
    for k in 0..s.graph.link_count() {
        let (a, b) = {
            let l = s.graph.link(k);
            (s.graph.vertex(l.src).body, s.graph.vertex(l.dest).body)
        };
        let measured = ((b.0 - a.0) * (b.0 - a.0) + (b.1 - a.1) * (b.1 - a.1)).sqrt();
        s.graph.reset_link(k, measured);
    }
    assert_eq!(s.graph.link(0).spring, 5.0);
    assert_eq!(s.graph.link(1).spring, 4.0);
    assert_eq!(s.graph.link(2).spring, 73.0f64.sqrt());
    assert_eq!((s.graph.link(1).src, s.graph.link(1).dest), (2, 0));
}

#[test]
fn a_decimal_fraction_that_cannot_be_decoded_stops_the_caller() {
    let mut s: Engine = make_start();
    assert_eq!(load(&mut s, "VX1.5|Y2;VXone"), None);
    assert_eq!(s.graph.vertex_count(), 0);
}

#[test]
fn seeds_take_their_payloads_in_order() {
    let seeds = vec![
        botz::scene::VertexSeed { radius: 0, phase: 1 },
        botz::scene::VertexSeed { radius: 9, phase: 2 },
    ];
    let vertices = botz::state::seed_vertices(&seeds, vec![(1.0, 2.0), (3.0, 4.0)]);
    assert_eq!(vertices.len(), 2);
    assert!(vertices[0].used && vertices[1].used);
    assert!(!vertices[0].is_wheel && vertices[1].is_wheel);
    assert_eq!((vertices[0].phase, vertices[1].phase), (1, 2));
    assert_eq!((vertices[0].body, vertices[1].body), ((1.0, 2.0), (3.0, 4.0)));
    assert!(!vertices[1].selected && !vertices[1].just_released);
    let seeds = vec![
        botz::scene::LinkSeed { src: 1, dest: 0, push_span: 5, push_timing: 6 },
        botz::scene::LinkSeed { src: 0, dest: 1, push_span: 7, push_timing: 8 },
    ];
    let links = botz::state::seed_links(&seeds, vec![0.5, 1.5]);
    assert_eq!(links.len(), 2);
    assert_eq!((links[0].src, links[0].dest, links[0].push_span, links[0].push_timing), (1, 0, 5, 6));
    assert_eq!((links[1].src, links[1].dest, links[1].push_span, links[1].push_timing), (0, 1, 7, 8));
    assert_eq!((links[0].spring, links[1].spring, links[0].phase), (0.5, 1.5, 0));
}
