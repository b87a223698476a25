use botz::graph::{Graph, Tick, DEFAULT_PUSH_SPAN, DEFAULT_PUSH_TIMING};

type Body = (f64, f64);

fn three_cycle() -> Graph<Body, f64> {
    let mut g: Graph<Body, f64> = Graph::new();
    assert_eq!(g.add_vertex(0, 0, (0.0, 0.0)), 0);
    assert_eq!(g.add_vertex(0, 0, (3.0, 0.0)), 1);
    assert_eq!(g.add_vertex(0, 0, (0.0, 4.0)), 2);
    assert!(g.add_link(0, 1, 0, 3.0));
    assert!(g.add_link(1, 2, 0, 5.0));
    assert!(g.add_link(2, 0, 0, 4.0));
    g
}

#[test]
fn new_store_is_empty_and_current() {
    let g: Graph<Body, f64> = Graph::new();
    assert_eq!(g.vertex_count(), 0);
    assert_eq!(g.link_count(), 0);
    assert!(g.triangle_list().is_empty());
    assert!(!g.is_dirty());
}

#[test]
fn add_vertex_appends_and_fills_the_fields() {
    let mut g: Graph<Body, f64> = Graph::new();
    let id = g.add_vertex(20, 7, (1.5, 2.5));
    assert_eq!(id, 0);
    assert!(g.is_dirty());
    let v = g.vertex(0);
    assert!(v.used);
    assert!(!v.just_released);
    assert!(!v.selected);
    assert_eq!(v.radius, 20);
    assert!(v.is_wheel);
    assert_eq!(v.phase, 7);
    assert_eq!(v.body, (1.5, 2.5));
    let id = g.add_vertex(0, 0, (0.0, 0.0));
    assert_eq!(id, 1);
    assert!(!g.vertex(1).is_wheel);
}

#[test]
fn add_vertex_reuses_the_first_tombstone() {
    let mut g: Graph<Body, f64> = Graph::new();
    for i in 0..5 {
        assert_eq!(g.add_vertex(0, 0, (i as f64, 0.0)), i);
    }
    g.delete_vertex(3);
    g.delete_vertex(1);
    assert_eq!(g.add_vertex(0, 0, (10.0, 0.0)), 1);
    assert_eq!(g.add_vertex(0, 0, (11.0, 0.0)), 3);
    assert_eq!(g.add_vertex(0, 0, (12.0, 0.0)), 5);
    assert_eq!(g.vertex_count(), 6);
    assert_eq!(g.vertex(1).body, (10.0, 0.0));
    assert_eq!(g.vertex(3).body, (11.0, 0.0));
}

#[test]
fn delete_vertex_keeps_the_others_in_place() {
    let mut g: Graph<Body, f64> = Graph::new();
    for i in 0..6 {
        g.add_vertex(i as u32, i as u8, (i as f64, -(i as f64)));
    }
    g.delete_vertex(2);
    assert_eq!(g.vertex_count(), 6);
    for i in 0..6usize {
        let v = g.vertex(i);
        assert_eq!(v.used, i != 2);
        assert_eq!(v.radius, i as u32);
        assert_eq!(v.phase, i as u8);
        assert_eq!(v.body, (i as f64, -(i as f64)));
    }
    assert!(!g.has_vertex(2));
    assert!(g.has_vertex(3));
    assert!(!g.has_vertex(6));
}

#[test]
fn delete_vertex_removes_its_links_and_keeps_the_order_of_the_rest() {
    let mut g: Graph<Body, f64> = Graph::new();
    for i in 0..4 {
        g.add_vertex(0, 0, (i as f64, 0.0));
    }
    assert!(g.add_link(0, 1, 0, 1.0));
    assert!(g.add_link(1, 2, 0, 2.0));
    assert!(g.add_link(2, 3, 0, 3.0));
    assert!(g.add_link(3, 1, 0, 4.0));
    assert!(g.add_link(0, 3, 0, 5.0));
    g.delete_vertex(1);
    assert_eq!(g.link_count(), 2);
    assert_eq!((g.link(0).src, g.link(0).dest, g.link(0).spring), (2, 3, 3.0));
    assert_eq!((g.link(1).src, g.link(1).dest, g.link(1).spring), (0, 3, 5.0));
    assert!(g.is_dirty());
}

#[test]
fn delete_vertex_twice_is_the_same_as_once() {
    let mut g = three_cycle();
    g.delete_vertex(0);
    g.delete_vertex(0);
    assert_eq!(g.link_count(), 1);
    assert!(!g.vertex(0).used);
    assert_eq!(g.vertex_count(), 3);
}

#[test]
fn delete_link_shifts_the_links_behind_it() {
    let mut g = three_cycle();
    g.find_triangles();
    g.delete_link(0);
    assert!(g.is_dirty());
    assert_eq!(g.link_count(), 2);
    assert_eq!((g.link(0).src, g.link(0).dest), (1, 2));
    assert_eq!((g.link(1).src, g.link(1).dest), (2, 0));
}

#[test]
fn add_link_fills_the_defaults() {
    let mut g: Graph<Body, f64> = Graph::new();
    g.add_vertex(0, 0, (0.0, 0.0));
    g.add_vertex(0, 0, (3.0, 4.0));
    assert!(g.add_link(1, 0, 9, 5.0));
    let l = g.link(0);
    assert_eq!(l.src, 1);
    assert_eq!(l.dest, 0);
    assert_eq!(l.push_timing, DEFAULT_PUSH_TIMING);
    assert_eq!(l.push_timing, 180);
    assert_eq!(l.push_span, DEFAULT_PUSH_SPAN);
    assert_eq!(l.push_span, 40);
    assert_eq!(l.phase, 9);
    assert_eq!(l.spring, 5.0);
}

#[test]
fn add_link_refuses_a_vertex_with_itself() {
    let mut g: Graph<Body, f64> = Graph::new();
    g.add_vertex(0, 0, (0.0, 0.0));
    g.find_triangles();
    assert!(!g.add_link(0, 0, 0, 0.0));
    assert_eq!(g.link_count(), 0);
    assert!(!g.is_dirty());
}

#[test]
fn add_link_refuses_a_second_link_in_either_direction() {
    let mut g: Graph<Body, f64> = Graph::new();
    g.add_vertex(0, 0, (0.0, 0.0));
    g.add_vertex(0, 0, (1.0, 0.0));
    assert!(g.add_link(0, 1, 0, 1.0));
    assert!(!g.add_link(0, 1, 0, 2.0));
    assert!(!g.add_link(1, 0, 0, 3.0));
    assert_eq!(g.link_count(), 1);
    assert_eq!(g.link(0).spring, 1.0);
    assert!(g.are_linked(0, 1));
    assert!(g.are_linked(1, 0));
    assert!(!g.are_linked(0, 0));
}

#[test]
fn set_wheel_keeps_the_flag_in_line() {
    let mut g: Graph<Body, f64> = Graph::new();
    g.add_vertex(0, 0, (0.0, 0.0));
    g.find_triangles();
    g.set_wheel(0, 20);
    assert_eq!(g.vertex(0).radius, 20);
    assert!(g.vertex(0).is_wheel);
    assert!(g.is_dirty());
    g.set_wheel(0, 0);
    assert_eq!(g.vertex(0).radius, 0);
    assert!(!g.vertex(0).is_wheel);
    assert_eq!(g.vertex(0).body, (0.0, 0.0));
}

#[test]
fn set_body_and_set_spring_change_one_payload() {
    let mut g = three_cycle();
    g.find_triangles();
    g.set_body(1, (9.0, 9.0));
    g.set_spring(2, 7.5);
    assert_eq!(g.vertex(0).body, (0.0, 0.0));
    assert_eq!(g.vertex(1).body, (9.0, 9.0));
    assert_eq!(g.vertex(2).body, (0.0, 4.0));
    assert_eq!(g.link(0).spring, 3.0);
    assert_eq!(g.link(1).spring, 5.0);
    assert_eq!(g.link(2).spring, 7.5);
    assert_eq!((g.link(2).src, g.link(2).dest), (2, 0));
    assert!(!g.is_dirty());
}

#[test]
fn reset_link_takes_the_new_spring_and_marks_the_cache() {
    let mut g = three_cycle();
    g.find_triangles();
    g.reset_link(1, 6.25);
    assert_eq!(g.link(1).spring, 6.25);
    assert_eq!(g.link(0).spring, 3.0);
    assert!(g.is_dirty());
}

#[test]
fn set_push_changes_timing_and_span() {
    let mut g = three_cycle();
    g.set_push(1, 10, 25);
    assert_eq!((g.link(1).push_timing, g.link(1).push_span), (10, 25));
    assert_eq!((g.link(0).push_timing, g.link(0).push_span), (180, 40));
    assert_eq!(g.link(1).spring, 5.0);
}

#[test]
fn selection_is_counted_over_live_vertices() {
    let mut g: Graph<Body, f64> = Graph::new();
    for i in 0..4 {
        g.add_vertex(0, 0, (i as f64, 0.0));
    }
    assert_eq!(g.how_many_selected(), 0);
    g.toggle_selection(0);
    g.set_selected(2, true);
    g.toggle_selection(3);
    assert_eq!(g.how_many_selected(), 3);
    g.toggle_selection(3);
    assert_eq!(g.how_many_selected(), 2);
    g.delete_vertex(2);
    assert!(g.vertex(2).selected);
    assert_eq!(g.how_many_selected(), 1);
    g.clear_multi_select();
    assert_eq!(g.how_many_selected(), 0);
    for i in 0..4 {
        assert!(!g.vertex(i).selected);
    }
}

#[test]
fn connected_links_are_those_at_a_selected_vertex() {
    let mut g: Graph<Body, f64> = Graph::new();
    for i in 0..5 {
        g.add_vertex(0, 0, (i as f64, 0.0));
    }
    assert!(g.add_link(0, 1, 0, 1.0));
    assert!(g.add_link(1, 2, 0, 1.0));
    assert!(g.add_link(2, 3, 0, 1.0));
    assert!(g.add_link(3, 4, 0, 1.0));
    assert!(g.add_link(4, 0, 0, 1.0));
    assert_eq!(g.connected_links(), Vec::<usize>::new());
    g.set_selected(2, true);
    assert_eq!(g.connected_links(), vec![1, 2]);
    g.set_selected(0, true);
    assert_eq!(g.connected_links(), vec![0, 1, 2, 4]);
}

#[test]
fn begin_tick_skips_a_tombstone() {
    let mut g: Graph<Body, f64> = Graph::new();
    g.add_vertex(5, 0, (0.0, 0.0));
    g.release(0);
    g.delete_vertex(0);
    assert_eq!(g.begin_tick(0, true), None);
    assert!(g.vertex(0).just_released);
}

#[test]
fn begin_tick_takes_the_release_mark_once() {
    let mut g: Graph<Body, f64> = Graph::new();
    g.add_vertex(5, 0, (0.0, 0.0));
    g.release(0);
    assert!(g.vertex(0).just_released);
    assert_eq!(
        g.begin_tick(0, false),
        Some(Tick { released: true, held: false, radius: 5, is_wheel: true })
    );
    assert!(!g.vertex(0).just_released);
    assert_eq!(
        g.begin_tick(0, true),
        Some(Tick { released: false, held: true, radius: 5, is_wheel: true })
    );
}

#[test]
fn three_cycle_has_exactly_one_triangle() {
    let mut g = three_cycle();
    assert!(g.is_dirty());
    assert!(g.triangle_list().is_empty());
    g.find_triangles();
    assert!(!g.is_dirty());
    assert_eq!(g.triangle_list(), &vec![(0, 1, 2)]);
}

#[test]
fn cache_is_stale_until_it_is_asked_for() {
    let mut g = three_cycle();
    g.find_triangles();
    // A fourth vertex that hangs on vertex 0 alone.
    let d = g.add_vertex(0, 0, (5.0, 5.0));
    assert_eq!(d, 3);
    assert!(g.add_link(3, 0, 0, 1.0));
    assert!(g.is_dirty());
    assert_eq!(g.triangle_list(), &vec![(0, 1, 2)]);
    g.find_triangles();
    assert_eq!(g.triangle_list(), &vec![(0, 1, 2)]);
    // One more link closes a second triangle.
    assert!(g.add_link(1, 3, 0, 1.0));
    assert_eq!(g.triangle_list(), &vec![(0, 1, 2)]);
    g.find_triangles();
    let mut found = g.triangle_list().clone();
    found.sort();
    assert_eq!(found, vec![(0, 1, 2), (0, 1, 3)]);
    // Cutting the first triangle open leaves the second.
    g.delete_link(1);
    assert_eq!(g.triangle_list().len(), 2);
    g.find_triangles();
    assert_eq!(g.triangle_list(), &vec![(0, 1, 3)]);
}

#[test]
fn full_graph_on_five_vertices_has_ten_triangles() {
    let mut g: Graph<Body, f64> = Graph::new();
    for i in 0..5 {
        g.add_vertex(0, 0, (i as f64, 0.0));
    }
    // Links in both orientations, highest pairs first.
    for a in (0..5usize).rev() {
        for b in (0..a).rev() {
            if (a + b) % 2 == 0 {
                assert!(g.add_link(a, b, 0, 1.0));
            } else {
                assert!(g.add_link(b, a, 0, 1.0));
            }
        }
    }
    g.find_triangles();
    let mut found = g.triangle_list().clone();
    found.sort();
    let mut expected = Vec::new();
    for a in 0..5usize {
        for b in a + 1..5 {
            for c in b + 1..5 {
                expected.push((a, b, c));
            }
        }
    }
    assert_eq!(found, expected);
}

#[test]
fn deleted_vertex_takes_its_triangles_along() {
    let mut g = three_cycle();
    g.find_triangles();
    g.delete_vertex(1);
    g.find_triangles();
    assert!(g.triangle_list().is_empty());
}

#[test]
fn find_triangles_on_a_current_cache_changes_nothing() {
    let mut g = three_cycle();
    g.find_triangles();
    g.find_triangles();
    assert_eq!(g.triangle_list(), &vec![(0, 1, 2)]);
    assert!(!g.is_dirty());
}

#[test]
fn insert_link_keeps_what_the_link_brings() {
    let mut g: Graph<Body, f64> = Graph::new();
    g.add_vertex(0, 0, (0.0, 0.0));
    g.add_vertex(0, 0, (1.0, 0.0));
    g.find_triangles();
    let link = |src, dest| botz::graph::Link {
        src,
        dest,
        push_timing: 7,
        push_span: 8,
        phase: 9,
        spring: 2.5,
    };
    assert!(!g.insert_link(link(1, 1)));
    assert!(!g.is_dirty());
    assert!(g.insert_link(link(1, 0)));
    assert!(g.is_dirty());
    assert!(!g.insert_link(link(0, 1)));
    assert_eq!(g.link_count(), 1);
    let l = g.link(0);
    assert_eq!((l.src, l.dest, l.push_timing, l.push_span, l.phase, l.spring), (1, 0, 7, 8, 9, 2.5));
}

fn bare_link(src: usize, dest: usize) -> botz::graph::Link<f64> {
    botz::graph::Link { src, dest, push_timing: 0, push_span: 0, phase: 0, spring: 0.0 }
}

#[test]
fn adjacency_table_is_square_and_symmetric() {
    let links = vec![bare_link(0, 2), bare_link(3, 2)];
    let table = botz::triangles::adjacency(4, &links);
    assert_eq!(
        table,
        vec![
            vec![false, false, true, false],
            vec![false, false, false, false],
            vec![true, false, false, true],
            vec![false, false, true, false],
        ]
    );
    assert_eq!(botz::triangles::adjacency(0, &Vec::<botz::graph::Link<f64>>::new()).len(), 0);
}

#[test]
fn find_reports_each_triangle_once_whatever_the_direction_of_the_links() {
    // Two triangles that share the edge between 1 and 3, in a store of six.
    let links = vec![
        bare_link(3, 1),
        bare_link(1, 0),
        bare_link(0, 3),
        bare_link(5, 3),
        bare_link(1, 5),
        bare_link(4, 2),
    ];
    let mut found = botz::triangles::find(6, &links);
    found.sort();
    assert_eq!(found, vec![(0, 1, 3), (1, 3, 5)]);
    assert!(botz::triangles::find(6, &vec![bare_link(0, 1), bare_link(1, 2)]).is_empty());
    // A link from a vertex to itself closes nothing.
    assert!(botz::triangles::find(3, &vec![bare_link(0, 0), bare_link(0, 1), bare_link(1, 2)])
        .is_empty());
}
