//! The search for triangles: triples of vertices that are pairwise linked.

use vstd::prelude::*;
use crate::graph::{is_triangle, linked, links_distinct, lists_triangles, Link};

verus! {

/// Some link among the first `upto` runs between `a` and `b`.
pub open spec fn linked_before<S>(links: Seq<Link<S>>, upto: int, a: int, b: int) -> bool {
    exists|k: int| 0 <= k < upto && #[trigger] links[k].joins(a as usize, b as usize)
}

/// `table` is a square table that holds, for every pair of vertices,
/// whether one of the first `upto` links runs between them.
pub open spec fn is_adjacency<S>(
    table: Seq<Vec<bool>>,
    n: int,
    links: Seq<Link<S>>,
    upto: int,
) -> bool {
    &&& table.len() == n
    &&& forall|a: int| 0 <= a < n ==> (#[trigger] table[a])@.len() == n
    &&& forall|a: int, b: int|
        0 <= a < n && 0 <= b < n ==> (#[trigger] table[a]@[b]) == linked_before(links, upto, a, b)
}

/// Builds the adjacency table of `links` over `n` vertices.
pub fn adjacency<S>(n: usize, links: &Vec<Link<S>>) -> (table: Vec<Vec<bool>>)
    requires
        forall|k: int| 0 <= k < links@.len() ==> (#[trigger] links@[k]).src < n && links@[k].dest < n,
    ensures
        is_adjacency(table@, n as int, links@, links@.len() as int),
{
    let mut table: Vec<Vec<bool>> = Vec::new();
    let mut r: usize = 0;
    while r < n
        invariant
            r <= n,
            table@.len() == r,
            forall|a: int| 0 <= a < r ==> (#[trigger] table@[a])@.len() == n,
            forall|a: int, b: int| 0 <= a < r && 0 <= b < n ==> !(#[trigger] table@[a]@[b]),
        decreases n - r,
    {
        let mut row: Vec<bool> = Vec::new();
        let mut c: usize = 0;
        while c < n
            invariant
                c <= n,
                row@.len() == c,
                forall|b: int| 0 <= b < c ==> !(#[trigger] row@[b]),
            decreases n - c,
        {
            row.push(false);
            c += 1;
        }
        table.push(row);
        r += 1;
    }
    let mut i: usize = 0;
    while i < links.len()
        invariant
            i <= links@.len(),
            forall|k: int|
                0 <= k < links@.len() ==> (#[trigger] links@[k]).src < n && links@[k].dest < n,
            is_adjacency(table@, n as int, links@, i as int),
        decreases links@.len() - i,
    {
        let src = links[i].src;
        let dest = links[i].dest;
        let ghost before = table@;
        table[src][dest] = true;
        table[dest][src] = true;
        proof {
            assert forall|a: int, b: int| 0 <= a < n && 0 <= b < n implies (#[trigger] table@[a]@[b])
                == linked_before(links@, i + 1, a, b) by {
                let hit = links@[i as int].joins(a as usize, b as usize);
                assert(table@[a]@[b] == (before[a]@[b] || hit));
                if linked_before(links@, i + 1, a, b) {
                    let k = choose|k: int|
                        0 <= k < i + 1 && #[trigger] links@[k].joins(a as usize, b as usize);
                    if k < i {
                        assert(linked_before(links@, i as int, a, b));
                    }
                }
                if before[a]@[b] {
                    let k = choose|k: int|
                        0 <= k < i && #[trigger] links@[k].joins(a as usize, b as usize);
                    assert(0 <= k < i + 1 && links@[k].joins(a as usize, b as usize));
                }
                if hit {
                    assert(0 <= i < i + 1 && links@[i as int].joins(a as usize, b as usize));
                }
            }
        }
        i += 1;
    }
    table
}

/// Lists the triangles of `links` over `n` vertices, each once, as triples in
/// ascending order. Every triangle is reported from the link between its two
/// lowest corners, when the scan over the vertices reaches the third.
pub fn find<S>(n: usize, links: &Vec<Link<S>>) -> (found: Vec<(usize, usize, usize)>)
    requires
        forall|k: int| 0 <= k < links@.len() ==> (#[trigger] links@[k]).src < n && links@[k].dest < n,
        links_distinct(links@),
    ensures
        lists_triangles(found@, links@),
{
    let table = adjacency(n, links);
    let mut found: Vec<(usize, usize, usize)> = Vec::new();
    let ghost mut origin: Seq<int> = Seq::empty();
    let mut k: usize = 0;
    while k < links.len()
        invariant
            k <= links@.len(),
            forall|i: int|
                0 <= i < links@.len() ==> (#[trigger] links@[i]).src < n && links@[i].dest < n,
            links_distinct(links@),
            is_adjacency(table@, n as int, links@, links@.len() as int),
            found@.no_duplicates(),
            origin.len() == found@.len(),
            forall|m: int| 0 <= m < found@.len() ==> is_triangle(links@, #[trigger] found@[m]),
            forall|m: int|
                0 <= m < found@.len() ==> 0 <= #[trigger] origin[m] < k && links@[origin[m]].joins(
                    found@[m].0,
                    found@[m].1,
                ),
            forall|t: (usize, usize, usize), i: int|
                is_triangle(links@, t) && 0 <= i < k && #[trigger] links@[i].joins(t.0, t.1)
                    ==> found@.contains(t),
        decreases links@.len() - k,
    {
        let src = links[k].src;
        let dest = links[k].dest;
        let (lo, hi) = if src < dest { (src, dest) } else { (dest, src) };
        let mut j: usize = 0;
        while j < n
            invariant
                j <= n,
                k < links@.len(),
                src == links@[k as int].src,
                dest == links@[k as int].dest,
                src < n,
                dest < n,
                lo <= hi,
                (lo == src && hi == dest) || (lo == dest && hi == src),
                forall|i: int|
                    0 <= i < links@.len() ==> (#[trigger] links@[i]).src < n && links@[i].dest < n,
                links_distinct(links@),
                is_adjacency(table@, n as int, links@, links@.len() as int),
                found@.no_duplicates(),
                origin.len() == found@.len(),
                forall|m: int| 0 <= m < found@.len() ==> is_triangle(links@, #[trigger] found@[m]),
                forall|m: int|
                    0 <= m < found@.len() ==> 0 <= #[trigger] origin[m] <= k
                        && links@[origin[m]].joins(found@[m].0, found@[m].1) && (origin[m] < k
                        || found@[m].2 < j),
                forall|t: (usize, usize, usize), i: int|
                    is_triangle(links@, t) && 0 <= i <= k && #[trigger] links@[i].joins(t.0, t.1)
                        && (i < k || t.2 < j) ==> found@.contains(t),
            decreases n - j,
        {
            let ghost before = found@;
            let hit = lo < hi && j > hi && table[src][j] && table[dest][j];
            if hit {
                let t = (lo, hi, j);
                proof {
                    lemma_adjacent_is_linked(table@, n as int, links@, src as int, j as int);
                    lemma_adjacent_is_linked(table@, n as int, links@, dest as int, j as int);
                    assert(links@[k as int].joins(lo, hi));
                    assert(linked(links@, lo, hi));
                    assert(is_triangle(links@, t));
                    assert(!before.contains(t)) by {
                        if before.contains(t) {
                            let m = choose|m: int| 0 <= m < before.len() && before[m] == t;
                            let o = origin[m];
                            assert(links@[o].joins(lo, hi));
                            if o < k {
                                assert(links@[o].joins(links@[k as int].src, links@[k as int].dest));
                            }
                        }
                    }
                }
                found.push(t);
                proof {
                    origin = origin.push(k as int);
                    assert(found@[before.len() as int] == t);
                    assert forall|x: (usize, usize, usize)|
                        before.contains(x) implies found@.contains(x) by {
                        let m = choose|m: int| 0 <= m < before.len() && before[m] == x;
                        assert(found@[m] == x);
                    }
                    assert(found@.no_duplicates()) by {
                        assert forall|a: int, b: int|
                            0 <= a < found@.len() && 0 <= b < found@.len() && a != b implies found@[a]
                            != found@[b] by {
                            if a == before.len() {
                                assert(before[b] == found@[b]);
                                assert(before.contains(found@[b]));
                            } else if b == before.len() {
                                assert(before[a] == found@[a]);
                                assert(before.contains(found@[a]));
                            } else {
                                assert(before[a] == found@[a] && before[b] == found@[b]);
                            }
                        }
                    }
                }
            }
            proof {
                assert forall|t: (usize, usize, usize), i: int|
                    is_triangle(links@, t) && 0 <= i <= k && #[trigger] links@[i].joins(t.0, t.1)
                        && (i < k || t.2 < j + 1) implies found@.contains(t) by {
                    if i < k || t.2 < j {
                        assert(before.contains(t));
                        let m = choose|m: int| 0 <= m < before.len() && before[m] == t;
                        assert(found@[m] == t);
                    } else {
                        assert(t.0 == lo && t.1 == hi && t.2 == j);
                        lemma_linked_is_adjacent(table@, n as int, links@, t.0, t.2);
                        lemma_linked_is_adjacent(table@, n as int, links@, t.1, t.2);
                        lemma_linked_is_adjacent(table@, n as int, links@, t.2, t.0);
                        assert(hit);
                        assert(found@[before.len() as int] == t);
                    }
                }
            }
            j += 1;
        }
        k += 1;
    }
    proof {
        assert forall|t: (usize, usize, usize)| found@.contains(t) <==> is_triangle(
            links@,
            t,
        ) by {
            if found@.contains(t) {
                let m = choose|m: int| 0 <= m < found@.len() && found@[m] == t;
                assert(is_triangle(links@, found@[m]));
            }
            if is_triangle(links@, t) {
                let i = choose|i: int| 0 <= i < links@.len() && #[trigger] links@[i].joins(t.0, t.1);
                assert(found@.contains(t));
            }
        }
    }
    found
}

/// What the full table marks as adjacent is linked.
proof fn lemma_adjacent_is_linked<S>(
    table: Seq<Vec<bool>>,
    n: int,
    links: Seq<Link<S>>,
    a: int,
    b: int,
)
    requires
        is_adjacency(table, n, links, links.len() as int),
        0 <= a < n,
        0 <= b < n,
        table[a]@[b],
    ensures
        linked(links, a as usize, b as usize),
        linked(links, b as usize, a as usize),
{
    let k = choose|k: int| 0 <= k < links.len() && #[trigger] links[k].joins(a as usize, b as usize);
    assert(links[k].joins(b as usize, a as usize));
}

/// What is linked, the full table marks as adjacent, in both directions.
proof fn lemma_linked_is_adjacent<S>(
    table: Seq<Vec<bool>>,
    n: int,
    links: Seq<Link<S>>,
    a: usize,
    b: usize,
)
    requires
        is_adjacency(table, n, links, links.len() as int),
        forall|k: int| 0 <= k < links.len() ==> (#[trigger] links[k]).src < n && links[k].dest < n,
        linked(links, a, b),
    ensures
        a < n,
        b < n,
        table[a as int]@[b as int],
        table[b as int]@[a as int],
{
    let k = choose|k: int| 0 <= k < links.len() && #[trigger] links[k].joins(a, b);
    assert(links[k].joins(b, a));
    assert(links[k].joins((a as int) as usize, (b as int) as usize));
    assert(links[k].joins((b as int) as usize, (a as int) as usize));
    assert(linked_before(links, links.len() as int, a as int, b as int));
    assert(linked_before(links, links.len() as int, b as int, a as int));
}

/// A link to a vertex that had no link before closes no triangle, and no
/// new link opens one: the triangles stay exactly as they were.
pub proof fn lemma_pendant_link_adds_no_triangle<S>(links: Seq<Link<S>>, link: Link<S>)
    requires
        forall|k: int| 0 <= k < links.len() ==> !(#[trigger] links[k]).touches(link.src),
    ensures
        forall|t: (usize, usize, usize)|
            is_triangle(links.push(link), t) <==> is_triangle(links, t),
{
    let more = links.push(link);
    assert forall|a: usize, b: usize| linked(links, a, b) implies linked(more, a, b) by {
        let k = choose|k: int| 0 <= k < links.len() && #[trigger] links[k].joins(a, b);
        assert(more[k].joins(a, b));
    }
    assert forall|a: usize, b: usize| linked(more, a, b) && !link.joins(a, b) implies linked(
        links,
        a,
        b,
    ) by {
        let k = choose|k: int| 0 <= k < more.len() && #[trigger] more[k].joins(a, b);
        assert(links[k].joins(a, b));
    }
    assert forall|a: usize, b: usize| linked(more, a, b) && (a == link.src || b == link.src)
        implies link.joins(a, b) by {
        let k = choose|k: int| 0 <= k < more.len() && #[trigger] more[k].joins(a, b);
        if k < links.len() {
            assert(links[k].touches(link.src));
        }
    }
    assert forall|t: (usize, usize, usize)| is_triangle(more, t) implies is_triangle(links, t) by {
        if link.joins(t.0, t.1) || link.joins(t.1, t.2) || link.joins(t.0, t.2) {
            // The new link lies on the triangle, and so does its fresh end,
            // which would need a second link to close it.
            assert(link.joins(t.0, t.1) && link.joins(t.0, t.2) || link.joins(t.0, t.1)
                && link.joins(t.1, t.2) || link.joins(t.0, t.2) && link.joins(t.1, t.2));
        }
    }
}

/// Three links that run between three vertices, one for each pair, make
/// one triangle and no other.
pub proof fn lemma_three_cycle_is_one_triangle<S>(links: Seq<Link<S>>, a: usize, b: usize, c: usize)
    requires
        a < b < c,
        links.len() == 3,
        links[0].joins(a, b),
        links[1].joins(b, c),
        links[2].joins(a, c),
    ensures
        forall|t: (usize, usize, usize)| is_triangle(links, t) <==> t == (a, b, c),
{
    assert(linked(links, a, b) && linked(links, b, c) && linked(links, a, c));
    assert forall|t: (usize, usize, usize)| is_triangle(links, t) implies t == (a, b, c) by {
        let k = choose|k: int| 0 <= k < links.len() && #[trigger] links[k].joins(t.0, t.1);
        let m = choose|m: int| 0 <= m < links.len() && #[trigger] links[m].joins(t.1, t.2);
    }
}

} // verus!
