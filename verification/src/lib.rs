//! The discrete core of a two-dimensional soft-body simulator.
//!
//! A body is a graph of point masses joined by elastic links, some of which
//! work as muscles in time with a cyclic clock, inside an arena with four
//! walls. This crate holds what is decided in whole numbers and truth
//! values: the store of vertices and links, the clock and the window of each
//! link's pulse, what a contact with a wall comes to, the triangles of the
//! graph, the pointer's gestures, and the reading of saved scenes.
//!
//! Positions, velocities and spring constants are decimal fractions. The
//! store carries them for its user as the body of each vertex and the
//! spring of each link and never looks inside; the user does the arithmetic
//! on them and asks the engine, step by step, what to do next.

pub mod clock;
pub mod deletion;
pub mod editor;
pub mod filters;
pub mod gestures;
pub mod graph;
pub mod numbers;
pub mod pulse;
pub mod scene;
pub mod state;
pub mod triangles;
pub mod walls;
