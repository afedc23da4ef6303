//! A small 3D scene, decided on paper before the engine draws it: a camera,
//! a ground plane and a lamp, and a die that is spawned under a tilted parent
//! for every press of the space bar.
//!
//! The library keeps a [`world::World`] of its own and never touches the
//! engine's. [`systems`] holds the two startup systems and the per-frame
//! system that change it; [`blueprint`] says what each entity and asset is;
//! [`frames`] says what holds of a world over any number of frames. A program
//! around the library runs the engine and carries the world's changes over.
//!
//! All quantities are exact decimals, counted in thousandths: see [`units`].

pub mod blueprint;
pub mod components;
pub mod frames;
pub mod input;
pub mod systems;
pub mod units;
pub mod world;
