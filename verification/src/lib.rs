//! A diagnostic walker for a platform audio-object graph: it reads a
//! snapshot of the audio service's answers, applies a fixed catalogue of
//! per-class properties and an inclusion-filter policy to every reachable
//! object, and serializes what it finds as one indented report tree.
pub mod classes;
pub mod codec;
pub mod graph;
pub mod options;
pub mod render;
pub mod selectors;
pub mod shapes;
pub mod tree;
pub mod walker;
