pub mod graph;
pub mod input;
pub mod pipelines;
pub mod scene;
pub mod session;
