//! An in-process structured tracer. It correlates span and event
//! notifications into one tree per top-level unit of work and renders each
//! tree as an indented text block when that unit completes.

pub mod level;
pub mod output;
pub mod text;
pub mod model;
pub mod subscriber;
pub mod laws;
pub mod component;
