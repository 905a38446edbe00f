//! State and rendering decisions of a small demo: a counter widget next to a
//! lazily loaded copy of it behind a suspense boundary.

pub mod counter;
pub mod demo;
pub mod props;
