//! The guest-facing side: hosting seats guests, serving waits on them.

pub mod hosting;
pub mod serving;
