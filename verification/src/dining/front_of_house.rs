//! The guest-facing side of the restaurant.

pub mod hosting;
