//! The floor plan of a restaurant as a module tree: the front of house
//! hosts and serves.

pub mod front_of_house;
