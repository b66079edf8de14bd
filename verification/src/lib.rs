//! A small library of classic introductory examples, each carrying a full
//! functional contract: arithmetic helpers, validated wrapper types, a line
//! searcher, a quota tracker, and friends.

pub mod adder;
pub mod aggregator;
pub mod bistro;
pub mod boxes;
pub mod dining;
pub mod front_desk;
pub mod functions;
pub mod guessing;
pub mod inventory;
pub mod largest_fixed;
pub mod largest_number;
pub mod lifetimes;
pub mod limit_tracker;
pub mod methods;
pub mod minigrep;
pub mod ownership;
pub mod points;
pub mod rectangles;
pub mod references;
pub mod restaurant;
pub mod seqs;
pub mod shoes;
pub mod slices;
pub mod summaries;
pub mod validation;
