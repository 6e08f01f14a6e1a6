//! The Secret Rocks minter: what it decides on instantiation, on each handled message and on
//! its query, with the draws, the entropy pool and the rock metadata behind those decisions.
pub mod contract;
pub mod draw;
pub mod entropy;
pub mod laws;
pub mod msg;
pub mod outside;
pub mod state;
pub mod text;
pub mod token;
