//! Geohash encoding of fixed-point cell positions, batch drivers that run it
//! sequentially or across a thread pool, and neighbour lookups.

pub mod cell;
pub mod batch;
pub mod direction;
pub mod neighbor;
