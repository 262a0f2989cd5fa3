//! Frame codec and bus-control decisions for a single-wire PIO packet bus.

pub mod parser;
pub mod bus;
pub mod laws;
