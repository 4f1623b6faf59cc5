//! Summary statistics of cytosine methylation, by sequence context.
//!
//! A stream of per-cytosine observations, in genomic order, is tallied into
//! six counters: all cytosines, CpG sites, symmetric CpG pairs, CHH, CCG and
//! CXG. Everything here is integer bookkeeping with proved contracts; the
//! quotients that a report prints are handed out as pairs of counts, to be
//! divided by whoever prints them.
pub mod site;
pub mod counter;
pub mod levels;

pub use crate::site::{Call, Class, Reading, Site, Strand};
pub use crate::counter::{Fraction, LevelsCounter, Tally};
pub use crate::levels::{Ledger, Levels, Unclassified};
