//! A contract storage store that grows by runs of consecutive integers,
//! for exercising a node's storage: `bloat(count)` appends `1, 2, ..., count`
//! and `get` reads the whole sequence back.

pub mod laws;
pub mod load_tester;
mod storage;

pub use load_tester::LoadTester;
