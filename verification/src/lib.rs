//! A growable, contiguous, heap-backed sequence container with push/pop
//! access, indexed reads and writes, and an owning, double-ended consuming
//! iterator, together with the algorithm-selection logic of the surrounding
//! compression tool.

pub mod compress;
pub mod list;
