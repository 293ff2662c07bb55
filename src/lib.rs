//! Classification and bookkeeping for a sweeper that keeps a directory
//! clear: which entries are protected, which go to the trash, and what a
//! sweep amounts to.

pub mod allow;
pub mod entry;
pub mod laws;
pub mod sweep;
