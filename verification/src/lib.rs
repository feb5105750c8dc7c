//! Memory decay configuration, the retention report, and query-parser
//! selection, with their contracts proved by Verus.

pub mod decay;
pub mod decimal;
pub mod graph_memory;
pub mod query_parsing;
