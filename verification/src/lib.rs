//! Orchestration core of a relay that receives a transport stream over SRT and
//! republishes it as FLV: configuration checks, routing of discovered
//! elementary streams, pipeline supervision and decoding of transport statistics.

pub mod config;
pub mod record;
pub mod router;
pub mod srt_stats;
pub mod supervisor;
pub mod text;
