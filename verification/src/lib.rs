//! Verified core of the agent's tool layer: text processing for file
//! ingestion, document chunking, storage and strategy bookkeeping, tool
//! permissions and architecture self-checks.

pub mod text;
pub mod json;
pub mod str_map;
pub mod ids;
pub mod storage_architecture;
pub mod strategic_learning;
pub mod architecture_validation;
pub mod seq_util;
pub mod tools;
pub mod models;
pub mod memory_types;
pub mod skills;
pub mod workers;
pub mod vector;
