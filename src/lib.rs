//! Layered configuration for an edge agent that runs its workloads on a
//! cluster runtime: documents, their layered merge, and the typed settings
//! decoded from the merged result.

pub mod document;
pub mod field;
pub mod settings;
pub mod error;
pub mod load;
