//! A verified record-keeping engine for exam results.
//!
//! The registry accepts result submissions, lets each record make a single
//! one-way transition from pending to verified, and keeps aggregate counters
//! that always agree with the underlying record set. Stored state carries a
//! lease that mutations refresh; state whose lease has run out may be evicted
//! by the surrounding storage layer.

pub mod records;
pub mod registry;

pub use records::ExamResult;
pub use records::RegistryError;
pub use records::ResultBook;
pub use records::ResultStats;
pub use registry::ExamResultContract;
pub use registry::RegistryView;
