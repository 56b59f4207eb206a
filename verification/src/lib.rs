//! A diagnostic error-reporting library: immutable report trees that
//! accumulate context as a failure propagates, typed introspection over every
//! node of a tree, and projection of any tree into a fixed, serializable,
//! machine-readable record.

pub mod api;
pub mod json;
pub mod context;
pub mod experiments;
pub mod parsing;
pub mod report;
pub mod text;
pub mod types;
pub mod wrapper;

pub use api::{ApiError, BuildInfo, ErrorFrame};
pub use context::{Context, ContextType, IoErrorKind, IoFailure, OpaqueContext};
pub use experiments::ExperimentError;
pub use report::{Report, ReportNode};
pub use wrapper::{handle_error_logic, perform_task, LibReport, LibResult, ReportExt};
