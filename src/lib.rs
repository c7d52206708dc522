//! A stateful arithmetic evaluator: the error type it reports, the operation
//! selector with its failure rules, and the append-only history log.

pub mod error;
pub mod history;
pub mod operation;

pub use error::CalcError;
pub use history::History;
pub use operation::{check_sqrt, Operation};
