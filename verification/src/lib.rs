//! A small synchronous bridge that lets a host invoke a standalone language
//! toolchain (parse, validate, execute) through a stable call surface, and
//! that translates the toolchain's internal outcomes into a uniform result
//! value or a human-readable error string.

mod adapter;
mod execution;
mod toolchain;

pub use adapter::check_syntax;
pub use adapter::compile_and_run;
pub use adapter::format_code;
pub use adapter::get_version;
pub use adapter::init;
pub use adapter::run_outcome_into_result;
pub use execution::lemma_completed_run_well_formed;
pub use execution::ExecutionResult;
pub use toolchain::build_outcome;
pub use toolchain::lex_outcome;
pub use toolchain::toolchain_accepts;
