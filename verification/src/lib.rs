//! Core logic of a competitive-programming test harness: output
//! normalization and judging, a bounded pool of reusable scratch-file
//! paths, classification of program runs (direct and sandboxed), the
//! checker protocol, and a positional line diff.

mod checker;
mod compile;
mod diff;
mod judge;
mod normalize;
mod numbers;
mod pool;
mod runner;
mod text;
mod verdict;

pub use checker::{checker_input, checker_verdict, interpret_checker_output, CheckerAction};
pub use compile::{build_compile_command, compile_outcome, executable_path_for, file_stem,
    CompileEvent};
pub use diff::{diff_rows, generate_diff, terminal_width, DiffRow};
pub use judge::{judge_output, lines_equal, reference_output_path};
pub use normalize::{normalized_lines, split_trim_end};
pub use numbers::{parse_i64, parse_u64};
pub use pool::{default_pool_capacity, lemma_acquire_release_balanced, lemma_scratch_names_distinct,
    scratch_path, worker_count, ScratchPool};
pub use runner::{classify_direct_run, classify_sio2jail_run};
pub use text::is_ws;
pub use verdict::{ExecutionError, ExecutionResult, RunOutcome, TestResult, WaitEvent};
