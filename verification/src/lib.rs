//! Operand resolution and conflict policy for an atomic file-renaming tool.
//!
//! The library turns a flag set and a list of positional path operands into
//! an ordered list of rename operations, and decides, per operation, how a
//! destination-exists conflict is handled (overwrite, skip, prompt, fail).
//! Performing the renames, reading the prompt answer and tokenizing the
//! command line are left to the surrounding program.

mod laws;
mod paths;
mod policy;
mod resolve;
mod strings;

pub use laws::lemma_default_conflict_fails;
pub use laws::lemma_force_no_clobber_conflict;
pub use laws::lemma_no_clobber_skips;
pub use laws::lemma_no_target_directory_needs_two;
pub use laws::lemma_target_directory_conflict;
pub use laws::lemma_three_operands_move_into_dir;
pub use laws::lemma_two_operands_direct_pair;
pub use paths::base_name;
pub use paths::base_name_spec;
pub use paths::ends_in_dot_component;
pub use paths::final_component;
pub use paths::join_path;
pub use paths::join_spec;
pub use paths::strip_trailing_slashes_and_dots;
pub use policy::after_first_attempt;
pub use policy::after_prompt;
pub use policy::after_retry;
pub use policy::batch_failed;
pub use policy::conflict_step;
pub use policy::exit_code;
pub use policy::first_attempt_overwrite;
pub use policy::first_step_spec;
pub use policy::is_space;
pub use policy::spec_batch_failed;
pub use policy::trim_end_spec;
pub use policy::trim_spec;
pub use policy::trim_start_spec;
pub use policy::AttemptResult;
pub use policy::NextStep;
pub use policy::RenameOutcome;
pub use resolve::all_have_base_names;
pub use resolve::carries_flags;
pub use resolve::direct_pair;
pub use resolve::first_without_base_name;
pub use resolve::help_text_spec;
pub use resolve::message_spec;
pub use resolve::move_into_result;
pub use resolve::op_moves_into;
pub use resolve::ops_move_into;
pub use resolve::resolution_ok;
pub use resolve::resolve;
pub use resolve::resolve_here;
pub use resolve::split_double_dash;
pub use resolve::App;
pub use resolve::FlagSet;
pub use resolve::RenameOp;
pub use resolve::UsageError;
pub use strings::str_eq;
