//! Conflict policy of the rename executor.
//!
//! The executor attempts each operation's rename in list order. The first
//! attempt requests overwrite semantics only under `force`; when the attempt
//! fails because the destination already exists, these functions decide
//! whether the operation is skipped, retried with overwrite after a
//! confirmation, or reported as failed. One operation's failure never aborts
//! the rest of the batch; the batch fails exactly when some operation failed.

use vstd::prelude::*;
use vstd::string::StrSliceExecFns;

use crate::resolve::FlagSet;

verus! {

/// How one rename attempt came back, as the caller classifies it.
#[derive(Debug, Clone, Copy, PartialEq, Eq, Structural)]
pub enum AttemptResult {
    /// The rename succeeded.
    Succeeded,
    /// The destination already exists and overwrite was not requested.
    AlreadyExists,
    /// Any other failure: source missing, permission, cross-device, and so on.
    OtherError,
}

/// The final classification of one operation.
#[derive(Debug, Clone, Copy, PartialEq, Eq, Structural)]
pub enum RenameOutcome {
    /// The rename was performed.
    Succeeded,
    /// The destination existed and `no_clobber` skipped the operation.
    SkippedNoClobber,
    /// The destination existed and the confirmation was declined.
    SkippedUserDeclined,
    /// The operation failed; the batch as a whole fails.
    Failed,
}

/// What the executor does next with the current operation.
#[derive(Debug, Clone, Copy, PartialEq, Eq, Structural)]
pub enum NextStep {
    /// The operation is finished with this outcome.
    Done(RenameOutcome),
    /// Ask for confirmation, then continue with `after_prompt`.
    AskUser,
    /// Attempt the rename once more, with overwrite permitted.
    RetryOverwrite,
}

/// The decision on a destination-exists conflict under flag set `f`.
pub open spec fn conflict_step(f: FlagSet) -> NextStep {
    if f.no_clobber {
        NextStep::Done(RenameOutcome::SkippedNoClobber)
    } else if f.interactive {
        NextStep::AskUser
    } else {
        NextStep::Done(RenameOutcome::Failed)
    }
}

/// What follows the first rename attempt of an operation.
pub open spec fn first_step_spec(f: FlagSet, res: AttemptResult) -> NextStep {
    match res {
        AttemptResult::Succeeded => NextStep::Done(RenameOutcome::Succeeded),
        AttemptResult::AlreadyExists => if f.force {
            NextStep::Done(RenameOutcome::Failed)
        } else {
            conflict_step(f)
        },
        AttemptResult::OtherError => NextStep::Done(RenameOutcome::Failed),
    }
}

/// Whether overwrite is requested on an operation's first rename attempt.
pub fn first_attempt_overwrite(f: &FlagSet) -> (r: bool)
    ensures
        r == f.force,
{
    f.force
}

/// Decides what follows the first rename attempt: success and plain failures
/// are final; a destination-exists conflict is skipped under `no_clobber`,
/// put to the user under `interactive`, and a failure otherwise.
pub fn after_first_attempt(f: &FlagSet, res: AttemptResult) -> (s: NextStep)
    ensures
        s == first_step_spec(*f, res),
{
    match res {
        AttemptResult::Succeeded => NextStep::Done(RenameOutcome::Succeeded),
        AttemptResult::AlreadyExists => {
            if f.force {
                NextStep::Done(RenameOutcome::Failed)
            } else if f.no_clobber {
                NextStep::Done(RenameOutcome::SkippedNoClobber)
            } else if f.interactive {
                NextStep::AskUser
            } else {
                NextStep::Done(RenameOutcome::Failed)
            }
        },
        AttemptResult::OtherError => NextStep::Done(RenameOutcome::Failed),
    }
}

/// The characters the confirmation answer is trimmed of: the Unicode
/// white-space characters.
pub open spec fn is_space(c: char) -> bool {
    let u = c as u32;
    ||| u == 0x20
    ||| (0x09 <= u && u <= 0x0D)
    ||| u == 0x85
    ||| u == 0xA0
    ||| u == 0x1680
    ||| (0x2000 <= u && u <= 0x200A)
    ||| u == 0x2028
    ||| u == 0x2029
    ||| u == 0x202F
    ||| u == 0x205F
    ||| u == 0x3000
}

/// `s` with leading white space removed.
pub open spec fn trim_start_spec(s: Seq<char>) -> Seq<char>
    decreases s.len(),
{
    if s.len() > 0 && is_space(s.first()) {
        trim_start_spec(s.drop_first())
    } else {
        s
    }
}

/// `s` with trailing white space removed.
pub open spec fn trim_end_spec(s: Seq<char>) -> Seq<char>
    decreases s.len(),
{
    if s.len() > 0 && is_space(s.last()) {
        trim_end_spec(s.drop_last())
    } else {
        s
    }
}

/// `s` with leading and trailing white space removed.
pub open spec fn trim_spec(s: Seq<char>) -> Seq<char> {
    trim_end_spec(trim_start_spec(s))
}

fn is_space_char(c: char) -> (r: bool)
    ensures
        r == is_space(c),
{
    let u = c as u32;
    u == 0x20 || (0x09 <= u && u <= 0x0D) || u == 0x85 || u == 0xA0 || u == 0x1680 || (0x2000 <= u
        && u <= 0x200A) || u == 0x2028 || u == 0x2029 || u == 0x202F || u == 0x205F || u == 0x3000
}

/// Decides the confirmation: exactly the answer `y`, once trimmed, retries
/// the rename with overwrite permitted; any other answer declines.
pub fn after_prompt(answer: &str) -> (s: NextStep)
    ensures
        s == if trim_spec(answer@) == seq!['y'] {
            NextStep::RetryOverwrite
        } else {
            NextStep::Done(RenameOutcome::SkippedUserDeclined)
        },
{
    let len = answer.unicode_len();
    proof {
        assert(answer@.skip(0) =~= answer@);
    }
    let mut start: usize = 0;
    while start < len && is_space_char(answer.get_char(start))
        invariant
            start <= len,
            len == answer@.len(),
            trim_start_spec(answer@) == trim_start_spec(answer@.skip(start as int)),
        decreases len - start,
    {
        proof {
            let t = answer@.skip(start as int);
            assert(t.first() == answer@[start as int]);
            assert(t.drop_first() =~= answer@.skip(start + 1));
        }
        start = start + 1;
    }
    proof {
        let t = answer@.skip(start as int);
        if start < len {
            assert(t.first() == answer@[start as int]);
        }
        assert(trim_start_spec(t) == t);
        assert(answer@.subrange(start as int, len as int) =~= t);
    }
    let mut end: usize = len;
    while end > start && is_space_char(answer.get_char(end - 1))
        invariant
            start <= end <= len,
            len == answer@.len(),
            trim_spec(answer@) == trim_end_spec(answer@.subrange(start as int, end as int)),
        decreases end,
    {
        proof {
            let t = answer@.subrange(start as int, end as int);
            assert(t.last() == answer@[end - 1]);
            assert(t.drop_last() =~= answer@.subrange(start as int, end - 1));
        }
        end = end - 1;
    }
    proof {
        let t = answer@.subrange(start as int, end as int);
        if end > start {
            assert(t.last() == answer@[end - 1]);
        }
        assert(trim_end_spec(t) == t);
    }
    if end - start == 1 && answer.get_char(start) == 'y' {
        proof {
            assert(answer@.subrange(start as int, end as int) =~= seq!['y']);
        }
        NextStep::RetryOverwrite
    } else {
        proof {
            let t = answer@.subrange(start as int, end as int);
            if t == seq!['y'] {
                assert(t.len() == 1 && t[0] == 'y');
                assert(end - start == 1 && answer@[start as int] == 'y');
            }
        }
        NextStep::Done(RenameOutcome::SkippedUserDeclined)
    }
}

/// The outcome of the overwriting retry: it is final either way.
pub fn after_retry(res: AttemptResult) -> (o: RenameOutcome)
    ensures
        o == match res {
            AttemptResult::Succeeded => RenameOutcome::Succeeded,
            AttemptResult::AlreadyExists => RenameOutcome::Failed,
            AttemptResult::OtherError => RenameOutcome::Failed,
        },
{
    match res {
        AttemptResult::Succeeded => RenameOutcome::Succeeded,
        AttemptResult::AlreadyExists => RenameOutcome::Failed,
        AttemptResult::OtherError => RenameOutcome::Failed,
    }
}

/// Some operation of the batch failed; skips do not count.
pub open spec fn spec_batch_failed(outcomes: Seq<RenameOutcome>) -> bool {
    exists|i: int| 0 <= i < outcomes.len() && outcomes[i] == RenameOutcome::Failed
}

/// Whether the batch as a whole failed: true exactly when some operation's
/// outcome is `Failed`.
pub fn batch_failed(outcomes: &Vec<RenameOutcome>) -> (r: bool)
    ensures
        r == spec_batch_failed(outcomes@),
{
    let mut i: usize = 0;
    while i < outcomes.len()
        invariant
            i <= outcomes@.len(),
            forall|j: int| 0 <= j < i ==> outcomes@[j] != RenameOutcome::Failed,
        decreases outcomes@.len() - i,
    {
        if outcomes[i] == RenameOutcome::Failed {
            return true;
        }
        i = i + 1;
    }
    false
}

/// The process exit code for the batch: 1 exactly when some operation
/// failed, 0 otherwise; skips never raise it.
pub fn exit_code(outcomes: &Vec<RenameOutcome>) -> (r: i32)
    ensures
        spec_batch_failed(outcomes@) ==> r == 1,
        !spec_batch_failed(outcomes@) ==> r == 0,
{
    if batch_failed(outcomes) {
        1
    } else {
        0
    }
}

} // verus!
