//! The guarantees that resolution and the conflict policy give together,
//! stated over the same spec functions the executable contracts use.

use vstd::prelude::*;

use crate::paths::base_name_spec;
use crate::paths::join_spec;
use crate::policy::conflict_step;
use crate::policy::first_step_spec;
use crate::policy::spec_batch_failed;
use crate::policy::AttemptResult;
use crate::policy::NextStep;
use crate::policy::RenameOutcome;
use crate::resolve::resolution_ok;
use crate::resolve::App;
use crate::resolve::FlagSet;
use crate::resolve::UsageError;

verus! {

/// With two operands, no mode flag, and a second operand that is not an
/// existing directory, resolution yields exactly the single direct pair.
pub proof fn lemma_two_operands_direct_pair(
    f: FlagSet,
    ps: Seq<String>,
    r: Result<App, UsageError>,
)
    requires
        !f.no_target_directory,
        f.target_directory is None,
        !(f.force && f.no_clobber),
        ps.len() == 2,
        resolution_ok(f, ps, false, r),
    ensures
        r matches Ok(a) && a.operations@.len() == 1 && a.operations@[0].src@ == ps[0]@
            && a.operations@[0].dest@ == ps[1]@,
{
}

/// With three operands and no mode flag, the last operand is taken as the
/// target directory and each of the first two is moved into it under its
/// base name.
pub proof fn lemma_three_operands_move_into_dir(
    f: FlagSet,
    ps: Seq<String>,
    second_is_dir: bool,
    r: Result<App, UsageError>,
)
    requires
        !f.no_target_directory,
        f.target_directory is None,
        !(f.force && f.no_clobber),
        ps.len() == 3,
        base_name_spec(ps[0]@) is Some,
        base_name_spec(ps[1]@) is Some,
        resolution_ok(f, ps, second_is_dir, r),
    ensures
        r matches Ok(a) && {
            &&& a.operations@.len() == 2
            &&& a.operations@[0].src@ == ps[0]@
            &&& a.operations@[0].dest@ == join_spec(ps[2]@, base_name_spec(ps[0]@)->Some_0)
            &&& a.operations@[1].src@ == ps[1]@
            &&& a.operations@[1].dest@ == join_spec(ps[2]@, base_name_spec(ps[1]@)->Some_0)
        },
{
    let srcs = ps.take(2);
    assert(srcs[0] == ps[0]);
    assert(srcs[1] == ps[1]);
    match r {
        Err(e) => {
            let k = choose|k: int|
                crate::resolve::first_without_base_name(srcs, k) && (e
                    matches UsageError::NoBaseName { src } && src@ == srcs[k]@);
            assert(crate::resolve::first_without_base_name(srcs, k));
            assert(false);
        },
        Ok(a) => {},
    }
}

/// `--no-target-directory` with an operand count other than two always fails
/// with a usage error, whatever the filesystem says.
pub proof fn lemma_no_target_directory_needs_two(
    f: FlagSet,
    ps: Seq<String>,
    second_is_dir: bool,
    r: Result<App, UsageError>,
)
    requires
        f.no_target_directory,
        ps.len() != 2,
        resolution_ok(f, ps, second_is_dir, r),
    ensures
        r is Err,
        !(f.force && f.no_clobber) && f.target_directory is None ==> r == Err::<
            App,
            UsageError,
        >(UsageError::ExpectTwoOperands),
{
}

/// `--force` and `--no-clobber` together fail resolution before any operand
/// is inspected.
pub proof fn lemma_force_no_clobber_conflict(
    f: FlagSet,
    ps: Seq<String>,
    second_is_dir: bool,
    r: Result<App, UsageError>,
)
    requires
        f.force,
        f.no_clobber,
        resolution_ok(f, ps, second_is_dir, r),
    ensures
        r == Err::<App, UsageError>(UsageError::ForceNoClobberConflict),
{
}

/// `--target-directory` and `--no-target-directory` together fail
/// resolution before any operand is inspected.
pub proof fn lemma_target_directory_conflict(
    f: FlagSet,
    ps: Seq<String>,
    second_is_dir: bool,
    r: Result<App, UsageError>,
)
    requires
        f.target_directory is Some,
        f.no_target_directory,
        resolution_ok(f, ps, second_is_dir, r),
    ensures
        r is Err,
        !(f.force && f.no_clobber) ==> r == Err::<App, UsageError>(
            UsageError::TargetDirectoryConflict,
        ),
{
}

/// Under `no_clobber` (and no `force`), a destination-exists conflict is
/// skipped, not failed; a batch of skips and successes exits with 0.
pub proof fn lemma_no_clobber_skips(f: FlagSet, outcomes: Seq<RenameOutcome>)
    requires
        !f.force,
        f.no_clobber,
        forall|i: int| 0 <= i < outcomes.len() ==> outcomes[i] != RenameOutcome::Failed,
    ensures
        first_step_spec(f, AttemptResult::AlreadyExists) == NextStep::Done(
            RenameOutcome::SkippedNoClobber,
        ),
        !spec_batch_failed(outcomes),
{
}

/// With none of `force`, `no_clobber` and `interactive`, a
/// destination-exists conflict fails the operation, and with it the batch.
pub proof fn lemma_default_conflict_fails(f: FlagSet, outcomes: Seq<RenameOutcome>, i: int)
    requires
        !f.force,
        !f.no_clobber,
        !f.interactive,
        0 <= i < outcomes.len(),
        outcomes[i] == RenameOutcome::Failed,
    ensures
        first_step_spec(f, AttemptResult::AlreadyExists) == NextStep::Done(RenameOutcome::Failed),
        spec_batch_failed(outcomes),
{
    assert(conflict_step(f) == NextStep::Done(RenameOutcome::Failed));
}

} // verus!
