//! Operand resolution: from a flag set and positional path operands to an
//! ordered list of rename operations, or a usage error.
//!
//! Resolution is pure apart from an optional read-only is-directory query,
//! and it either produces the whole operation list or fails before any
//! rename is attempted.

use vstd::prelude::*;
use vstd::string::StringExecFns;

use crate::paths::base_name;
use crate::paths::base_name_spec;
use crate::paths::join_path;
use crate::paths::join_spec;
use crate::strings::str_eq;

verus! {

/// The flags that steer resolution and conflict handling.
///
/// `force` and `no_clobber` are mutually exclusive, as are `target_directory`
/// and `no_target_directory`; resolution rejects the conflicting pairs.
#[derive(Debug, Clone, Default)]
pub struct FlagSet {
    /// Overwrite existing destinations without prompting.
    pub force: bool,
    /// Silently skip operations whose destination exists.
    pub no_clobber: bool,
    /// Ask before overwriting an existing destination.
    pub interactive: bool,
    /// Report each successful rename.
    pub verbose: bool,
    /// Treat the last operand as a plain file; exactly two operands expected.
    pub no_target_directory: bool,
    /// Move every operand into this directory.
    pub target_directory: Option<String>,
}

/// One rename to perform: `src` is moved to `dest`.
#[derive(Debug, Clone, PartialEq, Eq)]
pub struct RenameOp {
    pub src: String,
    pub dest: String,
}

/// The resolved plan: the conflict-policy flags together with the ordered
/// list of rename operations.
#[derive(Debug, Clone, Default, PartialEq, Eq)]
pub struct App {
    pub force: bool,
    pub no_clobber: bool,
    pub interactive: bool,
    pub verbose: bool,
    pub operations: Vec<RenameOp>,
}

/// A resolution-time error: the whole run is refused and no rename is
/// attempted.
#[derive(Debug, Clone, PartialEq, Eq)]
pub enum UsageError {
    /// `--force` together with `--no-clobber`.
    ForceNoClobberConflict,
    /// `--target-directory` together with `--no-target-directory`.
    TargetDirectoryConflict,
    /// No operand at all.
    MissingFileOperand,
    /// A single operand, so no destination.
    MissingDestinationOperand,
    /// `--no-target-directory` with an operand count other than two.
    ExpectTwoOperands,
    /// An operand with no final path component, such as the root.
    NoBaseName { src: String },
}

/// The diagnostic text of a usage error.
pub open spec fn message_spec(e: UsageError) -> Seq<char> {
    match e {
        UsageError::ForceNoClobberConflict => "Cannot use '--force' and '--no-clobber' together"@,
        UsageError::TargetDirectoryConflict => "Cannot use '--no-target-directory' and '--target-directory' together"@,
        UsageError::MissingFileOperand => "Missing file operand"@,
        UsageError::MissingDestinationOperand => "Missing destination operand"@,
        UsageError::ExpectTwoOperands => "Expect exact 2 operands when using '--no-target-directory'"@,
        UsageError::NoBaseName { src } => "Source doesn't have base name: "@ + src@,
    }
}

impl UsageError {
    /// Renders the error for the diagnostic stream.
    pub fn message(&self) -> (r: String)
        ensures
            r@ == message_spec(*self),
    {
        match self {
            UsageError::ForceNoClobberConflict => "Cannot use '--force' and '--no-clobber' together".to_owned(),
            UsageError::TargetDirectoryConflict => "Cannot use '--no-target-directory' and '--target-directory' together".to_owned(),
            UsageError::MissingFileOperand => "Missing file operand".to_owned(),
            UsageError::MissingDestinationOperand => "Missing destination operand".to_owned(),
            UsageError::ExpectTwoOperands => "Expect exact 2 operands when using '--no-target-directory'".to_owned(),
            UsageError::NoBaseName { src } => "Source doesn't have base name: ".to_owned().concat(
                src.as_str(),
            ),
        }
    }
}

/// The plan carries exactly the conflict-policy flags of `f`.
pub open spec fn carries_flags(a: App, f: FlagSet) -> bool {
    &&& a.force == f.force
    &&& a.no_clobber == f.no_clobber
    &&& a.interactive == f.interactive
    &&& a.verbose == f.verbose
}

/// `op` renames `src` to `src`'s base name inside the directory `dir`.
pub open spec fn op_moves_into(src: String, dir: Seq<char>, op: RenameOp) -> bool {
    &&& op.src@ == src@
    &&& base_name_spec(src@) matches Some(b) && op.dest@ == join_spec(dir, b)
}

/// `ops` moves each of `srcs`, in order, into the directory `dir`.
pub open spec fn ops_move_into(srcs: Seq<String>, dir: Seq<char>, ops: Seq<RenameOp>) -> bool {
    &&& ops.len() == srcs.len()
    &&& forall|i: int| 0 <= i < srcs.len() ==> op_moves_into(srcs[i], dir, #[trigger] ops[i])
}

/// Every source operand has a base name.
pub open spec fn all_have_base_names(srcs: Seq<String>) -> bool {
    forall|i: int| 0 <= i < srcs.len() ==> base_name_spec(#[trigger] srcs[i]@) is Some
}

/// `k` is the first operand of `srcs` without a base name.
pub open spec fn first_without_base_name(srcs: Seq<String>, k: int) -> bool {
    &&& 0 <= k < srcs.len()
    &&& base_name_spec(srcs[k]@) is None
    &&& forall|j: int| 0 <= j < k ==> base_name_spec(#[trigger] srcs[j]@) is Some
}

/// The outcome of moving `srcs` into `dir`: either every source is resolved,
/// or the first source without a base name is reported.
pub open spec fn move_into_result(
    srcs: Seq<String>,
    dir: Seq<char>,
    f: FlagSet,
    r: Result<App, UsageError>,
) -> bool {
    match r {
        Ok(a) => {
            &&& carries_flags(a, f)
            &&& all_have_base_names(srcs)
            &&& ops_move_into(srcs, dir, a.operations@)
        },
        Err(e) => {
            exists|k: int|
                first_without_base_name(srcs, k) && (e matches UsageError::NoBaseName { src }
                    && src@ == srcs[k]@)
        },
    }
}

/// `a` holds the single direct pair `(ps[0], ps[1])`.
pub open spec fn direct_pair(ps: Seq<String>, a: App) -> bool {
    &&& a.operations@.len() == 1
    &&& a.operations@[0].src@ == ps[0]@
    &&& a.operations@[0].dest@ == ps[1]@
}

/// What resolution returns for flag set `f`, operands `ps`, and
/// `second_is_dir` saying whether, with exactly two operands and no mode
/// flag, the second names an existing directory.
pub open spec fn resolution_ok(
    f: FlagSet,
    ps: Seq<String>,
    second_is_dir: bool,
    r: Result<App, UsageError>,
) -> bool {
    if f.force && f.no_clobber {
        r == Err::<App, UsageError>(UsageError::ForceNoClobberConflict)
    } else if f.target_directory is Some && f.no_target_directory {
        r == Err::<App, UsageError>(UsageError::TargetDirectoryConflict)
    } else if f.no_target_directory {
        if ps.len() != 2 {
            r == Err::<App, UsageError>(UsageError::ExpectTwoOperands)
        } else {
            r matches Ok(a) && carries_flags(a, f) && direct_pair(ps, a)
        }
    } else if f.target_directory is Some {
        if ps.len() == 0 {
            r == Err::<App, UsageError>(UsageError::MissingFileOperand)
        } else {
            move_into_result(ps, (f.target_directory->Some_0)@, f, r)
        }
    } else {
        if ps.len() == 0 {
            r == Err::<App, UsageError>(UsageError::MissingFileOperand)
        } else if ps.len() == 1 {
            r == Err::<App, UsageError>(UsageError::MissingDestinationOperand)
        } else if ps.len() == 2 && !second_is_dir {
            r matches Ok(a) && carries_flags(a, f) && direct_pair(ps, a)
        } else {
            move_into_result(ps.take(ps.len() - 1), ps[ps.len() - 1]@, f, r)
        }
    }
}

/// The usage text.
pub open spec fn help_text_spec() -> Seq<char> {
    "rawmv 0.1.0
mv(1) but without cp(1) fallback. Simple wrapper of renameat2(2).

USAGE:
    rawmv [OPTION]... [-T] <SOURCE> <DEST>
    rawmv [OPTION]... <SOURCE>... <DIRECTORY>
    rawmv [OPTION]... -t <DIRECTORY> <SOURCE>...

FLAGS:
    -f, --force                 Do not prompt before overwriting. Note that
                                unlike mv(1), without this flag, we raise an
                                error if the destination already exists
    -h, --help                  Prints help information
    -i, --interactive           Prompt for confirmation before overwrite
    -n, --no-clobber            Silently skip files whose destinations exist
    -T, --no-target-directory   Always treat the last path (destination) as a
                                normal file. This implies that only two
                                operands are expected
    -V, --version               Prints version information
    -v, --verbose               Print what is being done

OPTIONS:
    -t, --target-directory <DIRECTORY>  Move all files into this directory
"@
}

impl App {
    /// The usage text, for the external entry point to print.
    pub fn help() -> (r: String)
        ensures
            r@ == help_text_spec(),
    {
        "rawmv 0.1.0
mv(1) but without cp(1) fallback. Simple wrapper of renameat2(2).

USAGE:
    rawmv [OPTION]... [-T] <SOURCE> <DEST>
    rawmv [OPTION]... <SOURCE>... <DIRECTORY>
    rawmv [OPTION]... -t <DIRECTORY> <SOURCE>...

FLAGS:
    -f, --force                 Do not prompt before overwriting. Note that
                                unlike mv(1), without this flag, we raise an
                                error if the destination already exists
    -h, --help                  Prints help information
    -i, --interactive           Prompt for confirmation before overwrite
    -n, --no-clobber            Silently skip files whose destinations exist
    -T, --no-target-directory   Always treat the last path (destination) as a
                                normal file. This implies that only two
                                operands are expected
    -V, --version               Prints version information
    -v, --verbose               Print what is being done

OPTIONS:
    -t, --target-directory <DIRECTORY>  Move all files into this directory
".to_owned()
    }

    /// Appends, for each source in order, the operation that moves it into
    /// `target_dir`. Stops at the first source without a base name: the
    /// operations pushed so far remain and that source is reported.
    pub fn push_move_to_dir(&mut self, srcs: &Vec<String>, target_dir: &str) -> (r: Result<
        (),
        UsageError,
    >)
        ensures
            final(self).force == old(self).force,
            final(self).no_clobber == old(self).no_clobber,
            final(self).interactive == old(self).interactive,
            final(self).verbose == old(self).verbose,
            final(self).operations@.len() >= old(self).operations@.len(),
            final(self).operations@.subrange(0, old(self).operations@.len() as int) == old(
                self,
            ).operations@,
            match r {
                Ok(()) => {
                    &&& all_have_base_names(srcs@)
                    &&& ops_move_into(
                        srcs@,
                        target_dir@,
                        final(self).operations@.skip(old(self).operations@.len() as int),
                    )
                },
                Err(e) => {
                    exists|k: int|
                        {
                            &&& first_without_base_name(srcs@, k)
                            &&& e matches UsageError::NoBaseName { src } && src@ == srcs@[k]@
                            &&& final(self).operations@.len() == old(self).operations@.len() + k
                            &&& ops_move_into(
                                srcs@.take(k),
                                target_dir@,
                                final(self).operations@.skip(old(self).operations@.len() as int),
                            )
                        }
                },
            },
    {
        let ghost base = old(self).operations@.len() as int;
        let mut i: usize = 0;
        while i < srcs.len()
            invariant
                i <= srcs@.len(),
                self.force == old(self).force,
                self.no_clobber == old(self).no_clobber,
                self.interactive == old(self).interactive,
                self.verbose == old(self).verbose,
                base == old(self).operations@.len(),
                self.operations@.len() == base + i,
                self.operations@.subrange(0, base) == old(self).operations@,
                forall|j: int| 0 <= j < i ==> base_name_spec(#[trigger] srcs@[j]@) is Some,
                ops_move_into(srcs@.take(i as int), target_dir@, self.operations@.skip(base)),
            decreases srcs@.len() - i,
        {
            let src = &srcs[i];
            match base_name(src.as_str()) {
                None => {
                    proof {
                        let k = i as int;
                        assert(first_without_base_name(srcs@, k));
                        assert(self.operations@.len() == base + k);
                    }
                    return Err(UsageError::NoBaseName { src: src.clone() });
                },
                Some(b) => {
                    let dest = join_path(target_dir, b.as_str());
                    let op = RenameOp { src: src.clone(), dest };
                    let ghost prev = self.operations@;
                    self.operations.push(op);
                    proof {
                        assert(self.operations@.subrange(0, base) =~= prev.subrange(0, base));
                        let tail = self.operations@.skip(base);
                        let prev_tail = prev.skip(base);
                        assert(tail =~= prev_tail.push(op));
                        assert(op_moves_into(srcs@[i as int], target_dir@, op));
                        assert forall|j: int| 0 <= j < i + 1 implies op_moves_into(
                            srcs@.take(i + 1)[j],
                            target_dir@,
                            #[trigger] tail[j],
                        ) by {
                            assert(srcs@.take(i + 1)[j] == srcs@[j]);
                            if j < i {
                                assert(tail[j] == prev_tail[j]);
                                assert(srcs@.take(i as int)[j] == srcs@[j]);
                                assert(op_moves_into(
                                    srcs@.take(i as int)[j],
                                    target_dir@,
                                    prev_tail[j],
                                ));
                            } else {
                                assert(tail[j] == op);
                            }
                        }
                    }
                },
            }
            i = i + 1;
        }
        proof {
            assert(srcs@.take(i as int) =~= srcs@);
        }
        Ok(())
    }
}

/// Resolves the operands against an already-answered directory query:
/// `second_is_dir` tells whether, in the two-operand auto-detect case, the
/// second operand names an existing directory.
pub fn resolve(flags: &FlagSet, positionals: Vec<String>, second_is_dir: bool) -> (r: Result<
    App,
    UsageError,
>)
    ensures
        resolution_ok(*flags, positionals@, second_is_dir, r),
{
    if flags.force && flags.no_clobber {
        return Err(UsageError::ForceNoClobberConflict);
    }
    if flags.target_directory.is_some() && flags.no_target_directory {
        return Err(UsageError::TargetDirectoryConflict);
    }
    let mut app = App {
        force: flags.force,
        no_clobber: flags.no_clobber,
        interactive: flags.interactive,
        verbose: flags.verbose,
        operations: Vec::new(),
    };
    if flags.no_target_directory {
        if positionals.len() != 2 {
            return Err(UsageError::ExpectTwoOperands);
        }
        let mut ps = positionals;
        let dest = ps.pop().unwrap();
        let src = ps.pop().unwrap();
        app.operations.push(RenameOp { src, dest });
        Ok(app)
    } else if flags.target_directory.is_some() {
        let dir = flags.target_directory.as_ref().unwrap();
        if positionals.len() == 0 {
            return Err(UsageError::MissingFileOperand);
        }
        match app.push_move_to_dir(&positionals, dir.as_str()) {
            Ok(()) => {
                proof {
                    assert(app.operations@.skip(0) =~= app.operations@);
                }
                Ok(app)
            },
            Err(e) => Err(e),
        }
    } else {
        if positionals.len() == 0 {
            return Err(UsageError::MissingFileOperand);
        }
        if positionals.len() == 1 {
            return Err(UsageError::MissingDestinationOperand);
        }
        if positionals.len() == 2 && !second_is_dir {
            let mut ps = positionals;
            let dest = ps.pop().unwrap();
            let src = ps.pop().unwrap();
            app.operations.push(RenameOp { src, dest });
            return Ok(app);
        }
        let mut ps = positionals;
        let dir = ps.pop().unwrap();
        proof {
            assert(ps@ =~= positionals@.take(positionals@.len() - 1));
        }
        match app.push_move_to_dir(&ps, dir.as_str()) {
            Ok(()) => {
                proof {
                    assert(app.operations@.skip(0) =~= app.operations@);
                }
                Ok(app)
            },
            Err(e) => Err(e),
        }
    }
}

/// Relies on std::path::Path::is_dir: whether the path names an existing
/// directory. The answer depends on the live filesystem, so nothing is
/// promised of it.
#[verifier::external_body]
fn path_is_directory(p: &str) -> bool {
    std::path::Path::new(p).is_dir()
}

/// Resolves the operands against the live filesystem: with exactly two
/// operands and no mode flag, whether the second operand names an existing
/// directory picks between the direct-pair and move-into-directory readings.
/// Everything else is independent of that query.
pub fn resolve_here(flags: &FlagSet, positionals: Vec<String>) -> (r: Result<App, UsageError>)
    ensures
        exists|second_is_dir: bool| resolution_ok(*flags, positionals@, second_is_dir, r),
{
    // The query is made only where it can matter: conflicting or mode flags
    // resolve without looking at the filesystem.
    let second_is_dir = !(flags.force && flags.no_clobber) && !flags.no_target_directory
        && flags.target_directory.is_none() && positionals.len() == 2 && path_is_directory(
        positionals[1].as_str(),
    );
    let r = resolve(flags, positionals, second_is_dir);
    proof {
        assert(resolution_ok(*flags, positionals@, second_is_dir, r));
    }
    r
}

/// Splits the raw argument list at the first `--`: tokens before it are
/// subject to flag interpretation, tokens after it are literal operands.
pub fn split_double_dash(tokens: Vec<String>) -> (r: (Vec<String>, Vec<String>))
    ensures
        ({
            ||| {
                &&& forall|i: int| 0 <= i < tokens@.len() ==> (#[trigger] tokens@[i])@ != "--"@
                &&& r.0 == tokens
                &&& r.1@.len() == 0
            }
            ||| exists|k: int|
                {
                    &&& 0 <= k < tokens@.len()
                    &&& tokens@[k]@ == "--"@
                    &&& forall|j: int| 0 <= j < k ==> (#[trigger] tokens@[j])@ != "--"@
                    &&& r.0@ == tokens@.take(k)
                    &&& r.1@ == tokens@.skip(k + 1)
                }
        }),
{
    let mut i: usize = 0;
    while i < tokens.len()
        invariant
            i <= tokens@.len(),
            forall|j: int| 0 <= j < i ==> (#[trigger] tokens@[j])@ != "--"@,
        decreases tokens@.len() - i,
    {
        if str_eq(tokens[i].as_str(), "--") {
            let mut head: Vec<String> = Vec::new();
            let mut tail: Vec<String> = Vec::new();
            let ghost k = i as int;
            let mut j: usize = 0;
            while j < i
                invariant
                    j <= i,
                    i < tokens@.len(),
                    head@.len() == j,
                    forall|m: int| 0 <= m < j ==> head@[m] == tokens@[m],
                decreases i - j,
            {
                head.push(tokens[j].clone());
                j = j + 1;
            }
            let mut j: usize = i + 1;
            while j < tokens.len()
                invariant
                    i + 1 <= j <= tokens@.len(),
                    tail@.len() == j - i - 1,
                    forall|m: int| i + 1 <= m < j ==> tail@[m - i - 1] == tokens@[m],
                decreases tokens@.len() - j,
            {
                tail.push(tokens[j].clone());
                j = j + 1;
            }
            proof {
                assert(head@ =~= tokens@.take(k));
                assert(tail@ =~= tokens@.skip(k + 1));
            }
            return (head, tail);
        }
        i = i + 1;
    }
    (tokens, Vec::new())
}

} // verus!
