use rawmv::App;
use rawmv::FlagSet;
use rawmv::RenameOp;
use rawmv::UsageError;

fn strs(args: &[&str]) -> Vec<String> {
    args.iter().map(|s| s.to_string()).collect()
}

fn resolve(flags: &FlagSet, operands: &[&str]) -> Result<App, String> {
    rawmv::resolve_here(flags, strs(operands)).map_err(|e| e.message())
}

fn op(src: &str, dest: &str) -> RenameOp {
    RenameOp {
        src: src.to_string(),
        dest: dest.to_string(),
    }
}

#[test]
fn test_parse_auto_detect() {
    let none = FlagSet::default();
    assert_eq!(
        resolve(&none, &["/non/existing/file", "/"]).unwrap(),
        App {
            operations: vec![op("/non/existing/file", "/file")],
            ..App::default()
        }
    );
    assert_eq!(
        resolve(&none, &["/non/existing/file", "/non/existing/other"]).unwrap(),
        App {
            operations: vec![op("/non/existing/file", "/non/existing/other")],
            ..App::default()
        }
    );

    assert_eq!(
        resolve(&none, &["/foo", "/bar", "/non/existing"]).unwrap(),
        App {
            operations: vec![
                op("/foo", "/non/existing/foo"),
                op("/bar", "/non/existing/bar"),
            ],
            ..App::default()
        }
    );

    assert_eq!(resolve(&none, &[]).unwrap_err(), "Missing file operand");
    assert_eq!(
        resolve(&none, &["foo"]).unwrap_err(),
        "Missing destination operand"
    );
}

#[test]
fn test_parse_no_target_dir() {
    let flags = FlagSet {
        no_target_directory: true,
        ..FlagSet::default()
    };
    assert_eq!(
        resolve(&flags, &["/", "/"]).unwrap(),
        App {
            operations: vec![op("/", "/")],
            ..App::default()
        }
    );
    assert_eq!(
        resolve(&flags, &["/"]).unwrap_err(),
        "Expect exact 2 operands when using '--no-target-directory'",
    );
    assert_eq!(
        resolve(&flags, &["/", "/", "/"]).unwrap_err(),
        "Expect exact 2 operands when using '--no-target-directory'",
    );
}

#[test]
fn test_parse_target_dir() {
    let into_root = FlagSet {
        target_directory: Some("/".to_string()),
        ..FlagSet::default()
    };
    assert_eq!(
        resolve(&into_root, &[]).unwrap_err(),
        "Missing file operand"
    );
    assert_eq!(
        resolve(
            &FlagSet {
                no_target_directory: true,
                target_directory: Some("/".to_string()),
                ..FlagSet::default()
            },
            &[]
        )
        .unwrap_err(),
        "Cannot use '--no-target-directory' and '--target-directory' together",
    );

    assert_eq!(
        resolve(&into_root, &["/some/non/existing/file"]).unwrap(),
        App {
            operations: vec![op("/some/non/existing/file", "/file")],
            ..App::default()
        }
    );
    assert_eq!(
        resolve(
            &FlagSet {
                target_directory: Some("foo".to_string()),
                ..FlagSet::default()
            },
            &["bar", "baz"]
        )
        .unwrap(),
        App {
            operations: vec![op("bar", "foo/bar"), op("baz", "foo/baz")],
            ..App::default()
        }
    );
}

#[test]
fn test_parse_clobber_flags() {
    let app = App {
        operations: vec![op("foo", "/foo")],
        ..App::default()
    };

    assert_eq!(
        resolve(
            &FlagSet {
                no_clobber: true,
                ..FlagSet::default()
            },
            &["foo", "/"]
        )
        .unwrap(),
        App {
            no_clobber: true,
            ..app.clone()
        },
    );
    assert_eq!(
        resolve(
            &FlagSet {
                force: true,
                ..FlagSet::default()
            },
            &["foo", "/"]
        )
        .unwrap(),
        App { force: true, ..app },
    );

    assert_eq!(
        resolve(
            &FlagSet {
                force: true,
                no_clobber: true,
                ..FlagSet::default()
            },
            &["foo", "/"]
        )
        .unwrap_err(),
        "Cannot use '--force' and '--no-clobber' together"
    );
}

#[test]
fn test_parse_dash_dash() {
    // The flag tokens before `--` are the flag parser's business; the library
    // splits the raw list, and everything after `--` joins the operands as-is.
    let (head, tail) = rawmv::split_double_dash(strs(&["-f", "foo", "--", "-n", "-t"]));
    assert_eq!(head, strs(&["-f", "foo"]));
    assert_eq!(tail, strs(&["-n", "-t"]));
    let mut operands = vec!["foo".to_string()];
    operands.extend(tail);
    assert_eq!(
        rawmv::resolve_here(
            &FlagSet {
                force: true,
                ..FlagSet::default()
            },
            operands
        )
        .unwrap(),
        App {
            force: true,
            operations: vec![op("foo", "-t/foo"), op("-n", "-t/-n")],
            ..App::default()
        }
    );

    let (head, tail) = rawmv::split_double_dash(strs(&["-T", "--", "--", "-f"]));
    assert_eq!(head, strs(&["-T"]));
    assert_eq!(tail, strs(&["--", "-f"]));
    assert_eq!(
        rawmv::resolve_here(
            &FlagSet {
                no_target_directory: true,
                ..FlagSet::default()
            },
            tail
        )
        .unwrap(),
        App {
            operations: vec![op("--", "-f")],
            ..App::default()
        }
    );

    let (head, tail) = rawmv::split_double_dash(strs(&["-t", "foo", "--", "-f"]));
    assert_eq!(head, strs(&["-t", "foo"]));
    assert_eq!(tail, strs(&["-f"]));
    assert_eq!(
        rawmv::resolve_here(
            &FlagSet {
                target_directory: Some("foo".to_string()),
                ..FlagSet::default()
            },
            tail
        )
        .unwrap(),
        App {
            operations: vec![op("-f", "foo/-f")],
            ..App::default()
        }
    );
}

#[test]
fn two_operands_follow_the_directory_query() {
    // The same two operands resolve as a direct pair or as a move into the
    // second operand, depending only on the answer of the directory query.
    let none = FlagSet::default();
    let operands = || vec!["a".to_string(), "d".to_string()];
    assert_eq!(
        rawmv::resolve(&none, operands(), false).unwrap(),
        App {
            operations: vec![op("a", "d")],
            ..App::default()
        }
    );
    assert_eq!(
        rawmv::resolve(&none, operands(), true).unwrap(),
        App {
            operations: vec![op("a", "d/a")],
            ..App::default()
        }
    );
}

#[test]
fn split_without_double_dash_keeps_everything() {
    let (head, tail) = rawmv::split_double_dash(strs(&["-f", "a", "b"]));
    assert_eq!(head, strs(&["-f", "a", "b"]));
    assert!(tail.is_empty());
}

#[test]
fn source_without_base_name_is_refused() {
    let flags = FlagSet {
        target_directory: Some("/tmp".to_string()),
        ..FlagSet::default()
    };
    let err = rawmv::resolve_here(&flags, strs(&["a", "/", "b"])).unwrap_err();
    assert_eq!(err, UsageError::NoBaseName {
        src: "/".to_string()
    });
    assert_eq!(err.message(), "Source doesn't have base name: /");
}

#[test]
fn trailing_dot_sources_move_under_their_file_name() {
    let flags = FlagSet {
        target_directory: Some("d".to_string()),
        ..FlagSet::default()
    };
    assert_eq!(
        rawmv::resolve_here(&flags, strs(&["foo/."])).unwrap(),
        App {
            operations: vec![op("foo/.", "d/foo")],
            ..App::default()
        }
    );
    // `x/.` has a base name, so the first operand without one is `/`.
    let err = rawmv::resolve_here(&flags, strs(&["x/.", "/"])).unwrap_err();
    assert_eq!(err, UsageError::NoBaseName {
        src: "/".to_string()
    });
}

#[test]
fn conflict_is_reported_before_operands() {
    let flags = FlagSet {
        force: true,
        no_clobber: true,
        no_target_directory: true,
        target_directory: Some("x".to_string()),
        ..FlagSet::default()
    };
    // No operand is inspected: even an empty list gives the flag conflict.
    let err = rawmv::resolve_here(&flags, Vec::new()).unwrap_err();
    assert_eq!(err, UsageError::ForceNoClobberConflict);
    assert_eq!(
        err.message(),
        "Cannot use '--force' and '--no-clobber' together"
    );
}

#[test]
fn help_describes_the_flags() {
    let help = App::help();
    assert!(help.starts_with("rawmv 0.1.0"));
    assert!(help.contains("--force"));
    assert!(help.contains("--no-clobber"));
    assert!(help.contains("--interactive"));
    assert!(help.contains("--verbose"));
    assert!(help.contains("--no-target-directory"));
    assert!(help.contains("--target-directory"));
    assert!(help.contains("--help"));
    assert!(help.contains("--version"));
}
