use llvm_cov_cli::args::{Args, Outcome};
use llvm_cov_cli::error::{CliError, Reason};
use llvm_cov_cli::lexer::Token;
use llvm_cov_cli::options::{Coloring, Subcommand};
use llvm_cov_cli::text::{FractionFault, NumberFault};

fn parse_line(given: &[&str]) -> Result<Outcome, CliError> {
    let mut args = vec!["cargo".to_string(), "llvm-cov".to_string()];
    args.extend(given.iter().map(|s| s.to_string()));
    Args::parse_text(args)
}

fn done(given: &[&str]) -> Args {
    match parse_line(given) {
        Ok(Outcome::Run(args)) => args,
        other => panic!("expected a full run, got {:?}", other),
    }
}

fn failed(given: &[&str]) -> CliError {
    match parse_line(given) {
        Err(e) => e,
        other => panic!("expected a failure, got {:?}", other),
    }
}

fn list(items: &[&str]) -> Vec<String> {
    items.iter().map(|s| s.to_string()).collect()
}

#[test]
fn nothing_given_is_the_default() {
    let args = done(&[]);
    assert_eq!(args.subcommand, Subcommand::Test);
    assert!(args.cargo_args.is_empty());
    assert!(args.rest.is_empty());
    assert_eq!(args.build.verbose, 0);
    assert!(args.build.jobs.is_none());
    assert!(args.cov.output_path.is_none());
    assert!(!args.workspace);
    assert!(args.package.is_empty());
}

#[test]
fn unknown_long_option_is_forwarded() {
    let args = done(&["--frozen"]);
    assert_eq!(args.cargo_args, list(&["--frozen"]));
}

#[test]
fn unknown_long_option_keeps_its_attached_value() {
    let args = done(&["--features=a,b", "--target-dir", "out"]);
    assert_eq!(args.cargo_args, list(&["--features=a,b", "--target-dir", "out"]));
}

#[test]
fn unknown_long_option_with_empty_value() {
    let args = done(&["--config="]);
    assert_eq!(args.cargo_args, list(&["--config="]));
}

#[test]
fn unknown_short_option_is_forwarded() {
    let args = done(&["-Z"]);
    assert_eq!(args.cargo_args, list(&["-Z"]));
}

#[test]
fn unknown_short_option_keeps_its_attached_value() {
    let args = done(&["-Zunstable-options", "-Fserde"]);
    assert_eq!(args.cargo_args, list(&["-Zunstable-options", "-Fserde"]));
}

#[test]
fn unknown_short_option_loses_the_equals_sign() {
    let args = done(&["-F=serde"]);
    assert_eq!(args.cargo_args, list(&["-Fserde"]));
}

#[test]
fn quiet_takes_no_value() {
    let args = done(&["-qZ"]);
    assert_eq!(args.cargo_args, list(&["-q", "-Z"]));
}

#[test]
fn quiet_before_known_short_options() {
    let args = done(&["-qrv"]);
    assert_eq!(args.cargo_args, list(&["-q"]));
    assert!(args.build.release);
    assert_eq!(args.build.verbose, 1);
}

#[test]
fn cluster_of_known_short_options() {
    let args = done(&["-rvv"]);
    assert!(args.build.release);
    assert_eq!(args.build.verbose, 2);
    assert_eq!(args.cargo_args, list(&["-v"]));
}

#[test]
fn cluster_ends_with_an_option_that_takes_the_rest() {
    let args = done(&["-vj8"]);
    assert_eq!(args.build.verbose, 1);
    assert_eq!(args.build.jobs, Some(8));
    assert!(args.cargo_args.is_empty());
}

#[test]
fn long_switch_with_a_value_is_an_error() {
    assert_eq!(
        failed(&["--release=yes"]),
        CliError::UnexpectedValue { flag: "--release".to_string(), value: "yes".to_string() }
    );
}

#[test]
fn short_switch_with_a_value_is_an_error() {
    assert_eq!(
        failed(&["-r=yes"]),
        CliError::UnexpectedValue { flag: "-r".to_string(), value: "yes".to_string() }
    );
}

#[test]
fn stray_value_is_found_before_the_end() {
    assert_eq!(
        failed(&["--json=1", "--json"]),
        CliError::UnexpectedValue { flag: "--json".to_string(), value: "1".to_string() }
    );
}

#[test]
fn equals_sign_as_a_short_option() {
    let args = done(&["-=x"]);
    assert_eq!(args.cargo_args, list(&["-=x"]));
}

#[test]
fn jobs_in_every_spelling() {
    assert_eq!(done(&["--jobs", "4"]).build.jobs, Some(4));
    assert_eq!(done(&["--jobs=4"]).build.jobs, Some(4));
    assert_eq!(done(&["-j", "4"]).build.jobs, Some(4));
    assert_eq!(done(&["-j4"]).build.jobs, Some(4));
    assert_eq!(done(&["-j=4"]).build.jobs, Some(4));
}

#[test]
fn jobs_at_the_limits() {
    assert_eq!(done(&["--jobs", "0"]).build.jobs, Some(0));
    assert_eq!(done(&["--jobs", "+7"]).build.jobs, Some(7));
    assert_eq!(done(&["--jobs", "007"]).build.jobs, Some(7));
    assert_eq!(done(&["--jobs", "4294967295"]).build.jobs, Some(4294967295));
    assert_eq!(
        failed(&["--jobs", "4294967296"]),
        CliError::InvalidValue {
            value: "4294967296".to_string(),
            reason: Reason::Number(NumberFault::TooLarge),
        }
    );
}

#[test]
fn jobs_that_are_no_number() {
    assert_eq!(
        failed(&["--jobs", "many"]),
        CliError::InvalidValue {
            value: "many".to_string(),
            reason: Reason::Number(NumberFault::InvalidDigit),
        }
    );
    assert_eq!(
        failed(&["--jobs", ""]),
        CliError::InvalidValue { value: "".to_string(), reason: Reason::Number(NumberFault::Empty) }
    );
    assert_eq!(
        failed(&["--jobs", "+"]),
        CliError::InvalidValue {
            value: "+".to_string(),
            reason: Reason::Number(NumberFault::InvalidDigit),
        }
    );
    assert_eq!(
        failed(&["--jobs", "-1"]),
        CliError::InvalidValue {
            value: "-1".to_string(),
            reason: Reason::Number(NumberFault::InvalidDigit),
        }
    );
    assert_eq!(
        failed(&["--jobs", "1 "]),
        CliError::InvalidValue {
            value: "1 ".to_string(),
            reason: Reason::Number(NumberFault::InvalidDigit),
        }
    );
}

#[test]
fn value_missing_at_the_end() {
    assert_eq!(failed(&["--jobs"]), CliError::MissingValue { flag: "--jobs".to_string() });
    assert_eq!(failed(&["-j"]), CliError::MissingValue { flag: "-j".to_string() });
    assert_eq!(failed(&["--bin"]), CliError::MissingValue { flag: "--bin".to_string() });
    assert_eq!(failed(&["-rp"]), CliError::MissingValue { flag: "-p".to_string() });
}

#[test]
fn uncovered_limits() {
    let args = done(&[
        "--fail-uncovered-lines",
        "18446744073709551615",
        "--fail-uncovered-regions=10",
        "--fail-uncovered-functions",
        "0",
    ]);
    assert_eq!(args.cov.fail_uncovered_lines, Some(u64::MAX));
    assert_eq!(args.cov.fail_uncovered_regions, Some(10));
    assert_eq!(args.cov.fail_uncovered_functions, Some(0));
    assert_eq!(
        failed(&["--fail-uncovered-lines", "18446744073709551616"]),
        CliError::InvalidValue {
            value: "18446744073709551616".to_string(),
            reason: Reason::Number(NumberFault::TooLarge),
        }
    );
}

#[test]
fn line_threshold_is_kept_as_written() {
    let args = done(&["--fail-under-lines", "87.5"]);
    assert_eq!(args.cov.fail_under_lines.as_deref(), Some("87.5"));
    let args = done(&["--fail-under-lines=+9.e1"]);
    assert_eq!(args.cov.fail_under_lines.as_deref(), Some("+9.e1"));
}

#[test]
fn line_threshold_must_be_a_number() {
    assert_eq!(
        failed(&["--fail-under-lines", "most"]),
        CliError::InvalidValue {
            value: "most".to_string(),
            reason: Reason::Fraction(FractionFault::Invalid),
        }
    );
    assert_eq!(
        failed(&["--fail-under-lines", ""]),
        CliError::InvalidValue {
            value: String::new(),
            reason: Reason::Fraction(FractionFault::Empty),
        }
    );
    assert_eq!(
        failed(&["--fail-under-lines", "90%", "--json", "--json"]),
        CliError::InvalidValue {
            value: "90%".to_string(),
            reason: Reason::Fraction(FractionFault::Invalid),
        }
    );
}

#[test]
fn colorings() {
    assert_eq!(done(&["--color", "auto"]).build.color, Some(Coloring::Auto));
    assert_eq!(done(&["--color=always"]).build.color, Some(Coloring::Always));
    assert_eq!(done(&["--color", "never"]).build.color, Some(Coloring::Never));
    assert_eq!(
        failed(&["--color", "blue"]),
        CliError::InvalidValue { value: "blue".to_string(), reason: Reason::Color }
    );
}

#[test]
fn texts_and_paths() {
    let args = done(&[
        "--manifest-path",
        "dir/Cargo.toml",
        "--output-dir=target/cov",
        "--failure-mode",
        "all",
        "--ignore-filename-regex",
        "tests/.*",
        "--profile",
        "ci",
        "--target",
        "x86_64-unknown-linux-gnu",
    ]);
    assert_eq!(args.manifest.manifest_path.as_ref().map(|p| p.as_str()), Some("dir/Cargo.toml"));
    assert_eq!(args.cov.output_dir.as_ref().map(|p| p.as_str()), Some("target/cov"));
    assert_eq!(args.cov.failure_mode.as_deref(), Some("all"));
    assert_eq!(args.cov.ignore_filename_regex.as_deref(), Some("tests/.*"));
    assert_eq!(args.build.profile.as_deref(), Some("ci"));
    assert_eq!(args.build.target.as_deref(), Some("x86_64-unknown-linux-gnu"));
}

#[test]
fn value_may_look_like_an_option() {
    let args = done(&["--output-path", "--json"]);
    assert_eq!(args.cov.output_path.as_ref().map(|p| p.as_str()), Some("--json"));
    assert!(!args.cov.json);
}

#[test]
fn empty_value_is_a_value() {
    let args = done(&["--profile", "", "--bin="]);
    assert_eq!(args.build.profile.as_deref(), Some(""));
    assert_eq!(args.bin, list(&[""]));
}

#[test]
fn repeated_options_keep_every_value_in_order() {
    let args = done(&["--bin", "a", "--example", "e", "--bin=b", "--bin", "a"]);
    assert_eq!(args.bin, list(&["a", "b", "a"]));
    assert_eq!(args.example, list(&["e"]));
}

#[test]
fn package_in_both_spellings() {
    let args = done(&["-p", "x", "--package", "y", "-pz"]);
    assert_eq!(args.package, list(&["x", "y", "z"]));
}

#[test]
fn every_repeated_option_has_its_list() {
    let args = done(&[
        "--test",
        "t1",
        "--bench",
        "b1",
        "--exclude-from-test",
        "x1",
        "--exclude-from-report",
        "x2",
        "--workspace",
        "--exclude",
        "x3",
    ]);
    assert_eq!(args.test, list(&["t1"]));
    assert_eq!(args.bench, list(&["b1"]));
    assert_eq!(args.exclude_from_test, list(&["x1"]));
    assert_eq!(args.exclude_from_report, list(&["x2"]));
    assert_eq!(args.exclude, list(&["x3"]));
    assert!(args.workspace);
}

#[test]
fn every_switch_has_its_field() {
    let args = done(&[
        "--doctests",
        "--no-run",
        "--no-fail-fast",
        "--ignore-run-fail",
        "--lib",
        "--bins",
        "--examples",
        "--tests",
        "--benches",
        "--all-targets",
        "--doc",
        "--workspace",
        "--json",
        "--lcov",
        "--text",
        "--html",
        "--open",
        "--summary-only",
        "--disable-default-ignore-filename-regex",
        "--hide-instantiations",
        "--no-cfg-coverage",
        "--no-cfg-coverage-nightly",
        "--no-report",
        "--show-missing-lines",
        "--include-build-script",
        "--release",
        "--coverage-target-only",
        "--remap-path-prefix",
        "--include-ffi",
    ]);
    assert!(args.doctests && args.no_run && args.no_fail_fast && args.ignore_run_fail);
    assert!(args.lib && args.bins && args.examples && args.tests && args.benches);
    assert!(args.all_targets && args.doc && args.workspace);
    assert!(args.cov.json && args.cov.lcov && args.cov.text && args.cov.html && args.cov.open);
    assert!(args.cov.summary_only && args.cov.disable_default_ignore_filename_regex);
    assert!(args.cov.hide_instantiations && args.cov.no_cfg_coverage);
    assert!(args.cov.no_cfg_coverage_nightly && args.cov.no_report);
    assert!(args.cov.show_missing_lines && args.cov.include_build_script);
    assert!(args.build.release && args.build.coverage_target_only);
    assert!(args.build.remap_path_prefix && args.build.include_ffi);
    assert!(args.cargo_args.is_empty());
}

#[test]
fn one_switch_leaves_the_others_off() {
    let args = done(&["--lcov"]);
    assert!(args.cov.lcov);
    assert!(!args.cov.json && !args.cov.text && !args.cov.html && !args.cov.open);
    assert!(!args.doctests && !args.lib && !args.workspace && !args.build.release);
}

#[test]
fn all_is_another_name_of_workspace() {
    assert!(done(&["--all"]).workspace);
    assert_eq!(
        failed(&["--workspace", "--all"]),
        CliError::DuplicateArgument { flag: "--all".to_string() }
    );
    assert_eq!(
        failed(&["--all", "--workspace"]),
        CliError::DuplicateArgument { flag: "--workspace".to_string() }
    );
}

#[test]
fn duplicate_names_the_spelling_that_was_given() {
    assert_eq!(
        failed(&["--release", "-r"]),
        CliError::DuplicateArgument { flag: "-r".to_string() }
    );
    assert_eq!(
        failed(&["-r", "--release"]),
        CliError::DuplicateArgument { flag: "--release".to_string() }
    );
    assert_eq!(failed(&["-rr"]), CliError::DuplicateArgument { flag: "-r".to_string() });
}

#[test]
fn option_with_one_value_given_twice() {
    assert_eq!(
        failed(&["--profile", "a", "--profile", "b"]),
        CliError::DuplicateArgument { flag: "--profile".to_string() }
    );
    assert_eq!(
        failed(&["-j", "1", "--jobs", "2"]),
        CliError::DuplicateArgument { flag: "--jobs".to_string() }
    );
    assert_eq!(
        failed(&["--output-path=a", "--output-path"]),
        CliError::DuplicateArgument { flag: "--output-path".to_string() }
    );
    assert_eq!(
        failed(&["--color", "auto", "--color", "blue"]),
        CliError::DuplicateArgument { flag: "--color".to_string() }
    );
}

#[test]
fn switch_given_again_far_behind() {
    assert_eq!(
        failed(&["--json", "--bin", "a", "test", "--frozen", "x", "--json"]),
        CliError::DuplicateArgument { flag: "--json".to_string() }
    );
}

#[test]
fn every_keyword_selects_its_subcommand() {
    assert_eq!(done(&["test"]).subcommand, Subcommand::Test);
    assert_eq!(done(&["t"]).subcommand, Subcommand::Test);
    assert_eq!(done(&["run"]).subcommand, Subcommand::Run);
    assert_eq!(done(&["r"]).subcommand, Subcommand::Run);
    assert_eq!(done(&["show-env"]).subcommand, Subcommand::ShowEnv);
    assert_eq!(done(&["clean"]).subcommand, Subcommand::Clean);
    assert_eq!(done(&["nextest"]).subcommand, Subcommand::Nextest);
    assert_eq!(done(&["demangle"]).subcommand, Subcommand::Demangle);
    assert!(done(&["run"]).cargo_args.is_empty());
}

#[test]
fn keyword_behind_options() {
    let args = done(&["--release", "--bin", "run", "clean"]);
    assert_eq!(args.subcommand, Subcommand::Clean);
    assert_eq!(args.bin, list(&["run"]));
    assert!(args.cargo_args.is_empty());
}

#[test]
fn second_keyword_is_forwarded() {
    let args = done(&["run", "test", "clean"]);
    assert_eq!(args.subcommand, Subcommand::Run);
    assert_eq!(args.cargo_args, list(&["test", "clean"]));
}

#[test]
fn keyword_behind_another_bare_value_is_forwarded() {
    let args = done(&["mycrate", "run"]);
    assert_eq!(args.subcommand, Subcommand::Test);
    assert_eq!(args.cargo_args, list(&["mycrate", "run"]));
}

#[test]
fn lone_dash_and_empty_argument_are_bare_values() {
    let args = done(&["-", ""]);
    assert_eq!(args.subcommand, Subcommand::Test);
    assert_eq!(args.cargo_args, list(&["-", ""]));
}

#[test]
fn keywords_are_case_sensitive() {
    let args = done(&["Run"]);
    assert_eq!(args.subcommand, Subcommand::Test);
    assert_eq!(args.cargo_args, list(&["Run"]));
}

#[test]
fn forwarded_arguments_keep_their_order() {
    let args = done(&["--frozen", "nextest", "--no-capture", "name", "-Zx", "--jobs", "2", "last"]);
    assert_eq!(args.subcommand, Subcommand::Nextest);
    assert_eq!(args.cargo_args, list(&["--frozen", "--no-capture", "name", "-Zx", "last"]));
    assert_eq!(args.build.jobs, Some(2));
}

#[test]
fn demangle_alone_succeeds() {
    let args = done(&["demangle"]);
    assert_eq!(args.subcommand, Subcommand::Demangle);
    assert!(args.cargo_args.is_empty());
}

#[test]
fn demangle_behind_options_succeeds() {
    let args = done(&["--release", "demangle"]);
    assert_eq!(args.subcommand, Subcommand::Demangle);
    assert!(args.build.release);
}

#[test]
fn demangle_rejects_whatever_follows() {
    assert_eq!(
        failed(&["demangle", "--release"]),
        CliError::UnexpectedTrailingArgument { token: Token::Long("release".to_string()) }
    );
    assert_eq!(
        failed(&["demangle", "-v"]),
        CliError::UnexpectedTrailingArgument { token: Token::Short('v') }
    );
    assert_eq!(
        failed(&["demangle", "demangle"]),
        CliError::UnexpectedTrailingArgument { token: Token::Value("demangle".to_string()) }
    );
    assert_eq!(
        failed(&["demangle", "--name=value"]),
        CliError::UnexpectedTrailingArgument { token: Token::Long("name".to_string()) }
    );
}

#[test]
fn demangle_with_trailing_arguments_behind_the_separator() {
    let args = match Args::parse_text(
        ["cargo", "llvm-cov", "demangle", "--", "x"].iter().map(|s| s.to_string()).collect(),
    ) {
        Ok(Outcome::Run(args)) => args,
        other => panic!("expected a full run, got {:?}", other),
    };
    assert_eq!(args.subcommand, Subcommand::Demangle);
    assert_eq!(args.rest, list(&["x"]));
}

#[test]
fn demangle_as_a_later_bare_value_is_forwarded() {
    let args = done(&["test", "demangle", "more"]);
    assert_eq!(args.subcommand, Subcommand::Test);
    assert_eq!(args.cargo_args, list(&["demangle", "more"]));
}

#[test]
fn help_before_a_subcommand_ends_the_parse() {
    assert!(matches!(parse_line(&["--help"]), Ok(Outcome::Help { long: true })));
    assert!(matches!(parse_line(&["-h"]), Ok(Outcome::Help { long: false })));
    assert!(matches!(parse_line(&["--release", "--help", "--release"]), Ok(Outcome::Help { long: true })));
    assert!(matches!(parse_line(&["mycrate", "-h"]), Ok(Outcome::Help { long: false })));
}

#[test]
fn help_behind_a_subcommand_is_forwarded() {
    assert_eq!(done(&["test", "--help"]).cargo_args, list(&["--help"]));
    assert_eq!(done(&["run", "-h"]).cargo_args, list(&["-h"]));
    assert_eq!(done(&["run", "--help=all"]).cargo_args, list(&["--help=all"]));
}

#[test]
fn version_before_a_subcommand_ends_the_parse() {
    assert!(matches!(parse_line(&["--version"]), Ok(Outcome::Version)));
    assert!(matches!(parse_line(&["-V"]), Ok(Outcome::Version)));
    assert!(matches!(parse_line(&["-vV"]), Ok(Outcome::Version)));
}

#[test]
fn version_behind_a_subcommand_is_an_error() {
    assert_eq!(failed(&["test", "--version"]), CliError::UnexpectedArgument);
    assert_eq!(failed(&["clean", "-V"]), CliError::UnexpectedArgument);
}

#[test]
fn earlier_error_wins_over_help() {
    assert_eq!(
        failed(&["--json", "--json", "--help"]),
        CliError::DuplicateArgument { flag: "--json".to_string() }
    );
}

#[test]
fn exclude_with_workspace_succeeds() {
    let args = done(&["--exclude", "a", "--workspace", "--exclude", "b"]);
    assert!(args.workspace);
    assert_eq!(args.exclude, list(&["a", "b"]));
    let args = done(&["--all", "--exclude=a"]);
    assert_eq!(args.exclude, list(&["a"]));
}

#[test]
fn exclude_from_test_needs_nothing() {
    let args = done(&["--exclude-from-test", "a"]);
    assert_eq!(args.exclude_from_test, list(&["a"]));
}

#[test]
fn rule_is_checked_at_the_end() {
    assert_eq!(
        failed(&["--exclude", "a", "--release", "--release"]),
        CliError::DuplicateArgument { flag: "--release".to_string() }
    );
    assert_eq!(
        failed(&["--exclude", "a", "nextest"]),
        CliError::RequiresFlag {
            flag: "--exclude".to_string(),
            requires: list(&["--workspace"]),
        }
    );
}

#[test]
fn verbosity_is_counted() {
    let args = done(&["-v"]);
    assert_eq!(args.build.verbose, 1);
    assert!(args.cargo_args.is_empty());
    let args = done(&["--verbose", "-v"]);
    assert_eq!(args.build.verbose, 2);
    assert_eq!(args.cargo_args, list(&["-v"]));
    let args = done(&["-vvvv"]);
    assert_eq!(args.build.verbose, 4);
    assert_eq!(args.cargo_args, list(&["-vvv"]));
}

#[test]
fn verbosity_is_handed_on_last() {
    let args = done(&["-v", "--frozen", "-v", "name"]);
    assert_eq!(args.cargo_args, list(&["--frozen", "name", "-v"]));
}

#[test]
fn verbosity_is_capped_in_the_build_options() {
    let cluster = format!("-{}", "v".repeat(300));
    let args = done(&[cluster.as_str()]);
    assert_eq!(args.build.verbose, 255);
    assert_eq!(args.cargo_args, vec![format!("-{}", "v".repeat(299))]);
}

#[test]
fn options_in_other_scripts() {
    let args = done(&["--größe=3", "-éü", "naïve"]);
    assert_eq!(args.cargo_args, list(&["--größe=3", "-éü", "naïve"]));
}

#[test]
fn long_option_without_a_name() {
    let args = done(&["--=x"]);
    assert_eq!(args.cargo_args, list(&["--=x"]));
}

#[test]
fn value_with_an_equals_sign_inside() {
    let args = done(&["--profile=a=b"]);
    assert_eq!(args.build.profile.as_deref(), Some("a=b"));
}
