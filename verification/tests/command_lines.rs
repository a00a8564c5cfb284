use llvm_cov_cli::args::{Args, Outcome};
use llvm_cov_cli::error::CliError;
use llvm_cov_cli::lexer::Token;
use llvm_cov_cli::options::Subcommand;

fn parse(args: &[&str]) -> Result<Outcome, CliError> {
    Args::parse_text(args.iter().map(|s| s.to_string()).collect())
}

fn fail(args: &[&str]) -> CliError {
    match parse(args) {
        Err(e) => e,
        other => panic!("expected a failure, got {:?}", other),
    }
}

fn run(args: &[&str]) -> Args {
    match parse(args) {
        Ok(Outcome::Run(args)) => args,
        other => panic!("expected a full run, got {:?}", other),
    }
}

fn strings(items: &[&str]) -> Vec<String> {
    items.iter().map(|s| s.to_string()).collect()
}

#[test]
fn json_with_output_path() {
    let args = run(&["cargo", "llvm-cov", "--json", "--output-path", "out.json"]);
    assert_eq!(args.subcommand, Subcommand::Test);
    assert!(args.cov.json);
    assert_eq!(args.cov.output_path.as_ref().map(|p| p.as_str()), Some("out.json"));
    assert!(args.cargo_args.is_empty());
    assert!(args.rest.is_empty());
    assert!(!args.cov.lcov);
    assert!(!args.build.release);
}

#[test]
fn run_with_trailing_separator() {
    let args = run(&["cargo", "llvm-cov", "run", "--release", "--", "--", "foo"]);
    assert_eq!(args.subcommand, Subcommand::Run);
    assert!(args.build.release);
    assert_eq!(args.rest, strings(&["--", "foo"]));
    assert!(args.cargo_args.is_empty());
}

#[test]
fn exclude_needs_workspace() {
    assert_eq!(
        fail(&["cargo", "llvm-cov", "--exclude", "pkgA"]),
        CliError::RequiresFlag {
            flag: "--exclude".to_string(),
            requires: strings(&["--workspace"]),
        }
    );
}

#[test]
fn release_twice_is_a_duplicate() {
    assert_eq!(
        fail(&["cargo", "llvm-cov", "--release", "--release"]),
        CliError::DuplicateArgument { flag: "--release".to_string() }
    );
}

#[test]
fn demangle_takes_nothing() {
    assert_eq!(
        fail(&["cargo", "llvm-cov", "demangle", "extra"]),
        CliError::UnexpectedTrailingArgument { token: Token::Value("extra".to_string()) }
    );
}

#[test]
fn wrong_subcommand_literal() {
    assert_eq!(
        fail(&["cargo", "notllvm-cov"]),
        CliError::UnexpectedSubcommand { found: "notllvm-cov".to_string() }
    );
}

#[test]
fn three_short_verbose_flags() {
    let args = run(&["cargo", "llvm-cov", "-v", "-v", "-v"]);
    assert_eq!(args.build.verbose, 3);
    assert_eq!(args.cargo_args, strings(&["-vv"]));
}
