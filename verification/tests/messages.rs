use llvm_cov_cli::error::{conflicts, multi_arg, requires_flag, CliError, Reason};
use llvm_cov_cli::lexer::{format_flag, Token};
use llvm_cov_cli::text::{FractionFault, NumberFault};

fn texts(items: &[&str]) -> Vec<String> {
    items.iter().map(|s| s.to_string()).collect()
}

#[test]
fn flags_are_written_with_their_dashes() {
    assert_eq!(format_flag(&Token::Long("release".to_string())), "--release");
    assert_eq!(format_flag(&Token::Long(String::new())), "--");
    assert_eq!(format_flag(&Token::Short('r')), "-r");
    assert_eq!(format_flag(&Token::Short('\u{e9}')), "-\u{e9}");
}

#[test]
fn multi_arg_names_the_flag() {
    assert_eq!(
        multi_arg(&Token::Long("json".to_string())),
        Err(CliError::DuplicateArgument { flag: "--json".to_string() })
    );
    assert_eq!(
        multi_arg(&Token::Short('j')),
        Err(CliError::DuplicateArgument { flag: "-j".to_string() })
    );
}

#[test]
fn requires_flag_keeps_the_alternatives() {
    assert_eq!(
        requires_flag("--exclude", &["--workspace"]),
        Err(CliError::RequiresFlag {
            flag: "--exclude".to_string(),
            requires: texts(&["--workspace"]),
        })
    );
    assert_eq!(
        requires_flag("--a", &["--b", "--c", "--d"]),
        Err(CliError::RequiresFlag { flag: "--a".to_string(), requires: texts(&["--b", "--c", "--d"]) })
    );
}

#[test]
fn conflicts_keeps_both_flags() {
    assert_eq!(
        conflicts("--json", "--lcov"),
        Err(CliError::Conflict { first: "--json".to_string(), second: "--lcov".to_string() })
    );
}

#[test]
fn message_of_one_alternative() {
    let e = requires_flag("--exclude", &["--workspace"]).unwrap_err();
    assert_eq!(e.message(), "--exclude can only be used together with --workspace");
}

#[test]
fn message_of_two_alternatives() {
    let e = requires_flag("--summary-only", &["--json", "--lcov"]).unwrap_err();
    assert_eq!(
        e.message(),
        "--summary-only can only be used together with either --json or --lcov"
    );
}

#[test]
fn message_of_three_alternatives() {
    let e = requires_flag("--output-path", &["--json", "--lcov", "--text"]).unwrap_err();
    assert_eq!(
        e.message(),
        "--output-path can only be used together with --json, --lcov, or --text"
    );
}

#[test]
fn message_of_four_alternatives() {
    let e = requires_flag("-x", &["-a", "-b", "-c", "-d"]).unwrap_err();
    assert_eq!(e.message(), "-x can only be used together with -a, -b, -c, or -d");
}

#[test]
fn message_without_alternatives() {
    let e = CliError::RequiresFlag { flag: "-x".to_string(), requires: Vec::new() };
    assert_eq!(e.message(), "-x can only be used together with ");
}

#[test]
fn message_of_a_conflict() {
    let e = conflicts("--json", "--lcov").unwrap_err();
    assert_eq!(e.message(), "--json may not be used together with --lcov");
}

#[test]
fn message_of_a_duplicate() {
    let e = CliError::DuplicateArgument { flag: "--release".to_string() };
    assert_eq!(
        e.message(),
        "The argument '--release' was provided more than once, but cannot be used multiple times"
    );
}

#[test]
fn message_of_an_encoding_error() {
    assert_eq!(CliError::Encoding { index: 3 }.message(), "argument 3 is not valid Unicode");
    assert_eq!(CliError::Encoding { index: 120 }.message(), "argument 120 is not valid Unicode");
}

#[test]
fn messages_of_the_envelope() {
    assert_eq!(CliError::MissingSubcommand.message(), "expected subcommand 'llvm-cov'");
    assert_eq!(
        CliError::UnexpectedSubcommand { found: "notllvm-cov".to_string() }.message(),
        "expected subcommand 'llvm-cov', found argument 'notllvm-cov'"
    );
    assert_eq!(
        CliError::UnrecognizedSubcommand { found: "fly".to_string() }.message(),
        "unrecognized subcommand fly"
    );
}

#[test]
fn message_of_a_missing_value() {
    assert_eq!(
        CliError::MissingValue { flag: "--jobs".to_string() }.message(),
        "missing argument for option '--jobs'"
    );
}

#[test]
fn message_of_a_stray_value_quotes_it() {
    let e = CliError::UnexpectedValue { flag: "--release".to_string(), value: "y\"es".to_string() };
    assert_eq!(e.message(), "unexpected argument for option '--release': \"y\\\"es\"");
}

#[test]
fn messages_of_values_that_cannot_be_converted() {
    let e = CliError::InvalidValue {
        value: "many".to_string(),
        reason: Reason::Number(NumberFault::InvalidDigit),
    };
    assert_eq!(e.message(), "cannot parse argument \"many\": invalid digit found in string");
    let e = CliError::InvalidValue {
        value: String::new(),
        reason: Reason::Number(NumberFault::Empty),
    };
    assert_eq!(e.message(), "cannot parse argument \"\": cannot parse integer from empty string");
    let e = CliError::InvalidValue {
        value: "99999999999".to_string(),
        reason: Reason::Number(NumberFault::TooLarge),
    };
    assert_eq!(
        e.message(),
        "cannot parse argument \"99999999999\": number too large to fit in target type"
    );
    let e = CliError::InvalidValue {
        value: "most".to_string(),
        reason: Reason::Fraction(FractionFault::Invalid),
    };
    assert_eq!(e.message(), "cannot parse argument \"most\": invalid float literal");
    let e = CliError::InvalidValue {
        value: String::new(),
        reason: Reason::Fraction(FractionFault::Empty),
    };
    assert_eq!(e.message(), "cannot parse argument \"\": cannot parse float from empty string");
    let e = CliError::InvalidValue { value: "blue".to_string(), reason: Reason::Color };
    assert_eq!(
        e.message(),
        "cannot parse argument \"blue\": must be auto, always, or never, but found `blue`"
    );
}

#[test]
fn messages_of_trailing_arguments() {
    let e = CliError::UnexpectedTrailingArgument { token: Token::Value("extra".to_string()) };
    assert_eq!(e.message(), "unexpected argument \"extra\"");
    let e = CliError::UnexpectedTrailingArgument { token: Token::Long("release".to_string()) };
    assert_eq!(e.message(), "invalid option '--release'");
    let e = CliError::UnexpectedTrailingArgument { token: Token::Short('v') };
    assert_eq!(e.message(), "invalid option '-v'");
}

#[test]
fn message_of_a_misplaced_version() {
    assert_eq!(
        CliError::UnexpectedArgument.message(),
        "Found argument '--version' which wasn't expected, or isn't valid in this context"
    );
}

#[test]
fn message_with_takes_the_quoted_value_as_given() {
    let e = CliError::UnexpectedValue { flag: "-r".to_string(), value: "x".to_string() };
    assert_eq!(e.message_with("<x>"), "unexpected argument for option '-r': <x>");
    let e = CliError::MissingSubcommand;
    assert_eq!(e.message_with("ignored"), "expected subcommand 'llvm-cov'");
}
