use llvm_cov_cli::args::{Args, Outcome};
use llvm_cov_cli::draft::{Draft, Selection};
use llvm_cov_cli::error::{CliError, Reason};
use llvm_cov_cli::flags::{Flag, Multi, Single, Switch};
use llvm_cov_cli::lexer::Token;
use llvm_cov_cli::options::{BuildOptions, Coloring, LlvmCovOptions, ManifestOptions, Subcommand};
use llvm_cov_cli::text::{
    check_fraction, decimal_string, parse_decimal, push_decimal, push_repeated, FractionFault,
    NumberFault,
};

fn texts(items: &[&str]) -> Vec<String> {
    items.iter().map(|s| s.to_string()).collect()
}

fn parsed(given: &[&str]) -> Args {
    match Args::parse_text(given.iter().map(|s| s.to_string()).collect()) {
        Ok(Outcome::Run(args)) => args,
        other => panic!("expected a full run, got {:?}", other),
    }
}

#[test]
fn subcommand_keywords() {
    assert_eq!(Subcommand::from_str("test"), Ok(Subcommand::Test));
    assert_eq!(Subcommand::from_str("t"), Ok(Subcommand::Test));
    assert_eq!(Subcommand::from_str("run"), Ok(Subcommand::Run));
    assert_eq!(Subcommand::from_str("r"), Ok(Subcommand::Run));
    assert_eq!(Subcommand::from_str("show-env"), Ok(Subcommand::ShowEnv));
    assert_eq!(Subcommand::from_str("clean"), Ok(Subcommand::Clean));
    assert_eq!(Subcommand::from_str("nextest"), Ok(Subcommand::Nextest));
    assert_eq!(Subcommand::from_str("demangle"), Ok(Subcommand::Demangle));
}

#[test]
fn texts_that_are_no_keyword() {
    assert_eq!(
        Subcommand::from_str("tests"),
        Err(CliError::UnrecognizedSubcommand { found: "tests".to_string() })
    );
    assert_eq!(
        Subcommand::from_str(""),
        Err(CliError::UnrecognizedSubcommand { found: String::new() })
    );
    assert_eq!(
        Subcommand::from_str("show_env"),
        Err(CliError::UnrecognizedSubcommand { found: "show_env".to_string() })
    );
}

#[test]
fn coloring_names() {
    assert_eq!(Coloring::from_str("auto"), Some(Coloring::Auto));
    assert_eq!(Coloring::from_str("always"), Some(Coloring::Always));
    assert_eq!(Coloring::from_str("never"), Some(Coloring::Never));
    assert_eq!(Coloring::from_str("Always"), None);
    assert_eq!(Coloring::from_str(""), None);
    assert_eq!(Coloring::Auto.cargo_color(), "auto");
    assert_eq!(Coloring::Always.cargo_color(), "always");
    assert_eq!(Coloring::Never.cargo_color(), "never");
}

#[test]
fn show_is_text_or_html() {
    let mut cov = LlvmCovOptions::default();
    assert!(!cov.show());
    cov.json = true;
    cov.lcov = true;
    assert!(!cov.show());
    cov.text = true;
    assert!(cov.show());
    cov.text = false;
    cov.html = true;
    assert!(cov.show());
}

#[test]
fn build_options_forward_nothing_by_default() {
    let mut cmd = texts(&["test"]);
    BuildOptions::default().cargo_args(&mut cmd);
    assert_eq!(cmd, texts(&["test"]));
}

#[test]
fn build_options_forward_what_is_set() {
    let build = BuildOptions {
        jobs: Some(16),
        release: true,
        profile: Some("ci".to_string()),
        target: Some("wasm32-wasi".to_string()),
        coverage_target_only: true,
        verbose: 3,
        color: Some(Coloring::Never),
        remap_path_prefix: true,
        include_ffi: true,
    };
    let mut cmd = texts(&["test"]);
    build.cargo_args(&mut cmd);
    assert_eq!(
        cmd,
        texts(&[
            "test",
            "--jobs",
            "16",
            "--release",
            "--profile",
            "ci",
            "--target",
            "wasm32-wasi",
            "--color",
            "never",
        ])
    );
}

#[test]
fn build_options_forward_each_alone() {
    let mut cmd = Vec::new();
    BuildOptions { jobs: Some(0), ..BuildOptions::default() }.cargo_args(&mut cmd);
    assert_eq!(cmd, texts(&["--jobs", "0"]));
    let mut cmd = Vec::new();
    BuildOptions { jobs: Some(u32::MAX), ..BuildOptions::default() }.cargo_args(&mut cmd);
    assert_eq!(cmd, texts(&["--jobs", "4294967295"]));
    let mut cmd = Vec::new();
    BuildOptions { color: Some(Coloring::Always), ..BuildOptions::default() }.cargo_args(&mut cmd);
    assert_eq!(cmd, texts(&["--color", "always"]));
    let mut cmd = Vec::new();
    BuildOptions { release: true, ..BuildOptions::default() }.cargo_args(&mut cmd);
    assert_eq!(cmd, texts(&["--release"]));
}

#[test]
fn parsed_build_options_are_forwarded() {
    let mut args = parsed(&["cargo", "llvm-cov", "-j", "2", "-r", "--color", "auto"]);
    let build = args.build();
    let mut cmd = Vec::new();
    build.cargo_args(&mut cmd);
    assert_eq!(cmd, texts(&["--jobs", "2", "--release", "--color", "auto"]));
}

#[test]
fn taking_a_record_leaves_the_empty_one() {
    let mut args = parsed(&[
        "cargo",
        "llvm-cov",
        "--json",
        "--output-path",
        "o",
        "--release",
        "--manifest-path",
        "m",
        "-v",
        "x",
    ]);
    let cov = args.cov();
    assert!(cov.json);
    assert_eq!(cov.output_path.as_ref().map(|p| p.as_str()), Some("o"));
    assert!(!args.cov.json);
    assert!(args.cov.output_path.is_none());
    let again = args.cov();
    assert!(!again.json);
    let build = args.build();
    assert!(build.release);
    assert_eq!(build.verbose, 1);
    assert!(!args.build.release);
    assert_eq!(args.build.verbose, 0);
    let manifest = args.manifest();
    assert_eq!(manifest.manifest_path.as_ref().map(|p| p.as_str()), Some("m"));
    assert!(args.manifest.manifest_path.is_none());
    assert_eq!(args.cargo_args, texts(&["x"]));
    assert_eq!(args.subcommand, Subcommand::Test);
}

#[test]
fn empty_records() {
    let cov = LlvmCovOptions::default();
    assert!(!cov.json && !cov.lcov && !cov.text && !cov.html && !cov.open);
    assert!(cov.output_path.is_none() && cov.fail_under_lines.is_none());
    assert!(cov.fail_uncovered_lines.is_none());
    let build = BuildOptions::default();
    assert!(build.jobs.is_none() && !build.release && build.color.is_none());
    assert_eq!(build.verbose, 0);
    assert!(ManifestOptions::default().manifest_path.is_none());
}

#[test]
fn long_names_of_options() {
    assert_eq!(Flag::of_long("json"), Some(Flag::Switch(Switch::Json)));
    assert_eq!(Flag::of_long("workspace"), Some(Flag::Switch(Switch::Workspace)));
    assert_eq!(Flag::of_long("all"), Some(Flag::Switch(Switch::Workspace)));
    assert_eq!(Flag::of_long("bin"), Some(Flag::Multi(Multi::Bin)));
    assert_eq!(Flag::of_long("bins"), Some(Flag::Switch(Switch::Bins)));
    assert_eq!(Flag::of_long("no-cfg-coverage"), Some(Flag::Switch(Switch::NoCfgCoverage)));
    assert_eq!(
        Flag::of_long("no-cfg-coverage-nightly"),
        Some(Flag::Switch(Switch::NoCfgCoverageNightly))
    );
    assert_eq!(Flag::of_long("jobs"), Some(Flag::Single(Single::Jobs)));
    assert_eq!(Flag::of_long("fail-under-lines"), Some(Flag::Single(Single::FailUnderLines)));
    assert_eq!(Flag::of_long("verbose"), Some(Flag::Verbose));
    assert_eq!(Flag::of_long("help"), Some(Flag::Help));
    assert_eq!(Flag::of_long("version"), Some(Flag::Version));
    assert_eq!(Flag::of_long("quiet"), None);
    assert_eq!(Flag::of_long("Json"), None);
    assert_eq!(Flag::of_long(""), None);
    assert_eq!(Flag::of_long("r"), None);
}

#[test]
fn short_names_of_options() {
    assert_eq!(Flag::of_short('p'), Some(Flag::Multi(Multi::Package)));
    assert_eq!(Flag::of_short('j'), Some(Flag::Single(Single::Jobs)));
    assert_eq!(Flag::of_short('r'), Some(Flag::Switch(Switch::Release)));
    assert_eq!(Flag::of_short('v'), Some(Flag::Verbose));
    assert_eq!(Flag::of_short('h'), Some(Flag::Help));
    assert_eq!(Flag::of_short('V'), Some(Flag::Version));
    assert_eq!(Flag::of_short('q'), None);
    assert_eq!(Flag::of_short('H'), None);
}

#[test]
fn options_of_tokens() {
    assert_eq!(
        Flag::of_token(&Token::Long("release".to_string())),
        Some(Flag::Switch(Switch::Release))
    );
    assert_eq!(Flag::of_token(&Token::Short('r')), Some(Flag::Switch(Switch::Release)));
    assert_eq!(Flag::of_token(&Token::Value("release".to_string())), None);
}

#[test]
fn draft_gathers_and_finishes() {
    let mut draft = Draft::new();
    assert!(!draft.is_on(Switch::Json));
    draft.turn_on(Switch::Json);
    assert!(draft.is_on(Switch::Json));
    assert!(!draft.is_on(Switch::Lcov));
    assert!(!draft.is_set(Single::Jobs));
    assert_eq!(draft.set(Single::Jobs, "12".to_string()), Ok(()));
    assert!(draft.is_set(Single::Jobs));
    assert_eq!(
        draft.set(Single::Color, "red".to_string()),
        Err(CliError::InvalidValue { value: "red".to_string(), reason: Reason::Color })
    );
    assert!(!draft.is_set(Single::Color));
    draft.append(Multi::Package, "a".to_string());
    draft.append(Multi::Package, "b".to_string());
    draft.forward("--frozen".to_string());
    draft.select(Selection::Chosen(Subcommand::Clean));
    draft.raise_verbosity();
    draft.raise_verbosity();
    draft.raise_verbosity();
    assert_eq!(draft.validate(), Ok(()));
    let args = draft.finish(texts(&["tail"])).unwrap();
    assert!(args.cov.json);
    assert!(!args.cov.lcov);
    assert_eq!(args.build.jobs, Some(12));
    assert_eq!(args.package, texts(&["a", "b"]));
    assert_eq!(args.cargo_args, texts(&["--frozen", "-vv"]));
    assert_eq!(args.subcommand, Subcommand::Clean);
    assert_eq!(args.build.verbose, 3);
    assert_eq!(args.rest, texts(&["tail"]));
}

#[test]
fn draft_without_a_choice_is_a_test_run() {
    let mut draft = Draft::new();
    draft.select(Selection::Defaulted);
    assert_eq!(draft.finish(Vec::new()).unwrap().subcommand, Subcommand::Test);
    assert_eq!(Draft::new().finish(Vec::new()).unwrap().subcommand, Subcommand::Test);
}

#[test]
fn draft_rule_between_options() {
    let mut draft = Draft::new();
    draft.append(Multi::Exclude, "a".to_string());
    assert_eq!(
        draft.validate(),
        Err(CliError::RequiresFlag {
            flag: "--exclude".to_string(),
            requires: texts(&["--workspace"]),
        })
    );
    draft.turn_on(Switch::Workspace);
    assert_eq!(draft.validate(), Ok(()));
    let mut draft = Draft::new();
    draft.turn_on(Switch::Workspace);
    assert_eq!(draft.validate(), Ok(()));
}

#[test]
fn decimal_numbers_are_read() {
    assert_eq!(parse_decimal("0", 10), Ok(0));
    assert_eq!(parse_decimal("10", 10), Ok(10));
    assert_eq!(parse_decimal("11", 10), Err(NumberFault::TooLarge));
    assert_eq!(parse_decimal("+10", 10), Ok(10));
    assert_eq!(parse_decimal("0000000000000000000000010", 10), Ok(10));
    assert_eq!(parse_decimal("18446744073709551615", u64::MAX), Ok(u64::MAX));
    assert_eq!(parse_decimal("18446744073709551616", u64::MAX), Err(NumberFault::TooLarge));
    assert_eq!(parse_decimal("", 10), Err(NumberFault::Empty));
    assert_eq!(parse_decimal("+", 10), Err(NumberFault::InvalidDigit));
    assert_eq!(parse_decimal("-", 10), Err(NumberFault::InvalidDigit));
    assert_eq!(parse_decimal("++1", 10), Err(NumberFault::InvalidDigit));
    assert_eq!(parse_decimal("1+", 10), Err(NumberFault::InvalidDigit));
    assert_eq!(parse_decimal("1.0", 10), Err(NumberFault::InvalidDigit));
    assert_eq!(parse_decimal("\u{664}", 10), Err(NumberFault::InvalidDigit));
}

#[test]
fn first_fault_of_a_number_decides() {
    assert_eq!(parse_decimal("99x", 10), Err(NumberFault::TooLarge));
    assert_eq!(parse_decimal("9x9", 10), Err(NumberFault::InvalidDigit));
    assert_eq!(parse_decimal("1x", 0), Err(NumberFault::TooLarge));
    assert_eq!(parse_decimal("0x", 0), Err(NumberFault::InvalidDigit));
}

#[test]
fn decimal_numbers_are_written() {
    assert_eq!(decimal_string(0), "0");
    assert_eq!(decimal_string(7), "7");
    assert_eq!(decimal_string(10), "10");
    assert_eq!(decimal_string(1234567890), "1234567890");
    assert_eq!(decimal_string(u64::MAX), "18446744073709551615");
    let mut out = "n=".to_string();
    push_decimal(&mut out, 405);
    assert_eq!(out, "n=405");
}

#[test]
fn characters_are_repeated() {
    let mut out = "-".to_string();
    push_repeated(&mut out, 'v', 0);
    assert_eq!(out, "-");
    push_repeated(&mut out, 'v', 3);
    assert_eq!(out, "-vvv");
}

#[test]
fn fractions_follow_the_grammar_of_floats() {
    let texts = [
        "0", "1", "87.5", "100", "1.", ".5", "0.0", "00.00", "+1.5", "-1.5", "1e5", "1E5", "1e+5",
        "1e-5", "1.e5", ".5e5", "1.5e10", "1.5E-10", "inf", "INF", "Inf", "+inf", "-inf",
        "infinity", "Infinity", "INFINITY", "-Infinity", "nan", "NaN", "NAN", "+nan", "-nan",
        "123456789012345678901234567890", "0.000000000000000000000000000001", "1e999", "1e-999",
        "", "+", "-", ".", "+.", "e", "e5", ".e5", "1e", "1e+", "1e-", "1e5.", "1e5e5", "1..5",
        "1.5.5", "++1", "+-1", "--1", "1+", "1-", " 1", "1 ", "1,5", "1_000", "0x10", "1f", "1f64",
        "in", "infi", "infinit", "infinityy", "na", "nann", "i", "n", "1inf", "inf1", "+infinity1",
        "\u{661}", "1\u{e9}", "abc", "1.5abc", "e+5", "1ee5", "1e 5", "1.e", "..", "-.e1", "+.5",
        "-.5e-5", "5.e-5", "1e05", "1e+05", "0e0", ".0", "0.", "infinit y", "iNf", "nAn",
        "iNfInItY", "1E", "1E+", ".E5", "-", "+e5", "K", "k", "\u{212a}", "\u{131}nf",
    ];
    for text in texts.iter() {
        assert_eq!(
            check_fraction(text).is_ok(),
            text.parse::<f64>().is_ok(),
            "for the text {:?}",
            text
        );
    }
}

#[test]
fn faults_of_fractions() {
    assert_eq!(check_fraction(""), Err(FractionFault::Empty));
    assert_eq!(check_fraction("+"), Err(FractionFault::Invalid));
    assert_eq!(check_fraction("high"), Err(FractionFault::Invalid));
    assert_eq!(check_fraction("87.5"), Ok(()));
}
