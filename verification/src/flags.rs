//! The options that the tool knows: which names they go by, and how often
//! each may be given.
use crate::lexer::{Token, TokenView};
use vstd::prelude::*;

verus! {

/// An option without a value that may be given once.
#[derive(Debug, Clone, Copy, PartialEq, Eq, Structural)]
pub enum Switch {
    /// `--doctests`. Include the doc tests.
    Doctests,
    /// `--no-run`. Report without running the tests.
    NoRun,
    /// `--no-fail-fast`. Run all tests, whatever fails.
    NoFailFast,
    /// `--ignore-run-fail`. Run all tests, whatever fails, and report.
    IgnoreRunFail,
    /// `--lib`. Test only the library.
    Lib,
    /// `--bins`. Test all binaries.
    Bins,
    /// `--examples`. Test all examples.
    Examples,
    /// `--tests`. Test all test targets.
    Tests,
    /// `--benches`. Test all benches.
    Benches,
    /// `--all-targets`. Test all targets.
    AllTargets,
    /// `--doc`. Test only the documentation.
    Doc,
    /// `--workspace`. Test all packages of the workspace.
    Workspace,
    /// `--json`. Export the coverage data as JSON.
    Json,
    /// `--lcov`. Export the coverage data in the lcov format.
    Lcov,
    /// `--text`. Write the report as text.
    Text,
    /// `--html`. Write the report as HTML.
    Html,
    /// `--open`. Write the report as HTML and open it.
    Open,
    /// `--summary-only`. Export only the summary of each file.
    SummaryOnly,
    /// `--disable-default-ignore-filename-regex`. Do not skip the files that
    /// are skipped by default.
    DisableDefaultIgnoreFilenameRegex,
    /// `--hide-instantiations`. Leave instantiations out of the report.
    HideInstantiations,
    /// `--no-cfg-coverage`. Do not set `cfg(coverage)`.
    NoCfgCoverage,
    /// `--no-cfg-coverage-nightly`. Do not set `cfg(coverage_nightly)`.
    NoCfgCoverageNightly,
    /// `--no-report`. Run the tests without writing a report.
    NoReport,
    /// `--show-missing-lines`. List the lines that are not covered.
    ShowMissingLines,
    /// `--include-build-script`. Include the build script in the report.
    IncludeBuildScript,
    /// `--release`. Build in release mode.
    Release,
    /// `--coverage-target-only`. Report coverage only for the target triple.
    CoverageTargetOnly,
    /// `--remap-path-prefix`. Remap the path prefix of the workspace root.
    RemapPathPrefix,
    /// `--include-ffi`. Include the coverage of linked C and C++ code.
    IncludeFfi,
}

/// An option with one value that may be given once.
#[derive(Debug, Clone, Copy, PartialEq, Eq, Structural)]
pub enum Single {
    /// `--color`. When to color the output.
    Color,
    /// `--manifest-path`. The path of the manifest.
    ManifestPath,
    /// `--output-path`. The file to write the coverage data into.
    OutputPath,
    /// `--output-dir`. The directory to write the report into.
    OutputDir,
    /// `--failure-mode`. When a failure to merge profiles is fatal.
    FailureMode,
    /// `--ignore-filename-regex`. Which source files to skip.
    IgnoreFilenameRegex,
    /// `--fail-under-lines`. The least line coverage that passes.
    FailUnderLines,
    /// `--fail-uncovered-lines`. The most uncovered lines that pass.
    FailUncoveredLines,
    /// `--fail-uncovered-regions`. The most uncovered regions that pass.
    FailUncoveredRegions,
    /// `--fail-uncovered-functions`. The most uncovered functions that pass.
    FailUncoveredFunctions,
    /// `--jobs`. The number of parallel jobs.
    Jobs,
    /// `--profile`. The profile to build with.
    Profile,
    /// `--target`. The target triple to build for.
    Target,
}

/// An option with one value that may be given any number of times.
#[derive(Debug, Clone, Copy, PartialEq, Eq, Structural)]
pub enum Multi {
    /// `--bin`. Test only this binary.
    Bin,
    /// `--example`. Test only this example.
    Example,
    /// `--test`. Test only this test target.
    Test,
    /// `--bench`. Test only this bench.
    Bench,
    /// `--package`. Test this package.
    Package,
    /// `--exclude`. Leave this package out of the tests and of the report.
    Exclude,
    /// `--exclude-from-test`. Leave this package out of the tests.
    ExcludeFromTest,
    /// `--exclude-from-report`. Leave this package out of the report.
    ExcludeFromReport,
}

/// An option of the tool itself.
#[derive(Debug, Clone, Copy, PartialEq, Eq, Structural)]
pub enum Flag {
    /// May be given once, takes no value.
    Switch(Switch),
    /// May be given once, takes a value.
    Single(Single),
    /// May be repeated, takes a value each time.
    Multi(Multi),
    /// `--verbose`: may be repeated, and every occurrence counts.
    Verbose,
    /// `--help`.
    Help,
    /// `--version`.
    Version,
}

/// The option that a long name stands for. `all` is a second name of
/// `workspace`.
pub open spec fn long_flag(name: Seq<char>) -> Option<Flag> {
    if name == "color"@ {
        Some(Flag::Single(Single::Color))
    } else if name == "manifest-path"@ {
        Some(Flag::Single(Single::ManifestPath))
    } else if name == "doctests"@ {
        Some(Flag::Switch(Switch::Doctests))
    } else if name == "no-run"@ {
        Some(Flag::Switch(Switch::NoRun))
    } else if name == "no-fail-fast"@ {
        Some(Flag::Switch(Switch::NoFailFast))
    } else if name == "ignore-run-fail"@ {
        Some(Flag::Switch(Switch::IgnoreRunFail))
    } else if name == "lib"@ {
        Some(Flag::Switch(Switch::Lib))
    } else if name == "bin"@ {
        Some(Flag::Multi(Multi::Bin))
    } else if name == "bins"@ {
        Some(Flag::Switch(Switch::Bins))
    } else if name == "example"@ {
        Some(Flag::Multi(Multi::Example))
    } else if name == "examples"@ {
        Some(Flag::Switch(Switch::Examples))
    } else if name == "test"@ {
        Some(Flag::Multi(Multi::Test))
    } else if name == "tests"@ {
        Some(Flag::Switch(Switch::Tests))
    } else if name == "bench"@ {
        Some(Flag::Multi(Multi::Bench))
    } else if name == "benches"@ {
        Some(Flag::Switch(Switch::Benches))
    } else if name == "all-targets"@ {
        Some(Flag::Switch(Switch::AllTargets))
    } else if name == "doc"@ {
        Some(Flag::Switch(Switch::Doc))
    } else if name == "package"@ {
        Some(Flag::Multi(Multi::Package))
    } else if name == "workspace"@ {
        Some(Flag::Switch(Switch::Workspace))
    } else if name == "all"@ {
        Some(Flag::Switch(Switch::Workspace))
    } else if name == "exclude"@ {
        Some(Flag::Multi(Multi::Exclude))
    } else if name == "exclude-from-test"@ {
        Some(Flag::Multi(Multi::ExcludeFromTest))
    } else if name == "exclude-from-report"@ {
        Some(Flag::Multi(Multi::ExcludeFromReport))
    } else if name == "json"@ {
        Some(Flag::Switch(Switch::Json))
    } else if name == "lcov"@ {
        Some(Flag::Switch(Switch::Lcov))
    } else if name == "text"@ {
        Some(Flag::Switch(Switch::Text))
    } else if name == "html"@ {
        Some(Flag::Switch(Switch::Html))
    } else if name == "open"@ {
        Some(Flag::Switch(Switch::Open))
    } else if name == "summary-only"@ {
        Some(Flag::Switch(Switch::SummaryOnly))
    } else if name == "output-path"@ {
        Some(Flag::Single(Single::OutputPath))
    } else if name == "output-dir"@ {
        Some(Flag::Single(Single::OutputDir))
    } else if name == "failure-mode"@ {
        Some(Flag::Single(Single::FailureMode))
    } else if name == "ignore-filename-regex"@ {
        Some(Flag::Single(Single::IgnoreFilenameRegex))
    } else if name == "disable-default-ignore-filename-regex"@ {
        Some(Flag::Switch(Switch::DisableDefaultIgnoreFilenameRegex))
    } else if name == "hide-instantiations"@ {
        Some(Flag::Switch(Switch::HideInstantiations))
    } else if name == "no-cfg-coverage"@ {
        Some(Flag::Switch(Switch::NoCfgCoverage))
    } else if name == "no-cfg-coverage-nightly"@ {
        Some(Flag::Switch(Switch::NoCfgCoverageNightly))
    } else if name == "no-report"@ {
        Some(Flag::Switch(Switch::NoReport))
    } else if name == "fail-under-lines"@ {
        Some(Flag::Single(Single::FailUnderLines))
    } else if name == "fail-uncovered-lines"@ {
        Some(Flag::Single(Single::FailUncoveredLines))
    } else if name == "fail-uncovered-regions"@ {
        Some(Flag::Single(Single::FailUncoveredRegions))
    } else if name == "fail-uncovered-functions"@ {
        Some(Flag::Single(Single::FailUncoveredFunctions))
    } else if name == "show-missing-lines"@ {
        Some(Flag::Switch(Switch::ShowMissingLines))
    } else if name == "include-build-script"@ {
        Some(Flag::Switch(Switch::IncludeBuildScript))
    } else if name == "jobs"@ {
        Some(Flag::Single(Single::Jobs))
    } else if name == "release"@ {
        Some(Flag::Switch(Switch::Release))
    } else if name == "profile"@ {
        Some(Flag::Single(Single::Profile))
    } else if name == "target"@ {
        Some(Flag::Single(Single::Target))
    } else if name == "coverage-target-only"@ {
        Some(Flag::Switch(Switch::CoverageTargetOnly))
    } else if name == "remap-path-prefix"@ {
        Some(Flag::Switch(Switch::RemapPathPrefix))
    } else if name == "include-ffi"@ {
        Some(Flag::Switch(Switch::IncludeFfi))
    } else if name == "verbose"@ {
        Some(Flag::Verbose)
    } else if name == "help"@ {
        Some(Flag::Help)
    } else if name == "version"@ {
        Some(Flag::Version)
    } else {
        None
    }
}

/// The option that a short name stands for.
pub open spec fn short_flag(c: char) -> Option<Flag> {
    if c == 'p' {
        Some(Flag::Multi(Multi::Package))
    } else if c == 'j' {
        Some(Flag::Single(Single::Jobs))
    } else if c == 'r' {
        Some(Flag::Switch(Switch::Release))
    } else if c == 'v' {
        Some(Flag::Verbose)
    } else if c == 'h' {
        Some(Flag::Help)
    } else if c == 'V' {
        Some(Flag::Version)
    } else {
        None
    }
}

/// The option of the tool that a token names, if it names one.
pub open spec fn known_flag(token: TokenView) -> Option<Flag> {
    match token {
        TokenView::Long(name) => long_flag(name),
        TokenView::Short(c) => short_flag(c),
        TokenView::Value(_) => None,
    }
}

impl Flag {
    /// The option that a long name stands for.
    pub fn of_long(name: &str) -> (r: Option<Flag>)
        ensures
            r == long_flag(name@),
    {
        if name.eq("color") {
            Some(Flag::Single(Single::Color))
        } else if name.eq("manifest-path") {
            Some(Flag::Single(Single::ManifestPath))
        } else if name.eq("doctests") {
            Some(Flag::Switch(Switch::Doctests))
        } else if name.eq("no-run") {
            Some(Flag::Switch(Switch::NoRun))
        } else if name.eq("no-fail-fast") {
            Some(Flag::Switch(Switch::NoFailFast))
        } else if name.eq("ignore-run-fail") {
            Some(Flag::Switch(Switch::IgnoreRunFail))
        } else if name.eq("lib") {
            Some(Flag::Switch(Switch::Lib))
        } else if name.eq("bin") {
            Some(Flag::Multi(Multi::Bin))
        } else if name.eq("bins") {
            Some(Flag::Switch(Switch::Bins))
        } else if name.eq("example") {
            Some(Flag::Multi(Multi::Example))
        } else if name.eq("examples") {
            Some(Flag::Switch(Switch::Examples))
        } else if name.eq("test") {
            Some(Flag::Multi(Multi::Test))
        } else if name.eq("tests") {
            Some(Flag::Switch(Switch::Tests))
        } else if name.eq("bench") {
            Some(Flag::Multi(Multi::Bench))
        } else if name.eq("benches") {
            Some(Flag::Switch(Switch::Benches))
        } else if name.eq("all-targets") {
            Some(Flag::Switch(Switch::AllTargets))
        } else if name.eq("doc") {
            Some(Flag::Switch(Switch::Doc))
        } else if name.eq("package") {
            Some(Flag::Multi(Multi::Package))
        } else if name.eq("workspace") {
            Some(Flag::Switch(Switch::Workspace))
        } else if name.eq("all") {
            Some(Flag::Switch(Switch::Workspace))
        } else if name.eq("exclude") {
            Some(Flag::Multi(Multi::Exclude))
        } else if name.eq("exclude-from-test") {
            Some(Flag::Multi(Multi::ExcludeFromTest))
        } else if name.eq("exclude-from-report") {
            Some(Flag::Multi(Multi::ExcludeFromReport))
        } else if name.eq("json") {
            Some(Flag::Switch(Switch::Json))
        } else if name.eq("lcov") {
            Some(Flag::Switch(Switch::Lcov))
        } else if name.eq("text") {
            Some(Flag::Switch(Switch::Text))
        } else if name.eq("html") {
            Some(Flag::Switch(Switch::Html))
        } else if name.eq("open") {
            Some(Flag::Switch(Switch::Open))
        } else if name.eq("summary-only") {
            Some(Flag::Switch(Switch::SummaryOnly))
        } else if name.eq("output-path") {
            Some(Flag::Single(Single::OutputPath))
        } else if name.eq("output-dir") {
            Some(Flag::Single(Single::OutputDir))
        } else if name.eq("failure-mode") {
            Some(Flag::Single(Single::FailureMode))
        } else if name.eq("ignore-filename-regex") {
            Some(Flag::Single(Single::IgnoreFilenameRegex))
        } else if name.eq("disable-default-ignore-filename-regex") {
            Some(Flag::Switch(Switch::DisableDefaultIgnoreFilenameRegex))
        } else if name.eq("hide-instantiations") {
            Some(Flag::Switch(Switch::HideInstantiations))
        } else if name.eq("no-cfg-coverage") {
            Some(Flag::Switch(Switch::NoCfgCoverage))
        } else if name.eq("no-cfg-coverage-nightly") {
            Some(Flag::Switch(Switch::NoCfgCoverageNightly))
        } else if name.eq("no-report") {
            Some(Flag::Switch(Switch::NoReport))
        } else if name.eq("fail-under-lines") {
            Some(Flag::Single(Single::FailUnderLines))
        } else if name.eq("fail-uncovered-lines") {
            Some(Flag::Single(Single::FailUncoveredLines))
        } else if name.eq("fail-uncovered-regions") {
            Some(Flag::Single(Single::FailUncoveredRegions))
        } else if name.eq("fail-uncovered-functions") {
            Some(Flag::Single(Single::FailUncoveredFunctions))
        } else if name.eq("show-missing-lines") {
            Some(Flag::Switch(Switch::ShowMissingLines))
        } else if name.eq("include-build-script") {
            Some(Flag::Switch(Switch::IncludeBuildScript))
        } else if name.eq("jobs") {
            Some(Flag::Single(Single::Jobs))
        } else if name.eq("release") {
            Some(Flag::Switch(Switch::Release))
        } else if name.eq("profile") {
            Some(Flag::Single(Single::Profile))
        } else if name.eq("target") {
            Some(Flag::Single(Single::Target))
        } else if name.eq("coverage-target-only") {
            Some(Flag::Switch(Switch::CoverageTargetOnly))
        } else if name.eq("remap-path-prefix") {
            Some(Flag::Switch(Switch::RemapPathPrefix))
        } else if name.eq("include-ffi") {
            Some(Flag::Switch(Switch::IncludeFfi))
        } else if name.eq("verbose") {
            Some(Flag::Verbose)
        } else if name.eq("help") {
            Some(Flag::Help)
        } else if name.eq("version") {
            Some(Flag::Version)
        } else {
            None
        }
    }

    /// The option that a short name stands for.
    pub fn of_short(c: char) -> (r: Option<Flag>)
        ensures
            r == short_flag(c),
    {
        if c == 'p' {
            Some(Flag::Multi(Multi::Package))
        } else if c == 'j' {
            Some(Flag::Single(Single::Jobs))
        } else if c == 'r' {
            Some(Flag::Switch(Switch::Release))
        } else if c == 'v' {
            Some(Flag::Verbose)
        } else if c == 'h' {
            Some(Flag::Help)
        } else if c == 'V' {
            Some(Flag::Version)
        } else {
            None
        }
    }

    /// The option of the tool that a token names, if it names one.
    pub fn of_token(token: &Token) -> (r: Option<Flag>)
        ensures
            r == known_flag(token@),
    {
        match token {
            Token::Long(name) => Flag::of_long(name.as_str()),
            Token::Short(c) => Flag::of_short(*c),
            Token::Value(_) => None,
        }
    }
}

} // verus!
