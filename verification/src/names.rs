//! How the classifier reads the names that the tool knows.
use crate::envelope::{after_separator, before_separator, separator};
use crate::flags::{known_flag, long_flag, Flag, Multi, Single, Switch};
use crate::lexer::{lex_next, lex_value, LexState, Lexed, Pending, TokenView};
use crate::options::{keyword, Subcommand};
use vstd::prelude::*;

verus! {

/// Whether a name can stand behind two dashes and be read back as it is: it
/// is not empty and holds no `=`.
pub open spec fn plain(name: Seq<char>) -> bool {
    name.len() > 0 && !name.contains('=')
}

/// Every long name that the tool knows is plain.
pub proof fn lemma_known_names_are_plain(name: Seq<char>)
    requires
        long_flag(name) is Some,
    ensures
        plain(name),
{
    reveal_strlit("color");
    reveal_strlit("manifest-path");
    reveal_strlit("doctests");
    reveal_strlit("no-run");
    reveal_strlit("no-fail-fast");
    reveal_strlit("ignore-run-fail");
    reveal_strlit("lib");
    reveal_strlit("bin");
    reveal_strlit("bins");
    reveal_strlit("example");
    reveal_strlit("examples");
    reveal_strlit("test");
    reveal_strlit("tests");
    reveal_strlit("bench");
    reveal_strlit("benches");
    reveal_strlit("all-targets");
    reveal_strlit("doc");
    reveal_strlit("package");
    reveal_strlit("workspace");
    reveal_strlit("all");
    reveal_strlit("exclude");
    reveal_strlit("exclude-from-test");
    reveal_strlit("exclude-from-report");
    reveal_strlit("json");
    reveal_strlit("lcov");
    reveal_strlit("text");
    reveal_strlit("html");
    reveal_strlit("open");
    reveal_strlit("summary-only");
    reveal_strlit("output-path");
    reveal_strlit("output-dir");
    reveal_strlit("failure-mode");
    reveal_strlit("ignore-filename-regex");
    reveal_strlit("disable-default-ignore-filename-regex");
    reveal_strlit("hide-instantiations");
    reveal_strlit("no-cfg-coverage");
    reveal_strlit("no-cfg-coverage-nightly");
    reveal_strlit("no-report");
    reveal_strlit("fail-under-lines");
    reveal_strlit("fail-uncovered-lines");
    reveal_strlit("fail-uncovered-regions");
    reveal_strlit("fail-uncovered-functions");
    reveal_strlit("show-missing-lines");
    reveal_strlit("include-build-script");
    reveal_strlit("jobs");
    reveal_strlit("release");
    reveal_strlit("profile");
    reveal_strlit("target");
    reveal_strlit("coverage-target-only");
    reveal_strlit("remap-path-prefix");
    reveal_strlit("include-ffi");
    reveal_strlit("verbose");
    reveal_strlit("help");
    reveal_strlit("version");
}

/// Every keyword of a subcommand begins with a letter.
pub proof fn lemma_keywords_are_bare(text: Seq<char>)
    requires
        keyword(text) is Some,
    ensures
        text.len() > 0,
        text[0] != '-',
{
    reveal_strlit("test");
    reveal_strlit("t");
    reveal_strlit("run");
    reveal_strlit("r");
    reveal_strlit("show-env");
    reveal_strlit("clean");
    reveal_strlit("nextest");
    reveal_strlit("demangle");
}

/// The bare `--`, character by character.
pub proof fn lemma_separator()
    ensures
        separator() == seq!['-', '-'],
{
    reveal_strlit("--");
    assert(separator() =~= seq!['-', '-']);
}

/// Whether the parser stands between two arguments, with none read halfway,
/// and has not met a bare `--`.
pub open spec fn between_arguments(st: LexState) -> bool {
    &&& !st.finished
    &&& match st.pending {
        Pending::Nothing => true,
        Pending::Value { .. } => false,
        Pending::Shorts { left, .. } => left.len() == 0,
    }
}

/// An option of the tool, written as it is spelled, is read back as the same
/// token.
pub proof fn lemma_reads_option(st: LexState, token: TokenView)
    requires
        between_arguments(st),
        st.rest.len() > 0,
        st.rest[0] == token.spelling(),
        known_flag(token) is Some,
    ensures
        lex_next(st).0 == Lexed::Token(token),
        between_arguments(lex_next(st).1),
        lex_next(st).1.rest == st.rest.skip(1),
        token.spelling() != separator(),
{
    lemma_separator();
    let arg = st.rest[0];
    match token {
        TokenView::Long(name) => {
            lemma_known_names_are_plain(name);
            arg.index_of_first_ensures('=');
            if arg.contains('=') {
                let at = choose|at: int| 0 <= at < arg.len() && arg[at] == '=';
                assert(name[at - 2] == '=');
                assert(name.contains('='));
            }
            assert(arg.skip(2) =~= name);
        },
        TokenView::Short(c) => {
            assert(arg.skip(2) =~= Seq::<char>::empty());
        },
        TokenView::Value(_) => {},
    }
}

/// Between two arguments, the value of an option is the next argument,
/// whatever it looks like.
pub proof fn lemma_takes_value(st: LexState)
    requires
        between_arguments(st),
        st.rest.len() > 0,
    ensures
        lex_value(st) == (Some(st.rest[0]), st.advanced()),
        between_arguments(st.advanced()),
{
}

/// An argument that does not begin with a dash is read as a bare value.
pub proof fn lemma_reads_bare(st: LexState)
    requires
        between_arguments(st),
        st.rest.len() > 0,
        st.rest[0].len() == 0 || st.rest[0][0] != '-',
    ensures
        lex_next(st) == (Lexed::Token(TokenView::Value(st.rest[0])), st.advanced()),
        between_arguments(st.advanced()),
        st.rest[0] != separator(),
{
    lemma_separator();
}

/// Any argument but the bare `--` is read as one token or as the start of
/// one.
pub proof fn lemma_reads_something(st: LexState)
    requires
        between_arguments(st),
        st.rest.len() > 0,
        st.rest[0] != separator(),
    ensures
        lex_next(st).0 is Token,
{
    lemma_separator();
}

/// With nothing left, the parser is at its end.
pub proof fn lemma_reads_nothing(st: LexState)
    requires
        between_arguments(st),
        st.rest.len() == 0,
    ensures
        lex_next(st).0 is End,
        between_arguments(lex_next(st).1),
        lex_next(st).1.rest.len() == 0,
{
}

/// An argument that is not the bare `--` stands before it.
pub proof fn lemma_cut_behind_head(args: Seq<Seq<char>>)
    requires
        args.len() > 0,
        args[0] != separator(),
    ensures
        before_separator(args) == seq![args[0]] + before_separator(args.skip(1)),
        after_separator(args) == after_separator(args.skip(1)),
{
    let tail = args.skip(1);
    args.index_of_first_ensures(separator());
    tail.index_of_first_ensures(separator());
    if args.contains(separator()) {
        let at = args.index_of_first(separator())->0;
        assert(tail[at - 1] == separator());
        assert(tail.contains(separator()));
        let cut = tail.index_of_first(separator())->0;
        assert(cut == at - 1) by {
            if cut < at - 1 {
                assert(args[cut + 1] == separator());
            } else if at - 1 < cut {
                assert(tail[at - 1] == separator());
            }
        }
        assert(args.take(at) =~= seq![args[0]] + tail.take(cut));
        assert(args.skip(at + 1) =~= tail.skip(cut + 1));
    } else {
        if tail.contains(separator()) {
            let cut = choose|cut: int| 0 <= cut < tail.len() && tail[cut] == separator();
            assert(args[cut + 1] == separator());
        }
        assert(args =~= seq![args[0]] + tail);
    }
}

/// Where no argument is left, none stands before or behind the bare `--`.
pub proof fn lemma_cut_nothing(args: Seq<Seq<char>>)
    requires
        args.len() == 0,
    ensures
        before_separator(args) == Seq::<Seq<char>>::empty(),
        after_separator(args) == Seq::<Seq<char>>::empty(),
{
    args.index_of_first_ensures(separator());
    assert(args =~= Seq::<Seq<char>>::empty());
}

/// The long names of the options of the tool, each with the option that it
/// stands for.
pub proof fn lemma_long_names()
    ensures
        long_flag("color"@) == Some(Flag::Single(Single::Color)),
        long_flag("manifest-path"@) == Some(Flag::Single(Single::ManifestPath)),
        long_flag("doctests"@) == Some(Flag::Switch(Switch::Doctests)),
        long_flag("no-run"@) == Some(Flag::Switch(Switch::NoRun)),
        long_flag("no-fail-fast"@) == Some(Flag::Switch(Switch::NoFailFast)),
        long_flag("ignore-run-fail"@) == Some(Flag::Switch(Switch::IgnoreRunFail)),
        long_flag("lib"@) == Some(Flag::Switch(Switch::Lib)),
        long_flag("bin"@) == Some(Flag::Multi(Multi::Bin)),
        long_flag("bins"@) == Some(Flag::Switch(Switch::Bins)),
        long_flag("example"@) == Some(Flag::Multi(Multi::Example)),
        long_flag("examples"@) == Some(Flag::Switch(Switch::Examples)),
        long_flag("test"@) == Some(Flag::Multi(Multi::Test)),
        long_flag("tests"@) == Some(Flag::Switch(Switch::Tests)),
        long_flag("bench"@) == Some(Flag::Multi(Multi::Bench)),
        long_flag("benches"@) == Some(Flag::Switch(Switch::Benches)),
        long_flag("all-targets"@) == Some(Flag::Switch(Switch::AllTargets)),
        long_flag("doc"@) == Some(Flag::Switch(Switch::Doc)),
        long_flag("package"@) == Some(Flag::Multi(Multi::Package)),
        long_flag("workspace"@) == Some(Flag::Switch(Switch::Workspace)),
        long_flag("all"@) == Some(Flag::Switch(Switch::Workspace)),
        long_flag("exclude"@) == Some(Flag::Multi(Multi::Exclude)),
        long_flag("exclude-from-test"@) == Some(Flag::Multi(Multi::ExcludeFromTest)),
        long_flag("exclude-from-report"@) == Some(Flag::Multi(Multi::ExcludeFromReport)),
        long_flag("json"@) == Some(Flag::Switch(Switch::Json)),
        long_flag("lcov"@) == Some(Flag::Switch(Switch::Lcov)),
        long_flag("text"@) == Some(Flag::Switch(Switch::Text)),
        long_flag("html"@) == Some(Flag::Switch(Switch::Html)),
        long_flag("open"@) == Some(Flag::Switch(Switch::Open)),
        long_flag("summary-only"@) == Some(Flag::Switch(Switch::SummaryOnly)),
        long_flag("output-path"@) == Some(Flag::Single(Single::OutputPath)),
        long_flag("output-dir"@) == Some(Flag::Single(Single::OutputDir)),
        long_flag("failure-mode"@) == Some(Flag::Single(Single::FailureMode)),
        long_flag("ignore-filename-regex"@) == Some(Flag::Single(Single::IgnoreFilenameRegex)),
        long_flag("disable-default-ignore-filename-regex"@) == Some(Flag::Switch(Switch::DisableDefaultIgnoreFilenameRegex)),
        long_flag("hide-instantiations"@) == Some(Flag::Switch(Switch::HideInstantiations)),
        long_flag("no-cfg-coverage"@) == Some(Flag::Switch(Switch::NoCfgCoverage)),
        long_flag("no-cfg-coverage-nightly"@) == Some(Flag::Switch(Switch::NoCfgCoverageNightly)),
        long_flag("no-report"@) == Some(Flag::Switch(Switch::NoReport)),
        long_flag("fail-under-lines"@) == Some(Flag::Single(Single::FailUnderLines)),
        long_flag("fail-uncovered-lines"@) == Some(Flag::Single(Single::FailUncoveredLines)),
        long_flag("fail-uncovered-regions"@) == Some(Flag::Single(Single::FailUncoveredRegions)),
        long_flag("fail-uncovered-functions"@) == Some(Flag::Single(Single::FailUncoveredFunctions)),
        long_flag("show-missing-lines"@) == Some(Flag::Switch(Switch::ShowMissingLines)),
        long_flag("include-build-script"@) == Some(Flag::Switch(Switch::IncludeBuildScript)),
        long_flag("jobs"@) == Some(Flag::Single(Single::Jobs)),
        long_flag("release"@) == Some(Flag::Switch(Switch::Release)),
        long_flag("profile"@) == Some(Flag::Single(Single::Profile)),
        long_flag("target"@) == Some(Flag::Single(Single::Target)),
        long_flag("coverage-target-only"@) == Some(Flag::Switch(Switch::CoverageTargetOnly)),
        long_flag("remap-path-prefix"@) == Some(Flag::Switch(Switch::RemapPathPrefix)),
        long_flag("include-ffi"@) == Some(Flag::Switch(Switch::IncludeFfi)),
        long_flag("verbose"@) == Some(Flag::Verbose),
        long_flag("help"@) == Some(Flag::Help),
        long_flag("version"@) == Some(Flag::Version),
{
    reveal_strlit("color");
    reveal_strlit("manifest-path");
    reveal_strlit("doctests");
    reveal_strlit("no-run");
    reveal_strlit("no-fail-fast");
    reveal_strlit("ignore-run-fail");
    reveal_strlit("lib");
    reveal_strlit("bin");
    reveal_strlit("bins");
    reveal_strlit("example");
    reveal_strlit("examples");
    reveal_strlit("test");
    reveal_strlit("tests");
    reveal_strlit("bench");
    reveal_strlit("benches");
    reveal_strlit("all-targets");
    reveal_strlit("doc");
    reveal_strlit("package");
    reveal_strlit("workspace");
    reveal_strlit("all");
    reveal_strlit("exclude");
    reveal_strlit("exclude-from-test");
    reveal_strlit("exclude-from-report");
    reveal_strlit("json");
    reveal_strlit("lcov");
    reveal_strlit("text");
    reveal_strlit("html");
    reveal_strlit("open");
    reveal_strlit("summary-only");
    reveal_strlit("output-path");
    reveal_strlit("output-dir");
    reveal_strlit("failure-mode");
    reveal_strlit("ignore-filename-regex");
    reveal_strlit("disable-default-ignore-filename-regex");
    reveal_strlit("hide-instantiations");
    reveal_strlit("no-cfg-coverage");
    reveal_strlit("no-cfg-coverage-nightly");
    reveal_strlit("no-report");
    reveal_strlit("fail-under-lines");
    reveal_strlit("fail-uncovered-lines");
    reveal_strlit("fail-uncovered-regions");
    reveal_strlit("fail-uncovered-functions");
    reveal_strlit("show-missing-lines");
    reveal_strlit("include-build-script");
    reveal_strlit("jobs");
    reveal_strlit("release");
    reveal_strlit("profile");
    reveal_strlit("target");
    reveal_strlit("coverage-target-only");
    reveal_strlit("remap-path-prefix");
    reveal_strlit("include-ffi");
    reveal_strlit("verbose");
    reveal_strlit("help");
    reveal_strlit("version");
    assert("color"@.len() == 5 && "color"@[0] == 'c');
    assert("manifest-path"@.len() == 13);
    assert("doctests"@.len() == 8 && "doctests"@[0] == 'd');
    assert("no-run"@.len() == 6 && "no-run"@[0] == 'n');
    assert("no-fail-fast"@.len() == 12 && "no-fail-fast"@[0] == 'n');
    assert("ignore-run-fail"@.len() == 15 && "ignore-run-fail"@[0] == 'i');
    assert("lib"@.len() == 3 && "lib"@[0] == 'l');
    assert("bin"@.len() == 3 && "bin"@[0] == 'b');
    assert("bins"@.len() == 4 && "bins"@[0] == 'b');
    assert("example"@.len() == 7 && "example"@[0] == 'e' && "example"@[2] == 'a');
    assert("examples"@.len() == 8 && "examples"@[0] == 'e');
    assert("test"@.len() == 4 && "test"@[0] == 't' && "test"@[2] == 's');
    assert("tests"@.len() == 5 && "tests"@[0] == 't');
    assert("bench"@.len() == 5 && "bench"@[0] == 'b');
    assert("benches"@.len() == 7 && "benches"@[0] == 'b');
    assert("all-targets"@.len() == 11 && "all-targets"@[0] == 'a');
    assert("doc"@.len() == 3 && "doc"@[0] == 'd');
    assert("package"@.len() == 7 && "package"@[0] == 'p' && "package"@[1] == 'a');
    assert("workspace"@.len() == 9 && "workspace"@[0] == 'w');
    assert("all"@.len() == 3 && "all"@[0] == 'a');
    assert("exclude"@.len() == 7 && "exclude"@[0] == 'e' && "exclude"@[2] == 'c');
    assert("exclude-from-test"@.len() == 17 && "exclude-from-test"@[0] == 'e');
    assert("exclude-from-report"@.len() == 19 && "exclude-from-report"@[0] == 'e');
    assert("json"@.len() == 4 && "json"@[0] == 'j' && "json"@[1] == 's');
    assert("lcov"@.len() == 4 && "lcov"@[0] == 'l');
    assert("text"@.len() == 4 && "text"@[0] == 't' && "text"@[2] == 'x');
    assert("html"@.len() == 4 && "html"@[0] == 'h' && "html"@[1] == 't');
    assert("open"@.len() == 4 && "open"@[0] == 'o');
    assert("summary-only"@.len() == 12 && "summary-only"@[0] == 's');
    assert("output-path"@.len() == 11 && "output-path"@[0] == 'o');
    assert("output-dir"@.len() == 10);
    assert("failure-mode"@.len() == 12 && "failure-mode"@[0] == 'f');
    assert("ignore-filename-regex"@.len() == 21);
    assert("disable-default-ignore-filename-regex"@.len() == 37);
    assert("hide-instantiations"@.len() == 19 && "hide-instantiations"@[0] == 'h');
    assert("no-cfg-coverage"@.len() == 15 && "no-cfg-coverage"@[0] == 'n');
    assert("no-cfg-coverage-nightly"@.len() == 23);
    assert("no-report"@.len() == 9 && "no-report"@[0] == 'n');
    assert("fail-under-lines"@.len() == 16);
    assert("fail-uncovered-lines"@.len() == 20 && "fail-uncovered-lines"@[0] == 'f');
    assert("fail-uncovered-regions"@.len() == 22);
    assert("fail-uncovered-functions"@.len() == 24);
    assert("show-missing-lines"@.len() == 18);
    assert("include-build-script"@.len() == 20 && "include-build-script"@[0] == 'i');
    assert("jobs"@.len() == 4 && "jobs"@[0] == 'j' && "jobs"@[1] == 'o');
    assert("release"@.len() == 7 && "release"@[0] == 'r');
    assert("profile"@.len() == 7 && "profile"@[0] == 'p' && "profile"@[1] == 'r');
    assert("target"@.len() == 6 && "target"@[0] == 't');
    assert("coverage-target-only"@.len() == 20 && "coverage-target-only"@[0] == 'c');
    assert("remap-path-prefix"@.len() == 17 && "remap-path-prefix"@[0] == 'r');
    assert("include-ffi"@.len() == 11 && "include-ffi"@[0] == 'i');
    assert("verbose"@.len() == 7 && "verbose"@[0] == 'v' && "verbose"@[3] == 'b');
    assert("help"@.len() == 4 && "help"@[0] == 'h' && "help"@[1] == 'e');
    assert("version"@.len() == 7 && "version"@[0] == 'v' && "version"@[3] == 's');
}

/// The keywords of the subcommands, each with the subcommand that it names.
pub proof fn lemma_keywords()
    ensures
        keyword("test"@) == Some(Subcommand::Test),
        keyword("t"@) == Some(Subcommand::Test),
        keyword("run"@) == Some(Subcommand::Run),
        keyword("r"@) == Some(Subcommand::Run),
        keyword("show-env"@) == Some(Subcommand::ShowEnv),
        keyword("clean"@) == Some(Subcommand::Clean),
        keyword("nextest"@) == Some(Subcommand::Nextest),
        keyword("demangle"@) == Some(Subcommand::Demangle),
{
    reveal_strlit("test");
    reveal_strlit("t");
    reveal_strlit("run");
    reveal_strlit("r");
    reveal_strlit("show-env");
    reveal_strlit("clean");
    reveal_strlit("nextest");
    reveal_strlit("demangle");
    assert("test"@.len() == 4);
    assert("t"@.len() == 1 && "t"@[0] == 't');
    assert("run"@.len() == 3);
    assert("r"@.len() == 1 && "r"@[0] == 'r');
    assert("show-env"@.len() == 8 && "show-env"@[0] == 's');
    assert("clean"@.len() == 5);
    assert("nextest"@.len() == 7);
    assert("demangle"@.len() == 8 && "demangle"@[0] == 'd');
}

} // verus!
