//! What a parse has gathered so far, and how the finished configuration is
//! assembled from it.
use crate::args::Args;
use crate::error::{requires_flag, CliError, ErrorView, Reason};
use crate::flags::{Multi, Single, Switch};
use crate::options::{
    coloring, path_from, path_text, BuildOptions, Coloring, LlvmCovOptions, ManifestOptions,
    Subcommand,
};
use crate::text::{
    check_fraction, decimal, fraction_fault, parse_decimal, push_repeated, push_text, repeated,
    texts,
};
use vstd::prelude::*;

verus! {

/// How far the choice of the subcommand has come.
#[derive(Debug, Clone, Copy, PartialEq, Eq, Structural)]
pub enum Selection {
    /// No bare value has been read: the next one may name the subcommand.
    Open,
    /// The first bare value named no subcommand: the default applies, and
    /// bare values are handed on.
    Defaulted,
    /// The first bare value named this subcommand.
    Chosen(Subcommand),
}

/// The value of an option that takes one.
pub enum Setting {
    /// A text or a path, as it was written.
    Text(Seq<char>),
    /// An unsigned number.
    Number(u64),
    /// A coloring.
    Color(Coloring),
}

/// What a [`Draft`] stands for: which switches are on, the value of each
/// option that has one, the list of each option that may be repeated, the
/// arguments that are handed on, the subcommand, and how often verbose output
/// was asked for.
#[verifier::ext_equal]
pub struct DraftView {
    /// The switches that are on.
    pub switches: Set<Switch>,
    /// The options with one value that were given, each with its value.
    pub singles: Map<Single, Setting>,
    /// For each option that may be repeated, its values in the order in which
    /// they were given.
    pub multis: Map<Multi, Seq<Seq<char>>>,
    /// The arguments for the wrapped build tool.
    pub cargo_args: Seq<Seq<char>>,
    /// How far the choice of the subcommand has come.
    pub selection: Selection,
    /// How often verbose output was asked for.
    pub verbose: nat,
}

impl DraftView {
    /// Nothing read yet.
    pub open spec fn empty() -> DraftView {
        DraftView {
            switches: Set::empty(),
            singles: Map::empty(),
            multis: Map::new(|m: Multi| true, |m: Multi| Seq::<Seq<char>>::empty()),
            cargo_args: Seq::empty(),
            selection: Selection::Open,
            verbose: 0,
        }
    }

    /// Whether every option that may be repeated has its list, be it empty.
    /// This holds of every draft.
    pub open spec fn well_formed(self) -> bool {
        self.multis.dom() == Set::<Multi>::full()
    }

    /// The same with one more switch on.
    pub open spec fn with_switch(self, s: Switch) -> DraftView {
        DraftView { switches: self.switches.insert(s), ..self }
    }

    /// The same with the value of one more option.
    pub open spec fn with_single(self, o: Single, value: Setting) -> DraftView {
        DraftView { singles: self.singles.insert(o, value), ..self }
    }

    /// The same with one more value at the end of a list.
    pub open spec fn with_multi(self, m: Multi, value: Seq<char>) -> DraftView {
        DraftView { multis: self.multis.insert(m, self.multis[m].push(value)), ..self }
    }

    /// The same with one more argument handed on.
    pub open spec fn with_forwarded(self, arg: Seq<char>) -> DraftView {
        DraftView { cargo_args: self.cargo_args.push(arg), ..self }
    }

    /// The same with the choice of the subcommand moved on.
    pub open spec fn with_selection(self, selection: Selection) -> DraftView {
        DraftView { selection, ..self }
    }

    /// The same with verbose output asked for once more. The count stops at
    /// the largest `usize`.
    pub open spec fn louder(self) -> DraftView {
        DraftView {
            verbose: if self.verbose < usize::MAX {
                self.verbose + 1
            } else {
                self.verbose
            },
            ..self
        }
    }

    /// The text of an option, if it was given and holds a text.
    pub open spec fn text_at(self, o: Single) -> Option<Seq<char>> {
        if self.singles.contains_key(o) {
            match self.singles[o] {
                Setting::Text(text) => Some(text),
                _ => None,
            }
        } else {
            None
        }
    }

    /// The number of an option, if it was given and holds a number.
    pub open spec fn number_at(self, o: Single) -> Option<u64> {
        if self.singles.contains_key(o) {
            match self.singles[o] {
                Setting::Number(n) => Some(n),
                _ => None,
            }
        } else {
            None
        }
    }

    /// The number of parallel jobs, if it was given.
    pub open spec fn job_count(self) -> Option<u32> {
        match self.number_at(Single::Jobs) {
            Some(n) => Some(#[verifier::truncate] (n as u32)),
            None => None,
        }
    }

    /// The subcommand: the chosen one, or else the default.
    pub open spec fn subcommand(self) -> Subcommand {
        match self.selection {
            Selection::Chosen(s) => s,
            _ => Subcommand::Test,
        }
    }

    /// The coloring of an option, if it was given and holds a coloring.
    pub open spec fn color_at(self, o: Single) -> Option<Coloring> {
        if self.singles.contains_key(o) {
            match self.singles[o] {
                Setting::Color(c) => Some(c),
                _ => None,
            }
        } else {
            None
        }
    }
}

/// What the text of an option's value is converted to: a coloring, a number
/// in the range of its field, or the text itself. The line threshold must
/// spell a floating-point number, and is kept as it was written.
pub open spec fn converted(o: Single, text: Seq<char>) -> Result<Setting, ErrorView> {
    match o {
        Single::FailUnderLines => match fraction_fault(text) {
            None => Ok(Setting::Text(text)),
            Some(fault) => Err(
                ErrorView::InvalidValue { value: text, reason: Reason::Fraction(fault) },
            ),
        },
        Single::Color => match coloring(text) {
            Some(c) => Ok(Setting::Color(c)),
            None => Err(ErrorView::InvalidValue { value: text, reason: Reason::Color }),
        },
        Single::Jobs => match decimal(text, u32::MAX as nat) {
            Ok(n) => Ok(Setting::Number(n as u64)),
            Err(fault) => Err(
                ErrorView::InvalidValue { value: text, reason: Reason::Number(fault) },
            ),
        },
        Single::FailUncoveredLines
        | Single::FailUncoveredRegions
        | Single::FailUncoveredFunctions => match decimal(text, u64::MAX as nat) {
            Ok(n) => Ok(Setting::Number(n as u64)),
            Err(fault) => Err(
                ErrorView::InvalidValue { value: text, reason: Reason::Number(fault) },
            ),
        },
        _ => Ok(Setting::Text(text)),
    }
}

/// What a parse has gathered so far.
#[derive(Debug)]
pub struct Draft {
    /// The switches that are on.
    pub switches: Vec<Switch>,
    /// When to color the output.
    pub color: Option<Coloring>,
    /// The path of the manifest.
    pub manifest_path: Option<camino::Utf8PathBuf>,
    /// The file to write the coverage data into.
    pub output_path: Option<camino::Utf8PathBuf>,
    /// The directory to write the report into.
    pub output_dir: Option<camino::Utf8PathBuf>,
    /// When a failure to merge profiles is fatal.
    pub failure_mode: Option<String>,
    /// Which source files to skip.
    pub ignore_filename_regex: Option<String>,
    /// The least line coverage that passes, as it was written.
    pub fail_under_lines: Option<String>,
    /// The most uncovered lines that pass.
    pub fail_uncovered_lines: Option<u64>,
    /// The most uncovered regions that pass.
    pub fail_uncovered_regions: Option<u64>,
    /// The most uncovered functions that pass.
    pub fail_uncovered_functions: Option<u64>,
    /// The number of parallel jobs.
    pub jobs: Option<u32>,
    /// The profile to build with.
    pub profile: Option<String>,
    /// The target triple to build for.
    pub target: Option<String>,
    /// Test only these binaries.
    pub bin: Vec<String>,
    /// Test only these examples.
    pub example: Vec<String>,
    /// Test only these test targets.
    pub test: Vec<String>,
    /// Test only these benches.
    pub bench: Vec<String>,
    /// Test these packages.
    pub package: Vec<String>,
    /// Leave these packages out of the tests and of the report.
    pub exclude: Vec<String>,
    /// Leave these packages out of the tests.
    pub exclude_from_test: Vec<String>,
    /// Leave these packages out of the report.
    pub exclude_from_report: Vec<String>,
    /// The arguments for the wrapped build tool.
    pub cargo_args: Vec<String>,
    /// How far the choice of the subcommand has come.
    pub selection: Selection,
    /// How often verbose output was asked for.
    pub verbose: usize,
}

/// The switches that a list holds.
#[verifier::opaque]
pub open spec fn switch_set(list: Seq<Switch>) -> Set<Switch> {
    list.to_set()
}

/// The text of an optional path, as a setting.
pub open spec fn path_setting(p: Option<camino::Utf8PathBuf>) -> Option<Setting> {
    match p {
        Some(p) => Some(Setting::Text(path_text(p))),
        None => None,
    }
}

/// The text of an optional string, as a setting.
pub open spec fn text_setting(s: Option<String>) -> Option<Setting> {
    match s {
        Some(s) => Some(Setting::Text(s@)),
        None => None,
    }
}

/// An optional limit, as a setting.
pub open spec fn limit_setting(n: Option<u64>) -> Option<Setting> {
    match n {
        Some(n) => Some(Setting::Number(n)),
        None => None,
    }
}

impl Draft {
    /// The value of an option that takes one, if it was given.
    pub open spec fn setting(&self, o: Single) -> Option<Setting> {
        match o {
            Single::Color => match self.color {
                Some(c) => Some(Setting::Color(c)),
                None => None,
            },
            Single::ManifestPath => path_setting(self.manifest_path),
            Single::OutputPath => path_setting(self.output_path),
            Single::OutputDir => path_setting(self.output_dir),
            Single::FailureMode => text_setting(self.failure_mode),
            Single::IgnoreFilenameRegex => text_setting(self.ignore_filename_regex),
            Single::FailUnderLines => text_setting(self.fail_under_lines),
            Single::FailUncoveredLines => limit_setting(self.fail_uncovered_lines),
            Single::FailUncoveredRegions => limit_setting(self.fail_uncovered_regions),
            Single::FailUncoveredFunctions => limit_setting(self.fail_uncovered_functions),
            Single::Jobs => match self.jobs {
                Some(n) => Some(Setting::Number(n as u64)),
                None => None,
            },
            Single::Profile => text_setting(self.profile),
            Single::Target => text_setting(self.target),
        }
    }

    /// The values of an option that may be repeated.
    pub open spec fn list(&self, m: Multi) -> Seq<Seq<char>> {
        match m {
            Multi::Bin => texts(self.bin@),
            Multi::Example => texts(self.example@),
            Multi::Test => texts(self.test@),
            Multi::Bench => texts(self.bench@),
            Multi::Package => texts(self.package@),
            Multi::Exclude => texts(self.exclude@),
            Multi::ExcludeFromTest => texts(self.exclude_from_test@),
            Multi::ExcludeFromReport => texts(self.exclude_from_report@),
        }
    }
}

impl View for Draft {
    type V = DraftView;

    open spec fn view(&self) -> DraftView {
        DraftView {
            switches: switch_set(self.switches@),
            singles: Map::new(
                |o: Single| self.setting(o) is Some,
                |o: Single| self.setting(o)->0,
            ),
            multis: Map::new(|m: Multi| true, |m: Multi| self.list(m)),
            cargo_args: texts(self.cargo_args@),
            selection: self.selection,
            verbose: self.verbose as nat,
        }
    }
}

/// Every draft has a list for each option that may be repeated.
pub proof fn lemma_draft_is_well_formed(draft: Draft)
    ensures
        draft@.well_formed(),
{
    assert(draft@.multis.dom() =~= Set::<Multi>::full());
}

/// Two drafts that hold the same values and lists.
proof fn lemma_same_values(a: Draft, b: Draft)
    requires
        forall|o: Single| #[trigger] b.setting(o) == a.setting(o),
        forall|m: Multi| #[trigger] b.list(m) == a.list(m),
    ensures
        b@.singles == a@.singles,
        b@.multis == a@.multis,
{
    assert(b@.singles =~= a@.singles);
    assert(b@.multis =~= a@.multis);
}

impl Draft {
    /// The draft of a parse that has read nothing.
    pub fn new() -> (r: Draft)
        ensures
            r@ == DraftView::empty(),
    {
        let r = Draft {
            switches: Vec::new(),
            color: None,
            manifest_path: None,
            output_path: None,
            output_dir: None,
            failure_mode: None,
            ignore_filename_regex: None,
            fail_under_lines: None,
            fail_uncovered_lines: None,
            fail_uncovered_regions: None,
            fail_uncovered_functions: None,
            jobs: None,
            profile: None,
            target: None,
            bin: Vec::new(),
            example: Vec::new(),
            test: Vec::new(),
            bench: Vec::new(),
            package: Vec::new(),
            exclude: Vec::new(),
            exclude_from_test: Vec::new(),
            exclude_from_report: Vec::new(),
            cargo_args: Vec::new(),
            selection: Selection::Open,
            verbose: 0,
        };
        proof {
            reveal(switch_set);
            assert(r@.switches =~= Set::<Switch>::empty());
            assert(r@.singles =~= Map::<Single, Setting>::empty());
            assert forall|m: Multi| #[trigger] r.list(m) == Seq::<Seq<char>>::empty() by {
                assert(r.list(m) =~= Seq::<Seq<char>>::empty());
            }
            assert(r@.multis =~= DraftView::empty().multis);
            assert(r@.cargo_args =~= Seq::<Seq<char>>::empty());
        }
        r
    }

    /// Whether a switch is on.
    pub fn is_on(&self, s: Switch) -> (r: bool)
        ensures
            r == self@.switches.contains(s),
    {
        let mut i: usize = 0;
        while i < self.switches.len()
            invariant
                i <= self.switches@.len(),
                forall|j: int| 0 <= j < i ==> self.switches@[j] != s,
            decreases self.switches@.len() - i,
        {
            if self.switches[i] == s {
                proof {
                    reveal(switch_set);
                }
                return true;
            }
            i = i + 1;
        }
        proof {
            reveal(switch_set);
        }
        false
    }

    /// Turns a switch on.
    pub fn turn_on(&mut self, s: Switch)
        ensures
            final(self)@ == old(self)@.with_switch(s),
    {
        self.switches.push(s);
        proof {
            reveal(switch_set);
            lemma_same_values(*old(self), *self);
            assert(self.switches@ == old(self).switches@.push(s));
            assert forall|x: Switch| self@.switches.contains(x) == old(self)@.switches.insert(
                s,
            ).contains(x) by {
                if x == s {
                    assert(self.switches@[self.switches@.len() - 1] == s);
                } else if self.switches@.contains(x) {
                    let j = choose|j: int| 0 <= j < self.switches@.len() && self.switches@[j] == x;
                    assert(old(self).switches@[j] == x);
                } else if old(self).switches@.contains(x) {
                    let j = choose|j: int|
                        0 <= j < old(self).switches@.len() && old(self).switches@[j] == x;
                    assert(self.switches@[j] == x);
                }
            }
            assert(self@.switches =~= old(self)@.switches.insert(s));
        }
    }

    /// Whether an option that takes one value was given.
    pub fn is_set(&self, o: Single) -> (r: bool)
        ensures
            r == self@.singles.contains_key(o),
    {
        match o {
            Single::Color => self.color.is_some(),
            Single::ManifestPath => self.manifest_path.is_some(),
            Single::OutputPath => self.output_path.is_some(),
            Single::OutputDir => self.output_dir.is_some(),
            Single::FailureMode => self.failure_mode.is_some(),
            Single::IgnoreFilenameRegex => self.ignore_filename_regex.is_some(),
            Single::FailUnderLines => self.fail_under_lines.is_some(),
            Single::FailUncoveredLines => self.fail_uncovered_lines.is_some(),
            Single::FailUncoveredRegions => self.fail_uncovered_regions.is_some(),
            Single::FailUncoveredFunctions => self.fail_uncovered_functions.is_some(),
            Single::Jobs => self.jobs.is_some(),
            Single::Profile => self.profile.is_some(),
            Single::Target => self.target.is_some(),
        }
    }

    /// Converts the text of an option's value and stores it, or says why it
    /// cannot be converted.
    pub fn set(&mut self, o: Single, text: String) -> (r: Result<(), CliError>)
        ensures
            match converted(o, text@) {
                Ok(value) => r is Ok && final(self)@ == old(self)@.with_single(o, value),
                Err(e) => r is Err && r->Err_0@ == e && final(self)@ == old(self)@,
            },
    {
        match o {
            Single::Color => {
                match Coloring::from_str(text.as_str()) {
                    Some(c) => {
                        self.color = Some(c);
                    },
                    None => {
                        return Err(CliError::InvalidValue { value: text, reason: Reason::Color });
                    },
                }
            },
            Single::ManifestPath => {
                self.manifest_path = Some(path_from(text));
            },
            Single::OutputPath => {
                self.output_path = Some(path_from(text));
            },
            Single::OutputDir => {
                self.output_dir = Some(path_from(text));
            },
            Single::FailureMode => {
                self.failure_mode = Some(text);
            },
            Single::IgnoreFilenameRegex => {
                self.ignore_filename_regex = Some(text);
            },
            Single::FailUnderLines => {
                match check_fraction(text.as_str()) {
                    Ok(()) => {
                        self.fail_under_lines = Some(text);
                    },
                    Err(fault) => {
                        return Err(
                            CliError::InvalidValue { value: text, reason: Reason::Fraction(fault) },
                        );
                    },
                }
            },
            Single::FailUncoveredLines => {
                match parse_decimal(text.as_str(), u64::MAX) {
                    Ok(n) => {
                        self.fail_uncovered_lines = Some(n);
                    },
                    Err(fault) => {
                        return Err(
                            CliError::InvalidValue { value: text, reason: Reason::Number(fault) },
                        );
                    },
                }
            },
            Single::FailUncoveredRegions => {
                match parse_decimal(text.as_str(), u64::MAX) {
                    Ok(n) => {
                        self.fail_uncovered_regions = Some(n);
                    },
                    Err(fault) => {
                        return Err(
                            CliError::InvalidValue { value: text, reason: Reason::Number(fault) },
                        );
                    },
                }
            },
            Single::FailUncoveredFunctions => {
                match parse_decimal(text.as_str(), u64::MAX) {
                    Ok(n) => {
                        self.fail_uncovered_functions = Some(n);
                    },
                    Err(fault) => {
                        return Err(
                            CliError::InvalidValue { value: text, reason: Reason::Number(fault) },
                        );
                    },
                }
            },
            Single::Jobs => {
                match parse_decimal(text.as_str(), 4294967295) {
                    Ok(n) => {
                        self.jobs = Some(n as u32);
                    },
                    Err(fault) => {
                        return Err(
                            CliError::InvalidValue { value: text, reason: Reason::Number(fault) },
                        );
                    },
                }
            },
            Single::Profile => {
                self.profile = Some(text);
            },
            Single::Target => {
                self.target = Some(text);
            },
        }
        proof {
            let value = converted(o, text@)->Ok_0;
            assert forall|m: Multi| #[trigger] self.list(m) == old(self).list(m) by {}
            assert forall|x: Single| x != o implies #[trigger] self.setting(x) == old(self).setting(
                x,
            ) by {}
            assert(self.setting(o) == Some(value));
            assert(self@.singles =~= old(self)@.singles.insert(o, value));
            assert(self@.multis =~= old(self)@.multis);
        }
        Ok(())
    }

    /// Appends a value to the list of an option that may be repeated.
    pub fn append(&mut self, m: Multi, text: String)
        ensures
            final(self)@ == old(self)@.with_multi(m, text@),
    {
        match m {
            Multi::Bin => {
                push_text(&mut self.bin, text);
            },
            Multi::Example => {
                push_text(&mut self.example, text);
            },
            Multi::Test => {
                push_text(&mut self.test, text);
            },
            Multi::Bench => {
                push_text(&mut self.bench, text);
            },
            Multi::Package => {
                push_text(&mut self.package, text);
            },
            Multi::Exclude => {
                push_text(&mut self.exclude, text);
            },
            Multi::ExcludeFromTest => {
                push_text(&mut self.exclude_from_test, text);
            },
            Multi::ExcludeFromReport => {
                push_text(&mut self.exclude_from_report, text);
            },
        }
        proof {
            assert forall|x: Multi| x != m implies #[trigger] self.list(x) == old(self).list(x) by {}
            assert(self.list(m) == old(self).list(m).push(text@));
            assert forall|o: Single| #[trigger] self.setting(o) == old(self).setting(o) by {}
            assert(self@.singles =~= old(self)@.singles);
            assert(self@.multis =~= old(self)@.multis.insert(m, old(self)@.multis[m].push(text@)));
        }
    }

    /// Hands an argument on to the wrapped build tool.
    pub fn forward(&mut self, arg: String)
        ensures
            final(self)@ == old(self)@.with_forwarded(arg@),
    {
        push_text(&mut self.cargo_args, arg);
        proof {
            lemma_same_values(*old(self), *self);
        }
    }

    /// Moves the choice of the subcommand on.
    pub fn select(&mut self, selection: Selection)
        ensures
            final(self)@ == old(self)@.with_selection(selection),
    {
        self.selection = selection;
        proof {
            lemma_same_values(*old(self), *self);
        }
    }

    /// Counts one more request for verbose output.
    pub fn raise_verbosity(&mut self)
        ensures
            final(self)@ == old(self)@.louder(),
    {
        if self.verbose < usize::MAX {
            self.verbose = self.verbose + 1;
        }
        proof {
            lemma_same_values(*old(self), *self);
        }
    }
}

/// The count of requests for verbose output as the build options hold it: at
/// most 255.
pub open spec fn capped(verbose: nat) -> u8 {
    if verbose > 255 {
        255u8
    } else {
        verbose as u8
    }
}

/// The arguments for the wrapped build tool once the command line is read.
/// Where verbose output was asked for more than once, all requests but the
/// first are handed on in one last argument: `-v`, `-vv` and so on.
pub open spec fn handed_on(d: DraftView) -> Seq<Seq<char>> {
    if d.verbose > 1 {
        d.cargo_args.push(seq!['-'] + repeated('v', (d.verbose - 1) as nat))
    } else {
        d.cargo_args
    }
}

/// The one rule between options: `--exclude` needs `--workspace`. The result
/// is the error for a draft that breaks it.
pub open spec fn broken_rule(d: DraftView) -> Option<ErrorView> {
    if d.multis[Multi::Exclude].len() > 0 && !d.switches.contains(Switch::Workspace) {
        Some(ErrorView::RequiresFlag { flag: "--exclude"@, requires: seq!["--workspace"@] })
    } else {
        None
    }
}

impl Draft {
    /// Checks the rules between options: `--exclude` needs `--workspace`.
    pub fn validate(&self) -> (r: Result<(), CliError>)
        ensures
            broken_rule(self@) is None ==> r is Ok,
            broken_rule(self@) matches Some(e) ==> r is Err && r->Err_0@ == e,
    {
        if self.exclude.len() > 0 && !self.is_on(Switch::Workspace) {
            let needed: [&str; 1] = ["--workspace"];
            let r = requires_flag("--exclude", &needed);
            proof {
                assert(crate::error::slice_texts(needed@) =~= seq!["--workspace"@]);
            }
            r
        } else {
            Ok(())
        }
    }

    /// Ends the parse: checks the rules between options and assembles the
    /// configuration, with `rest` as the arguments behind the bare `--`.
    pub fn finish(self, rest: Vec<String>) -> (r: Result<Args, CliError>)
        ensures
            broken_rule(self@) is None ==> r is Ok && r->Ok_0.reflects(self@, texts(rest@)),
            broken_rule(self@) matches Some(e) ==> r is Err && r->Err_0@ == e,
    {
        match self.validate() {
            Err(e) => {
                return Err(e);
            },
            Ok(()) => {},
        }
        let doctests: bool = self.is_on(Switch::Doctests);
        let no_run: bool = self.is_on(Switch::NoRun);
        let no_fail_fast: bool = self.is_on(Switch::NoFailFast);
        let ignore_run_fail: bool = self.is_on(Switch::IgnoreRunFail);
        let lib: bool = self.is_on(Switch::Lib);
        let bins: bool = self.is_on(Switch::Bins);
        let examples: bool = self.is_on(Switch::Examples);
        let tests: bool = self.is_on(Switch::Tests);
        let benches: bool = self.is_on(Switch::Benches);
        let all_targets: bool = self.is_on(Switch::AllTargets);
        let doc: bool = self.is_on(Switch::Doc);
        let workspace: bool = self.is_on(Switch::Workspace);
        let json: bool = self.is_on(Switch::Json);
        let lcov: bool = self.is_on(Switch::Lcov);
        let text: bool = self.is_on(Switch::Text);
        let html: bool = self.is_on(Switch::Html);
        let open: bool = self.is_on(Switch::Open);
        let summary_only: bool = self.is_on(Switch::SummaryOnly);
        let disable_default_ignore_filename_regex: bool = self.is_on(
            Switch::DisableDefaultIgnoreFilenameRegex,
        );
        let hide_instantiations: bool = self.is_on(Switch::HideInstantiations);
        let no_cfg_coverage: bool = self.is_on(Switch::NoCfgCoverage);
        let no_cfg_coverage_nightly: bool = self.is_on(Switch::NoCfgCoverageNightly);
        let no_report: bool = self.is_on(Switch::NoReport);
        let show_missing_lines: bool = self.is_on(Switch::ShowMissingLines);
        let include_build_script: bool = self.is_on(Switch::IncludeBuildScript);
        let release: bool = self.is_on(Switch::Release);
        let coverage_target_only: bool = self.is_on(Switch::CoverageTargetOnly);
        let remap_path_prefix: bool = self.is_on(Switch::RemapPathPrefix);
        let include_ffi: bool = self.is_on(Switch::IncludeFfi);
        let subcommand = match self.selection {
            Selection::Chosen(s) => s,
            _ => Subcommand::Test,
        };
        let verbose: u8 = if self.verbose > 255 {
            255
        } else {
            self.verbose as u8
        };
        let ghost model = self@;
        let mut cargo_args = self.cargo_args;
        if self.verbose > 1 {
            let mut more = String::new();
            more.push('-');
            push_repeated(&mut more, 'v', self.verbose - 1);
            proof {
                assert(more@ =~= seq!['-'] + repeated('v', (self.verbose - 1) as nat));
            }
            push_text(&mut cargo_args, more);
        }
        let args = Args {
            subcommand,
            cov: LlvmCovOptions {
                json,
                lcov,
                text,
                html,
                open,
                summary_only,
                output_path: self.output_path,
                output_dir: self.output_dir,
                failure_mode: self.failure_mode,
                ignore_filename_regex: self.ignore_filename_regex,
                disable_default_ignore_filename_regex,
                hide_instantiations,
                no_cfg_coverage,
                no_cfg_coverage_nightly,
                no_report,
                fail_under_lines: self.fail_under_lines,
                fail_uncovered_lines: self.fail_uncovered_lines,
                fail_uncovered_regions: self.fail_uncovered_regions,
                fail_uncovered_functions: self.fail_uncovered_functions,
                show_missing_lines,
                include_build_script,
            },
            doctests,
            no_run,
            no_fail_fast,
            ignore_run_fail,
            lib,
            bin: self.bin,
            bins,
            example: self.example,
            examples,
            test: self.test,
            tests,
            bench: self.bench,
            benches,
            all_targets,
            doc,
            package: self.package,
            workspace,
            exclude: self.exclude,
            exclude_from_test: self.exclude_from_test,
            exclude_from_report: self.exclude_from_report,
            build: BuildOptions {
                jobs: self.jobs,
                release,
                profile: self.profile,
                target: self.target,
                coverage_target_only,
                verbose,
                color: self.color,
                remap_path_prefix,
                include_ffi,
            },
            manifest: ManifestOptions { manifest_path: self.manifest_path },
            cargo_args,
            rest,
        };
        Ok(args)
    }
}

} // verus!
