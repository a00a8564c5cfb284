//! The typed records that a parse fills: the subcommand, the coloring, and the
//! options of the report, of the build and of the manifest.
use crate::error::{CliError, ErrorView};
use crate::text::{decimal_string, decimal_text, push_text, text_of, texts};
use vstd::prelude::*;

verus! {

/// `camino::Utf8PathBuf`: nothing of it is visible but through [`path_text`].
#[verifier::external_type_specification]
#[verifier::external_body]
pub struct ExUtf8PathBuf(camino::Utf8PathBuf);

/// The text that a path holds.
pub uninterp spec fn path_text(p: camino::Utf8PathBuf) -> Seq<char>;

/// `camino::Utf8PathBuf::from`: the path that holds exactly this text.
#[verifier::external_body]
pub(crate) fn path_from(text: String) -> (p: camino::Utf8PathBuf)
    ensures
        path_text(p) == text@,
{
    camino::Utf8PathBuf::from(text)
}

/// What the tool is asked to do.
#[derive(Debug, Clone, Copy, PartialEq, Eq, Structural)]
pub enum Subcommand {
    /// Run the tests and report. This is the default.
    Test,
    /// Run a binary or an example and report.
    Run,
    /// Print the environment that an instrumented build needs.
    ShowEnv,
    /// Remove what earlier runs have left.
    Clean,
    /// Run the tests with nextest.
    Nextest,
    /// Internal: takes no arguments at all.
    Demangle,
}

/// The subcommand that a keyword names.
pub open spec fn keyword(text: Seq<char>) -> Option<Subcommand> {
    if text == "test"@ || text == "t"@ {
        Some(Subcommand::Test)
    } else if text == "run"@ || text == "r"@ {
        Some(Subcommand::Run)
    } else if text == "show-env"@ {
        Some(Subcommand::ShowEnv)
    } else if text == "clean"@ {
        Some(Subcommand::Clean)
    } else if text == "nextest"@ {
        Some(Subcommand::Nextest)
    } else if text == "demangle"@ {
        Some(Subcommand::Demangle)
    } else {
        None
    }
}

impl Subcommand {
    /// Reads a subcommand keyword.
    pub fn from_str(s: &str) -> (r: Result<Subcommand, CliError>)
        ensures
            keyword(s@) matches Some(k) ==> r == Ok::<Subcommand, CliError>(k),
            keyword(s@) is None ==> r is Err && r->Err_0@ == (ErrorView::UnrecognizedSubcommand {
                found: s@,
            }),
    {
        if s.eq("test") || s.eq("t") {
            Ok(Subcommand::Test)
        } else if s.eq("run") || s.eq("r") {
            Ok(Subcommand::Run)
        } else if s.eq("show-env") {
            Ok(Subcommand::ShowEnv)
        } else if s.eq("clean") {
            Ok(Subcommand::Clean)
        } else if s.eq("nextest") {
            Ok(Subcommand::Nextest)
        } else if s.eq("demangle") {
            Ok(Subcommand::Demangle)
        } else {
            Err(CliError::UnrecognizedSubcommand { found: String::from_str(s) })
        }
    }
}

/// When to color the output.
#[derive(Debug, Clone, Copy, PartialEq, Eq, Structural)]
pub enum Coloring {
    Auto,
    Always,
    Never,
}

/// The coloring that a text names.
pub open spec fn coloring(text: Seq<char>) -> Option<Coloring> {
    if text == "auto"@ {
        Some(Coloring::Auto)
    } else if text == "always"@ {
        Some(Coloring::Always)
    } else if text == "never"@ {
        Some(Coloring::Never)
    } else {
        None
    }
}

impl Coloring {
    /// The name of the coloring, as the wrapped build tool takes it.
    pub open spec fn name(self) -> Seq<char> {
        match self {
            Coloring::Auto => "auto"@,
            Coloring::Always => "always"@,
            Coloring::Never => "never"@,
        }
    }

    /// Reads a coloring.
    pub fn from_str(s: &str) -> (r: Option<Coloring>)
        ensures
            r == coloring(s@),
    {
        if s.eq("auto") {
            Some(Coloring::Auto)
        } else if s.eq("always") {
            Some(Coloring::Always)
        } else if s.eq("never") {
            Some(Coloring::Never)
        } else {
            None
        }
    }

    /// The name of the coloring, as the wrapped build tool takes it.
    pub fn cargo_color(self) -> (r: &'static str)
        ensures
            r@ == self.name(),
    {
        match self {
            Coloring::Auto => "auto",
            Coloring::Always => "always",
            Coloring::Never => "never",
        }
    }
}

/// What an optional path holds.
pub open spec fn path_of(p: Option<camino::Utf8PathBuf>) -> Option<Seq<char>> {
    match p {
        Some(p) => Some(path_text(p)),
        None => None,
    }
}

/// The options of the coverage report.
#[derive(Debug)]
pub struct LlvmCovOptions {
    /// Export the coverage data as JSON.
    pub json: bool,
    /// Export the coverage data in the lcov format.
    pub lcov: bool,
    /// Write the report as text.
    pub text: bool,
    /// Write the report as HTML.
    pub html: bool,
    /// Write the report as HTML and open it in a browser.
    pub open: bool,
    /// Export only the summary of each file.
    pub summary_only: bool,
    /// The file to write the coverage data into.
    pub output_path: Option<camino::Utf8PathBuf>,
    /// The directory to write the report into.
    pub output_dir: Option<camino::Utf8PathBuf>,
    /// Whether `any` or `all` profiles must fail to merge before the tool
    /// gives up.
    pub failure_mode: Option<String>,
    /// Source files whose path matches this expression are skipped.
    pub ignore_filename_regex: Option<String>,
    /// Do not skip the files that are skipped by default.
    pub disable_default_ignore_filename_regex: bool,
    /// Leave instantiations out of the report.
    pub hide_instantiations: bool,
    /// Do not set `cfg(coverage)`.
    pub no_cfg_coverage: bool,
    /// Do not set `cfg(coverage_nightly)`.
    pub no_cfg_coverage_nightly: bool,
    /// Run the tests without writing a report.
    pub no_report: bool,
    /// Fail if the line coverage, in percent, is below this number. The text
    /// spells a floating-point number, and is kept as it was written.
    pub fail_under_lines: Option<String>,
    /// Fail if more lines than this are uncovered.
    pub fail_uncovered_lines: Option<u64>,
    /// Fail if more regions than this are uncovered.
    pub fail_uncovered_regions: Option<u64>,
    /// Fail if more functions than this are uncovered.
    pub fail_uncovered_functions: Option<u64>,
    /// List the lines that are not covered.
    pub show_missing_lines: bool,
    /// Include the build script in the report.
    pub include_build_script: bool,
}

impl LlvmCovOptions {
    /// The record in which nothing is set.
    pub open spec fn empty() -> LlvmCovOptions {
        LlvmCovOptions {
            json: false,
            lcov: false,
            text: false,
            html: false,
            open: false,
            summary_only: false,
            output_path: None,
            output_dir: None,
            failure_mode: None,
            ignore_filename_regex: None,
            disable_default_ignore_filename_regex: false,
            hide_instantiations: false,
            no_cfg_coverage: false,
            no_cfg_coverage_nightly: false,
            no_report: false,
            fail_under_lines: None,
            fail_uncovered_lines: None,
            fail_uncovered_regions: None,
            fail_uncovered_functions: None,
            show_missing_lines: false,
            include_build_script: false,
        }
    }

    /// Whether the report is one that shows the source: text or HTML.
    pub fn show(&self) -> (r: bool)
        ensures
            r == (self.text || self.html),
    {
        self.text || self.html
    }
}

impl Default for LlvmCovOptions {
    fn default() -> (r: LlvmCovOptions)
        ensures
            r == LlvmCovOptions::empty(),
    {
        LlvmCovOptions {
            json: false,
            lcov: false,
            text: false,
            html: false,
            open: false,
            summary_only: false,
            output_path: None,
            output_dir: None,
            failure_mode: None,
            ignore_filename_regex: None,
            disable_default_ignore_filename_regex: false,
            hide_instantiations: false,
            no_cfg_coverage: false,
            no_cfg_coverage_nightly: false,
            no_report: false,
            fail_under_lines: None,
            fail_uncovered_lines: None,
            fail_uncovered_regions: None,
            fail_uncovered_functions: None,
            show_missing_lines: false,
            include_build_script: false,
        }
    }
}

/// An option with its value, as two arguments, or nothing if it has none.
pub open spec fn with_value(name: Seq<char>, value: Option<Seq<char>>) -> Seq<Seq<char>> {
    match value {
        Some(v) => seq![name, v],
        None => Seq::empty(),
    }
}

/// The options of the build.
#[derive(Debug)]
pub struct BuildOptions {
    /// The number of parallel jobs.
    pub jobs: Option<u32>,
    /// Build in release mode.
    pub release: bool,
    /// Build with this profile.
    pub profile: Option<String>,
    /// Build for this target triple.
    pub target: Option<String>,
    /// Report coverage only for the target triple.
    pub coverage_target_only: bool,
    /// How often verbose output was asked for, at most 255.
    pub verbose: u8,
    /// When to color the output.
    pub color: Option<Coloring>,
    /// Remap the path prefix of the workspace root.
    pub remap_path_prefix: bool,
    /// Include the coverage of linked C and C++ code.
    pub include_ffi: bool,
}

impl BuildOptions {
    /// The record in which nothing is set.
    pub open spec fn empty() -> BuildOptions {
        BuildOptions {
            jobs: None,
            release: false,
            profile: None,
            target: None,
            coverage_target_only: false,
            verbose: 0,
            color: None,
            remap_path_prefix: false,
            include_ffi: false,
        }
    }

    /// The arguments that hand these options on to the wrapped build tool:
    /// `--jobs N`, `--release`, `--profile NAME`, `--target TRIPLE` and
    /// `--color WHEN`, in this order, each only if it is set.
    pub open spec fn forwarded(&self) -> Seq<Seq<char>> {
        with_value(
            "--jobs"@,
            match self.jobs {
                Some(n) => Some(decimal_text(n as nat)),
                None => None,
            },
        ) + (if self.release {
            seq!["--release"@]
        } else {
            Seq::<Seq<char>>::empty()
        }) + with_value("--profile"@, text_of(self.profile)) + with_value(
            "--target"@,
            text_of(self.target),
        ) + with_value(
            "--color"@,
            match self.color {
                Some(when) => Some(when.name()),
                None => None,
            },
        )
    }

    /// Appends to `cmd` the arguments that hand these options on to the
    /// wrapped build tool.
    pub fn cargo_args(&self, cmd: &mut Vec<String>)
        ensures
            texts(final(cmd)@) == texts(old(cmd)@) + self.forwarded(),
    {
        let ghost before = texts(cmd@);
        let jobs: Option<String> = match self.jobs {
            Some(n) => Some(decimal_string(n as u64)),
            None => None,
        };
        push_option(cmd, "--jobs", jobs);
        let ghost with_jobs = texts(cmd@);
        if self.release {
            push_text(cmd, String::from_str("--release"));
        }
        let ghost with_release = texts(cmd@);
        push_option(cmd, "--profile", self.profile.clone());
        let ghost with_profile = texts(cmd@);
        push_option(cmd, "--target", self.target.clone());
        let ghost with_target = texts(cmd@);
        let color: Option<String> = match self.color {
            Some(when) => Some(String::from_str(when.cargo_color())),
            None => None,
        };
        push_option(cmd, "--color", color);
        proof {
            let j = with_value("--jobs"@, text_of(jobs));
            let r = if self.release {
                seq!["--release"@]
            } else {
                Seq::<Seq<char>>::empty()
            };
            let p = with_value("--profile"@, text_of(self.profile));
            let t = with_value("--target"@, text_of(self.target));
            let c = with_value("--color"@, text_of(color));
            assert(with_release == with_jobs + r) by {
                assert(with_jobs.push("--release"@) =~= with_jobs + seq!["--release"@]);
                assert(with_jobs =~= with_jobs + Seq::<Seq<char>>::empty());
            }
            assert(self.forwarded() == j + r + p + t + c);
            lemma_add_assoc(before, j, r);
            lemma_add_assoc(before, j + r, p);
            lemma_add_assoc(before, j + r + p, t);
            lemma_add_assoc(before, j + r + p + t, c);
        }
    }
}

/// Appending lists is associative.
proof fn lemma_add_assoc(a: Seq<Seq<char>>, b: Seq<Seq<char>>, c: Seq<Seq<char>>)
    ensures
        (a + b) + c == a + (b + c),
{
    assert((a + b) + c =~= a + (b + c));
}

/// Appends an option and its value to a list, if it has one.
fn push_option(list: &mut Vec<String>, name: &str, value: Option<String>)
    ensures
        texts(final(list)@) == texts(old(list)@) + with_value(name@, text_of(value)),
{
    let ghost before = texts(list@);
    match value {
        Some(v) => {
            push_text(list, String::from_str(name));
            push_text(list, v);
            assert(texts(list@) =~= before + seq![name@, v@]);
        },
        None => {
            assert(before =~= before + Seq::<Seq<char>>::empty());
        },
    }
}

impl Default for BuildOptions {
    fn default() -> (r: BuildOptions)
        ensures
            r == BuildOptions::empty(),
    {
        BuildOptions {
            jobs: None,
            release: false,
            profile: None,
            target: None,
            coverage_target_only: false,
            verbose: 0,
            color: None,
            remap_path_prefix: false,
            include_ffi: false,
        }
    }
}

/// The options that locate the manifest.
#[derive(Debug)]
pub struct ManifestOptions {
    /// The path of the manifest.
    pub manifest_path: Option<camino::Utf8PathBuf>,
}

impl ManifestOptions {
    /// The record in which nothing is set.
    pub open spec fn empty() -> ManifestOptions {
        ManifestOptions { manifest_path: None }
    }
}

impl Default for ManifestOptions {
    fn default() -> (r: ManifestOptions)
        ensures
            r == ManifestOptions::empty(),
    {
        ManifestOptions { manifest_path: None }
    }
}

} // verus!
