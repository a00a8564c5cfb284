//! The configuration that a parse produces.
use crate::draft::{capped, handed_on, DraftView};
use crate::flags::{Multi, Single, Switch};
use crate::options::{path_of, BuildOptions, LlvmCovOptions, ManifestOptions, Subcommand};
use crate::text::{text_of, texts};
use vstd::prelude::*;

verus! {

/// The configuration that one parse produces.
#[derive(Debug)]
pub struct Args {
    /// What the tool is asked to do.
    pub subcommand: Subcommand,
    /// The options of the report.
    pub cov: LlvmCovOptions,
    /// Include the doc tests.
    pub doctests: bool,
    /// Report without running the tests.
    pub no_run: bool,
    /// Run all tests, whatever fails.
    pub no_fail_fast: bool,
    /// Run all tests, whatever fails, and report.
    pub ignore_run_fail: bool,
    /// Test only the library.
    pub lib: bool,
    /// Test only these binaries.
    pub bin: Vec<String>,
    /// Test all binaries.
    pub bins: bool,
    /// Test only these examples.
    pub example: Vec<String>,
    /// Test all examples.
    pub examples: bool,
    /// Test only these test targets.
    pub test: Vec<String>,
    /// Test all test targets.
    pub tests: bool,
    /// Test only these benches.
    pub bench: Vec<String>,
    /// Test all benches.
    pub benches: bool,
    /// Test all targets.
    pub all_targets: bool,
    /// Test only the documentation.
    pub doc: bool,
    /// Test these packages.
    pub package: Vec<String>,
    /// Test all packages of the workspace.
    pub workspace: bool,
    /// Leave these packages out of the tests and of the report.
    pub exclude: Vec<String>,
    /// Leave these packages out of the tests.
    pub exclude_from_test: Vec<String>,
    /// Leave these packages out of the report.
    pub exclude_from_report: Vec<String>,
    /// The options of the build.
    pub build: BuildOptions,
    /// The options that locate the manifest.
    pub manifest: ManifestOptions,
    /// The arguments for the wrapped build tool.
    pub cargo_args: Vec<String>,
    /// The arguments behind the first bare `--`, untouched.
    pub rest: Vec<String>,
}

impl Args {
    /// Whether this configuration is the one that the gathered options `d`
    /// and the trailing arguments `rest` amount to: every field holds what
    /// its option was given. This fixes every field.
    pub open spec fn reflects(&self, d: DraftView, rest: Seq<Seq<char>>) -> bool {
        &&& self.subcommand == d.subcommand()
        &&& self.cov.json == d.switches.contains(Switch::Json)
        &&& self.cov.lcov == d.switches.contains(Switch::Lcov)
        &&& self.cov.text == d.switches.contains(Switch::Text)
        &&& self.cov.html == d.switches.contains(Switch::Html)
        &&& self.cov.open == d.switches.contains(Switch::Open)
        &&& self.cov.summary_only == d.switches.contains(Switch::SummaryOnly)
        &&& path_of(self.cov.output_path) == d.text_at(Single::OutputPath)
        &&& path_of(self.cov.output_dir) == d.text_at(Single::OutputDir)
        &&& text_of(self.cov.failure_mode) == d.text_at(Single::FailureMode)
        &&& text_of(self.cov.ignore_filename_regex) == d.text_at(Single::IgnoreFilenameRegex)
        &&& self.cov.disable_default_ignore_filename_regex == d.switches.contains(
            Switch::DisableDefaultIgnoreFilenameRegex,
        )
        &&& self.cov.hide_instantiations == d.switches.contains(Switch::HideInstantiations)
        &&& self.cov.no_cfg_coverage == d.switches.contains(Switch::NoCfgCoverage)
        &&& self.cov.no_cfg_coverage_nightly == d.switches.contains(Switch::NoCfgCoverageNightly)
        &&& self.cov.no_report == d.switches.contains(Switch::NoReport)
        &&& text_of(self.cov.fail_under_lines) == d.text_at(Single::FailUnderLines)
        &&& self.cov.fail_uncovered_lines == d.number_at(Single::FailUncoveredLines)
        &&& self.cov.fail_uncovered_regions == d.number_at(Single::FailUncoveredRegions)
        &&& self.cov.fail_uncovered_functions == d.number_at(Single::FailUncoveredFunctions)
        &&& self.cov.show_missing_lines == d.switches.contains(Switch::ShowMissingLines)
        &&& self.cov.include_build_script == d.switches.contains(Switch::IncludeBuildScript)
        &&& self.doctests == d.switches.contains(Switch::Doctests)
        &&& self.no_run == d.switches.contains(Switch::NoRun)
        &&& self.no_fail_fast == d.switches.contains(Switch::NoFailFast)
        &&& self.ignore_run_fail == d.switches.contains(Switch::IgnoreRunFail)
        &&& self.lib == d.switches.contains(Switch::Lib)
        &&& texts(self.bin@) == d.multis[Multi::Bin]
        &&& self.bins == d.switches.contains(Switch::Bins)
        &&& texts(self.example@) == d.multis[Multi::Example]
        &&& self.examples == d.switches.contains(Switch::Examples)
        &&& texts(self.test@) == d.multis[Multi::Test]
        &&& self.tests == d.switches.contains(Switch::Tests)
        &&& texts(self.bench@) == d.multis[Multi::Bench]
        &&& self.benches == d.switches.contains(Switch::Benches)
        &&& self.all_targets == d.switches.contains(Switch::AllTargets)
        &&& self.doc == d.switches.contains(Switch::Doc)
        &&& texts(self.package@) == d.multis[Multi::Package]
        &&& self.workspace == d.switches.contains(Switch::Workspace)
        &&& texts(self.exclude@) == d.multis[Multi::Exclude]
        &&& texts(self.exclude_from_test@) == d.multis[Multi::ExcludeFromTest]
        &&& texts(self.exclude_from_report@) == d.multis[Multi::ExcludeFromReport]
        &&& self.build.jobs == d.job_count()
        &&& self.build.release == d.switches.contains(Switch::Release)
        &&& text_of(self.build.profile) == d.text_at(Single::Profile)
        &&& text_of(self.build.target) == d.text_at(Single::Target)
        &&& self.build.coverage_target_only == d.switches.contains(Switch::CoverageTargetOnly)
        &&& self.build.verbose == capped(d.verbose)
        &&& self.build.color == d.color_at(Single::Color)
        &&& self.build.remap_path_prefix == d.switches.contains(Switch::RemapPathPrefix)
        &&& self.build.include_ffi == d.switches.contains(Switch::IncludeFfi)
        &&& path_of(self.manifest.manifest_path) == d.text_at(Single::ManifestPath)
        &&& texts(self.cargo_args@) == handed_on(d)
        &&& texts(self.rest@) == rest
    }

    /// Takes the options of the report out, and leaves the empty record.
    pub fn cov(&mut self) -> (r: LlvmCovOptions)
        ensures
            r == old(self).cov,
            *final(self) == (Args { cov: LlvmCovOptions::empty(), ..*old(self) }),
    {
        let mut taken = LlvmCovOptions::default();
        std::mem::swap(&mut self.cov, &mut taken);
        taken
    }

    /// Takes the options of the build out, and leaves the empty record.
    pub fn build(&mut self) -> (r: BuildOptions)
        ensures
            r == old(self).build,
            *final(self) == (Args { build: BuildOptions::empty(), ..*old(self) }),
    {
        let mut taken = BuildOptions::default();
        std::mem::swap(&mut self.build, &mut taken);
        taken
    }

    /// Takes the options of the manifest out, and leaves the empty record.
    pub fn manifest(&mut self) -> (r: ManifestOptions)
        ensures
            r == old(self).manifest,
            *final(self) == (Args { manifest: ManifestOptions::empty(), ..*old(self) }),
    {
        let mut taken = ManifestOptions::default();
        std::mem::swap(&mut self.manifest, &mut taken);
        taken
    }
}

/// How a parse ends when nothing is wrong.
#[derive(Debug)]
pub enum Outcome {
    /// The command line was read to its end.
    Run(Args),
    /// Help was asked for: with `--help` the long text, with `-h` the short
    /// one.
    Help { long: bool },
    /// The version was asked for.
    Version,
}

} // verus!
