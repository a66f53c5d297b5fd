//! Locates the most recently built binary or example of a package and
//! prepares the hand-off to `probe-rs attach`: it merges filter criteria
//! from the command line and the project configuration, walks a list of
//! candidate build artifacts, and extracts extra debugger arguments from a
//! configured runner command line.

use vstd::prelude::*;
use vstd::string::StringExecFns;

mod args;
mod conf;
mod locate;

pub use args::{Args, FilterSet, PackageTarget, TargetKind, default_names, default_target_names,
    is_runnable, lacks_build_table, lemma_no_build_table_no_default, opt_config_view,
    resolve_filters, spec_build_mode, spec_filter_names, spec_resolved_target};
pub use conf::{ConfigSource, ConfigValue, config_runner_candidates, entry_applies,
    entry_probe_args, entry_runner, find_build_target, find_probe_args, lemma_ambiguous_runners,
    lemma_load_idempotent, load_config, load_result, opt_str_view, parsed_config,
    probe_args_outcome, probe_prefix, source_text,
    runner_candidates, selector_applies, shell_words, spec_build_target, table_get, table_lookup,
    target_table_of};
pub use locate::{CandidateFile, candidate_matches, contains_name, find_executable,
    lemma_distinct_mtimes_strict, lemma_singleton_name_filter, spec_matches};

verus! {

/// The terminal failures of artifact resolution. Every variant carries
/// exactly the data its diagnostic line needs.
#[derive(Debug, PartialEq, Eq)]
pub enum AttachError {
    /// Both release-only and debug-only builds were requested.
    ConflictingModeFlags,
    /// Both a binary name and an example name were requested.
    ConflictingArtifactSelectors,
    /// The build metadata names no root package.
    PackageResolutionFailed,
    /// The configuration file at the given path exists but cannot be read.
    ConfigReadError(String),
    /// The configuration file at the given path is malformed.
    ConfigParseError(String),
    /// More than one configured runner directive applies.
    AmbiguousRunnerConfig,
    /// The matched runner line cannot be split into shell words.
    MalformedRunnerArguments,
    /// No artifact of the named package survived filtering.
    NoMatchingExecutable(String),
}

/// The single diagnostic line that each failure prints.
pub open spec fn error_message_spec(e: AttachError) -> Seq<char> {
    match e {
        AttachError::ConflictingModeFlags => "the release and debug flags may not be used together"@,
        AttachError::ConflictingArtifactSelectors => "the bin and example options may not be used together"@,
        AttachError::PackageResolutionFailed => "could not determine which package to use binaries from"@,
        AttachError::ConfigReadError(p) => "could not read "@ + p@,
        AttachError::ConfigParseError(p) => "could not parse "@ + p@,
        AttachError::AmbiguousRunnerConfig => "found more than one runner configuration"@,
        AttachError::MalformedRunnerArguments => "could not parse probe-rs arguments"@,
        AttachError::NoMatchingExecutable(pkg) => "no matching executable found for package "@ + pkg@,
    }
}

impl AttachError {
    /// Renders the diagnostic line for this failure.
    pub fn message(&self) -> (r: String)
        ensures
            r@ == error_message_spec(*self),
    {
        match self {
            AttachError::ConflictingModeFlags => String::from_str(
                "the release and debug flags may not be used together",
            ),
            AttachError::ConflictingArtifactSelectors => String::from_str(
                "the bin and example options may not be used together",
            ),
            AttachError::PackageResolutionFailed => String::from_str(
                "could not determine which package to use binaries from",
            ),
            AttachError::ConfigReadError(p) => {
                let mut s = String::from_str("could not read ");
                s.append(p.as_str());
                s
            },
            AttachError::ConfigParseError(p) => {
                let mut s = String::from_str("could not parse ");
                s.append(p.as_str());
                s
            },
            AttachError::AmbiguousRunnerConfig => String::from_str(
                "found more than one runner configuration",
            ),
            AttachError::MalformedRunnerArguments => String::from_str(
                "could not parse probe-rs arguments",
            ),
            AttachError::NoMatchingExecutable(pkg) => {
                let mut s = String::from_str("no matching executable found for package ");
                s.append(pkg.as_str());
                s
            },
        }
    }
}

/// What the package metadata supplies: the root package's name and its
/// declared build targets.
#[derive(Debug)]
pub struct PackageInfo {
    pub name: String,
    pub targets: Vec<PackageTarget>,
}

/// A resolved hand-off: the extra arguments to forward to the external
/// tool, and the index of the chosen candidate artifact.
#[derive(Debug)]
pub struct AttachPlan {
    pub probe_args: Vec<String>,
    pub executable: usize,
}

/// Whether resolution consults the configuration file: trailing arguments
/// together with an explicit target triple make it irrelevant.
pub open spec fn spec_wants_config(args: Args) -> bool {
    args.probe_args@.len() == 0 || args.target is None
}

/// The deterministic part of resolution: the filter views and the forwarded
/// arguments, or the first error on the way to them. Conflicting flags are
/// rejected before the configuration source is even considered.
pub open spec fn plan_inputs(args: Args, package: PackageInfo, source: ConfigSource) -> Result<
    (Seq<Seq<char>>, Option<Seq<char>>, Option<Seq<char>>, Seq<Seq<char>>),
    AttachError,
> {
    if args.release && args.debug {
        Err(AttachError::ConflictingModeFlags)
    } else if args.bin is Some && args.example is Some {
        Err(AttachError::ConflictingArtifactSelectors)
    } else {
        let loaded = if spec_wants_config(args) {
            load_result(source)
        } else {
            Ok(None)
        };
        match loaded {
            Err(e) => Err(e),
            Ok(config) => {
                let names = spec_filter_names(args, package.targets@);
                let mode = spec_build_mode(args);
                let tgt = spec_resolved_target(args, config);
                if args.probe_args@.len() > 0 {
                    Ok((names, mode, tgt, args.probe_args.deep_view()))
                } else {
                    match config {
                        Some(c) => match probe_args_outcome(c, tgt) {
                            Ok(words) => Ok((names, mode, tgt, words)),
                            Err(e) => Err(e),
                        },
                        None => Ok((names, mode, tgt, Seq::empty())),
                    }
                }
            },
        }
    }
}

/// Resolves the artifact to attach to and the arguments to forward: merges
/// the filters, reads the runner directives, and selects a matching
/// candidate of greatest modification time. Fails with the error of the
/// first stage that cannot proceed; finding no candidate is the
/// package-specific "no matching executable" error.
pub fn attach(
    args: Args,
    package: PackageInfo,
    config: ConfigSource,
    candidates: &Vec<CandidateFile>,
) -> (r: Result<AttachPlan, AttachError>)
    ensures
        match r {
            Ok(plan) => plan_inputs(args, package, config) matches Ok(p)
                && plan.probe_args.deep_view() == p.3 && (plan.executable as int)
                < candidates@.len() && spec_matches(
                candidates@[plan.executable as int],
                p.0,
                p.1,
                p.2,
            ) && forall|k: int|
                0 <= k < candidates@.len() && spec_matches(candidates@[k], p.0, p.1, p.2)
                    ==> candidates@[k].mtime <= candidates@[plan.executable as int].mtime,
            Err(e) => plan_inputs(args, package, config) == Err::<
                (Seq<Seq<char>>, Option<Seq<char>>, Option<Seq<char>>, Seq<Seq<char>>),
                AttachError,
            >(e) || (plan_inputs(args, package, config) matches Ok(p) && e matches
                AttachError::NoMatchingExecutable(pkg) && pkg@ == package.name@ && forall|k: int|
                0 <= k < candidates@.len() ==> !spec_matches(candidates@[k], p.0, p.1, p.2)),
        },
{
    if args.release && args.debug {
        return Err(AttachError::ConflictingModeFlags);
    }
    if args.bin.is_some() && args.example.is_some() {
        return Err(AttachError::ConflictingArtifactSelectors);
    }
    let wants = args.probe_args.is_empty() || args.target.is_none();
    let loaded = if wants {
        match load_config(config) {
            Ok(c) => c,
            Err(e) => return Err(e),
        }
    } else {
        None
    };
    let loaded_ref = loaded.as_ref();
    proof {
        assert(opt_config_view(loaded_ref) == loaded);
    }
    let filters = match resolve_filters(&args, &package.targets, loaded_ref) {
        Ok(f) => f,
        Err(e) => {
            return Err(e);
        },
    };
    let probe_args = if args.probe_args.is_empty() {
        match &loaded {
            Some(c) => match find_probe_args(c, filters.build_target.as_ref()) {
                Ok(v) => v,
                Err(e) => return Err(e),
            },
            None => {
                let empty: Vec<String> = Vec::new();
                assert(empty.deep_view() =~= Seq::<Seq<char>>::empty());
                empty
            },
        }
    } else {
        args.probe_args
    };
    match find_executable(candidates, &filters) {
        Some(idx) => Ok(AttachPlan { probe_args, executable: idx }),
        None => Err(AttachError::NoMatchingExecutable(package.name)),
    }
}

} // verus!
