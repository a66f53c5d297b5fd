//! Command-line arguments and the filter set resolved from them.
//!
//! The filter resolver combines the explicit flags with configuration
//! defaults: an explicit target triple beats the configured one, and an
//! explicit binary or example name replaces the package's declared set.

use vstd::prelude::*;
use vstd::string::StringExecFns;

use crate::AttachError;
use crate::conf::{ConfigValue, find_build_target, spec_build_target};

verus! {

/// The recognized command-line surface: the mode switches, the optional
/// target triple, the optional binary or example name, and the trailing
/// arguments that replace configuration-derived runner arguments.
#[derive(Debug)]
pub struct Args {
    /// Only consider release builds.
    pub release: bool,
    /// Only consider debug builds.
    pub debug: bool,
    /// Only consider builds for the given target triple.
    pub target: Option<String>,
    /// Attach to the named binary.
    pub bin: Option<String>,
    /// Attach to the named example.
    pub example: Option<String>,
    /// Arguments to pass to probe-rs.
    pub probe_args: Vec<String>,
}

/// The kind tag of a declared build target, as the package metadata
/// distinguishes runnable artifacts from libraries, tests and the rest.
#[derive(Debug, Clone, Copy, PartialEq, Eq)]
pub enum TargetKind {
    Binary,
    Example,
    Other,
}

/// One declared build target of the package.
#[derive(Debug)]
pub struct PackageTarget {
    pub name: String,
    pub kind: TargetKind,
}

/// The normalized filter set that artifact location applies.
#[derive(Debug)]
pub struct FilterSet {
    /// Artifact base names to match; empty only when the package declares
    /// no runnable target and none was named explicitly.
    pub names: Vec<String>,
    /// `release` or `debug`, when one of the mode switches constrains it.
    pub build_mode: Option<String>,
    /// The target triple constraint, explicit or configured.
    pub build_target: Option<String>,
}

/// Whether a declared target is a runnable artifact.
pub open spec fn is_runnable(t: PackageTarget) -> bool {
    t.kind == TargetKind::Binary || t.kind == TargetKind::Example
}

/// The names of the package's declared binaries and examples, in order.
pub open spec fn default_names(targets: Seq<PackageTarget>) -> Seq<Seq<char>>
    decreases targets.len(),
{
    if targets.len() == 0 {
        Seq::empty()
    } else {
        default_names(targets.drop_last()) + if is_runnable(targets.last()) {
            seq![targets.last().name@]
        } else {
            Seq::empty()
        }
    }
}

/// The artifact-name set the filters use: the explicitly named binary or
/// example as a singleton, or else every declared runnable target.
pub open spec fn spec_filter_names(args: Args, targets: Seq<PackageTarget>) -> Seq<Seq<char>> {
    match args.bin {
        Some(b) => seq![b@],
        None => match args.example {
            Some(e) => seq![e@],
            None => default_names(targets),
        },
    }
}

/// The build-mode constraint the mode switches request.
pub open spec fn spec_build_mode(args: Args) -> Option<Seq<char>> {
    if args.release {
        Some("release"@)
    } else if args.debug {
        Some("debug"@)
    } else {
        None
    }
}

/// The configuration tree behind an optional borrow.
pub open spec fn opt_config_view(config: Option<&ConfigValue>) -> Option<ConfigValue> {
    match config {
        Some(c) => Some(*c),
        None => None,
    }
}

/// The target-triple constraint: the explicit one, else the configured
/// default at `build.target`, else none.
pub open spec fn spec_resolved_target(args: Args, config: Option<ConfigValue>) -> Option<Seq<char>> {
    match args.target {
        Some(t) => Some(t@),
        None => match config {
            Some(c) => spec_build_target(c),
            None => None,
        },
    }
}

/// Whether a configuration tree offers no `build` table at all.
pub open spec fn lacks_build_table(config: ConfigValue) -> bool {
    match config {
        ConfigValue::Table(entries) => crate::conf::table_lookup(entries@, "build"@) is None,
        _ => true,
    }
}

/// A configuration without a `build` table never supplies a default build
/// target: resolution yields exactly what the command line supplied.
pub proof fn lemma_no_build_table_no_default(args: Args, config: ConfigValue)
    requires
        lacks_build_table(config),
    ensures
        spec_resolved_target(args, Some(config)) == args.target.deep_view(),
{
}

/// The names of the package's declared binaries and examples.
pub fn default_target_names(targets: &Vec<PackageTarget>) -> (r: Vec<String>)
    ensures
        r.deep_view() == default_names(targets@),
{
    let mut names: Vec<String> = Vec::new();
    let n = targets.len();
    assert(targets@.take(0) =~= Seq::<PackageTarget>::empty());
    assert(names.deep_view() =~= Seq::<Seq<char>>::empty());
    for i in 0..n
        invariant
            n == targets@.len(),
            names.deep_view() == default_names(targets@.take(i as int)),
    {
        let t = &targets[i];
        let runnable = match t.kind {
            TargetKind::Binary => true,
            TargetKind::Example => true,
            TargetKind::Other => false,
        };
        let ghost old_names = names.deep_view();
        if runnable {
            names.push(t.name.clone());
            assert(names.deep_view() =~= old_names + seq![t.name@]);
        }
        proof {
            assert(targets@.take(i + 1).drop_last() =~= targets@.take(i as int));
            assert(targets@.take(i + 1).last() == targets@[i as int]);
            assert(names.deep_view() =~= default_names(targets@.take(i + 1)));
        }
    }
    assert(targets@.take(n as int) =~= targets@);
    names
}

/// A one-element name set.
fn singleton_name(name: &String) -> (r: Vec<String>)
    ensures
        r.deep_view() =~= seq![name@],
{
    let mut v: Vec<String> = Vec::new();
    v.push(name.clone());
    assert(v.deep_view() =~= seq![name@]);
    v
}

/// Combines the explicit filters with the configuration-derived defaults
/// into one normalized filter set; conflicting mode switches or artifact
/// selectors are user errors, reported before resolution proceeds.
pub fn resolve_filters(args: &Args, targets: &Vec<PackageTarget>, config: Option<&ConfigValue>) -> (r:
    Result<FilterSet, AttachError>)
    ensures
        match r {
            Ok(f) => !(args.release && args.debug) && !(args.bin is Some && args.example is Some)
                && f.names.deep_view() == spec_filter_names(*args, targets@)
                && f.build_mode.deep_view() == spec_build_mode(*args)
                && f.build_target.deep_view() == spec_resolved_target(
                *args,
                opt_config_view(config),
            ),
            Err(e) => (e == AttachError::ConflictingModeFlags && args.release && args.debug) || (e
                == AttachError::ConflictingArtifactSelectors && !(args.release && args.debug)
                && args.bin is Some && args.example is Some),
        },
{
    if args.release && args.debug {
        return Err(AttachError::ConflictingModeFlags);
    }
    if args.bin.is_some() && args.example.is_some() {
        return Err(AttachError::ConflictingArtifactSelectors);
    }
    let names = match &args.bin {
        Some(b) => singleton_name(b),
        None => match &args.example {
            Some(e) => singleton_name(e),
            None => default_target_names(targets),
        },
    };
    let build_mode = if args.release {
        Some(String::from_str("release"))
    } else if args.debug {
        Some(String::from_str("debug"))
    } else {
        None
    };
    let build_target = match &args.target {
        Some(t) => Some(t.clone()),
        None => match config {
            Some(c) => find_build_target(c),
            None => None,
        },
    };
    Ok(FilterSet { names, build_mode, build_target })
}

} // verus!
