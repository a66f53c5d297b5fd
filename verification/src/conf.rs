//! The project configuration tree and the lookups the resolver makes in it.
//!
//! The configuration file is parsed by an outside TOML parser; the tree it
//! yields is held here as a tagged value of plain strings, tables and
//! arrays, and every read accessor is forgiving: a missing key or an
//! unexpected shape yields "absent" rather than an error.

use vstd::prelude::*;
use vstd::string::StringExecFns;

use crate::AttachError;

verus! {

/// One value of the configuration tree: a string, a nested table of
/// key-value pairs, an array, or any other scalar (which no lookup reads).
#[derive(Debug, PartialEq, Eq)]
pub enum ConfigValue {
    Str(String),
    Table(Vec<(String, ConfigValue)>),
    Array(Vec<ConfigValue>),
    Other,
}

/// The tree that the outside TOML parser yields for a document, or `None`
/// when the document is malformed. The tree depends on the text alone.
pub uninterp spec fn parsed_config(text: Seq<char>) -> Option<ConfigValue>;

/// The first value bound to `key` among `entries`, if any. Parsed tables
/// bind each key at most once, so "first" is not a choice.
pub open spec fn table_lookup(entries: Seq<(String, ConfigValue)>, key: Seq<char>) -> Option<
    ConfigValue,
>
    decreases entries.len(),
{
    if entries.len() == 0 {
        None
    } else if entries[0].0@ == key {
        Some(entries[0].1)
    } else {
        table_lookup(entries.drop_first(), key)
    }
}

/// The string at `build.target` in the configuration, if that path holds one.
pub open spec fn spec_build_target(config: ConfigValue) -> Option<Seq<char>> {
    match config {
        ConfigValue::Table(entries) => match table_lookup(entries@, "build"@) {
            Some(ConfigValue::Table(build)) => match table_lookup(build@, "target"@) {
                Some(ConfigValue::Str(s)) => Some(s@),
                _ => None,
            },
            _ => None,
        },
        _ => None,
    }
}

/// How the configuration file presented itself when it was looked for:
/// absent, present but unreadable, or read in full. The first `String` of
/// the latter two is the path, for diagnostics; the second is the text.
pub enum ConfigSource {
    Absent,
    Unreadable(String),
    Present(String, String),
}

/// What loading a configuration source yields: no tree when the file is
/// absent, the parsed tree when it reads and parses, and otherwise the
/// error naming the path.
pub open spec fn load_result(source: ConfigSource) -> Result<Option<ConfigValue>, AttachError> {
    match source {
        ConfigSource::Absent => Ok(None),
        ConfigSource::Unreadable(path) => Err(AttachError::ConfigReadError(path)),
        ConfigSource::Present(path, text) => match parsed_config(text@) {
            Some(tree) => Ok(Some(tree)),
            None => Err(AttachError::ConfigParseError(path)),
        },
    }
}

/// The text a configuration source read, when it was readable.
pub open spec fn source_text(source: ConfigSource) -> Option<Seq<char>> {
    match source {
        ConfigSource::Present(_, text) => Some(text@),
        _ => None,
    }
}

/// Loading the same configuration file twice yields structurally equal
/// trees: the loaded tree is a function of the file's text alone.
pub proof fn lemma_load_idempotent(a: ConfigSource, b: ConfigSource)
    requires
        source_text(a) is Some,
        source_text(a) == source_text(b),
    ensures
        match (load_result(a), load_result(b)) {
            (Ok(t1), Ok(t2)) => t1 == t2,
            (Err(e1), Err(e2)) => e1 is ConfigParseError && e2 is ConfigParseError,
            _ => false,
        },
{
}

/// Relies on `toml::Table`'s `FromStr` impl: whether a document parses, and
/// the table it denotes, depend on its text alone.
#[verifier::external_body]
fn parse_config(text: &str) -> (r: Option<ConfigValue>)
    ensures
        r == parsed_config(text@),
{
    text.parse::<toml::Table>().ok().map(|t| config_of_toml(toml::Value::Table(t)))
}

#[verifier::external_type_specification]
#[verifier::external_body]
pub struct ExTomlValue(toml::Value);

/// Relies on `toml::Value`: copies the parsed document into the library's
/// tree, variant by variant; scalars other than strings become `Other`.
#[verifier::external_body]
fn config_of_toml(v: toml::Value) -> ConfigValue {
    match v {
        toml::Value::String(s) => ConfigValue::Str(s),
        toml::Value::Table(t) => ConfigValue::Table(
            t.into_iter().map(|(k, x)| (k, config_of_toml(x))).collect(),
        ),
        toml::Value::Array(a) => ConfigValue::Array(a.into_iter().map(config_of_toml).collect()),
        _ => ConfigValue::Other,
    }
}

/// Turns what the file system reported into the configuration tree, or the
/// read or parse error for the path: absence of the file is not an error.
pub fn load_config(source: ConfigSource) -> (r: Result<Option<ConfigValue>, AttachError>)
    ensures
        r == load_result(source),
{
    match source {
        ConfigSource::Absent => Ok(None),
        ConfigSource::Unreadable(path) => Err(AttachError::ConfigReadError(path)),
        ConfigSource::Present(path, text) => match parse_config(text.as_str()) {
            Some(tree) => Ok(Some(tree)),
            None => Err(AttachError::ConfigParseError(path)),
        },
    }
}

/// The first value bound to `key` in `entries`, by exact string equality.
pub fn table_get<'a>(entries: &'a Vec<(String, ConfigValue)>, key: &String) -> (r: Option<
    &'a ConfigValue,
>)
    ensures
        match r {
            Some(v) => table_lookup(entries@, key@) == Some(*v),
            None => table_lookup(entries@, key@) is None,
        },
{
    let n = entries.len();
    assert(entries@.skip(0) =~= entries@);
    for i in 0..n
        invariant
            n == entries@.len(),
            table_lookup(entries@, key@) == table_lookup(entries@.skip(i as int), key@),
    {
        let ghost rest = entries@.skip(i as int);
        assert(rest[0] == entries@[i as int]);
        if entries[i].0 == *key {
            return Some(&entries[i].1);
        }
        assert(rest.drop_first() =~= entries@.skip(i + 1));
    }
    assert(entries@.skip(n as int) =~= Seq::<(String, ConfigValue)>::empty());
    None
}

/// Whether a runner selector applies to a target triple. A selector that
/// parses as a platform pattern applies exactly when the pattern matches
/// the triple; one that does not parse cannot be definitively excluded, so
/// it applies to every triple.
pub uninterp spec fn selector_applies(selector: Seq<char>, target: Seq<char>) -> bool;

/// Relies on `cargo_platform::Platform`: parsing a selector and matching it
/// against a triple depend on the two strings alone.
#[verifier::external_body]
fn selector_matches_target(selector: &str, target: &str) -> (r: bool)
    ensures
        r == selector_applies(selector@, target@),
{
    match selector.parse::<cargo_platform::Platform>() {
        Ok(platform) => platform.matches(target, &[]),
        Err(_) => true,
    }
}

/// The shell words a command line splits into, or `None` when its quoting
/// is unbalanced. The split depends on the line alone.
pub uninterp spec fn shell_words(line: Seq<char>) -> Option<Seq<Seq<char>>>;

/// Relies on `shlex::split`: shell-style word splitting of the runner line.
#[verifier::external_body]
fn split_shell_words(line: &str) -> (r: Option<Vec<String>>)
    ensures
        match r {
            Some(words) => shell_words(line@) == Some(words.deep_view()),
            None => shell_words(line@) is None,
        },
{
    shlex::split(line)
}

/// The literal prefix that marks a runner line as a probe-rs invocation.
pub open spec fn probe_prefix() -> Seq<char> {
    "probe-rs run "@
}

/// The runner line with the probe-rs prefix removed, when it carries it.
fn strip_probe_prefix<'a>(runner: &'a str) -> (r: Option<&'a str>)
    ensures
        match r {
            Some(rest) => probe_prefix().is_prefix_of(runner@) && rest@ == runner@.skip(
                probe_prefix().len() as int,
            ),
            None => !probe_prefix().is_prefix_of(runner@),
        },
{
    let prefix = "probe-rs run ";
    proof {
        reveal_strlit("probe-rs run ");
    }
    let n = runner.unicode_len();
    if n < 13 {
        return None;
    }
    for i in 0..13usize
        invariant
            n == runner@.len(),
            n >= 13,
            prefix@ == probe_prefix(),
            prefix@.len() == 13,
            forall|k: int| 0 <= k < i ==> runner@[k] == probe_prefix()[k],
    {
        if runner.get_char(i) != prefix.get_char(i) {
            proof {
                if probe_prefix().is_prefix_of(runner@) {
                    assert(probe_prefix()[i as int] == runner@.subrange(
                        0,
                        probe_prefix().len() as int,
                    )[i as int]);
                }
            }
            return None;
        }
    }
    let rest = runner.substring_char(13, n);
    proof {
        assert(probe_prefix() =~= runner@.subrange(0, 13));
        assert(rest@ =~= runner@.skip(13));
    }
    Some(rest)
}

/// Whether one `target` table entry's selector applies under the optional
/// target-triple constraint: with no constraint, every entry applies.
pub open spec fn entry_applies(entry: (String, ConfigValue), target: Option<Seq<char>>) -> bool {
    match target {
        None => true,
        Some(t) => selector_applies(entry.0@, t),
    }
}

/// The `runner` string of one `target` table entry, if the entry is a
/// table holding one.
pub open spec fn entry_runner(value: ConfigValue) -> Option<Seq<char>> {
    match value {
        ConfigValue::Table(t) => match table_lookup(t@, "runner"@) {
            Some(ConfigValue::Str(s)) => Some(s@),
            _ => None,
        },
        _ => None,
    }
}

/// The forwarded arguments one entry contributes: its runner line stripped
/// of the probe-rs prefix, when the selector applies and the line carries
/// the prefix.
pub open spec fn entry_probe_args(entry: (String, ConfigValue), target: Option<Seq<char>>) -> Option<
    Seq<char>,
> {
    if entry_applies(entry, target) {
        match entry_runner(entry.1) {
            Some(line) => if probe_prefix().is_prefix_of(line) {
                Some(line.skip(probe_prefix().len() as int))
            } else {
                None
            },
            None => None,
        }
    } else {
        None
    }
}

/// The stripped runner lines of all applicable entries, in table order.
pub open spec fn runner_candidates(
    entries: Seq<(String, ConfigValue)>,
    target: Option<Seq<char>>,
) -> Seq<Seq<char>>
    decreases entries.len(),
{
    if entries.len() == 0 {
        Seq::empty()
    } else {
        runner_candidates(entries.drop_last(), target) + match entry_probe_args(
            entries.last(),
            target,
        ) {
            Some(line) => seq![line],
            None => Seq::empty(),
        }
    }
}

/// The entries of the configuration's `target` table, if it holds one.
pub open spec fn target_table_of(config: ConfigValue) -> Option<Seq<(String, ConfigValue)>> {
    match config {
        ConfigValue::Table(entries) => match table_lookup(entries@, "target"@) {
            Some(ConfigValue::Table(ts)) => Some(ts@),
            _ => None,
        },
        _ => None,
    }
}

/// The stripped runner lines that the whole configuration offers.
pub open spec fn config_runner_candidates(config: ConfigValue, target: Option<Seq<char>>) -> Seq<
    Seq<char>,
> {
    match target_table_of(config) {
        Some(ts) => runner_candidates(ts, target),
        None => Seq::empty(),
    }
}

/// What runner-argument extraction yields: ambiguity when several runner
/// directives apply, the shell words of the single one otherwise, and the
/// empty list when none applies.
pub open spec fn probe_args_outcome(config: ConfigValue, target: Option<Seq<char>>) -> Result<
    Seq<Seq<char>>,
    AttachError,
> {
    let cands = config_runner_candidates(config, target);
    if cands.len() > 1 {
        Err(AttachError::AmbiguousRunnerConfig)
    } else if cands.len() == 1 {
        match shell_words(cands[0]) {
            Some(words) => Ok(words),
            None => Err(AttachError::MalformedRunnerArguments),
        }
    } else {
        Ok(Seq::empty())
    }
}

/// The view of an optional borrowed string.
pub open spec fn opt_str_view(o: Option<&String>) -> Option<Seq<char>> {
    match o {
        Some(s) => Some(s@),
        None => None,
    }
}

/// Extracts the extra arguments for the external tool from the runner
/// directives of the configuration's `target` table.
pub fn find_probe_args(config: &ConfigValue, build_target: Option<&String>) -> (r: Result<
    Vec<String>,
    AttachError,
>)
    ensures
        match r {
            Ok(v) => probe_args_outcome(*config, opt_str_view(build_target)) == Ok::<
                Seq<Seq<char>>,
                AttachError,
            >(v.deep_view()),
            Err(e) => probe_args_outcome(*config, opt_str_view(build_target)) == Err::<
                Seq<Seq<char>>,
                AttachError,
            >(e),
        },
{
    let ghost tgt = opt_str_view(build_target);
    let target_key = String::from_str("target");
    let runner_key = String::from_str("runner");
    let entries_opt = match config {
        ConfigValue::Table(entries) => match table_get(entries, &target_key) {
            Some(ConfigValue::Table(ts)) => Some(ts),
            _ => None,
        },
        _ => None,
    };
    let entries = match entries_opt {
        Some(entries) => entries,
        None => {
            assert(config_runner_candidates(*config, tgt) =~= Seq::<Seq<char>>::empty());
            let empty: Vec<String> = Vec::new();
            assert(empty.deep_view() =~= Seq::<Seq<char>>::empty());
            return Ok(empty);
        },
    };
    assert(target_table_of(*config) == Some(entries@));
    let n = entries.len();
    let mut found: Vec<&str> = Vec::new();
    assert(entries@.take(0) =~= Seq::<(String, ConfigValue)>::empty());
    for i in 0..n
        invariant
            n == entries@.len(),
            tgt == opt_str_view(build_target),
            runner_key@ == "runner"@,
            found.deep_view() == runner_candidates(entries@.take(i as int), tgt),
    {
        let entry = &entries[i];
        let applies = match build_target {
            None => true,
            Some(t) => selector_matches_target(entry.0.as_str(), t.as_str()),
        };
        let contribution: Option<&str> = if applies {
            match &entry.1 {
                ConfigValue::Table(sub) => match table_get(sub, &runner_key) {
                    Some(ConfigValue::Str(runner)) => strip_probe_prefix(runner.as_str()),
                    _ => None,
                },
                _ => None,
            }
        } else {
            None
        };
        let ghost old_found = found.deep_view();
        match contribution {
            Some(rest) => {
                assert(entry_probe_args(entries@[i as int], tgt) == Some(rest@));
                found.push(rest);
                assert(found.deep_view() =~= old_found + seq![rest@]);
            },
            None => {
                assert(entry_probe_args(entries@[i as int], tgt) is None);
            },
        }
        proof {
            assert(entries@.take(i + 1).drop_last() =~= entries@.take(i as int));
            assert(entries@.take(i + 1).last() == entries@[i as int]);
            assert(found.deep_view() =~= runner_candidates(entries@.take(i + 1), tgt));
        }
    }
    assert(entries@.take(n as int) =~= entries@);
    let ghost cands = config_runner_candidates(*config, tgt);
    assert(cands == found.deep_view());
    if found.len() > 1 {
        return Err(AttachError::AmbiguousRunnerConfig);
    }
    if found.len() == 1 {
        let line = found[0];
        assert(line@ == cands[0]);
        return match split_shell_words(line) {
            Some(words) => Ok(words),
            None => Err(AttachError::MalformedRunnerArguments),
        };
    }
    let empty: Vec<String> = Vec::new();
    assert(empty.deep_view() =~= Seq::<Seq<char>>::empty());
    Ok(empty)
}

/// An applicable probe-rs runner entry contributes a candidate.
proof fn lemma_runner_candidates_lower_bound(
    entries: Seq<(String, ConfigValue)>,
    target: Option<Seq<char>>,
    i: int,
)
    requires
        0 <= i < entries.len(),
        entry_probe_args(entries[i], target) is Some,
    ensures
        runner_candidates(entries, target).len() >= 1,
    decreases entries.len(),
{
    if i < entries.len() - 1 {
        assert(entries.drop_last()[i] == entries[i]);
        lemma_runner_candidates_lower_bound(entries.drop_last(), target, i);
    }
}

proof fn lemma_two_runner_candidates(
    entries: Seq<(String, ConfigValue)>,
    target: Option<Seq<char>>,
    i: int,
    j: int,
)
    requires
        0 <= i < j < entries.len(),
        entry_probe_args(entries[i], target) is Some,
        entry_probe_args(entries[j], target) is Some,
    ensures
        runner_candidates(entries, target).len() >= 2,
    decreases entries.len(),
{
    assert(entries.drop_last()[i] == entries[i]);
    if j == entries.len() - 1 {
        lemma_runner_candidates_lower_bound(entries.drop_last(), target, i);
    } else {
        assert(entries.drop_last()[j] == entries[j]);
        lemma_two_runner_candidates(entries.drop_last(), target, i, j);
    }
}

/// Two entries of the `target` table whose selectors both apply and whose
/// runner lines both carry the probe-rs prefix always make extraction fail
/// with the ambiguity error.
pub proof fn lemma_ambiguous_runners(
    config: ConfigValue,
    target: Option<Seq<char>>,
    i: int,
    j: int,
)
    requires
        target_table_of(config) is Some,
        0 <= i < j < target_table_of(config).unwrap().len(),
        entry_probe_args(target_table_of(config).unwrap()[i], target) is Some,
        entry_probe_args(target_table_of(config).unwrap()[j], target) is Some,
    ensures
        probe_args_outcome(config, target) == Err::<Seq<Seq<char>>, AttachError>(
            AttachError::AmbiguousRunnerConfig,
        ),
{
    lemma_two_runner_candidates(target_table_of(config).unwrap(), target, i, j);
}

/// The default build target declared in the configuration at `build.target`.
pub fn find_build_target(config: &ConfigValue) -> (r: Option<String>)
    ensures
        r.deep_view() == spec_build_target(*config),
{
    let build_key = String::from_str("build");
    let target_key = String::from_str("target");
    match config {
        ConfigValue::Table(entries) => match table_get(entries, &build_key) {
            Some(ConfigValue::Table(build)) => match table_get(build, &target_key) {
                Some(ConfigValue::Str(s)) => Some(s.clone()),
                _ => None,
            },
            _ => None,
        },
        _ => None,
    }
}

} // verus!
