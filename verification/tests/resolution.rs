use cargo_attach::{
    attach, find_build_target, find_executable, find_probe_args, load_config, resolve_filters,
    Args, AttachError, CandidateFile, ConfigSource, ConfigValue, FilterSet, PackageInfo,
    PackageTarget, TargetKind,
};

fn s(x: &str) -> String {
    x.to_string()
}

fn strings(xs: &[&str]) -> Vec<String> {
    xs.iter().map(|x| x.to_string()).collect()
}

fn no_args() -> Args {
    Args {
        release: false,
        debug: false,
        target: None,
        bin: None,
        example: None,
        probe_args: Vec::new(),
    }
}

fn candidate(name: &str, dirs: &[&str], mtime: u64) -> CandidateFile {
    CandidateFile {
        name: s(name),
        dir_components: strings(dirs),
        mtime,
    }
}

fn filters(names: &[&str], mode: Option<&str>, target: Option<&str>) -> FilterSet {
    FilterSet {
        names: strings(names),
        build_mode: mode.map(s),
        build_target: target.map(s),
    }
}

fn load_text(text: &str) -> ConfigValue {
    load_config(ConfigSource::Present(s("config.toml"), s(text)))
        .unwrap()
        .unwrap()
}

#[test]
fn build_target_absent_without_build_table() {
    let tree = load_text("[target.thumbv7em-none-eabihf]\nrunner = \"probe-rs run --chip STM32\"\n");
    assert_eq!(find_build_target(&tree), None);
}

#[test]
fn build_target_read_from_build_table() {
    let tree = load_text("[build]\ntarget = \"riscv32imac-unknown-none-elf\"\n");
    assert_eq!(
        find_build_target(&tree),
        Some(s("riscv32imac-unknown-none-elf"))
    );
}

#[test]
fn explicit_target_beats_configured_default() {
    let tree = load_text("[build]\ntarget = \"riscv32imac-unknown-none-elf\"\n");
    let mut args = no_args();
    args.target = Some(s("thumbv7em-none-eabihf"));
    let f = resolve_filters(&args, &Vec::new(), Some(&tree)).unwrap();
    assert_eq!(f.build_target, Some(s("thumbv7em-none-eabihf")));
}

#[test]
fn no_build_table_means_no_target_constraint() {
    let tree = load_text("[profile]\nlto = true\n");
    let f = resolve_filters(&no_args(), &Vec::new(), Some(&tree)).unwrap();
    assert_eq!(f.build_target, None);
}

#[test]
fn config_loads_to_equal_trees_twice() {
    let text = "[build]\ntarget = \"thumbv7em-none-eabihf\"\n[target.a]\nrunner = \"x\"\n";
    let first = load_config(ConfigSource::Present(s("p"), s(text)));
    let second = load_config(ConfigSource::Present(s("p"), s(text)));
    assert_eq!(first, second);
}

#[test]
fn missing_config_is_not_an_error() {
    assert_eq!(load_config(ConfigSource::Absent), Ok(None));
}

#[test]
fn unreadable_config_is_a_read_error() {
    let r = load_config(ConfigSource::Unreadable(s("/proj/.cargo/config.toml")));
    assert_eq!(
        r,
        Err(AttachError::ConfigReadError(s("/proj/.cargo/config.toml")))
    );
    assert_eq!(
        r.unwrap_err().message(),
        "could not read /proj/.cargo/config.toml"
    );
}

#[test]
fn malformed_config_is_a_parse_error() {
    let r = load_config(ConfigSource::Present(s("c.toml"), s("not = [valid")));
    assert_eq!(r, Err(AttachError::ConfigParseError(s("c.toml"))));
    assert_eq!(r.unwrap_err().message(), "could not parse c.toml");
}

#[test]
fn locator_ignores_other_names_with_singleton_filter() {
    let cands = vec![
        candidate("other", &["release"], 50),
        candidate("app", &["debug"], 10),
        candidate("helper", &["debug"], 99),
    ];
    let f = filters(&["app"], None, None);
    let idx = find_executable(&cands, &f).unwrap();
    assert_eq!(cands[idx].name, "app");
}

#[test]
fn locator_picks_strictly_greatest_mtime() {
    let cands = vec![
        candidate("app", &["debug"], 10),
        candidate("app", &["release"], 30),
        candidate("app", &["older"], 20),
    ];
    let f = filters(&["app"], None, None);
    assert_eq!(find_executable(&cands, &f), Some(1));
}

#[test]
fn locator_tie_is_some_maximal_candidate() {
    let cands = vec![
        candidate("app", &["debug"], 30),
        candidate("app", &["release"], 30),
    ];
    let f = filters(&["app"], None, None);
    let idx = find_executable(&cands, &f).unwrap();
    assert_eq!(cands[idx].mtime, 30);
}

#[test]
fn locator_with_no_filters_prefers_newer_release() {
    let cands = vec![
        candidate("app", &["debug"], 100),
        candidate("app", &["release"], 200),
    ];
    let f = filters(&["app"], None, None);
    assert_eq!(find_executable(&cands, &f), Some(1));
}

#[test]
fn locator_honors_debug_mode_over_recency() {
    let cands = vec![
        candidate("app", &["debug"], 100),
        candidate("app", &["release"], 200),
    ];
    let f = filters(&["app"], Some("debug"), None);
    assert_eq!(find_executable(&cands, &f), Some(0));
}

#[test]
fn locator_matches_mode_and_triple_in_any_order() {
    let cands = vec![
        candidate("app", &["thumbv7em-none-eabihf", "release"], 10),
        candidate("app", &["release"], 90),
    ];
    let f = filters(&["app"], Some("release"), Some("thumbv7em-none-eabihf"));
    assert_eq!(find_executable(&cands, &f), Some(0));
}

#[test]
fn locator_finds_nothing_with_empty_name_set() {
    let cands = vec![candidate("app", &["release"], 10)];
    let f = filters(&[], None, None);
    assert_eq!(find_executable(&cands, &f), None);
}

#[test]
fn extractor_returns_chip_arguments_for_matching_triple() {
    let tree = load_text("[target.thumbv7em-none-eabihf]\nrunner = \"probe-rs run --chip STM32\"\n");
    let target = s("thumbv7em-none-eabihf");
    let r = find_probe_args(&tree, Some(&target));
    assert_eq!(r, Ok(strings(&["--chip", "STM32"])));
}

#[test]
fn extractor_excludes_selectors_for_other_triples() {
    let tree = load_text(
        "[target.thumbv7em-none-eabihf]\nrunner = \"probe-rs run --chip STM32\"\n\
         [target.x86_64-unknown-linux-gnu]\nrunner = \"probe-rs run --chip OTHER\"\n",
    );
    let target = s("thumbv7em-none-eabihf");
    let r = find_probe_args(&tree, Some(&target));
    assert_eq!(r, Ok(strings(&["--chip", "STM32"])));
}

#[test]
fn extractor_two_unconstrained_runners_are_ambiguous() {
    let tree = load_text(
        "[target.a]\nrunner = \"probe-rs run --chip A\"\n\
         [target.b]\nrunner = \"probe-rs run --chip B\"\n",
    );
    let r = find_probe_args(&tree, None);
    assert_eq!(r, Err(AttachError::AmbiguousRunnerConfig));
    assert_eq!(
        r.unwrap_err().message(),
        "found more than one runner configuration"
    );
}

#[test]
fn extractor_two_selectors_matching_one_triple_are_ambiguous() {
    let tree = load_text(
        "[target.thumbv7em-none-eabihf]\nrunner = \"probe-rs run --chip A\"\n\
         [target.'cfg(all())']\nrunner = \"probe-rs run --chip B\"\n",
    );
    let target = s("thumbv7em-none-eabihf");
    let r = find_probe_args(&tree, Some(&target));
    assert_eq!(r, Err(AttachError::AmbiguousRunnerConfig));
}

#[test]
fn extractor_ignores_runners_without_probe_prefix() {
    let tree = load_text(
        "[target.a]\nrunner = \"cargo run\"\n\
         [target.b]\nrunner = \"probe-rs attach --chip C\"\n",
    );
    assert_eq!(find_probe_args(&tree, None), Ok(Vec::new()));
}

#[test]
fn extractor_honors_shell_quoting() {
    let tree = load_text("[target.a]\nrunner = \"probe-rs run --chip 'STM32 F4' --speed 24000\"\n");
    assert_eq!(
        find_probe_args(&tree, None),
        Ok(vec![s("--chip"), s("STM32 F4"), s("--speed"), s("24000")])
    );
}

#[test]
fn extractor_rejects_unbalanced_quoting() {
    let tree = load_text("[target.a]\nrunner = \"probe-rs run --chip 'STM32\"\n");
    let r = find_probe_args(&tree, None);
    assert_eq!(r, Err(AttachError::MalformedRunnerArguments));
    assert_eq!(
        r.unwrap_err().message(),
        "could not parse probe-rs arguments"
    );
}

#[test]
fn extractor_without_target_table_yields_nothing() {
    let tree = load_text("[build]\ntarget = \"a\"\n");
    assert_eq!(find_probe_args(&tree, None), Ok(Vec::new()));
}

#[test]
fn resolve_names_default_to_declared_binaries_and_examples() {
    let targets = vec![
        PackageTarget { name: s("app"), kind: TargetKind::Binary },
        PackageTarget { name: s("mylib"), kind: TargetKind::Other },
        PackageTarget { name: s("demo"), kind: TargetKind::Example },
    ];
    let f = resolve_filters(&no_args(), &targets, None).unwrap();
    assert_eq!(f.names, strings(&["app", "demo"]));
    assert_eq!(f.build_mode, None);
    assert_eq!(f.build_target, None);
}

#[test]
fn resolve_explicit_bin_is_a_singleton() {
    let targets = vec![
        PackageTarget { name: s("app"), kind: TargetKind::Binary },
        PackageTarget { name: s("demo"), kind: TargetKind::Example },
    ];
    let mut args = no_args();
    args.bin = Some(s("app"));
    let f = resolve_filters(&args, &targets, None).unwrap();
    assert_eq!(f.names, strings(&["app"]));
}

#[test]
fn resolve_release_and_debug_flags_conflict() {
    let mut args = no_args();
    args.release = true;
    args.debug = true;
    let r = resolve_filters(&args, &Vec::new(), None);
    let err = r.unwrap_err();
    assert_eq!(err, AttachError::ConflictingModeFlags);
    assert_eq!(
        err.message(),
        "the release and debug flags may not be used together"
    );
}

#[test]
fn resolve_bin_and_example_conflict() {
    let mut args = no_args();
    args.bin = Some(s("a"));
    args.example = Some(s("b"));
    let r = resolve_filters(&args, &Vec::new(), None);
    let err = r.unwrap_err();
    assert_eq!(err, AttachError::ConflictingArtifactSelectors);
    assert_eq!(
        err.message(),
        "the bin and example options may not be used together"
    );
}

fn one_binary_package(name: &str, bin: &str) -> PackageInfo {
    PackageInfo {
        name: s(name),
        targets: vec![PackageTarget { name: s(bin), kind: TargetKind::Binary }],
    }
}

#[test]
fn attach_conflicting_mode_flags_fail_before_config_is_touched() {
    let mut args = no_args();
    args.release = true;
    args.debug = true;
    // The configuration source is malformed; the flag conflict still wins.
    let r = attach(
        args,
        one_binary_package("firmware", "app"),
        ConfigSource::Present(s("c.toml"), s("not = [valid")),
        &vec![candidate("app", &["release"], 1)],
    );
    assert_eq!(r.unwrap_err(), AttachError::ConflictingModeFlags);
}

#[test]
fn attach_without_runnable_targets_reports_the_package() {
    let package = PackageInfo { name: s("firmware"), targets: Vec::new() };
    let r = attach(
        no_args(),
        package,
        ConfigSource::Absent,
        &vec![candidate("app", &["release"], 1)],
    );
    let err = r.unwrap_err();
    assert_eq!(err, AttachError::NoMatchingExecutable(s("firmware")));
    assert_eq!(
        err.message(),
        "no matching executable found for package firmware"
    );
}

#[test]
fn attach_resolves_newest_release_and_runner_arguments() {
    let cands = vec![
        candidate("app", &["debug"], 100),
        candidate("app", &["release"], 200),
    ];
    let r = attach(
        no_args(),
        one_binary_package("firmware", "app"),
        ConfigSource::Present(
            s("c.toml"),
            s("[target.'cfg(all())']\nrunner = \"probe-rs run --chip STM32\"\n"),
        ),
        &cands,
    )
    .unwrap();
    assert_eq!(r.executable, 1);
    assert_eq!(r.probe_args, strings(&["--chip", "STM32"]));
}

#[test]
fn attach_trailing_arguments_replace_configured_ones() {
    let cands = vec![candidate("app", &["debug"], 100)];
    let mut args = no_args();
    args.probe_args = strings(&["--speed", "4000"]);
    let r = attach(
        args,
        one_binary_package("firmware", "app"),
        ConfigSource::Present(
            s("c.toml"),
            s("[target.'cfg(all())']\nrunner = \"probe-rs run --chip STM32\"\n"),
        ),
        &cands,
    )
    .unwrap();
    assert_eq!(r.probe_args, strings(&["--speed", "4000"]));
}

#[test]
fn attach_skips_the_config_when_args_and_target_are_explicit() {
    let cands = vec![candidate("app", &["thumbv7em-none-eabihf", "debug"], 5)];
    let mut args = no_args();
    args.probe_args = strings(&["--chip", "STM32"]);
    args.target = Some(s("thumbv7em-none-eabihf"));
    // The configuration file is unreadable, but nothing needs it.
    let r = attach(
        args,
        one_binary_package("firmware", "app"),
        ConfigSource::Unreadable(s("c.toml")),
        &cands,
    )
    .unwrap();
    assert_eq!(r.executable, 0);
    assert_eq!(r.probe_args, strings(&["--chip", "STM32"]));
}

#[test]
fn attach_surfaces_config_read_errors_when_config_is_needed() {
    let r = attach(
        no_args(),
        one_binary_package("firmware", "app"),
        ConfigSource::Unreadable(s("c.toml")),
        &vec![candidate("app", &["release"], 1)],
    );
    assert_eq!(r.unwrap_err(), AttachError::ConfigReadError(s("c.toml")));
}

#[test]
fn error_message_names_the_unresolved_package() {
    assert_eq!(
        AttachError::PackageResolutionFailed.message(),
        "could not determine which package to use binaries from"
    );
}
