use rad_sync::{
    parse_args, parse_sort_by, ArgError, Directions, Intent, NodeId, Operation, RepoId, SortBy,
    StatusRequest, SyncDirection, USAGE, SyncMode, SyncModeArgs, SyncSettings, SyncSettingsArgs,
};

fn args(v: &[&str]) -> Vec<String> {
    v.iter().map(|s| s.to_string()).collect()
}

fn mode_args(fetch: bool, announce: bool, inventory: bool) -> SyncModeArgs {
    SyncModeArgs { directions: Directions { fetch, announce }, inventory }
}

fn settings(replicas: usize, seeds: &[&str], timeout: u64) -> SyncSettings {
    SyncSettings { replicas, seeds: seeds.iter().map(|s| NodeId::new(s)).collect(), timeout }
}

#[test]
fn inventory_wins_over_everything() {
    for (f, a) in [(false, false), (true, false), (false, true), (true, true)] {
        let m = SyncMode::new(mode_args(f, a, true), Some(settings(7, &["x"], 1)));
        assert_eq!(m, SyncMode::Inventory);
        assert_eq!(SyncMode::new(mode_args(f, a, true), None), SyncMode::Inventory);
    }
}

#[test]
fn direction_table() {
    let cases = [
        (false, false, SyncDirection::Both),
        (true, false, SyncDirection::Fetch),
        (false, true, SyncDirection::Announce),
        (true, true, SyncDirection::Both),
    ];
    for (f, a, d) in cases {
        assert_eq!(SyncDirection::from(Directions { fetch: f, announce: a }), d);
        assert_eq!(
            SyncMode::new(mode_args(f, a, false), None),
            SyncMode::Repo { settings: SyncSettings::default(), direction: d }
        );
    }
}

#[test]
fn default_settings_values() {
    assert_eq!(SyncSettings::default(), settings(3, &[], 9));
    assert_eq!(SyncDirection::default(), SyncDirection::Both);
    assert_eq!(SortBy::default(), SortBy::Status);
    assert_eq!(Operation::default(), Operation::Status { sort_by: SortBy::Status });
}

#[test]
fn omitted_flags_take_defaults() {
    let o = parse_args(&args(&[])).unwrap();
    assert_eq!(o.settings, SyncSettingsArgs { replicas: 3, seeds: vec![], timeout: 9 });
    assert_eq!(o.sync, mode_args(false, false, false));
    assert_eq!(o.rid, None);
    assert!(!o.debug && !o.verbose);
    assert_eq!(o.op, None);
}

#[test]
fn each_setting_overrides_only_itself() {
    let o = parse_args(&args(&["--replicas", "5"])).unwrap();
    assert_eq!(o.settings, SyncSettingsArgs { replicas: 5, seeds: vec![], timeout: 9 });
    let o = parse_args(&args(&["-r", "0"])).unwrap();
    assert_eq!(o.settings, SyncSettingsArgs { replicas: 0, seeds: vec![], timeout: 9 });
    let o = parse_args(&args(&["--timeout", "30"])).unwrap();
    assert_eq!(o.settings, SyncSettingsArgs { replicas: 3, seeds: vec![], timeout: 30 });
    let o = parse_args(&args(&["--seed", "z"])).unwrap();
    assert_eq!(
        o.settings,
        SyncSettingsArgs { replicas: 3, seeds: vec![NodeId::new("z")], timeout: 9 }
    );
}

#[test]
fn seeds_keep_order_and_repeats() {
    let o = parse_args(&args(&["--seed", "a", "--seed", "b", "--seed", "a"])).unwrap();
    let want: Vec<NodeId> = ["a", "b", "a"].iter().map(|s| NodeId::new(s)).collect();
    assert_eq!(o.settings.seeds, want);
    assert_eq!(o.settings.seeds[1].as_str(), "b");
}

#[test]
fn fetch_with_inventory_is_rejected() {
    assert_eq!(
        parse_args(&args(&["--fetch", "--inventory"])),
        Err(ArgError::Conflict { flag: "--fetch".to_string() })
    );
    assert_eq!(
        parse_args(&args(&["--inventory", "--announce"])),
        Err(ArgError::Conflict { flag: "--announce".to_string() })
    );
}

#[test]
fn sort_by_values() {
    assert_eq!(parse_sort_by("nid"), Ok(SortBy::Nid));
    assert_eq!(parse_sort_by("alias"), Ok(SortBy::Alias));
    assert_eq!(parse_sort_by("status"), Ok(SortBy::Status));
    assert_eq!(
        parse_sort_by("bogus"),
        Err(ArgError::InvalidSortField { value: "bogus".to_string() })
    );
    assert_eq!("alias".parse::<SortBy>(), Ok(SortBy::Alias));
    assert!("Nid".parse::<SortBy>().is_err());
}

#[test]
fn status_subcommand_sort_by() {
    let o = parse_args(&args(&["status"])).unwrap();
    assert_eq!(o.op, Some(Operation::Status { sort_by: SortBy::Status }));
    let o = parse_args(&args(&["status", "--sort-by", "nid"])).unwrap();
    assert_eq!(o.op, Some(Operation::Status { sort_by: SortBy::Nid }));
    let o = parse_args(&args(&["status", "--sort-by", "alias", "-v"])).unwrap();
    assert_eq!(o.op, Some(Operation::Status { sort_by: SortBy::Alias }));
    assert!(o.verbose);
    assert_eq!(
        parse_args(&args(&["status", "--sort-by", "bogus"])),
        Err(ArgError::InvalidSortField { value: "bogus".to_string() })
    );
}

#[test]
fn sort_by_outside_status_is_unexpected() {
    assert_eq!(
        parse_args(&args(&["--sort-by", "nid"])),
        Err(ArgError::UnexpectedArgument { arg: "--sort-by".to_string() })
    );
}

#[test]
fn root_flags_after_status_are_unexpected() {
    assert_eq!(
        parse_args(&args(&["status", "--fetch"])),
        Err(ArgError::UnexpectedArgument { arg: "--fetch".to_string() })
    );
}

#[test]
fn unknown_flag_is_unexpected() {
    assert_eq!(
        parse_args(&args(&["--bogus"])),
        Err(ArgError::UnexpectedArgument { arg: "--bogus".to_string() })
    );
}

#[test]
fn value_flag_without_value() {
    assert_eq!(
        parse_args(&args(&["--fetch", "--seed"])),
        Err(ArgError::MissingValue { flag: "--seed".to_string() })
    );
    assert_eq!(
        parse_args(&args(&["status", "--sort-by"])),
        Err(ArgError::MissingValue { flag: "--sort-by".to_string() })
    );
}

#[test]
fn malformed_numbers_are_rejected() {
    for (flag, value) in [
        ("--replicas", "-1"),
        ("-r", "three"),
        ("--timeout", ""),
        ("--timeout", "9s"),
        ("--timeout", "18446744073709551616"),
    ] {
        assert_eq!(
            parse_args(&args(&[flag, value])),
            Err(ArgError::InvalidNumber { flag: flag.to_string(), value: value.to_string() })
        );
    }
}

#[test]
fn largest_timeout_is_accepted() {
    let o = parse_args(&args(&["--timeout", "18446744073709551615"])).unwrap();
    assert_eq!(o.settings.timeout, u64::MAX);
    let o = parse_args(&args(&["--timeout", "007"])).unwrap();
    assert_eq!(o.settings.timeout, 7);
}

#[test]
fn full_invocation() {
    let o = parse_args(&args(&[
        "--fetch", "--rid", "rad:z3", "--timeout", "12", "--debug", "--seed", "n1", "-r", "2",
    ]))
    .unwrap();
    assert_eq!(o.rid, Some(RepoId::new("rad:z3")));
    assert!(o.debug);
    assert_eq!(
        o.into_intent(),
        Intent::Sync {
            rid: Some(RepoId::new("rad:z3")),
            mode: SyncMode::Repo {
                settings: settings(2, &["n1"], 12),
                direction: SyncDirection::Fetch
            },
        }
    );
}

#[test]
fn inventory_ignores_rid() {
    let o = parse_args(&args(&["--inventory", "--rid", "rad:z3"])).unwrap();
    assert_eq!(o.into_intent(), Intent::Sync { rid: None, mode: SyncMode::Inventory });
}

#[test]
fn status_intent_keeps_rid() {
    let o = parse_args(&args(&["--rid", "rad:z9", "status", "--sort-by", "nid"])).unwrap();
    assert_eq!(
        o.into_intent(),
        Intent::Status(StatusRequest { sort_by: SortBy::Nid, rid: Some(RepoId::new("rad:z9")) })
    );
}

#[test]
fn round_trip_reproduces_mode() {
    for (f, a) in [(false, false), (true, false), (false, true), (true, true)] {
        let m = SyncMode::new(mode_args(f, a, false), Some(settings(4, &["s", "t"], 2)));
        let (a2, s2) = m.clone().into_args();
        assert_eq!(s2, Some(settings(4, &["s", "t"], 2)));
        assert_eq!(SyncMode::new(a2, s2), m);
    }
    let (a2, s2) = SyncMode::Inventory.into_args();
    assert!(a2.inventory);
    assert_eq!(SyncMode::new(a2, s2), SyncMode::Inventory);
}

#[test]
fn settings_from_args() {
    let s = SyncSettings::from(SyncSettingsArgs {
        replicas: 1,
        seeds: vec![NodeId::new("q")],
        timeout: 60,
    });
    assert_eq!(s, settings(1, &["q"], 60));
}

#[test]
fn identifiers_from_str() {
    let r: RepoId = "rad:abc".parse().unwrap();
    assert_eq!(r.as_str(), "rad:abc");
    let n: NodeId = "z6Mk".parse().unwrap();
    assert_eq!(n, NodeId::new("z6Mk"));
}

#[test]
fn sort_by_from_str_rejects_other_tokens() {
    assert_eq!("nid".parse::<SortBy>(), Ok(SortBy::Nid));
    assert_eq!("status".parse::<SortBy>(), Ok(SortBy::Status));
    assert_eq!("bogus".parse::<SortBy>(), Err("invalid `--sort-by` field"));
    assert_eq!(" nid".parse::<SortBy>(), Err("invalid `--sort-by` field"));
    assert_eq!("".parse::<SortBy>(), Err("invalid `--sort-by` field"));
}

#[test]
fn identifiers_compare_by_string() {
    let a: NodeId = "n1".parse().unwrap();
    let b: NodeId = "n1".parse().unwrap();
    let c: NodeId = "n2".parse().unwrap();
    assert_eq!(a, b);
    assert_ne!(a, c);
    let r: RepoId = "".parse().unwrap();
    assert_eq!(r.as_str(), "");
}

#[test]
fn messages_name_the_offender() {
    let e = parse_args(&args(&["--bogus"])).unwrap_err();
    assert_eq!(e.message(), "unexpected argument '--bogus'");
    let e = parse_args(&args(&["--timeout"])).unwrap_err();
    assert_eq!(e.message(), "a value is required for '--timeout'");
    let e = parse_args(&args(&["-r", "x"])).unwrap_err();
    assert_eq!(e.message(), "invalid value 'x' for '-r': expected a non-negative integer");
    let e = parse_args(&args(&["status", "--sort-by", "bogus"])).unwrap_err();
    assert_eq!(
        e.message(),
        "invalid value 'bogus' for '--sort-by': expected one of nid, alias, status"
    );
    let e = parse_args(&args(&["--announce", "--inventory"])).unwrap_err();
    assert_eq!(e.message(), "the argument '--announce' cannot be used with '--inventory'");
}

#[test]
fn diagnostic_carries_usage() {
    let e = parse_args(&args(&["--fetch", "--inventory"])).unwrap_err();
    let d = e.diagnostic();
    assert_eq!(
        d,
        format!("error: the argument '--fetch' cannot be used with '--inventory'\n\n{}", USAGE)
    );
    assert!(d.contains("rad sync --inventory"));
}

#[test]
fn only_spaced_value_form_is_read() {
    assert_eq!(
        parse_args(&args(&["--timeout=5"])),
        Err(ArgError::UnexpectedArgument { arg: "--timeout=5".to_string() })
    );
    let o = parse_args(&args(&["--rid", "--debug"])).unwrap();
    assert_eq!(o.rid, Some(RepoId::new("--debug")));
    assert!(!o.debug);
}
