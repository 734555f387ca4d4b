use watchdog::cgroups::{CGroupVersion, CGroups, CGroupsError};
use watchdog::fsinfo::{usage_from_counters, FSError, FSInfo};
use watchdog::metrics::{metrics_json, u64_to_dec};

#[test]
fn parse_integer_plain() {
    assert_eq!(CGroups::parse_integer("123"), Ok(123));
    assert_eq!(CGroups::parse_integer("0"), Ok(0));
}

#[test]
fn parse_integer_plus_sign() {
    assert_eq!(CGroups::parse_integer("+42"), Ok(42));
}

#[test]
fn parse_integer_rejects_junk() {
    assert_eq!(CGroups::parse_integer(""), Err(CGroupsError::ParseError));
    assert_eq!(CGroups::parse_integer("+"), Err(CGroupsError::ParseError));
    assert_eq!(CGroups::parse_integer(" 12"), Err(CGroupsError::ParseError));
    assert_eq!(CGroups::parse_integer("12a"), Err(CGroupsError::ParseError));
    assert_eq!(CGroups::parse_integer("-5"), Err(CGroupsError::ParseError));
}

#[test]
fn parse_integer_rejects_overflow() {
    assert_eq!(
        CGroups::parse_integer("99999999999999999999999999"),
        Err(CGroupsError::ParseError)
    );
}

#[test]
fn parse_key_val_splits_at_first_space() {
    assert_eq!(
        CGroups::parse_key_val("total_inactive_file 100"),
        Ok(("total_inactive_file", "100"))
    );
    assert_eq!(CGroups::parse_key_val("a b c"), Ok(("a", "b c")));
}

#[test]
fn parse_key_val_needs_a_space() {
    assert_eq!(
        CGroups::parse_key_val("nospace"),
        Err(CGroupsError::ParseError)
    );
}

#[test]
fn stats_table_in_order() {
    let stats = CGroups::get_container_memory_stats("cache 1\nrss 2\ninactive_file 3").unwrap();
    assert_eq!(
        stats,
        vec![
            (String::from("cache"), 1),
            (String::from("rss"), 2),
            (String::from("inactive_file"), 3),
        ]
    );
}

#[test]
fn stats_table_rejects_malformed_line() {
    assert_eq!(
        CGroups::get_container_memory_stats("cache 1\nbroken\nrss 2"),
        Err(CGroupsError::ParseError)
    );
    assert_eq!(
        CGroups::get_container_memory_stats("cache notanumber"),
        Err(CGroupsError::ParseError)
    );
    assert_eq!(
        CGroups::get_container_memory_stats(""),
        Err(CGroupsError::ParseError)
    );
}

#[test]
fn stats_lookup_last_entry_wins() {
    let stats = CGroups::get_container_memory_stats("k 1\nk 2").unwrap();
    assert_eq!(CGroups::lookup_stat(&stats, "k"), Some(2));
    assert_eq!(CGroups::lookup_stat(&stats, "absent"), None);
}

#[test]
fn working_set_subtracts_when_inactive_smaller() {
    assert_eq!(CGroups::working_set_bytes(100, 40), 60);
    assert_eq!(CGroups::working_set_bytes(100, 100), 0);
}

#[test]
fn working_set_clamps_to_zero_not_wraparound() {
    assert_eq!(CGroups::working_set_bytes(40, 100), 0);
    assert_eq!(CGroups::working_set_bytes(0, usize::MAX), 0);
}

#[test]
fn working_set_prefers_total_inactive_file() {
    let stats =
        CGroups::get_container_memory_stats("inactive_file 10\ntotal_inactive_file 30").unwrap();
    assert_eq!(
        CGroups::get_container_memory_working_set_in_bytes(100, &stats),
        Ok(70)
    );
}

#[test]
fn working_set_falls_back_to_inactive_file() {
    let stats = CGroups::get_container_memory_stats("inactive_file 10").unwrap();
    assert_eq!(
        CGroups::get_container_memory_working_set_in_bytes(100, &stats),
        Ok(90)
    );
}

#[test]
fn working_set_missing_both_keys_is_missing_stat() {
    let stats = CGroups::get_container_memory_stats("cache 1\nrss 2").unwrap();
    assert_eq!(
        CGroups::get_container_memory_working_set_in_bytes(100, &stats),
        Err(CGroupsError::MissingStat)
    );
}

fn sample_accountant() -> CGroups {
    CGroups {
        cgroup_ver: CGroupVersion::V2,
        mem_usage_file: String::from("/sys/fs/cgroup/memory.current"),
        mem_stat_file: String::from("/sys/fs/cgroup/memory.stat"),
    }
}

#[test]
fn mem_usage_mb_end_to_end() {
    let cg = sample_accountant();
    let usage = "3145728\n";
    let stats = "rss 5\ntotal_inactive_file 1048576";
    assert_eq!(cg.get_mem_usage_mb(usage, stats), Ok(2));
}

#[test]
fn mem_usage_mb_trims_the_counter() {
    let cg = sample_accountant();
    assert_eq!(
        cg.get_mem_usage_mb("  2097152 \n", "total_inactive_file 0"),
        Ok(2)
    );
    assert_eq!(
        cg.get_mem_usage_mb("notanumber", "total_inactive_file 0"),
        Err(CGroupsError::ParseError)
    );
    assert_eq!(
        cg.get_mem_usage_mb("1048576", "rss 1"),
        Err(CGroupsError::MissingStat)
    );
}

#[test]
fn detect_variant_prefers_the_first() {
    assert_eq!(
        CGroups::detect_variant(true, true),
        Some(CGroupVersion::V1)
    );
    assert_eq!(
        CGroups::detect_variant(true, false),
        Some(CGroupVersion::V1)
    );
    assert_eq!(
        CGroups::detect_variant(false, true),
        Some(CGroupVersion::V2)
    );
    assert_eq!(CGroups::detect_variant(false, false), None);
}

#[test]
fn volume_triple_balances() {
    let usage = usage_from_counters(1000, 4096, 500).unwrap();
    assert_eq!(usage.total, 3);
    assert_eq!(usage.free, 1);
    assert_eq!(usage.used, 2);
    assert_eq!(usage.used + usage.free, usage.total);
}

#[test]
fn volume_triple_rejects_inconsistent_counters() {
    // more blocks available than the volume holds at all
    assert_eq!(usage_from_counters(10, 1 << 20, 20), None);
}

#[test]
fn volume_accountant_on_a_real_mount() {
    let info = FSInfo::new("/").unwrap();
    let usage = info.space_usage_mb().unwrap();
    assert_eq!(usage.used + usage.free, usage.total);
}

#[test]
fn volume_accountant_missing_path() {
    match FSInfo::new("/definitely/not/a/real/mount/point") {
        Err(FSError::PathNotFound) => {}
        other => panic!("expected PathNotFound, got {:?}", other),
    }
}

#[test]
fn decimal_rendering() {
    assert_eq!(u64_to_dec(0), "0");
    assert_eq!(u64_to_dec(7), "7");
    assert_eq!(u64_to_dec(512), "512");
    assert_eq!(u64_to_dec(u64::MAX), "18446744073709551615");
}

#[test]
fn metrics_snapshot_is_exact() {
    assert_eq!(metrics_json(512, 200), "{\"memory\":512,\"tmpfs\":200}");
    assert_eq!(metrics_json(0, 0), "{\"memory\":0,\"tmpfs\":0}");
}
