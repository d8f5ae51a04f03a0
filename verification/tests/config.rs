use krust::config::{ClientConfiguration, Config, ConfigError, LogLevel, Severity};

fn raw(level: LogLevel, bootstrap: &str, group: &str) -> Config {
    Config {
        log_level: level,
        bootstrap_servers: bootstrap.to_string(),
        group_id: group.to_string(),
    }
}

fn built(level: LogLevel, bootstrap: &str, group: &str) -> ClientConfiguration {
    raw(level, bootstrap, group).build().expect("build should succeed")
}

#[test]
fn severity_mapping_matches_each_variant() {
    assert_eq!(LogLevel::Debug.severity(), Severity::Debug);
    assert_eq!(LogLevel::Info.severity(), Severity::Info);
    assert_eq!(LogLevel::Error.severity(), Severity::Error);
}

#[test]
fn severity_mapping_is_injective_on_variants() {
    let levels = [LogLevel::Debug, LogLevel::Info, LogLevel::Error];
    for a in levels {
        for b in levels {
            if a.severity() == b.severity() {
                assert_eq!(a, b);
            }
        }
    }
}

#[test]
fn build_keeps_nonempty_inputs_verbatim() {
    let cfg = built(LogLevel::Error, "broker1:9092,broker2:9092", "mygroup");
    assert_eq!(cfg.bootstrap_servers(), "broker1:9092,broker2:9092");
    assert_eq!(cfg.group_id(), "mygroup");
    assert_eq!(cfg.statistics_interval_ms(), "10000");
    assert_eq!(cfg.severity(), Severity::Error);
}

#[test]
fn build_defaults_empty_group_id() {
    let cfg = built(LogLevel::Info, "localhost:9092", "");
    assert_eq!(cfg.bootstrap_servers(), "localhost:9092");
    assert_eq!(cfg.group_id(), "cg.krust");
    assert_eq!(cfg.statistics_interval_ms(), "10000");
    assert_eq!(cfg.severity(), Severity::Info);
}

#[test]
fn build_rejects_empty_bootstrap_servers() {
    let err = raw(LogLevel::Debug, "", "mygroup").build().expect_err("build should fail");
    assert_eq!(err.message(), "bootstrap servers cannot be empty");
}

#[test]
fn build_rejects_empty_bootstrap_servers_whatever_the_rest() {
    for level in [LogLevel::Debug, LogLevel::Info, LogLevel::Error] {
        for group in ["", "mygroup"] {
            let err = raw(level, "", group).build().expect_err("build should fail");
            assert_eq!(err.message(), "bootstrap servers cannot be empty");
        }
    }
}

#[test]
fn build_succeeds_on_every_nonempty_bootstrap_tried() {
    for bootstrap in ["a", "localhost:9092", "h1:1,h2:2,h3:3", " "] {
        let cfg = built(LogLevel::Info, bootstrap, "g");
        assert_eq!(cfg.bootstrap_servers(), bootstrap);
    }
}

#[test]
fn build_twice_on_identical_input_gives_equal_configurations() {
    let a = built(LogLevel::Debug, "localhost:9092", "grp");
    let b = built(LogLevel::Debug, "localhost:9092", "grp");
    assert_eq!(a.bootstrap_servers(), b.bootstrap_servers());
    assert_eq!(a.group_id(), b.group_id());
    assert_eq!(a.statistics_interval_ms(), b.statistics_interval_ms());
    assert_eq!(a.severity(), b.severity());
}

#[test]
fn entries_lists_the_three_keys_in_order() {
    let cfg = built(LogLevel::Info, "localhost:9092", "mygroup");
    let kv = cfg.entries();
    assert_eq!(kv.len(), 3);
    assert_eq!(kv[0].0, "bootstrap.servers");
    assert_eq!(kv[0].1, "localhost:9092");
    assert_eq!(kv[1].0, "group.id");
    assert_eq!(kv[1].1, "mygroup");
    assert_eq!(kv[2].0, "statistics.interval.ms");
    assert_eq!(kv[2].1, "10000");
}

#[test]
fn config_error_keeps_its_message() {
    let err = ConfigError::new("something went wrong");
    assert_eq!(err.message(), "something went wrong");
}
