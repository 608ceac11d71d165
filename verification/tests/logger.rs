use proto::logger::{level, level_for, verbosity, LevelFilter};

#[test]
fn the_five_level_names_are_known() {
    assert_eq!(verbosity("warn"), Some(0));
    assert_eq!(verbosity("info"), Some(1));
    assert_eq!(verbosity("debug"), Some(2));
    assert_eq!(verbosity("trace"), Some(3));
    assert_eq!(verbosity("full"), Some(4));
}

#[test]
fn any_other_level_name_is_not_supported() {
    for name in ["", "error", "WARN", "Trace", "full ", "off", "warning"] {
        assert_eq!(verbosity(name), None);
    }
}

#[test]
fn the_programs_own_records_follow_the_verbosity() {
    assert_eq!(level_for(0), LevelFilter::Warn);
    assert_eq!(level_for(1), LevelFilter::Info);
    assert_eq!(level_for(2), LevelFilter::Debug);
    assert_eq!(level_for(3), LevelFilter::Trace);
    assert_eq!(level_for(4), LevelFilter::Trace);
    assert_eq!(level_for(255), LevelFilter::Trace);
}

#[test]
fn other_sources_are_quiet_below_trace() {
    assert_eq!(level(0), LevelFilter::Error);
    assert_eq!(level(1), LevelFilter::Error);
    assert_eq!(level(2), LevelFilter::Error);
    assert_eq!(level(3), LevelFilter::Info);
    assert_eq!(level(4), LevelFilter::Trace);
    assert_eq!(level(5), LevelFilter::Error);
}
