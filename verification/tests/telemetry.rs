use jot::telemetry::get_log_level_for_env;

#[test]
fn production_log_level_is_info() {
    let level = get_log_level_for_env("production");
    assert_eq!(level, "info");
}

#[test]
fn local_log_level_includes_debug() {
    let level = get_log_level_for_env("local");
    assert!(level.contains("debug"));
}

#[test]
fn local_log_level_includes_sqlx() {
    let level = get_log_level_for_env("local");
    assert!(level.contains("sqlx"));
}

#[test]
fn default_log_level_is_info() {
    let level = get_log_level_for_env("unknown");
    assert_eq!(level, "info");
}

#[test]
fn local_log_level_is_spelled_out() {
    assert_eq!(get_log_level_for_env("local"), "debug,sqlx=debug");
    assert_eq!(get_log_level_for_env("Local"), "info");
    assert_eq!(get_log_level_for_env(""), "info");
}
