use unicorn::logger::{level_for, LogLevel};

#[test]
fn levels_by_name() {
    assert_eq!(level_for("debug"), LogLevel::Debug);
    assert_eq!(level_for("error"), LogLevel::Error);
    assert_eq!(level_for("warn"), LogLevel::Warn);
    assert_eq!(level_for("trace"), LogLevel::Trace);
    assert_eq!(level_for("info"), LogLevel::Info);
}

#[test]
fn any_other_name_gives_info() {
    assert_eq!(level_for(""), LogLevel::Info);
    assert_eq!(level_for("Debug"), LogLevel::Info);
    assert_eq!(level_for("debug "), LogLevel::Info);
    assert_eq!(level_for("warning"), LogLevel::Info);
    assert_eq!(level_for("off"), LogLevel::Info);
}
