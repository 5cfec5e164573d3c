use binary_options_tools_js::level::{Level, LevelFilter};

#[test]
fn level_names_are_read_without_regard_to_case() {
    assert_eq!(LevelFilter::from_name("DEBUG"), LevelFilter::Debug);
    assert_eq!(LevelFilter::from_name("info"), LevelFilter::Info);
    assert_eq!(LevelFilter::from_name("Warn"), LevelFilter::Warn);
    assert_eq!(LevelFilter::from_name("ERROR"), LevelFilter::Error);
    assert_eq!(LevelFilter::from_name("trace"), LevelFilter::Trace);
    assert_eq!(LevelFilter::from_name("off"), LevelFilter::Off);
}

#[test]
fn level_numbers_are_read() {
    assert_eq!(LevelFilter::from_name("0"), LevelFilter::Off);
    assert_eq!(LevelFilter::from_name("1"), LevelFilter::Error);
    assert_eq!(LevelFilter::from_name("2"), LevelFilter::Warn);
    assert_eq!(LevelFilter::from_name("3"), LevelFilter::Info);
    assert_eq!(LevelFilter::from_name("4"), LevelFilter::Debug);
    assert_eq!(LevelFilter::from_name("5"), LevelFilter::Trace);
}

#[test]
fn unreadable_level_means_debug() {
    assert_eq!(LevelFilter::from_name("verbose"), LevelFilter::Debug);
    assert_eq!(LevelFilter::from_name("6"), LevelFilter::Debug);
    assert_eq!(LevelFilter::from_name(" info"), LevelFilter::Debug);
}

#[test]
fn empty_level_means_error() {
    assert_eq!(LevelFilter::from_name(""), LevelFilter::Error);
}

#[test]
fn resolve_falls_back_to_debug() {
    assert_eq!(LevelFilter::resolve(None), LevelFilter::Debug);
    assert_eq!(LevelFilter::resolve(Some(LevelFilter::Off)), LevelFilter::Off);
    assert_eq!(LevelFilter::resolve(Some(LevelFilter::Trace)), LevelFilter::Trace);
}

#[test]
fn threshold_lets_through_what_is_no_more_verbose() {
    let levels = [Level::Error, Level::Warn, Level::Info, Level::Debug, Level::Trace];
    let filters = [
        LevelFilter::Off,
        LevelFilter::Error,
        LevelFilter::Warn,
        LevelFilter::Info,
        LevelFilter::Debug,
        LevelFilter::Trace,
    ];
    for (limit, filter) in filters.iter().enumerate() {
        for (rank, level) in levels.iter().enumerate() {
            assert_eq!(filter.enables(*level), rank + 1 <= limit);
        }
    }
    assert!(LevelFilter::Warn.enables(Level::Error));
    assert!(LevelFilter::Warn.enables(Level::Warn));
    assert!(!LevelFilter::Warn.enables(Level::Info));
    assert!(!LevelFilter::Off.enables(Level::Error));
}
