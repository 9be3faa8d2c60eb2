use hak::klog::{format_line, Color, KernelLogger, Level, LevelFilter, Record};

const LEVELS: [Level; 8] = [
    Level::Emerg,
    Level::Alert,
    Level::Crit,
    Level::Error,
    Level::Warn,
    Level::Notice,
    Level::Info,
    Level::Debug,
];

fn record(level: Level, target: &str, module: Option<&str>, message: &str) -> Record {
    Record {
        level,
        target: target.to_string(),
        module: module.map(|path| path.to_string()),
        message: message.to_string(),
    }
}

#[test]
fn new_logger_lets_everything_through() {
    let logger = KernelLogger::new();
    assert_eq!(logger.init(), LevelFilter::Debug);
    for level in LEVELS {
        assert!(logger.enabled(level));
    }
}

#[test]
fn filter_lets_the_graver_levels_through() {
    let logger = KernelLogger::new().with_level(LevelFilter::Warn);
    assert_eq!(logger.init(), LevelFilter::Warn);
    assert!(logger.enabled(Level::Emerg));
    assert!(logger.enabled(Level::Error));
    assert!(logger.enabled(Level::Warn));
    assert!(!logger.enabled(Level::Notice));
    assert!(!logger.enabled(Level::Info));
    assert!(!logger.enabled(Level::Debug));
}

#[test]
fn filter_off_lets_nothing_through() {
    let logger = KernelLogger::new().with_level(LevelFilter::Off);
    for level in LEVELS {
        assert!(!logger.enabled(level));
        assert_eq!(logger.log(&record(level, "kernel", None, "quiet")), None);
    }
}

#[test]
fn levels_have_their_names_colours_and_filters() {
    let names = ["EMERG", "ALERT", "CRIT", "ERROR", "WARN", "NOTICE", "INFO", "DEBUG"];
    let colors = [
        Color::Magenta,
        Color::Yellow,
        Color::Red,
        Color::BrightRed,
        Color::BrightYellow,
        Color::Green,
        Color::Blue,
        Color::Cyan,
    ];
    for (i, level) in LEVELS.into_iter().enumerate() {
        assert_eq!(level.as_str(), names[i]);
        assert_eq!(level.level_color(), colors[i]);
        assert_eq!(level.to_level_filter().order(), i as u8 + 1);
    }
    assert_eq!(LevelFilter::Off.order(), 0);
    assert_eq!(Level::Crit.to_level_filter(), LevelFilter::Crit);
}

#[test]
fn line_has_level_origin_and_message() {
    assert_eq!(format_line("LEVEL", "origin", "message"), "LEVEL [origin] message");
    assert_eq!(format_line("", "", ""), " [] ");
}

#[test]
fn record_is_written_in_the_colour_of_its_level() {
    let logger = KernelLogger::new();
    let lines = [
        (Level::Emerg, "\u{1b}[35m EMERG\u{1b}[39m [kernel] boom"),
        (Level::Alert, "\u{1b}[33m ALERT\u{1b}[39m [kernel] boom"),
        (Level::Crit, "\u{1b}[31m  CRIT\u{1b}[39m [kernel] boom"),
        (Level::Error, "\u{1b}[91m ERROR\u{1b}[39m [kernel] boom"),
        (Level::Warn, "\u{1b}[93m  WARN\u{1b}[39m [kernel] boom"),
        (Level::Notice, "\u{1b}[32mNOTICE\u{1b}[39m [kernel] boom"),
        (Level::Info, "\u{1b}[34m  INFO\u{1b}[39m [kernel] boom"),
        (Level::Debug, "\u{1b}[36m DEBUG\u{1b}[39m [kernel] boom"),
    ];
    for (level, text) in lines {
        assert_eq!(logger.log(&record(level, "kernel", None, "boom")), Some(text.to_string()));
    }
}

#[test]
fn record_without_target_names_its_module() {
    let logger = KernelLogger::new();
    assert_eq!(
        logger.log(&record(Level::Info, "", Some("hak::trap"), "tick")),
        Some("\u{1b}[34m  INFO\u{1b}[39m [hak::trap] tick".to_string())
    );
    assert_eq!(
        logger.log(&record(Level::Info, "plic", Some("hak::trap"), "tick")),
        Some("\u{1b}[34m  INFO\u{1b}[39m [plic] tick".to_string())
    );
    assert_eq!(
        logger.log(&record(Level::Info, "", None, "tick")),
        Some("\u{1b}[34m  INFO\u{1b}[39m [] tick".to_string())
    );
}

#[test]
fn record_below_the_filter_is_not_written() {
    let logger = KernelLogger::new().with_level(LevelFilter::Error);
    assert_eq!(logger.log(&record(Level::Warn, "kernel", None, "meh")), None);
    assert!(logger.log(&record(Level::Error, "kernel", None, "bad")).is_some());
    logger.flush();
}
