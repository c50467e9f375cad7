use log::Log;
use pretty_logger::{Colour, Destination, Level, LevelFilter, Logger, Style, Theme};

fn plain_logger(level: LevelFilter) -> Logger {
    Logger::new(Destination::Stderr, level, Theme::empty())
}

#[test]
fn disabled_record_leaves_widths_alone() {
    let logger = plain_logger(LevelFilter::Info);
    let line = logger.format_record(Level::Trace, Some("crate::foo"), "crate::bar", "hi");
    assert_eq!(line, None);
    assert_eq!(logger.module_width(), 0);
    assert_eq!(logger.target_width(), 0);
}

#[test]
fn module_width_is_running_maximum() {
    let logger = plain_logger(LevelFilter::Trace);
    let names = ["abc", "x", "abcde", "ab"];
    let expected = [3, 3, 5, 5];
    for (name, want) in names.iter().zip(expected.iter()) {
        assert!(logger.format_record(Level::Info, Some(name), name, "m").is_some());
        assert_eq!(logger.module_width(), *want);
    }
}

#[test]
fn same_module_and_target_gives_three_fields() {
    let logger = plain_logger(LevelFilter::Info);
    let line = logger.format_record(Level::Error, Some("crate::foo"), "crate::foo", "hi");
    assert_eq!(line, Some("ERROR|crate::foo|hi\n".to_string()));
    assert_eq!(logger.target_width(), 0);
}

#[test]
fn different_target_gives_four_fields() {
    let logger = plain_logger(LevelFilter::Info);
    let line = logger.format_record(Level::Error, Some("crate::foo"), "crate::bar", "hi");
    assert_eq!(line, Some("ERROR|crate::foo|crate::bar|hi\n".to_string()));
    assert_eq!(logger.module_width(), 10);
    assert_eq!(logger.target_width(), 10);
}

#[test]
fn shorter_names_are_padded() {
    let logger = plain_logger(LevelFilter::Info);
    logger.format_record(Level::Info, Some("crate::long"), "other::target", "a");
    let line = logger.format_record(Level::Warn, Some("m"), "t", "b");
    assert_eq!(line, Some("WARN |m          |t            |b\n".to_string()));
}

#[test]
fn longer_name_is_printed_whole() {
    let logger = plain_logger(LevelFilter::Info);
    logger.format_record(Level::Info, Some("ab"), "ab", "a");
    let line = logger.format_record(Level::Info, Some("a::much::longer::name"), "a::much::longer::name", "b");
    assert_eq!(line, Some("INFO |a::much::longer::name|b\n".to_string()));
    assert_eq!(logger.module_width(), 21);
    let line = logger.format_record(Level::Warn, Some("ab"), "ab", "c");
    assert_eq!(line, Some("WARN |ab                   |c\n".to_string()));
}

#[test]
fn missing_module_is_unknown() {
    let logger = plain_logger(LevelFilter::Info);
    let line = logger.format_record(Level::Info, None, "t", "x");
    assert_eq!(line, Some("INFO |<unknown>|t|x\n".to_string()));
}

#[test]
fn width_counts_graphemes() {
    let logger = plain_logger(LevelFilter::Info);
    // "e" with a combining acute accent, and a family emoji joined by ZWJs.
    let accented = "e\u{301}";
    logger.format_record(Level::Info, Some(accented), accented, "x");
    assert_eq!(logger.module_width(), 1);
    let family = "\u{1F468}\u{200D}\u{1F469}\u{200D}\u{1F467}";
    logger.format_record(Level::Info, Some(family), family, "x");
    assert_eq!(logger.module_width(), 1);
    let line = logger.format_record(Level::Info, Some("ab"), "ab", "y");
    assert_eq!(line, Some("INFO |ab|y\n".to_string()));
    assert_eq!(logger.module_width(), 2);
}

#[test]
fn default_theme_paints_error_bold_red() {
    let theme = Theme::default();
    assert_eq!(theme.paint_log_level(Level::Error), "\x1b[1;31mERROR\x1b[0m");
    assert_eq!(theme.paint_log_level(Level::Warn), "\x1b[1;33mWARN \x1b[0m");
    assert_eq!(theme.paint_log_level(Level::Info), "\x1b[36mINFO \x1b[0m");
    assert_eq!(theme.paint_log_level(Level::Trace), "\x1b[2;37mTRACE\x1b[0m");
    let logger = Logger::new(Destination::Stdout, LevelFilter::Info, theme);
    let line = logger.format_record(Level::Error, Some("m"), "m", "hi").unwrap();
    assert_eq!(line, "\x1b[1;31mERROR\x1b[0m|m|hi\n");
}

#[test]
fn empty_theme_has_no_escapes() {
    let theme = Theme::empty();
    let labels = ["ERROR", "WARN ", "INFO ", "DEBUG", "TRACE"];
    let levels = [Level::Error, Level::Warn, Level::Info, Level::Debug, Level::Trace];
    for (level, label) in levels.iter().zip(labels.iter()) {
        assert_eq!(theme.paint_log_level(*level), *label);
    }
    let logger = Logger::new(Destination::Stdout, LevelFilter::Trace, theme);
    let line = logger.format_record(Level::Trace, Some("a"), "b", "c").unwrap();
    assert!(!line.contains('\x1b'));
}

#[test]
fn default_theme_styles() {
    let theme = Theme::default();
    assert_eq!(theme.error, Colour::Red.bold());
    assert_eq!(theme.warn, Colour::Yellow.bold());
    assert_eq!(theme.info, Colour::Cyan.normal());
    assert_eq!(theme.debug, Colour::White.normal());
    assert_eq!(theme.trace, Colour::White.dimmed());
    assert_eq!(theme.module, Style::new());
    assert!(Colour::Red.bold().is_bold);
    assert_eq!(Colour::Fixed(9).normal().foreground, Some(Colour::Fixed(9)));
}

#[test]
fn custom_style_paints_its_codes() {
    let mut theme = Theme::empty();
    theme.info = Style { is_underline: true, ..Colour::Green.normal() };
    assert_eq!(theme.paint_log_level(Level::Info), "\x1b[4;32mINFO \x1b[0m");
}

#[test]
fn log_record_writes_without_failing() {
    let logger = plain_logger(LevelFilter::Info);
    logger.log_record(Level::Info, Some("crate::foo"), "crate::foo", "written");
    logger.log_record(Level::Trace, Some("crate::foo"), "crate::foo", "dropped");
    assert_eq!(logger.module_width(), 10);
}

#[test]
fn stderr_logger_theme_follows_terminal() {
    let coloured = Logger::for_stderr(true);
    let line = coloured.format_record(Level::Error, Some("m"), "m", "hi").unwrap();
    assert_eq!(line, "\x1b[1;31mERROR\x1b[0m|m|hi\n");
    assert!(!coloured.enabled(Level::Debug));
    let plain = Logger::for_stderr(false);
    let line = plain.format_record(Level::Info, Some("m"), "m", "hi").unwrap();
    assert_eq!(line, "INFO |m|hi\n");
}

#[test]
fn render_record_pads_to_given_widths() {
    let logger = plain_logger(LevelFilter::Info);
    let line = logger.render_record(Level::Info, Some("ab"), "xyz", "msg", 5, 4);
    assert_eq!(line, "INFO |ab   |xyz |msg\n");
    let line = logger.render_record(Level::Info, Some("abcdef"), "xyz", "msg", 2, 0);
    assert_eq!(line, "INFO |abcdef|xyz|msg\n");
    let line = logger.render_record(Level::Error, Some("ab"), "ab", "m", 4, 9);
    assert_eq!(line, "ERROR|ab  |m\n");
    assert_eq!(logger.module_width(), 0);
}

#[test]
fn widen_keeps_the_larger() {
    assert_eq!(pretty_logger::logger::widen(3, 1), 3);
    assert_eq!(pretty_logger::logger::widen(3, 5), 5);
    assert_eq!(pretty_logger::logger::widen(0, 0), 0);
}

#[test]
fn default_theme_debug_code() {
    assert_eq!(Theme::default().paint_log_level(Level::Debug), "\x1b[37mDEBUG\x1b[0m");
}

#[test]
fn facade_methods_filter_and_widen() {
    let logger = plain_logger(LevelFilter::Info);
    let debug = log::Metadata::builder().level(log::Level::Debug).target("t").build();
    let warn = log::Metadata::builder().level(log::Level::Warn).target("t").build();
    assert!(!Log::enabled(&logger, &debug));
    assert!(Log::enabled(&logger, &warn));
    let dropped = log::Record::builder()
        .level(log::Level::Trace)
        .target("target::x")
        .module_path_static(Some("mod::longer"))
        .build();
    Log::log(&logger, &dropped);
    assert_eq!(logger.module_width(), 0);
    let kept = log::Record::builder()
        .level(log::Level::Error)
        .target("target::x")
        .module_path_static(Some("mod::y"))
        .build();
    Log::log(&logger, &kept);
    Log::flush(&logger);
    assert_eq!(logger.module_width(), 6);
    assert_eq!(logger.target_width(), 9);
}
