use crate::destination::Destination;
use crate::level::LevelFilter;
use crate::logger::{InitError, Logger};
use crate::theme::Theme;
use vstd::prelude::*;

verus! {

/// Prepares the output streams for colour escape codes. Unix terminals
/// interpret them without setup. The Windows console needs
/// `ansi_term::enable_ansi_support`, which exists only on Windows builds; this
/// library is built the same way on every platform, so it leaves that step
/// out, and Windows consoles may show the codes raw.
pub fn platform_init() {
}

/// Initializes the global logger.
pub fn init(destination: Destination, level: LevelFilter, theme: Theme) -> Result<(), InitError> {
    platform_init();
    Logger::new(destination, level, theme).set_logger()
}

/// Initializes the global logger to log at the given level, using the defaults
/// for other fields.
pub fn init_level(level: LevelFilter) -> Result<(), InitError> {
    platform_init();
    let mut logger = Logger::default();
    logger.set_level(level);
    logger.set_logger()
}

/// Initializes the global logger with the defaults.
pub fn init_to_defaults() -> Result<(), InitError> {
    platform_init();
    Logger::default().set_logger()
}

} // verus!
