//! A pretty logger: one colourised line per record, with module and target
//! columns that widen to fit the widest names seen so far.
//!
//! It is configured from the `init` functions, and falls back to plain text
//! where the output is not a terminal.

pub mod destination;
pub mod init;
pub mod level;
pub mod logger;
pub mod theme;

pub use destination::Destination;
pub use init::{init, init_level, init_to_defaults, platform_init};
pub use level::{Level, LevelFilter};
pub use logger::{InitError, Logger};
pub use theme::{Colour, Style, Theme};
