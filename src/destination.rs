use std::io::Write;
use vstd::prelude::*;

verus! {

/// Where to log to.
#[derive(Clone, Copy, Debug, PartialEq, Eq, Structural, Hash, PartialOrd, Ord)]
pub enum Destination {
    /// Standard output
    Stdout,
    /// Standard error
    Stderr,
}

/// Relies on `isatty::stdout_isatty`: whether standard output is a terminal.
#[verifier::external_body]
fn stdout_is_terminal() -> bool {
    isatty::stdout_isatty()
}

/// Relies on `isatty::stderr_isatty`: whether standard error is a terminal.
#[verifier::external_body]
fn stderr_is_terminal() -> bool {
    isatty::stderr_isatty()
}

/// Relies on `std::io::Write::write_all` on standard output; a failed write
/// is dropped, since logging must not fail its caller.
#[verifier::external_body]
fn write_stdout(text: &str) {
    let _ = std::io::stdout().write_all(text.as_bytes());
}

/// Relies on `std::io::Write::write_all` on standard error; a failed write
/// is dropped, since logging must not fail its caller.
#[verifier::external_body]
fn write_stderr(text: &str) {
    let _ = std::io::stderr().write_all(text.as_bytes());
}

impl Destination {
    /// Returns whether the given destination is a TTY.
    pub fn isatty(&self) -> bool {
        match *self {
            Destination::Stdout => stdout_is_terminal(),
            Destination::Stderr => stderr_is_terminal(),
        }
    }

    /// Writes `text` to the stream this destination names.
    pub fn write_str(&self, text: &str) {
        match *self {
            Destination::Stdout => write_stdout(text),
            Destination::Stderr => write_stderr(text),
        }
    }
}

impl Default for Destination {
    /// Standard error.
    fn default() -> (r: Destination)
        ensures
            r == Destination::Stderr,
    {
        Destination::Stderr
    }
}

} // verus!
