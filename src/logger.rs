use crate::destination::Destination;
use crate::level::{passes, Level, LevelFilter};
use crate::theme::{default_theme, empty_theme, label, plain_style, Theme};
use std::sync::atomic::{AtomicUsize, Ordering};
use unicode_segmentation::UnicodeSegmentation;
use vstd::prelude::*;
use vstd::string::*;

verus! {

/// How many user-perceived characters (extended grapheme clusters) `s` has.
pub uninterp spec fn grapheme_count(s: Seq<char>) -> nat;

/// Relies on `unicode_segmentation::UnicodeSegmentation::graphemes` with
/// extended clusters: counting them gives the text's width in characters as
/// a reader sees them. Each cluster is a non-empty run of characters, so a
/// non-empty text has at least one and at most one per character.
#[verifier::external_body]
pub(crate) fn grapheme_len(s: &str) -> (r: usize)
    ensures
        r as nat == grapheme_count(s@),
        s@.len() == 0 ==> r == 0,
        s@.len() > 0 ==> 1 <= r && r as nat <= s@.len(),
{
    s.graphemes(true).count()
}

/// `n` spaces.
pub open spec fn spaces(n: nat) -> Seq<char> {
    Seq::new(n, |i: int| ' ')
}

/// `s` followed by as many spaces as it takes to be `width` graphemes wide;
/// `s` itself when it is that wide already. Text is never cut.
pub open spec fn padded(s: Seq<char>, width: nat) -> Seq<char> {
    if width > grapheme_count(s) {
        s + spaces((width - grapheme_count(s)) as nat)
    } else {
        s
    }
}

/// Padding never cuts: a padded name starts with the whole name, and is at
/// least as long as it.
pub proof fn lemma_padding_keeps_text(s: Seq<char>, width: nat)
    ensures
        padded(s, width).len() >= s.len(),
        padded(s, width).subrange(0, s.len() as int) == s,
{
    assert(padded(s, width).subrange(0, s.len() as int) =~= s);
}

/// In a record's line the module name stands whole right after the label and
/// its bar, however wide its column is.
pub proof fn lemma_record_line_shows_module(
    lab: Seq<char>,
    module: Seq<char>,
    target: Seq<char>,
    message: Seq<char>,
    module_width: nat,
    target_width: nat,
)
    ensures
        record_line(lab, module, target, message, module_width, target_width).subrange(
            lab.len() + 1 as int,
            lab.len() + 1 + module.len() as int,
        ) == module,
{
    lemma_padding_keeps_text(module, module_width);
    let line = record_line(lab, module, target, message, module_width, target_width);
    let p = padded(module, module_width);
    assert forall|i: int| 0 <= i < module.len() implies line[lab.len() + 1 + i] == module[i] by {
        assert(p.subrange(0, module.len() as int)[i] == module[i]);
    }
    assert(line.subrange(lab.len() + 1 as int, lab.len() + 1 + module.len() as int) =~= module);
}

/// A sequence holds no escape character.
pub open spec fn escape_free(s: Seq<char>) -> bool {
    forall|i: int| 0 <= i < s.len() ==> s[i] != '\x1b'
}

proof fn lemma_escape_free_concat(a: Seq<char>, b: Seq<char>)
    requires
        escape_free(a),
        escape_free(b),
    ensures
        escape_free(a + b),
{
    assert forall|i: int| 0 <= i < (a + b).len() implies (a + b)[i] != '\x1b' by {
        if i < a.len() {
            assert((a + b)[i] == a[i]);
        } else {
            assert((a + b)[i] == b[i - a.len()]);
        }
    }
}

proof fn lemma_padded_escape_free(s: Seq<char>, width: nat)
    requires
        escape_free(s),
    ensures
        escape_free(padded(s, width)),
{
    if width > grapheme_count(s) {
        lemma_escape_free_concat(s, spaces((width - grapheme_count(s)) as nat));
    }
}

/// A line under a bare label holds no escape code where its module, target
/// and message hold none: padding and separators add none.
pub proof fn lemma_plain_line_has_no_escape(
    level: Level,
    module: Seq<char>,
    target: Seq<char>,
    message: Seq<char>,
    module_width: nat,
    target_width: nat,
)
    requires
        escape_free(module),
        escape_free(target),
        escape_free(message),
    ensures
        escape_free(record_line(label(level), module, target, message, module_width, target_width)),
{
    let bar = seq!['|'];
    let nl = seq!['\n'];
    assert(escape_free(label(level)));
    assert(escape_free(bar));
    assert(escape_free(nl));
    lemma_padded_escape_free(module, module_width);
    lemma_padded_escape_free(target, target_width);
    let pm = padded(module, module_width);
    let pt = padded(target, target_width);
    lemma_escape_free_concat(label(level), bar);
    lemma_escape_free_concat(label(level) + bar, pm);
    lemma_escape_free_concat(label(level) + bar + pm, bar);
    if module == target {
        lemma_escape_free_concat(label(level) + bar + pm + bar, message);
        lemma_escape_free_concat(label(level) + bar + pm + bar + message, nl);
    } else {
        lemma_escape_free_concat(label(level) + bar + pm + bar, pt);
        lemma_escape_free_concat(label(level) + bar + pm + bar + pt, bar);
        lemma_escape_free_concat(label(level) + bar + pm + bar + pt + bar, message);
        lemma_escape_free_concat(label(level) + bar + pm + bar + pt + bar + message, nl);
    }
}

/// The module column's text when a record names no module.
pub open spec fn unknown_module() -> Seq<char> {
    seq!['<', 'u', 'n', 'k', 'n', 'o', 'w', 'n', '>']
}

/// The module a record is shown under.
pub open spec fn module_text(module: Option<&str>) -> Seq<char> {
    match module {
        Some(m) => m@,
        None => unknown_module(),
    }
}

/// The line for a record: label, module padded to `module_width`, then the
/// target padded to `target_width` where it differs from the module, then the
/// message, separated by bars and ended by a newline.
pub open spec fn record_line(
    lab: Seq<char>,
    module: Seq<char>,
    target: Seq<char>,
    message: Seq<char>,
    module_width: nat,
    target_width: nat,
) -> Seq<char> {
    if module == target {
        lab + seq!['|'] + padded(module, module_width) + seq!['|'] + message + seq!['\n']
    } else {
        lab + seq!['|'] + padded(module, module_width) + seq!['|'] + padded(target, target_width)
            + seq!['|'] + message + seq!['\n']
    }
}

/// `line` is the line for a record at some widths that are at least as wide as
/// the module's and the target's own widths.
pub open spec fn is_record_line(
    line: Seq<char>,
    lab: Seq<char>,
    module: Seq<char>,
    target: Seq<char>,
    message: Seq<char>,
) -> bool {
    exists|mw: nat, tw: nat|
        #![trigger record_line(lab, module, target, message, mw, tw)]
        mw >= grapheme_count(module) && tw >= grapheme_count(target) && line == record_line(
            lab,
            module,
            target,
            message,
            mw,
            tw,
        )
}

/// The larger of two naturals.
pub open spec fn max_nat(a: nat, b: nat) -> nat {
    if a > b {
        a
    } else {
        b
    }
}

/// One step of a running maximum: the larger of the width held so far and a
/// new width.
pub fn widen(prev: usize, width: usize) -> (r: usize)
    ensures
        r == max_nat(prev as nat, width as nat),
{
    if prev > width {
        prev
    } else {
        width
    }
}

/// Appends `s` and then `width - count` spaces to `line`.
fn push_padded(line: &mut String, s: &str, count: usize, width: usize)
    ensures
        final(line)@ == old(line)@ + s@ + spaces(
            (if width > count {
                width - count
            } else {
                0int
            }) as nat,
        ),
{
    line.append(s);
    let ghost base = line@;
    let n: usize = if width > count {
        width - count
    } else {
        0
    };
    let mut j: usize = 0;
    while j < n
        invariant
            j <= n,
            line@ == base + spaces(j as nat),
        decreases n - j,
    {
        line.append(" ");
        proof {
            reveal_strlit(" ");
        }
        j = j + 1;
        assert(line@ =~= base + spaces(j as nat));
    }
}

/// The logger.
///
/// The defaults are:
///
///  - Log to `stderr`
///  - Log at the info level and higher.
///  - Use the default theme (see the [`Theme`](struct.Theme.html) type for details).
///  - Use color iff `stderr` is a TTY
pub struct Logger {
    destination: Destination,
    level: LevelFilter,
    max_module_width: AtomicUsize,
    max_target_width: AtomicUsize,
    theme: Theme,
}

impl Logger {
    /// Where this logger writes.
    pub closed spec fn destination_spec(&self) -> Destination {
        self.destination
    }

    /// The least severe level this logger lets through.
    pub closed spec fn level_spec(&self) -> LevelFilter {
        self.level
    }

    /// The colour scheme of this logger.
    pub closed spec fn theme_spec(&self) -> Theme {
        self.theme
    }

    /// Creates a new instance of Logger.
    pub fn new(destination: Destination, level: LevelFilter, theme: Theme) -> (r: Logger)
        ensures
            r.destination_spec() == destination,
            r.level_spec() == level,
            r.theme_spec() == theme,
    {
        Logger {
            destination,
            level,
            max_module_width: AtomicUsize::new(0),
            max_target_width: AtomicUsize::new(0),
            theme,
        }
    }

    /// Changes the least severe level this logger lets through.
    pub fn set_level(&mut self, level: LevelFilter)
        ensures
            final(self).level_spec() == level,
            final(self).destination_spec() == old(self).destination_spec(),
            final(self).theme_spec() == old(self).theme_spec(),
    {
        self.level = level;
    }

    /// Whether a record of `level` is logged.
    pub fn enabled(&self, level: Level) -> (r: bool)
        ensures
            r == passes(self.level_spec(), level),
    {
        self.level.allows(level)
    }

    /// The widest module name seen so far, in graphemes.
    pub fn module_width(&self) -> usize {
        self.max_module_width.load(Ordering::SeqCst)
    }

    /// The widest target seen so far, in graphemes.
    pub fn target_width(&self) -> usize {
        self.max_target_width.load(Ordering::SeqCst)
    }

    /// Raises the module width to at least `width` and returns the width now
    /// in force: the larger of `width` and what the counter held. Concurrent
    /// callers lose no update.
    fn update_module_width(&self, width: usize) -> (r: usize)
        ensures
            r >= width,
    {
        let prev = self.max_module_width.fetch_max(width, Ordering::SeqCst);
        widen(prev, width)
    }

    /// Raises the target width to at least `width` and returns the width now
    /// in force: the larger of `width` and what the counter held. Concurrent
    /// callers lose no update.
    fn update_target_width(&self, width: usize) -> (r: usize)
        ensures
            r >= width,
    {
        let prev = self.max_target_width.fetch_max(width, Ordering::SeqCst);
        widen(prev, width)
    }

    /// The line for a record at the given column widths: each column is
    /// padded to its width, or to its name's own width where that is wider.
    pub fn render_record(
        &self,
        level: Level,
        module: Option<&str>,
        target: &str,
        message: &str,
        module_width: usize,
        target_width: usize,
    ) -> (r: String)
        ensures
            r@ == record_line(
                self.theme_spec().rendered_label(level),
                module_text(module),
                target@,
                message@,
                max_nat(module_width as nat, grapheme_count(module_text(module))),
                max_nat(target_width as nat, grapheme_count(target@)),
            ),
            self.theme_spec().style_of(level) == plain_style() ==> r@ == record_line(
                label(level),
                module_text(module),
                target@,
                message@,
                max_nat(module_width as nat, grapheme_count(module_text(module))),
                max_nat(target_width as nat, grapheme_count(target@)),
            ),
    {
        proof {
            reveal_strlit("<unknown>");
            reveal_strlit("|");
            reveal_strlit("\n");
        }
        let name: &str = match module {
            Some(m) => m,
            None => "<unknown>",
        };
        assert(name@ =~= module_text(module));
        let module_count = grapheme_len(name);
        let mw = widen(module_width, module_count);
        let mut line = self.theme.paint_log_level(level);
        let ghost lab = line@;
        line.append("|");
        push_padded(&mut line, name, module_count, mw);
        line.append("|");
        if String::from_str(name) == String::from_str(target) {
            line.append(message);
            line.append("\n");
        } else {
            let target_count = grapheme_len(target);
            let tw = widen(target_width, target_count);
            push_padded(&mut line, target, target_count, tw);
            line.append("|");
            line.append(message);
            line.append("\n");
        }
        assert(line@ =~= record_line(
            lab,
            name@,
            target@,
            message@,
            max_nat(module_width as nat, grapheme_count(name@)),
            max_nat(target_width as nat, grapheme_count(target@)),
        ));
        line
    }

    /// The line for a record, or `None` when its level is not enabled. An
    /// enabled record first widens the module column to fit its module (and
    /// the target column to fit its target, where that differs from the
    /// module), then is rendered at the widths now in force.
    pub fn format_record(&self, level: Level, module: Option<&str>, target: &str, message: &str) -> (r: Option<String>)
        ensures
            r is Some <==> passes(self.level_spec(), level),
            r is Some ==> is_record_line(
                r->Some_0@,
                self.theme_spec().rendered_label(level),
                module_text(module),
                target@,
                message@,
            ),
            r is Some && self.theme_spec().style_of(level) == plain_style() ==> is_record_line(
                r->Some_0@,
                label(level),
                module_text(module),
                target@,
                message@,
            ),
    {
        if !self.enabled(level) {
            return None;
        }
        proof {
            reveal_strlit("<unknown>");
        }
        let name: &str = match module {
            Some(m) => m,
            None => "<unknown>",
        };
        assert(name@ =~= module_text(module));
        let module_width = self.update_module_width(grapheme_len(name));
        let target_width = if String::from_str(name) == String::from_str(target) {
            0
        } else {
            self.update_target_width(grapheme_len(target))
        };
        let line = self.render_record(level, module, target, message, module_width, target_width);
        let ghost mw = max_nat(module_width as nat, grapheme_count(name@));
        let ghost tw = max_nat(target_width as nat, grapheme_count(target@));
        assert(record_line(self.theme.rendered_label(level), name@, target@, message@, mw, tw)
            == line@);
        Some(line)
    }

    /// Writes the line for a record to this logger's destination, if its level
    /// is enabled.
    pub fn log_record(&self, level: Level, module: Option<&str>, target: &str, message: &str) {
        match self.format_record(level, module, target, message) {
            Some(line) => self.destination.write_str(line.as_str()),
            None => {},
        }
    }
}

/// Why the logger could not be installed.
#[derive(Clone, Copy, Debug, PartialEq, Eq, Structural, Hash)]
pub enum InitError {
    /// A logger was installed in this process before.
    AlreadyInitialized,
}

/// The error `log` gives when a logger was installed before.
#[verifier::external_type_specification]
#[verifier::external_body]
pub struct ExSetLoggerError(log::SetLoggerError);

/// A record's metadata, as `log` hands it to a logger.
#[verifier::external_type_specification]
#[verifier::external_body]
pub struct ExMetadata<'a>(log::Metadata<'a>);

/// A record, as `log` hands it to a logger.
#[verifier::external_type_specification]
#[verifier::external_body]
pub struct ExRecord<'a>(log::Record<'a>);

/// Relies on `log::set_boxed_logger`: installs `logger` as the process's
/// logger, or fails if one was installed before.
#[verifier::external_body]
fn install(logger: Logger) -> Result<(), log::SetLoggerError> {
    log::set_boxed_logger(Box::new(logger))
}

/// Relies on `log::set_max_level`: records less severe than `filter` are
/// dropped before they reach the logger.
#[verifier::external_body]
fn set_max_level(filter: LevelFilter) {
    log::set_max_level(match filter {
        LevelFilter::Off => log::LevelFilter::Off,
        LevelFilter::Error => log::LevelFilter::Error,
        LevelFilter::Warn => log::LevelFilter::Warn,
        LevelFilter::Info => log::LevelFilter::Info,
        LevelFilter::Debug => log::LevelFilter::Debug,
        LevelFilter::Trace => log::LevelFilter::Trace,
    })
}

impl Logger {
    /// Sets this logger as the global logger.
    pub fn set_logger(self) -> Result<(), InitError> {
        let level = self.level;
        match install(self) {
            Ok(()) => {
                set_max_level(level);
                Ok(())
            },
            Err(_) => Err(InitError::AlreadyInitialized),
        }
    }
}

impl Logger {
    /// A logger to standard error at the info level, coloured iff
    /// `is_terminal` says that standard error is a terminal.
    pub fn for_stderr(is_terminal: bool) -> (r: Logger)
        ensures
            r.destination_spec() == Destination::Stderr,
            r.level_spec() == LevelFilter::Info,
            r.theme_spec() == (if is_terminal {
                default_theme()
            } else {
                empty_theme()
            }),
    {
        let theme = if is_terminal {
            Theme::default()
        } else {
            Theme::empty()
        };
        Logger::new(Destination::Stderr, LevelFilter::Info, theme)
    }
}

impl Default for Logger {
    /// A logger to standard error at the info level, coloured iff standard
    /// error is a terminal.
    fn default() -> (r: Logger)
        ensures
            r.destination_spec() == Destination::Stderr,
            r.level_spec() == LevelFilter::Info,
            r.theme_spec() == default_theme() || r.theme_spec() == empty_theme(),
    {
        Logger::for_stderr(Destination::default().isatty())
    }
}

/// Relies on `log::Metadata::level`: the level of the record it describes,
/// variant for variant.
#[verifier::external_body]
fn metadata_level(metadata: &log::Metadata) -> Level {
    match metadata.level() {
        log::Level::Error => Level::Error,
        log::Level::Warn => Level::Warn,
        log::Level::Info => Level::Info,
        log::Level::Debug => Level::Debug,
        log::Level::Trace => Level::Trace,
    }
}

/// Relies on `log::Record::level`: the record's level, variant for variant.
#[verifier::external_body]
fn record_level(record: &log::Record) -> Level {
    match record.level() {
        log::Level::Error => Level::Error,
        log::Level::Warn => Level::Warn,
        log::Level::Info => Level::Info,
        log::Level::Debug => Level::Debug,
        log::Level::Trace => Level::Trace,
    }
}

/// Relies on `log::Record::module_path_static`: the module the `log` macros
/// record a call site in. A record built by hand with a borrowed module path
/// gives `None` here.
#[verifier::external_body]
fn record_module<'a>(record: &'a log::Record) -> Option<&'a str> {
    record.module_path_static()
}

/// Relies on `log::Record::target`: the record's target.
#[verifier::external_body]
fn record_target<'a>(record: &'a log::Record) -> &'a str {
    record.target()
}

/// Relies on `log::Record::args` and `ToString`: the record's message as text.
#[verifier::external_body]
fn record_message(record: &log::Record) -> String {
    record.args().to_string()
}

impl log::Log for Logger {
    fn enabled(&self, metadata: &log::Metadata) -> bool {
        self.level.allows(metadata_level(metadata))
    }

    fn log(&self, record: &log::Record) {
        let message = record_message(record);
        self.log_record(record_level(record), record_module(record), record_target(record), message.as_str())
    }

    /// Nothing is buffered: every line is written as it is made.
    fn flush(&self) {
    }
}

} // verus!
