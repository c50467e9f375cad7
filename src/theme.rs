use crate::level::Level;
use vstd::prelude::*;

verus! {

/// A terminal colour, as the escape codes name them.
#[derive(Clone, Copy, Debug, PartialEq, Eq, Structural, Hash)]
pub enum Colour {
    Black,
    Red,
    Green,
    Yellow,
    Blue,
    Purple,
    Cyan,
    White,
    /// One of the 256 colours of the extended palette.
    Fixed(u8),
    /// A 24-bit colour.
    RGB(u8, u8, u8),
}

/// How a piece of text is styled: its colours and its attributes.
#[derive(Clone, Copy, Debug, PartialEq, Eq, Structural, Hash)]
pub struct Style {
    pub foreground: Option<Colour>,
    pub background: Option<Colour>,
    pub is_bold: bool,
    pub is_dimmed: bool,
    pub is_italic: bool,
    pub is_underline: bool,
    pub is_blink: bool,
    pub is_reverse: bool,
    pub is_hidden: bool,
    pub is_strikethrough: bool,
}

/// The style that changes nothing.
pub open spec fn plain_style() -> Style {
    Style {
        foreground: None,
        background: None,
        is_bold: false,
        is_dimmed: false,
        is_italic: false,
        is_underline: false,
        is_blink: false,
        is_reverse: false,
        is_hidden: false,
        is_strikethrough: false,
    }
}

/// The style with only a foreground colour.
pub open spec fn coloured(colour: Colour) -> Style {
    Style { foreground: Some(colour), ..plain_style() }
}

/// The escape codes that `ansi_term` sends before text in `style`.
pub uninterp spec fn style_prefix(style: Style) -> Seq<char>;

/// The code that resets all styles.
pub open spec fn reset_code() -> Seq<char> {
    seq!['\x1b', '[', '0', 'm']
}

/// The escape codes `ansi_term` sends before text in the styles of the
/// coloured theme: attribute codes first, then the foreground colour.
pub open spec fn default_theme_prefix(level: Level) -> Seq<char> {
    match level {
        Level::Error => seq!['\x1b', '[', '1', ';', '3', '1', 'm'],
        Level::Warn => seq!['\x1b', '[', '1', ';', '3', '3', 'm'],
        Level::Info => seq!['\x1b', '[', '3', '6', 'm'],
        Level::Debug => seq!['\x1b', '[', '3', '7', 'm'],
        Level::Trace => seq!['\x1b', '[', '2', ';', '3', '7', 'm'],
    }
}

/// What `ansi_term` sends after text in `style`: nothing for the plain style,
/// the reset code for any other.
pub open spec fn style_suffix(style: Style) -> Seq<char> {
    if style == plain_style() {
        Seq::empty()
    } else {
        reset_code()
    }
}

/// What the terminal is sent for `text` painted in `style`.
pub open spec fn painted(style: Style, text: Seq<char>) -> Seq<char> {
    style_prefix(style) + text + style_suffix(style)
}

impl Style {
    /// A style that changes nothing.
    pub fn new() -> (r: Style)
        ensures
            r == plain_style(),
    {
        Style {
            foreground: None,
            background: None,
            is_bold: false,
            is_dimmed: false,
            is_italic: false,
            is_underline: false,
            is_blink: false,
            is_reverse: false,
            is_hidden: false,
            is_strikethrough: false,
        }
    }
}

impl Colour {
    /// This colour in the normal weight.
    pub fn normal(self) -> (r: Style)
        ensures
            r == coloured(self),
    {
        Style { foreground: Some(self), ..Style::new() }
    }

    /// This colour in bold.
    pub fn bold(self) -> (r: Style)
        ensures
            r == (Style { is_bold: true, ..coloured(self) }),
    {
        Style { is_bold: true, ..self.normal() }
    }

    /// This colour, dimmed.
    pub fn dimmed(self) -> (r: Style)
        ensures
            r == (Style { is_dimmed: true, ..coloured(self) }),
    {
        Style { is_dimmed: true, ..self.normal() }
    }
}

/// The colour type of `ansi_term`, carried from `ansi_colour` to `paint`.
#[verifier::external_type_specification]
#[verifier::external_body]
pub struct ExAnsiColour(ansi_term::Color);

/// Relies on the variants of `ansi_term::Color`, which are the same as ours.
#[verifier::external_body]
fn ansi_colour(colour: Colour) -> ansi_term::Color {
    match colour {
        Colour::Black => ansi_term::Color::Black,
        Colour::Red => ansi_term::Color::Red,
        Colour::Green => ansi_term::Color::Green,
        Colour::Yellow => ansi_term::Color::Yellow,
        Colour::Blue => ansi_term::Color::Blue,
        Colour::Purple => ansi_term::Color::Purple,
        Colour::Cyan => ansi_term::Color::Cyan,
        Colour::White => ansi_term::Color::White,
        Colour::Fixed(n) => ansi_term::Color::Fixed(n),
        Colour::RGB(r, g, b) => ansi_term::Color::RGB(r, g, b),
    }
}

/// Relies on `ansi_term::Style::paint` and its `Display`: the style's prefix,
/// the text, then the reset code; for a plain style the text alone.
#[verifier::external_body]
fn paint(style: Style, text: &str) -> (r: String)
    ensures
        r@ == style_prefix(style) + text@ + style_suffix(style),
        style == plain_style() ==> r@ == text@,
        forall|level: Level|
            #![trigger default_theme().style_of(level)]
            style == default_theme().style_of(level) ==> r@ == default_theme_prefix(level) + text@
                + reset_code(),
{
    let s = ansi_term::Style {
        foreground: style.foreground.map(ansi_colour),
        background: style.background.map(ansi_colour),
        is_bold: style.is_bold,
        is_dimmed: style.is_dimmed,
        is_italic: style.is_italic,
        is_underline: style.is_underline,
        is_blink: style.is_blink,
        is_reverse: style.is_reverse,
        is_hidden: style.is_hidden,
        is_strikethrough: style.is_strikethrough,
    };
    s.paint(text).to_string()
}

/// The label of a level, five characters wide.
pub open spec fn label(level: Level) -> Seq<char> {
    match level {
        Level::Error => seq!['E', 'R', 'R', 'O', 'R'],
        Level::Warn => seq!['W', 'A', 'R', 'N', ' '],
        Level::Info => seq!['I', 'N', 'F', 'O', ' '],
        Level::Debug => seq!['D', 'E', 'B', 'U', 'G'],
        Level::Trace => seq!['T', 'R', 'A', 'C', 'E'],
    }
}

/// The colour scheme: a style for each level's label, and one for module names.
#[derive(Clone, Copy, Debug, PartialEq, Eq, Structural)]
pub struct Theme {
    /// The style to give the "ERROR" string.
    pub error: Style,
    /// The style to give the "WARN" string.
    pub warn: Style,
    /// The style to give the "INFO" string.
    pub info: Style,
    /// The style to give the "DEBUG" string.
    pub debug: Style,
    /// The style to give the "TRACE" string.
    pub trace: Style,
    /// The style to give the module name.
    pub module: Style,
}

/// The theme that styles nothing.
pub open spec fn empty_theme() -> Theme {
    Theme {
        error: plain_style(),
        warn: plain_style(),
        info: plain_style(),
        debug: plain_style(),
        trace: plain_style(),
        module: plain_style(),
    }
}

/// The coloured theme: bold red errors, bold yellow warnings, cyan info, white
/// debug and dimmed white trace; module names unstyled.
pub open spec fn default_theme() -> Theme {
    Theme {
        error: Style { is_bold: true, ..coloured(Colour::Red) },
        warn: Style { is_bold: true, ..coloured(Colour::Yellow) },
        info: coloured(Colour::Cyan),
        debug: coloured(Colour::White),
        trace: Style { is_dimmed: true, ..coloured(Colour::White) },
        module: plain_style(),
    }
}

impl Theme {
    /// The style this theme gives to the label of `level`.
    pub open spec fn style_of(self, level: Level) -> Style {
        match level {
            Level::Error => self.error,
            Level::Warn => self.warn,
            Level::Info => self.info,
            Level::Debug => self.debug,
            Level::Trace => self.trace,
        }
    }

    /// The label of `level` as this theme renders it.
    pub open spec fn rendered_label(self, level: Level) -> Seq<char> {
        painted(self.style_of(level), label(level))
    }

    /// Returns a theme that does not highlight anything.
    pub fn empty() -> (r: Theme)
        ensures
            r == empty_theme(),
    {
        Theme {
            error: Style::new(),
            warn: Style::new(),
            info: Style::new(),
            debug: Style::new(),
            trace: Style::new(),
            module: Style::new(),
        }
    }

    /// Paints the five-character label of a level in this theme's style for it.
    pub fn paint_log_level(&self, level: Level) -> (r: String)
        ensures
            r@ == self.rendered_label(level),
            self.style_of(level) == plain_style() ==> r@ == label(level),
            *self == default_theme() ==> r@ == default_theme_prefix(level) + label(level)
                + reset_code(),
    {
        let (style, name) = match level {
            Level::Error => (self.error, "ERROR"),
            Level::Warn => (self.warn, "WARN "),
            Level::Info => (self.info, "INFO "),
            Level::Debug => (self.debug, "DEBUG"),
            Level::Trace => (self.trace, "TRACE"),
        };
        proof {
            reveal_strlit("ERROR");
            reveal_strlit("WARN ");
            reveal_strlit("INFO ");
            reveal_strlit("DEBUG");
            reveal_strlit("TRACE");
        }
        let r = paint(style, name);
        assert(name@ =~= label(level));
        r
    }
}

impl Default for Theme {
    /// The coloured theme.
    fn default() -> (r: Theme)
        ensures
            r == default_theme(),
    {
        Theme {
            error: Colour::Red.bold(),
            warn: Colour::Yellow.bold(),
            info: Colour::Cyan.normal(),
            debug: Colour::White.normal(),
            trace: Colour::White.dimmed(),
            module: Style::new(),
        }
    }
}

/// Under the coloured theme every label is wrapped in escape codes: its
/// style's prefix, the label, then the reset code.
pub proof fn lemma_default_theme_wraps_labels(level: Level)
    ensures
        default_theme().rendered_label(level) == style_prefix(default_theme().style_of(level))
            + label(level) + reset_code(),
        default_theme().style_of(level).foreground is Some,
{
}

} // verus!
