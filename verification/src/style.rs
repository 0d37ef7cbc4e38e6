//! Decoration of console text: colours and text styles per log level.
//!
//! Colours and styles are those of the `colored` crate. The library decides
//! which decoration a line gets; `colored` turns a decorated line into text with
//! terminal escape codes.

use crate::log_entry::LogLevel;
use vstd::prelude::*;
use vstd::string::*;

verus! {

/// A terminal colour of the `colored` crate, carried as an opaque value.
#[verifier::external_type_specification]
#[verifier::external_body]
pub struct ExColor(colored::Color);

/// A set of text styles of the `colored` crate, carried as an opaque value.
#[verifier::external_type_specification]
#[verifier::external_body]
pub struct ExStyle(colored::Style);

/// The colour that `colored` knows under the given name.
///
/// Trusted: this is `colored`'s conversion of a colour name into a `Color`.
/// Nothing is claimed of the colour returned.
#[verifier::external_body]
fn color_named(name: &str) -> colored::Color {
    colored::Color::from(name)
}

/// The style that switches nothing on.
///
/// Trusted: this is `Style::default()` of `colored`. Nothing is claimed of the
/// style returned.
#[verifier::external_body]
fn clear_style() -> colored::Style {
    colored::Style::default()
}

/// The given style with bold switched on.
///
/// Trusted: this is `Style::bold` of `colored`. Nothing is claimed of the style
/// returned.
#[verifier::external_body]
fn bold(style: colored::Style) -> colored::Style {
    style.bold()
}

/// The given style with underline switched on.
///
/// Trusted: this is `Style::underline` of `colored`. Nothing is claimed of the
/// style returned.
#[verifier::external_body]
fn underline(style: colored::Style) -> colored::Style {
    style.underline()
}

/// The text as `colored` prints it with the given decoration.
///
/// Trusted: the body builds a `ColoredString` from the four parts and formats
/// it. Whether `colored` writes escape codes depends on the terminal and on the
/// environment, so nothing is claimed of the text returned.
#[verifier::external_body]
fn paint(
    text: &str,
    fg: Option<colored::Color>,
    bg: Option<colored::Color>,
    style: colored::Style,
) -> String {
    let mut styled = colored::Colorize::normal(text);
    styled.fgcolor = fg;
    styled.bgcolor = bg;
    styled.style = style;
    styled.to_string()
}

/// Configuration for a log message's text style.
///
/// A foreground colour, a background colour and additional style attributes
/// (bold, underline, ...) for one log level. Where `fg` or `bg` is `None`, that
/// colour is not applied.
#[derive(Debug, Clone, Copy)]
pub struct LogFormatStyle {
    /// Optional foreground color for the log message.
    pub fg: Option<colored::Color>,
    /// Optional background color for the log message.
    pub bg: Option<colored::Color>,
    /// Additional style options (e.g. bold, underline).
    pub style: colored::Style,
}

/// A piece of text together with the decoration it is to be printed with.
#[derive(Debug)]
pub struct StyledText {
    /// The plain text.
    pub text: String,
    /// The foreground colour, if any.
    pub fg: Option<colored::Color>,
    /// The background colour, if any.
    pub bg: Option<colored::Color>,
    /// The text styles.
    pub style: colored::Style,
}

impl StyledText {
    /// The text with the escape codes of its decoration, as the terminal at hand
    /// takes them. Where colours are switched off for the process, that is the
    /// plain text.
    pub fn to_string(&self) -> String {
        paint(self.text.as_str(), self.fg, self.bg, self.style)
    }
}

impl LogFormatStyle {
    /// Applies the configured foreground color, background color, and style to a given string.
    pub fn apply(&self, text: &str) -> (styled: StyledText)
        ensures
            styled.text@ == text@,
            styled.fg == self.fg,
            styled.bg == self.bg,
            styled.style == self.style,
    {
        let mut styled = StyledText { text: text.to_owned(), fg: None, bg: None, style: self.style };
        if let Some(fg) = self.fg {
            styled.fg = Some(fg);
        }
        if let Some(bg) = self.bg {
            styled.bg = Some(bg);
        }
        styled
    }

    /// The built-in decoration of a level, used where no custom table is set:
    /// a foreground colour for every level, and a background colour for
    /// `Debug` and `Critical` only.
    pub fn builtin(level: LogLevel) -> (style: LogFormatStyle)
        ensures
            style.fg is Some,
            style.bg is Some <==> (level is Debug || level is Critical),
    {
        match level {
            LogLevel::Debug => LogFormatStyle {
                fg: Some(color_named("yellow")),
                bg: Some(color_named("black")),
                style: clear_style(),
            },
            LogLevel::Error => LogFormatStyle {
                fg: Some(color_named("bright red")),
                bg: None,
                style: bold(clear_style()),
            },
            LogLevel::Warn => LogFormatStyle {
                fg: Some(color_named("yellow")),
                bg: None,
                style: clear_style(),
            },
            LogLevel::Info => LogFormatStyle {
                fg: Some(color_named("cyan")),
                bg: None,
                style: clear_style(),
            },
            LogLevel::Success => LogFormatStyle {
                fg: Some(color_named("green")),
                bg: None,
                style: clear_style(),
            },
            LogLevel::Critical => LogFormatStyle {
                fg: Some(color_named("bright red")),
                bg: Some(color_named("bright cyan")),
                style: bold(clear_style()),
            },
        }
    }

    /// The decoration of the library's own warnings: bright red, bold, underlined.
    pub fn warning() -> (style: LogFormatStyle)
        ensures
            style.fg is Some,
            style.bg is None,
    {
        LogFormatStyle {
            fg: Some(color_named("bright red")),
            bg: None,
            style: underline(bold(clear_style())),
        }
    }
}

/// Optional custom style configuration for each log level.
///
/// If set, this overrides the built-in scheme used for terminal output.
#[derive(Debug, Clone, Copy)]
pub struct LogFormatStyles {
    pub error: LogFormatStyle,
    pub warn: LogFormatStyle,
    pub info: LogFormatStyle,
    pub debug: LogFormatStyle,
    pub success: LogFormatStyle,
    pub critical: LogFormatStyle,
}

impl LogFormatStyles {
    /// The table's entry for a level.
    pub open spec fn spec_for_level(self, level: LogLevel) -> LogFormatStyle {
        match level {
            LogLevel::Error => self.error,
            LogLevel::Warn => self.warn,
            LogLevel::Info => self.info,
            LogLevel::Debug => self.debug,
            LogLevel::Success => self.success,
            LogLevel::Critical => self.critical,
        }
    }

    /// The table's entry for a level.
    #[verifier::when_used_as_spec(spec_for_level)]
    pub fn for_level(self, level: LogLevel) -> (style: LogFormatStyle)
        ensures
            style == self.spec_for_level(level),
    {
        match level {
            LogLevel::Error => self.error,
            LogLevel::Warn => self.warn,
            LogLevel::Info => self.info,
            LogLevel::Debug => self.debug,
            LogLevel::Success => self.success,
            LogLevel::Critical => self.critical,
        }
    }
}

/// How a console line is decorated.
#[derive(Debug, Clone, Copy)]
pub enum Paint {
    /// No decoration: the text is printed as it is.
    Plain,
    /// The built-in decoration of a level.
    BuiltIn(LogLevel),
    /// A decoration from a custom table.
    Custom(LogFormatStyle),
}

impl Paint {
    /// The given text under this decoration, ready to print.
    ///
    /// Undecorated text comes back unchanged. Decorated text is what `colored`
    /// makes of it for the terminal at hand.
    pub fn render(&self, text: &str) -> (out: String)
        ensures
            *self is Plain ==> out@ == text@,
    {
        match self {
            Paint::Plain => text.to_owned(),
            Paint::BuiltIn(level) => LogFormatStyle::builtin(*level).apply(text).to_string(),
            Paint::Custom(style) => style.apply(text).to_string(),
        }
    }
}

} // verus!
