//! The kernel's logger: which records pass, and the line that a record
//! becomes on the console.

use vstd::prelude::*;
use vstd::string::*;
use owo_colors::{AnsiColors, DynColors, OwoColorize};

verus! {

/// How grave a record is, the gravest first.
#[derive(Clone, Copy, Debug, PartialEq, Eq, Structural)]
pub enum Level {
    Emerg,
    Alert,
    Crit,
    Error,
    Warn,
    Notice,
    Info,
    Debug,
}

/// How much a logger lets through: nothing, or the records up to a level.
#[derive(Clone, Copy, Debug, PartialEq, Eq, Structural)]
pub enum LevelFilter {
    Off,
    Emerg,
    Alert,
    Crit,
    Error,
    Warn,
    Notice,
    Info,
    Debug,
}

/// The colours that the levels are shown in.
#[derive(Clone, Copy, Debug, PartialEq, Eq, Structural)]
pub enum Color {
    Magenta,
    Yellow,
    Red,
    BrightRed,
    BrightYellow,
    Green,
    Blue,
    Cyan,
}

impl Level {
    /// The place of the level in the order of levels: 1 for the gravest, 8
    /// for the least grave.
    pub open spec fn rank(self) -> nat {
        match self {
            Level::Emerg => 1,
            Level::Alert => 2,
            Level::Crit => 3,
            Level::Error => 4,
            Level::Warn => 5,
            Level::Notice => 6,
            Level::Info => 7,
            Level::Debug => 8,
        }
    }

    /// The colour that the level is shown in.
    pub open spec fn color(self) -> Color {
        match self {
            Level::Emerg => Color::Magenta,
            Level::Alert => Color::Yellow,
            Level::Crit => Color::Red,
            Level::Error => Color::BrightRed,
            Level::Warn => Color::BrightYellow,
            Level::Notice => Color::Green,
            Level::Info => Color::Blue,
            Level::Debug => Color::Cyan,
        }
    }

    /// The name that the level is shown by.
    pub open spec fn name(self) -> Seq<char> {
        match self {
            Level::Emerg => "EMERG"@,
            Level::Alert => "ALERT"@,
            Level::Crit => "CRIT"@,
            Level::Error => "ERROR"@,
            Level::Warn => "WARN"@,
            Level::Notice => "NOTICE"@,
            Level::Info => "INFO"@,
            Level::Debug => "DEBUG"@,
        }
    }

    /// The filter that lets through the records up to this level.
    pub open spec fn filter(self) -> LevelFilter {
        match self {
            Level::Emerg => LevelFilter::Emerg,
            Level::Alert => LevelFilter::Alert,
            Level::Crit => LevelFilter::Crit,
            Level::Error => LevelFilter::Error,
            Level::Warn => LevelFilter::Warn,
            Level::Notice => LevelFilter::Notice,
            Level::Info => LevelFilter::Info,
            Level::Debug => LevelFilter::Debug,
        }
    }

    /// The filter that lets through the records up to this level.
    pub fn to_level_filter(self) -> (filter: LevelFilter)
        ensures
            filter == self.filter(),
            filter.rank() == self.rank(),
    {
        match self {
            Level::Emerg => LevelFilter::Emerg,
            Level::Alert => LevelFilter::Alert,
            Level::Crit => LevelFilter::Crit,
            Level::Error => LevelFilter::Error,
            Level::Warn => LevelFilter::Warn,
            Level::Notice => LevelFilter::Notice,
            Level::Info => LevelFilter::Info,
            Level::Debug => LevelFilter::Debug,
        }
    }

    /// The colour that the level is shown in.
    pub fn level_color(self) -> (color: Color)
        ensures
            color == self.color(),
    {
        match self {
            Level::Emerg => Color::Magenta,
            Level::Alert => Color::Yellow,
            Level::Crit => Color::Red,
            Level::Error => Color::BrightRed,
            Level::Warn => Color::BrightYellow,
            Level::Notice => Color::Green,
            Level::Info => Color::Blue,
            Level::Debug => Color::Cyan,
        }
    }

    /// The name that the level is shown by.
    pub fn as_str(self) -> (name: &'static str)
        ensures
            name@ == self.name(),
    {
        match self {
            Level::Emerg => "EMERG",
            Level::Alert => "ALERT",
            Level::Crit => "CRIT",
            Level::Error => "ERROR",
            Level::Warn => "WARN",
            Level::Notice => "NOTICE",
            Level::Info => "INFO",
            Level::Debug => "DEBUG",
        }
    }
}

impl LevelFilter {
    /// The place of the filter in the order of filters: 0 lets nothing
    /// through, 8 everything.
    pub open spec fn rank(self) -> nat {
        match self {
            LevelFilter::Off => 0,
            LevelFilter::Emerg => 1,
            LevelFilter::Alert => 2,
            LevelFilter::Crit => 3,
            LevelFilter::Error => 4,
            LevelFilter::Warn => 5,
            LevelFilter::Notice => 6,
            LevelFilter::Info => 7,
            LevelFilter::Debug => 8,
        }
    }

    /// The place of the filter in the order of filters.
    pub fn order(self) -> (rank: u8)
        ensures
            rank == self.rank(),
    {
        match self {
            LevelFilter::Off => 0,
            LevelFilter::Emerg => 1,
            LevelFilter::Alert => 2,
            LevelFilter::Crit => 3,
            LevelFilter::Error => 4,
            LevelFilter::Warn => 5,
            LevelFilter::Notice => 6,
            LevelFilter::Info => 7,
            LevelFilter::Debug => 8,
        }
    }
}

/// One message for the log.
pub struct Record {
    /// How grave the message is.
    pub level: Level,
    /// The part of the kernel that the message is about; may be empty.
    pub target: String,
    /// The module that wrote the message, where that is known.
    pub module: Option<String>,
    /// The message.
    pub message: String,
}

impl Record {
    /// What the line names as the origin of the record: the target, or, where
    /// that is empty, the module path, or, where there is none, nothing.
    pub open spec fn origin(self) -> Seq<char> {
        if self.target@.len() > 0 {
            self.target@
        } else {
            match self.module {
                Some(path) => path@,
                None => Seq::empty(),
            }
        }
    }
}

/// `text`, right-aligned in `width` columns, between the escape sequences
/// that switch the terminal's foreground to `color` and back.
pub uninterp spec fn painted(text: Seq<char>, color: Color, width: usize) -> Seq<char>;

/// Calls `owo_colors::OwoColorize::color` on the text and formats what it
/// returns in `width` columns, right-aligned. The result is a function of the
/// three arguments alone: the crate writes the colour's escape sequence, the
/// padded text and the reset sequence, and asks nothing of the terminal.
#[verifier::external_body]
fn paint(text: &str, color: Color, width: usize) -> (shown: String)
    ensures
        shown@ == painted(text@, color, width),
{
    let ansi = match color {
        Color::Magenta => AnsiColors::Magenta,
        Color::Yellow => AnsiColors::Yellow,
        Color::Red => AnsiColors::Red,
        Color::BrightRed => AnsiColors::BrightRed,
        Color::BrightYellow => AnsiColors::BrightYellow,
        Color::Green => AnsiColors::Green,
        Color::Blue => AnsiColors::Blue,
        Color::Cyan => AnsiColors::Cyan,
    };
    format!("{:>1$}", text.color(DynColors::Ansi(ansi)), width)
}

/// The line of a record: the level as it is shown, the origin in square
/// brackets, and the message, with one space between them.
pub open spec fn line_of(level: Seq<char>, origin: Seq<char>, message: Seq<char>) -> Seq<char> {
    level + seq![' ', '['] + origin + seq![']', ' '] + message
}

/// Put a line together from the level as it is shown, the origin and the
/// message.
pub fn format_line(level: &str, origin: &str, message: &str) -> (text: String)
    ensures
        text@ == line_of(level@, origin@, message@),
{
    proof {
        reveal_strlit(" [");
        reveal_strlit("] ");
    }
    let mut text = String::from_str(level);
    text.append(" [");
    text.append(origin);
    text.append("] ");
    text.append(message);
    assert(text@ =~= line_of(level@, origin@, message@));
    text
}

/// The kernel's logger.
#[derive(Clone, Copy, Debug, PartialEq, Eq, Structural)]
pub struct KernelLogger {
    /// The filter that a record has to pass.
    default_level: LevelFilter,
}

impl KernelLogger {
    /// Number of columns that the level takes in a line.
    pub const LEVEL_WIDTH: usize = 6;

    /// The filter that a record has to pass.
    pub closed spec fn filter(self) -> LevelFilter {
        self.default_level
    }

    /// Whether the logger lets a level through: the level is at least as
    /// grave as the filter asks.
    pub open spec fn passes(self, level: Level) -> bool {
        level.rank() <= self.filter().rank()
    }

    /// A logger that lets everything through.
    pub fn new() -> (logger: KernelLogger)
        ensures
            logger.filter() == LevelFilter::Debug,
    {
        KernelLogger { default_level: LevelFilter::Debug }
    }

    /// The same logger with another filter.
    pub fn with_level(self, level: LevelFilter) -> (logger: KernelLogger)
        ensures
            logger.filter() == level,
    {
        KernelLogger { default_level: level }
    }

    /// The filter to install as the global maximum when the logger is made
    /// the global logger.
    pub fn init(&self) -> (max_level: LevelFilter)
        ensures
            max_level == self.filter(),
    {
        self.default_level
    }

    /// Whether the logger lets a level through.
    pub fn enabled(&self, level: Level) -> (enabled: bool)
        ensures
            enabled == self.passes(level),
    {
        level.to_level_filter().order() <= self.default_level.order()
    }

    /// The line to write for a record, or `None` where the record does not
    /// pass the filter.
    pub fn log(&self, record: &Record) -> (written: Option<String>)
        ensures
            match written {
                Some(text) => self.passes(record.level) && text@ == line_of(
                    painted(record.level.name(), record.level.color(), Self::LEVEL_WIDTH),
                    record.origin(),
                    record.message@,
                ),
                None => !self.passes(record.level),
            },
    {
        if !self.enabled(record.level) {
            return None;
        }
        let level_string_color = record.level.level_color();
        let target: &str = if record.target.as_str().unicode_len() > 0 {
            record.target.as_str()
        } else {
            match &record.module {
                Some(path) => path.as_str(),
                None => "",
            }
        };
        proof {
            reveal_strlit("");
        }
        let level = paint(record.level.as_str(), level_string_color, Self::LEVEL_WIDTH);
        Some(format_line(level.as_str(), target, record.message.as_str()))
    }

    /// Nothing is buffered: there is nothing to flush.
    pub fn flush(&self) {
    }
}

} // verus!
