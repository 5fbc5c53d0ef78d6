//! Lines of the program's log.
use fern::colors::{Color, ColoredLevelConfig};
use vstd::prelude::*;

verus! {

/// The first second, counted from 1970, that no timestamp can be written for: the year 10000.
pub const TIMESTAMP_LIMIT: u64 = 253_402_300_800;

/// How severe a log record is.
#[derive(Clone, Copy, Debug, PartialEq, Eq, Structural)]
pub enum LogLevel {
    Error,
    Warn,
    Info,
    Debug,
    Trace,
}

/// A color that a terminal can write in.
#[derive(Clone, Copy, Debug, PartialEq, Eq, Structural)]
pub enum TermColor {
    Red,
    Yellow,
    Green,
    White,
    BrightBlack,
}

/// The name of a level.
pub open spec fn level_name(level: LogLevel) -> Seq<char> {
    match level {
        LogLevel::Error => "ERROR"@,
        LogLevel::Warn => "WARN"@,
        LogLevel::Info => "INFO"@,
        LogLevel::Debug => "DEBUG"@,
        LogLevel::Trace => "TRACE"@,
    }
}

/// The color that a level is written in.
pub open spec fn level_color(level: LogLevel) -> TermColor {
    match level {
        LogLevel::Error => TermColor::Red,
        LogLevel::Warn => TermColor::Yellow,
        LogLevel::Info => TermColor::Green,
        LogLevel::Debug => TermColor::White,
        LogLevel::Trace => TermColor::BrightBlack,
    }
}

/// The number that selects a color for text.
pub open spec fn color_code(color: TermColor) -> Seq<char> {
    match color {
        TermColor::Red => "31"@,
        TermColor::Yellow => "33"@,
        TermColor::Green => "32"@,
        TermColor::White => "37"@,
        TermColor::BrightBlack => "90"@,
    }
}

/// A level's name between the escape sequences that switch a color on and off.
pub open spec fn painted(color: TermColor, level: LogLevel) -> Seq<char> {
    "\x1B["@ + color_code(color) + "m"@ + level_name(level) + "\x1B[0m"@
}

/// A second, counted from 1970, written as `humantime::format_rfc3339_seconds` writes it, such as
/// `2018-02-14T00:28:07Z`.
pub uninterp spec fn rfc3339_seconds(unix_seconds: u64) -> Seq<char>;

/// A line of the log, from the texts that it is made of.
pub open spec fn line_of(
    timestamp: Seq<char>,
    level: Seq<char>,
    target: Seq<char>,
    message: Seq<char>,
) -> Seq<char> {
    "["@ + timestamp + "]["@ + level + "]["@ + target + "] "@ + message
}

/// A line holds its timestamp, level and target, each in brackets and in this order, then a space
/// and the message, all of them unchanged, and nothing else. The three brackets close at `t`, `l`
/// and `g`.
pub proof fn lines_hold_their_parts(
    timestamp: Seq<char>,
    level: Seq<char>,
    target: Seq<char>,
    message: Seq<char>,
    t: int,
    l: int,
    g: int,
)
    requires
        t == 1 + timestamp.len(),
        l == t + 2 + level.len(),
        g == l + 2 + target.len(),
    ensures
        line_of(timestamp, level, target, message).len() == g + 2 + message.len(),
        line_of(timestamp, level, target, message)[0] == '[',
        line_of(timestamp, level, target, message).subrange(1, t) == timestamp,
        line_of(timestamp, level, target, message)[t] == ']',
        line_of(timestamp, level, target, message)[t + 1] == '[',
        line_of(timestamp, level, target, message).subrange(t + 2, l) == level,
        line_of(timestamp, level, target, message)[l] == ']',
        line_of(timestamp, level, target, message)[l + 1] == '[',
        line_of(timestamp, level, target, message).subrange(l + 2, g) == target,
        line_of(timestamp, level, target, message)[g] == ']',
        line_of(timestamp, level, target, message)[g + 1] == ' ',
        line_of(timestamp, level, target, message).skip(g + 2) == message,
{
    reveal_strlit("[");
    reveal_strlit("][");
    reveal_strlit("] ");
    let line = line_of(timestamp, level, target, message);
    assert(line.subrange(1, t) =~= timestamp);
    assert(line.subrange(t + 2, l) =~= level);
    assert(line.subrange(l + 2, g) =~= target);
    assert(line.skip(g + 2) =~= message);
}

/// Levels are told apart by their colors.
pub proof fn levels_differ_in_color(a: LogLevel, b: LogLevel)
    ensures
        level_color(a) == level_color(b) <==> a == b,
{
}

/// Calls `humantime::format_rfc3339_seconds` on the moment `unix_seconds` after the start of 1970
/// and writes its result out. It is claimed that the text depends on the second alone: the
/// function writes in UTC and looks at nothing else. From the year 10000 on it writes nothing and
/// fails.
#[verifier::external_body]
fn format_timestamp(unix_seconds: u64) -> (r: String)
    requires
        unix_seconds < TIMESTAMP_LIMIT,
    ensures
        r@ == rfc3339_seconds(unix_seconds),
{
    let moment = std::time::UNIX_EPOCH + std::time::Duration::from_secs(unix_seconds);
    humantime::format_rfc3339_seconds(moment).to_string()
}

/// Calls `fern::colors::ColoredLevelConfig::color`, with a configuration in which every level has
/// the one color, and writes its result out. It is claimed that this is the level's name after the
/// escape sequence of the color and before the one that resets it.
#[verifier::external_body]
fn paint(color: TermColor, level: LogLevel) -> (r: String)
    ensures
        r@ == painted(color, level),
{
    let c = match color {
        TermColor::Red => Color::Red,
        TermColor::Yellow => Color::Yellow,
        TermColor::Green => Color::Green,
        TermColor::White => Color::White,
        TermColor::BrightBlack => Color::BrightBlack,
    };
    let config = ColoredLevelConfig::new().error(c).warn(c).info(c).debug(c).trace(c);
    match level {
        LogLevel::Error => config.color(log::Level::Error).to_string(),
        LogLevel::Warn => config.color(log::Level::Warn).to_string(),
        LogLevel::Info => config.color(log::Level::Info).to_string(),
        LogLevel::Debug => config.color(log::Level::Debug).to_string(),
        LogLevel::Trace => config.color(log::Level::Trace).to_string(),
    }
}

/// The least severe level that is logged: debugging records are for debug builds.
pub fn max_level(debug_build: bool) -> (level: LogLevel)
    ensures
        level == if debug_build {
            LogLevel::Debug
        } else {
            LogLevel::Info
        },
{
    if debug_build {
        LogLevel::Debug
    } else {
        LogLevel::Info
    }
}

/// A level's name in the level's color.
pub fn colored_level(level: LogLevel) -> (r: String)
    ensures
        r@ == painted(level_color(level), level),
        level == LogLevel::Error ==> r@ == "\x1B["@ + "31"@ + "m"@ + "ERROR"@ + "\x1B[0m"@,
        level == LogLevel::Warn ==> r@ == "\x1B["@ + "33"@ + "m"@ + "WARN"@ + "\x1B[0m"@,
        level == LogLevel::Info ==> r@ == "\x1B["@ + "32"@ + "m"@ + "INFO"@ + "\x1B[0m"@,
        level == LogLevel::Debug ==> r@ == "\x1B["@ + "37"@ + "m"@ + "DEBUG"@ + "\x1B[0m"@,
        level == LogLevel::Trace ==> r@ == "\x1B["@ + "90"@ + "m"@ + "TRACE"@ + "\x1B[0m"@,
{
    let color = match level {
        LogLevel::Error => TermColor::Red,
        LogLevel::Warn => TermColor::Yellow,
        LogLevel::Info => TermColor::Green,
        LogLevel::Debug => TermColor::White,
        LogLevel::Trace => TermColor::BrightBlack,
    };
    paint(color, level)
}

/// Puts a line of the log together.
pub fn assemble(timestamp: &str, level: &str, target: &str, message: &str) -> (line: String)
    ensures
        line@ == line_of(timestamp@, level@, target@, message@),
        line@ == "["@ + timestamp@ + "]["@ + level@ + "]["@ + target@ + "] "@ + message@,
{
    let mut line = String::new();
    line.append("[");
    line.append(timestamp);
    line.append("][");
    line.append(level);
    line.append("][");
    line.append(target);
    line.append("] ");
    line.append(message);
    line
}

/// The line of the log for a record made `unix_seconds` after the start of 1970.
pub fn format_record(unix_seconds: u64, level: LogLevel, target: &str, message: &str) -> (line: String)
    requires
        unix_seconds < TIMESTAMP_LIMIT,
    ensures
        line@ == line_of(
            rfc3339_seconds(unix_seconds),
            painted(level_color(level), level),
            target@,
            message@,
        ),
        line@ == "["@ + rfc3339_seconds(unix_seconds) + "]["@ + painted(level_color(level), level)
            + "]["@ + target@ + "] "@ + message@,
{
    let timestamp = format_timestamp(unix_seconds);
    let tag = colored_level(level);
    assemble(timestamp.as_str(), tag.as_str(), target, message)
}

} // verus!
