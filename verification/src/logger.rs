//! The diagnostic log: which records are written, and the line of each.

use vstd::prelude::*;
use vstd::string::*;

verus! {

/// How serious a record is, from the most serious to the most verbose.
#[derive(Clone, Copy, PartialEq, Eq, Structural, Debug)]
pub enum Level {
    Error,
    Warn,
    Info,
    Debug,
    Trace,
}

impl Level {
    /// The place of the level in the order of verbosity, from 1 for `Error`
    /// to 5 for `Trace`.
    pub open spec fn rank(self) -> int {
        match self {
            Level::Error => 1,
            Level::Warn => 2,
            Level::Info => 3,
            Level::Debug => 4,
            Level::Trace => 5,
        }
    }

    /// The name of the level as it is written in a line.
    pub open spec fn name(self) -> Seq<char> {
        match self {
            Level::Error => "ERROR"@,
            Level::Warn => "WARN"@,
            Level::Info => "INFO"@,
            Level::Debug => "DEBUG"@,
            Level::Trace => "TRACE"@,
        }
    }

    /// The place of the level in the order of verbosity.
    pub fn verbosity(&self) -> (r: u8)
        ensures
            r == self.rank(),
    {
        match self {
            Level::Error => 1,
            Level::Warn => 2,
            Level::Info => 3,
            Level::Debug => 4,
            Level::Trace => 5,
        }
    }

    /// The name of the level, filled up with spaces on the right to five
    /// characters.
    pub fn padded_name(&self) -> (s: &'static str)
        ensures
            s@ == left_aligned(self.name(), 5),
    {
        proof {
            reveal_strlit("ERROR");
            reveal_strlit("WARN");
            reveal_strlit("INFO");
            reveal_strlit("DEBUG");
            reveal_strlit("TRACE");
            reveal_strlit("WARN ");
            reveal_strlit("INFO ");
        }
        let s = match self {
            Level::Error => "ERROR",
            Level::Warn => "WARN ",
            Level::Info => "INFO ",
            Level::Debug => "DEBUG",
            Level::Trace => "TRACE",
        };
        assert(s@ =~= left_aligned(self.name(), 5));
        s
    }
}

/// `text` filled up with spaces on the right to `width` characters; a longer
/// text is left as it is.
pub open spec fn left_aligned(text: Seq<char>, width: nat) -> Seq<char> {
    if text.len() >= width {
        text
    } else {
        text + Seq::new((width - text.len()) as nat, |i: int| ' ')
    }
}

/// The most verbose level that is let through to the log: `Debug` when
/// diagnostics were asked for, else `Info`.
pub fn max_level(debug: bool) -> (level: Level)
    ensures
        level == if debug { Level::Debug } else { Level::Info },
{
    if debug {
        Level::Debug
    } else {
        Level::Info
    }
}

/// The module whose records are written.
pub open spec fn logged_module() -> Seq<char> {
    "httpstime_rs"@
}

/// Whether a record of this level from this module is written: the level is
/// no more verbose than `Debug`, and the module is this program's.
pub open spec fn is_logged(level: Level, module: Seq<char>) -> bool {
    level.rank() <= Level::Debug.rank() && module == logged_module()
}

/// The line of a record: the time, the level in five columns, the program's
/// tag in brackets, and the message, one space between each.
pub open spec fn log_line(timestamp: Seq<char>, level: Level, message: Seq<char>) -> Seq<char> {
    timestamp + " "@ + left_aligned(level.name(), 5) + " [httpstime-rs] "@ + message
}

/// The time at the head of a line: the text that the clock gave, or nothing
/// where it gave none.
pub open spec fn stamp_text(stamp: Option<String>) -> Seq<char> {
    match stamp {
        Some(timestamp) => timestamp@,
        None => Seq::<char>::empty(),
    }
}

/// The form of the time at the head of a line: year, month, day, hour,
/// minute and second.
pub fn timestamp_format() -> (format: &'static str)
    ensures
        format@ == "%Y-%m-%d %H:%M:%S"@,
{
    "%Y-%m-%d %H:%M:%S"
}

/// Writes the local time of the moment of the call in the form `format`,
/// with `time::now` and `time::strftime`. `None` where `strftime` refuses
/// the form. Nothing is claimed of the text: it depends on the clock and on
/// the time zone of the machine.
#[verifier::external_body]
fn local_time_text(format: &str) -> (text: Option<String>) {
    time::strftime(format, &time::now()).ok()
}

/// The logger of this program. It writes nothing itself: it says which
/// records are written and gives the line of each.
#[derive(Clone, Copy, Debug)]
pub struct SimpleLogger;

impl SimpleLogger {
    /// Whether records of this level are taken: all but `Trace`.
    pub fn enabled(&self, level: Level) -> (b: bool)
        ensures
            b == (level.rank() <= Level::Debug.rank()),
    {
        level.verbosity() <= Level::Debug.verbosity()
    }

    /// The line of a record that was made at the time written in
    /// `timestamp`.
    pub fn format(&self, timestamp: &str, level: Level, message: &str) -> (line: String)
        ensures
            line@ == log_line(timestamp@, level, message@),
    {
        let mut line = timestamp.to_owned();
        line.append(" ");
        line.append(level.padded_name());
        line.append(" [httpstime-rs] ");
        line.append(message);
        assert(line@ =~= log_line(timestamp@, level, message@));
        line
    }

    /// The line to write for a record that was made at the time written in
    /// `timestamp`, or `None` for a record that is not written.
    pub fn render(&self, level: Level, module: &str, timestamp: &str, message: &str) -> (line:
        Option<String>)
        ensures
            line is Some <==> is_logged(level, module@),
            line matches Some(l) ==> l@ == log_line(timestamp@, level, message@),
    {
        if self.enabled(level) && module.to_owned() == "httpstime_rs".to_owned() {
            Some(self.format(timestamp, level, message))
        } else {
            None
        }
    }

    /// The line of a record for which the clock gave the time `stamp`: the
    /// line begins with that time, or with no time where the clock gave none.
    pub fn stamped(&self, stamp: Option<String>, level: Level, message: &str) -> (line: String)
        ensures
            line@ == log_line(stamp_text(stamp), level, message@),
    {
        match stamp {
            Some(timestamp) => self.format(timestamp.as_str(), level, message),
            None => {
                let line = self.format("", level, message);
                proof {
                    reveal_strlit("");
                    assert(""@ =~= Seq::<char>::empty());
                }
                line
            },
        }
    }

    /// The line to write for a record made now, or `None` for a record that
    /// is not written. Every record of this program that is no more verbose
    /// than `Debug` gets its line. The line begins with the local time of the
    /// call as the clock gave it, and with no time where the clock gave none.
    pub fn log(&self, level: Level, module: &str, message: &str) -> (line: Option<String>)
        ensures
            line is Some <==> is_logged(level, module@),
            line matches Some(l) ==> exists|timestamp: Seq<char>|
                l@ == #[trigger] log_line(timestamp, level, message@),
    {
        if !(self.enabled(level) && module.to_owned() == "httpstime_rs".to_owned()) {
            return None;
        }
        let stamp = local_time_text(timestamp_format());
        let line = self.stamped(stamp, level, message);
        assert(line@ == log_line(stamp_text(stamp), level, message@));
        Some(line)
    }
}

} // verus!
