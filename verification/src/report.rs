//! The outcome of a run and the line that reports it.
//!
//! Offsets are kept in whole milliseconds and written as seconds with three
//! decimal places, digit by digit, so that the text is exact whatever the
//! magnitude.

use vstd::prelude::*;
use vstd::string::*;

use crate::estimator::OffsetBounds;

verus! {

/// The character that stands for the digit `d`.
pub open spec fn digit_char(d: int) -> char {
    if d == 0 {
        '0'
    } else if d == 1 {
        '1'
    } else if d == 2 {
        '2'
    } else if d == 3 {
        '3'
    } else if d == 4 {
        '4'
    } else if d == 5 {
        '5'
    } else if d == 6 {
        '6'
    } else if d == 7 {
        '7'
    } else if d == 8 {
        '8'
    } else {
        '9'
    }
}

/// The decimal digits of `n`, most significant first, without leading zeros.
pub open spec fn decimal_text(n: nat) -> Seq<char>
    decreases n,
{
    if n < 10 {
        seq![digit_char(n as int)]
    } else {
        decimal_text(n / 10) + seq![digit_char((n % 10) as int)]
    }
}

/// The three decimal places that stand for `n` thousandths, `n` below 1000.
pub open spec fn thousandths_text(n: nat) -> Seq<char> {
    seq![
        digit_char((n / 100) as int),
        digit_char(((n / 10) % 10) as int),
        digit_char((n % 10) as int),
    ]
}

/// The size of `x` without its sign.
pub open spec fn magnitude(x: int) -> nat {
    if x < 0 {
        (-x) as nat
    } else {
        x as nat
    }
}

/// `ms` milliseconds written as seconds with three decimal places: a minus
/// sign where `ms` is negative, the whole seconds, a point, the thousandths.
pub open spec fn seconds_text(ms: int) -> Seq<char> {
    let sign = if ms < 0 {
        seq!['-']
    } else {
        Seq::<char>::empty()
    };
    sign + decimal_text(magnitude(ms) / 1000) + seq!['.'] + thousandths_text(magnitude(ms) % 1000)
}

/// The one-character text of the digit `d`.
fn digit_str(d: u8) -> (s: &'static str)
    requires
        d < 10,
    ensures
        s@ == seq![digit_char(d as int)],
{
    proof {
        reveal_strlit("0");
        reveal_strlit("1");
        reveal_strlit("2");
        reveal_strlit("3");
        reveal_strlit("4");
        reveal_strlit("5");
        reveal_strlit("6");
        reveal_strlit("7");
        reveal_strlit("8");
        reveal_strlit("9");
    }
    let s = if d == 0 {
        "0"
    } else if d == 1 {
        "1"
    } else if d == 2 {
        "2"
    } else if d == 3 {
        "3"
    } else if d == 4 {
        "4"
    } else if d == 5 {
        "5"
    } else if d == 6 {
        "6"
    } else if d == 7 {
        "7"
    } else if d == 8 {
        "8"
    } else {
        "9"
    };
    assert(s@ =~= seq![digit_char(d as int)]);
    s
}

/// Appends the decimal digits of `n` to `out`.
fn push_decimal(out: &mut String, n: u128)
    ensures
        final(out)@ == old(out)@ + decimal_text(n as nat),
    decreases n,
{
    if n >= 10 {
        push_decimal(out, n / 10);
    }
    let d: u8 = (n % 10) as u8;
    out.append(digit_str(d));
    proof {
        if n >= 10 {
            assert(final(out)@ =~= old(out)@ + (decimal_text((n / 10) as nat) + seq![
                digit_char((n % 10) as int),
            ]));
        }
    }
}

/// Appends the three decimal places of `n` thousandths to `out`.
fn push_thousandths(out: &mut String, n: u16)
    requires
        n < 1000,
    ensures
        final(out)@ == old(out)@ + thousandths_text(n as nat),
{
    out.append(digit_str((n / 100) as u8));
    out.append(digit_str(((n / 10) % 10) as u8));
    out.append(digit_str((n % 10) as u8));
    assert(final(out)@ =~= old(out)@ + thousandths_text(n as nat));
}

/// Appends `ms` milliseconds, written as seconds with three decimal places,
/// to `out`.
fn push_seconds(out: &mut String, ms: i128)
    ensures
        final(out)@ == old(out)@ + seconds_text(ms as int),
{
    proof {
        reveal_strlit("-");
        reveal_strlit(".");
    }
    let size: u128 = if ms < 0 {
        out.append("-");
        (-(ms + 1)) as u128 + 1
    } else {
        ms as u128
    };
    assert(size == magnitude(ms as int));
    push_decimal(out, size / 1000);
    out.append(".");
    push_thousandths(out, (size % 1000) as u16);
    assert(final(out)@ =~= old(out)@ + seconds_text(ms as int));
}

/// `ms` milliseconds written as seconds with three decimal places.
pub fn format_seconds(ms: i128) -> (text: String)
    ensures
        text@ == seconds_text(ms as int),
{
    let mut text = String::new();
    push_seconds(&mut text, ms);
    assert(text@ =~= seconds_text(ms as int));
    text
}

/// The outcome of a run as a mathematical value.
pub enum Outcome {
    /// The run ended with a confidence window, in milliseconds.
    Window { server: Seq<char>, low: int, high: int, width: int },
    /// The secure connection could not be verified before any round.
    VerificationFailure { server: Seq<char>, message: Seq<char> },
}

/// The outcome of a run. It is made once, when the run ends.
#[derive(Debug)]
pub enum RunResult {
    /// The confidence window for the offset, in milliseconds.
    Window { server: String, low: i64, high: i64, width: i128 },
    /// The secure connection could not be verified before any round.
    VerificationFailure { server: String, message: String },
}

impl View for RunResult {
    type V = Outcome;

    open spec fn view(&self) -> Outcome {
        match self {
            RunResult::Window { server, low, high, width } => Outcome::Window {
                server: server@,
                low: *low as int,
                high: *high as int,
                width: *width as int,
            },
            RunResult::VerificationFailure { server, message } => Outcome::VerificationFailure {
                server: server@,
                message: message@,
            },
        }
    }
}

/// The window that the bounds `low` and `high` give for `server`: its width
/// is the distance from `low` to `high`.
pub open spec fn window_of(server: Seq<char>, low: int, high: int) -> Outcome {
    Outcome::Window { server, low, high, width: high - low }
}

/// The failure of verification for `server` with the cause that the client
/// gave for it.
pub open spec fn failure_of(server: Seq<char>, cause: Seq<char>) -> Outcome {
    Outcome::VerificationFailure { server, message: "Verify fail: "@ + cause }
}

/// The line that reports an outcome.
///
/// A window is reported with status 0 and its three numbers in seconds; a
/// failure with status 1, `nan` in place of each number, and the message.
pub open spec fn result_line(outcome: Outcome) -> Seq<char> {
    match outcome {
        Outcome::Window { server, low, high, width } => "*RESULT 0 "@ + server + " "@
            + seconds_text(low) + " "@ + seconds_text(high) + " "@ + seconds_text(width),
        Outcome::VerificationFailure { server, message } => "*RESULT 1 "@ + server
            + " nan nan nan "@ + message,
    }
}

impl RunResult {
    /// The confidence window that `bounds` give for `server`.
    pub fn window(server: &str, bounds: OffsetBounds) -> (r: RunResult)
        ensures
            r@ == window_of(server@, bounds@.low, bounds@.high),
    {
        RunResult::Window {
            server: server.to_owned(),
            low: bounds.low,
            high: bounds.high,
            width: bounds.width(),
        }
    }

    /// The failure to verify the secure connection to `server`, with the
    /// cause that the client gave for it.
    pub fn verification_failure(server: &str, cause: &str) -> (r: RunResult)
        ensures
            r@ == failure_of(server@, cause@),
    {
        let mut message = "Verify fail: ".to_owned();
        message.append(cause);
        RunResult::VerificationFailure { server: server.to_owned(), message }
    }

    /// Whether the run ended with a confidence window.
    pub fn is_window(&self) -> (b: bool)
        ensures
            b == (self@ is Window),
    {
        match self {
            RunResult::Window { .. } => true,
            RunResult::VerificationFailure { .. } => false,
        }
    }

    /// The line that reports this outcome. It depends on the outcome alone.
    pub fn line(&self) -> (text: String)
        ensures
            text@ == result_line(self@),
    {
        match self {
            RunResult::Window { server, low, high, width } => {
                let mut text = "*RESULT 0 ".to_owned();
                text.append(server.as_str());
                text.append(" ");
                push_seconds(&mut text, *low as i128);
                text.append(" ");
                push_seconds(&mut text, *high as i128);
                text.append(" ");
                push_seconds(&mut text, *width);
                assert(text@ =~= result_line(self@));
                text
            },
            RunResult::VerificationFailure { server, message } => {
                let mut text = "*RESULT 1 ".to_owned();
                text.append(server.as_str());
                text.append(" nan nan nan ");
                text.append(message.as_str());
                assert(text@ =~= result_line(self@));
                text
            },
        }
    }
}

/// Reporting keeps no state: equal outcomes are reported by equal lines,
/// however often and in whatever order they are reported.
pub proof fn reporting_is_repeatable(first: Outcome, second: Outcome)
    requires
        first == second,
    ensures
        result_line(first) == result_line(second),
{
}

/// The line of a window is made of the server's name and the two bounds
/// alone: its third number is the distance between them.
pub proof fn window_line_from_bounds(server: Seq<char>, low: int, high: int)
    ensures
        result_line(window_of(server, low, high)) == "*RESULT 0 "@ + server + " "@ + seconds_text(
            low,
        ) + " "@ + seconds_text(high) + " "@ + seconds_text(high - low),
{
}

/// The line of a failure carries no number: `nan` stands in each place.
pub proof fn failure_line_has_no_numbers(server: Seq<char>, cause: Seq<char>)
    ensures
        result_line(failure_of(server, cause)) == "*RESULT 1 "@ + server + " nan nan nan "@ + (
        "Verify fail: "@ + cause),
{
}

} // verus!
