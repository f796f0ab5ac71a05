//! The text that a decoded message becomes in the per-process log files.

use vstd::prelude::*;
use crate::assembler::TextMessage;
use crate::packet::Severity;

verus! {

/// What chrono writes for the UTC instant `secs` seconds after the Unix
/// epoch with format `pattern`, or `None` when the instant is out of its range.
pub uninterp spec fn utc_text(secs: int, pattern: Seq<char>) -> Option<Seq<char>>;

/// Relies on `chrono::DateTime::from_timestamp`, which gives `None` for an
/// instant out of range, and on `DateTime::format` with the pattern
/// `%F %T%.f`, whose text depends on the instant and the pattern alone.
#[verifier::external_body]
fn format_utc(secs: i64, pattern: &str) -> (r: Option<String>)
    requires
        pattern@ == "%F %T%.f"@,
    ensures
        r is Some <==> utc_text(secs as int, pattern@) is Some,
        r matches Some(t) ==> utc_text(secs as int, pattern@) == Some(t@),
{
    match chrono::DateTime::from_timestamp(secs, 0) {
        Some(d) => Some(d.format(pattern).to_string()),
        None => None,
    }
}

/// The decimal digit `d`.
pub open spec fn digit_char(d: nat) -> char {
    seq!['0', '1', '2', '3', '4', '5', '6', '7', '8', '9'][d as int]
}

/// `n` written in decimal, without leading zeros.
pub open spec fn decimal(n: nat) -> Seq<char>
    decreases n,
{
    if n < 10 {
        seq![digit_char(n)]
    } else {
        decimal(n / 10) + seq![digit_char(n % 10)]
    }
}

fn digit_str(d: u64) -> (r: &'static str)
    requires
        d < 10,
    ensures
        r@ == seq![digit_char(d as nat)],
{
    proof {
        reveal_strlit("0");
        reveal_strlit("1");
        reveal_strlit("2");
        reveal_strlit("3");
        reveal_strlit("4");
        reveal_strlit("5");
        reveal_strlit("6");
        reveal_strlit("7");
        reveal_strlit("8");
        reveal_strlit("9");
    }
    let r = match d {
        0 => "0",
        1 => "1",
        2 => "2",
        3 => "3",
        4 => "4",
        5 => "5",
        6 => "6",
        7 => "7",
        8 => "8",
        _ => "9",
    };
    assert(r@ =~= seq![digit_char(d as nat)]);
    r
}

/// `n` in decimal.
pub fn decimal_text(n: u64) -> (r: String)
    ensures
        r@ == decimal(n as nat),
    decreases n,
{
    if n < 10 {
        let mut s = String::new();
        s.append(digit_str(n));
        assert(s@ =~= decimal(n as nat));
        s
    } else {
        let mut s = decimal_text(n / 10);
        s.append(digit_str(n % 10));
        s
    }
}

/// How a severity is written in a log line.
pub open spec fn severity_text(s: Severity) -> Seq<char> {
    match s {
        Severity::Info => "Info"@,
        Severity::Notice => "Notice"@,
        Severity::Warn => "Warn"@,
        Severity::Error => "Error"@,
        Severity::Unknown(c) => "Unknown("@ + decimal(c as nat) + ")"@,
    }
}

impl Severity {
    /// The name of this severity, with the code of an unknown one.
    pub fn name(&self) -> (r: String)
        ensures
            r@ == severity_text(*self),
    {
        let mut s = String::new();
        match self {
            Severity::Info => s.append("Info"),
            Severity::Notice => s.append("Notice"),
            Severity::Warn => s.append("Warn"),
            Severity::Error => s.append("Error"),
            Severity::Unknown(c) => {
                s.append("Unknown(");
                let digits = decimal_text(*c as u64);
                s.append(digits.as_str());
                s.append(")");
            },
        }
        assert(s@ =~= severity_text(*self));
        s
    }
}

/// The line a text message adds to its log file, after the text of its
/// timestamp.
pub open spec fn line_text(time: Seq<char>, msg: TextMessage) -> Seq<char> {
    time + " "@ + severity_text(msg.severity) + " ["@ + msg.channel@ + "] > "@ + msg.message@
        + "\n"@
}

/// Writes the line of `msg` given the text of its timestamp.
pub fn render_line(time: &str, msg: &TextMessage) -> (r: String)
    ensures
        r@ == line_text(time@, *msg),
{
    let mut s = String::new();
    s.append(time);
    s.append(" ");
    let name = msg.severity.name();
    s.append(name.as_str());
    s.append(" [");
    s.append(msg.channel.as_str());
    s.append("] > ");
    s.append(msg.message.as_str());
    s.append("\n");
    assert(s@ =~= line_text(time@, *msg));
    s
}

/// The line of `msg`, its timestamp read as Unix seconds and written as a UTC
/// date and time; `None` when the timestamp is out of the calendar's range.
pub fn log_line(msg: &TextMessage) -> (r: Option<String>)
    ensures
        r is Some <==> msg.timestamp <= i64::MAX && utc_text(msg.timestamp as int, "%F %T%.f"@) is Some,
        r matches Some(l) ==> utc_text(msg.timestamp as int, "%F %T%.f"@) matches Some(t) && l@
            == line_text(t, *msg),
{
    if msg.timestamp > i64::MAX as u64 {
        return None;
    }
    match format_utc(msg.timestamp as i64, "%F %T%.f") {
        Some(time) => Some(render_line(time.as_str(), msg)),
        None => None,
    }
}

/// The directory that holds the logs of process `pid`.
pub fn process_dir(pid: u64) -> (r: String)
    ensures
        r@ == decimal(pid as nat),
{
    decimal_text(pid)
}

/// The file, relative to the working directory, that the messages of module
/// `module` of process `pid` go to.
pub fn log_path(pid: u64, module: &str) -> (r: String)
    ensures
        r@ == decimal(pid as nat) + "/"@ + module@ + ".txt"@,
{
    let mut s = decimal_text(pid);
    s.append("/");
    s.append(module);
    s.append(".txt");
    s
}

} // verus!
