//! Log records: the two channels, the lines written to them, and the
//! messages that the supervisor emits.
use vstd::prelude::*;

verus! {

/// The decimal digits of `n`, most significant first, without leading zeros.
pub open spec fn decimal_spec(n: nat) -> Seq<char>
    decreases n,
{
    if n < 10 {
        seq![digit_char(n)]
    } else {
        decimal_spec(n / 10) + seq![digit_char(n % 10)]
    }
}

pub open spec fn digit_char(d: nat) -> char {
    if d == 0 {
        '0'
    } else if d == 1 {
        '1'
    } else if d == 2 {
        '2'
    } else if d == 3 {
        '3'
    } else if d == 4 {
        '4'
    } else if d == 5 {
        '5'
    } else if d == 6 {
        '6'
    } else if d == 7 {
        '7'
    } else if d == 8 {
        '8'
    } else {
        '9'
    }
}

fn digit_str(d: u64) -> (r: &'static str)
    requires
        d < 10,
    ensures
        r@ == seq![digit_char(d as nat)],
{
    proof {
        reveal_strlit("0");
        reveal_strlit("1");
        reveal_strlit("2");
        reveal_strlit("3");
        reveal_strlit("4");
        reveal_strlit("5");
        reveal_strlit("6");
        reveal_strlit("7");
        reveal_strlit("8");
        reveal_strlit("9");
    }
    if d == 0 {
        "0"
    } else if d == 1 {
        "1"
    } else if d == 2 {
        "2"
    } else if d == 3 {
        "3"
    } else if d == 4 {
        "4"
    } else if d == 5 {
        "5"
    } else if d == 6 {
        "6"
    } else if d == 7 {
        "7"
    } else if d == 8 {
        "8"
    } else {
        "9"
    }
}

/// Appends the decimal digits of `n` to `out`.
pub fn push_decimal(out: &mut String, n: u64)
    ensures
        final(out)@ == old(out)@ + decimal_spec(n as nat),
    decreases n,
{
    if n >= 10 {
        push_decimal(out, n / 10);
    }
    out.append(digit_str(n % 10));
    assert(final(out)@ =~= old(out)@ + decimal_spec(n as nat));
}

/// The decimal text of `n`.
pub fn decimal_string(n: u64) -> (r: String)
    ensures
        r@ == decimal_spec(n as nat),
{
    let mut r = String::new();
    push_decimal(&mut r, n);
    assert(r@ =~= decimal_spec(n as nat));
    r
}

/// What the single-instance marker holds: the owner's process identifier.
pub fn lock_contents(pid: u32) -> (r: String)
    ensures
        r@ == decimal_spec(pid as nat),
{
    decimal_string(pid as u64)
}

/// One appended line: `[<unix seconds>] <message>` and a line break.
pub open spec fn log_line_spec(unix_secs: nat, msg: Seq<char>) -> Seq<char> {
    seq!['['] + decimal_spec(unix_secs) + seq![']', ' '] + msg + seq!['\n']
}

/// Formats the record `{unix_secs, msg}` as the line appended to a log.
pub fn log_line(unix_secs: u64, msg: &str) -> (r: String)
    ensures
        r@ == log_line_spec(unix_secs as nat, msg@),
{
    proof {
        reveal_strlit("[");
        reveal_strlit("] ");
        reveal_strlit("\n");
    }
    let mut r = String::from_str("[");
    push_decimal(&mut r, unix_secs);
    r.append("] ");
    r.append(msg);
    r.append("\n");
    assert(r@ =~= log_line_spec(unix_secs as nat, msg@));
    r
}

/// The two logical logs.
#[derive(Clone, Copy, Debug, PartialEq, Eq, Structural)]
pub enum LogChannel {
    /// The general application log.
    App,
    /// The log of the autostart flow.
    Autostart,
}

/// A message that the supervisor asks to have logged.
#[derive(Clone, Copy, Debug, PartialEq, Eq, Structural)]
pub enum Note {
    ProbingHealth,
    AlreadyHealthy,
    ReadyAlreadyRunning,
    PortInUse,
    NotReadyPortInUse,
    SpawnBegin,
    SpawnFailed,
    Spawned,
    HealthOk,
    Ready,
    HealthTimeout,
    NotReadyTimeout,
    Superseded,
}

pub open spec fn note_channel(n: Note) -> LogChannel {
    match n {
        Note::ReadyAlreadyRunning | Note::NotReadyPortInUse | Note::Ready
        | Note::NotReadyTimeout => LogChannel::App,
        _ => LogChannel::Autostart,
    }
}

pub open spec fn note_text(n: Note) -> Seq<char> {
    match n {
        Note::ProbingHealth => "autostart: probing health"@,
        Note::AlreadyHealthy => "autostart: already healthy, skipping spawn"@,
        Note::ReadyAlreadyRunning => "backend autostart: READY (already running)"@,
        Note::PortInUse => "autostart: port 8000 in use but health failed -> NOT_READY"@,
        Note::NotReadyPortInUse => "backend autostart: NOT_READY (PORT_IN_USE_NO_HEALTH)"@,
        Note::SpawnBegin => "autostart: begin"@,
        Note::SpawnFailed => "autostart: spawn failed"@,
        Note::Spawned => "autostart: process spawned"@,
        Note::HealthOk => "autostart: health OK"@,
        Note::Ready => "backend autostart: READY"@,
        Note::HealthTimeout => "autostart: health timeout"@,
        Note::NotReadyTimeout => "backend autostart: NOT_READY (timeout)"@,
        Note::Superseded => "autostart: superseded by a newer flow"@,
    }
}

impl Note {
    /// The log that this message goes to.
    pub fn channel(&self) -> (r: LogChannel)
        ensures
            r == note_channel(*self),
    {
        match self {
            Note::ReadyAlreadyRunning | Note::NotReadyPortInUse | Note::Ready
            | Note::NotReadyTimeout => LogChannel::App,
            _ => LogChannel::Autostart,
        }
    }

    /// The text of this message.
    pub fn text(&self) -> (r: &'static str)
        ensures
            r@ == note_text(*self),
    {
        match self {
            Note::ProbingHealth => "autostart: probing health",
            Note::AlreadyHealthy => "autostart: already healthy, skipping spawn",
            Note::ReadyAlreadyRunning => "backend autostart: READY (already running)",
            Note::PortInUse => "autostart: port 8000 in use but health failed -> NOT_READY",
            Note::NotReadyPortInUse => "backend autostart: NOT_READY (PORT_IN_USE_NO_HEALTH)",
            Note::SpawnBegin => "autostart: begin",
            Note::SpawnFailed => "autostart: spawn failed",
            Note::Spawned => "autostart: process spawned",
            Note::HealthOk => "autostart: health OK",
            Note::Ready => "backend autostart: READY",
            Note::HealthTimeout => "autostart: health timeout",
            Note::NotReadyTimeout => "backend autostart: NOT_READY (timeout)",
            Note::Superseded => "autostart: superseded by a newer flow",
        }
    }
}

} // verus!
