//! The state behind the dashboard: the settings, the log and the simulated
//! scan. The window reads the clocks and draws; what a click or a tick does
//! to the state is decided here.

use vstd::prelude::*;
use vstd::string::StringExecFns;

verus! {

/// The log keeps this many lines; older ones are dropped.
pub const MAX_LINES: usize = 500;

/// What a scan looks at.
#[derive(Clone, Copy, Debug, PartialEq, Eq, Structural)]
pub enum ScanKind {
    Process,
    Disk,
}

/// The pages of the window.
#[derive(Clone, Copy, Debug, PartialEq, Eq, Structural)]
pub enum Tab {
    Dashboard,
    Logs,
    Settings,
}

/// A scan under way: its kind, the reading of the monotonic clock when it
/// started, in milliseconds, and whether its half-way line has been logged.
#[derive(Clone, Copy, Debug, PartialEq, Eq, Structural)]
pub struct ScanState {
    pub kind: ScanKind,
    pub start: u64,
    pub halfway_logged: bool,
}

/// The clocks at one moment: the monotonic clock in milliseconds, and the
/// time since the Unix epoch in whole seconds and the milliseconds beyond.
#[derive(Clone, Copy, Debug, PartialEq, Eq, Structural)]
pub struct Clock {
    pub monotonic_ms: u64,
    pub unix_secs: u64,
    pub subsec_millis: u32,
}

/// The decimal digit `d`.
pub open spec fn digit(d: nat) -> char {
    if d == 0 {
        '0'
    } else if d == 1 {
        '1'
    } else if d == 2 {
        '2'
    } else if d == 3 {
        '3'
    } else if d == 4 {
        '4'
    } else if d == 5 {
        '5'
    } else if d == 6 {
        '6'
    } else if d == 7 {
        '7'
    } else if d == 8 {
        '8'
    } else {
        '9'
    }
}

/// `n` in decimal, without leading zeros.
pub open spec fn decimal(n: nat) -> Seq<char>
    decreases n,
{
    if n < 10 {
        seq![digit(n)]
    } else {
        decimal(n / 10).push(digit(n % 10))
    }
}

/// `n` in decimal, filled up with zeros in front to three digits.
pub open spec fn decimal3(n: nat) -> Seq<char> {
    if n < 10 {
        seq!['0', '0'] + decimal(n)
    } else if n < 100 {
        seq!['0'] + decimal(n)
    } else {
        decimal(n)
    }
}

/// A time as the log prints it: the seconds, a point, and the milliseconds
/// in at least three digits.
pub open spec fn timestamp(secs: nat, millis: nat) -> Seq<char> {
    decimal(secs) + seq!['.'] + decimal3(millis)
}

/// A line of the log: the time in square brackets, a space, the message.
pub open spec fn log_text(secs: nat, millis: nat, msg: Seq<char>) -> Seq<char> {
    seq!['['] + timestamp(secs, millis) + seq![']', ' '] + msg
}

fn digit_str(d: u64) -> (text: &'static str)
    requires
        d < 10,
    ensures
        text@ == seq![digit(d as nat)],
{
    proof {
        reveal_strlit("0");
        reveal_strlit("1");
        reveal_strlit("2");
        reveal_strlit("3");
        reveal_strlit("4");
        reveal_strlit("5");
        reveal_strlit("6");
        reveal_strlit("7");
        reveal_strlit("8");
        reveal_strlit("9");
    }
    let text = if d == 0 {
        "0"
    } else if d == 1 {
        "1"
    } else if d == 2 {
        "2"
    } else if d == 3 {
        "3"
    } else if d == 4 {
        "4"
    } else if d == 5 {
        "5"
    } else if d == 6 {
        "6"
    } else if d == 7 {
        "7"
    } else if d == 8 {
        "8"
    } else {
        "9"
    };
    assert(text@ =~= seq![digit(d as nat)]);
    text
}

fn push_decimal(text: &mut String, n: u64)
    ensures
        final(text)@ == old(text)@ + decimal(n as nat),
    decreases n,
{
    if n >= 10 {
        push_decimal(text, n / 10);
    }
    text.append(digit_str(n % 10));
    assert(text@ =~= old(text)@ + decimal(n as nat));
}

/// The time `secs` seconds and `millis` milliseconds after the epoch, as the
/// log prints it.
pub fn chrono_like_now(secs: u64, millis: u32) -> (text: String)
    ensures
        text@ == timestamp(secs as nat, millis as nat),
{
    let mut text = String::new();
    push_decimal(&mut text, secs);
    proof {
        reveal_strlit(".");
        reveal_strlit("0");
        reveal_strlit("00");
    }
    text.append(".");
    if millis < 10 {
        text.append("00");
    } else if millis < 100 {
        text.append("0");
    }
    push_decimal(&mut text, millis as u64);
    assert(text@ =~= timestamp(secs as nat, millis as nat));
    text
}

/// The newest `keep` of `lines`, or all of them if they are no more.
pub open spec fn newest(lines: Seq<Seq<char>>, keep: nat) -> Seq<Seq<char>> {
    if lines.len() > keep {
        lines.subrange(lines.len() - keep, lines.len() as int)
    } else {
        lines
    }
}

/// The log `lines` after `msg` was logged at `now`: the new line comes last,
/// and only the newest [`MAX_LINES`] lines stay.
pub open spec fn logged(lines: Seq<Seq<char>>, now: Clock, msg: Seq<char>) -> Seq<Seq<char>> {
    newest(
        lines.push(log_text(now.unix_secs as nat, now.subsec_millis as nat, msg)),
        MAX_LINES as nat,
    )
}

impl ScanKind {
    /// The line that says that a scan of this kind has started.
    pub open spec fn started_message(self) -> Seq<char> {
        match self {
            ScanKind::Process => "Process scan started"@,
            ScanKind::Disk => "Disk scan started"@,
        }
    }

    /// The line that says that a scan of this kind is half done.
    pub open spec fn halfway_message(self) -> Seq<char> {
        match self {
            ScanKind::Process => "Process scan: 50%"@,
            ScanKind::Disk => "Disk scan: 50%"@,
        }
    }

    /// The line that says that a scan of this kind is done.
    pub open spec fn completed_message(self) -> Seq<char> {
        match self {
            ScanKind::Process => "Process scan completed"@,
            ScanKind::Disk => "Disk scan completed"@,
        }
    }
}

impl ScanState {
    /// The milliseconds that the scan has run at `now`; none if the clock
    /// reads less than when the scan started.
    pub open spec fn elapsed(self, now: Clock) -> nat {
        if now.monotonic_ms >= self.start {
            (now.monotonic_ms - self.start) as nat
        } else {
            0
        }
    }

    /// Whether the half-way line is due at `now`: after a second, once.
    pub open spec fn halfway_due(self, now: Clock) -> bool {
        !self.halfway_logged && self.elapsed(now) >= 1000
    }

    /// Whether the scan is done at `now`: after two seconds.
    pub open spec fn completed(self, now: Clock) -> bool {
        self.elapsed(now) >= 2000
    }
}

/// The log and the scan after a tick at `now`. With no scan under way
/// nothing changes. Else the half-way line is logged if it is due, then the
/// completion line if the scan is done; a scan that is done is no longer
/// under way, and one that goes on remembers its half-way line.
pub open spec fn ticked(lines: Seq<Seq<char>>, scan: Option<ScanState>, now: Clock) -> (
    Seq<Seq<char>>,
    Option<ScanState>,
) {
    match scan {
        None => (lines, None),
        Some(state) => {
            let halfway = if state.halfway_due(now) {
                logged(lines, now, state.kind.halfway_message())
            } else {
                lines
            };
            if state.completed(now) {
                (logged(halfway, now, state.kind.completed_message()), None)
            } else {
                (
                    halfway,
                    Some(
                        ScanState {
                            halfway_logged: state.halfway_logged || state.halfway_due(now),
                            ..state
                        },
                    ),
                )
            }
        },
    }
}

/// The dashboard's state.
#[derive(Debug)]
pub struct HestiaApp {
    pub edr_enabled: bool,
    pub realtime_monitoring: bool,
    pub quarantine_enabled: bool,
    pub send_telemetry: bool,
    pub current_scan: Option<ScanState>,
    pub logs: Vec<String>,
    pub selected_tab: Tab,
}

impl HestiaApp {
    /// The lines of the log, oldest first.
    pub open spec fn lines(&self) -> Seq<Seq<char>> {
        Seq::new(self.logs@.len(), |i: int| self.logs@[i]@)
    }

    /// The scan under way, if there is one.
    pub open spec fn scan(&self) -> Option<ScanState> {
        self.current_scan
    }

    /// The switches and the selected page.
    pub open spec fn settings(&self) -> (bool, bool, bool, bool, Tab) {
        (
            self.edr_enabled,
            self.realtime_monitoring,
            self.quarantine_enabled,
            self.send_telemetry,
            self.selected_tab,
        )
    }

    /// The state at the start: every switch off, no scan, an empty log, the
    /// dashboard page.
    pub fn new() -> (app: Self)
        ensures
            app.settings() == (false, false, false, false, Tab::Dashboard),
            app.scan() is None,
            app.lines() == Seq::<Seq<char>>::empty(),
    {
        let app = HestiaApp {
            edr_enabled: false,
            realtime_monitoring: false,
            quarantine_enabled: false,
            send_telemetry: false,
            current_scan: None,
            logs: Vec::new(),
            selected_tab: Tab::Dashboard,
        };
        assert(app.lines() =~= Seq::<Seq<char>>::empty());
        app
    }

    /// Empties the log.
    pub fn clear_logs(&mut self)
        ensures
            final(self).lines() == Seq::<Seq<char>>::empty(),
            final(self).scan() == old(self).scan(),
            final(self).settings() == old(self).settings(),
    {
        self.logs.clear();
        assert(self.lines() =~= Seq::<Seq<char>>::empty());
    }

    /// Logs `msg` at `now`.
    pub fn log_line(&mut self, now: Clock, msg: &str)
        ensures
            final(self).lines() == logged(old(self).lines(), now, msg@),
            final(self).scan() == old(self).scan(),
            final(self).settings() == old(self).settings(),
    {
        proof {
            reveal_strlit("[");
            reveal_strlit("] ");
        }
        let mut line = String::new();
        line.append("[");
        line.append(chrono_like_now(now.unix_secs, now.subsec_millis).as_str());
        line.append("] ");
        line.append(msg);
        assert(line@ =~= log_text(now.unix_secs as nat, now.subsec_millis as nat, msg@));
        let ghost before = self.lines();
        self.logs.push(line);
        assert(self.lines() =~= before.push(line@));
        if self.logs.len() > MAX_LINES {
            let drain = self.logs.len() - MAX_LINES;
            let kept = self.logs.split_off(drain);
            self.logs = kept;
            assert(self.lines() =~= newest(before.push(line@), MAX_LINES as nat));
        }
    }

    /// Starts a scan of `kind` at `now`, unless one is under way: then the
    /// log says so and the scan under way goes on.
    pub fn start_scan(&mut self, kind: ScanKind, now: Clock)
        ensures
            final(self).settings() == old(self).settings(),
            old(self).scan() is Some ==> final(self).scan() == old(self).scan()
                && final(self).lines() == logged(old(self).lines(), now, "A scan is already running"@),
            old(self).scan() is None ==> final(self).scan() == Some(
                ScanState { kind, start: now.monotonic_ms, halfway_logged: false },
            ) && final(self).lines() == logged(old(self).lines(), now, kind.started_message()),
    {
        if self.current_scan.is_some() {
            self.log_line(now, "A scan is already running");
            return ;
        }
        match kind {
            ScanKind::Process => self.log_line(now, "Process scan started"),
            ScanKind::Disk => self.log_line(now, "Disk scan started"),
        }
        self.current_scan = Some(ScanState { kind, start: now.monotonic_ms, halfway_logged: false });
    }

    /// Carries the scan under way on to `now`.
    pub fn tick_scan(&mut self, now: Clock)
        ensures
            final(self).settings() == old(self).settings(),
            (final(self).lines(), final(self).scan()) == ticked(
                old(self).lines(),
                old(self).scan(),
                now,
            ),
    {
        let mut clear_scan = false;
        let mut halfway = false;
        let mut completed = false;
        let mut kind = ScanKind::Process;
        if let Some(state) = self.current_scan {
            kind = state.kind;
            let elapsed = if now.monotonic_ms >= state.start {
                now.monotonic_ms - state.start
            } else {
                0
            };
            if !state.halfway_logged && elapsed >= 1000 {
                halfway = true;
                self.current_scan = Some(ScanState { halfway_logged: true, ..state });
            }
            if elapsed >= 2000 {
                completed = true;
                clear_scan = true;
            }
        }
        if halfway {
            match kind {
                ScanKind::Process => self.log_line(now, "Process scan: 50%"),
                ScanKind::Disk => self.log_line(now, "Disk scan: 50%"),
            }
        }
        if completed {
            match kind {
                ScanKind::Process => self.log_line(now, "Process scan completed"),
                ScanKind::Disk => self.log_line(now, "Disk scan completed"),
            }
        }
        if clear_scan {
            self.current_scan = None;
        }
    }
}

impl Default for HestiaApp {
    fn default() -> (app: Self)
        ensures
            app.settings() == (false, false, false, false, Tab::Dashboard),
            app.scan() is None,
            app.lines() == Seq::<Seq<char>>::empty(),
    {
        Self::new()
    }
}

} // verus!
