//! Level-filtered, multi-sink diagnostic log facility.
//!
//! Each message carries a severity, a source name and a text. The facility
//! stamps it with the milliseconds since boot (rendered `seconds.fraction`),
//! colors it, and fans the finished line out to every registered sink. A
//! message below the configured minimum severity is dropped without reaching
//! any sink.

use vstd::prelude::*;
use vstd::string::StringExecFns;
use crate::ansi;

verus! {

#[derive(Clone, Copy, PartialEq, Eq, Structural, Debug)]
pub enum LogLevel {
    TRACE,
    DEBUG,
    INFO,
    WARN,
    ERROR,
}

/// Numeric severity, low to high.
pub open spec fn level_rank(level: LogLevel) -> int {
    match level {
        LogLevel::TRACE => 0,
        LogLevel::DEBUG => 1,
        LogLevel::INFO => 2,
        LogLevel::WARN => 3,
        LogLevel::ERROR => 4,
    }
}

/// The 3-letter tag a severity is printed as.
pub open spec fn spec_level_tag(level: LogLevel) -> Seq<char> {
    match level {
        LogLevel::TRACE => "TRC"@,
        LogLevel::DEBUG => "DBG"@,
        LogLevel::INFO => "INF"@,
        LogLevel::WARN => "WRN"@,
        LogLevel::ERROR => "ERR"@,
    }
}

/// The color a severity is printed in.
pub open spec fn spec_level_color(level: LogLevel) -> Seq<char> {
    match level {
        LogLevel::TRACE => ansi::FOREGROUND_BRIGHT_WHITE@,
        LogLevel::DEBUG => ansi::FOREGROUND_BRIGHT_GREEN@,
        LogLevel::INFO => ansi::FOREGROUND_BRIGHT_BLUE@,
        LogLevel::WARN => ansi::FOREGROUND_BRIGHT_YELLOW@,
        LogLevel::ERROR => ansi::FOREGROUND_BRIGHT_RED@,
    }
}

/// Exposes the severity ordering to executable code.
pub fn rank(level: LogLevel) -> (r: u8)
    ensures
        r as int == level_rank(level),
{
    match level {
        LogLevel::TRACE => 0,
        LogLevel::DEBUG => 1,
        LogLevel::INFO => 2,
        LogLevel::WARN => 3,
        LogLevel::ERROR => 4,
    }
}

pub fn level_as_string(level: LogLevel) -> (r: &'static str)
    ensures
        r@ == spec_level_tag(level),
{
    match level {
        LogLevel::TRACE => "TRC",
        LogLevel::DEBUG => "DBG",
        LogLevel::INFO => "INF",
        LogLevel::WARN => "WRN",
        LogLevel::ERROR => "ERR",
    }
}

pub fn ansi_color(level: LogLevel) -> (r: &'static str)
    ensures
        r@ == spec_level_color(level),
{
    match level {
        LogLevel::TRACE => ansi::FOREGROUND_BRIGHT_WHITE,
        LogLevel::DEBUG => ansi::FOREGROUND_BRIGHT_GREEN,
        LogLevel::INFO => ansi::FOREGROUND_BRIGHT_BLUE,
        LogLevel::WARN => ansi::FOREGROUND_BRIGHT_YELLOW,
        LogLevel::ERROR => ansi::FOREGROUND_BRIGHT_RED,
    }
}

/// The character for one decimal digit.
pub open spec fn spec_digit(d: int) -> char
    recommends
        0 <= d < 10,
{
    if d == 0 { '0' }
    else if d == 1 { '1' }
    else if d == 2 { '2' }
    else if d == 3 { '3' }
    else if d == 4 { '4' }
    else if d == 5 { '5' }
    else if d == 6 { '6' }
    else if d == 7 { '7' }
    else if d == 8 { '8' }
    else { '9' }
}

/// The decimal rendering of a non-negative number, most significant digit
/// first, without leading zeros (a lone zero for zero).
pub open spec fn dec_seq(n: int) -> Seq<char>
    recommends
        n >= 0,
    decreases n,
{
    if n <= 9 {
        seq![spec_digit(n)]
    } else {
        dec_seq(n / 10) + seq![spec_digit(n % 10)]
    }
}

/// The decimal rendering of a number below 1000, padded with zeros to
/// exactly three digits (the fractional part of the timestamp).
pub open spec fn pad3_seq(n: int) -> Seq<char>
    recommends
        0 <= n < 1000,
{
    if n <= 9 {
        seq!['0', '0'] + dec_seq(n)
    } else if n <= 99 {
        seq!['0'] + dec_seq(n)
    } else {
        dec_seq(n)
    }
}

fn digit_str(d: u64) -> (r: &'static str)
    requires
        d < 10,
    ensures
        r@ == seq![spec_digit(d as int)],
{
    let r: &'static str = match d {
        0 => "0",
        1 => "1",
        2 => "2",
        3 => "3",
        4 => "4",
        5 => "5",
        6 => "6",
        7 => "7",
        8 => "8",
        _ => "9",
    };
    proof {
        reveal_strlit("0");
        reveal_strlit("1");
        reveal_strlit("2");
        reveal_strlit("3");
        reveal_strlit("4");
        reveal_strlit("5");
        reveal_strlit("6");
        reveal_strlit("7");
        reveal_strlit("8");
        reveal_strlit("9");
        assert(r@ =~= seq![spec_digit(d as int)]);
    }
    r
}

/// Renders a number in decimal.
pub fn u64_to_dec(n: u64) -> (r: String)
    ensures
        r@ == dec_seq(n as int),
    decreases n,
{
    if n <= 9 {
        let r = String::from_str(digit_str(n));
        proof {
            assert(r@ =~= dec_seq(n as int));
        }
        r
    } else {
        let mut s = u64_to_dec(n / 10);
        s.append(digit_str(n % 10));
        s
    }
}

/// Renders the millisecond fraction, zero-padded to three digits.
pub fn u64_to_frac3(n: u64) -> (r: String)
    requires
        n < 1000,
    ensures
        r@ == pad3_seq(n as int),
{
    proof {
        reveal_strlit("0");
        reveal_strlit("00");
    }
    let digits = u64_to_dec(n);
    let mut s = String::new();
    if n <= 9 {
        s.append("00");
        proof {
            assert("00"@ =~= seq!['0', '0']);
        }
    } else if n <= 99 {
        s.append("0");
        proof {
            assert("0"@ =~= seq!['0']);
        }
    }
    s.append(digits.as_str());
    proof {
        assert(s@ =~= pad3_seq(n as int));
    }
    s
}

/// The complete line the facility emits for one message: a cyan
/// `[seconds.fraction]` timestamp, the colored 3-letter severity tag, the
/// source name in brackets, and the message.
pub open spec fn spec_log_line(ms: int, level: LogLevel, name: Seq<char>, msg: Seq<char>) -> Seq<char>
    recommends
        ms >= 0,
{
    ansi::FOREGROUND_CYAN@ + "["@ + dec_seq(ms / 1000) + "."@ + pad3_seq(ms % 1000) + "]"@
        + spec_level_color(level) + "["@ + spec_level_tag(level) + "]"@
        + ansi::FOREGROUND_DEFAULT@ + "["@ + name + "] "@ + msg
}

/// Builds the formatted line for one message.
pub fn format_log_line(ms: u64, level: LogLevel, name: &str, msg: &str) -> (r: String)
    ensures
        r@ == spec_log_line(ms as int, level, name@, msg@),
{
    let seconds = u64_to_dec(ms / 1000);
    let fraction = u64_to_frac3(ms % 1000);
    let mut s = String::from_str(ansi::FOREGROUND_CYAN);
    s.append("[");
    s.append(seconds.as_str());
    s.append(".");
    s.append(fraction.as_str());
    s.append("]");
    s.append(ansi_color(level));
    s.append("[");
    s.append(level_as_string(level));
    s.append("]");
    s.append(ansi::FOREGROUND_DEFAULT);
    s.append("[");
    s.append(name);
    s.append("] ");
    s.append(msg);
    proof {
        assert(s@ =~= spec_log_line(ms as int, level, name@, msg@));
    }
    s
}

/// One registered diagnostic sink. The facility owns the text a sink has
/// received so far; the kernel flushes it to the underlying output stream.
pub struct Sink {
    pub id: usize,
    pub content: String,
}

/// The log facility: a minimum severity and the registered sinks.
pub struct LogService {
    pub level: LogLevel,
    pub streams: Vec<Sink>,
    pub next_id: usize,
}

impl LogService {
    /// Sink handles are unique: they are handed out in increasing order, and
    /// every handle in use is below the next one to be handed out.
    pub open spec fn wf(self) -> bool {
        &&& forall|i: int, j: int|
            0 <= i < j < self.streams@.len() ==> self.streams@[i].id < self.streams@[j].id
        &&& forall|i: int| 0 <= i < self.streams@.len() ==> #[trigger] self.streams@[i].id < self.next_id
    }

    /// A fresh facility: minimum severity `INFO`, no sinks.
    pub fn new() -> (r: LogService)
        ensures
            r.wf(),
            r.level == LogLevel::INFO,
            r.streams@.len() == 0,
            r.next_id == 0,
    {
        LogService { level: LogLevel::INFO, streams: Vec::new(), next_id: 0 }
    }

    /// Changes the minimum severity below which messages are dropped.
    pub fn set_level(&mut self, level: LogLevel)
        ensures
            final(self).level == level,
            final(self).streams == old(self).streams,
            final(self).next_id == old(self).next_id,
    {
        self.level = level;
    }

    /// Registers a new sink and returns its handle.
    pub fn register(&mut self) -> (id: usize)
        requires
            old(self).wf(),
            old(self).next_id < usize::MAX,
        ensures
            final(self).wf(),
            id == old(self).next_id,
            final(self).next_id == old(self).next_id + 1,
            final(self).level == old(self).level,
            final(self).streams@.len() == old(self).streams@.len() + 1,
            forall|i: int|
                0 <= i < old(self).streams@.len()
                    ==> final(self).streams@[i] == old(self).streams@[i],
            final(self).streams@.last().id == id,
            final(self).streams@.last().content@ == Seq::<char>::empty(),
    {
        let id = self.next_id;
        self.streams.push(Sink { id, content: String::new() });
        self.next_id = self.next_id + 1;
        id
    }

    /// Removes the sink with the given handle, keeping the others in order.
    /// A handle that is not registered leaves the facility unchanged.
    pub fn remove(&mut self, id: usize)
        requires
            old(self).wf(),
        ensures
            final(self).wf(),
            final(self).level == old(self).level,
            final(self).next_id == old(self).next_id,
            (forall|i: int|
                0 <= i < old(self).streams@.len() ==> #[trigger] old(self).streams@[i].id != id)
                ==> *final(self) == *old(self),
            forall|i: int|
                0 <= i < old(self).streams@.len() && #[trigger] old(self).streams@[i].id == id
                    ==> final(self).streams@ == old(self).streams@.remove(i),
    {
        let n = self.streams.len();
        let mut i: usize = 0;
        while i < n
            invariant
                old(self).wf(),
                i <= n,
                n == self.streams@.len(),
                *self == *old(self),
                forall|j: int| 0 <= j < i ==> #[trigger] self.streams@[j].id != id,
            decreases n - i,
        {
            if self.streams[i].id == id {
                self.streams.remove(i);
                proof {
                    assert forall|a: int, b: int|
                        0 <= a < b < self.streams@.len() implies self.streams@[a].id
                        < self.streams@[b].id by {
                        assert(self.streams@[a]
                            == if a < i as int {
                                old(self).streams@[a]
                            } else {
                                old(self).streams@[a + 1]
                            });
                        assert(self.streams@[b]
                            == if b < i as int {
                                old(self).streams@[b]
                            } else {
                                old(self).streams@[b + 1]
                            });
                        let a0: int = if a < i as int { a } else { a + 1 };
                        let b0: int = if b < i as int { b } else { b + 1 };
                        assert(0 <= a0 < b0 < old(self).streams@.len());
                        assert(old(self).streams@[a0].id < old(self).streams@[b0].id);
                    }
                }
                return ;
            }
            i = i + 1;
        }
    }

    /// Emits one message. A message whose severity is below the configured
    /// minimum reaches no sink; otherwise the formatted line followed by a
    /// newline is appended to every registered sink, in registration order.
    pub fn log(&mut self, ms: u64, level: LogLevel, name: &str, msg: &str)
        requires
            old(self).wf(),
        ensures
            final(self).wf(),
            final(self).level == old(self).level,
            final(self).next_id == old(self).next_id,
            final(self).streams@.len() == old(self).streams@.len(),
            level_rank(level) < level_rank(old(self).level) ==> *final(self) == *old(self),
            level_rank(level) >= level_rank(old(self).level) ==> forall|i: int|
                0 <= i < old(self).streams@.len()
                    ==> #[trigger] final(self).streams@[i].id == old(self).streams@[i].id,
            level_rank(level) >= level_rank(old(self).level) ==> forall|i: int|
                0 <= i < old(self).streams@.len()
                    ==> #[trigger] final(self).streams@[i].content@ == old(self).streams@[i].content@
                        + spec_log_line(ms as int, level, name@, msg@) + seq!['\n'],
    {
        if rank(level) < rank(self.level) {
            return ;
        }
        let line = format_log_line(ms, level, name, msg);
        let n = self.streams.len();
        let mut i: usize = 0;
        while i < n
            invariant
                i <= n,
                n == self.streams@.len(),
                self.streams@.len() == old(self).streams@.len(),
                self.level == old(self).level,
                self.next_id == old(self).next_id,
                line@ == spec_log_line(ms as int, level, name@, msg@),
                forall|j: int| i <= j < n ==> self.streams@[j] == old(self).streams@[j],
                forall|j: int|
                    0 <= j < i ==> #[trigger] self.streams@[j].id == old(self).streams@[j].id,
                forall|j: int|
                    0 <= j < i ==> #[trigger] self.streams@[j].content@ == old(
                        self,
                    ).streams@[j].content@ + line@ + seq!['\n'],
            decreases n - i,
        {
            proof {
                reveal_strlit("\n");
                assert("\n"@ =~= seq!['\n']);
            }
            let sink_id = self.streams[i].id;
            let mut c = self.streams[i].content.clone();
            c.append(line.as_str());
            c.append("\n");
            self.streams[i] = Sink { id: sink_id, content: c };
            i = i + 1;
        }
        proof {
            assert forall|a: int, b: int|
                0 <= a < b < self.streams@.len() implies self.streams@[a].id
                < self.streams@[b].id by {
                assert(old(self).streams@[a].id < old(self).streams@[b].id);
            }
            assert forall|a: int|
                0 <= a < self.streams@.len() implies #[trigger] self.streams@[a].id
                < self.next_id by {
                assert(old(self).streams@[a].id < old(self).next_id);
            }
        }
    }
}

} // verus!
