//! The bounded buffer of back-end log lines that the front end reads and clears.
use vstd::prelude::*;

verus! {

/// Most lines the buffer keeps; older lines are dropped first.
pub const MAX_LOG_LINES: usize = 1024;

/// The character that stands for the decimal digit `d`.
pub open spec fn digit_char(d: int) -> char {
    (d + 48) as char
}

/// `value` written with exactly two decimal digits (`value < 100`).
pub open spec fn two_digits(value: int) -> Seq<char> {
    seq![digit_char(value / 10), digit_char(value % 10)]
}

/// `value` written with exactly three decimal digits (`value < 1000`).
pub open spec fn three_digits(value: int) -> Seq<char> {
    seq![digit_char(value / 100), digit_char((value / 10) % 10), digit_char(value % 10)]
}

/// The time of day `HH:MM:SS.mmm` (UTC) of an instant given as whole seconds since
/// the Unix epoch and the milliseconds within that second.
pub open spec fn clock_text(secs: u64, millis: u32) -> Seq<char> {
    two_digits(((secs / 3600) % 24) as int) + seq![':'] + two_digits(((secs / 60) % 60) as int) + seq![':']
        + two_digits((secs % 60) as int) + seq!['.'] + three_digits(millis as int)
}

/// A log entry: the timestamp in square brackets, a space, then the line.
pub open spec fn stamped_line(timestamp: Seq<char>, line: Seq<char>) -> Seq<char> {
    seq!['['] + timestamp + seq![']', ' '] + line
}

/// The last `MAX_LOG_LINES` entries of `lines` (all of them when there are no more).
pub open spec fn keep_newest(lines: Seq<Seq<char>>) -> Seq<Seq<char>> {
    if lines.len() > MAX_LOG_LINES {
        lines.subrange(lines.len() - MAX_LOG_LINES, lines.len() as int)
    } else {
        lines
    }
}

/// Trimming to the newest lines never leaves more than `MAX_LOG_LINES`, keeps the
/// order, drops only from the front, and keeps the newest line.
pub proof fn lemma_keep_newest(lines: Seq<Seq<char>>)
    ensures
        keep_newest(lines).len() <= MAX_LOG_LINES,
        keep_newest(lines).len() == if lines.len() > MAX_LOG_LINES {
            MAX_LOG_LINES as int
        } else {
            lines.len() as int
        },
        forall|i: int|
            0 <= i < keep_newest(lines).len() ==> #[trigger] keep_newest(lines)[i] == lines[lines.len()
                - keep_newest(lines).len() + i],
        lines.len() > 0 ==> keep_newest(lines).last() == lines.last(),
{
}

/// The text of each string of `v`, in order.
pub open spec fn texts(v: Seq<String>) -> Seq<Seq<char>> {
    v.map_values(|s: String| s@)
}

/// The log lines kept so far, oldest first; never more than `MAX_LOG_LINES`.
pub struct LogBuffer {
    lines: Vec<String>,
}

impl View for LogBuffer {
    type V = Seq<Seq<char>>;

    closed spec fn view(&self) -> Seq<Seq<char>> {
        texts(self.lines@)
    }
}

impl LogBuffer {
    #[verifier::type_invariant]
    closed spec fn bounded(&self) -> bool {
        self.lines@.len() <= MAX_LOG_LINES
    }

    /// An empty buffer.
    pub fn new() -> (buffer: LogBuffer)
        ensures
            buffer@ == Seq::<Seq<char>>::empty(),
    {
        let buffer = LogBuffer { lines: Vec::new() };
        assert(buffer@ =~= Seq::<Seq<char>>::empty());
        buffer
    }

    /// Number of lines held.
    pub fn len(&self) -> (n: usize)
        ensures
            n == self@.len(),
            n <= MAX_LOG_LINES,
    {
        proof {
            use_type_invariant(self);
        }
        self.lines.len()
    }

    /// Appends `entry` and, where that goes over the bound, drops the oldest line.
    fn push_entry(&mut self, entry: String)
        ensures
            final(self)@ == keep_newest(old(self)@.push(entry@)),
    {
        proof {
            use_type_invariant(&*self);
        }
        let mut lines: Vec<String> = Vec::new();
        std::mem::swap(&mut lines, &mut self.lines);
        let ghost before = lines@;
        lines.push(entry);
        assert(texts(lines@) =~= texts(before).push(entry@));
        if lines.len() > MAX_LOG_LINES {
            let ghost grown = lines@;
            let _dropped = lines.remove(0);
            assert(texts(lines@) =~= texts(grown).subrange(1, grown.len() as int));
        }
        self.lines = lines;
    }
}

/// The character of the decimal digit `d`, as a one-character string.
fn digit_text(d: u64) -> (s: &'static str)
    requires
        d < 10,
    ensures
        s@ == seq![digit_char(d as int)],
{
    proof {
        reveal_strlit("0");
        reveal_strlit("1");
        reveal_strlit("2");
        reveal_strlit("3");
        reveal_strlit("4");
        reveal_strlit("5");
        reveal_strlit("6");
        reveal_strlit("7");
        reveal_strlit("8");
        reveal_strlit("9");
    }
    match d {
        0 => "0",
        1 => "1",
        2 => "2",
        3 => "3",
        4 => "4",
        5 => "5",
        6 => "6",
        7 => "7",
        8 => "8",
        _ => "9",
    }
}

/// Appends `value` (below 100) with two digits, zero-padded.
fn append_two_digits(out: &mut String, value: u64)
    requires
        value < 100,
    ensures
        final(out)@ == old(out)@ + two_digits(value as int),
{
    out.append(digit_text(value / 10));
    out.append(digit_text(value % 10));
    assert(final(out)@ =~= old(out)@ + two_digits(value as int));
}

/// Appends `value` (below 1000) with three digits, zero-padded.
fn append_three_digits(out: &mut String, value: u64)
    requires
        value < 1000,
    ensures
        final(out)@ == old(out)@ + three_digits(value as int),
{
    out.append(digit_text(value / 100));
    out.append(digit_text((value / 10) % 10));
    out.append(digit_text(value % 10));
    assert(final(out)@ =~= old(out)@ + three_digits(value as int));
}

/// Formats an instant (seconds since the Unix epoch and the milliseconds of that
/// second) as the UTC time of day `HH:MM:SS.mmm`.
pub fn format_clock(secs: u64, millis: u32) -> (text: String)
    requires
        millis < 1000,
    ensures
        text@ == clock_text(secs, millis),
{
    let mut text = String::new();
    append_two_digits(&mut text, (secs / 3600) % 24);
    text.append(":");
    append_two_digits(&mut text, (secs / 60) % 60);
    text.append(":");
    append_two_digits(&mut text, secs % 60);
    text.append(".");
    append_three_digits(&mut text, millis as u64);
    proof {
        reveal_strlit(":");
        reveal_strlit(".");
    }
    assert(text@ =~= clock_text(secs, millis));
    text
}

/// `std::time::SystemTime`, a wall-clock instant; carried through unopened.
#[verifier::external_type_specification]
#[verifier::external_body]
pub struct ExSystemTime(std::time::SystemTime);

/// Calls `std::time::SystemTime::now`: the current wall-clock time. Nothing is
/// stated of it, since it depends on when the call is made.
#[verifier::external_body]
fn system_time_now() -> std::time::SystemTime {
    std::time::SystemTime::now()
}

/// Calls `SystemTime::duration_since` with `std::time::UNIX_EPOCH`: how long after
/// the Unix epoch `t` lies, zero where the call fails (`t` before the epoch).
/// Nothing is stated of the duration.
#[verifier::external_body]
fn since_unix_epoch(t: &std::time::SystemTime) -> std::time::Duration {
    t.duration_since(std::time::UNIX_EPOCH).unwrap_or_default()
}

/// `Duration::as_secs`: the whole seconds of a duration. Nothing is stated of it
/// (the duration is opaque here).
pub assume_specification[ core::time::Duration::as_secs ](d: &core::time::Duration) -> u64;

/// `Duration::subsec_millis`: the whole milliseconds of the fractional second,
/// which the documentation bounds below one thousand.
pub assume_specification[ core::time::Duration::subsec_millis ](d: &core::time::Duration) -> (millis: u32)
    ensures
        millis < 1000,
;

/// The wall clock as whole seconds since the Unix epoch and the milliseconds of
/// the current second.
fn read_unix_clock() -> (now: (u64, u32))
    ensures
        now.1 < 1000,
{
    let t = system_time_now();
    let since = since_unix_epoch(&t);
    (since.as_secs(), since.subsec_millis())
}

/// The current UTC time of day as `HH:MM:SS.mmm`.
pub fn chrono_now() -> (text: String)
    ensures
        exists|secs: u64, millis: u32| millis < 1000 && text@ == clock_text(secs, millis),
{
    let (secs, millis) = read_unix_clock();
    format_clock(secs, millis)
}

/// Appends `line` stamped with the given instant (`[HH:MM:SS.mmm] line`) and
/// drops the oldest lines beyond `MAX_LOG_LINES`.
pub fn push_log_at(buffer: &mut LogBuffer, secs: u64, millis: u32, line: String)
    requires
        millis < 1000,
    ensures
        final(buffer)@ == keep_newest(old(buffer)@.push(stamped_line(clock_text(secs, millis), line@))),
        final(buffer)@.len() <= MAX_LOG_LINES,
        final(buffer)@.last() == stamped_line(clock_text(secs, millis), line@),
{
    let stamp = format_clock(secs, millis);
    let mut entry = String::new();
    entry.append("[");
    entry.append(stamp.as_str());
    entry.append("] ");
    entry.append(line.as_str());
    proof {
        reveal_strlit("[");
        reveal_strlit("] ");
    }
    assert(entry@ =~= stamped_line(clock_text(secs, millis), line@));
    buffer.push_entry(entry);
    proof {
        lemma_keep_newest(old(buffer)@.push(entry@));
    }
}

/// Appends `line` stamped with the current time of day (`[HH:MM:SS.mmm] line`) and
/// drops the oldest lines beyond `MAX_LOG_LINES`.
pub fn push_log(buffer: &mut LogBuffer, line: String)
    ensures
        exists|secs: u64, millis: u32|
            millis < 1000 && final(buffer)@ == keep_newest(
                old(buffer)@.push(stamped_line(clock_text(secs, millis), line@)),
            ),
        final(buffer)@.len() <= MAX_LOG_LINES,
{
    let (secs, millis) = read_unix_clock();
    push_log_at(buffer, secs, millis, line);
}

/// Hands out every line held, oldest first, and leaves the buffer empty.
pub fn drain_logs(buffer: &mut LogBuffer) -> (lines: Vec<String>)
    ensures
        texts(lines@) == old(buffer)@,
        final(buffer)@ == Seq::<Seq<char>>::empty(),
{
    let mut lines: Vec<String> = Vec::new();
    std::mem::swap(&mut lines, &mut buffer.lines);
    assert(buffer@ =~= Seq::<Seq<char>>::empty());
    lines
}

} // verus!
