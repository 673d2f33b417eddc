use vstd::prelude::*;

verus! {

/// One line of the dashboard's in-memory log: its severity and the formatted
/// text.
pub type LogEntry = (LogLevel, String);

/// A bounded ring buffer of log lines: pushes beyond the capacity evict the
/// oldest entries first.
pub struct Logger {
    buffer: Vec<LogEntry>,
    buffer_size: usize,
}

/// `buf` cut down to its most recent `cap` entries, oldest dropped first.
pub open spec fn ring_trim(buf: Seq<LogEntry>, cap: nat) -> Seq<LogEntry> {
    if buf.len() > cap {
        buf.skip(buf.len() - cap)
    } else {
        buf
    }
}

/// One bounded push: append the entry, then evict from the front down to the
/// capacity.
pub open spec fn ring_push(buf: Seq<LogEntry>, e: LogEntry, cap: nat) -> Seq<LogEntry> {
    ring_trim(buf.push(e), cap)
}

/// A whole series of bounded pushes, oldest first.
pub open spec fn ring_push_all(buf: Seq<LogEntry>, es: Seq<LogEntry>, cap: nat) -> Seq<LogEntry>
    decreases es.len(),
{
    if es.len() == 0 {
        buf
    } else {
        ring_push_all(ring_push(buf, es[0], cap), es.skip(1), cap)
    }
}

/// One bounded push keeps the newest entries: the result is exactly the
/// suffix of `buf + [e]` that fits the capacity, so its length is the
/// smaller of `buf.len() + 1` and the capacity, and earlier entries are
/// never modified, only evicted from the front.
pub proof fn lemma_ring_push_shape(buf: Seq<LogEntry>, e: LogEntry, cap: nat)
    ensures
        ring_push(buf, e, cap).len() == if buf.len() + 1 > cap {
            cap
        } else {
            buf.len() + 1
        },
        ring_push(buf, e, cap) == buf.push(e).skip(
            if buf.len() + 1 > cap {
                buf.len() + 1 - cap
            } else {
                0
            },
        ),
{
    assert(buf.push(e).skip(0) =~= buf.push(e));
}

/// However full the buffer was before, a series of pushes leaves exactly the
/// suffix of `buf + es` that fits the capacity.
pub proof fn lemma_ring_push_all(buf: Seq<LogEntry>, es: Seq<LogEntry>, cap: nat)
    requires
        es.len() > 0,
    ensures
        ring_push_all(buf, es, cap) == if buf.len() + es.len() > cap {
            (buf + es).skip(buf.len() + es.len() - cap)
        } else {
            buf + es
        },
    decreases es.len(),
{
    let first = ring_push(buf, es[0], cap);
    if es.len() == 1 {
        assert(buf.push(es[0]) =~= buf + es);
        assert(ring_push_all(first, es.skip(1), cap) == first);
    } else {
        lemma_ring_push_all(first, es.skip(1), cap);
        if buf.len() + 1 > cap {
            assert(first =~= buf.push(es[0]).skip(buf.len() + 1 - cap));
            assert(first + es.skip(1) =~= (buf + es).skip(buf.len() + 1 - cap));
            if first.len() + es.skip(1).len() > cap {
                assert((first + es.skip(1)).skip(first.len() + es.skip(1).len() - cap) =~= (buf
                    + es).skip(buf.len() + es.len() - cap));
            } else {
                assert(first + es.skip(1) =~= (buf + es).skip(buf.len() + es.len() - cap));
            }
        } else {
            assert(first =~= buf.push(es[0]));
            assert(first + es.skip(1) =~= buf + es);
        }
    }
}

/// The ring-buffer bound: once more entries than the capacity have been
/// pushed, the buffer holds exactly the most recent `cap` of them, in the
/// order they were pushed, whatever it held before.
pub proof fn lemma_ring_buffer_bound(buf: Seq<LogEntry>, es: Seq<LogEntry>, cap: nat)
    requires
        cap < es.len(),
    ensures
        ring_push_all(buf, es, cap).len() == cap,
        ring_push_all(buf, es, cap) == es.skip(es.len() - cap),
{
    lemma_ring_push_all(buf, es, cap);
    assert((buf + es).skip(buf.len() + es.len() - cap) =~= es.skip(es.len() - cap));
}

impl Logger {
    pub closed spec fn buffer_spec(self) -> Seq<LogEntry> {
        self.buffer@
    }

    pub closed spec fn buffer_size_spec(self) -> nat {
        self.buffer_size as nat
    }

    /// The ring's bound: the buffer never holds more lines than the capacity.
    pub open spec fn wf(self) -> bool {
        self.buffer_spec().len() <= self.buffer_size_spec()
    }

    /// A fresh logger: empty, with the default capacity of 1000 lines.
    pub fn new() -> (r: Logger)
        ensures
            r.buffer_spec() == Seq::<LogEntry>::empty(),
            r.buffer_size_spec() == 1000,
            r.wf(),
    {
        Logger { buffer: Vec::new(), buffer_size: 1000 }
    }

    /// Change the capacity; if the buffer already holds more lines than the
    /// new capacity, the oldest are dropped at once.
    pub fn set_buffer_size(&mut self, new_size: usize)
        ensures
            final(self).buffer_size_spec() == new_size,
            final(self).buffer_spec() == ring_trim(old(self).buffer_spec(), new_size as nat),
            final(self).wf(),
    {
        self.buffer_size = new_size;
        let mut buf = Vec::new();
        std::mem::swap(&mut buf, &mut self.buffer);
        let buf = trim_front(buf, new_size);
        self.buffer = buf;
    }

    pub fn get_buffer_size(&self) -> (r: usize)
        ensures
            r == self.buffer_size_spec(),
    {
        self.buffer_size
    }

    pub fn get_buffer(&self) -> (r: &Vec<LogEntry>)
        ensures
            r@ == self.buffer_spec(),
    {
        &self.buffer
    }

    pub fn trace(&mut self, text: &str)
        ensures
            logged(*old(self), *final(self), LogLevel::Trace, text@),
            final(self).wf(),
    {
        self.push(LogLevel::Trace, text);
    }

    pub fn debug(&mut self, text: &str)
        ensures
            logged(*old(self), *final(self), LogLevel::Debug, text@),
            final(self).wf(),
    {
        self.push(LogLevel::Debug, text);
    }

    pub fn info(&mut self, text: &str)
        ensures
            logged(*old(self), *final(self), LogLevel::Info, text@),
            final(self).wf(),
    {
        self.push(LogLevel::Info, text);
    }

    pub fn warn(&mut self, text: &str)
        ensures
            logged(*old(self), *final(self), LogLevel::Warn, text@),
            final(self).wf(),
    {
        self.push(LogLevel::Warn, text);
    }

    pub fn error(&mut self, text: &str)
        ensures
            logged(*old(self), *final(self), LogLevel::Error, text@),
            final(self).wf(),
    {
        self.push(LogLevel::Error, text);
    }

    fn push(&mut self, log_level: LogLevel, text: &str)
        ensures
            logged(*old(self), *final(self), log_level, text@),
            final(self).wf(),
    {
        let ghost pre_buf = self.buffer@;
        let ghost pre_size = self.buffer_size as nat;
        let stamp = now_stamp();
        let ghost gstamp = stamp@;
        let mut line = String::from_str("[");
        line.append(stamp.as_str());
        line.append("] [");
        line.append(log_level.to_str());
        line.append("] ");
        line.append(text);
        proof {
            assert(line@ =~= log_line(gstamp, log_level, text@));
        }
        let ghost gline = line;
        let mut buf = Vec::new();
        std::mem::swap(&mut buf, &mut self.buffer);
        buf.push((log_level, line));
        let buf = trim_front(buf, self.buffer_size);
        self.buffer = buf;
        proof {
            let e = (log_level, gline);
            assert(self.buffer@ == ring_push(pre_buf, e, pre_size));
            assert(e.1@ == log_line(gstamp, log_level, text@));
            assert(pre_buf == old(self).buffer_spec());
            assert(pre_size == old(self).buffer_size_spec());
        }
    }
}

/// A log line's layout: the wall-clock stamp, the severity tag, the text.
pub open spec fn log_line(stamp: Seq<char>, level: LogLevel, text: Seq<char>) -> Seq<char> {
    "["@ + stamp + "] ["@ + level.to_str_spec() + "] "@ + text
}

/// One line was pushed onto the ring buffer at the given severity: it opens
/// with a wall-clock stamp (the one part left open), then carries the
/// severity tag and the given text.
pub open spec fn logged(pre: Logger, post: Logger, level: LogLevel, text: Seq<char>) -> bool {
    &&& post.buffer_size_spec() == pre.buffer_size_spec()
    &&& exists|e: LogEntry|
        #![trigger ring_push(pre.buffer_spec(), e, pre.buffer_size_spec())]
        e.0 == level && (exists|stamp: Seq<char>| e.1@ == log_line(stamp, level, text))
            && post.buffer_spec() == ring_push(pre.buffer_spec(), e, pre.buffer_size_spec())
}

/// Drop entries from the front of `buf` until at most `cap` remain.
#[verifier::loop_isolation(false)]
fn trim_front(mut buf: Vec<LogEntry>, cap: usize) -> (r: Vec<LogEntry>)
    ensures
        r@ == ring_trim(buf@, cap as nat),
{
    let ghost buf0 = buf@;
    while buf.len() > cap
        invariant
            buf@ == if buf0.len() > buf@.len() {
                buf0.skip(buf0.len() - buf@.len())
            } else {
                buf0
            },
            buf@.len() >= cap || buf@ == buf0,
        decreases buf@.len(),
    {
        let ghost before = buf@;
        buf.remove(0);
        proof {
            assert(buf@ =~= before.skip(1));
            if buf0.len() > before.len() {
                assert(buf@ =~= buf0.skip(buf0.len() - buf@.len()));
            } else {
                assert(buf@ =~= buf0.skip(buf0.len() - buf@.len()));
            }
        }
    }
    buf
}

/// Relies on `chrono::Local::now` and its formatting for the wall-clock
/// stamp that opens every log line; the result depends on the clock, so
/// nothing is promised of it.
#[verifier::external_body]
fn now_stamp() -> String {
    format!("{}", chrono::Local::now().format("%Y-%m-%dT%H%M%S"))
}

/// A log line's severity.
#[derive(Clone, Copy, Debug, PartialEq, Eq, Structural)]
pub enum LogLevel {
    Trace,
    Debug,
    Info,
    Warn,
    Error,
}

impl LogLevel {
    pub open spec fn to_str_spec(self) -> Seq<char> {
        match self {
            LogLevel::Trace => "Trace"@,
            LogLevel::Debug => "Debug"@,
            LogLevel::Info => " Info"@,
            LogLevel::Warn => " Warn"@,
            LogLevel::Error => "Error"@,
        }
    }

    pub fn to_str(&self) -> (r: &'static str)
        ensures
            r@ == self.to_str_spec(),
    {
        match self {
            LogLevel::Trace => "Trace",
            LogLevel::Debug => "Debug",
            LogLevel::Info => " Info",
            LogLevel::Warn => " Warn",
            LogLevel::Error => "Error",
        }
    }
}

} // verus!
