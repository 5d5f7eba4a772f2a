//! The bounded message log.
//!
//! Every gameplay event is reported as a `(text, color)` pair appended to a
//! chronological feed.  The feed never grows past `LOG_CAPACITY` entries:
//! a push at capacity first evicts the oldest entry.  Consumers that render
//! newest-first reverse on read; that is their concern, not the log's.

use vstd::prelude::*;

use crate::color::ColorCode;
use crate::LOG_CAPACITY;

verus! {

/// One logged event.
pub struct Message {
    pub text: String,
    pub color: ColorCode,
}

/// The chronological event feed, oldest entry first.
pub struct MessageLog {
    pub entries: Vec<Message>,
}

/// What one push leaves behind: the new entry goes to the back, and when the
/// log is already at capacity the oldest entry makes room first.
pub open spec fn push_msg(log: Seq<Message>, m: Message) -> Seq<Message> {
    if log.len() >= LOG_CAPACITY {
        log.subrange(1, log.len() as int).push(m)
    } else {
        log.push(m)
    }
}

/// `log1` is `log0` after one push of an entry with the given text and color.
pub open spec fn pushed(
    log0: Seq<Message>,
    log1: Seq<Message>,
    text: Seq<char>,
    color: ColorCode,
) -> bool {
    exists|m: Message| m.text@ == text && m.color == color && log1 == push_msg(log0, m)
}

/// `log1` is `log0` after two pushes, of the given entries in order.
pub open spec fn pushed2(
    log0: Seq<Message>,
    log1: Seq<Message>,
    text1: Seq<char>,
    color1: ColorCode,
    text2: Seq<char>,
    color2: ColorCode,
) -> bool {
    exists|m1: Message, m2: Message|
        m1.text@ == text1 && m1.color == color1 && m2.text@ == text2 && m2.color == color2
            && log1 == push_msg(push_msg(log0, m1), m2)
}

/// The log never exceeds its capacity, and a push into a full log evicts
/// exactly the oldest entry: the first element becomes the former second
/// element, everything shifts down one slot, and the new entry sits at the
/// back.
pub proof fn lemma_log_eviction(log0: Seq<Message>, log1: Seq<Message>, m: Message)
    requires
        log0.len() == LOG_CAPACITY,
        log1 == push_msg(log0, m),
    ensures
        log1.len() == LOG_CAPACITY,
        log1[0] == log0[1],
        forall|i: int| 0 <= i < LOG_CAPACITY - 1 ==> log1[i] == log0[i + 1],
        log1.last() == m,
{
}

impl View for MessageLog {
    type V = Seq<Message>;

    open spec fn view(&self) -> Seq<Message> {
        self.entries@
    }
}

impl MessageLog {
    /// The log never holds more entries than its capacity.
    pub open spec fn wf(self) -> bool {
        self.entries@.len() <= LOG_CAPACITY
    }

    pub fn new() -> (log: MessageLog)
        ensures
            log@ == Seq::<Message>::empty(),
            log.wf(),
    {
        MessageLog { entries: Vec::new() }
    }

    /// How many entries the log holds.
    pub fn len(&self) -> (n: usize)
        ensures
            n == self@.len(),
    {
        self.entries.len()
    }

    /// Reads one entry's text.
    pub fn text_at(&self, i: usize) -> (t: &String)
        requires
            i < self@.len(),
        ensures
            t == self@[i as int].text,
    {
        &self.entries[i].text
    }

    /// Reads one entry's color.
    pub fn color_at(&self, i: usize) -> (c: ColorCode)
        requires
            i < self@.len(),
        ensures
            c == self@[i as int].color,
    {
        self.entries[i].color
    }
}

/// Appends an event to the feed, evicting the oldest entry when the feed is
/// already at capacity, so the feed never exceeds `LOG_CAPACITY` entries.
pub fn message(log: &mut MessageLog, text: String, color: ColorCode)
    requires
        old(log).wf(),
    ensures
        final(log).wf(),
        final(log)@ == push_msg(old(log)@, (Message { text, color })),
        pushed(old(log)@, final(log)@, text@, color),
{
    if log.entries.len() == LOG_CAPACITY {
        let _evicted = log.entries.remove(0);
        proof {
            assert(old(log)@.remove(0) =~= old(log)@.subrange(1, old(log)@.len() as int));
        }
    }
    let m = Message { text, color };
    log.entries.push(m);
    proof {
        let m1 = log@.last();
        assert(m1.text@ == text@ && m1.color == color && log@ == push_msg(old(log)@, m1));
    }
}

} // verus!
