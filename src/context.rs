use vstd::prelude::*;

use crate::entry::{Entry, Record};

verus! {

/// How many stamped records the history keeps.
pub const CAPACITY: usize = 20;

/// The state of a [`DebugContext`] as a mathematical value.
pub struct DebugModel {
    pub enabled: bool,
    pub frame: u64,
    pub immediates: Seq<Entry>,
    pub persistent: Seq<Record>,
}

impl DebugModel {
    /// The history never holds more than `CAPACITY` records.
    pub open spec fn wf(self) -> bool {
        self.persistent.len() <= CAPACITY
    }
}

/// The frame after `frame`; the counter wraps at the top of its range.
pub open spec fn next_frame(frame: u64) -> u64 {
    if frame == u64::MAX {
        0
    } else {
        (frame + 1) as u64
    }
}

/// `log` with `r` appended, the oldest record dropped when that goes past `CAPACITY`.
pub open spec fn push_capped(log: Seq<Record>, r: Record) -> Seq<Record> {
    let grown = log.push(r);
    if grown.len() > CAPACITY {
        grown.drop_first()
    } else {
        grown
    }
}

/// The switch flipped.
pub open spec fn toggled(m: DebugModel) -> DebugModel {
    DebugModel { enabled: !m.enabled, ..m }
}

/// The clock moved on by one frame.
pub open spec fn advanced(m: DebugModel) -> DebugModel {
    DebugModel { frame: next_frame(m.frame), ..m }
}

/// `e` appended to the per-frame entries when the switch is on; `m` itself when it is off.
pub open spec fn with_immediate(m: DebugModel, e: Entry) -> DebugModel {
    if m.enabled {
        DebugModel { immediates: m.immediates.push(e), ..m }
    } else {
        m
    }
}

/// The per-frame entries emptied.
pub open spec fn cleared(m: DebugModel) -> DebugModel {
    DebugModel { immediates: Seq::empty(), ..m }
}

/// `e` stamped with the current frame and appended to the history, whatever the switch.
pub open spec fn with_persistent(m: DebugModel, e: Entry) -> DebugModel {
    DebugModel { persistent: push_capped(m.persistent, Record { frame: m.frame, entry: e }), ..m }
}

/// The last `min(n, log.len())` records of `log`, newest first.
pub open spec fn recent_of(log: Seq<Record>, n: nat) -> Seq<Record> {
    let k = if n < log.len() { n } else { log.len() };
    Seq::new(k, |i: int| log[log.len() - 1 - i])
}

/// Relies on std's `format!` with `{}: {:?}`: the label, a colon and a space,
/// then the value's `Debug` form.
#[verifier::external_body]
fn debug_line<T: std::fmt::Debug>(label: &str, value: &T) -> (r: String)
    ensures
        r@.len() >= label@.len() + 2,
        r@.subrange(0, label@.len() + 2int) == label@ + ": "@,
{
    format!("{}: {:?}", label, value)
}

/// The debug state that a program threads through the places that record and draw.
///
/// It holds the on/off switch (off at first), the frame clock (0 at first), the
/// entries of the current frame, and the history of stamped records.
pub struct DebugContext {
    enabled: bool,
    frame: u64,
    immediates: Vec<Entry>,
    persistent: Vec<Record>,
}

impl View for DebugContext {
    type V = DebugModel;

    closed spec fn view(&self) -> DebugModel {
        DebugModel {
            enabled: self.enabled,
            frame: self.frame,
            immediates: self.immediates@,
            persistent: self.persistent@,
        }
    }
}

impl DebugContext {
    /// A context with the switch off, the clock at 0 and nothing recorded.
    pub fn new() -> (r: DebugContext)
        ensures
            r@.wf(),
            !r@.enabled,
            r@.frame == 0,
            r@.immediates.len() == 0,
            r@.persistent.len() == 0,
    {
        DebugContext { enabled: false, frame: 0, immediates: Vec::new(), persistent: Vec::new() }
    }

    /// Flips the on/off switch.
    pub fn toggle(&mut self)
        requires
            old(self)@.wf(),
        ensures
            final(self)@ == toggled(old(self)@),
            final(self)@.wf(),
    {
        self.enabled = !self.enabled;
    }

    /// Whether the switch is on.
    pub fn is_enabled(&self) -> (r: bool)
        ensures
            r == self@.enabled,
    {
        self.enabled
    }

    /// Moves the clock on by one frame. Call it once per loop iteration, after
    /// drawing and after `clear_immediates`, so that each record carries the frame
    /// in which it was made.
    pub fn advance(&mut self)
        requires
            old(self)@.wf(),
        ensures
            final(self)@ == advanced(old(self)@),
            final(self)@.wf(),
    {
        self.frame = self.frame.wrapping_add(1);
    }

    /// The current frame number.
    pub fn current_frame(&self) -> (r: u64)
        ensures
            r == self@.frame,
    {
        self.frame
    }

    /// Appends `entry` to the entries of this frame if the switch is on; does
    /// nothing if it is off.
    pub fn record_immediate(&mut self, entry: Entry)
        requires
            old(self)@.wf(),
        ensures
            final(self)@ == with_immediate(old(self)@, entry),
            final(self)@.wf(),
    {
        if self.enabled {
            self.immediates.push(entry);
        }
    }

    /// Records the text `msg` for this frame, if the switch is on.
    pub fn imm_msg(&mut self, msg: String)
        requires
            old(self)@.wf(),
        ensures
            final(self)@ == with_immediate(old(self)@, Entry::Message(msg)),
            final(self)@.wf(),
    {
        self.record_immediate(Entry::Message(msg));
    }

    /// Records `label`, a colon and a space, and the debug form of `value` as a
    /// message of this frame if the switch is on, and hands `value` back
    /// unchanged, so that it can wrap an expression in place.
    pub fn imm_dbg<T: std::fmt::Debug>(&mut self, label: &str, value: T) -> (r: T)
        requires
            old(self)@.wf(),
        ensures
            r == value,
            final(self)@.wf(),
            final(self)@.enabled == old(self)@.enabled,
            final(self)@.frame == old(self)@.frame,
            final(self)@.persistent == old(self)@.persistent,
            !old(self)@.enabled ==> final(self)@.immediates == old(self)@.immediates,
            old(self)@.enabled ==> exists|t: String|
                #![auto]
                final(self)@.immediates == old(self)@.immediates.push(Entry::Message(t))
                    && t@.len() >= label@.len() + 2
                    && t@.subrange(0, label@.len() + 2int) == label@ + ": "@,
    {
        if self.enabled {
            let line = debug_line(label, &value);
            let ghost g = line;
            self.immediates.push(Entry::Message(line));
            assert(self@.immediates == old(self)@.immediates.push(Entry::Message(g)));
        }
        value
    }

    /// The entries of this frame, in the order they were recorded.
    pub fn immediates(&self) -> (r: &Vec<Entry>)
        ensures
            r@ == self@.immediates,
    {
        &self.immediates
    }

    /// Empties the entries of this frame. Call it once per loop iteration, after
    /// both layers have been drawn.
    pub fn clear_immediates(&mut self)
        requires
            old(self)@.wf(),
        ensures
            final(self)@ == cleared(old(self)@),
            final(self)@.wf(),
    {
        self.immediates.clear();
    }

    /// Stamps `entry` with the current frame and appends it to the history,
    /// dropping the oldest record when the history is full. The switch does not
    /// gate this.
    pub fn record_persistent(&mut self, entry: Entry)
        requires
            old(self)@.wf(),
        ensures
            final(self)@ == with_persistent(old(self)@, entry),
            final(self)@.wf(),
    {
        let r = Record { frame: self.frame, entry };
        self.persistent.push(r);
        if self.persistent.len() > CAPACITY {
            self.persistent.remove(0);
        }
    }

    /// Records the text `msg` in the history, whatever the switch.
    pub fn per_msg(&mut self, msg: String)
        requires
            old(self)@.wf(),
        ensures
            final(self)@ == with_persistent(old(self)@, Entry::Message(msg)),
            final(self)@.wf(),
    {
        self.record_persistent(Entry::Message(msg));
    }

    /// The whole history, oldest first.
    pub fn persistent(&self) -> (r: &Vec<Record>)
        ensures
            r@ == self@.persistent,
    {
        &self.persistent
    }

    /// Up to `n` of the most recent records, newest first.
    pub fn recent(&self, n: usize) -> (r: Vec<Record>)
        ensures
            r@ == recent_of(self@.persistent, n as nat),
    {
        let len = self.persistent.len();
        let k: usize = if n < len { n } else { len };
        let mut out: Vec<Record> = Vec::new();
        let mut i: usize = 0;
        while i < k
            invariant
                k <= len,
                k == recent_of(self@.persistent, n as nat).len(),
                len == self.persistent@.len(),
                i <= k,
                out@ =~= recent_of(self@.persistent, n as nat).take(i as int),
            decreases k - i,
        {
            let r = self.persistent[len - 1 - i].clone();
            out.push(r);
            i = i + 1;
        }
        out
    }
}

} // verus!
