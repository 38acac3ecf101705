use vstd::prelude::*;

use crate::context::{
    advanced, cleared, recent_of, with_immediate, with_persistent, DebugModel, CAPACITY,
};
use crate::entry::{Entry, Record};

verus! {

/// `es` recorded in the history one after the other, with no tick of the clock
/// in between.
pub open spec fn persist_all(m: DebugModel, es: Seq<Entry>) -> DebugModel
    decreases es.len(),
{
    if es.len() == 0 {
        m
    } else {
        with_persistent(persist_all(m, es.drop_last()), es.last())
    }
}

/// `es` recorded as entries of this frame one after the other.
pub open spec fn record_all(m: DebugModel, es: Seq<Entry>) -> DebugModel
    decreases es.len(),
{
    if es.len() == 0 {
        m
    } else {
        with_immediate(record_all(m, es.drop_last()), es.last())
    }
}

/// `es`, each stamped with `frame`.
pub open spec fn stamped(es: Seq<Entry>, frame: u64) -> Seq<Record> {
    es.map_values(|e: Entry| Record { frame, entry: e })
}

/// The smaller of `a` and `b`.
pub open spec fn min_nat(a: nat, b: nat) -> nat {
    if a < b {
        a
    } else {
        b
    }
}

/// Recording any number of entries in the history, whatever the switch, keeps
/// the last `CAPACITY` of the old records followed by the new ones, oldest
/// dropped first; each new record carries the current frame. From an empty
/// history, `N` records leave `min(N, CAPACITY)` of them, the most recent.
pub proof fn history_keeps_most_recent(m: DebugModel, es: Seq<Entry>)
    requires
        m.wf(),
    ensures
        ({
            let all = m.persistent + stamped(es, m.frame);
            let k = min_nat(all.len(), CAPACITY as nat);
            &&& persist_all(m, es).persistent == all.subrange(all.len() - k, all.len() as int)
            &&& persist_all(m, es).persistent.len() == k
            &&& persist_all(m, es).wf()
            &&& persist_all(m, es).frame == m.frame
            &&& persist_all(m, es).enabled == m.enabled
            &&& persist_all(m, es).immediates == m.immediates
        }),
        m.persistent.len() == 0 ==> persist_all(m, es).persistent.len() == min_nat(
            es.len(),
            CAPACITY as nat,
        ),
    decreases es.len(),
{
    let all = m.persistent + stamped(es, m.frame);
    if es.len() == 0 {
        assert(all =~= m.persistent);
        assert(all.subrange(0, all.len() as int) =~= all);
    } else {
        let front = es.drop_last();
        history_keeps_most_recent(m, front);
        let prev = persist_all(m, front);
        let all0 = m.persistent + stamped(front, m.frame);
        let k0 = min_nat(all0.len(), CAPACITY as nat);
        let r = Record { frame: m.frame, entry: es.last() };
        assert(all =~= all0.push(r));
        let grown = prev.persistent.push(r);
        assert(grown =~= all.subrange(all0.len() - k0, all.len() as int));
        if grown.len() > CAPACITY {
            assert(grown.drop_first() =~= all.subrange(
                all.len() - CAPACITY as nat,
                all.len() as int,
            ));
        }
    }
}

/// After emptying the entries of this frame there are none; one entry recorded
/// next, with the switch on, is then the only one.
pub proof fn clear_then_record(m: DebugModel, e: Entry)
    requires
        m.enabled,
    ensures
        cleared(m).immediates.len() == 0,
        with_immediate(cleared(m), e).immediates == seq![e],
{
    assert(Seq::<Entry>::empty().push(e) =~= seq![e]);
}

/// With the switch off, recording any number of entries of this frame changes
/// nothing.
pub proof fn record_off_is_noop(m: DebugModel, es: Seq<Entry>)
    requires
        !m.enabled,
    ensures
        record_all(m, es) == m,
    decreases es.len(),
{
    if es.len() > 0 {
        record_off_is_noop(m, es.drop_last());
    }
}

/// A look at the recent history returns no more than `min(n, length)` records,
/// the newest first, in reverse order of recording.
pub proof fn recent_is_reversed_tail(log: Seq<Record>, n: nat)
    ensures
        recent_of(log, n).len() == min_nat(n, log.len()),
        forall|i: int|
            0 <= i < recent_of(log, n).len() ==> #[trigger] recent_of(log, n)[i] == log[log.len()
                - 1 - i],
{
}

/// A record made in the history carries the current frame; one made after a
/// single tick of the clock carries the next frame.
pub proof fn stamp_follows_clock(m: DebugModel, e: Entry)
    requires
        m.frame < u64::MAX,
    ensures
        with_persistent(m, e).persistent.last().frame == m.frame,
        with_persistent(advanced(m), e).persistent.last().frame == m.frame + 1,
{
}

/// Emptying the entries of this frame when there are none changes nothing, and
/// doing it twice leaves them empty both times.
pub proof fn clear_twice_on_empty(m: DebugModel)
    requires
        m.immediates.len() == 0,
    ensures
        cleared(m) == m,
        cleared(cleared(m)) == m,
        cleared(cleared(m)).immediates.len() == 0,
{
    assert(m.immediates =~= Seq::empty());
}

} // verus!
