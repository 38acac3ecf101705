use gamedebug::context::{DebugContext, CAPACITY};
use gamedebug::entry::{Entry, Record, Rgba, Shape};

fn msg(s: &str) -> Entry {
    Entry::Message(s.to_string())
}

fn rect(x: f32, y: f32, w: f32, h: f32, color: Rgba) -> Shape {
    Shape { x: x.to_bits(), y: y.to_bits(), w: w.to_bits(), h: h.to_bits(), color }
}

const RED: Rgba = Rgba { r: 255, g: 0, b: 0, a: 255 };

#[test]
fn new_context_is_off_and_empty() {
    let ctx = DebugContext::new();
    assert!(!ctx.is_enabled());
    assert_eq!(ctx.current_frame(), 0);
    assert!(ctx.immediates().is_empty());
    assert!(ctx.persistent().is_empty());
}

#[test]
fn toggle_flips_switch() {
    let mut ctx = DebugContext::new();
    ctx.toggle();
    assert!(ctx.is_enabled());
    ctx.toggle();
    assert!(!ctx.is_enabled());
}

#[test]
fn gate_off_immediate_records_nothing() {
    let mut ctx = DebugContext::new();
    ctx.record_immediate(msg("x"));
    ctx.record_immediate(msg("x"));
    assert_eq!(ctx.immediates().len(), 0);
}

#[test]
fn gate_off_many_records_leave_length_unchanged() {
    let mut ctx = DebugContext::new();
    ctx.toggle();
    ctx.imm_msg("kept".to_string());
    ctx.toggle();
    for i in 0..7 {
        ctx.imm_msg(format!("dropped {}", i));
        ctx.record_immediate(Entry::Shape(rect(1.0, 2.0, 3.0, 4.0, RED)));
    }
    assert_eq!(ctx.immediates(), &vec![msg("kept")]);
}

#[test]
fn gate_on_immediates_keep_call_order() {
    let mut ctx = DebugContext::new();
    ctx.toggle();
    ctx.imm_msg("a".to_string());
    ctx.record_immediate(Entry::Shape(rect(0.0, 0.0, 1.0, 1.0, RED)));
    ctx.imm_msg("b".to_string());
    assert_eq!(
        ctx.immediates(),
        &vec![msg("a"), Entry::Shape(rect(0.0, 0.0, 1.0, 1.0, RED)), msg("b")]
    );
}

#[test]
fn clear_then_record_gives_single_entry() {
    let mut ctx = DebugContext::new();
    ctx.toggle();
    for i in 0..5 {
        ctx.imm_msg(format!("{}", i));
    }
    ctx.clear_immediates();
    assert_eq!(ctx.immediates().len(), 0);
    ctx.imm_msg("only".to_string());
    assert_eq!(ctx.immediates(), &vec![msg("only")]);
}

#[test]
fn clear_twice_on_empty_stays_empty() {
    let mut ctx = DebugContext::new();
    ctx.clear_immediates();
    assert_eq!(ctx.immediates().len(), 0);
    ctx.clear_immediates();
    assert_eq!(ctx.immediates().len(), 0);
}

#[test]
fn persistent_is_not_gated() {
    let mut ctx = DebugContext::new();
    ctx.per_msg("while off".to_string());
    assert_eq!(ctx.persistent(), &vec![Record { frame: 0, entry: msg("while off") }]);
}

#[test]
fn twenty_five_persistent_messages_keep_last_twenty() {
    let mut ctx = DebugContext::new();
    ctx.toggle();
    for i in 0..25 {
        ctx.per_msg(format!("m{}", i));
    }
    let log = ctx.persistent();
    assert_eq!(log.len(), 20);
    for (k, r) in log.iter().enumerate() {
        assert_eq!(r.frame, 0);
        assert_eq!(r.entry, msg(&format!("m{}", k + 5)));
    }
}

#[test]
fn persistent_length_is_min_of_count_and_capacity() {
    for n in 0..45usize {
        let mut ctx = DebugContext::new();
        if n % 2 == 0 {
            ctx.toggle();
        }
        for i in 0..n {
            ctx.record_persistent(msg(&format!("e{}", i)));
        }
        let log = ctx.persistent();
        assert_eq!(log.len(), n.min(CAPACITY));
        let first = n - log.len();
        for (k, r) in log.iter().enumerate() {
            assert_eq!(r.entry, msg(&format!("e{}", first + k)));
        }
    }
}

#[test]
fn eviction_keeps_shapes_too() {
    let mut ctx = DebugContext::new();
    ctx.record_persistent(Entry::Shape(rect(0.0, 0.0, 10.0, 10.0, RED)));
    for i in 0..20 {
        ctx.per_msg(format!("{}", i));
    }
    assert_eq!(ctx.persistent().len(), 20);
    assert_eq!(ctx.persistent()[0].entry, msg("0"));
}

#[test]
fn advance_before_each_record_stamps_one_two_three() {
    let mut ctx = DebugContext::new();
    let mut frames = Vec::new();
    for i in 0..3 {
        ctx.advance();
        ctx.per_msg(format!("r{}", i));
        frames.push(ctx.persistent().last().unwrap().frame);
    }
    assert_eq!(frames, vec![1, 2, 3]);
}

#[test]
fn stamp_equals_clock_and_advance_adds_one() {
    let mut ctx = DebugContext::new();
    for _ in 0..41 {
        ctx.advance();
    }
    ctx.per_msg("a".to_string());
    assert_eq!(ctx.persistent()[0].frame, ctx.current_frame());
    assert_eq!(ctx.persistent()[0].frame, 41);
    ctx.advance();
    ctx.per_msg("b".to_string());
    assert_eq!(ctx.persistent()[1].frame, 42);
}

#[test]
fn advance_adds_one() {
    let mut ctx = DebugContext::new();
    ctx.advance();
    assert_eq!(ctx.current_frame(), 1);
}

#[test]
fn recent_is_newest_first_and_bounded() {
    let mut ctx = DebugContext::new();
    for i in 0..5 {
        ctx.advance();
        ctx.per_msg(format!("{}", i));
    }
    let r = ctx.recent(3);
    assert_eq!(
        r,
        vec![
            Record { frame: 5, entry: msg("4") },
            Record { frame: 4, entry: msg("3") },
            Record { frame: 3, entry: msg("2") },
        ]
    );
    let all = ctx.recent(100);
    assert_eq!(all.len(), 5);
    assert_eq!(all[4], Record { frame: 1, entry: msg("0") });
    assert!(ctx.recent(0).is_empty());
    assert!(DebugContext::new().recent(10).is_empty());
}

#[test]
fn imm_dbg_returns_value_and_records_line() {
    let mut ctx = DebugContext::new();
    let v = ctx.imm_dbg("speed", 3u32);
    assert_eq!(v, 3);
    assert!(ctx.immediates().is_empty());
    ctx.toggle();
    let w = ctx.imm_dbg("pos", (1, -2));
    assert_eq!(w, (1, -2));
    assert_eq!(ctx.immediates(), &vec![msg("pos: (1, -2)")]);
}

#[test]
fn entry_clone_is_equal() {
    let e = msg("hp:100");
    assert_eq!(e.clone(), e);
    let r = Record { frame: 9, entry: Entry::Shape(rect(0.0, 0.0, 10.0, 10.0, RED)) };
    assert_eq!(r.clone(), r);
}
