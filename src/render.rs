use vstd::prelude::*;

use crate::context::{recent_of, DebugContext, DebugModel};
use crate::entry::{Entry, Record, Rgba, Shape};
use crate::text::{header, header_of, log_line, log_line_of};

verus! {

/// Height of one text line, in pixels.
pub const FONT_SIZE: u32 = 20;

/// Width of the overlay's panels, in pixels.
pub const PANEL_WIDTH: u32 = 420;

/// How many of the most recent records the overlay's lower panel shows.
pub const LOG_LINES: usize = 10;

/// The edge of the screen that a vertical position is measured from.
#[derive(Clone, Copy, Debug, PartialEq, Eq)]
pub enum Edge {
    Top,
    Bottom,
}

/// One drawing step of the overlay, in screen space. Positions and heights are
/// counted in text lines; every step starts at the left edge.
#[derive(Debug, PartialEq, Eq)]
pub enum Draw {
    /// A panel `PANEL_WIDTH` wide and `lines` text lines tall, flush with `edge`.
    Panel { edge: Edge, lines: usize, color: Rgba },
    /// `text` in `FONT_SIZE`, its baseline `line` text lines away from `edge`.
    Text { edge: Edge, line: usize, text: String, color: Rgba },
}

/// A [`Draw`] as a mathematical value.
pub enum DrawView {
    Panel { edge: Edge, lines: nat, color: Rgba },
    Text { edge: Edge, line: nat, text: Seq<char>, color: Rgba },
}

impl View for Draw {
    type V = DrawView;

    open spec fn view(&self) -> DrawView {
        match self {
            Draw::Panel { edge, lines, color } => DrawView::Panel {
                edge: *edge,
                lines: *lines as nat,
                color: *color,
            },
            Draw::Text { edge, line, text, color } => DrawView::Text {
                edge: *edge,
                line: *line as nat,
                text: text@,
                color: *color,
            },
        }
    }
}

/// The views of a sequence of drawing steps.
pub open spec fn views(v: Seq<Draw>) -> Seq<DrawView> {
    v.map_values(|d: Draw| d@)
}

/// Translucent black, behind the overlay's text.
pub open spec fn panel_color() -> Rgba {
    Rgba { r: 0, g: 0, b: 0, a: 100 }
}

/// Opaque white, the color of the overlay's text.
pub open spec fn text_color() -> Rgba {
    Rgba { r: 255, g: 255, b: 255, a: 255 }
}

/// The texts of the messages among `s`, in order.
pub open spec fn messages_of(s: Seq<Entry>) -> Seq<Seq<char>>
    decreases s.len(),
{
    if s.len() == 0 {
        Seq::empty()
    } else {
        let rest = messages_of(s.drop_last());
        match s.last() {
            Entry::Message(t) => rest.push(t@),
            Entry::Shape(_) => rest,
        }
    }
}

/// The rectangles among `s`, in order.
pub open spec fn shapes_of(s: Seq<Entry>) -> Seq<Shape>
    decreases s.len(),
{
    if s.len() == 0 {
        Seq::empty()
    } else {
        let rest = shapes_of(s.drop_last());
        match s.last() {
            Entry::Message(_) => rest,
            Entry::Shape(r) => rest.push(r),
        }
    }
}

/// The lines of the upper panel for the messages among `s`: the first one below
/// the header, each next one a line lower.
pub open spec fn message_lines(s: Seq<Entry>) -> Seq<DrawView>
    decreases s.len(),
{
    if s.len() == 0 {
        Seq::empty()
    } else {
        let rest = message_lines(s.drop_last());
        match s.last() {
            Entry::Message(t) => rest.push(
                DrawView::Text {
                    edge: Edge::Top,
                    line: messages_of(s.drop_last()).len() + 2,
                    text: t@,
                    color: text_color(),
                },
            ),
            Entry::Shape(_) => rest,
        }
    }
}

/// The lines of the lower panel for `recent`, newest first: the record at index
/// `i` sits `i` lines above the bottom edge; records that are not messages leave
/// their line empty.
pub open spec fn log_lines(recent: Seq<Record>) -> Seq<DrawView>
    decreases recent.len(),
{
    if recent.len() == 0 {
        Seq::empty()
    } else {
        let rest = log_lines(recent.drop_last());
        let last = recent.last();
        match last.entry {
            Entry::Message(t) => rest.push(
                DrawView::Text {
                    edge: Edge::Bottom,
                    line: (recent.len() - 1) as nat,
                    text: log_line_of(last.frame, t@),
                    color: text_color(),
                },
            ),
            Entry::Shape(_) => rest,
        }
    }
}

/// The overlay of state `m`: nothing when the switch is off; else a panel that
/// fits the header and the messages of this frame, the header, those messages,
/// a panel of `LOG_LINES` lines at the bottom, and the recent history in it.
pub open spec fn overlay_of(m: DebugModel) -> Seq<DrawView> {
    if !m.enabled {
        Seq::empty()
    } else {
        seq![
            DrawView::Panel {
                edge: Edge::Top,
                lines: messages_of(m.immediates).len() + 2,
                color: panel_color(),
            },
            DrawView::Text { edge: Edge::Top, line: 1, text: header_of(m.frame), color: text_color() },
        ] + message_lines(m.immediates) + seq![
            DrawView::Panel { edge: Edge::Bottom, lines: LOG_LINES as nat, color: panel_color() },
        ] + log_lines(recent_of(m.persistent, LOG_LINES as nat))
    }
}

/// The rectangles that the world layer draws for state `m`.
pub open spec fn world_of(m: DebugModel) -> Seq<Shape> {
    if m.enabled {
        shapes_of(m.immediates)
    } else {
        Seq::empty()
    }
}

/// The rectangles of this frame to draw in world space, in the order they were
/// recorded; none when the switch is off.
pub fn world_shapes(ctx: &DebugContext) -> (r: Vec<Shape>)
    ensures
        r@ == world_of(ctx@),
{
    let mut out: Vec<Shape> = Vec::new();
    if !ctx.is_enabled() {
        return out;
    }
    let imms = ctx.immediates();
    let mut i: usize = 0;
    while i < imms.len()
        invariant
            imms@ == ctx@.immediates,
            i <= imms@.len(),
            out@ == shapes_of(imms@.take(i as int)),
        decreases imms@.len() - i,
    {
        assert(imms@.take(i + 1).drop_last() =~= imms@.take(i as int));
        match &imms[i] {
            Entry::Shape(s) => out.push(*s),
            Entry::Message(_) => {},
        }
        i = i + 1;
    }
    assert(imms@.take(imms@.len() as int) =~= imms@);
    out
}

/// The number of messages among `s`.
fn count_messages(s: &Vec<Entry>) -> (r: usize)
    ensures
        r == messages_of(s@).len(),
        r <= s@.len(),
{
    let mut n: usize = 0;
    let mut i: usize = 0;
    while i < s.len()
        invariant
            i <= s@.len(),
            n == messages_of(s@.take(i as int)).len(),
            n <= i,
        decreases s@.len() - i,
    {
        assert(s@.take(i + 1).drop_last() =~= s@.take(i as int));
        match &s[i] {
            Entry::Message(_) => n = n + 1,
            Entry::Shape(_) => {},
        }
        i = i + 1;
    }
    assert(s@.take(s@.len() as int) =~= s@);
    n
}

/// The drawing steps of the overlay, in order; none when the switch is off.
pub fn overlay_draws(ctx: &DebugContext) -> (r: Vec<Draw>)
    requires
        ctx@.immediates.len() + 2 <= usize::MAX,
    ensures
        views(r@) == overlay_of(ctx@),
{
    let mut out: Vec<Draw> = Vec::new();
    if !ctx.is_enabled() {
        assert(views(out@) =~= overlay_of(ctx@));
        return out;
    }
    let panel = Rgba { r: 0, g: 0, b: 0, a: 100 };
    let white = Rgba { r: 255, g: 255, b: 255, a: 255 };
    let imms = ctx.immediates();
    let count = count_messages(imms);
    out.push(Draw::Panel { edge: Edge::Top, lines: count + 2, color: panel });
    out.push(Draw::Text { edge: Edge::Top, line: 1, text: header(ctx.current_frame()), color: white });
    let ghost head = views(out@);
    assert(head =~= seq![
        DrawView::Panel {
            edge: Edge::Top,
            lines: messages_of(ctx@.immediates).len() + 2,
            color: panel_color(),
        },
        DrawView::Text { edge: Edge::Top, line: 1, text: header_of(ctx@.frame), color: text_color() },
    ]);
    let mut n: usize = 0;
    let mut i: usize = 0;
    while i < imms.len()
        invariant
            imms@ == ctx@.immediates,
            i <= imms@.len(),
            n == messages_of(imms@.take(i as int)).len(),
            n <= i,
            imms@.len() + 2 <= usize::MAX,
            views(out@) =~= head + message_lines(imms@.take(i as int)),
            white == text_color(),
        decreases imms@.len() - i,
    {
        assert(imms@.take(i + 1).drop_last() =~= imms@.take(i as int));
        match &imms[i] {
            Entry::Message(t) => {
                let d = Draw::Text { edge: Edge::Top, line: n + 2, text: t.clone(), color: white };
                let ghost before = out@;
                out.push(d);
                assert(views(out@) =~= views(before).push(d@));
                n = n + 1;
            },
            Entry::Shape(_) => {},
        }
        i = i + 1;
    }
    assert(imms@.take(imms@.len() as int) =~= imms@);
    let d = Draw::Panel { edge: Edge::Bottom, lines: LOG_LINES, color: panel };
    let ghost before = out@;
    out.push(d);
    assert(views(out@) =~= views(before).push(d@));
    let ghost mid = views(out@);
    assert(mid =~= head + message_lines(ctx@.immediates) + seq![d@]);
    let recent = ctx.recent(LOG_LINES);
    let mut j: usize = 0;
    while j < recent.len()
        invariant
            j <= recent@.len(),
            recent@.len() <= LOG_LINES,
            views(out@) =~= mid + log_lines(recent@.take(j as int)),
            white == text_color(),
        decreases recent@.len() - j,
    {
        assert(recent@.take(j + 1).drop_last() =~= recent@.take(j as int));
        let rec = &recent[j];
        match &rec.entry {
            Entry::Message(t) => {
                let d = Draw::Text {
                    edge: Edge::Bottom,
                    line: j,
                    text: log_line(rec.frame, t.as_str()),
                    color: white,
                };
                let ghost before = out@;
                out.push(d);
                assert(views(out@) =~= views(before).push(d@));
            },
            Entry::Shape(_) => {},
        }
        j = j + 1;
    }
    assert(recent@.take(recent@.len() as int) =~= recent@);
    assert(views(out@) =~= overlay_of(ctx@));
    out
}

} // verus!
