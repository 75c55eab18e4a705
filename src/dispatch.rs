use vstd::prelude::*;
use crate::events::{lookup, value_of, Events};
use crate::layout::{box_spec, resolve_box, BoxModel, Viewport, PIXEL_LIMIT};
use crate::text::{composed, shape_text, text_spec, GlyphCache, PlacedGlyph, TEXT_LIMIT};
use crate::view::{same_text, Component, Event, Modifier, View};
use vstd::view::View as _;

verus! {

/// An axis-aligned rectangle in pixels: `x0..x1` by `y0..y1`, right and bottom open.
#[derive(Clone, Copy, Debug, PartialEq, Eq, Structural)]
pub struct BBox {
    /// Left edge.
    pub x0: i64,
    /// Top edge.
    pub y0: i64,
    /// Right edge, excluded.
    pub x1: i64,
    /// Bottom edge, excluded.
    pub y1: i64,
}

/// The input of one frame, with the cursor already in drawable pixels.
#[derive(Clone, Copy, Debug, PartialEq, Eq, Structural)]
pub struct Input {
    /// Cursor column.
    pub cursor_x: i64,
    /// Cursor row.
    pub cursor_y: i64,
    /// Whether the left button went down during this frame.
    pub clicked: bool,
}

/// Whether the cursor lies inside the box.
pub open spec fn hit(b: BBox, input: Input) -> bool {
    b.x0 <= input.cursor_x < b.x1 && b.y0 <= input.cursor_y < b.y1
}

/// Whether a handler of the given kind runs in this frame.
pub open spec fn fires(kind: Event, b: BBox, input: Input) -> bool {
    match kind {
        Event::Always => true,
        Event::Hovered => hit(b, input),
        Event::Clicked => input.clicked && hit(b, input),
    }
}

/// Whether the cursor lies inside the box.
pub fn contains(b: &BBox, input: &Input) -> (r: bool)
    ensures
        r == hit(*b, *input),
{
    b.x0 <= input.cursor_x && input.cursor_x < b.x1 && b.y0 <= input.cursor_y && input.cursor_y < b.y1
}

/// The indices of the handlers that run in this frame, in the order they were
/// added: every one whose kind fires, and no other.
pub fn fired_handlers<H>(handlers: &Vec<(Event, H)>, b: &BBox, input: &Input) -> (r: Vec<usize>)
    ensures
        forall|k: int|
            0 <= k < r@.len() ==> #[trigger] r@[k] < handlers@.len() && fires(
                handlers@[r@[k] as int].0,
                *b,
                *input,
            ),
        forall|i: int|
            0 <= i < handlers@.len() && fires(#[trigger] handlers@[i].0, *b, *input) ==> r@.contains(
                i as usize,
            ),
        forall|k: int, m: int| 0 <= k < m < r@.len() ==> r@[k] < r@[m],
{
    let inside = contains(b, input);
    let mut out: Vec<usize> = Vec::new();
    let mut i: usize = 0;
    while i < handlers.len()
        invariant
            i <= handlers@.len(),
            inside == hit(*b, *input),
            forall|k: int|
                0 <= k < out@.len() ==> #[trigger] out@[k] < i && fires(
                    handlers@[out@[k] as int].0,
                    *b,
                    *input,
                ),
            forall|j: int| 0 <= j < i && fires(#[trigger] handlers@[j].0, *b, *input) ==> out@.contains(j as usize),
            forall|k: int, m: int| 0 <= k < m < out@.len() ==> out@[k] < out@[m],
        decreases handlers@.len() - i,
    {
        let run = match handlers[i].0 {
            Event::Always => true,
            Event::Hovered => inside,
            Event::Clicked => input.clicked && inside,
        };
        if run {
            let ghost before = out@;
            out.push(i);
            proof {
                assert forall|j: int| 0 <= j <= i && fires(#[trigger] handlers@[j].0, *b, *input) implies out@.contains(
                    j as usize,
                ) by {
                    if j < i {
                        let w = choose|w: int| 0 <= w < before.len() && before[w] == j as usize;
                        assert(out@[w] == j as usize);
                    } else {
                        assert(out@[before.len() as int] == j as usize);
                    }
                }
            }
        }
        i = i + 1;
    }
    out
}

/// Whether a modifier's condition holds against the store (a non-condition always holds).
pub open spec fn condition_holds(m: Modifier, kv: Seq<(String, String)>) -> bool {
    match m {
        Modifier::Conditional(c) => value_of(kv, c.key@) == c.val@,
        _ => true,
    }
}

/// Whether every condition of a modifier list holds against the store.
pub open spec fn conditions_hold(mods: Seq<Modifier>, kv: Seq<(String, String)>) -> bool {
    forall|i: int| 0 <= i < mods.len() ==> condition_holds(#[trigger] mods[i], kv)
}

/// Whether a component is shown: every one of its conditions holds in the store.
pub fn is_shown<H>(c: &Component<H>, events: &Events) -> (r: bool)
    ensures
        r == conditions_hold(c.mods(), events.keyval@),
{
    let mods = c.modifiers();
    let mut i: usize = 0;
    while i < mods.len()
        invariant
            i <= mods@.len(),
            mods@ == c.mods(),
            forall|j: int| 0 <= j < i ==> condition_holds(#[trigger] mods@[j], events.keyval@),
        decreases mods@.len() - i,
    {
        match &mods[i] {
            Modifier::Conditional(cd) => {
                let v = events.value(cd.key.as_str());
                if !same_text(v.as_str(), cd.val.as_str()) {
                    return false;
                }
            },
            _ => {},
        }
        i = i + 1;
    }
    true
}

/// The state that a modifier list names: the value of its last state modifier.
pub open spec fn last_state(mods: Seq<Modifier>) -> Option<Seq<char>>
    decreases mods.len(),
{
    if mods.len() == 0 {
        None
    } else {
        match mods.last() {
            Modifier::State(st) => Some(st.val@),
            _ => last_state(mods.drop_last()),
        }
    }
}

/// The size a component has when no modifier sets one: an image keeps the
/// size of its asset, text may fill the viewport, a rectangle has none.
pub open spec fn natural_size<H>(c: Component<H>, vp: Viewport, image_size: (u32, u32)) -> (u32, u32) {
    match c {
        Component::Image(_) => image_size,
        Component::Text(_) => (vp.width, vp.height),
        Component::Rectangle(_) => (0, 0),
    }
}

/// The pixel size that glyphs are drawn at for a line height: clamped to `0..=65535`.
pub open spec fn glyph_size(line_height: i64) -> u16 {
    if line_height <= 0 {
        0
    } else if line_height >= 0xffff {
        0xffff
    } else {
        line_height as u16
    }
}

/// The pixel size that glyphs are drawn at for a line height.
pub fn glyph_size_of(line_height: i64) -> (r: u16)
    ensures
        r == glyph_size(line_height),
{
    if line_height <= 0 {
        0
    } else if line_height >= 0xffff {
        0xffff
    } else {
        line_height as u16
    }
}

/// Glyphs moved by an offset.
pub open spec fn shifted(g: Seq<PlacedGlyph>, dx: int, dy: int) -> Seq<PlacedGlyph> {
    Seq::new(g.len(), |i: int| PlacedGlyph { x: (g[i].x + dx) as i64, y: (g[i].y + dy) as i64, ..g[i] })
}

/// The glyphs of a component at their place in the frame; none for an image,
/// a rectangle, or a text too long to lay out.
pub open spec fn glyphs_spec<H>(c: Component<H>, b: BoxModel, cache: Seq<crate::text::GlyphMetric>) -> Seq<PlacedGlyph> {
    match c {
        Component::Text(t) => if composed(t.content@).len() <= TEXT_LIMIT {
            shifted(
                text_spec(composed(t.content@), cache, glyph_size(b.line_height), b.width as int, t.align),
                b.x as int,
                b.y as int,
            )
        } else {
            Seq::empty()
        },
        _ => Seq::empty(),
    }
}

/// The smallest box that holds a box and a glyph.
pub open spec fn extend(b: BBox, g: PlacedGlyph) -> BBox {
    BBox {
        x0: if g.x < b.x0 { g.x } else { b.x0 },
        y0: if g.y < b.y0 { g.y } else { b.y0 },
        x1: if g.x + g.advance > b.x1 { (g.x + g.advance) as i64 } else { b.x1 },
        y1: if g.y + g.line_height > b.y1 { (g.y + g.line_height) as i64 } else { b.y1 },
    }
}

/// The smallest box that holds a box and every glyph.
pub open spec fn extent(b: BBox, g: Seq<PlacedGlyph>) -> BBox
    decreases g.len(),
{
    if g.len() == 0 {
        b
    } else {
        extend(extent(b, g.drop_last()), g.last())
    }
}

/// The box used for hit testing: the resolved box, or for text the extent of
/// its glyphs from the origin of the box.
pub open spec fn bbox_spec<H>(c: Component<H>, b: BoxModel, glyphs: Seq<PlacedGlyph>) -> BBox {
    match c {
        Component::Text(_) => extent(BBox { x0: b.x, y0: b.y, x1: b.x, y1: b.y }, glyphs),
        _ => BBox { x0: b.x, y0: b.y, x1: (b.x + b.width) as i64, y1: (b.y + b.height) as i64 },
    }
}

/// The border rectangle, drawn behind the content when the border is thicker than zero.
pub open spec fn border_spec(b: BoxModel) -> Option<BBox> {
    if b.border_width > 0 {
        Some(
            BBox {
                x0: (b.x - b.border_width) as i64,
                y0: (b.y - b.border_width) as i64,
                x1: (b.x + b.width + b.border_width) as i64,
                y1: (b.y + b.height + b.border_width) as i64,
            },
        )
    } else {
        None
    }
}

/// The offsets a glyph shadow is repeated at: columns `x0..x1` by rows `y0..y1`.
#[derive(Clone, Copy, Debug, PartialEq, Eq, Structural)]
pub struct ShadowSpan {
    /// First column offset.
    pub x0: i64,
    /// Column offset past the last.
    pub x1: i64,
    /// First row offset.
    pub y0: i64,
    /// Row offset past the last.
    pub y1: i64,
}

/// The shadow of the glyphs of a text: every offset from one pixel before the
/// left and top edges of its box up to its right and bottom edges, when the
/// box is not empty in both directions.
pub open spec fn shadow_spec<H>(c: Component<H>, b: BoxModel) -> Option<ShadowSpan> {
    match (c, b.shadow) {
        (Component::Text(_), Some(sh)) => if sh.boxed[0] < sh.boxed[2] || sh.boxed[1] < sh.boxed[3] {
            Some(
                ShadowSpan {
                    x0: (sh.boxed[0] - 1) as i64,
                    x1: sh.boxed[2] as i64,
                    y0: (sh.boxed[1] - 1) as i64,
                    y1: sh.boxed[3] as i64,
                },
            )
        } else {
            None
        },
        _ => None,
    }
}

/// Exactly the handlers that fire, each once, in the order they were added.
pub open spec fn fired_exactly<H>(r: Seq<usize>, handlers: Seq<(Event, H)>, b: BBox, input: Input) -> bool {
    &&& forall|k: int| 0 <= k < r.len() ==> #[trigger] r[k] < handlers.len() && fires(handlers[r[k] as int].0, b, input)
    &&& forall|i: int| 0 <= i < handlers.len() && fires(#[trigger] handlers[i].0, b, input) ==> r.contains(i as usize)
    &&& forall|k: int, m: int| 0 <= k < m < r.len() ==> r[k] < r[m]
}

/// What the frame does with one component: its box, what to draw, the state
/// it names and the handlers to run.
pub struct ComponentPlan {
    /// Resolved box model.
    pub layout: BoxModel,
    /// Box for hit testing.
    pub bbox: BBox,
    /// Border rectangle, drawn first.
    pub border: Option<BBox>,
    /// Glyphs of a text, at their place in the frame.
    pub glyphs: Vec<PlacedGlyph>,
    /// Offsets to repeat each glyph at, in the shadow color, before the glyph itself.
    pub shadow: Option<ShadowSpan>,
    /// State to write to the shared context before the handlers run.
    pub state: Option<String>,
    /// Indices of the handlers to run, in order.
    pub fire: Vec<usize>,
}

fn state_of(mods: &Vec<Modifier>) -> (r: Option<String>)
    ensures
        match r {
            Some(v) => last_state(mods@) == Some(v@),
            None => last_state(mods@) is None,
        },
{
    let mut i = mods.len();
    proof {
        assert(mods@.take(i as int) =~= mods@);
    }
    while i > 0
        invariant
            i <= mods@.len(),
            last_state(mods@) == last_state(mods@.take(i as int)),
        decreases i,
    {
        proof {
            assert(mods@.take(i as int).drop_last() =~= mods@.take(i - 1));
        }
        match &mods[i - 1] {
            Modifier::State(st) => {
                return Some(st.val.clone());
            },
            _ => {},
        }
        i = i - 1;
    }
    None
}

/// The position of a glyph lies within the range a frame can reach.
pub open spec fn in_frame(g: PlacedGlyph) -> bool {
    -0x1000_0000_0000_0000 <= g.x <= 0x1000_0000_0000_0000 && -0x1000_0000_0000_0000 <= g.y
        <= 0x1000_0000_0000_0000
}

fn extent_of(start: BBox, g: &Vec<PlacedGlyph>) -> (r: BBox)
    requires
        -0x1000_0000_0000_0000 <= start.x0 <= start.x1 <= 0x1000_0000_0000_0000,
        -0x1000_0000_0000_0000 <= start.y0 <= start.y1 <= 0x1000_0000_0000_0000,
        forall|i: int| 0 <= i < g@.len() ==> in_frame(#[trigger] g@[i]),
    ensures
        r == extent(start, g@),
{
    let mut b = start;
    let mut i: usize = 0;
    while i < g.len()
        invariant
            i <= g@.len(),
            forall|k: int| 0 <= k < g@.len() ==> in_frame(#[trigger] g@[k]),
            b == extent(start, g@.take(i as int)),
            -0x1000_0000_0000_0000 <= b.x0 <= 0x1000_0000_0000_0000,
            -0x1000_0000_0000_0000 <= b.y0 <= 0x1000_0000_0000_0000,
            -0x1000_0000_0000_0000 <= b.x1 <= 0x1001_0000_0000_0000,
            -0x1000_0000_0000_0000 <= b.y1 <= 0x1001_0000_0000_0000,
        decreases g@.len() - i,
    {
        let q = g[i];
        proof {
            assert(g@.take(i + 1).drop_last() =~= g@.take(i as int));
            assert(g@.take(i + 1).last() == q);
        }
        let right = q.x + q.advance as i64;
        let bottom = q.y + q.line_height as i64;
        b = BBox {
            x0: if q.x < b.x0 { q.x } else { b.x0 },
            y0: if q.y < b.y0 { q.y } else { b.y0 },
            x1: if right > b.x1 { right } else { b.x1 },
            y1: if bottom > b.y1 { bottom } else { b.y1 },
        };
        i = i + 1;
    }
    proof {
        assert(g@.take(g@.len() as int) =~= g@);
    }
    b
}

/// Plans one component for this frame: resolves its box against the viewport,
/// lays out its text with the measured glyphs, finds its hit box, border and
/// shadow, the state it names, and the handlers that the input fires.
/// `image_size` is the size of the image asset of an image component.
pub fn plan_component<H>(
    c: &Component<H>,
    vp: &Viewport,
    input: &Input,
    image_size: (u32, u32),
    cache: &GlyphCache,
) -> (r: ComponentPlan)
    ensures
        r.layout == box_spec(c.mods(), *vp, natural_size(*c, *vp, image_size).0, natural_size(*c, *vp, image_size).1),
        r.glyphs@ == glyphs_spec(*c, r.layout, cache.entries@),
        r.bbox == bbox_spec(*c, r.layout, r.glyphs@),
        r.border == border_spec(r.layout),
        r.shadow == shadow_spec(*c, r.layout),
        match r.state {
            Some(v) => last_state(c.mods()) == Some(v@),
            None => last_state(c.mods()) is None,
        },
        fired_exactly(r.fire@, c.handlers(), r.bbox, *input),
{
    let natural = match c {
        Component::Image(_) => image_size,
        Component::Text(_) => (vp.width, vp.height),
        Component::Rectangle(_) => (0, 0),
    };
    let layout = resolve_box(c.modifiers(), vp, natural.0, natural.1);
    let size = glyph_size_of(layout.line_height);
    let mut glyphs: Vec<PlacedGlyph> = Vec::new();
    match c {
        Component::Text(t) => {
            match shape_text(t.content.as_str(), cache, size, layout.width, t.align) {
                Some(local) => {
                    let mut i: usize = 0;
                    while i < local.len()
                        invariant
                            i <= local@.len(),
                            forall|k: int| 0 <= k < local@.len() ==> crate::text::glyph_bounded(#[trigger] local@[k]),
                            -PIXEL_LIMIT * 67 <= layout.x <= PIXEL_LIMIT * 67,
                            -PIXEL_LIMIT * 67 <= layout.y <= PIXEL_LIMIT * 67,
                            glyphs@ =~= shifted(local@, layout.x as int, layout.y as int).take(i as int),
                            forall|k: int| 0 <= k < glyphs@.len() ==> in_frame(#[trigger] glyphs@[k]),
                        decreases local@.len() - i,
                    {
                        let q = local[i];
                        glyphs.push(PlacedGlyph { x: q.x + layout.x, y: q.y + layout.y, ..q });
                        i = i + 1;
                    }
                    proof {
                        assert(shifted(local@, layout.x as int, layout.y as int).take(local@.len() as int)
                            =~= shifted(local@, layout.x as int, layout.y as int));
                    }
                },
                None => {},
            }
        },
        _ => {},
    }
    let bbox = match c {
        Component::Text(_) => extent_of(BBox { x0: layout.x, y0: layout.y, x1: layout.x, y1: layout.y }, &glyphs),
        _ => BBox { x0: layout.x, y0: layout.y, x1: layout.x + layout.width, y1: layout.y + layout.height },
    };
    let border = if layout.border_width > 0 {
        Some(
            BBox {
                x0: layout.x - layout.border_width,
                y0: layout.y - layout.border_width,
                x1: layout.x + layout.width + layout.border_width,
                y1: layout.y + layout.height + layout.border_width,
            },
        )
    } else {
        None
    };
    let shadow = match (c, layout.shadow) {
        (Component::Text(_), Some(sh)) => if sh.boxed[0] < sh.boxed[2] || sh.boxed[1] < sh.boxed[3] {
            Some(
                ShadowSpan {
                    x0: sh.boxed[0] as i64 - 1,
                    x1: sh.boxed[2] as i64,
                    y0: sh.boxed[1] as i64 - 1,
                    y1: sh.boxed[3] as i64,
                },
            )
        } else {
            None
        },
        _ => None,
    };
    let state = state_of(c.modifiers());
    let fire = fired_handlers(c.handler_list(), &bbox, input);
    ComponentPlan { layout, bbox, border, glyphs, shadow, state, fire }
}

/// The components of a view that this frame shows, in view order: those whose
/// conditions hold in the store as it is before any handler of the frame runs.
pub fn visible<H>(view: &View<H>, events: &Events) -> (r: Vec<usize>)
    ensures
        forall|k: int|
            0 <= k < r@.len() ==> #[trigger] r@[k] < view.components@.len() && conditions_hold(
                view.components@[r@[k] as int].mods(),
                events.keyval@,
            ),
        forall|i: int|
            0 <= i < view.components@.len() && conditions_hold(
                #[trigger] view.components@[i].mods(),
                events.keyval@,
            ) ==> r@.contains(i as usize),
        forall|k: int, m: int| 0 <= k < m < r@.len() ==> r@[k] < r@[m],
{
    let mut out: Vec<usize> = Vec::new();
    let mut i: usize = 0;
    while i < view.components.len()
        invariant
            i <= view.components@.len(),
            forall|k: int|
                0 <= k < out@.len() ==> #[trigger] out@[k] < i && conditions_hold(
                    view.components@[out@[k] as int].mods(),
                    events.keyval@,
                ),
            forall|j: int|
                0 <= j < i && conditions_hold(#[trigger] view.components@[j].mods(), events.keyval@)
                    ==> out@.contains(j as usize),
            forall|k: int, m: int| 0 <= k < m < out@.len() ==> out@[k] < out@[m],
        decreases view.components@.len() - i,
    {
        if is_shown(&view.components[i], events) {
            let ghost before = out@;
            out.push(i);
            proof {
                assert forall|j: int|
                    0 <= j <= i && conditions_hold(#[trigger] view.components@[j].mods(), events.keyval@)
                        implies out@.contains(j as usize) by {
                    if j < i {
                        let w = choose|w: int| 0 <= w < before.len() && before[w] == j as usize;
                        assert(out@[w] == j as usize);
                    } else {
                        assert(out@[before.len() as int] == j as usize);
                    }
                }
            }
        }
        i = i + 1;
    }
    out
}

/// A value that a handler writes to the store during a frame decides the
/// conditions from the next frame on: a component whose conditions all ask
/// for that value is shown once the write is made, while the frame that ran
/// the handler had settled what it shows from the store as it was before.
pub proof fn written_value_shows_next_frame(
    mods: Seq<Modifier>,
    before: Seq<(String, String)>,
    after: Seq<(String, String)>,
    key: Seq<char>,
    val: Seq<char>,
)
    requires
        lookup(after, key) == Some(val),
        forall|k: Seq<char>| k != key ==> lookup(after, k) == lookup(before, k),
        forall|i: int|
            0 <= i < mods.len() ==> match #[trigger] mods[i] {
                Modifier::Conditional(c) => c.key@ == key && c.val@ == val,
                _ => true,
            },
    ensures
        conditions_hold(mods, after),
        conditions_hold(mods, before) <==> (value_of(before, key) == val || forall|i: int|
            0 <= i < mods.len() ==> !(#[trigger] mods[i] is Conditional)),
{
    assert forall|i: int| 0 <= i < mods.len() implies condition_holds(#[trigger] mods[i], after) by {}
    if value_of(before, key) != val && !(forall|i: int| 0 <= i < mods.len() ==> !(#[trigger] mods[i] is Conditional)) {
        let i = choose|i: int| 0 <= i < mods.len() && #[trigger] mods[i] is Conditional;
        assert(!condition_holds(mods[i], before));
    }
}

} // verus!
