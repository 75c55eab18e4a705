use vstd::prelude::*;
use crate::view::{
    Angle, CenterOfGravity, Modifier, Rgba, Shadow, ViewUnit,
};

verus! {

/// The largest magnitude of a resolved length, in pixels.
pub const PIXEL_LIMIT: i64 = 10_000_000_000_000_000;

/// The drawable area of the frame and its current em size, in pixels.
#[derive(Clone, Copy, Debug, PartialEq, Eq, Structural)]
pub struct Viewport {
    /// Drawable width.
    pub width: u32,
    /// Drawable height.
    pub height: u32,
    /// Size of one em.
    pub em: u32,
}

/// The dimension that a length is measured along; plain percent follows it.
#[derive(Clone, Copy, Debug, PartialEq, Eq, Structural)]
pub enum Axis {
    /// Widths and horizontal offsets.
    Horizontal,
    /// Heights, line heights and vertical offsets.
    Vertical,
}

/// The smallest integer that is at least `a / d`, for a positive `d`.
pub open spec fn ceil_div(a: int, d: int) -> int {
    if a >= 0 {
        (a + d - 1) / d
    } else {
        -((-a) / d)
    }
}

/// `ceil_div` is the ceiling: the least multiple of `d` that reaches `a`.
pub proof fn ceil_div_is_ceiling(a: int, d: int)
    requires
        0 < d,
    ensures
        d * ceil_div(a, d) >= a,
        d * (ceil_div(a, d) - 1) < a,
{
    if a >= 0 {
        vstd::arithmetic::div_mod::lemma_fundamental_div_mod(a + d - 1, d);
    } else {
        vstd::arithmetic::div_mod::lemma_fundamental_div_mod(-a, d);
    }
    assert(d * ceil_div(a, d) >= a && d * (ceil_div(a, d) - 1) < a) by (nonlinear_arith)
        requires
            0 < d,
            a >= 0 ==> a + d - 1 == d * ((a + d - 1) / d) + (a + d - 1) % d,
            a < 0 ==> -a == d * ((-a) / d) + (-a) % d,
            0 <= (a + d - 1) % d < d,
            0 <= (-a) % d < d,
            ceil_div(a, d) == if a >= 0 { (a + d - 1) / d } else { -((-a) / d) },
    ;
}

/// The largest integer that is at most `a / 2`.
pub open spec fn floor_half(a: int) -> int {
    if a >= 0 {
        a / 2
    } else {
        -((-a + 1) / 2)
    }
}

/// The extent of the viewport along an axis.
pub open spec fn axis_extent(axis: Axis, vp: Viewport) -> int {
    match axis {
        Axis::Horizontal => vp.width as int,
        Axis::Vertical => vp.height as int,
    }
}

/// The pixel length of `scalar` thousandths of `unit`, measured along `axis`;
/// `None` for the center unit, which is settled once the size is known.
pub open spec fn resolve_spec(scalar: int, unit: ViewUnit, axis: Axis, vp: Viewport) -> Option<int> {
    match unit {
        ViewUnit::Em => Some(ceil_div(scalar * vp.em, 1000)),
        ViewUnit::Percent => Some(ceil_div(scalar * axis_extent(axis, vp), 100000)),
        ViewUnit::HorizontalPercent => Some(ceil_div(scalar * vp.width, 100000)),
        ViewUnit::VerticalPercent => Some(ceil_div(scalar * vp.height, 100000)),
        ViewUnit::MinPercent => Some(
            ceil_div(scalar * if vp.width <= vp.height { vp.width } else { vp.height }, 100000),
        ),
        ViewUnit::MaxPercent => Some(
            ceil_div(scalar * if vp.width >= vp.height { vp.width } else { vp.height }, 100000),
        ),
        ViewUnit::Center => None,
        ViewUnit::Pixel => Some(ceil_div(scalar, 1000)),
    }
}

/// The first-pass value of a length: the center sentinel counts as zero.
pub open spec fn length_spec(scalar: int, unit: ViewUnit, axis: Axis, vp: Viewport) -> int {
    match resolve_spec(scalar, unit, axis, vp) {
        Some(v) => v,
        None => 0,
    }
}

fn scaled(scalar: i32, factor: u32, denom: i64) -> (r: i64)
    requires
        1000 <= denom <= 100000,
    ensures
        r == ceil_div(scalar * factor, denom as int),
        -PIXEL_LIMIT <= r <= PIXEL_LIMIT,
{
    let s = scalar as i64;
    let f = factor as i64;
    proof {
        assert(-0x8000_0000 * 0xffff_ffff <= s * f <= 0x7fff_ffff * 0xffff_ffff) by (nonlinear_arith)
            requires
                -0x8000_0000 <= s < 0x8000_0000,
                0 <= f <= 0xffff_ffff,
        ;
    }
    let p = s * f;
    if p >= 0 {
        proof {
            assert((p + denom - 1) / (denom as int) <= PIXEL_LIMIT) by (nonlinear_arith)
                requires
                    0 <= p <= 0x7fff_ffff * 0xffff_ffff,
                    1000 <= denom,
            ;
        }
        (p + denom - 1) / denom
    } else {
        proof {
            assert((-p) / (denom as int) <= PIXEL_LIMIT) by (nonlinear_arith)
                requires
                    0 < -p <= 0x8000_0000 * 0xffff_ffff,
                    1000 <= denom,
            ;
        }
        -((-p) / denom)
    }
}

/// Resolves a length against the viewport; `None` for the center unit.
pub fn resolve(scalar: i32, unit: ViewUnit, axis: Axis, vp: &Viewport) -> (r: Option<i64>)
    ensures
        r is None <==> resolve_spec(scalar as int, unit, axis, *vp) is None,
        r is Some ==> r->0 == resolve_spec(scalar as int, unit, axis, *vp)->0,
        r is Some ==> -PIXEL_LIMIT <= r->0 <= PIXEL_LIMIT,
{
    match unit {
        ViewUnit::Em => Some(scaled(scalar, vp.em, 1000)),
        ViewUnit::Percent => match axis {
            Axis::Horizontal => Some(scaled(scalar, vp.width, 100000)),
            Axis::Vertical => Some(scaled(scalar, vp.height, 100000)),
        },
        ViewUnit::HorizontalPercent => Some(scaled(scalar, vp.width, 100000)),
        ViewUnit::VerticalPercent => Some(scaled(scalar, vp.height, 100000)),
        ViewUnit::MinPercent => {
            let m = if vp.width <= vp.height {
                vp.width
            } else {
                vp.height
            };
            Some(scaled(scalar, m, 100000))
        },
        ViewUnit::MaxPercent => {
            let m = if vp.width >= vp.height {
                vp.width
            } else {
                vp.height
            };
            Some(scaled(scalar, m, 100000))
        },
        ViewUnit::Center => None,
        ViewUnit::Pixel => Some(scaled(scalar, 1, 1000)),
    }
}

/// Resolves a length for the first pass, where the center sentinel counts as zero.
pub fn length(scalar: i32, unit: ViewUnit, axis: Axis, vp: &Viewport) -> (r: i64)
    ensures
        r == length_spec(scalar as int, unit, axis, *vp),
        -PIXEL_LIMIT <= r <= PIXEL_LIMIT,
{
    match resolve(scalar, unit, axis, vp) {
        Some(v) => v,
        None => 0,
    }
}

/// Resolving the same length twice, against the same viewport, gives the same pixels.
pub proof fn resolution_is_deterministic(
    scalar: i32,
    unit: ViewUnit,
    axis: Axis,
    vp: Viewport,
    first: Option<i64>,
    second: Option<i64>,
)
    requires
        first is None <==> resolve_spec(scalar as int, unit, axis, vp) is None,
        first is Some ==> first->0 == resolve_spec(scalar as int, unit, axis, vp)->0,
        second is None <==> resolve_spec(scalar as int, unit, axis, vp) is None,
        second is Some ==> second->0 == resolve_spec(scalar as int, unit, axis, vp)->0,
    ensures
        first == second,
{
}

/// The resolved box model of one component, in pixels.
#[derive(Clone, Copy, Debug, PartialEq, Eq)]
pub struct BoxModel {
    /// Left edge.
    pub x: i64,
    /// Top edge.
    pub y: i64,
    /// Width.
    pub width: i64,
    /// Height.
    pub height: i64,
    /// Height of one line of text.
    pub line_height: i64,
    /// Fill, image tint or text color.
    pub color: Rgba,
    /// Thickness of the border; none is drawn unless it is positive.
    pub border_width: i64,
    /// Color of the border.
    pub border_color: Rgba,
    /// Shadow behind the glyphs, if any.
    pub shadow: Option<Shadow>,
    /// Anchor point, in thousandths of the size.
    pub gravity: CenterOfGravity,
    /// Rotation, if any.
    pub angle: Option<Angle>,
}

/// Every length of the box lies within the pixel limit.
pub open spec fn lengths_bounded(b: BoxModel) -> bool {
    &&& -PIXEL_LIMIT <= b.x <= PIXEL_LIMIT
    &&& -PIXEL_LIMIT <= b.y <= PIXEL_LIMIT
    &&& -PIXEL_LIMIT <= b.width <= PIXEL_LIMIT
    &&& -PIXEL_LIMIT <= b.height <= PIXEL_LIMIT
    &&& -PIXEL_LIMIT <= b.line_height <= PIXEL_LIMIT
    &&& -PIXEL_LIMIT <= b.border_width <= PIXEL_LIMIT
}

/// The box before any modifier: the natural size at the origin, one em per
/// line, opaque white, no border, shadow, anchor offset or rotation.
pub open spec fn initial_box(vp: Viewport, natural_width: u32, natural_height: u32) -> BoxModel {
    BoxModel {
        x: 0,
        y: 0,
        width: natural_width as i64,
        height: natural_height as i64,
        line_height: vp.em as i64,
        color: Rgba { r: 255, g: 255, b: 255, a: 255 },
        border_width: 0,
        border_color: Rgba { r: 0, g: 0, b: 0, a: 255 },
        shadow: None,
        gravity: CenterOfGravity { horizontal: 0, vertical: 0 },
        angle: None,
    }
}

/// The box after one modifier: the value that it sets replaces the previous one.
pub open spec fn apply_spec(b: BoxModel, m: Modifier, vp: Viewport) -> BoxModel {
    match m {
        Modifier::Width(w) => BoxModel {
            width: length_spec(w.scalar as int, w.unit, Axis::Horizontal, vp) as i64,
            ..b
        },
        Modifier::Height(h) => BoxModel {
            height: length_spec(h.scalar as int, h.unit, Axis::Vertical, vp) as i64,
            ..b
        },
        Modifier::TranslateX(t) => BoxModel {
            x: length_spec(t.scalar as int, t.unit, Axis::Horizontal, vp) as i64,
            ..b
        },
        Modifier::TranslateY(t) => BoxModel {
            y: length_spec(t.scalar as int, t.unit, Axis::Vertical, vp) as i64,
            ..b
        },
        Modifier::Scale(sc) => BoxModel {
            line_height: length_spec(sc.scalar as int, sc.unit, Axis::Vertical, vp) as i64,
            ..b
        },
        Modifier::Color(c) => BoxModel { color: c.rgba, ..b },
        Modifier::Border(bd) => BoxModel {
            border_width: length_spec(bd.scalar as int, bd.unit, Axis::Horizontal, vp) as i64,
            border_color: bd.rgba,
            ..b
        },
        Modifier::Shadow(sh) => BoxModel { shadow: Some(sh), ..b },
        Modifier::CenterOfGravity(g) => BoxModel { gravity: g, ..b },
        Modifier::Angle(a) => BoxModel { angle: Some(a), ..b },
        Modifier::Conditional(_) => b,
        Modifier::State(_) => b,
    }
}

/// The first pass: the modifiers folded left to right over the initial box.
pub open spec fn fold_spec(mods: Seq<Modifier>, vp: Viewport, init: BoxModel) -> BoxModel
    decreases mods.len(),
{
    if mods.len() == 0 {
        init
    } else {
        apply_spec(fold_spec(mods.drop_last(), vp, init), mods.last(), vp)
    }
}

/// Whether a modifier is a horizontal offset in the center unit.
pub open spec fn centers_x_at(m: Modifier) -> bool {
    m matches Modifier::TranslateX(t) && t.unit == ViewUnit::Center
}

/// Whether a modifier is a vertical offset in the center unit.
pub open spec fn centers_y_at(m: Modifier) -> bool {
    m matches Modifier::TranslateY(t) && t.unit == ViewUnit::Center
}

/// Whether the list centers the component horizontally.
pub open spec fn centers_x(mods: Seq<Modifier>) -> bool {
    exists|i: int| 0 <= i < mods.len() && centers_x_at(#[trigger] mods[i])
}

/// Whether the list centers the component vertically.
pub open spec fn centers_y(mods: Seq<Modifier>) -> bool {
    exists|i: int| 0 <= i < mods.len() && centers_y_at(#[trigger] mods[i])
}

/// The box of a component: the first pass, then centering, then the anchor offset.
pub open spec fn box_spec(
    mods: Seq<Modifier>,
    vp: Viewport,
    natural_width: u32,
    natural_height: u32,
) -> BoxModel {
    let b = fold_spec(mods, vp, initial_box(vp, natural_width, natural_height));
    let cx = if centers_x(mods) {
        floor_half(vp.width - b.width)
    } else {
        b.x as int
    };
    let cy = if centers_y(mods) {
        floor_half(vp.height - b.height)
    } else {
        b.y as int
    };
    BoxModel {
        x: (cx - ceil_div(b.gravity.horizontal * b.width, 1000)) as i64,
        y: (cy - ceil_div(b.gravity.vertical * b.height, 1000)) as i64,
        ..b
    }
}

fn apply(b: BoxModel, m: &Modifier, vp: &Viewport) -> (r: BoxModel)
    requires
        lengths_bounded(b),
    ensures
        r == apply_spec(b, *m, *vp),
        lengths_bounded(r),
{
    match m {
        Modifier::Width(w) => BoxModel { width: length(w.scalar, w.unit, Axis::Horizontal, vp), ..b },
        Modifier::Height(h) => BoxModel { height: length(h.scalar, h.unit, Axis::Vertical, vp), ..b },
        Modifier::TranslateX(t) => BoxModel { x: length(t.scalar, t.unit, Axis::Horizontal, vp), ..b },
        Modifier::TranslateY(t) => BoxModel { y: length(t.scalar, t.unit, Axis::Vertical, vp), ..b },
        Modifier::Scale(sc) => BoxModel {
            line_height: length(sc.scalar, sc.unit, Axis::Vertical, vp),
            ..b
        },
        Modifier::Color(c) => BoxModel { color: c.rgba, ..b },
        Modifier::Border(bd) => BoxModel {
            border_width: length(bd.scalar, bd.unit, Axis::Horizontal, vp),
            border_color: bd.rgba,
            ..b
        },
        Modifier::Shadow(sh) => BoxModel { shadow: Some(*sh), ..b },
        Modifier::CenterOfGravity(g) => BoxModel { gravity: *g, ..b },
        Modifier::Angle(a) => BoxModel { angle: Some(*a), ..b },
        Modifier::Conditional(_) => b,
        Modifier::State(_) => b,
    }
}

fn floor_half_exec(a: i64) -> (r: i64)
    requires
        -PIXEL_LIMIT - 0x1_0000_0000 <= a <= PIXEL_LIMIT + 0x1_0000_0000,
    ensures
        r == floor_half(a as int),
{
    if a >= 0 {
        a / 2
    } else {
        -((-a + 1) / 2)
    }
}

/// The pixel offset of the anchor point along one side of the given length.
fn gravity_offset(fraction: u16, size: i64) -> (r: i64)
    requires
        -PIXEL_LIMIT <= size <= PIXEL_LIMIT,
    ensures
        r == ceil_div(fraction * size, 1000),
        -PIXEL_LIMIT * 66 <= r <= PIXEL_LIMIT * 66,
{
    let f = fraction as i128;
    let s = size as i128;
    proof {
        assert(-PIXEL_LIMIT * 0x1_0000 <= f * s <= PIXEL_LIMIT * 0x1_0000) by (nonlinear_arith)
            requires
                0 <= f < 0x1_0000,
                -PIXEL_LIMIT <= s <= PIXEL_LIMIT,
        ;
    }
    let p = f * s;
    if p >= 0 {
        proof {
            assert((p + 999) / 1000 <= PIXEL_LIMIT * 66) by (nonlinear_arith)
                requires
                    0 <= p <= PIXEL_LIMIT * 0x1_0000,
            ;
        }
        ((p + 999) / 1000) as i64
    } else {
        proof {
            assert((-p) / 1000 <= PIXEL_LIMIT * 66) by (nonlinear_arith)
                requires
                    0 < -p <= PIXEL_LIMIT * 0x1_0000,
            ;
        }
        (-((-p) / 1000)) as i64
    }
}

/// Resolves a component's modifier list into its box. Lengths fold left to
/// right, so the last modifier of a kind wins; a center offset then places
/// the box in the middle of the viewport, and the anchor point shifts it.
/// `natural_width` and `natural_height` give the size when no modifier sets one.
pub fn resolve_box(mods: &Vec<Modifier>, vp: &Viewport, natural_width: u32, natural_height: u32) -> (r: BoxModel)
    ensures
        r == box_spec(mods@, *vp, natural_width, natural_height),
        -PIXEL_LIMIT <= r.width <= PIXEL_LIMIT,
        -PIXEL_LIMIT <= r.height <= PIXEL_LIMIT,
        -PIXEL_LIMIT <= r.line_height <= PIXEL_LIMIT,
        -PIXEL_LIMIT <= r.border_width <= PIXEL_LIMIT,
        -PIXEL_LIMIT * 67 <= r.x <= PIXEL_LIMIT * 67,
        -PIXEL_LIMIT * 67 <= r.y <= PIXEL_LIMIT * 67,
{
    let init = BoxModel {
        x: 0,
        y: 0,
        width: natural_width as i64,
        height: natural_height as i64,
        line_height: vp.em as i64,
        color: Rgba { r: 255, g: 255, b: 255, a: 255 },
        border_width: 0,
        border_color: Rgba { r: 0, g: 0, b: 0, a: 255 },
        shadow: None,
        gravity: CenterOfGravity { horizontal: 0, vertical: 0 },
        angle: None,
    };
    let mut b = init;
    let mut center_x = false;
    let mut center_y = false;
    let mut i: usize = 0;
    while i < mods.len()
        invariant
            0 <= i <= mods@.len(),
            init == initial_box(*vp, natural_width, natural_height),
            b == fold_spec(mods@.take(i as int), *vp, init),
            lengths_bounded(b),
            center_x == centers_x(mods@.take(i as int)),
            center_y == centers_y(mods@.take(i as int)),
        decreases mods@.len() - i,
    {
        let m = &mods[i];
        proof {
            assert(mods@.take(i + 1).drop_last() =~= mods@.take(i as int));
            assert(mods@.take(i + 1).last() == mods@[i as int]);
        }
        b = apply(b, m, vp);
        let cx = match m {
            Modifier::TranslateX(t) => match t.unit {
                ViewUnit::Center => true,
                _ => false,
            },
            _ => false,
        };
        let cy = match m {
            Modifier::TranslateY(t) => match t.unit {
                ViewUnit::Center => true,
                _ => false,
            },
            _ => false,
        };
        proof {
            let s0 = mods@.take(i as int);
            let s1 = mods@.take(i + 1);
            assert forall|j: int| 0 <= j < s0.len() implies s1[j] == s0[j] by {}
            if cx {
                assert(s1[i as int] == mods@[i as int]);
            }
            if centers_x(s1) && !cx {
                let j = choose|j: int| 0 <= j < s1.len() && centers_x_at(#[trigger] s1[j]);
                assert(j != i);
                assert(s0[j] == s1[j]);
            }
            if cy {
                assert(s1[i as int] == mods@[i as int]);
            }
            if centers_y(s1) && !cy {
                let j = choose|j: int| 0 <= j < s1.len() && centers_y_at(#[trigger] s1[j]);
                assert(j != i);
                assert(s0[j] == s1[j]);
            }
            if center_x {
                let j = choose|j: int| 0 <= j < s0.len() && centers_x_at(#[trigger] s0[j]);
                assert(s1[j] == s0[j]);
            }
            if center_y {
                let j = choose|j: int| 0 <= j < s0.len() && centers_y_at(#[trigger] s0[j]);
                assert(s1[j] == s0[j]);
            }
        }
        center_x = center_x || cx;
        center_y = center_y || cy;
        i = i + 1;
    }
    proof {
        assert(mods@.take(mods@.len() as int) =~= mods@);
    }
    let px = if center_x {
        floor_half_exec(vp.width as i64 - b.width)
    } else {
        b.x
    };
    let py = if center_y {
        floor_half_exec(vp.height as i64 - b.height)
    } else {
        b.y
    };
    let gx = gravity_offset(b.gravity.horizontal, b.width);
    let gy = gravity_offset(b.gravity.vertical, b.height);
    BoxModel { x: px - gx, y: py - gy, ..b }
}

/// Of two or more width modifiers, the one added last sets the width: earlier
/// widths are replaced, never combined.
pub proof fn last_width_wins(
    mods: Seq<Modifier>,
    w: crate::view::Width,
    vp: Viewport,
    natural_width: u32,
    natural_height: u32,
)
    ensures
        box_spec(mods.push(Modifier::Width(w)), vp, natural_width, natural_height).width
            == length_spec(w.scalar as int, w.unit, Axis::Horizontal, vp) as i64,
{
    assert(mods.push(Modifier::Width(w)).drop_last() =~= mods);
}

} // verus!
