use vstd::prelude::*;

verus! {

/// Layout modes for tiling windows within a workspace.
#[derive(Debug, Clone, Copy, PartialEq, Eq, Structural)]
pub enum LayoutMode {
    /// One window fills the entire screen.
    Monocle,
    /// Windows share the screen width equally in a horizontal row.
    HorizSplit,
    /// Windows share the screen height equally in a vertical stack.
    VertSplit,
}

/// A simple integer rectangle in screen-space (pixels).
#[derive(Debug, Clone, Copy, PartialEq, Eq, Structural)]
pub struct Rect {
    pub x: i32,
    pub y: i32,
    pub w: i32,
    pub h: i32,
}

impl Rect {
    pub fn new(x: i32, y: i32, w: i32, h: i32) -> (r: Self)
        ensures
            r == (Rect { x, y, w, h }),
    {
        Rect { x, y, w, h }
    }
}

/// Integer division rounding toward zero, as machine division does.
pub open spec fn div_toward_zero(a: int, b: int) -> int {
    if a >= 0 {
        a / b
    } else {
        -((-a) / b)
    }
}

/// Size of every tile but the last along a split axis of length `len`.
pub open spec fn tile_span(count: nat, len: int) -> int {
    div_toward_zero(len, count as int)
}

/// Offset of tile `i` along the split axis, relative to the area's start.
pub open spec fn tile_offset(count: nat, len: int, i: int) -> int {
    tile_span(count, len) * i
}

/// Size of tile `i` along the split axis: the last tile also takes the remainder.
pub open spec fn tile_size(count: nat, len: int, i: int) -> int {
    if i == count - 1 {
        len - tile_span(count, len) * (count - 1)
    } else {
        tile_span(count, len)
    }
}

/// Tile `i` of a split layout of `count` windows over `area`.
pub open spec fn spec_tile(count: nat, area: Rect, mode: LayoutMode, i: int) -> Rect {
    match mode {
        LayoutMode::HorizSplit => Rect {
            x: (area.x + tile_offset(count, area.w as int, i)) as i32,
            y: area.y,
            w: tile_size(count, area.w as int, i) as i32,
            h: area.h,
        },
        LayoutMode::VertSplit => Rect {
            x: area.x,
            y: (area.y + tile_offset(count, area.h as int, i)) as i32,
            w: area.w,
            h: tile_size(count, area.h as int, i) as i32,
        },
        LayoutMode::Monocle => area,
    }
}

/// The tiles `compute_tiles` produces: none for no window, the whole area for
/// one window or in monocle mode, and otherwise one tile per window.
pub open spec fn spec_tiles(count: nat, area: Rect, mode: LayoutMode) -> Seq<Rect> {
    if count == 0 {
        Seq::empty()
    } else if count == 1 || mode == LayoutMode::Monocle {
        seq![area]
    } else {
        Seq::new(count, |i: int| spec_tile(count, area, mode, i))
    }
}

/// The split can be computed with 32-bit coordinates: the window count fits
/// and the start of the last tile does not overflow.
pub open spec fn tiles_fit(count: nat, area: Rect, mode: LayoutMode) -> bool {
    count >= 2 ==> match mode {
        LayoutMode::Monocle => true,
        LayoutMode::HorizSplit => count <= i32::MAX && i32::MIN <= area.x + tile_offset(
            count,
            area.w as int,
            count - 1,
        ) <= i32::MAX,
        LayoutMode::VertSplit => count <= i32::MAX && i32::MIN <= area.y + tile_offset(
            count,
            area.h as int,
            count - 1,
        ) <= i32::MAX,
    }
}

/// Whether `compute_tiles` can lay out `count` windows over `area` in 32-bit
/// coordinates.
pub fn can_tile(count: usize, area: Rect, mode: LayoutMode) -> (b: bool)
    ensures
        b == tiles_fit(count as nat, area, mode),
{
    if count < 2 || mode == LayoutMode::Monocle {
        return true;
    }
    if count > i32::MAX as usize {
        return false;
    }
    let c = count as i64;
    let (start, len) = match mode {
        LayoutMode::VertSplit => (area.y as i64, area.h as i64),
        _ => (area.x as i64, area.w as i64),
    };
    let span = len / c;
    proof {
        lemma_span_bounds(len as int, c as int);
        lemma_offset_between(span as int, (c - 1) as int, c as int);
    }
    let last = start + span * (c - 1);
    i32::MIN as i64 <= last && last <= i32::MAX as i64
}

/// Bounds on the tile span: `span * c` lies between 0 and `len` and leaves a
/// remainder smaller than `c` in magnitude.
proof fn lemma_span_bounds(len: int, c: int)
    requires
        c >= 1,
    ensures
        len >= 0 ==> 0 <= div_toward_zero(len, c) * c <= len && len - div_toward_zero(len, c) * c < c
            && div_toward_zero(len, c) >= 0,
        len < 0 ==> len <= div_toward_zero(len, c) * c <= 0 && len - div_toward_zero(len, c) * c > -c
            && div_toward_zero(len, c) <= 0,
{
    if len >= 0 {
        let q = len / c;
        assert(q * c <= len && len - q * c < c && q >= 0) by (nonlinear_arith)
            requires
                len >= 0,
                c >= 1,
                q == len / c,
        ;
    } else {
        let m = -len;
        let q = m / c;
        assert(q * c <= m && m - q * c < c && q >= 0) by (nonlinear_arith)
            requires
                m >= 0,
                c >= 1,
                q == m / c,
        ;
        assert((-q) * c == -(q * c)) by (nonlinear_arith);
    }
}

/// `span * i` moves monotonically between 0 and `span * c` for `0 <= i <= c`.
proof fn lemma_offset_between(span: int, i: int, c: int)
    requires
        0 <= i <= c,
    ensures
        span >= 0 ==> 0 <= span * i <= span * c,
        span < 0 ==> span * c <= span * i <= 0,
{
    assert(span >= 0 ==> 0 <= span * i <= span * c) by (nonlinear_arith)
        requires
            0 <= i <= c,
    ;
    assert(span < 0 ==> span * c <= span * i <= 0) by (nonlinear_arith)
        requires
            0 <= i <= c,
    ;
}

/// Splits `len` into `count` spans starting at `start`, as the tiles along one axis.
fn split_axis(count: usize, start: i32, len: i32) -> (parts: Vec<(i32, i32)>)
    requires
        2 <= count <= i32::MAX,
        i32::MIN <= start + tile_offset(count as nat, len as int, count - 1) <= i32::MAX,
    ensures
        parts@.len() == count,
        forall|i: int|
            0 <= i < count ==> parts@[i] == (
                (start + tile_offset(count as nat, len as int, i)) as i32,
                tile_size(count as nat, len as int, i) as i32,
            ),
{
    let c = count as i32;
    assert(c as int == count as int);
    let span = len / c;
    proof {
        assert(span as int == div_toward_zero(len as int, c as int));
        lemma_span_bounds(len as int, c as int);
    }
    let remainder = len - span * c;
    let mut parts: Vec<(i32, i32)> = Vec::new();
    let mut i: usize = 0;
    while i < count
        invariant
            2 <= count <= i32::MAX,
            c as int == count as int,
            span as int == tile_span(count as nat, len as int),
            remainder as int == len - span * c,
            i32::MIN <= start + tile_offset(count as nat, len as int, count - 1) <= i32::MAX,
            i <= count,
            parts@.len() == i,
            forall|j: int|
                0 <= j < i ==> parts@[j] == (
                    (start + tile_offset(count as nat, len as int, j)) as i32,
                    tile_size(count as nat, len as int, j) as i32,
                ),
        decreases count - i,
    {
        proof {
            lemma_span_bounds(len as int, c as int);
            lemma_offset_between(span as int, i as int, c as int);
            lemma_offset_between(span as int, i as int, (c - 1) as int);
            lemma_offset_between(span as int, (c - 1) as int, c as int);
            assert(span * c == span * (c - 1) + span) by (nonlinear_arith);
        }
        let extra = if i == count - 1 {
            remainder
        } else {
            0
        };
        let offset = span * (i as i32);
        assert(offset as int == tile_offset(count as nat, len as int, i as int));
        let part = (start + offset, span + extra);
        assert(part.1 as int == tile_size(count as nat, len as int, i as int));
        parts.push(part);
        i += 1;
    }
    parts
}

/// Compute tile rectangles for `count` windows within `area`.
///
/// No window gives no tile; a single window, or any number of windows in
/// monocle mode, gives the whole area; otherwise the area is cut into
/// `count` tiles of equal size along the split axis, the last one taking the
/// remainder.
pub fn compute_tiles(count: usize, area: Rect, mode: LayoutMode) -> (tiles: Vec<Rect>)
    requires
        tiles_fit(count as nat, area, mode),
    ensures
        tiles@ == spec_tiles(count as nat, area, mode),
{
    let mut tiles: Vec<Rect> = Vec::new();
    if count == 0 {
        return tiles;
    }
    if count == 1 || mode == LayoutMode::Monocle {
        tiles.push(area);
        assert(tiles@ =~= seq![area]);
        return tiles;
    }
    let parts = match mode {
        LayoutMode::VertSplit => split_axis(count, area.y, area.h),
        _ => split_axis(count, area.x, area.w),
    };
    let mut i: usize = 0;
    while i < count
        invariant
            2 <= count,
            mode != LayoutMode::Monocle,
            parts@.len() == count,
            forall|j: int|
                0 <= j < count ==> parts@[j] == (
                    (if mode == LayoutMode::VertSplit { area.y } else { area.x } + tile_offset(
                        count as nat,
                        if mode == LayoutMode::VertSplit { area.h } else { area.w } as int,
                        j,
                    )) as i32,
                    tile_size(
                        count as nat,
                        if mode == LayoutMode::VertSplit { area.h } else { area.w } as int,
                        j,
                    ) as i32,
                ),
            i <= count,
            tiles@.len() == i,
            forall|j: int| 0 <= j < i ==> tiles@[j] == spec_tile(count as nat, area, mode, j),
        decreases count - i,
    {
        let (start, size) = parts[i];
        let tile = match mode {
            LayoutMode::VertSplit => Rect::new(area.x, start, area.w, size),
            _ => Rect::new(start, area.y, size, area.h),
        };
        tiles.push(tile);
        i += 1;
    }
    assert(tiles@ =~= spec_tiles(count as nat, area, mode));
    tiles
}

/// Facts about the spans of one split axis: every tile start and size is a
/// 32-bit value, consecutive tiles touch, and the last tile ends at the end of
/// the axis.
proof fn lemma_axis_spans(count: nat, start: int, len: int)
    requires
        2 <= count <= i32::MAX,
        i32::MIN <= start <= i32::MAX,
        i32::MIN <= len <= i32::MAX,
        i32::MIN <= start + tile_offset(count, len, count - 1) <= i32::MAX,
    ensures
        forall|i: int|
            0 <= i < count ==> i32::MIN <= #[trigger] tile_offset(count, len, i) + start <= i32::MAX,
        forall|i: int| 0 <= i < count ==> i32::MIN <= #[trigger] tile_size(count, len, i) <= i32::MAX,
        forall|i: int|
            0 <= i < count - 1 ==> #[trigger] tile_offset(count, len, i + 1) == tile_offset(count, len, i)
                + tile_size(count, len, i),
        tile_offset(count, len, count - 1) + tile_size(count, len, count - 1) == len,
        len >= 0 ==> forall|i: int| 0 <= i < count ==> #[trigger] tile_size(count, len, i) >= 0,
        tile_offset(count, len, 0) == 0,
{
    let c = count as int;
    let span = tile_span(count, len);
    lemma_span_bounds(len, c);
    assert(span * c == span * (c - 1) + span) by (nonlinear_arith);
    assert(span * 0 == 0);
    assert forall|i: int| 0 <= i < count implies i32::MIN <= #[trigger] tile_offset(count, len, i) + start
        <= i32::MAX by {
        lemma_offset_between(span, i, c - 1);
    }
    assert forall|i: int| 0 <= i < count implies i32::MIN <= #[trigger] tile_size(count, len, i)
        <= i32::MAX by {
        lemma_offset_between(span, c - 1, c);
    }
    assert forall|i: int| 0 <= i < count - 1 implies #[trigger] tile_offset(count, len, i + 1) == tile_offset(
        count,
        len,
        i,
    ) + tile_size(count, len, i) by {
        assert(span * (i + 1) == span * i + span) by (nonlinear_arith);
    }
    assert(len >= 0 ==> forall|i: int| 0 <= i < count ==> #[trigger] tile_size(count, len, i) >= 0) by {
        lemma_offset_between(span, c - 1, c);
    }
}

/// The tile list has one rectangle per window in the split layouts, the whole
/// area alone for a single window or in monocle mode, and nothing for no window.
pub proof fn lemma_tile_count(count: nat, area: Rect, mode: LayoutMode)
    ensures
        spec_tiles(count, area, mode).len() == if count == 0 {
            0
        } else if count == 1 || mode == LayoutMode::Monocle {
            1
        } else {
            count
        },
        count >= 1 && (count == 1 || mode == LayoutMode::Monocle) ==> spec_tiles(count, area, mode)
            == seq![area],
{
}

/// A horizontal split covers the area without gaps or overlap: the tiles stand
/// side by side from the area's left edge to its right edge, each as tall as
/// the area, all but the last equally wide; when the area's width is not
/// negative, neither is any tile's.
pub proof fn lemma_horiz_split_covers_area(count: nat, area: Rect)
    requires
        count >= 2,
        tiles_fit(count, area, LayoutMode::HorizSplit),
    ensures
        ({
            let t = spec_tiles(count, area, LayoutMode::HorizSplit);
            &&& t.len() == count
            &&& t[0].x == area.x
            &&& forall|i: int| 0 <= i < count - 1 ==> #[trigger] t[i + 1].x == t[i].x + t[i].w
            &&& forall|i: int| 0 <= i < count - 1 ==> #[trigger] t[i].w == t[0].w
            &&& t[count - 1].x + t[count - 1].w == area.x + area.w
            &&& forall|i: int| 0 <= i < count ==> #[trigger] t[i].y == area.y && t[i].h == area.h
            &&& area.w >= 0 ==> forall|i: int| 0 <= i < count ==> #[trigger] t[i].w >= 0
        }),
{
    let t = spec_tiles(count, area, LayoutMode::HorizSplit);
    lemma_axis_spans(count, area.x as int, area.w as int);
    assert forall|i: int| 0 <= i < count - 1 implies #[trigger] t[i + 1].x == t[i].x + t[i].w by {
        assert(tile_offset(count, area.w as int, i + 1) == tile_offset(count, area.w as int, i) + tile_size(
            count,
            area.w as int,
            i,
        ));
        assert(i32::MIN <= tile_offset(count, area.w as int, i) + area.x <= i32::MAX);
        assert(i32::MIN <= tile_offset(count, area.w as int, i + 1) + area.x <= i32::MAX);
        assert(i32::MIN <= tile_size(count, area.w as int, i) <= i32::MAX);
    }
    assert(i32::MIN <= tile_offset(count, area.w as int, count - 1) + area.x <= i32::MAX);
    assert(i32::MIN <= tile_size(count, area.w as int, count - 1) <= i32::MAX);
    assert(i32::MIN <= tile_offset(count, area.w as int, 0) + area.x <= i32::MAX);
    assert(area.w >= 0 ==> forall|i: int| 0 <= i < count ==> #[trigger] t[i].w >= 0) by {
        assert forall|i: int| 0 <= i < count && area.w >= 0 implies #[trigger] t[i].w >= 0 by {
            assert(i32::MIN <= tile_size(count, area.w as int, i) <= i32::MAX);
        }
    }
}

/// A vertical split covers the area without gaps or overlap: the tiles are
/// stacked from the area's top edge to its bottom edge, each as wide as the
/// area, all but the last equally tall; when the area's height is not
/// negative, neither is any tile's.
pub proof fn lemma_vert_split_covers_area(count: nat, area: Rect)
    requires
        count >= 2,
        tiles_fit(count, area, LayoutMode::VertSplit),
    ensures
        ({
            let t = spec_tiles(count, area, LayoutMode::VertSplit);
            &&& t.len() == count
            &&& t[0].y == area.y
            &&& forall|i: int| 0 <= i < count - 1 ==> #[trigger] t[i + 1].y == t[i].y + t[i].h
            &&& forall|i: int| 0 <= i < count - 1 ==> #[trigger] t[i].h == t[0].h
            &&& t[count - 1].y + t[count - 1].h == area.y + area.h
            &&& forall|i: int| 0 <= i < count ==> #[trigger] t[i].x == area.x && t[i].w == area.w
            &&& area.h >= 0 ==> forall|i: int| 0 <= i < count ==> #[trigger] t[i].h >= 0
        }),
{
    let t = spec_tiles(count, area, LayoutMode::VertSplit);
    lemma_axis_spans(count, area.y as int, area.h as int);
    assert forall|i: int| 0 <= i < count - 1 implies #[trigger] t[i + 1].y == t[i].y + t[i].h by {
        assert(tile_offset(count, area.h as int, i + 1) == tile_offset(count, area.h as int, i) + tile_size(
            count,
            area.h as int,
            i,
        ));
        assert(i32::MIN <= tile_offset(count, area.h as int, i) + area.y <= i32::MAX);
        assert(i32::MIN <= tile_offset(count, area.h as int, i + 1) + area.y <= i32::MAX);
        assert(i32::MIN <= tile_size(count, area.h as int, i) <= i32::MAX);
    }
    assert(i32::MIN <= tile_offset(count, area.h as int, count - 1) + area.y <= i32::MAX);
    assert(i32::MIN <= tile_size(count, area.h as int, count - 1) <= i32::MAX);
    assert(i32::MIN <= tile_offset(count, area.h as int, 0) + area.y <= i32::MAX);
    assert(area.h >= 0 ==> forall|i: int| 0 <= i < count ==> #[trigger] t[i].h >= 0) by {
        assert forall|i: int| 0 <= i < count && area.h >= 0 implies #[trigger] t[i].h >= 0 by {
            assert(i32::MIN <= tile_size(count, area.h as int, i) <= i32::MAX);
        }
    }
}

/// The rectangle with its axes swapped.
pub open spec fn swap_axes(r: Rect) -> Rect {
    Rect { x: r.y, y: r.x, w: r.h, h: r.w }
}

/// Tiling vertically is tiling horizontally with the axes swapped.
pub proof fn lemma_vert_is_swapped_horiz(count: nat, area: Rect)
    ensures
        spec_tiles(count, area, LayoutMode::VertSplit) == spec_tiles(
            count,
            swap_axes(area),
            LayoutMode::HorizSplit,
        ).map_values(|r: Rect| swap_axes(r)),
{
    assert(spec_tiles(count, area, LayoutMode::VertSplit) =~= spec_tiles(
        count,
        swap_axes(area),
        LayoutMode::HorizSplit,
    ).map_values(|r: Rect| swap_axes(r)));
}

/// The geometry granted to a window that asks to be configured: its tile
/// when it has one; otherwise the requested position and size, each field
/// the window does not ask for keeping its current value. A requested size
/// is taken as a 32-bit signed value, as X11 hands it over.
pub open spec fn spec_configure_reply(
    tile: Option<Rect>,
    x: Option<i32>,
    y: Option<i32>,
    w: Option<u32>,
    h: Option<u32>,
    current: Rect,
) -> Rect {
    match tile {
        Some(r) => r,
        None => Rect {
            x: match x {
                Some(v) => v,
                None => current.x,
            },
            y: match y {
                Some(v) => v,
                None => current.y,
            },
            w: match w {
                Some(v) => v as i32,
                None => current.w,
            },
            h: match h {
                Some(v) => v as i32,
                None => current.h,
            },
        },
    }
}

/// Answers a configure request: the tile, or the request over the current
/// geometry.
pub fn configure_reply(
    tile: Option<Rect>,
    x: Option<i32>,
    y: Option<i32>,
    w: Option<u32>,
    h: Option<u32>,
    current: Rect,
) -> (r: Rect)
    ensures
        r == spec_configure_reply(tile, x, y, w, h, current),
{
    match tile {
        Some(r) => r,
        None => {
            let nx = match x {
                Some(v) => v,
                None => current.x,
            };
            let ny = match y {
                Some(v) => v,
                None => current.y,
            };
            let nw = match w {
                Some(v) => v as i32,
                None => current.w,
            };
            let nh = match h {
                Some(v) => v as i32,
                None => current.h,
            };
            Rect { x: nx, y: ny, w: nw, h: nh }
        },
    }
}

} // verus!
