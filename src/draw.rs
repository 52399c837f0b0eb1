use vstd::prelude::*;

verus! {

/// One call on a 2D canvas context. Coordinates are in surface units.
#[derive(Clone, Debug)]
pub enum DrawOp {
    BeginPath,
    MoveTo(i64, i64),
    LineTo(i64, i64),
    /// Control point, end point and radius.
    ArcTo(i64, i64, i64, i64, i64),
    Stroke,
    Fill,
    FillRect(i64, i64, i64, i64),
    SetFillStyle(String),
    SetStrokeStyle(String),
    SetLineWidth(i64),
    SetFont(String),
    SetTextAlign(String),
    FillText(String, i64, i64),
}

/// A canvas call with its text as a sequence of characters.
pub enum DrawOpView {
    BeginPath,
    MoveTo(int, int),
    LineTo(int, int),
    ArcTo(int, int, int, int, int),
    Stroke,
    Fill,
    FillRect(int, int, int, int),
    SetFillStyle(Seq<char>),
    SetStrokeStyle(Seq<char>),
    SetLineWidth(int),
    SetFont(Seq<char>),
    SetTextAlign(Seq<char>),
    FillText(Seq<char>, int, int),
}

impl View for DrawOp {
    type V = DrawOpView;

    open spec fn view(&self) -> DrawOpView {
        match self {
            DrawOp::BeginPath => DrawOpView::BeginPath,
            DrawOp::MoveTo(x, y) => DrawOpView::MoveTo(*x as int, *y as int),
            DrawOp::LineTo(x, y) => DrawOpView::LineTo(*x as int, *y as int),
            DrawOp::ArcTo(x1, y1, x2, y2, r) => DrawOpView::ArcTo(
                *x1 as int,
                *y1 as int,
                *x2 as int,
                *y2 as int,
                *r as int,
            ),
            DrawOp::Stroke => DrawOpView::Stroke,
            DrawOp::Fill => DrawOpView::Fill,
            DrawOp::FillRect(x, y, w, h) => DrawOpView::FillRect(
                *x as int,
                *y as int,
                *w as int,
                *h as int,
            ),
            DrawOp::SetFillStyle(s) => DrawOpView::SetFillStyle(s@),
            DrawOp::SetStrokeStyle(s) => DrawOpView::SetStrokeStyle(s@),
            DrawOp::SetLineWidth(w) => DrawOpView::SetLineWidth(*w as int),
            DrawOp::SetFont(s) => DrawOpView::SetFont(s@),
            DrawOp::SetTextAlign(s) => DrawOpView::SetTextAlign(s@),
            DrawOp::FillText(s, x, y) => DrawOpView::FillText(s@, *x as int, *y as int),
        }
    }
}

/// What a list of canvas calls draws.
pub open spec fn ops_view(ops: Seq<DrawOp>) -> Seq<DrawOpView> {
    ops.map_values(|o: DrawOp| o@)
}

proof fn lemma_ops_view_push(ops: Seq<DrawOp>, o: DrawOp)
    ensures
        ops_view(ops.push(o)) == ops_view(ops).push(o@),
{
    assert(ops_view(ops.push(o)) =~= ops_view(ops).push(o@));
}

proof fn lemma_ops_view_append(a: Seq<DrawOp>, b: Seq<DrawOp>)
    ensures
        ops_view(a + b) == ops_view(a) + ops_view(b),
{
    assert(ops_view(a + b) =~= ops_view(a) + ops_view(b));
}

/// Appends `o` to `ops`, keeping track of what the list draws.
pub fn push_op(ops: &mut Vec<DrawOp>, o: DrawOp)
    ensures
        ops_view(final(ops)@) == ops_view(old(ops)@).push(o@),
{
    proof {
        lemma_ops_view_push(ops@, o);
    }
    ops.push(o);
}

/// Appends every call of `more` to `ops`.
pub fn append_ops(ops: &mut Vec<DrawOp>, more: Vec<DrawOp>)
    ensures
        ops_view(final(ops)@) == ops_view(old(ops)@) + ops_view(more@),
{
    let mut more = more;
    proof {
        lemma_ops_view_append(ops@, more@);
    }
    ops.append(&mut more);
}

pub open spec fn fits_i64(v: int) -> bool {
    i64::MIN <= v <= i64::MAX
}

/// The path of a rectangle with rounded corners, from the middle of the left
/// edge round the box: left edge, bottom-left corner, bottom edge,
/// bottom-right corner, right edge, top-right corner, top edge, top-left
/// corner.
pub open spec fn rounded_rect_path(x: int, y: int, w: int, h: int, r: int) -> Seq<DrawOpView> {
    seq![
        DrawOpView::MoveTo(x, y + r),
        DrawOpView::LineTo(x, y + h - r),
        DrawOpView::ArcTo(x, y + h, x + r, y + h, r),
        DrawOpView::LineTo(x + w - r, y + h),
        DrawOpView::ArcTo(x + w, y + h, x + w, y + h - r, r),
        DrawOpView::LineTo(x + w, y + r),
        DrawOpView::ArcTo(x + w, y, x + w - r, y, r),
        DrawOpView::LineTo(x + r, y),
        DrawOpView::ArcTo(x, y, x, y + r, r),
    ]
}

/// The coordinates that the path of a rounded rectangle reaches can be
/// represented.
pub open spec fn rounded_rect_fits(x: int, y: int, w: int, h: int, r: int) -> bool {
    &&& fits_i64(x + r)
    &&& fits_i64(x + w)
    &&& fits_i64(x + w - r)
    &&& fits_i64(y + r)
    &&& fits_i64(y + h)
    &&& fits_i64(y + h - r)
}

/// The canvas calls that trace a rounded rectangle. The caller begins the
/// path before and strokes or fills it after.
pub fn rounded_rect(x: i64, y: i64, w: i64, h: i64, radius: i64) -> (r: Vec<DrawOp>)
    requires
        rounded_rect_fits(x as int, y as int, w as int, h as int, radius as int),
    ensures
        ops_view(r@) == rounded_rect_path(x as int, y as int, w as int, h as int, radius as int),
{
    let left = x;
    let right = x + w;
    let top = y;
    let bottom = y + h;
    let left_in = x + radius;
    let right_in = right - radius;
    let top_in = y + radius;
    let bottom_in = bottom - radius;
    let ops = vec![
        DrawOp::MoveTo(left, top_in),
        DrawOp::LineTo(left, bottom_in),
        DrawOp::ArcTo(left, bottom, left_in, bottom, radius),
        DrawOp::LineTo(right_in, bottom),
        DrawOp::ArcTo(right, bottom, right, bottom_in, radius),
        DrawOp::LineTo(right, top_in),
        DrawOp::ArcTo(right, top, right_in, top, radius),
        DrawOp::LineTo(left_in, top),
        DrawOp::ArcTo(left, top, left, top_in, radius),
    ];
    assert(ops_view(ops@) =~= rounded_rect_path(
        x as int,
        y as int,
        w as int,
        h as int,
        radius as int,
    ));
    ops
}

} // verus!
