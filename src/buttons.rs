use vstd::prelude::*;

use crate::draw::{
    append_ops,
    ops_view,
    push_op,
    rounded_rect,
    rounded_rect_path,
    DrawOp,
    DrawOpView,
};
use crate::types::{Area, Point};
use crate::ui::ButtonType;

verus! {

broadcast use vstd::string::group_string_axioms;

/// Corner radius of a button's box.
pub const CORNER_RADIUS: i64 = 5;

/// How far the hover shadow is moved right and down.
pub const SHADOW_OFFSET: i64 = 4;

/// Width of a button's border.
pub const BORDER_WIDTH: i64 = 2;

/// How far the label is moved down from the true center.
pub const LABEL_NUDGE: i64 = 4;

/// A rectangular, labelled control that can be hovered and clicked, and
/// that is drawn only when its look has changed.
pub struct Button {
    pub area: Area,
    pub button_type: ButtonType,
    text: String,
    hover: bool,
    dirty: bool,
}

/// What a `Button` holds, with its label as characters.
pub struct ButtonView {
    pub area: Area,
    pub button_type: ButtonType,
    pub text: Seq<char>,
    pub hover: bool,
    pub dirty: bool,
}

impl ButtonView {
    /// The button after its hover flag is set to `state`: marked for drawing
    /// only where the flag changes.
    pub open spec fn with_hover(self, state: bool) -> ButtonView {
        if self.hover == state {
            self
        } else {
            ButtonView { hover: state, dirty: true, ..self }
        }
    }

    /// The button after a render.
    pub open spec fn rendered(self) -> ButtonView {
        ButtonView { dirty: false, ..self }
    }
}

impl View for Button {
    type V = ButtonView;

    closed spec fn view(&self) -> ButtonView {
        ButtonView {
            area: self.area,
            button_type: self.button_type,
            text: self.text@,
            hover: self.hover,
            dirty: self.dirty,
        }
    }
}

/// The rounded box of a button whose top-left corner is moved by `offset`.
pub open spec fn button_box(a: Area, offset: int) -> Seq<DrawOpView> {
    rounded_rect_path(
        a.x1 + offset,
        a.y1 + offset,
        a.w as int,
        a.h as int,
        CORNER_RADIUS as int,
    )
}

/// What a button draws when it is dirty: it clears a box a little larger
/// than itself in white; when hovered, fills a light grey shadow; fills its
/// box in white; strokes its border in dark grey; and writes its label,
/// centered and moved down a little.
pub open spec fn button_face_ops(b: ButtonView) -> Seq<DrawOpView> {
    let a = b.area;
    let clear = seq![
        DrawOpView::SetFillStyle("#FFF"@),
        DrawOpView::FillRect(a.x1 - 1, a.y1 - 1, a.w + 5, a.h + 5),
    ];
    let shadow = if b.hover {
        seq![DrawOpView::BeginPath, DrawOpView::SetFillStyle("#DDD"@)] + button_box(
            a,
            SHADOW_OFFSET as int,
        ) + seq![DrawOpView::Fill]
    } else {
        seq![]
    };
    let face = seq![DrawOpView::BeginPath, DrawOpView::SetFillStyle("#FFF"@)] + button_box(a, 0)
        + seq![DrawOpView::Fill];
    let border = seq![
        DrawOpView::BeginPath,
        DrawOpView::SetStrokeStyle("#555"@),
        DrawOpView::SetLineWidth(BORDER_WIDTH as int),
    ] + button_box(a, 0) + seq![DrawOpView::Stroke];
    let label = seq![
        DrawOpView::SetFillStyle("#555"@),
        DrawOpView::SetFont("16px Verdana"@),
        DrawOpView::SetTextAlign("center"@),
        DrawOpView::FillText(b.text, a.cx as int, a.cy + LABEL_NUDGE),
    ];
    clear + shadow + face + border + label
}

/// What a render of the button draws: nothing when it is clean.
pub open spec fn button_render_ops(b: ButtonView) -> Seq<DrawOpView> {
    if b.dirty {
        button_face_ops(b)
    } else {
        seq![]
    }
}

/// Setting the hover flag to the same value twice changes nothing the
/// second time; in particular it does not mark the button for drawing.
pub proof fn lemma_set_hover_twice(b: ButtonView, state: bool)
    ensures
        b.with_hover(state).with_hover(state) == b.with_hover(state),
{
}

/// A second render of a button with no change in between draws nothing.
pub proof fn lemma_button_render_twice(b: ButtonView)
    ensures
        button_render_ops(b.rendered()) == Seq::<DrawOpView>::empty(),
        b.rendered().rendered() == b.rendered(),
{
    assert(button_render_ops(b.rendered()) =~= Seq::<DrawOpView>::empty());
}

impl Button {
    /// A button that is not hovered and waits to be drawn.
    pub fn new(button_type: ButtonType, area: Area, text: &str) -> (r: Button)
        ensures
            r@.area == area,
            r@.button_type == button_type,
            r@.text == text@,
            !r@.hover,
            r@.dirty,
    {
        Button { area, button_type, text: text.to_string(), hover: false, dirty: true }
    }

    pub fn text(&self) -> (r: &str)
        ensures
            r@ == self@.text,
    {
        self.text.as_str()
    }

    pub fn is_hovered(&self) -> (r: bool)
        ensures
            r == self@.hover,
    {
        self.hover
    }

    pub fn is_dirty(&self) -> (r: bool)
        ensures
            r == self@.dirty,
    {
        self.dirty
    }

    /// Sets the hover flag; marks the button for drawing only on a change.
    pub fn set_hover(&mut self, state: bool)
        ensures
            final(self)@ == old(self)@.with_hover(state),
    {
        if self.hover != state {
            self.hover = state;
            self.dirty = true;
        }
    }

    /// Whether `point` lies in the button's box.
    pub fn contains(&self, point: &Point) -> (r: bool)
        ensures
            r == self@.area.contains(*point),
    {
        self.area.in_bounds(point)
    }

    /// The action of this button.
    pub fn click(&self) -> (r: ButtonType)
        ensures
            r == self@.button_type,
    {
        self.button_type
    }

    /// Draws the button when its look has changed, and marks it clean.
    pub fn render(&mut self) -> (r: Vec<DrawOp>)
        ensures
            final(self)@ == old(self)@.rendered(),
            ops_view(r@) == button_render_ops(old(self)@),
    {
        let mut ops: Vec<DrawOp> = Vec::new();
        if !self.dirty {
            assert(ops_view(ops@) =~= seq![]);
            return ops;
        }
        let x = self.area.x1 as i64;
        let y = self.area.y1 as i64;
        let w = self.area.w as i64;
        let h = self.area.h as i64;
        push_op(&mut ops, DrawOp::SetFillStyle("#FFF".to_string()));
        push_op(&mut ops, DrawOp::FillRect(x - 1, y - 1, w + 5, h + 5));
        if self.hover {
            push_op(&mut ops, DrawOp::BeginPath);
            push_op(&mut ops, DrawOp::SetFillStyle("#DDD".to_string()));
            append_ops(
                &mut ops,
                rounded_rect(x + SHADOW_OFFSET, y + SHADOW_OFFSET, w, h, CORNER_RADIUS),
            );
            push_op(&mut ops, DrawOp::Fill);
        }
        push_op(&mut ops, DrawOp::BeginPath);
        push_op(&mut ops, DrawOp::SetFillStyle("#FFF".to_string()));
        append_ops(&mut ops, rounded_rect(x, y, w, h, CORNER_RADIUS));
        push_op(&mut ops, DrawOp::Fill);
        push_op(&mut ops, DrawOp::BeginPath);
        push_op(&mut ops, DrawOp::SetStrokeStyle("#555".to_string()));
        push_op(&mut ops, DrawOp::SetLineWidth(BORDER_WIDTH));
        append_ops(&mut ops, rounded_rect(x, y, w, h, CORNER_RADIUS));
        push_op(&mut ops, DrawOp::Stroke);
        push_op(&mut ops, DrawOp::SetFillStyle("#555".to_string()));
        push_op(&mut ops, DrawOp::SetFont("16px Verdana".to_string()));
        push_op(&mut ops, DrawOp::SetTextAlign("center".to_string()));
        push_op(
            &mut ops,
            DrawOp::FillText(self.text.clone(), self.area.cx as i64, self.area.cy as i64 + LABEL_NUDGE),
        );
        self.dirty = false;
        assert(ops_view(ops@) =~= button_face_ops(old(self)@));
        ops
    }
}

} // verus!
