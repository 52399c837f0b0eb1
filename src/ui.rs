use vstd::prelude::*;

use crate::buttons::{button_render_ops, Button, ButtonView};
use crate::draw::{append_ops, ops_view, DrawOp, DrawOpView};
use crate::types::{area_spec, Area, Point};

verus! {

/// The action that a click on the panel asks for.
#[derive(Clone, Copy, Debug, PartialEq, Eq, Structural)]
pub enum ButtonType {
    ToggleState,
    RandomizeState,
    NoAction,
}

pub const BUTTON_WIDTH: i32 = 100;

pub const BUTTON_HEIGHT: i32 = 32;

/// Space between the panel's vertical centerline and each button.
pub const BUTTON_GAP: i32 = 10;

/// The control panel: a region and the buttons laid out in it, in the order
/// in which they are hit-tested.
pub struct Interface {
    pub area: Area,
    buttons: Vec<Button>,
}

/// What an `Interface` holds.
pub struct InterfaceView {
    pub area: Area,
    pub buttons: Seq<ButtonView>,
}

impl View for Interface {
    type V = InterfaceView;

    closed spec fn view(&self) -> InterfaceView {
        InterfaceView { area: self.area, buttons: self.buttons@.map_values(|b: Button| b@) }
    }
}

/// The index of the first button from `i` on whose box holds `p`, or the
/// number of buttons where none does.
pub open spec fn first_hit_from(bs: Seq<ButtonView>, p: Point, i: nat) -> nat
    decreases bs.len() - i,
{
    if i >= bs.len() {
        bs.len()
    } else if bs[i as int].area.contains(p) {
        i
    } else {
        first_hit_from(bs, p, i + 1)
    }
}

/// The index of the first button whose box holds `p`, or the number of
/// buttons where none does.
pub open spec fn first_hit(bs: Seq<ButtonView>, p: Point) -> nat {
    first_hit_from(bs, p, 0)
}

/// The buttons after a pointer move to `p`: those before the first hit lose
/// their hover, the first hit gains it, and those after it are untouched.
pub open spec fn hovered_over(bs: Seq<ButtonView>, p: Point) -> Seq<ButtonView> {
    let k = first_hit(bs, p);
    Seq::new(
        bs.len(),
        |i: int|
            if i < k {
                bs[i].with_hover(false)
            } else if i == k {
                bs[i].with_hover(true)
            } else {
                bs[i]
            },
    )
}

impl InterfaceView {
    /// The panel after a pointer move to `p`; a point outside the panel
    /// changes nothing.
    pub open spec fn moved(self, p: Point) -> InterfaceView {
        if self.area.contains(p) {
            InterfaceView { buttons: hovered_over(self.buttons, p), ..self }
        } else {
            self
        }
    }

    /// The action of a click at `p`: that of the first button whose box
    /// holds it, or none where the point is outside the panel or no button
    /// holds it.
    pub open spec fn clicked(self, p: Point) -> ButtonType {
        let k = first_hit(self.buttons, p);
        if self.area.contains(p) && k < self.buttons.len() {
            self.buttons[k as int].button_type
        } else {
            ButtonType::NoAction
        }
    }

    /// The panel after a render: every button is clean.
    pub open spec fn rendered(self) -> InterfaceView {
        InterfaceView { buttons: self.buttons.map_values(|b: ButtonView| b.rendered()), ..self }
    }
}

/// What rendering the buttons draws: each button's drawing, in order.
pub open spec fn buttons_render_ops(bs: Seq<ButtonView>) -> Seq<DrawOpView>
    decreases bs.len(),
{
    if bs.len() == 0 {
        seq![]
    } else {
        buttons_render_ops(bs.drop_last()) + button_render_ops(bs.last())
    }
}

/// Whether the two buttons of the panel can be placed round the center of
/// `area` in the coordinate type.
pub open spec fn panel_fits(area: Area) -> bool {
    &&& area.cx - BUTTON_GAP - BUTTON_WIDTH >= i32::MIN
    &&& area.cx + BUTTON_GAP + BUTTON_WIDTH <= i32::MAX
    &&& area.cy - BUTTON_HEIGHT / 2 >= i32::MIN
    &&& area.cy + BUTTON_HEIGHT / 2 <= i32::MAX
}

/// Buttons that are all clean draw nothing.
pub proof fn lemma_clean_buttons_draw_nothing(bs: Seq<ButtonView>)
    requires
        forall|i: int| 0 <= i < bs.len() ==> !bs[i].dirty,
    ensures
        buttons_render_ops(bs) == Seq::<DrawOpView>::empty(),
    decreases bs.len(),
{
    if bs.len() > 0 {
        lemma_clean_buttons_draw_nothing(bs.drop_last());
        assert(buttons_render_ops(bs) =~= Seq::<DrawOpView>::empty());
    }
}

/// A second render of the panel with no change in between draws nothing
/// and changes nothing.
pub proof fn lemma_panel_render_twice(v: InterfaceView)
    ensures
        buttons_render_ops(v.rendered().buttons) == Seq::<DrawOpView>::empty(),
        v.rendered().rendered() == v.rendered(),
{
    lemma_clean_buttons_draw_nothing(v.rendered().buttons);
    assert(v.rendered().rendered().buttons =~= v.rendered().buttons);
}

impl Interface {
    /// The panel over `area` with a "Toggle" button just left of its center
    /// and a "Randomize" button just right of it, both 100 by 32 units,
    /// vertically centered, 10 units from the centerline; `None` where they
    /// cannot be placed in the coordinate type.
    pub fn new(area: Area) -> (r: Option<Interface>)
        ensures
            r is Some <==> panel_fits(area),
            r matches Some(ui) ==> {
                &&& ui@.area == area
                &&& ui@.buttons.len() == 2
                &&& ui@.buttons[0] == (ButtonView {
                    area: area_spec(area.cx - 110, area.cy - 16, 100, 32),
                    button_type: ButtonType::ToggleState,
                    text: "Toggle"@,
                    hover: false,
                    dirty: true,
                })
                &&& ui@.buttons[1] == (ButtonView {
                    area: area_spec(area.cx + 10, area.cy - 16, 100, 32),
                    button_type: ButtonType::RandomizeState,
                    text: "Randomize"@,
                    hover: false,
                    dirty: true,
                })
            },
    {
        if area.cx < i32::MIN + BUTTON_GAP + BUTTON_WIDTH || area.cx > i32::MAX - BUTTON_GAP
            - BUTTON_WIDTH || area.cy < i32::MIN + BUTTON_HEIGHT / 2 || area.cy > i32::MAX
            - BUTTON_HEIGHT / 2 {
            return None;
        }
        let center = area.center();
        let top = center.y - BUTTON_HEIGHT / 2;
        let left = center.x - BUTTON_GAP - BUTTON_WIDTH;
        let right = center.x + BUTTON_GAP;
        let toggle = Button::new(
            ButtonType::ToggleState,
            Area::new(left, top, BUTTON_WIDTH, BUTTON_HEIGHT),
            "Toggle",
        );
        let randomize = Button::new(
            ButtonType::RandomizeState,
            Area::new(right, top, BUTTON_WIDTH, BUTTON_HEIGHT),
            "Randomize",
        );
        let mut buttons: Vec<Button> = Vec::new();
        buttons.push(toggle);
        buttons.push(randomize);
        Some(Interface { area, buttons })
    }

    /// A panel over `area` with the given buttons, hit-tested in order.
    pub fn with_buttons(area: Area, buttons: Vec<Button>) -> (r: Interface)
        ensures
            r@.area == area,
            r@.buttons == buttons@.map_values(|b: Button| b@),
    {
        Interface { area, buttons }
    }

    pub fn buttons(&self) -> (r: &Vec<Button>)
        ensures
            r@.map_values(|b: Button| b@) == self@.buttons,
    {
        &self.buttons
    }

    /// Moves the hover to the first button under `point`: buttons scanned
    /// before it lose their hover, and the scan stops there. A point outside
    /// the panel changes nothing.
    pub fn mouse_move(&mut self, point: &Point)
        ensures
            final(self)@ == old(self)@.moved(*point),
    {
        if !self.area.in_bounds(point) {
            return;
        }
        let ghost bs = self@.buttons;
        let n = self.buttons.len();
        let mut i: usize = 0;
        while i < n
            invariant
                n == bs.len(),
                bs == old(self)@.buttons,
                self.area == old(self).area,
                self.area.contains(*point),
                self.buttons@.len() == n,
                i <= n,
                first_hit(bs, *point) == first_hit_from(bs, *point, i as nat),
                forall|j: int| 0 <= j < i ==> self.buttons@[j]@ == bs[j].with_hover(false),
                forall|j: int| i <= j < n ==> self.buttons@[j]@ == bs[j],
            decreases n - i,
        {
            if self.buttons[i].contains(point) {
                self.buttons[i].set_hover(true);
                assert(self@.buttons =~= hovered_over(bs, *point));
                return;
            }
            self.buttons[i].set_hover(false);
            i = i + 1;
        }
        assert(self@.buttons =~= hovered_over(bs, *point));
    }

    /// The action of the first button under `point`; `NoAction` where the
    /// point is outside the panel or under no button.
    pub fn mouse_click(&mut self, point: &Point) -> (r: ButtonType)
        ensures
            r == old(self)@.clicked(*point),
            final(self)@ == old(self)@,
    {
        if !self.area.in_bounds(point) {
            return ButtonType::NoAction;
        }
        let ghost bs = self@.buttons;
        let n = self.buttons.len();
        let mut i: usize = 0;
        while i < n
            invariant
                n == bs.len(),
                bs == self@.buttons,
                self.area.contains(*point),
                i <= n,
                first_hit(bs, *point) == first_hit_from(bs, *point, i as nat),
            decreases n - i,
        {
            if self.buttons[i].contains(point) {
                return self.buttons[i].click();
            }
            i = i + 1;
        }
        ButtonType::NoAction
    }

    /// Renders every button in order; each draws only when its look has
    /// changed.
    pub fn render(&mut self) -> (r: Vec<DrawOp>)
        ensures
            final(self)@ == old(self)@.rendered(),
            ops_view(r@) == buttons_render_ops(old(self)@.buttons),
    {
        let ghost bs = old(self)@.buttons;
        let n = self.buttons.len();
        let mut ops: Vec<DrawOp> = Vec::new();
        let mut i: usize = 0;
        while i < n
            invariant
                n == bs.len(),
                self.area == old(self).area,
                self.buttons@.len() == n,
                i <= n,
                forall|j: int| 0 <= j < i ==> self.buttons@[j]@ == bs[j].rendered(),
                forall|j: int| i <= j < n ==> self.buttons@[j]@ == bs[j],
                ops_view(ops@) == buttons_render_ops(bs.subrange(0, i as int)),
            decreases n - i,
        {
            let more = self.buttons[i].render();
            append_ops(&mut ops, more);
            proof {
                let next = bs.subrange(0, i + 1);
                assert(next.drop_last() =~= bs.subrange(0, i as int));
            }
            i = i + 1;
        }
        assert(bs.subrange(0, n as int) =~= bs);
        assert(self@.buttons =~= old(self)@.rendered().buttons);
        ops
    }
}

} // verus!
