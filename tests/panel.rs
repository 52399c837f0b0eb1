use rusty_wassembly_game::buttons::Button;
use rusty_wassembly_game::draw::DrawOp;
use rusty_wassembly_game::types::{Area, Point};
use rusty_wassembly_game::ui::{ButtonType, Interface};

fn panel() -> Interface {
    Interface::new(Area::new(0, 0, 640, 75)).unwrap()
}

fn hovers(ui: &Interface) -> Vec<bool> {
    ui.buttons().iter().map(|b| b.is_hovered()).collect()
}

#[test]
fn panel_lays_out_two_buttons_round_center() {
    let ui = panel();
    let b = ui.buttons();
    assert_eq!(b.len(), 2);
    assert_eq!(b[0].text(), "Toggle");
    assert_eq!(b[0].button_type, ButtonType::ToggleState);
    assert_eq!(b[0].area, Area::new(210, 21, 100, 32));
    assert_eq!(b[1].text(), "Randomize");
    assert_eq!(b[1].button_type, ButtonType::RandomizeState);
    assert_eq!(b[1].area, Area::new(330, 21, 100, 32));
    assert!(b.iter().all(|x| x.is_dirty() && !x.is_hovered()));
}

#[test]
fn panel_too_close_to_edge_is_refused() {
    assert!(Interface::new(Area::new(i32::MAX - 100, 0, 100, 75)).is_none());
    assert!(Interface::new(Area::new(0, i32::MAX - 10, 0, 10)).is_none());
}

#[test]
fn click_routing() {
    let mut ui = panel();
    assert_eq!(ui.mouse_click(&Point::new(250, 37)), ButtonType::ToggleState);
    assert_eq!(ui.mouse_click(&Point::new(400, 37)), ButtonType::RandomizeState);
    assert_eq!(ui.mouse_click(&Point::new(320, 37)), ButtonType::NoAction);
    assert_eq!(ui.mouse_click(&Point::new(20, 5)), ButtonType::NoAction);
    assert_eq!(ui.mouse_click(&Point::new(250, 200)), ButtonType::NoAction);
}

#[test]
fn click_does_not_change_hover() {
    let mut ui = panel();
    ui.mouse_click(&Point::new(250, 37));
    assert_eq!(hovers(&ui), vec![false, false]);
}

#[test]
fn mouse_move_hovers_button_under_pointer() {
    let mut ui = panel();
    ui.mouse_move(&Point::new(250, 37));
    assert_eq!(hovers(&ui), vec![true, false]);
    ui.mouse_move(&Point::new(400, 37));
    assert_eq!(hovers(&ui), vec![false, true]);
    ui.mouse_move(&Point::new(320, 37));
    assert_eq!(hovers(&ui), vec![false, false]);
}

#[test]
fn mouse_move_outside_panel_keeps_hover() {
    let mut ui = panel();
    ui.mouse_move(&Point::new(250, 37));
    ui.mouse_move(&Point::new(250, 300));
    assert_eq!(hovers(&ui), vec![true, false]);
}

#[test]
fn mouse_move_leaves_later_buttons_untouched() {
    let mut ui = panel();
    ui.mouse_move(&Point::new(400, 37));
    ui.mouse_move(&Point::new(250, 37));
    // The scan stops at the first button; the second keeps its stale hover.
    assert_eq!(hovers(&ui), vec![true, true]);
}

#[test]
fn overlapping_buttons_hover_first_match_only() {
    let a = Button::new(ButtonType::ToggleState, Area::new(0, 0, 50, 50), "A");
    let b = Button::new(ButtonType::RandomizeState, Area::new(10, 10, 50, 50), "B");
    let mut ui = Interface::with_buttons(Area::new(0, 0, 100, 100), vec![a, b]);
    ui.mouse_move(&Point::new(20, 20));
    assert_eq!(hovers(&ui), vec![true, false]);
    assert_eq!(ui.mouse_click(&Point::new(20, 20)), ButtonType::ToggleState);
    assert_eq!(ui.mouse_click(&Point::new(55, 55)), ButtonType::RandomizeState);
}

#[test]
fn set_hover_marks_dirty_only_on_change() {
    let mut b = Button::new(ButtonType::ToggleState, Area::new(0, 0, 100, 32), "Toggle");
    assert_eq!(b.click(), ButtonType::ToggleState);
    let _ = b.render();
    assert!(!b.is_dirty());
    b.set_hover(false);
    assert!(!b.is_dirty());
    b.set_hover(true);
    assert!(b.is_dirty());
    let _ = b.render();
    b.set_hover(true);
    assert!(!b.is_dirty());
    assert!(b.is_hovered());
}

#[test]
fn button_render_draws_once() {
    let mut b = Button::new(ButtonType::ToggleState, Area::new(10, 20, 100, 32), "Toggle");
    let ops = b.render();
    assert_eq!(ops.len(), 2 + 3 + 9 + 4 + 9 + 4);
    assert_eq!(format!("{:?}", ops[1]), format!("{:?}", DrawOp::FillRect(9, 19, 105, 37)));
    assert_eq!(
        format!("{:?}", ops[ops.len() - 1]),
        format!("{:?}", DrawOp::FillText("Toggle".to_string(), 60, 40))
    );
    assert!(b.render().is_empty());
}

#[test]
fn hovered_button_draws_shadow() {
    let mut b = Button::new(ButtonType::ToggleState, Area::new(10, 20, 100, 32), "Toggle");
    b.set_hover(true);
    let ops = b.render();
    assert_eq!(ops.len(), 2 + 3 + 9 + 3 + 9 + 4 + 9 + 4);
    assert_eq!(format!("{:?}", ops[3]), format!("{:?}", DrawOp::SetFillStyle("#DDD".to_string())));
    assert_eq!(format!("{:?}", ops[4]), format!("{:?}", DrawOp::MoveTo(14, 29)));
}

#[test]
fn panel_render_draws_each_button_once() {
    let mut ui = panel();
    let first = ui.render();
    assert_eq!(first.len(), 2 * (2 + 3 + 9 + 4 + 9 + 4));
    assert!(ui.render().is_empty());
    ui.mouse_move(&Point::new(400, 37));
    let third = ui.render();
    assert_eq!(third.len(), 2 + 3 + 9 + 3 + 9 + 4 + 9 + 4);
}
