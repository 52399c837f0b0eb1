use rusty_wassembly_game::draw::DrawOp;
use rusty_wassembly_game::game::{cell_from_bit, cells_from_bits, next_cell, Cell, Colours, Dimensions, State, World};
use rusty_wassembly_game::types::Area;

fn colours() -> Colours {
    Colours { grid: "#CCCCCC".to_string(), alive: "#555555".to_string(), dead: "#FFFFFF".to_string() }
}

fn grid(cols: u32, rows: u32, alive: &[usize]) -> World {
    let mut cells = vec![Cell::Dead; (cols * rows) as usize];
    for &i in alive {
        cells[i] = Cell::Alive;
    }
    let dims = Dimensions { cells_x: cols, cells_y: rows, cell_w: 16, cell_h: 16 };
    World::with_cells(Area::new(0, 0, 16 * cols as i32, 16 * rows as i32), dims, colours(), cells)
        .unwrap()
}

fn alive_indices(w: &World) -> Vec<usize> {
    w.cells().iter().enumerate().filter(|(_, c)| **c == Cell::Alive).map(|(i, _)| i).collect()
}

#[test]
fn rule_table() {
    assert_eq!(next_cell(Cell::Alive, 0), Cell::Dead);
    assert_eq!(next_cell(Cell::Alive, 1), Cell::Dead);
    assert_eq!(next_cell(Cell::Alive, 2), Cell::Alive);
    assert_eq!(next_cell(Cell::Alive, 3), Cell::Alive);
    assert_eq!(next_cell(Cell::Alive, 4), Cell::Dead);
    assert_eq!(next_cell(Cell::Alive, 8), Cell::Dead);
    assert_eq!(next_cell(Cell::Dead, 3), Cell::Alive);
    for n in [0u8, 1, 2, 4, 5, 6, 7, 8] {
        assert_eq!(next_cell(Cell::Dead, n), Cell::Dead);
    }
}

#[test]
fn corner_neighbours_wrap_round_on_three_by_three() {
    // Top-left corner with its wrapped neighbours (2,2), (0,2) and (2,0) alive:
    // three neighbours, so the dead corner comes alive.
    let mut w = grid(3, 3, &[8, 2, 6]);
    w.update_state();
    assert_eq!(w.cells()[0], Cell::Alive);
}

#[test]
fn full_three_by_three_has_eight_neighbours_everywhere() {
    let mut w = grid(3, 3, &[0, 1, 2, 3, 4, 5, 6, 7, 8]);
    w.update_state();
    assert!(w.cells().iter().all(|c| *c == Cell::Dead));
}

#[test]
fn blinker_turns_vertical_after_one_tick() {
    // Row 2 of a 5x5 grid: Dead, Alive, Alive, Alive, Dead.
    let mut w = grid(5, 5, &[11, 12, 13]);
    w.update_state();
    assert_eq!(alive_indices(&w), vec![7, 12, 17]);
    w.update_state();
    assert_eq!(alive_indices(&w), vec![11, 12, 13]);
}

#[test]
fn paused_world_does_not_advance() {
    let mut w = grid(5, 5, &[11, 12, 13]);
    let _ = w.render();
    w.toggle_state();
    assert_eq!(w.state(), State::Paused);
    w.update_state();
    assert_eq!(alive_indices(&w), vec![11, 12, 13]);
    assert!(!w.is_dirty());
    w.toggle_state();
    assert_eq!(w.state(), State::Running);
}

#[test]
fn update_marks_dirty() {
    let mut w = grid(4, 4, &[]);
    let _ = w.render();
    assert!(!w.is_dirty());
    w.update_state();
    assert!(w.is_dirty());
}

#[test]
fn new_world_is_forty_by_thirty_and_running() {
    let w = World::new(Area::new(0, 75, 640, 480));
    assert_eq!(w.cells().len(), 1200);
    assert_eq!(w.dimensions(), Dimensions { cells_x: 40, cells_y: 30, cell_w: 16, cell_h: 16 });
    assert_eq!(w.state(), State::Running);
    assert!(w.is_dirty());
}

#[test]
fn randomize_gives_both_kinds_of_cell() {
    let mut w = World::new(Area::new(0, 75, 640, 480));
    let _ = w.render();
    w.randomize_state();
    assert!(w.is_dirty());
    assert_eq!(w.cells().len(), 1200);
    assert!(w.cells().iter().any(|c| *c == Cell::Alive));
    assert!(w.cells().iter().any(|c| *c == Cell::Dead));
}

#[test]
fn with_cells_rejects_bad_grids() {
    let d = Dimensions { cells_x: 3, cells_y: 2, cell_w: 16, cell_h: 16 };
    let a = Area::new(0, 0, 48, 32);
    assert!(World::with_cells(a, d, colours(), vec![Cell::Dead; 5]).is_none());
    assert!(World::with_cells(a, d, colours(), vec![Cell::Dead; 6]).is_some());
    let empty = Dimensions { cells_x: 0, cells_y: 2, cell_w: 16, cell_h: 16 };
    assert!(World::with_cells(a, empty, colours(), vec![]).is_none());
    let huge = Dimensions { cells_x: 2, cells_y: 1, cell_w: u32::MAX, cell_h: 16 };
    assert!(World::with_cells(a, huge, colours(), vec![Cell::Dead; 2]).is_none());
}

#[test]
fn render_draws_once() {
    let mut w = grid(2, 1, &[1]);
    let first = w.render();
    let expected = vec![
        DrawOp::BeginPath,
        DrawOp::SetStrokeStyle("#CCCCCC".to_string()),
        DrawOp::MoveTo(0, 0),
        DrawOp::LineTo(0, 16),
        DrawOp::MoveTo(16, 0),
        DrawOp::LineTo(16, 16),
        DrawOp::MoveTo(32, 0),
        DrawOp::LineTo(32, 16),
        DrawOp::MoveTo(0, 0),
        DrawOp::LineTo(32, 0),
        DrawOp::MoveTo(0, 16),
        DrawOp::LineTo(32, 16),
        DrawOp::Stroke,
        DrawOp::SetFillStyle("#555555".to_string()),
        DrawOp::FillRect(17, 1, 14, 14),
        DrawOp::SetFillStyle("#FFFFFF".to_string()),
        DrawOp::FillRect(1, 1, 14, 14),
    ];
    assert_eq!(format!("{:?}", first), format!("{:?}", expected));
    assert!(!w.is_dirty());
    assert!(w.render().is_empty());
}

#[test]
fn cells_are_offset_by_region_origin() {
    let d = Dimensions { cells_x: 2, cells_y: 2, cell_w: 10, cell_h: 8 };
    let w = World::with_cells(Area::new(5, 75, 20, 16), d, colours(), vec![Cell::Dead, Cell::Dead, Cell::Dead, Cell::Alive])
        .unwrap();
    let cells = w.draw_cells();
    let expected = vec![
        DrawOp::SetFillStyle("#555555".to_string()),
        DrawOp::FillRect(16, 84, 8, 6),
        DrawOp::SetFillStyle("#FFFFFF".to_string()),
        DrawOp::FillRect(6, 76, 8, 6),
        DrawOp::FillRect(16, 76, 8, 6),
        DrawOp::FillRect(6, 84, 8, 6),
    ];
    assert_eq!(format!("{:?}", cells), format!("{:?}", expected));
}

#[test]
fn coin_flips_map_to_cells() {
    assert_eq!(cell_from_bit(true), Cell::Alive);
    assert_eq!(cell_from_bit(false), Cell::Dead);
    assert_eq!(cells_from_bits(&vec![true, false, false, true]), vec![Cell::Alive, Cell::Dead, Cell::Dead, Cell::Alive]);
    assert!(cells_from_bits(&vec![]).is_empty());
}

#[test]
fn reseed_sets_cells_from_flips() {
    let mut w = grid(2, 2, &[0]);
    let _ = w.render();
    assert!(!w.reseed(&vec![true, true, false]));
    assert_eq!(alive_indices(&w), vec![0]);
    assert!(!w.is_dirty());
    assert!(w.reseed(&vec![false, true, true, false]));
    assert_eq!(alive_indices(&w), vec![1, 2]);
    assert!(w.is_dirty());
}
