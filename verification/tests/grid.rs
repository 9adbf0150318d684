use game_of_life::grid::{Cell, Grid, Message, PointerEvent, Region, Status, CELL_COUNT, SIZE};

fn count_populated(g: &Grid) -> usize {
    let mut n = 0;
    for i in 0..SIZE {
        for j in 0..SIZE {
            if g.populated_at(i, j) {
                n += 1;
            }
        }
    }
    n
}

fn populate(g: &mut Grid, i: usize, j: usize) {
    g.update(Message::Populate { i, j });
}

#[test]
fn fresh_grid_is_blank() {
    let g = Grid::new();
    assert_eq!(count_populated(&g), 0);
    assert!(g.dirty());
}

#[test]
fn blank_grid_stays_blank() {
    let mut g = Grid::new();
    g.tick();
    assert_eq!(count_populated(&g), 0);
}

#[test]
fn populate_is_idempotent() {
    let mut g = Grid::new();
    populate(&mut g, 3, 4);
    assert!(g.populated_at(3, 4));
    populate(&mut g, 3, 4);
    assert!(g.populated_at(3, 4));
    assert_eq!(count_populated(&g), 1);
}

#[test]
fn single_cell_starves() {
    let mut g = Grid::new();
    populate(&mut g, 5, 5);
    assert_eq!(g.populated_neighbors(5, 5), 0);
    g.tick();
    assert!(!g.populated_at(5, 5));
    assert_eq!(count_populated(&g), 0);
}

#[test]
fn survival_on_two_or_three_neighbors() {
    let mut g = Grid::new();
    populate(&mut g, 10, 10);
    populate(&mut g, 10, 11);
    populate(&mut g, 10, 12);
    assert_eq!(g.populated_neighbors(10, 11), 2);
    g.tick();
    assert!(g.populated_at(10, 11));
}

#[test]
fn death_on_four_neighbors() {
    let mut g = Grid::new();
    populate(&mut g, 10, 10);
    populate(&mut g, 9, 10);
    populate(&mut g, 11, 10);
    populate(&mut g, 10, 9);
    populate(&mut g, 10, 11);
    assert_eq!(g.populated_neighbors(10, 10), 4);
    g.tick();
    assert!(!g.populated_at(10, 10));
}

#[test]
fn birth_on_exactly_three_neighbors() {
    let mut g = Grid::new();
    populate(&mut g, 4, 5);
    populate(&mut g, 5, 5);
    populate(&mut g, 6, 5);
    assert_eq!(g.populated_neighbors(5, 4), 3);
    assert_eq!(g.populated_neighbors(5, 6), 3);
    assert_eq!(g.populated_neighbors(4, 4), 2);
    g.tick();
    assert!(g.populated_at(5, 4));
    assert!(g.populated_at(5, 6));
    assert!(!g.populated_at(4, 4));
}

#[test]
fn blinker_oscillates() {
    let mut g = Grid::new();
    populate(&mut g, 4, 5);
    populate(&mut g, 5, 5);
    populate(&mut g, 6, 5);
    g.tick();
    assert!(g.populated_at(5, 4));
    assert!(g.populated_at(5, 5));
    assert!(g.populated_at(5, 6));
    assert_eq!(count_populated(&g), 3);
    g.tick();
    assert!(g.populated_at(4, 5));
    assert!(g.populated_at(5, 5));
    assert!(g.populated_at(6, 5));
    assert_eq!(count_populated(&g), 3);
}

#[test]
fn block_is_stable_for_ten_generations() {
    let mut g = Grid::new();
    populate(&mut g, 10, 10);
    populate(&mut g, 10, 11);
    populate(&mut g, 11, 10);
    populate(&mut g, 11, 11);
    for _ in 0..10 {
        g.tick();
        assert!(g.populated_at(10, 10));
        assert!(g.populated_at(10, 11));
        assert!(g.populated_at(11, 10));
        assert!(g.populated_at(11, 11));
        assert_eq!(count_populated(&g), 4);
    }
}

#[test]
fn corner_neighbor_count_caps_at_three() {
    let mut g = Grid::new();
    populate(&mut g, 0, 1);
    populate(&mut g, 1, 0);
    populate(&mut g, 1, 1);
    assert_eq!(g.populated_neighbors(0, 0), 3);
    let last = SIZE - 1;
    populate(&mut g, last, last - 1);
    populate(&mut g, last - 1, last);
    populate(&mut g, last - 1, last - 1);
    assert_eq!(g.populated_neighbors(last, last), 3);
}

#[test]
fn edge_neighbor_count_caps_at_five() {
    let mut g = Grid::new();
    populate(&mut g, 0, 4);
    populate(&mut g, 0, 6);
    populate(&mut g, 1, 4);
    populate(&mut g, 1, 5);
    populate(&mut g, 1, 6);
    assert_eq!(g.populated_neighbors(0, 5), 5);
}

#[test]
fn clearing_matches_a_fresh_grid() {
    let mut g = Grid::new();
    populate(&mut g, 0, 0);
    populate(&mut g, 17, 23);
    populate(&mut g, 31, 31);
    g.tick();
    g.clear();
    let fresh = Grid::new();
    for i in 0..SIZE {
        for j in 0..SIZE {
            assert_eq!(g.populated_at(i, j), fresh.populated_at(i, j));
        }
    }
    assert!(g.dirty());
}

#[test]
fn region_is_largest_centered_square() {
    let g = Grid::new();
    assert_eq!(g.region(640, 480), Region { x: 80, y: 0, side: 480 });
    assert_eq!(g.region(480, 640), Region { x: 0, y: 80, side: 480 });
    assert_eq!(g.region(320, 320), Region { x: 0, y: 0, side: 320 });
}

#[test]
fn cell_at_maps_positions_inside_the_region() {
    let g = Grid::new();
    let r = Region { x: 0, y: 0, side: 320 };
    assert_eq!(g.cell_at(r, 0, 0), Some((0, 0)));
    assert_eq!(g.cell_at(r, 5, 5), Some((0, 0)));
    assert_eq!(g.cell_at(r, 15, 5), Some((0, 1)));
    assert_eq!(g.cell_at(r, 5, 15), Some((1, 0)));
    assert_eq!(g.cell_at(r, 319, 319), Some((31, 31)));
    assert_eq!(g.cell_at(r, 320, 5), None);
    assert_eq!(g.cell_at(r, 5, 320), None);
    let shifted = Region { x: 80, y: 0, side: 480 };
    assert_eq!(g.cell_at(shifted, 5, 5), None);
    assert_eq!(g.cell_at(shifted, 85, 5), Some((0, 0)));
}

#[test]
fn drag_activates_each_visited_cell_once() {
    let mut g = Grid::new();
    let moves = [
        (PointerEvent::LeftPressed, (5u32, 5u32)),
        (PointerEvent::CursorMoved, (8, 5)),
        (PointerEvent::CursorMoved, (15, 5)),
        (PointerEvent::CursorMoved, (25, 5)),
        (PointerEvent::CursorMoved, (28, 5)),
        (PointerEvent::CursorMoved, (35, 5)),
    ];
    for (event, pos) in moves.iter() {
        let (status, intent) = g.handle_pointer(*event, 320, 320, Some(*pos));
        assert_eq!(status, Status::Captured);
        if let Some(m) = intent {
            g.update(m);
        }
    }
    let (status, intent) = g.handle_pointer(PointerEvent::LeftReleased, 320, 320, Some((35, 5)));
    assert_eq!(status, Status::Ignored);
    assert_eq!(intent, None);
    let (status, intent) = g.handle_pointer(PointerEvent::CursorMoved, 320, 320, Some((45, 5)));
    assert_eq!(status, Status::Ignored);
    assert_eq!(intent, None);
    for j in 0..4 {
        assert!(g.populated_at(0, j));
    }
    assert_eq!(count_populated(&g), 4);
}

#[test]
fn revisited_cell_emits_no_second_intent() {
    let mut g = Grid::new();
    let (_, intent) = g.handle_pointer(PointerEvent::LeftPressed, 320, 320, Some((5, 5)));
    assert_eq!(intent, Some(Message::Populate { i: 0, j: 0 }));
    g.update(intent.unwrap());
    let (status, intent) = g.handle_pointer(PointerEvent::CursorMoved, 320, 320, Some((7, 5)));
    assert_eq!(status, Status::Captured);
    assert_eq!(intent, None);
}

#[test]
fn move_without_drag_is_ignored() {
    let mut g = Grid::new();
    let (status, intent) = g.handle_pointer(PointerEvent::CursorMoved, 320, 320, Some((5, 5)));
    assert_eq!(status, Status::Ignored);
    assert_eq!(intent, None);
    assert!(!g.populated_at(0, 0));
}

#[test]
fn cursor_outside_viewport_is_ignored() {
    let mut g = Grid::new();
    let (status, intent) = g.handle_pointer(PointerEvent::LeftPressed, 320, 320, None);
    assert_eq!(status, Status::Ignored);
    assert_eq!(intent, None);
    let (status, intent) = g.handle_pointer(PointerEvent::CursorMoved, 640, 480, Some((5, 5)));
    assert_eq!(status, Status::Ignored);
    assert_eq!(intent, None);
}

#[test]
fn default_cell_is_unpopulated() {
    assert_eq!(Cell::default(), Cell::Unpopulated);
}

#[test]
fn default_grid_is_blank() {
    let g = Grid::default();
    assert_eq!(count_populated(&g), 0);
    assert!(g.dirty());
}

#[test]
fn pattern_decisions_map_one_to_one() {
    let mut pattern = vec![false; CELL_COUNT];
    pattern[0] = true;
    pattern[SIZE + 1] = true;
    pattern[CELL_COUNT - 1] = true;
    let g = Grid::from_pattern(&pattern);
    assert!(g.populated_at(0, 0));
    assert!(g.populated_at(1, 1));
    assert!(g.populated_at(SIZE - 1, SIZE - 1));
    assert_eq!(count_populated(&g), 3);
    assert!(g.dirty());
}

#[test]
fn dragging_flag_follows_press_and_release() {
    let mut g = Grid::new();
    assert!(!g.is_dragging());
    g.handle_pointer(PointerEvent::LeftPressed, 320, 320, Some((5, 5)));
    assert!(g.is_dragging());
    g.handle_pointer(PointerEvent::CursorMoved, 320, 320, Some((15, 5)));
    assert!(g.is_dragging());
    g.handle_pointer(PointerEvent::LeftReleased, 320, 320, Some((15, 5)));
    assert!(!g.is_dragging());
}

#[test]
fn hovered_cell_follows_the_cursor() {
    let g = Grid::new();
    assert_eq!(g.hovered_cell(320, 320, Some((15, 25))), Some((2, 1)));
    assert_eq!(g.hovered_cell(320, 320, None), None);
    assert_eq!(g.hovered_cell(640, 480, Some((5, 5))), None);
    assert_eq!(g.hovered_cell(640, 480, Some((85, 5))), Some((0, 0)));
}
