use dungeon::carve::{replay, GenError};
use dungeon::cell::{Cell, Mode};
use dungeon::dir::Dir;
use dungeon::grid::Grid;
use dungeon::pos::Pos;
use dungeon::visit::{visit, Draws, WorkItem};

fn draws(order: [Dir; 4], door: bool, turn: bool, side: bool) -> Draws {
    Draws { start: Pos::new(0, 0), order, door, turn, side }
}

fn plain() -> Draws {
    draws([Dir::Down, Dir::Up, Dir::Right, Dir::Left], false, false, false)
}

fn item(row: i32, col: i32, dir: Dir, mode: Mode) -> WorkItem {
    WorkItem { from: Pos::new(row, col), dir, mode }
}

fn count(grid: &Grid, kind: Cell) -> usize {
    let mut n = 0;
    for row in 0..19 {
        for col in 0..77 {
            if grid.get(row, col) == kind {
                n += 1;
            }
        }
    }
    n
}

#[test]
fn start_item_searches_from_where_it_stands() {
    let w = WorkItem::start(Pos::new(4, 9));
    assert_eq!(w, item(4, 9, Dir::Here, Mode::Searching));
}

#[test]
fn visit_off_the_grid_does_nothing() {
    let mut grid = Grid::new();
    let mut stack = Vec::new();
    for w in [
        item(0, 5, Dir::Up, Mode::Filling),
        item(18, 5, Dir::Down, Mode::Filling),
        item(5, 0, Dir::Left, Mode::Filling),
        item(5, 76, Dir::Right, Mode::Filling),
        item(i32::MAX, i32::MAX, Dir::Down, Mode::Filling),
        item(i32::MIN, i32::MIN, Dir::Left, Mode::Searching),
    ] {
        assert!(!visit(&mut grid, &mut stack, w, &plain()));
    }
    assert!(stack.is_empty());
    assert_eq!(count(&grid, Cell::Empty), 19 * 77);
}

#[test]
fn searching_leaves_floor_unswept_and_spreads_in_the_drawn_order() {
    let mut grid = Grid::new();
    grid.set(5, 5, Cell::Interior);
    let mut stack = vec![item(1, 1, Dir::Here, Mode::Searching)];
    let d = draws([Dir::Left, Dir::Down, Dir::Right, Dir::Up], true, true, true);
    assert!(!visit(&mut grid, &mut stack, item(5, 5, Dir::Here, Mode::Searching), &d));
    assert_eq!(grid.get(5, 5), Cell::Interior);
    assert_eq!(
        stack,
        vec![
            item(1, 1, Dir::Here, Mode::Searching),
            item(5, 5, Dir::Up, Mode::Searching),
            item(5, 5, Dir::Right, Mode::Searching),
            item(5, 5, Dir::Down, Mode::Searching),
            item(5, 5, Dir::Left, Mode::Searching),
        ]
    );
}

#[test]
fn filling_sweeps_floor_and_spreads() {
    let mut grid = Grid::new();
    grid.set(5, 5, Cell::Interior);
    let mut stack = Vec::new();
    let d = draws([Dir::Up, Dir::Right, Dir::Left, Dir::Down], false, false, false);
    assert!(!visit(&mut grid, &mut stack, item(5, 4, Dir::Right, Mode::Filling), &d));
    assert_eq!(grid.get(5, 5), Cell::InteriorFilled);
    assert_eq!(stack.pop(), Some(item(5, 5, Dir::Up, Mode::Filling)));
    assert_eq!(stack.pop(), Some(item(5, 5, Dir::Right, Mode::Filling)));
    assert_eq!(stack.pop(), Some(item(5, 5, Dir::Left, Mode::Filling)));
    assert_eq!(stack.pop(), Some(item(5, 5, Dir::Down, Mode::Filling)));
    assert_eq!(stack.pop(), None);
}

#[test]
fn swept_floor_doors_and_corridors_end_a_fill() {
    for kind in [Cell::InteriorFilled, Cell::Door, Cell::Corridor] {
        let mut grid = Grid::new();
        grid.set(5, 5, kind);
        grid.set(5, 4, Cell::Interior);
        let mut stack = Vec::new();
        let d = draws([Dir::Up, Dir::Right, Dir::Left, Dir::Down], true, true, true);
        assert!(!visit(&mut grid, &mut stack, item(5, 4, Dir::Right, Mode::Filling), &d));
        assert_eq!(grid.get(5, 5), kind);
        assert!(stack.is_empty());
    }
}

#[test]
fn wall_reached_from_floor_opens_when_drawn_and_fitting() {
    let mut grid = Grid::new();
    grid.set(5, 5, Cell::Interior);
    grid.set(5, 6, Cell::Wall);
    let mut stack = Vec::new();
    let d = draws([Dir::Up, Dir::Right, Dir::Left, Dir::Down], true, false, false);
    assert!(!visit(&mut grid, &mut stack, item(5, 5, Dir::Right, Mode::Searching), &d));
    assert_eq!(grid.get(5, 6), Cell::Door);
    assert_eq!(
        stack,
        vec![
            item(5, 6, Dir::Left, Mode::Filling),
            item(5, 6, Dir::Right, Mode::Filling),
            item(5, 6, Dir::Up, Mode::Filling),
            item(5, 6, Dir::Down, Mode::Filling),
        ]
    );
}

#[test]
fn wall_stays_when_the_draw_says_no() {
    let mut grid = Grid::new();
    grid.set(5, 5, Cell::Interior);
    grid.set(5, 6, Cell::Wall);
    let mut stack = Vec::new();
    let d = draws([Dir::Up, Dir::Right, Dir::Left, Dir::Down], false, true, true);
    assert!(!visit(&mut grid, &mut stack, item(5, 5, Dir::Right, Mode::Searching), &d));
    assert_eq!(grid.get(5, 6), Cell::Wall);
    assert!(stack.is_empty());
}

#[test]
fn wall_without_open_space_beside_it_stays() {
    let mut grid = Grid::new();
    grid.set(5, 5, Cell::Interior);
    grid.set(5, 6, Cell::Wall);
    grid.set(4, 6, Cell::Wall);
    grid.set(6, 6, Cell::Wall);
    grid.set(5, 7, Cell::Wall);
    let mut stack = Vec::new();
    let d = draws([Dir::Up, Dir::Right, Dir::Left, Dir::Down], true, false, false);
    assert!(!visit(&mut grid, &mut stack, item(5, 5, Dir::Right, Mode::Searching), &d));
    assert_eq!(grid.get(5, 6), Cell::Wall);
    assert!(stack.is_empty());
}

#[test]
fn wall_on_the_edge_counts_only_neighbours_on_the_grid() {
    let mut grid = Grid::new();
    grid.set(0, 5, Cell::Wall);
    grid.set(1, 5, Cell::Interior);
    grid.set(0, 4, Cell::Wall);
    grid.set(0, 6, Cell::Wall);
    let mut stack = Vec::new();
    let d = draws([Dir::Up, Dir::Right, Dir::Left, Dir::Down], true, false, false);
    assert!(!visit(&mut grid, &mut stack, item(1, 5, Dir::Up, Mode::Searching), &d));
    assert_eq!(grid.get(0, 5), Cell::Wall);
    assert!(stack.is_empty());
}

#[test]
fn wall_reached_from_swept_floor_stays() {
    let mut grid = Grid::new();
    grid.set(5, 5, Cell::InteriorFilled);
    grid.set(5, 6, Cell::Wall);
    let mut stack = Vec::new();
    let d = draws([Dir::Up, Dir::Right, Dir::Left, Dir::Down], true, false, false);
    assert!(!visit(&mut grid, &mut stack, item(5, 5, Dir::Right, Mode::Filling), &d));
    assert_eq!(grid.get(5, 6), Cell::Wall);
    assert!(stack.is_empty());
}

#[test]
fn wall_reached_from_a_corridor_becomes_a_door_and_ends_the_fill() {
    let mut grid = Grid::new();
    grid.set(5, 5, Cell::Corridor);
    grid.set(5, 6, Cell::Wall);
    grid.set(4, 6, Cell::Wall);
    grid.set(6, 6, Cell::Wall);
    grid.set(5, 7, Cell::Wall);
    let mut stack = Vec::new();
    assert!(!visit(&mut grid, &mut stack, item(5, 5, Dir::Right, Mode::Filling), &plain()));
    assert_eq!(grid.get(5, 6), Cell::Door);
    assert!(stack.is_empty());
}

#[test]
fn wall_at_the_start_of_a_fill_stays() {
    let mut grid = Grid::new();
    grid.set(5, 6, Cell::Wall);
    grid.set(5, 5, Cell::Interior);
    let mut stack = Vec::new();
    let d = draws([Dir::Up, Dir::Right, Dir::Left, Dir::Down], true, true, true);
    assert!(!visit(&mut grid, &mut stack, WorkItem::start(Pos::new(5, 6)), &d));
    assert_eq!(grid.get(5, 6), Cell::Wall);
    assert!(stack.is_empty());
}

#[test]
fn searching_never_touches_open_space() {
    let mut grid = Grid::new();
    let mut stack = Vec::new();
    let d = draws([Dir::Up, Dir::Right, Dir::Left, Dir::Down], true, true, true);
    assert!(!visit(&mut grid, &mut stack, item(5, 5, Dir::Right, Mode::Searching), &d));
    assert_eq!(grid.get(5, 6), Cell::Empty);
    assert!(stack.is_empty());
}

#[test]
fn corridor_goes_straight_through_open_space() {
    let mut grid = Grid::new();
    let mut stack = Vec::new();
    let d = draws([Dir::Up, Dir::Right, Dir::Left, Dir::Down], true, false, true);
    assert!(!visit(&mut grid, &mut stack, item(5, 5, Dir::Right, Mode::Filling), &d));
    assert_eq!(grid.get(5, 6), Cell::Corridor);
    assert_eq!(stack, vec![item(5, 6, Dir::Right, Mode::Filling)]);
}

#[test]
fn corridor_goes_straight_into_a_corridor_ahead() {
    let mut grid = Grid::new();
    grid.set(7, 5, Cell::Corridor);
    let mut stack = Vec::new();
    assert!(!visit(&mut grid, &mut stack, item(5, 5, Dir::Down, Mode::Filling), &plain()));
    assert_eq!(grid.get(6, 5), Cell::Corridor);
    assert_eq!(stack, vec![item(6, 5, Dir::Down, Mode::Filling)]);
}

#[test]
fn corridor_turns_to_the_drawn_side() {
    let cases = [
        (Dir::Right, true, Dir::Down),
        (Dir::Right, false, Dir::Up),
        (Dir::Left, true, Dir::Down),
        (Dir::Left, false, Dir::Up),
        (Dir::Down, true, Dir::Right),
        (Dir::Down, false, Dir::Left),
        (Dir::Up, true, Dir::Right),
        (Dir::Up, false, Dir::Left),
    ];
    for (dir, side, want) in cases {
        let mut grid = Grid::new();
        let mut stack = Vec::new();
        let d = draws([Dir::Up, Dir::Right, Dir::Left, Dir::Down], false, true, side);
        let w = match dir {
            Dir::Right => item(9, 39, dir, Mode::Filling),
            Dir::Left => item(9, 41, dir, Mode::Filling),
            Dir::Down => item(8, 40, dir, Mode::Filling),
            _ => item(10, 40, dir, Mode::Filling),
        };
        assert!(!visit(&mut grid, &mut stack, w, &d));
        assert_eq!(grid.get(9, 40), Cell::Corridor);
        assert_eq!(stack, vec![item(9, 40, want, Mode::Filling)]);
    }
}

#[test]
fn turn_that_would_leave_the_grid_goes_the_other_way() {
    let cases = [
        (item(18, 39, Dir::Right, Mode::Filling), true, item(18, 40, Dir::Up, Mode::Filling)),
        (item(0, 39, Dir::Right, Mode::Filling), false, item(0, 40, Dir::Down, Mode::Filling)),
        (item(8, 76, Dir::Down, Mode::Filling), true, item(9, 76, Dir::Left, Mode::Filling)),
        (item(8, 0, Dir::Down, Mode::Filling), false, item(9, 0, Dir::Right, Mode::Filling)),
    ];
    for (w, side, want) in cases {
        let mut grid = Grid::new();
        let mut stack = Vec::new();
        let d = draws([Dir::Up, Dir::Right, Dir::Left, Dir::Down], false, true, side);
        assert!(!visit(&mut grid, &mut stack, w, &d));
        assert_eq!(stack, vec![want]);
    }
}

#[test]
fn corridor_may_turn_into_the_top_row() {
    let mut grid = Grid::new();
    let mut stack = Vec::new();
    let d = draws([Dir::Up, Dir::Right, Dir::Left, Dir::Down], false, true, false);
    assert!(!visit(&mut grid, &mut stack, item(1, 39, Dir::Right, Mode::Filling), &d));
    assert_eq!(stack, vec![item(1, 40, Dir::Up, Mode::Filling)]);
}

#[test]
fn corridor_at_the_edge_turns_without_asking() {
    let mut grid = Grid::new();
    let mut stack = Vec::new();
    let d = draws([Dir::Up, Dir::Right, Dir::Left, Dir::Down], false, false, true);
    assert!(!visit(&mut grid, &mut stack, item(5, 75, Dir::Right, Mode::Filling), &d));
    assert_eq!(grid.get(5, 76), Cell::Corridor);
    assert_eq!(stack, vec![item(5, 76, Dir::Down, Mode::Filling)]);
    let mut stack = Vec::new();
    let d = draws([Dir::Up, Dir::Right, Dir::Left, Dir::Down], false, false, false);
    assert!(!visit(&mut grid, &mut stack, item(1, 3, Dir::Up, Mode::Filling), &d));
    assert_eq!(grid.get(0, 3), Cell::Corridor);
    assert_eq!(stack, vec![item(0, 3, Dir::Left, Mode::Filling)]);
}

#[test]
fn corridor_runs_on_into_a_wall_ahead_whatever_the_draws() {
    let mut grid = Grid::new();
    grid.set(5, 7, Cell::Wall);
    let mut stack = Vec::new();
    let d = draws([Dir::Up, Dir::Right, Dir::Left, Dir::Down], true, true, true);
    assert!(!visit(&mut grid, &mut stack, item(5, 5, Dir::Right, Mode::Filling), &d));
    assert_eq!(grid.get(5, 6), Cell::Corridor);
    assert_eq!(stack, vec![item(5, 6, Dir::Right, Mode::Filling)]);
}

#[test]
fn corridor_stops_before_a_door() {
    let mut grid = Grid::new();
    grid.set(5, 7, Cell::Door);
    let mut stack = Vec::new();
    let d = draws([Dir::Up, Dir::Right, Dir::Left, Dir::Down], true, true, true);
    assert!(!visit(&mut grid, &mut stack, item(5, 5, Dir::Right, Mode::Filling), &d));
    assert_eq!(grid.get(5, 6), Cell::Corridor);
    assert!(stack.is_empty());
}

#[test]
fn corridor_about_to_enter_floor_is_a_fault() {
    for kind in [Cell::Interior, Cell::InteriorFilled] {
        let mut grid = Grid::new();
        grid.set(5, 7, kind);
        let mut stack = Vec::new();
        assert!(visit(&mut grid, &mut stack, item(5, 5, Dir::Right, Mode::Filling), &plain()));
        assert_eq!(grid.get(5, 6), Cell::Corridor);
        assert_eq!(grid.get(5, 7), kind);
        assert!(stack.is_empty());
    }
}

#[test]
fn fill_that_has_not_moved_looks_at_its_own_cell() {
    let mut grid = Grid::new();
    let mut stack = Vec::new();
    let d = draws([Dir::Up, Dir::Right, Dir::Left, Dir::Down], false, false, true);
    assert!(!visit(&mut grid, &mut stack, item(5, 5, Dir::Here, Mode::Filling), &d));
    assert_eq!(grid.get(5, 5), Cell::Corridor);
    assert_eq!(stack, vec![item(5, 5, Dir::Here, Mode::Filling)]);
    let d = draws([Dir::Up, Dir::Right, Dir::Left, Dir::Down], false, true, true);
    let mut stack = Vec::new();
    assert!(!visit(&mut grid, &mut stack, item(9, 9, Dir::Here, Mode::Filling), &d));
    assert_eq!(stack, vec![item(9, 9, Dir::Down, Mode::Filling)]);
}

fn corner_room() -> Grid {
    let mut grid = Grid::new();
    for row in 5..8 {
        for col in 72..75 {
            grid.set(row, col, Cell::Wall);
        }
    }
    grid.set(6, 73, Cell::Interior);
    grid
}

fn corner_script() -> Vec<Draws> {
    let usual = Draws {
        start: Pos::new(6, 73),
        order: [Dir::Right, Dir::Down, Dir::Up, Dir::Left],
        door: true,
        turn: false,
        side: true,
    };
    let mut script = vec![usual; 18];
    script[7].turn = true;
    script[7].side = false;
    script
}

fn corner_result() -> Grid {
    let mut want = corner_room();
    want.set(6, 73, Cell::InteriorFilled);
    want.set(6, 74, Cell::Door);
    want.set(7, 74, Cell::Door);
    want.set(6, 75, Cell::Corridor);
    want.set(6, 76, Cell::Corridor);
    want.set(7, 76, Cell::Corridor);
    want.set(7, 75, Cell::Corridor);
    want
}

fn same(a: &Grid, b: &Grid) -> bool {
    for row in 0..19 {
        for col in 0..77 {
            if a.get(row, col) != b.get(row, col) {
                return false;
            }
        }
    }
    true
}

#[test]
fn scripted_carving_gives_the_expected_grid() {
    let mut grid = corner_room();
    assert_eq!(replay(&mut grid, &corner_script()), Ok(()));
    let want = corner_result();
    for row in 0..19 {
        for col in 0..77 {
            assert_eq!(grid.get(row, col), want.get(row, col), "at {} {}", row, col);
        }
    }
}

#[test]
fn script_that_ends_early_leaves_carving_unfinished() {
    let mut grid = corner_room();
    let script = corner_script();
    assert_eq!(replay(&mut grid, &script[..10].to_vec()), Err(GenError::StepLimit));
    assert_eq!(grid.get(6, 74), Cell::Door);
    assert_eq!(grid.get(7, 74), Cell::Door);
    assert_eq!(grid.get(6, 73), Cell::Interior);
    let mut grid = corner_room();
    assert_eq!(replay(&mut grid, &script[..17].to_vec()), Err(GenError::StepLimit));
    assert_eq!(grid.get(6, 73), Cell::InteriorFilled);
}

#[test]
fn empty_script_changes_nothing() {
    let mut grid = corner_room();
    assert_eq!(replay(&mut grid, &Vec::new()), Err(GenError::StepLimit));
    assert!(same(&grid, &corner_room()));
    let mut blank = Grid::new();
    assert_eq!(replay(&mut blank, &Vec::new()), Ok(()));
}

#[test]
fn steps_after_carving_is_complete_change_nothing() {
    let mut grid = corner_room();
    let mut script = corner_script();
    script.extend(corner_script());
    assert_eq!(replay(&mut grid, &script), Ok(()));
    assert!(same(&grid, &corner_result()));
}

#[test]
fn same_script_gives_the_same_grid() {
    let mut first = corner_room();
    let mut second = corner_room();
    let script = corner_script();
    assert_eq!(replay(&mut first, &script[..12].to_vec()), replay(&mut second, &script[..12].to_vec()));
    assert!(same(&first, &second));
}

#[test]
fn seed_that_misses_the_floor_is_spent_without_effect() {
    let mut grid = corner_room();
    let mut miss = plain();
    miss.start = Pos::new(0, 0);
    assert_eq!(replay(&mut grid, &vec![miss; 40]), Err(GenError::StepLimit));
    assert!(same(&grid, &corner_room()));
}

#[test]
fn scripted_carving_of_an_unsealed_grid_faults() {
    let mut grid = Grid::new();
    grid.set(5, 5, Cell::Interior);
    grid.set(5, 6, Cell::Wall);
    grid.set(4, 6, Cell::Wall);
    grid.set(6, 6, Cell::Wall);
    grid.set(5, 8, Cell::Interior);
    let usual = Draws {
        start: Pos::new(5, 5),
        order: [Dir::Right, Dir::Down, Dir::Up, Dir::Left],
        door: true,
        turn: false,
        side: true,
    };
    let mut short = grid;
    assert_eq!(replay(&mut short, &vec![usual; 5]), Err(GenError::StepLimit));
    assert_eq!(short.get(5, 7), Cell::Empty);
    assert_eq!(replay(&mut grid, &vec![usual; 6]), Err(GenError::InteriorBreached));
    assert_eq!(grid.get(5, 6), Cell::Door);
    assert_eq!(grid.get(5, 7), Cell::Corridor);
    assert_eq!(grid.get(5, 8), Cell::Interior);
    let mut again = Grid::new();
    again.set(5, 5, Cell::Interior);
    again.set(5, 6, Cell::Wall);
    again.set(4, 6, Cell::Wall);
    again.set(6, 6, Cell::Wall);
    again.set(5, 8, Cell::Interior);
    assert_eq!(replay(&mut again, &vec![usual; 30]), Err(GenError::InteriorBreached));
    assert!(same(&again, &grid));
}
