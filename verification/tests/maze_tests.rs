use rust_global_offensive::map::{GameMap, MapError};
use rust_global_offensive::maze::Maze;

fn rows(lines: &[&str]) -> Vec<Vec<char>> {
    lines.iter().map(|l| l.chars().collect()).collect()
}

#[test]
fn read_maze_splits_lines() {
    assert_eq!(Maze::read_maze("ab\ncd\n"), rows(&["ab", "cd"]));
    assert_eq!(Maze::read_maze("ab\ncd"), rows(&["ab", "cd"]));
}

#[test]
fn read_maze_drops_carriage_return_before_newline() {
    assert_eq!(Maze::read_maze("ab\r\ncd\r\n"), rows(&["ab", "cd"]));
    assert_eq!(Maze::read_maze("a\r"), vec![vec!['a', '\r']]);
    assert_eq!(Maze::read_maze("a\rb\n"), vec![vec!['a', '\r', 'b']]);
}

#[test]
fn read_maze_edge_cases() {
    assert_eq!(Maze::read_maze(""), Vec::<Vec<char>>::new());
    assert_eq!(Maze::read_maze("\n\n"), vec![Vec::<char>::new(), Vec::new()]);
    assert_eq!(Maze::read_maze("\n"), vec![Vec::<char>::new()]);
    assert_eq!(Maze::read_maze("┌─┐\n│P│\n"), rows(&["┌─┐", "│P│"]));
}

#[test]
fn read_maze_matches_std_lines() {
    for text in ["", "x", "x\n", "x\r\n", "\r\n\r\n", "a\n\nb", "a\r\r\nb\r", " P T\n12B-\n┘"] {
        let expected: Vec<Vec<char>> = text.lines().map(|l| l.chars().collect()).collect();
        assert_eq!(Maze::read_maze(text), expected, "text {:?}", text);
    }
}

#[test]
fn terminated_lines_read_back() {
    let lines = ["+-+", "|P|", "", "+1+"];
    let text: String = lines.iter().map(|l| format!("{}\n", l)).collect();
    assert_eq!(Maze::read_maze(&text), rows(&lines));
}

#[test]
fn final_line_ending_is_optional() {
    assert_eq!(Maze::read_maze("+-+\n|T|"), Maze::read_maze("+-+\n|T|\n"));
}

#[test]
fn new_keeps_block_size() {
    let maze = Maze::new("+P+\n", 100);
    assert_eq!(maze.block_size, 100);
    assert_eq!(maze.grid, rows(&["+P+"]));
}

#[test]
fn walkable_and_solid_symbols() {
    for symbol in [' ', 'P', 'T', '1', '2'] {
        assert!(Maze::is_walkable_symbol(symbol));
        assert!(!Maze::is_solid_symbol(symbol));
    }
    for symbol in ['+', '-', '|', 'B', '┌', '#', 'p'] {
        assert!(!Maze::is_walkable_symbol(symbol));
        assert!(Maze::is_solid_symbol(symbol));
    }
}

#[test]
fn bomb_site_symbols() {
    assert!(Maze::is_bomb_site_symbol('1'));
    assert!(Maze::is_bomb_site_symbol('2'));
    assert!(!Maze::is_bomb_site_symbol('3'));
    assert!(!Maze::is_bomb_site_symbol(' '));
}

#[test]
fn cell_at_world_divides_by_block_size() {
    let maze = Maze::new("+++\n+P 1\n+T\n", 100);
    assert_eq!(maze.cell_at_world(150, 150), Some('P'));
    assert_eq!(maze.cell_at_world(199, 100), Some('P'));
    assert_eq!(maze.cell_at_world(200, 100), Some(' '));
    assert_eq!(maze.cell_at_world(350, 150), Some('1'));
    assert_eq!(maze.cell_at_world(100, 250), Some('T'));
    // the last row is shorter than the others
    assert_eq!(maze.cell_at_world(250, 250), None);
    assert_eq!(maze.cell_at_world(0, 300), None);
    assert_eq!(maze.cell_at_world(400, 0), None);
}

#[test]
fn every_point_of_a_block_reads_its_cell() {
    let maze = Maze::new("ab\ncd\n", 7);
    for x in 7..14 {
        for y in 0..7 {
            assert_eq!(maze.cell_at_world(x, y), Some('b'));
        }
    }
}

#[test]
fn cell_at_reads_the_grid() {
    let maze = Maze::new("ab\nc\n", 1);
    assert_eq!(maze.cell_at(0, 1), Some('b'));
    assert_eq!(maze.cell_at(1, 0), Some('c'));
    assert_eq!(maze.cell_at(1, 1), None);
    assert_eq!(maze.cell_at(2, 0), None);
}

#[test]
fn blocking_symbol_stops_rays() {
    let maze = Maze::new("+B+\n+ 1\n", 10);
    assert_eq!(maze.blocking_symbol(1, 1), None);
    assert_eq!(maze.blocking_symbol(2, 1), None);
    assert_eq!(maze.blocking_symbol(1, 0), Some('B'));
    assert_eq!(maze.blocking_symbol(0, 1), Some('+'));
    assert_eq!(maze.blocking_symbol(3, 1), Some('#'));
    assert_eq!(maze.blocking_symbol(0, 2), Some('#'));
    assert_eq!(maze.blocking_symbol(-1, 0), Some('#'));
    assert_eq!(maze.blocking_symbol(0, -1), Some('#'));
}

#[test]
fn first_cell_with_is_row_major() {
    let maze = Maze::new("+++T\n+T P\n+P\n", 1);
    assert_eq!(maze.first_cell_with('T'), Some((0, 3)));
    assert_eq!(maze.first_cell_with('P'), Some((1, 3)));
    assert_eq!(maze.first_cell_with('1'), None);
}

#[test]
fn cells_with_lists_every_cell_once_in_order() {
    let maze = Maze::new("T+T\n+\n TT\n", 1);
    assert_eq!(maze.cells_with('T'), vec![(0, 0), (0, 2), (2, 1), (2, 2)]);
    assert_eq!(maze.cells_with('2'), Vec::<(usize, usize)>::new());
}

#[test]
fn map_spawn_is_first_p() {
    let map = GameMap::new("./dust2.txt".to_string(), "+++\n+ P\n+P+\n", 100, "Dust 2").unwrap();
    assert_eq!((map.spawn_row, map.spawn_column), (1, 2));
    assert_eq!(map.name, "Dust 2");
    assert_eq!(map.path, "./dust2.txt");
    assert_eq!(map.maze.block_size, 100);
    assert_eq!(map.maze.grid, rows(&["+++", "+ P", "+P+"]));
}

#[test]
fn map_without_spawn_is_refused() {
    let refused = GameMap::new("./cache.txt".to_string(), "+++\n+T+\n", 100, "Cache");
    assert!(matches!(refused, Err(MapError::MissingSpawn)));
    assert!(matches!(GameMap::new(String::new(), "", 100, "Empty"), Err(MapError::MissingSpawn)));
}
