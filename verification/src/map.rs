use vstd::prelude::*;

use crate::maze::{grid_cell, text_lines, Maze};

verus! {

/// Why a map could not be built from its text.
#[derive(PartialEq, Eq, Structural, Clone, Copy, Debug)]
pub enum MapError {
    /// The map has no player spawn ('P').
    MissingSpawn,
}

/// A playable map: its file, its maze, the cell where the player spawns and
/// the name shown in the menus. The player spawns at the centre of the
/// spawn cell.
#[derive(Clone)]
pub struct GameMap {
    pub path: String,
    pub spawn_row: usize,
    pub spawn_column: usize,
    pub maze: Maze,
    pub name: &'static str,
}

impl GameMap {
    /// Builds the map named `name` from the text `contents` of the file at
    /// `path`. The spawn is the first 'P' in row-major order; a map without
    /// one is refused.
    pub fn new(path: String, contents: &str, block_size: usize, name: &'static str) -> (r: Result<GameMap, MapError>)
        ensures
            match r {
                Ok(map) => {
                    &&& map.path@ == path@
                    &&& map.name == name
                    &&& map.maze.block_size == block_size
                    &&& map.maze.rows() == text_lines(contents@)
                    &&& map.maze.holds(map.spawn_row as int, map.spawn_column as int, 'P')
                    &&& forall|row: int, column: int|
                        #![trigger map.maze.holds(row, column, 'P')]
                        (row < map.spawn_row || (row == map.spawn_row && column < map.spawn_column))
                            ==> !map.maze.holds(row, column, 'P')
                },
                Err(e) => {
                    &&& e == MapError::MissingSpawn
                    &&& forall|row: int, column: int|
                        #[trigger] grid_cell(text_lines(contents@), row, column) != Some('P')
                },
            },
    {
        let maze = Maze::new(contents, block_size);
        match maze.first_cell_with('P') {
            Some((spawn_row, spawn_column)) => Ok(GameMap { path, spawn_row, spawn_column, maze, name }),
            None => {
                assert forall|row: int, column: int|
                    #[trigger] grid_cell(text_lines(contents@), row, column) != Some('P') by {
                    assert(!maze.holds(row, column, 'P'));
                }
                Err(MapError::MissingSpawn)
            },
        }
    }
}

} // verus!
