use vstd::prelude::*;

verus! {

/// Drops one carriage return that ends a line, as a "\r\n" line ending leaves it.
pub open spec fn strip_cr(line: Seq<char>) -> Seq<char> {
    if line.len() > 0 && line.last() == '\r' {
        line.drop_last()
    } else {
        line
    }
}

/// Reading `text` from its start: the lines that a '\n' has already ended
/// (each without its "\n" or "\r\n" ending), and the line still being read.
pub open spec fn scan_lines(text: Seq<char>) -> (Seq<Seq<char>>, Seq<char>)
    decreases text.len(),
{
    if text.len() == 0 {
        (seq![], seq![])
    } else {
        let (done, partial) = scan_lines(text.drop_last());
        if text.last() == '\n' {
            (done.push(strip_cr(partial)), seq![])
        } else {
            (done, partial.push(text.last()))
        }
    }
}

/// The lines of a text: it is split at each '\n', a '\r' just before a '\n'
/// is dropped, and a last line is kept only when it is not empty (so a text
/// that ends with a line ending has no empty line after it).
pub open spec fn text_lines(text: Seq<char>) -> Seq<Seq<char>> {
    let (done, partial) = scan_lines(text);
    if partial.len() == 0 {
        done
    } else {
        done.push(partial)
    }
}

/// Rows written one after another, each followed by a '\n'.
pub open spec fn terminated_lines(rows: Seq<Seq<char>>) -> Seq<char>
    decreases rows.len(),
{
    if rows.len() == 0 {
        seq![]
    } else {
        terminated_lines(rows.drop_last()) + rows.last().push('\n')
    }
}

/// Reading on past a stretch without '\n' only lengthens the line being read.
proof fn lemma_scan_without_newline(text: Seq<char>, rest: Seq<char>)
    requires
        !rest.contains('\n'),
    ensures
        scan_lines(text + rest) == (scan_lines(text).0, scan_lines(text).1 + rest),
    decreases rest.len(),
{
    if rest.len() == 0 {
        assert(text + rest =~= text);
        assert(scan_lines(text).1 + rest =~= scan_lines(text).1);
    } else {
        let shorter = rest.drop_last();
        assert(!shorter.contains('\n')) by {
            if shorter.contains('\n') {
                let i = choose|i: int| 0 <= i < shorter.len() && shorter[i] == '\n';
                assert(rest[i] == '\n');
            }
        }
        lemma_scan_without_newline(text, shorter);
        assert((text + rest).drop_last() =~= text + shorter);
        assert((text + rest).last() == rest.last());
        assert(rest.last() != '\n') by {
            assert(rest[rest.len() - 1] == rest.last());
        }
        assert((scan_lines(text).1 + shorter).push(rest.last()) =~= scan_lines(text).1 + rest);
    }
}

/// A text whose every line ends with a '\n' reads back as those lines, when no
/// line holds a '\n' or ends with a '\r'.
pub proof fn read_back_terminated_lines(rows: Seq<Seq<char>>)
    requires
        forall|i: int| 0 <= i < rows.len() ==> !(#[trigger] rows[i]).contains('\n'),
        forall|i: int| 0 <= i < rows.len() && rows[i].len() > 0 ==> (#[trigger] rows[i]).last()
            != '\r',
    ensures
        scan_lines(terminated_lines(rows)) == (rows, Seq::<char>::empty()),
        text_lines(terminated_lines(rows)) == rows,
    decreases rows.len(),
{
    if rows.len() > 0 {
        let earlier = rows.drop_last();
        let row = rows.last();
        assert(row == rows[rows.len() - 1]);
        assert forall|i: int| 0 <= i < earlier.len() implies !(#[trigger] earlier[i]).contains(
            '\n',
        ) by {
            assert(earlier[i] == rows[i]);
        }
        assert forall|i: int| 0 <= i < earlier.len() && earlier[i].len() > 0 implies (
        #[trigger] earlier[i]).last() != '\r' by {
            assert(earlier[i] == rows[i]);
        }
        read_back_terminated_lines(earlier);
        let before = terminated_lines(earlier);
        lemma_scan_without_newline(before, row);
        let text = terminated_lines(rows);
        assert(text =~= (before + row).push('\n'));
        assert(text.drop_last() =~= before + row);
        assert(Seq::<char>::empty() + row =~= row);
        assert(strip_cr(row) == row);
        assert(earlier.push(row) =~= rows);
    }
}

/// A text that does not end with a line ending reads the same with one added.
pub proof fn final_line_ending_optional(text: Seq<char>)
    requires
        text.len() > 0,
        text.last() != '\n',
        text.last() != '\r',
    ensures
        text_lines(text.push('\n')) == text_lines(text),
{
    assert(text.push('\n').drop_last() =~= text);
    let (done, partial) = scan_lines(text);
    assert(partial.len() > 0 && partial.last() == text.last()) by {
        assert(text.drop_last().push(text.last()) =~= text);
    }
}

/// Every world point of the block of a cell lies in that cell: the block of
/// the cell at `row`, `column` spans `block_size` world units from
/// `column * block_size` across and from `row * block_size` down.
pub proof fn world_point_in_cell(
    block_size: int,
    row: int,
    column: int,
    world_x: int,
    world_y: int,
)
    requires
        block_size > 0,
        0 <= row,
        0 <= column,
        column * block_size <= world_x < (column + 1) * block_size,
        row * block_size <= world_y < (row + 1) * block_size,
    ensures
        world_x / block_size == column,
        world_y / block_size == row,
{
    lemma_block_index(block_size, column, world_x);
    lemma_block_index(block_size, row, world_y);
}

proof fn lemma_block_index(block_size: int, index: int, coordinate: int)
    requires
        block_size > 0,
        0 <= index,
        index * block_size <= coordinate < (index + 1) * block_size,
    ensures
        coordinate / block_size == index,
{
    assert((index + 1) * block_size == index * block_size + block_size) by (nonlinear_arith);
    vstd::arithmetic::div_mod::lemma_fundamental_div_mod_converse(
        coordinate,
        block_size,
        index,
        coordinate - index * block_size,
    );
}

/// The symbols a player (and a ray, and a bullet) can pass through:
/// floor, the player's spawn, an enemy's spawn and the two bomb sites.
pub open spec fn walkable(symbol: char) -> bool {
    symbol == ' ' || symbol == 'P' || symbol == 'T' || symbol == '1' || symbol == '2'
}

/// The symbols of the two bomb sites.
pub open spec fn bomb_site(symbol: char) -> bool {
    symbol == '1' || symbol == '2'
}

/// Row-major order on (row, column) cells.
pub open spec fn cell_before(a: (usize, usize), b: (usize, usize)) -> bool {
    a.0 < b.0 || (a.0 == b.0 && a.1 < b.1)
}

/// The symbol at a row and column of a grid, if the grid has that cell
/// (rows may differ in length).
pub open spec fn grid_cell(rows: Seq<Seq<char>>, row: int, column: int) -> Option<char> {
    if 0 <= row < rows.len() && 0 <= column < rows[row].len() {
        Some(rows[row][column])
    } else {
        None
    }
}

/// A map read from text: one row of symbols per line, each cell `block_size`
/// world units wide and high.
#[derive(Clone)]
pub struct Maze {
    pub block_size: usize,
    pub grid: Vec<Vec<char>>,
}

impl Maze {
    /// The grid as a sequence of rows.
    pub open spec fn rows(&self) -> Seq<Seq<char>> {
        self.grid.deep_view()
    }

    /// The symbol at a row and column, if the grid has that cell (rows may
    /// differ in length).
    pub open spec fn cell(&self, row: int, column: int) -> Option<char> {
        grid_cell(self.rows(), row, column)
    }

    /// What stops a ray that enters the cell at `column`, `row`: `None` when the
    /// cell is walkable, its symbol when it is solid, and '#' outside the grid.
    pub open spec fn blocker(&self, column: int, row: int) -> Option<char> {
        match self.cell(row, column) {
            Some(symbol) => if walkable(symbol) {
                None
            } else {
                Some(symbol)
            },
            None => Some('#'),
        }
    }

    /// Builds a maze from the text of a map file.
    pub fn new(contents: &str, size: usize) -> (maze: Maze)
        ensures
            maze.block_size == size,
            maze.rows() == text_lines(contents@),
    {
        let grid = Self::read_maze(contents);
        Maze { block_size: size, grid }
    }

    /// Splits the text of a map file into rows of symbols, one per line.
    pub fn read_maze(contents: &str) -> (grid: Vec<Vec<char>>)
        ensures
            grid.deep_view() == text_lines(contents@),
    {
        broadcast use vstd::string::axiom_spec_iter;

        let mut grid: Vec<Vec<char>> = Vec::new();
        let mut line: Vec<char> = Vec::new();
        let ghost text = contents@;
        for c in it: contents.chars()
            invariant
                it.seq() == text,
                scan_lines(text.take(it.index())) == (grid.deep_view(), line@),
        {
            let ghost before = text.take(it.index());
            assert(text.take(it.index() + 1).drop_last() == before);
            let ghost old_grid = grid.deep_view();
            let ghost old_line = line@;
            if c == '\n' {
                let n = line.len();
                if n > 0 && line[n - 1] == '\r' {
                    line.pop();
                }
                assert(line@ == strip_cr(old_line));
                let finished = line;
                assert(finished.deep_view() =~= finished@);
                line = Vec::new();
                grid.push(finished);
                assert(grid.deep_view() =~= old_grid.push(strip_cr(old_line)));
            } else {
                line.push(c);
            }
        }
        assert(text.take(text.len() as int) == text);
        if line.len() > 0 {
            let ghost old_grid = grid.deep_view();
            let ghost old_line = line@;
            assert(line.deep_view() =~= line@);
            grid.push(line);
            assert(grid.deep_view() =~= old_grid.push(old_line));
        }
        grid
    }

    /// Whether `symbol` marks one of the two bomb sites, where a bomb can be
    /// defused and which the floor shows with the site texture.
    pub fn is_bomb_site_symbol(symbol: char) -> (r: bool)
        ensures
            r == bomb_site(symbol),
    {
        symbol == '1' || symbol == '2'
    }

    /// The symbol at a row and column, if the grid has that cell.
    pub fn cell_at(&self, row: usize, column: usize) -> (r: Option<char>)
        ensures
            r == self.cell(row as int, column as int),
    {
        if row < self.grid.len() {
            let cells = &self.grid[row];
            proof {
                assert(self.rows()[row as int] == cells@);
            }
            if column < cells.len() {
                return Some(cells[column]);
            }
        }
        None
    }

    /// The symbol of the cell that holds the world point (`world_x`, `world_y`),
    /// the point's coordinates already cut to whole world units; `None` when
    /// the point lies beyond the grid.
    pub fn cell_at_world(&self, world_x: usize, world_y: usize) -> (r: Option<char>)
        requires
            self.block_size > 0,
        ensures
            r == self.cell((world_y / self.block_size) as int, (world_x / self.block_size) as int),
    {
        let column = world_x / self.block_size;
        let row = world_y / self.block_size;
        self.cell_at(row, column)
    }

    /// What stops a ray that enters the cell at `column`, `row`: `None` when the
    /// ray goes on through a walkable cell, the cell's symbol when it is solid,
    /// and '#' when the cell lies outside the grid (negative coordinates too).
    pub fn blocking_symbol(&self, column: isize, row: isize) -> (r: Option<char>)
        ensures
            r == self.blocker(column as int, row as int),
    {
        if column < 0 || row < 0 {
            return Some('#');
        }
        match self.cell_at(row as usize, column as usize) {
            Some(symbol) => {
                if Self::is_solid_symbol(symbol) {
                    Some(symbol)
                } else {
                    None
                }
            },
            None => Some('#'),
        }
    }

    /// Whether the cell at `row`, `column` exists and holds `symbol`.
    pub open spec fn holds(&self, row: int, column: int, symbol: char) -> bool {
        self.cell(row, column) == Some(symbol)
    }

    /// The first cell, in row-major order, that holds `symbol`, as
    /// (row, column); `None` when no cell holds it.
    pub fn first_cell_with(&self, symbol: char) -> (r: Option<(usize, usize)>)
        ensures
            match r {
                Some(found) => {
                    &&& self.holds(found.0 as int, found.1 as int, symbol)
                    &&& forall|row: int, column: int|
                        #![trigger self.holds(row, column, symbol)]
                        (row < found.0 || (row == found.0 && column < found.1))
                            ==> !self.holds(row, column, symbol)
                },
                None => forall|row: int, column: int| !#[trigger] self.holds(row, column, symbol),
            },
    {
        let mut row: usize = 0;
        while row < self.grid.len()
            invariant
                row <= self.grid@.len(),
                self.rows().len() == self.grid@.len(),
                forall|r: int, c: int| #![trigger self.holds(r, c, symbol)]
                    r < row ==> !self.holds(r, c, symbol),
            decreases self.grid@.len() - row,
        {
            let cells = &self.grid[row];
            proof {
                assert(self.rows()[row as int] == cells@);
            }
            let mut column: usize = 0;
            while column < cells.len()
                invariant
                    row < self.grid@.len(),
                    column <= cells@.len(),
                    self.rows().len() == self.grid@.len(),
                    self.rows()[row as int] == cells@,
                    forall|r: int, c: int| #![trigger self.holds(r, c, symbol)]
                        r < row || (r == row && c < column) ==> !self.holds(r, c, symbol),
                decreases cells@.len() - column,
            {
                if cells[column] == symbol {
                    return Some((row, column));
                }
                column += 1;
            }
            row += 1;
        }
        None
    }

    /// Every cell that holds `symbol`, as (row, column), each once, in
    /// row-major order.
    pub fn cells_with(&self, symbol: char) -> (found: Vec<(usize, usize)>)
        ensures
            forall|i: int| 0 <= i < found.len()
                ==> self.holds(found@[i].0 as int, found@[i].1 as int, symbol),
            forall|row: int, column: int| #[trigger] self.holds(row, column, symbol)
                ==> exists|i: int| 0 <= i < found.len() && found@[i] == (row as usize, column as usize),
            forall|i: int, j: int| 0 <= i < j < found.len() ==> cell_before(found@[i], found@[j]),
    {
        let mut found: Vec<(usize, usize)> = Vec::new();
        let mut row: usize = 0;
        while row < self.grid.len()
            invariant
                row <= self.grid@.len(),
                self.rows().len() == self.grid@.len(),
                forall|i: int| 0 <= i < found.len()
                    ==> self.holds(found@[i].0 as int, found@[i].1 as int, symbol),
                forall|i: int| 0 <= i < found.len() ==> found@[i].0 < row,
                forall|r: int, c: int| #[trigger] self.holds(r, c, symbol) && r < row
                    ==> exists|i: int| 0 <= i < found.len() && found@[i] == (r as usize, c as usize),
                forall|i: int, j: int| 0 <= i < j < found.len() ==> cell_before(found@[i], found@[j]),
            decreases self.grid@.len() - row,
        {
            let cells = &self.grid[row];
            proof {
                assert(self.rows()[row as int] == cells@);
            }
            let mut column: usize = 0;
            while column < cells.len()
                invariant
                    row < self.grid@.len(),
                    column <= cells@.len(),
                    self.rows().len() == self.grid@.len(),
                    self.rows()[row as int] == cells@,
                    forall|i: int| 0 <= i < found.len()
                        ==> self.holds(found@[i].0 as int, found@[i].1 as int, symbol),
                    forall|i: int| 0 <= i < found.len()
                        ==> cell_before(found@[i], (row, column)),
                    forall|r: int, c: int| #[trigger] self.holds(r, c, symbol)
                        && (r < row || (r == row && c < column))
                        ==> exists|i: int| 0 <= i < found.len() && found@[i] == (r as usize, c as usize),
                    forall|i: int, j: int| 0 <= i < j < found.len() ==> cell_before(found@[i], found@[j]),
                decreases cells@.len() - column,
            {
                if cells[column] == symbol {
                    let ghost before = found@;
                    found.push((row, column));
                    assert forall|r: int, c: int| #[trigger] self.holds(r, c, symbol)
                        && (r < row || (r == row && c < column + 1))
                        implies exists|i: int| 0 <= i < found.len() && found@[i] == (r as usize, c as usize)
                    by {
                        if r == row && c == column {
                            assert(found@[before.len() as int] == (r as usize, c as usize));
                        } else {
                            let i = choose|i: int| 0 <= i < before.len() && before[i] == (r as usize, c as usize);
                            assert(found@[i] == before[i]);
                        }
                    }
                }
                column += 1;
            }
            row += 1;
        }
        found
    }

    /// Whether a player can walk over `symbol`.
    pub fn is_walkable_symbol(symbol: char) -> (r: bool)
        ensures
            r == walkable(symbol),
    {
        symbol == ' ' || symbol == 'P' || symbol == 'T' || symbol == '1' || symbol == '2'
    }

    /// Whether `symbol` blocks players, rays and bullets: every symbol that is
    /// not walkable.
    pub fn is_solid_symbol(symbol: char) -> (r: bool)
        ensures
            r == !walkable(symbol),
    {
        !Self::is_walkable_symbol(symbol)
    }
}

/// Whether `symbol` is a box-drawing character (U+2500 to U+257F), the
/// characters that draw the walls of a map, such as '│', '─' and '┌'.
pub open spec fn box_drawing(symbol: char) -> bool {
    0x2500 <= (symbol as u32) && (symbol as u32) <= 0x257f
}

/// Only the floor, the two spawns and the two bomb sites can be walked on:
/// any other symbol is solid.
pub proof fn only_floor_spawns_and_sites_are_walkable(symbol: char)
    ensures
        walkable(symbol) ==> symbol == ' ' || symbol == 'P' || symbol == 'T' || bomb_site(symbol),
        symbol != ' ' && symbol != 'P' && symbol != 'T' && !bomb_site(symbol) ==> !walkable(symbol),
{
}

/// The floor, both spawns and both bomb sites can be walked on.
pub proof fn floor_spawns_and_sites_are_walkable(symbol: char)
    requires
        symbol == ' ' || symbol == 'P' || symbol == 'T' || bomb_site(symbol),
    ensures
        walkable(symbol),
{
}

/// Wall symbols (box drawing, boxes, the outside of the map) are solid.
pub proof fn walls_are_solid(symbol: char)
    requires
        box_drawing(symbol) || symbol == 'B' || symbol == '-' || symbol == '#',
    ensures
        !walkable(symbol),
{
}

/// A ray that enters a cell holding a wall is stopped by that wall's symbol;
/// a ray that enters a walkable cell goes on; a ray that leaves the grid is
/// stopped by '#'.
pub proof fn walls_stop_rays(maze: Maze, column: int, row: int, symbol: char)
    ensures
        maze.cell(row, column) == Some(symbol) && (box_drawing(symbol) || symbol == 'B' || symbol
            == '-') ==> maze.blocker(column, row) == Some(symbol),
        maze.cell(row, column) == Some(symbol) && (symbol == ' ' || symbol == 'P' || symbol == 'T'
            || bomb_site(symbol)) ==> maze.blocker(column, row) is None,
        maze.cell(row, column) is None ==> maze.blocker(column, row) == Some('#'),
        maze.blocker(column, row) == Some(symbol) ==> !walkable(symbol),
{
}

} // verus!
