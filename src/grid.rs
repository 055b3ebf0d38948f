use vstd::prelude::*;

verus! {

/// What a cell of a tic-tac-toe grid holds. `Count` is the number of the
/// other variants.
#[derive(Copy, Clone, Debug, PartialEq, Eq, Structural)]
pub enum Symbol {
    Empty,
    X,
    O,
    Count,
}

#[derive(Copy, Clone, Debug, PartialEq, Eq, Structural)]
pub enum GameStatus {
    Winner(Symbol),
    Draw,
    NotFinished,
}

/// The size of a grid and how many equal symbols in a row win.
#[derive(Copy, Clone, Debug)]
pub struct GridData {
    pub grid_size: usize,
    pub sym_occs_win: u32,
}

/// A grid as mathematical values: cells column by column (`x * size + y`),
/// the winning run length and the last cell played.
pub ghost struct GridState {
    pub symbols: Seq<Symbol>,
    pub size: int,
    pub win: int,
    pub last_x: int,
    pub last_y: int,
}

impl GridState {
    pub open spec fn wf(self) -> bool {
        &&& self.symbols.len() == self.size * self.size
        &&& self.size * self.size <= usize::MAX
        &&& 0 <= self.win <= u32::MAX
        &&& 0 <= self.last_x && 0 <= self.last_y
        &&& (self.last_x < self.size && self.last_y < self.size || self.last_x == 0
            && self.last_y == 0)
    }

    /// The symbol at `(x, y)`; cells off the grid read as empty.
    pub open spec fn at(self, x: int, y: int) -> Symbol {
        if 0 <= x < self.size && 0 <= y < self.size {
            self.symbols[x * self.size + y]
        } else {
            Symbol::Empty
        }
    }
}

/// `d * t` for a direction component `d` of -1, 0 or 1.
pub open spec fn step(d: int, t: int) -> int {
    if d > 0 {
        t
    } else if d < 0 {
        -t
    } else {
        0
    }
}

/// Among the first `len` cells from `(sx, sy)` in direction `(dx, dy)`, those
/// with non-negative coordinates that hold `sym`, in order.
pub open spec fn matching(
    g: GridState,
    sx: int,
    sy: int,
    dx: int,
    dy: int,
    len: nat,
    sym: Symbol,
) -> Seq<(usize, usize)>
    decreases len,
{
    if len == 0 {
        Seq::empty()
    } else {
        let prev = matching(g, sx, sy, dx, dy, (len - 1) as nat, sym);
        let tx = sx + step(dx, len - 1);
        let ty = sy + step(dy, len - 1);
        if tx >= 0 && ty >= 0 && g.at(tx, ty) == sym {
            prev.push((tx as usize, ty as usize))
        } else {
            prev
        }
    }
}

/// The four ways a run is searched for around the last move.
pub enum Direction {
    /// Along `x`: windows of `win` cells.
    Line,
    /// Along `y`: windows of `win` cells.
    Column,
    /// Along `x = y`: stretches of `size` cells.
    Diagonal,
    /// Along `x = -y`: stretches of `size` cells.
    ReverseDiagonal,
}

/// The `i`-th stretch searched in direction `d`: start, step and length.
pub open spec fn stretch(g: GridState, d: Direction, i: int) -> (int, int, int, int, nat) {
    let (x, y, k, n) = (g.last_x, g.last_y, g.win, g.size);
    match d {
        Direction::Line => (x - k + 1 + i, y, 1, 0, k as nat),
        Direction::Column => (x, y - k + 1 + i, 0, 1, k as nat),
        Direction::Diagonal => (x - k + 1 + i, y - k + 1 + i, 1, 1, n as nat),
        Direction::ReverseDiagonal => (x + k - 1 - i, y - k + 1 + i, -1, 1, n as nat),
    }
}

/// The cells of the `i`-th stretch in direction `d` that hold the symbol of
/// the last move.
pub open spec fn stretch_matches(g: GridState, d: Direction, i: int) -> Seq<(usize, usize)> {
    let (sx, sy, dx, dy, len) = stretch(g, d, i);
    matching(g, sx, sy, dx, dy, len, g.at(g.last_x, g.last_y))
}

/// The first stretch from the `i`-th on, in direction `d`, with exactly `win`
/// cells holding the symbol of the last move.
pub open spec fn first_run_from(g: GridState, d: Direction, i: int) -> Option<Seq<(usize, usize)>>
    decreases g.size - i,
{
    if i >= g.size {
        None
    } else if stretch_matches(g, d, i).len() == g.win {
        Some(stretch_matches(g, d, i))
    } else {
        first_run_from(g, d, i + 1)
    }
}

pub open spec fn first_run(g: GridState, d: Direction) -> Option<Seq<(usize, usize)>> {
    first_run_from(g, d, 0)
}

pub open spec fn view_cells(v: Option<Vec<(usize, usize)>>) -> Option<Seq<(usize, usize)>> {
    match v {
        Some(c) => Some(c@),
        None => None,
    }
}

/// The outcome of a grid: a winner with its run when one of the searches
/// (columns, diagonal, reverse diagonal, line, in this order) finds a run,
/// else unfinished while a cell is empty, else a draw.
pub open spec fn outcome(g: GridState) -> (GameStatus, Option<Seq<(usize, usize)>>) {
    let sym = g.at(g.last_x, g.last_y);
    if first_run(g, Direction::Column) is Some {
        (GameStatus::Winner(sym), first_run(g, Direction::Column))
    } else if first_run(g, Direction::Diagonal) is Some {
        (GameStatus::Winner(sym), first_run(g, Direction::Diagonal))
    } else if first_run(g, Direction::ReverseDiagonal) is Some {
        (GameStatus::Winner(sym), first_run(g, Direction::ReverseDiagonal))
    } else if first_run(g, Direction::Line) is Some {
        (GameStatus::Winner(sym), first_run(g, Direction::Line))
    } else if exists|i: int| 0 <= i < g.symbols.len() && g.symbols[i] == Symbol::Empty {
        (GameStatus::NotFinished, None)
    } else {
        (GameStatus::Draw, None)
    }
}

proof fn lemma_size_bound(n: int)
    requires
        0 <= n,
        n * n <= usize::MAX,
    ensures
        n <= 0x1_0000_0000,
{
    if n > 0x1_0000_0000 {
        assert(n * n > 0x1_0000_0000 * 0x1_0000_0000) by (nonlinear_arith)
            requires
                n > 0x1_0000_0000,
        ;
    }
}

/// A square tic-tac-toe grid that remembers the last move played.
pub struct Grid {
    symbols: Vec<Symbol>,
    grid_size: usize,
    sym_occs_win: u32,
    last_move: (usize, usize),
}

impl View for Grid {
    type V = GridState;

    closed spec fn view(&self) -> GridState {
        GridState {
            symbols: self.symbols@,
            size: self.grid_size as int,
            win: self.sym_occs_win as int,
            last_x: self.last_move.0 as int,
            last_y: self.last_move.1 as int,
        }
    }
}

impl Grid {
    /// An empty `grid_size` by `grid_size` grid where `sym_occs_win` equal
    /// symbols in a row win.
    pub fn new(grid_size: usize, sym_occs_win: u32) -> (r: Grid)
        requires
            grid_size * grid_size <= usize::MAX,
        ensures
            r@.wf(),
            r@.symbols == Seq::new((grid_size * grid_size) as nat, |i: int| Symbol::Empty),
            r@.size == grid_size,
            r@.win == sym_occs_win,
            r@.last_x == 0,
            r@.last_y == 0,
    {
        let total = grid_size * grid_size;
        let mut symbols: Vec<Symbol> = Vec::with_capacity(total);
        let mut i: usize = 0;
        while i < total
            invariant
                i <= total,
                symbols@ == Seq::new(i as nat, |j: int| Symbol::Empty),
            decreases total - i,
        {
            symbols.push(Symbol::Empty);
            i += 1;
            assert(symbols@ =~= Seq::new(i as nat, |j: int| Symbol::Empty));
        }
        Grid { symbols, grid_size, sym_occs_win, last_move: (0, 0) }
    }

    pub fn grid_size(&self) -> (r: usize)
        ensures
            r == self@.size,
    {
        self.grid_size
    }

    /// The symbol at `(x, y)`; `Empty` off the grid.
    pub fn get_symbol(&self, x: usize, y: usize) -> (r: Symbol)
        requires
            self@.wf(),
        ensures
            r == self@.at(x as int, y as int),
    {
        if x >= self.grid_size || y >= self.grid_size {
            return Symbol::Empty;
        }
        proof {
            assert(x * self@.size + y < self@.size * self@.size) by (nonlinear_arith)
                requires
                    x < self@.size,
                    y < self@.size,
            ;
        }
        self.symbols[x * self.grid_size + y]
    }

    /// Puts `symbol` at `(x, y)`, which becomes the last move.
    pub fn set_symbol(&mut self, x: usize, y: usize, symbol: Symbol)
        requires
            old(self)@.wf(),
            x < old(self)@.size,
            y < old(self)@.size,
        ensures
            final(self)@.wf(),
            final(self)@ == (GridState {
                symbols: old(self)@.symbols.update(x * old(self)@.size + y, symbol),
                last_x: x as int,
                last_y: y as int,
                ..old(self)@
            }),
    {
        proof {
            assert(x * self@.size + y < self@.size * self@.size) by (nonlinear_arith)
                requires
                    x < self@.size,
                    y < self@.size,
            ;
        }
        self.symbols.set(x * self.grid_size + y, symbol);
        self.last_move = (x, y);
    }

    /// Empties the cell at `(x, y)`; the last move is kept.
    pub fn clear_cell(&mut self, x: usize, y: usize)
        requires
            old(self)@.wf(),
            x < old(self)@.size,
            y < old(self)@.size,
        ensures
            final(self)@.wf(),
            final(self)@ == (GridState {
                symbols: old(self)@.symbols.update(x * old(self)@.size + y, Symbol::Empty),
                ..old(self)@
            }),
    {
        proof {
            assert(x * self@.size + y < self@.size * self@.size) by (nonlinear_arith)
                requires
                    x < self@.size,
                    y < self@.size,
            ;
        }
        self.symbols.set(x * self.grid_size + y, Symbol::Empty);
    }

    pub fn is_empty(&self, x: usize, y: usize) -> (r: bool)
        requires
            self@.wf(),
        ensures
            r == (self@.at(x as int, y as int) == Symbol::Empty),
    {
        self.get_symbol(x, y) == Symbol::Empty
    }

    fn collect_matching(&self, sx: i64, sy: i64, dx: i64, dy: i64, len: usize, sym: Symbol) -> (r:
        Vec<(usize, usize)>)
        requires
            self@.wf(),
            -1 <= dx <= 1,
            -1 <= dy <= 1,
            -0x100_0000_0000 <= sx <= 0x100_0000_0000,
            -0x100_0000_0000 <= sy <= 0x100_0000_0000,
            len <= 0x100_0000_0000,
        ensures
            r@ == matching(self@, sx as int, sy as int, dx as int, dy as int, len as nat, sym),
    {
        proof {
            lemma_size_bound(self@.size);
        }
        let n = self.grid_size as i64;
        let mut r: Vec<(usize, usize)> = Vec::new();
        let mut j: usize = 0;
        let mut tx = sx;
        let mut ty = sy;
        while j < len
            invariant
                self@.wf(),
                n == self@.size,
                n <= 0x1_0000_0000,
                -1 <= dx <= 1,
                -1 <= dy <= 1,
                -0x100_0000_0000 <= sx <= 0x100_0000_0000,
                -0x100_0000_0000 <= sy <= 0x100_0000_0000,
                len <= 0x100_0000_0000,
                j <= len,
                tx == sx + step(dx as int, j as int),
                ty == sy + step(dy as int, j as int),
                r@ == matching(self@, sx as int, sy as int, dx as int, dy as int, j as nat, sym),
            decreases len - j,
        {
            if tx >= 0 && ty >= 0 {
                let cell = if tx < n && ty < n {
                    self.get_symbol(tx as usize, ty as usize)
                } else {
                    Symbol::Empty
                };
                if cell == sym {
                    r.push((tx as usize, ty as usize));
                }
            }
            tx = tx + dx;
            ty = ty + dy;
            j += 1;
        }
        r
    }

    fn first_run_in(&self, d: Direction) -> (r: Option<Vec<(usize, usize)>>)
        requires
            self@.wf(),
        ensures
            view_cells(r) == first_run(self@, d),
    {
        proof {
            lemma_size_bound(self@.size);
        }
        let (x, y) = self.last_move;
        let sym = self.get_symbol(x, y);
        let n = self.grid_size;
        let k = self.sym_occs_win as i64;
        let xi = x as i64;
        let yi = y as i64;
        let mut i: usize = 0;
        while i < n
            invariant
                self@.wf(),
                n == self@.size,
                n <= 0x1_0000_0000,
                k == self@.win,
                xi == self@.last_x,
                yi == self@.last_y,
                sym == self@.at(self@.last_x, self@.last_y),
                i <= n,
                first_run_from(self@, d, i as int) == first_run(self@, d),
            decreases n - i,
        {
            let ii = i as i64;
            let (sx, sy, dx, dy, len) = match d {
                Direction::Line => (xi - k + 1 + ii, yi, 1i64, 0i64, k as usize),
                Direction::Column => (xi, yi - k + 1 + ii, 0i64, 1i64, k as usize),
                Direction::Diagonal => (xi - k + 1 + ii, yi - k + 1 + ii, 1i64, 1i64, n),
                Direction::ReverseDiagonal => (xi + k - 1 - ii, yi - k + 1 + ii, -1i64, 1i64, n),
            };
            let cells = self.collect_matching(sx, sy, dx, dy, len, sym);
            if cells.len() == k as usize {
                return Some(cells);
            }
            i += 1;
        }
        None
    }

    pub fn check_line(&self) -> (r: Option<Vec<(usize, usize)>>)
        requires
            self@.wf(),
        ensures
            view_cells(r) == first_run(self@, Direction::Line),
    {
        self.first_run_in(Direction::Line)
    }

    pub fn check_cols(&self) -> (r: Option<Vec<(usize, usize)>>)
        requires
            self@.wf(),
        ensures
            view_cells(r) == first_run(self@, Direction::Column),
    {
        self.first_run_in(Direction::Column)
    }

    pub fn check_diag(&self) -> (r: Option<Vec<(usize, usize)>>)
        requires
            self@.wf(),
        ensures
            view_cells(r) == first_run(self@, Direction::Diagonal),
    {
        self.first_run_in(Direction::Diagonal)
    }

    pub fn check_diag_rev(&self) -> (r: Option<Vec<(usize, usize)>>)
        requires
            self@.wf(),
        ensures
            view_cells(r) == first_run(self@, Direction::ReverseDiagonal),
    {
        self.first_run_in(Direction::ReverseDiagonal)
    }

    /// The status of the game and, when there is a winner, the cells of the
    /// winning run.
    pub fn get_winner(&self) -> (r: (GameStatus, Option<Vec<(usize, usize)>>))
        requires
            self@.wf(),
        ensures
            (r.0, view_cells(r.1)) == outcome(self@),
    {
        let (x, y) = self.last_move;
        let sym = self.get_symbol(x, y);
        let v = self.check_cols();
        if v.is_some() {
            return (GameStatus::Winner(sym), v);
        }
        let v = self.check_diag();
        if v.is_some() {
            return (GameStatus::Winner(sym), v);
        }
        let v = self.check_diag_rev();
        if v.is_some() {
            return (GameStatus::Winner(sym), v);
        }
        let v = self.check_line();
        if v.is_some() {
            return (GameStatus::Winner(sym), v);
        }
        let mut i: usize = 0;
        while i < self.symbols.len()
            invariant
                i <= self.symbols@.len(),
                forall|j: int| 0 <= j < i ==> self.symbols@[j] != Symbol::Empty,
                first_run(self@, Direction::Column) is None,
                first_run(self@, Direction::Diagonal) is None,
                first_run(self@, Direction::ReverseDiagonal) is None,
                first_run(self@, Direction::Line) is None,
            decreases self.symbols@.len() - i,
        {
            if self.symbols[i] == Symbol::Empty {
                assert(self@.symbols[i as int] == Symbol::Empty);
                return (GameStatus::NotFinished, None);
            }
            i += 1;
        }
        (GameStatus::Draw, None)
    }
}

} // verus!
