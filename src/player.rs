use vstd::prelude::*;

use crate::grid::{GameStatus, Grid, GridState, Symbol};

verus! {

/// Who plays a side.
#[derive(Copy, Clone, Debug, PartialEq, Eq, Structural)]
pub enum PlayerType {
    Human,
    AI,
}

impl PlayerType {
    /// The name shown for this kind of player.
    pub fn name(&self) -> (r: &'static str)
        ensures
            *self == PlayerType::Human ==> r@ == "Human"@,
            *self == PlayerType::AI ==> r@ == "AI"@,
    {
        match self {
            PlayerType::Human => "Human",
            PlayerType::AI => "AI",
        }
    }
}

/// What every player has: whether it may play now, and its symbol.
#[derive(Copy, Clone, Debug)]
pub struct PlayerProps {
    pub can_play: bool,
    pub symbol: Symbol,
}

impl PlayerProps {
    pub fn new() -> (r: PlayerProps)
        ensures
            !r.can_play,
            r.symbol == Symbol::Empty,
    {
        PlayerProps { can_play: false, symbol: Symbol::Empty }
    }
}

/// A pointer event, as far as a human player reads it.
#[derive(Copy, Clone, Debug, PartialEq, Eq, Structural)]
pub enum MouseEvent {
    /// A button was released at `(x, y)`; `left` tells whether it was the
    /// left button.
    ButtonReleased { left: bool, x: i32, y: i32 },
    /// Any other event.
    Other,
}

/// A player who clicks on the grid.
pub struct HumanPlayer {
    mouse_position: (i32, i32),
    mouse_pressed: bool,
    props: PlayerProps,
}

impl HumanPlayer {
    pub fn new() -> (r: HumanPlayer)
        ensures
            !r.props().can_play && r.props().symbol == Symbol::Empty,
            r.last_click() == None::<(i32, i32)>,
    {
        HumanPlayer { mouse_position: (0, 0), mouse_pressed: false, props: PlayerProps::new() }
    }

    pub closed spec fn props(&self) -> PlayerProps {
        self.props
    }

    /// The position of the last left click not yet dropped.
    pub closed spec fn last_click(&self) -> Option<(i32, i32)> {
        if self.mouse_pressed {
            Some(self.mouse_position)
        } else {
            None
        }
    }

    /// The click this player will play, if it may play and clicked.
    pub open spec fn pending_click(&self) -> Option<(i32, i32)> {
        if self.props().can_play {
            self.last_click()
        } else {
            None
        }
    }

    /// Records a release of the left button as a click; a release of
    /// another button changes nothing, and any other event drops the click.
    pub fn on_event(&mut self, event: MouseEvent)
        ensures
            final(self).props() == old(self).props(),
            final(self).last_click() == (match event {
                MouseEvent::ButtonReleased { left, x, y } => if left {
                    Some((x, y))
                } else {
                    old(self).last_click()
                },
                MouseEvent::Other => None,
            }),
    {
        match event {
            MouseEvent::ButtonReleased { left, x, y } => {
                if left {
                    self.mouse_position = (x, y);
                    self.mouse_pressed = true;
                }
            },
            MouseEvent::Other => {
                self.mouse_pressed = false;
            },
        }
    }

    pub fn allow(&mut self)
        ensures
            final(self).props() == (PlayerProps { can_play: true, ..old(self).props() }),
            final(self).last_click() == old(self).last_click(),
    {
        self.props.can_play = true;
    }

    /// Takes the turn away, and drops a pending click.
    pub fn forbid(&mut self)
        ensures
            final(self).props() == (PlayerProps { can_play: false, ..old(self).props() }),
            final(self).last_click() == None::<(i32, i32)>,
    {
        self.props.can_play = false;
        self.mouse_pressed = false;
    }

    pub fn set_symbol(&mut self, symbol: Symbol)
        ensures
            final(self).props() == (PlayerProps { symbol, ..old(self).props() }),
            final(self).last_click() == old(self).last_click(),
    {
        self.props.symbol = symbol;
    }

    /// Where this player clicked, when it may play and has clicked; the front
    /// end turns the position into a cell.
    pub fn click(&self) -> (r: Option<(i32, i32)>)
        ensures
            r == self.pending_click(),
    {
        if self.props.can_play && self.mouse_pressed {
            Some(self.mouse_position)
        } else {
            None
        }
    }
}

/// Whether `(x, y)` is an empty cell of the grid.
pub open spec fn empty_cell(g: GridState, x: int, y: int) -> bool {
    0 <= x < g.size && 0 <= y < g.size && g.at(x, y) == Symbol::Empty
}

/// Whether `g2` holds the same cells as `g1`; the last move may differ.
pub open spec fn same_cells(g1: GridState, g2: GridState) -> bool {
    g2.wf() && g2.symbols == g1.symbols && g2.size == g1.size && g2.win == g1.win
}

/// A computer player that searches moves with depth-limited minimax and
/// alpha-beta pruning.
pub struct MiniMaxAI {
    props: PlayerProps,
    minimax_max_depth: i32,
    max_cells_test: u32,
}

impl MiniMaxAI {
    #[verifier::type_invariant]
    spec fn search_bounds(self) -> bool {
        0 <= self.minimax_max_depth <= 5 && self.max_cells_test < 1000
    }

    pub closed spec fn props(&self) -> PlayerProps {
        self.props
    }

    /// A player that looks five moves ahead and tries at most sixteen cells
    /// per position.
    pub fn new() -> (r: MiniMaxAI)
        ensures
            !r.props().can_play && r.props().symbol == Symbol::Empty,
    {
        MiniMaxAI { props: PlayerProps::new(), minimax_max_depth: 5, max_cells_test: 16 }
    }

    pub fn allow(&mut self)
        ensures
            final(self).props() == (PlayerProps { can_play: true, ..old(self).props() }),
    {
        proof {
            use_type_invariant(&*self);
        }
        self.props.can_play = true;
    }

    pub fn forbid(&mut self)
        ensures
            final(self).props() == (PlayerProps { can_play: false, ..old(self).props() }),
    {
        proof {
            use_type_invariant(&*self);
        }
        self.props.can_play = false;
    }

    pub fn set_symbol(&mut self, symbol: Symbol)
        ensures
            final(self).props() == (PlayerProps { symbol, ..old(self).props() }),
    {
        proof {
            use_type_invariant(&*self);
        }
        self.props.symbol = symbol;
    }

    /// The score of the position for this player, searching `depth` moves
    /// deep so far; the cells are left as they were.
    fn minimax(
        &self,
        opp_sym: Symbol,
        winning_score: i32,
        loosing_score: i32,
        depth: i32,
        grid: &mut Grid,
        is_max: bool,
        alpha: i32,
        beta: i32,
    ) -> (r: i32)
        requires
            old(grid)@.wf(),
            0 <= depth,
            -50 <= loosing_score <= 50,
            -50 <= winning_score <= 50,
        ensures
            same_cells(old(grid)@, final(grid)@),
            -100 <= r <= 100,
        decreases 5 - depth,
    {
        proof {
            use_type_invariant(self);
        }
        let (status, _) = grid.get_winner();
        if let GameStatus::Winner(sym) = status {
            if sym == self.props.symbol {
                return winning_score - if depth < 50 { depth } else { 50 };
            } else {
                return loosing_score + if depth < 50 { depth } else { 50 };
            }
        }
        if status == GameStatus::Draw {
            return 0;
        }
        if depth >= self.minimax_max_depth {
            return (winning_score - loosing_score) / 2;
        }
        let mut alpha = alpha;
        let mut beta = beta;
        let n = grid.grid_size();
        let ghost g0 = grid@;
        let mut best: i32 = if is_max { -100 } else { 100 };
        let mut tested_cells: u32 = 0;
        let mut x: usize = 0;
        while x < n
            invariant
                same_cells(g0, grid@),
                g0 == old(grid)@,
                n == g0.size,
                0 <= depth < self.minimax_max_depth <= 5,
                self.max_cells_test < 1000,
                -50 <= loosing_score <= 50,
                -50 <= winning_score <= 50,
                -100 <= best <= 100,
                tested_cells <= self.max_cells_test,
            decreases n - x,
        {
            let mut y: usize = 0;
            while y < n
                invariant
                    same_cells(g0, grid@),
                    g0 == old(grid)@,
                    n == g0.size,
                    x < n,
                    0 <= depth < self.minimax_max_depth <= 5,
                    self.max_cells_test < 1000,
                    -50 <= loosing_score <= 50,
                    -50 <= winning_score <= 50,
                    -100 <= best <= 100,
                    tested_cells <= self.max_cells_test,
                decreases n - y,
            {
                if grid.is_empty(x, y) {
                    let sym = if is_max { self.props.symbol } else { opp_sym };
                    grid.set_symbol(x, y, sym);
                    let score = self.minimax(
                        opp_sym,
                        winning_score,
                        loosing_score,
                        depth + 1,
                        grid,
                        !is_max,
                        alpha,
                        beta,
                    );
                    grid.clear_cell(x, y);
                    proof {
                        assert(x * n + y < n * n) by (nonlinear_arith)
                            requires
                                x < n,
                                y < n,
                        ;
                        assert(g0.symbols[x * n + y] == Symbol::Empty);
                        assert(grid@.symbols =~= g0.symbols);
                    }
                    if is_max {
                        if score > best {
                            best = score;
                        }
                    } else {
                        if score < best {
                            best = score;
                        }
                    }
                    tested_cells += 1;
                    if tested_cells > self.max_cells_test {
                        return best;
                    }
                    if is_max {
                        if best > alpha {
                            alpha = best;
                        }
                    } else {
                        if best < beta {
                            beta = best;
                        }
                    }
                    if beta <= alpha {
                        return best;
                    }
                }
                y += 1;
            }
            x += 1;
        }
        best
    }

    /// The empty cell with the best minimax score for this player, the first
    /// one in scan order among equals; `(0, 0)` on a full grid.
    pub fn get_best_move(&self, grid: &mut Grid) -> (r: (usize, usize))
        requires
            old(grid)@.wf(),
            self.props().symbol == Symbol::X || self.props().symbol == Symbol::O,
        ensures
            same_cells(old(grid)@, final(grid)@),
            (exists|x: int, y: int| empty_cell(old(grid)@, x, y)) ==> empty_cell(
                old(grid)@,
                r.0 as int,
                r.1 as int,
            ),
            !(exists|x: int, y: int| empty_cell(old(grid)@, x, y)) ==> r == (0usize, 0usize),
    {
        let mut best = i32::MIN;
        let mut res: (usize, usize) = (0, 0);
        let opp_sym = match self.props.symbol {
            Symbol::X => Symbol::O,
            _ => Symbol::X,
        };
        let n = grid.grid_size();
        let ghost g0 = grid@;
        let mut x: usize = 0;
        while x < n
            invariant
                same_cells(g0, grid@),
                g0 == old(grid)@,
                n == g0.size,
                x <= n,
                best == i32::MIN ==> res == (0usize, 0usize) && forall|i: int, j: int|
                    0 <= i < x && 0 <= j < n ==> !empty_cell(g0, i, j),
                best != i32::MIN ==> empty_cell(g0, res.0 as int, res.1 as int),
            decreases n - x,
        {
            let mut y: usize = 0;
            while y < n
                invariant
                    same_cells(g0, grid@),
                    g0 == old(grid)@,
                    n == g0.size,
                    x < n,
                    y <= n,
                    best == i32::MIN ==> res == (0usize, 0usize) && (forall|i: int, j: int|
                        0 <= i < x && 0 <= j < n ==> !empty_cell(g0, i, j)) && (forall|j: int|
                        0 <= j < y ==> !empty_cell(g0, x as int, j)),
                    best != i32::MIN ==> empty_cell(g0, res.0 as int, res.1 as int),
                decreases n - y,
            {
                if grid.is_empty(x, y) {
                    grid.set_symbol(x, y, self.props.symbol);
                    let score = self.minimax(opp_sym, 10, -10, 0, grid, false, -100, 100);
                    grid.clear_cell(x, y);
                    proof {
                        assert(x * n + y < n * n) by (nonlinear_arith)
                            requires
                                x < n,
                                y < n,
                        ;
                        assert(g0.symbols[x * n + y] == Symbol::Empty);
                        assert(grid@.symbols =~= g0.symbols);
                    }
                    if score > best {
                        best = score;
                        res = (x, y);
                    }
                }
                y += 1;
            }
            x += 1;
        }
        res
    }

    /// Plays the best move for this player's symbol, when it may play.
    pub fn play(&self, grid: &mut Grid) -> (r: bool)
        requires
            old(grid)@.wf(),
            self.props().symbol == Symbol::X || self.props().symbol == Symbol::O,
        ensures
            final(grid)@.wf(),
            r == self.props().can_play,
            !r ==> final(grid)@ == old(grid)@,
            r && (exists|x: int, y: int| empty_cell(old(grid)@, x, y)) ==> exists|x: int, y: int|
                empty_cell(old(grid)@, x, y) && final(grid)@.symbols == old(grid)@.symbols.update(
                    x * old(grid)@.size + y,
                    self.props().symbol,
                ),
    {
        if !self.props.can_play {
            return false;
        }
        let (x, y) = self.get_best_move(grid);
        if x < grid.grid_size() && y < grid.grid_size() {
            grid.set_symbol(x, y, self.props.symbol);
        }
        true
    }
}

} // verus!
