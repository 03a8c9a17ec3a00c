//! The tic-tac-toe rules: a board of nine panes, lines of three, and an
//! engine that takes the players' actions in turn.
use vstd::prelude::*;

use crate::domain::UserId;
use crate::ttt::{TttAction, TttActionResult, TttMove, TttSign, TttUsers};

verus! {

/// One square of the board.
#[derive(Debug, Clone, Copy, PartialEq, Eq, Structural)]
pub enum Pane {
    X,
    O,
    Empty,
}

/// The side that holds a full line.
#[derive(Debug, Clone, Copy, PartialEq, Eq, Structural)]
pub enum FullMatch {
    Xs,
    Os,
}

/// How a game ends.
#[derive(Debug, Clone, Copy, PartialEq, Eq, Structural)]
pub enum FinalResult {
    XsWin,
    OsWin,
    Draw,
}

/// The two diagonals of the board.
#[derive(Debug, Clone, Copy, PartialEq, Eq, Structural)]
pub enum Diagonal {
    TopRightLeftBottom,
    BottomRightLeftTop,
}

/// A pending offer of a draw, and who made it.
#[derive(Debug, Clone, Copy, PartialEq, Eq, Structural)]
pub enum TttEvent {
    WantDraw(UserId),
    Silence,
}

/// Index of a pane on the board; the first coordinate counts threes.
pub open spec fn pane_index(a: int, b: int) -> int {
    a * 3 + b
}

pub fn get_pane(col: u8, row: u8) -> (r: u8)
    requires
        col < 3,
        row < 3,
    ensures
        r as int == pane_index(col as int, row as int),
        r < 9,
{
    col * 3 + row
}

/// Which side, if any, holds all three panes.
pub open spec fn line_match(a: Pane, b: Pane, c: Pane) -> Option<FullMatch> {
    if a == b && b == c {
        match a {
            Pane::X => Some(FullMatch::Xs),
            Pane::O => Some(FullMatch::Os),
            Pane::Empty => None,
        }
    } else {
        None
    }
}

/// Which side holds a full line of three panes.
pub fn full_check(panes: &[Pane; 3]) -> (r: Option<FullMatch>)
    ensures
        r == line_match(panes[0], panes[1], panes[2]),
{
    if panes[0] == panes[1] && panes[1] == panes[2] {
        match panes[0] {
            Pane::X => Some(FullMatch::Xs),
            Pane::O => Some(FullMatch::Os),
            Pane::Empty => None,
        }
    } else {
        None
    }
}

pub open spec fn triple(b: Seq<Pane>, i: int, j: int, k: int) -> Option<FullMatch> {
    line_match(b[i], b[j], b[k])
}

/// The line whose second coordinate is `r`.
pub open spec fn row_match(b: Seq<Pane>, r: int) -> Option<FullMatch> {
    triple(b, pane_index(0, r), pane_index(1, r), pane_index(2, r))
}

/// The line whose first coordinate is `c`.
pub open spec fn column_match(b: Seq<Pane>, c: int) -> Option<FullMatch> {
    triple(b, pane_index(c, 0), pane_index(c, 1), pane_index(c, 2))
}

pub open spec fn diagonal_match(b: Seq<Pane>, d: Diagonal) -> Option<FullMatch> {
    match d {
        Diagonal::TopRightLeftBottom => triple(
            b,
            pane_index(0, 0),
            pane_index(1, 1),
            pane_index(2, 2),
        ),
        Diagonal::BottomRightLeftTop => triple(
            b,
            pane_index(0, 2),
            pane_index(1, 1),
            pane_index(2, 0),
        ),
    }
}

pub open spec fn or_else(a: Option<FullMatch>, b: Option<FullMatch>) -> Option<FullMatch> {
    if a is Some {
        a
    } else {
        b
    }
}

/// The first full line, looking at rows and columns by turns, then at the
/// diagonals.
pub open spec fn first_full_line(b: Seq<Pane>) -> Option<FullMatch> {
    or_else(
        row_match(b, 0),
        or_else(
            column_match(b, 0),
            or_else(
                row_match(b, 1),
                or_else(
                    column_match(b, 1),
                    or_else(
                        row_match(b, 2),
                        or_else(
                            column_match(b, 2),
                            or_else(
                                diagonal_match(b, Diagonal::TopRightLeftBottom),
                                diagonal_match(b, Diagonal::BottomRightLeftTop),
                            ),
                        ),
                    ),
                ),
            ),
        ),
    )
}

/// Every pane holds a mark.
pub open spec fn is_full(b: Seq<Pane>) -> bool {
    forall|i: int| 0 <= i < b.len() ==> b[i] != Pane::Empty
}

/// How the game on board `b` has ended, if it has.
pub open spec fn final_of(b: Seq<Pane>) -> Option<FinalResult> {
    match first_full_line(b) {
        Some(FullMatch::Xs) => Some(FinalResult::XsWin),
        Some(FullMatch::Os) => Some(FinalResult::OsWin),
        None => if is_full(b) {
            Some(FinalResult::Draw)
        } else {
            None
        },
    }
}

pub open spec fn sign_pane(s: TttSign) -> Pane {
    match s {
        TttSign::Xs => Pane::X,
        TttSign::Os => Pane::O,
    }
}

/// Whether `m` is on the board.
pub open spec fn on_board(m: TttMove) -> bool {
    m.col < 3 && m.row < 3
}

/// The pane that a move marks.
pub open spec fn move_index(m: TttMove) -> int {
    pane_index(m.row as int, m.col as int)
}

/// The nine panes, all empty at the start.
pub struct TttBoard {
    board: [Pane; 9],
}

impl View for TttBoard {
    type V = Seq<Pane>;

    closed spec fn view(&self) -> Seq<Pane> {
        self.board@
    }
}

impl TttBoard {
    pub fn new() -> (r: TttBoard)
        ensures
            r@ == Seq::new(9, |i: int| Pane::Empty),
    {
        let r = TttBoard {
            board: [
                Pane::Empty,
                Pane::Empty,
                Pane::Empty,
                Pane::Empty,
                Pane::Empty,
                Pane::Empty,
                Pane::Empty,
                Pane::Empty,
                Pane::Empty,
            ],
        };
        assert(r@ =~= Seq::new(9, |i: int| Pane::Empty));
        r
    }

    /// Marks the pane of `ttt_move` for `sign`, if it is on the board and empty.
    pub fn make_move(&mut self, ttt_move: &TttMove, sign: TttSign) -> (r: bool)
        ensures
            r == (on_board(*ttt_move) && old(self)@[move_index(*ttt_move)] == Pane::Empty),
            r ==> final(self)@ == old(self)@.update(move_index(*ttt_move), sign_pane(sign)),
            !r ==> final(self)@ == old(self)@,
    {
        if ttt_move.col >= 3 || ttt_move.row >= 3 {
            return false;
        }
        let pane = get_pane(ttt_move.row, ttt_move.col) as usize;
        match self.board[pane] {
            Pane::Empty => {
                let mark = if sign == TttSign::Xs {
                    Pane::X
                } else {
                    Pane::O
                };
                self.board[pane] = mark;
                assert(self@ =~= old(self)@.update(move_index(*ttt_move), sign_pane(sign)));
                true
            },
            _ => false,
        }
    }

    /// Whether `ttt_move` is on the board and its pane is empty.
    pub fn is_free(&self, ttt_move: &TttMove) -> (r: bool)
        ensures
            r == (on_board(*ttt_move) && self@[move_index(*ttt_move)] == Pane::Empty),
    {
        if ttt_move.col >= 3 || ttt_move.row >= 3 {
            return false;
        }
        let pane = get_pane(ttt_move.row, ttt_move.col) as usize;
        self.board[pane] == Pane::Empty
    }

    /// Whether every pane holds a mark.
    pub fn full_board(&self) -> (r: bool)
        ensures
            r == is_full(self@),
    {
        let mut counter: usize = 0;
        let mut i: usize = 0;
        while i < 9
            invariant
                i <= 9,
                self.board@.len() == 9,
                counter <= i,
                counter == i <==> (forall|j: int| 0 <= j < i ==> self.board@[j] != Pane::Empty),
            decreases 9 - i,
        {
            match self.board[i] {
                Pane::X | Pane::O => counter = counter + 1,
                Pane::Empty => {},
            }
            i = i + 1;
        }
        counter == 9
    }

    /// The panes at three indices.
    pub fn extract_triple(&self, i: usize, j: usize, k: usize) -> (r: [Pane; 3])
        requires
            i < 9,
            j < 9,
            k < 9,
        ensures
            r[0] == self@[i as int],
            r[1] == self@[j as int],
            r[2] == self@[k as int],
    {
        [self.board[i], self.board[j], self.board[k]]
    }

    pub fn detect_full_row(&self, row: u8) -> (r: Option<FullMatch>)
        requires
            row < 3,
        ensures
            r == row_match(self@, row as int),
    {
        let panes = self.extract_triple(
            get_pane(0, row) as usize,
            get_pane(1, row) as usize,
            get_pane(2, row) as usize,
        );
        full_check(&panes)
    }

    pub fn detect_full_column(&self, col: u8) -> (r: Option<FullMatch>)
        requires
            col < 3,
        ensures
            r == column_match(self@, col as int),
    {
        let panes = self.extract_triple(
            get_pane(col, 0) as usize,
            get_pane(col, 1) as usize,
            get_pane(col, 2) as usize,
        );
        full_check(&panes)
    }

    pub fn detect_full_diagonal(&self, diagonal: Diagonal) -> (r: Option<FullMatch>)
        ensures
            r == diagonal_match(self@, diagonal),
    {
        let panes = match diagonal {
            Diagonal::TopRightLeftBottom => self.extract_triple(
                get_pane(0, 0) as usize,
                get_pane(1, 1) as usize,
                get_pane(2, 2) as usize,
            ),
            Diagonal::BottomRightLeftTop => self.extract_triple(
                get_pane(0, 2) as usize,
                get_pane(1, 1) as usize,
                get_pane(2, 0) as usize,
            ),
        };
        full_check(&panes)
    }

    /// How the game on this board has ended, if it has.
    pub fn detect_final(&self) -> (r: Option<FinalResult>)
        ensures
            r == final_of(self@),
    {
        // rows and columns by turns, then the diagonals
        let mut found = self.detect_full_row(0);
        if found.is_none() {
            found = self.detect_full_column(0);
        }
        if found.is_none() {
            found = self.detect_full_row(1);
        }
        if found.is_none() {
            found = self.detect_full_column(1);
        }
        if found.is_none() {
            found = self.detect_full_row(2);
        }
        if found.is_none() {
            found = self.detect_full_column(2);
        }
        if found.is_none() {
            found = self.detect_full_diagonal(Diagonal::TopRightLeftBottom);
        }
        if found.is_none() {
            found = self.detect_full_diagonal(Diagonal::BottomRightLeftTop);
        }
        assert(found == first_full_line(self@));
        match found {
            Some(FullMatch::Xs) => Some(FinalResult::XsWin),
            Some(FullMatch::Os) => Some(FinalResult::OsWin),
            None => if self.full_board() {
                Some(FinalResult::Draw)
            } else {
                None
            },
        }
    }
}

/// What an engine holds, as values: the players, whose turn it is, the
/// board, and a pending offer of a draw.
pub struct EngineModel {
    pub players: TttUsers,
    pub current: UserId,
    pub board: Seq<Pane>,
    pub event: TttEvent,
}

impl EngineModel {
    /// The board has nine panes, and the turn is one of the two players'.
    pub open spec fn wf(self) -> bool {
        &&& self.board.len() == 9
        &&& (self.current == self.players.0 || self.current == self.players.1)
    }

    pub open spec fn with_board(self, board: Seq<Pane>) -> EngineModel {
        EngineModel { players: self.players, current: self.current, board, event: self.event }
    }

    pub open spec fn with_current(self, current: UserId) -> EngineModel {
        EngineModel { players: self.players, current, board: self.board, event: self.event }
    }

    pub open spec fn with_event(self, event: TttEvent) -> EngineModel {
        EngineModel { players: self.players, current: self.current, board: self.board, event }
    }
}

/// The engine of a new game between `users`; the first of them moves first.
pub open spec fn engine_start(users: TttUsers) -> EngineModel {
    EngineModel {
        players: users,
        current: users.0,
        board: Seq::new(9, |i: int| Pane::Empty),
        event: TttEvent::Silence,
    }
}

/// The side that `u` plays: crosses for the first player.
pub open spec fn sign_of(m: EngineModel, u: UserId) -> TttSign {
    if u == m.players.0 {
        TttSign::Xs
    } else {
        TttSign::Os
    }
}

/// A move by `u`, whose turn it is.
pub open spec fn move_step(m: EngineModel, u: UserId, mv: TttMove) -> (EngineModel, TttActionResult) {
    if on_board(mv) && m.board[move_index(mv)] == Pane::Empty {
        let board = m.board.update(move_index(mv), sign_pane(sign_of(m, u)));
        let r = match final_of(board) {
            Some(FinalResult::XsWin) => TttActionResult::Win(m.players.0),
            Some(FinalResult::OsWin) => TttActionResult::Win(m.players.1),
            Some(FinalResult::Draw) => TttActionResult::Draw,
            None => TttActionResult::Action(TttAction::Move(mv)),
        };
        (m.with_board(board), r)
    } else {
        (m, TttActionResult::ImpossibleAction)
    }
}

/// Accepting a draw: only the player that a draw was offered to can.
pub open spec fn apply_draw_result(m: EngineModel, u: UserId) -> TttActionResult {
    match m.event {
        TttEvent::WantDraw(proposing) => if u == m.players.other(proposing) {
            TttActionResult::Draw
        } else {
            TttActionResult::ImpossibleAction
        },
        TttEvent::Silence => TttActionResult::ImpossibleAction,
    }
}

/// An action by `u`, whose turn it is, before the turn passes.
pub open spec fn action_step(m: EngineModel, u: UserId, a: TttAction) -> (EngineModel, TttActionResult) {
    match a {
        TttAction::Move(mv) => move_step(m, u, mv),
        TttAction::Surrender => (m, TttActionResult::Win(m.players.other(u))),
        TttAction::ProposeDraw => (
            m.with_event(TttEvent::WantDraw(u)),
            TttActionResult::Action(TttAction::ProposeDraw),
        ),
        TttAction::ApplyDraw => (m, apply_draw_result(m, u)),
    }
}

/// What the engine makes of action `a` by user `u`: out of turn, or refused,
/// nothing changes; otherwise the action is applied and the turn passes to
/// the other player.
pub open spec fn react_step(m: EngineModel, u: UserId, a: TttAction) -> (EngineModel, TttActionResult) {
    if u != m.current {
        (m, TttActionResult::ImpossibleAction)
    } else {
        let (m1, r) = action_step(m, u, a);
        if r == TttActionResult::ImpossibleAction {
            (m, r)
        } else {
            (m1.with_current(m.players.other(u)), r)
        }
    }
}

/// Why the engine refuses an action.
#[derive(Debug, Clone, Copy, PartialEq, Eq, Structural)]
pub enum HandleActionError {
    /// It is the other player's turn.
    WrongTurn,
    /// The move is off the board or onto a marked pane, or no draw was
    /// offered to the player who accepts one.
    InvalidAction,
    /// The user is not a player of this game.
    InvalidUser,
}

/// Why action `a` of `u` is refused, if it is.
pub open spec fn refusal_of(m: EngineModel, u: UserId, a: TttAction) -> Option<HandleActionError> {
    if u != m.players.0 && u != m.players.1 {
        Some(HandleActionError::InvalidUser)
    } else if u != m.current {
        Some(HandleActionError::WrongTurn)
    } else if action_step(m, u, a).1 == TttActionResult::ImpossibleAction {
        Some(HandleActionError::InvalidAction)
    } else {
        None
    }
}

/// One game of tic-tac-toe; it owns whose turn it is.
pub struct TttEngine {
    players: TttUsers,
    current_player: UserId,
    board: TttBoard,
    event: TttEvent,
}

impl View for TttEngine {
    type V = EngineModel;

    closed spec fn view(&self) -> EngineModel {
        EngineModel {
            players: self.players,
            current: self.current_player,
            board: self.board@,
            event: self.event,
        }
    }
}

impl TttEngine {
    pub fn for_users(users: TttUsers) -> (r: TttEngine)
        ensures
            r@ == engine_start(users),
            r@.wf(),
    {
        let r = TttEngine {
            current_player: users.0,
            players: users,
            board: TttBoard::new(),
            event: TttEvent::Silence,
        };
        assert(r@.board =~= engine_start(users).board);
        r
    }

    /// The player whose turn it is.
    pub fn current_player(&self) -> (r: UserId)
        ensures
            r == self@.current,
    {
        self.current_player
    }

    /// Why the action `action` of `user_id` would be refused, if it would.
    pub fn check_action(&self, user_id: UserId, action: TttAction) -> (r: Option<HandleActionError>)
        requires
            self@.wf(),
        ensures
            r == refusal_of(self@, user_id, action),
            r is None <==> react_step(self@, user_id, action).1 != TttActionResult::ImpossibleAction,
    {
        if !self.players.contains(user_id) {
            return Some(HandleActionError::InvalidUser);
        }
        if user_id != self.current_player {
            return Some(HandleActionError::WrongTurn);
        }
        let allowed = match action {
            TttAction::Move(ttt_move) => self.board.is_free(&ttt_move),
            TttAction::Surrender => true,
            TttAction::ProposeDraw => true,
            TttAction::ApplyDraw => self.apply_draw(user_id) == TttActionResult::Draw,
        };
        if allowed {
            None
        } else {
            Some(HandleActionError::InvalidAction)
        }
    }

    /// Applies action `action` of `user_id`, if it is their turn and the
    /// action is allowed, and passes the turn on.
    pub fn react(&mut self, user_id: UserId, action: TttAction) -> (r: TttActionResult)
        requires
            old(self)@.wf(),
        ensures
            final(self)@.wf(),
            (final(self)@, r) == react_step(old(self)@, user_id, action),
    {
        if self.check_action(user_id, action).is_some() {
            return TttActionResult::ImpossibleAction;
        }
        let result = match action {
            TttAction::Move(ttt_move) => self.handle_move(user_id, ttt_move),
            TttAction::Surrender => self.surrender(user_id),
            TttAction::ProposeDraw => self.propose_draw(user_id),
            TttAction::ApplyDraw => self.apply_draw(user_id),
        };
        self.current_player = self.players.next(self.current_player);
        result
    }

    fn handle_move(&mut self, user_id: UserId, ttt_move: TttMove) -> (r: TttActionResult)
        requires
            old(self)@.wf(),
        ensures
            final(self)@.wf(),
            (final(self)@, r) == move_step(old(self)@, user_id, ttt_move),
    {
        let sign = if user_id == self.players.first() {
            TttSign::Xs
        } else {
            TttSign::Os
        };
        if self.board.make_move(&ttt_move, sign) {
            match self.board.detect_final() {
                Some(FinalResult::XsWin) => TttActionResult::Win(self.players.first()),
                Some(FinalResult::OsWin) => TttActionResult::Win(self.players.second()),
                Some(FinalResult::Draw) => TttActionResult::Draw,
                None => TttActionResult::Action(TttAction::Move(ttt_move)),
            }
        } else {
            TttActionResult::ImpossibleAction
        }
    }

    fn surrender(&self, user_id: UserId) -> (r: TttActionResult)
        ensures
            r == TttActionResult::Win(self@.players.other(user_id)),
    {
        let winner = self.players.next(user_id);
        TttActionResult::Win(winner)
    }

    fn propose_draw(&mut self, user_id: UserId) -> (r: TttActionResult)
        ensures
            final(self)@ == old(self)@.with_event(TttEvent::WantDraw(user_id)),
            r == TttActionResult::Action(TttAction::ProposeDraw),
    {
        self.event = TttEvent::WantDraw(user_id);
        TttActionResult::Action(TttAction::ProposeDraw)
    }

    fn apply_draw(&self, user_id: UserId) -> (r: TttActionResult)
        ensures
            r == apply_draw_result(self@, user_id),
    {
        if let TttEvent::WantDraw(proposing) = self.event {
            if user_id == self.players.next(proposing) {
                TttActionResult::Draw
            } else {
                TttActionResult::ImpossibleAction
            }
        } else {
            TttActionResult::ImpossibleAction
        }
    }
}

} // verus!
