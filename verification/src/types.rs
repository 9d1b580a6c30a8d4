//! Shared value types: players, cards, positions, phases, outcomes, errors.

use vstd::prelude::*;

verus! {

/// One of the two players of a match.
#[derive(Debug, Clone, Copy, PartialEq, Eq, Hash, Structural)]
pub enum PlayerId {
    P1,
    P2,
}

impl PlayerId {
    /// The other player.
    pub open spec fn spec_opponent(self) -> PlayerId {
        match self {
            PlayerId::P1 => PlayerId::P2,
            PlayerId::P2 => PlayerId::P1,
        }
    }

    #[verifier::when_used_as_spec(spec_opponent)]
    pub fn opponent(self) -> (r: PlayerId)
        ensures
            r == self.spec_opponent(),
    {
        match self {
            PlayerId::P1 => PlayerId::P2,
            PlayerId::P2 => PlayerId::P1,
        }
    }

    /// The row that holds the middle pair of a player's reserved setup cells.
    pub open spec fn spec_setup_row(self) -> usize {
        match self {
            PlayerId::P1 => 1usize,
            PlayerId::P2 => 6usize,
        }
    }

    #[verifier::when_used_as_spec(spec_setup_row)]
    pub fn setup_row(self) -> (r: usize)
        ensures
            r == self.spec_setup_row(),
    {
        match self {
            PlayerId::P1 => 1,
            PlayerId::P2 => 6,
        }
    }

    /// Whether `pos` is one of the player's eight reserved setup cells.
    pub open spec fn is_setup_position(self, pos: Position) -> bool {
        match self {
            PlayerId::P1 => (pos.row == 0 && (pos.col == 0 || pos.col == 1 || pos.col == 2
                || pos.col == 5 || pos.col == 6 || pos.col == 7))
                || (pos.row == 1 && (pos.col == 3 || pos.col == 4)),
            PlayerId::P2 => (pos.row == 7 && (pos.col == 0 || pos.col == 1 || pos.col == 2
                || pos.col == 5 || pos.col == 6 || pos.col == 7))
                || (pos.row == 6 && (pos.col == 3 || pos.col == 4)),
        }
    }

    /// The player's eight reserved setup cells: the six outer cells of the
    /// back row left to right, then the two cells flanking the exits.
    pub open spec fn spec_setup_positions(self) -> Seq<Position> {
        match self {
            PlayerId::P1 => seq![
                (Position { row: 0, col: 0 }),
                (Position { row: 0, col: 1 }),
                (Position { row: 0, col: 2 }),
                (Position { row: 0, col: 5 }),
                (Position { row: 0, col: 6 }),
                (Position { row: 0, col: 7 }),
                (Position { row: 1, col: 3 }),
                (Position { row: 1, col: 4 }),
            ],
            PlayerId::P2 => seq![
                (Position { row: 7, col: 0 }),
                (Position { row: 7, col: 1 }),
                (Position { row: 7, col: 2 }),
                (Position { row: 7, col: 5 }),
                (Position { row: 7, col: 6 }),
                (Position { row: 7, col: 7 }),
                (Position { row: 6, col: 3 }),
                (Position { row: 6, col: 4 }),
            ],
        }
    }

    /// The player's eight reserved setup cells, in their fixed order.
    pub fn setup_positions(self) -> (r: [Position; 8])
        ensures
            r@ == self.spec_setup_positions(),
            forall|i: int| 0 <= i < 8 ==> self.is_setup_position(#[trigger] r@[i]),
            forall|p: Position| self.is_setup_position(p) ==> exists|i: int|
                0 <= i < 8 && r@[i] == p,
    {
        let r = match self {
            PlayerId::P1 => [
                Position::new(0, 0),
                Position::new(0, 1),
                Position::new(0, 2),
                Position::new(0, 5),
                Position::new(0, 6),
                Position::new(0, 7),
                Position::new(1, 3),
                Position::new(1, 4),
            ],
            PlayerId::P2 => [
                Position::new(7, 0),
                Position::new(7, 1),
                Position::new(7, 2),
                Position::new(7, 5),
                Position::new(7, 6),
                Position::new(7, 7),
                Position::new(6, 3),
                Position::new(6, 4),
            ],
        };
        proof {
            assert(r@ =~= self.spec_setup_positions());
            assert forall|p: Position| self.is_setup_position(p) implies exists|i: int|
                0 <= i < 8 && r@[i] == p by {
                if p.col == 0 {
                    assert(r@[0] == p);
                } else if p.col == 1 {
                    assert(r@[1] == p);
                } else if p.col == 2 {
                    assert(r@[2] == p);
                } else if p.col == 5 {
                    assert(r@[3] == p);
                } else if p.col == 6 {
                    assert(r@[4] == p);
                } else if p.col == 7 {
                    assert(r@[5] == p);
                } else if p.col == 3 {
                    assert(r@[6] == p);
                } else {
                    assert(r@[7] == p);
                }
            }
        }
        r
    }

    /// The row holding the player's own exit cells (their opponent's scoring
    /// target).
    pub open spec fn spec_exit_row(self) -> usize {
        match self {
            PlayerId::P1 => 0usize,
            PlayerId::P2 => 7usize,
        }
    }

    #[verifier::when_used_as_spec(spec_exit_row)]
    pub fn exit_row(self) -> (r: usize)
        ensures
            r == self.spec_exit_row(),
    {
        match self {
            PlayerId::P1 => 0,
            PlayerId::P2 => 7,
        }
    }
}

/// The two kinds of cards a player deploys.
#[derive(Debug, Clone, Copy, PartialEq, Eq, Structural)]
pub enum OnlineCardType {
    Link,
    Virus,
}

/// A grid coordinate; the rules only ever use coordinates in [0,8) x [0,8).
#[derive(Debug, Clone, Copy, PartialEq, Eq, Structural)]
pub struct Position {
    pub row: usize,
    pub col: usize,
}

impl Position {
    pub fn new(row: usize, col: usize) -> (r: Position)
        ensures
            r.row == row && r.col == col,
    {
        Position { row, col }
    }

    /// Manhattan distance between two positions.
    pub open spec fn spec_manhattan_distance(self, other: Position) -> int {
        abs_diff_int(self.row as int, other.row as int)
            + abs_diff_int(self.col as int, other.col as int)
    }

    pub fn manhattan_distance(self, other: Position) -> (r: usize)
        requires
            self.row < 8 && self.col < 8 && other.row < 8 && other.col < 8,
        ensures
            r == self.spec_manhattan_distance(other),
    {
        let dr = if self.row >= other.row {
            self.row - other.row
        } else {
            other.row - self.row
        };
        let dc = if self.col >= other.col {
            self.col - other.col
        } else {
            other.col - self.col
        };
        dr + dc
    }
}

/// `|a - b|` over mathematical integers.
pub open spec fn abs_diff_int(a: int, b: int) -> int {
    if a >= b {
        a - b
    } else {
        b - a
    }
}

/// A deployed card. `owner` never changes, even after capture.
#[derive(Debug, Clone, Copy, PartialEq, Eq, Structural)]
pub struct OnlineCard {
    pub card_type: OnlineCardType,
    pub revealed: bool,
    pub line_boost_attached: bool,
    pub owner: PlayerId,
}

/// Which of a player's two stacks a scored card is appended to.
#[derive(Debug, Clone, Copy, PartialEq, Eq, Structural)]
pub enum StackChoice {
    Link,
    Virus,
}

/// The match phase: each player's setup turn, play, then game over.
#[derive(Debug, Clone, Copy, PartialEq, Eq, Structural)]
pub enum GamePhase {
    Setup(PlayerId),
    Playing,
    GameOver(PlayerId),
}

/// Whether a successful move ends the turn or may chain into another step.
#[derive(Debug, Clone, Copy, PartialEq, Eq, Structural)]
pub enum MoveOutcome {
    TurnEnds,
    CanMoveAgain,
}

/// The closed taxonomy of rejections; every operation returns one of these
/// instead of mutating when a rule is violated.
#[derive(Debug, Clone, Copy, PartialEq, Eq, Structural)]
pub enum GameError {
    OutOfBounds,
    NotAdjacent,
    NoCard,
    NotYourCard,
    OccupiedByOwnCard,
    OwnExitBlocked,
    OpponentFirewall,
    InvalidSetupPosition,
    SetupExhausted,
    SetupNotCurrentPlayer,
    NotInSetupPhase,
    NotInPlayingPhase,
    NotOnOpponentExit,
    FirewallOnExit,
    TerminalCardUsed,
    InvalidTarget,
    PendingBoostMove,
    NoPendingBoostMove,
    CannotEnterServerWithBoost,
}

} // verus!
