//! Mathematical models of the engine state.
//!
//! Every contract in this crate is stated over these ghost types: the board
//! becomes a pair of maps from in-bounds positions to cell contents, and the
//! per-player record becomes sequences and unbounded integers. Each mutating
//! operation of [`crate::state::GameState`] is specified as a total function
//! from a model and arguments to the next model plus its typed outcome.

use vstd::prelude::*;

use crate::board::Board;
use crate::player::PlayerState;
use crate::state::GameState;
use crate::types::GamePhase;
use crate::types::OnlineCard;
use crate::types::PlayerId;
use crate::types::Position;

verus! {

/// Model of [`Board`]: both grids as maps over the in-bounds positions.
#[verifier::ext_equal]
pub ghost struct BoardModel {
    pub cards: Map<Position, Option<OnlineCard>>,
    pub firewalls: Map<Position, Option<PlayerId>>,
}

impl BoardModel {
    /// An empty board: no cards and no firewalls anywhere.
    pub open spec fn init() -> BoardModel {
        BoardModel {
            cards: Map::new(|p: Position| Board::spec_in_bounds(p), |p: Position| None),
            firewalls: Map::new(|p: Position| Board::spec_in_bounds(p), |p: Position| None),
        }
    }

    /// Well-formedness of a board model: both maps speak about exactly the
    /// in-bounds positions. The view of every [`Board`] satisfies this by
    /// construction.
    pub open spec fn wf(self) -> bool {
        &&& forall|p: Position| #[trigger] self.cards.dom().contains(p) <==> Board::spec_in_bounds(
            p,
        )
        &&& forall|p: Position| #[trigger] self.firewalls.dom().contains(p)
            <==> Board::spec_in_bounds(p)
    }

    /// The card at `pos` (None when the cell is empty).
    pub open spec fn card(self, pos: Position) -> Option<OnlineCard> {
        self.cards[pos]
    }

    /// The firewall owner at `pos` (None when the cell carries no firewall).
    pub open spec fn firewall(self, pos: Position) -> Option<PlayerId> {
        self.firewalls[pos]
    }

    /// The board with the card cell at `pos` replaced.
    pub open spec fn set_card(self, pos: Position, card: Option<OnlineCard>) -> BoardModel {
        BoardModel { cards: self.cards.insert(pos, card), ..self }
    }

    /// The board with the firewall cell at `pos` replaced.
    pub open spec fn set_firewall(self, pos: Position, owner: Option<PlayerId>) -> BoardModel {
        BoardModel { firewalls: self.firewalls.insert(pos, owner), ..self }
    }

    /// Whether `pos` holds a card owned by `player`.
    pub open spec fn has_own_card(self, pos: Position, player: PlayerId) -> bool {
        self.card(pos) matches Some(card) && card.owner == player
    }

    /// Whether `pos` holds a card owned by `player`'s opponent.
    pub open spec fn has_opponent_card(self, pos: Position, player: PlayerId) -> bool {
        self.has_own_card(pos, player.opponent())
    }
}

impl View for Board {
    type V = BoardModel;

    open spec fn view(&self) -> BoardModel {
        BoardModel {
            cards: Map::new(
                |p: Position| Board::spec_in_bounds(p),
                |p: Position| self.spec_card(p),
            ),
            firewalls: Map::new(
                |p: Position| Board::spec_in_bounds(p),
                |p: Position| self.spec_firewall(p),
            ),
        }
    }
}

/// Model of [`PlayerState`]: stacks as sequences, slot pairs as two-element
/// sequences, setup counters as unbounded integers.
#[verifier::ext_equal]
pub ghost struct PlayerModel {
    pub id: PlayerId,
    pub link_stack: Seq<OnlineCard>,
    pub virus_stack: Seq<OnlineCard>,
    pub line_boosts: Seq<Option<Position>>,
    pub firewalls: Seq<Option<Position>>,
    pub virus_checks_used: Seq<bool>,
    pub not_found_used: Seq<bool>,
    pub setup_links_left: int,
    pub setup_viruses_left: int,
    pub setup_placed: int,
}

/// Model of [`GameState`]: the whole match as one mathematical value.
#[verifier::ext_equal]
pub ghost struct GameModel {
    pub board: BoardModel,
    pub player1: PlayerModel,
    pub player2: PlayerModel,
    pub current_player: PlayerId,
    pub phase: GamePhase,
    pub pending_boost_move: Option<Position>,
}

impl GameModel {
    /// A fresh match: empty board, fresh players, first player's setup turn.
    pub open spec fn init() -> GameModel {
        GameModel {
            board: BoardModel::init(),
            player1: PlayerModel::init(PlayerId::P1),
            player2: PlayerModel::init(PlayerId::P2),
            current_player: PlayerId::P1,
            phase: GamePhase::Setup(PlayerId::P1),
            pending_boost_move: None,
        }
    }

    /// The record of the given player.
    pub open spec fn player(self, id: PlayerId) -> PlayerModel {
        match id {
            PlayerId::P1 => self.player1,
            PlayerId::P2 => self.player2,
        }
    }

    /// The model with the given player's record replaced.
    pub open spec fn with_player(self, id: PlayerId, pm: PlayerModel) -> GameModel {
        match id {
            PlayerId::P1 => GameModel { player1: pm, ..self },
            PlayerId::P2 => GameModel { player2: pm, ..self },
        }
    }

    /// Validity of a match value, as the data model fixes it: both player
    /// records are well formed and carry their own identity, and every
    /// position stored in a slot lies on the grid.
    pub open spec fn wf(self) -> bool {
        &&& self.board.wf()
        &&& self.player1.wf()
        &&& self.player2.wf()
        &&& self.player1.id == PlayerId::P1
        &&& self.player2.id == PlayerId::P2
        &&& forall|i: int| 0 <= i < 2 ==> slot_in_bounds(#[trigger] self.player1.line_boosts[i])
        &&& forall|i: int| 0 <= i < 2 ==> slot_in_bounds(#[trigger] self.player1.firewalls[i])
        &&& forall|i: int| 0 <= i < 2 ==> slot_in_bounds(#[trigger] self.player2.line_boosts[i])
        &&& forall|i: int| 0 <= i < 2 ==> slot_in_bounds(#[trigger] self.player2.firewalls[i])
    }
}

/// Whether an optional slot position lies on the grid (an empty slot always
/// does).
pub open spec fn slot_in_bounds(slot: Option<Position>) -> bool {
    slot matches Some(p) ==> Board::spec_in_bounds(p)
}

/// The slot pair with every slot that points at `pos` cleared.
pub open spec fn clear_slots(
    slots: Seq<Option<Position>>,
    pos: Position,
) -> Seq<Option<Position>> {
    slots.map_values(|s: Option<Position>| if s == Some(pos) { None } else { s })
}

/// The slot pair with every slot that points at `from` re-pointed at `to`.
pub open spec fn retarget_slots(
    slots: Seq<Option<Position>>,
    from: Position,
    to: Position,
) -> Seq<Option<Position>> {
    slots.map_values(|s: Option<Position>| if s == Some(from) { Some(to) } else { s })
}

/// Whether some slot of the pair points at `pos`.
pub open spec fn slot_points(slots: Seq<Option<Position>>, pos: Position) -> bool {
    exists|i: int| 0 <= i < slots.len() && slots[i] == Some(pos)
}

impl View for GameState {
    type V = GameModel;

    open spec fn view(&self) -> GameModel {
        GameModel {
            board: self.board@,
            player1: self.player1@,
            player2: self.player2@,
            current_player: self.current_player,
            phase: self.phase,
            pending_boost_move: self.pending_boost_move,
        }
    }
}

impl View for PlayerState {
    type V = PlayerModel;

    open spec fn view(&self) -> PlayerModel {
        PlayerModel {
            id: self.id,
            link_stack: self.link_stack@,
            virus_stack: self.virus_stack@,
            line_boosts: self.line_boosts@,
            firewalls: self.firewalls@,
            virus_checks_used: self.virus_checks_used@,
            not_found_used: self.not_found_used@,
            setup_links_left: self.setup_links_left as int,
            setup_viruses_left: self.setup_viruses_left as int,
            setup_placed: self.setup_placed as int,
        }
    }
}

} // verus!
