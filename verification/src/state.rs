//! The rules state machine: one board, two player records, the phase, the
//! current player, and the pending boost-move marker.
//!
//! Every mutating operation is specified as a pair of spec functions on
//! [`GameModel`]: a `..._check` function that yields exactly the rejection
//! the operation returns (or `None` when it succeeds), and a `..._apply`
//! function that yields the state after a successful call. Each operation
//! ensures that it returns precisely the checked error and leaves the state
//! untouched, or commits precisely the applied transition.

use vstd::prelude::*;

use crate::board::Board;
use crate::model::clear_slots;
use crate::model::retarget_slots;
use crate::model::slot_points;
use crate::model::GameModel;
use crate::model::PlayerModel;
use crate::player::slot_eq;
use crate::player::PlayerState;
use crate::types::GameError;
use crate::types::GamePhase;
use crate::types::MoveOutcome;
use crate::types::OnlineCard;
use crate::types::OnlineCardType;
use crate::types::PlayerId;
use crate::types::Position;
use crate::types::StackChoice;

verus! {

#[derive(Debug, Clone)]
pub struct GameState {
    pub board: Board,
    pub player1: PlayerState,
    pub player2: PlayerState,
    pub current_player: PlayerId,
    pub phase: GamePhase,
    pub pending_boost_move: Option<Position>,
}

impl GameModel {
    /// Whether the setup-phase gate admits `player`: the matching rejection,
    /// or `None` when it is this player's setup turn.
    pub open spec fn setup_gate(self, player: PlayerId) -> Option<GameError> {
        match self.phase {
            GamePhase::Setup(active) => if active == player {
                None
            } else {
                Some(GameError::SetupNotCurrentPlayer)
            },
            _ => Some(GameError::NotInSetupPhase),
        }
    }

    /// Whether `player` may place a setup card at `pos`: in bounds, one of
    /// that player's eight reserved cells, and currently empty.
    pub open spec fn can_place_setup_at(self, player: PlayerId, pos: Position) -> bool {
        &&& Board::spec_in_bounds(pos)
        &&& player.is_setup_position(pos)
        &&& self.board.card(pos) is None
    }

    /// The rejection `place_setup_card` returns, or `None` when it succeeds.
    pub open spec fn place_setup_check(
        self,
        player: PlayerId,
        pos: Position,
        card_type: OnlineCardType,
    ) -> Option<GameError> {
        if self.setup_gate(player) is Some {
            self.setup_gate(player)
        } else if !Board::spec_in_bounds(pos) {
            Some(GameError::OutOfBounds)
        } else if !self.can_place_setup_at(player, pos) {
            Some(GameError::InvalidSetupPosition)
        } else if (match card_type {
            OnlineCardType::Link => self.player(player).setup_links_left <= 0,
            OnlineCardType::Virus => self.player(player).setup_viruses_left <= 0,
        }) {
            Some(GameError::SetupExhausted)
        } else {
            None
        }
    }

    /// The state after a successful `place_setup_card`: the matching counter
    /// decremented, `setup_placed` incremented, a fresh unrevealed card on
    /// the board, and the phase advanced when this was the eighth placement.
    pub open spec fn place_setup_apply(
        self,
        player: PlayerId,
        pos: Position,
        card_type: OnlineCardType,
    ) -> GameModel {
        let pm = self.player(player);
        let pm2 = PlayerModel {
            setup_links_left: if card_type is Link {
                pm.setup_links_left - 1
            } else {
                pm.setup_links_left
            },
            setup_viruses_left: if card_type is Virus {
                pm.setup_viruses_left - 1
            } else {
                pm.setup_viruses_left
            },
            setup_placed: pm.setup_placed + 1,
            ..pm
        };
        let card = OnlineCard {
            card_type: card_type,
            revealed: false,
            line_boost_attached: false,
            owner: player,
        };
        let s2 = GameModel {
            board: self.board.set_card(pos, Some(card)),
            ..self.with_player(player, pm2)
        };
        if pm.setup_placed + 1 == 8 {
            GameModel {
                phase: match player {
                    PlayerId::P1 => GamePhase::Setup(PlayerId::P2),
                    PlayerId::P2 => GamePhase::Playing,
                },
                ..s2
            }
        } else {
            s2
        }
    }

    /// The state after detaching any line boost of `player` anchored at
    /// `pos`: every slot of that player pointing at `pos` is freed, and a
    /// card of that player sitting at `pos` loses its boost flag.
    pub open spec fn remove_line_boost_at_spec(self, player: PlayerId, pos: Position) -> GameModel {
        let pm = self.player(player);
        let s2 = self.with_player(
            player,
            PlayerModel { line_boosts: clear_slots(pm.line_boosts, pos), ..pm },
        );
        match self.board.card(pos) {
            Some(c) => if c.owner == player {
                GameModel {
                    board: s2.board.set_card(pos, Some(OnlineCard { line_boost_attached: false, ..c })),
                    ..s2
                }
            } else {
                s2
            },
            None => s2,
        }
    }

    /// The state after re-pointing every line-boost slot of `player` from
    /// `from` to `to` (the board is untouched; the moved card keeps its
    /// flag).
    pub open spec fn move_line_boost_spec(self, player: PlayerId, from: Position, to: Position)
        -> GameModel {
        let pm = self.player(player);
        self.with_player(
            player,
            PlayerModel { line_boosts: retarget_slots(pm.line_boosts, from, to), ..pm },
        )
    }

    /// The state after re-deriving the boost flag of a card of `player` at
    /// `pos` from that player's slots (a slot tracks a position, not a card
    /// identity).
    pub open spec fn sync_line_boost_flag_spec(self, player: PlayerId, pos: Position) -> GameModel {
        let attached = slot_points(self.player(player).line_boosts, pos);
        match self.board.card(pos) {
            Some(c) => if c.owner == player {
                GameModel {
                    board: self.board.set_card(
                        pos,
                        Some(OnlineCard { line_boost_attached: attached, ..c }),
                    ),
                    ..self
                }
            } else {
                self
            },
            None => self,
        }
    }

    /// The rejection a single move step returns, or `None` when the step is
    /// legal: the game must be in play, both ends in bounds and adjacent,
    /// the source must hold the current player's card, and the destination
    /// must be neither the mover's own card, nor the mover's own exit, nor
    /// behind an opponent firewall.
    pub open spec fn move_check(self, from: Position, to: Position) -> Option<GameError> {
        if !(self.phase is Playing) {
            Some(GameError::NotInPlayingPhase)
        } else if !Board::spec_in_bounds(from) || !Board::spec_in_bounds(to) {
            Some(GameError::OutOfBounds)
        } else if from.spec_manhattan_distance(to) != 1 {
            Some(GameError::NotAdjacent)
        } else if self.board.card(from) is None {
            Some(GameError::NoCard)
        } else if self.board.card(from)->Some_0.owner != self.current_player {
            Some(GameError::NotYourCard)
        } else if self.board.has_own_card(to, self.current_player) {
            Some(GameError::OccupiedByOwnCard)
        } else if GameState::spec_exit_owner(to) == Some(self.current_player) {
            Some(GameError::OwnExitBlocked)
        } else if self.board.firewall(to) == Some(self.current_player.opponent()) {
            Some(GameError::OpponentFirewall)
        } else {
            None
        }
    }

    /// The state and outcome after a legal move step. On capture the
    /// opponent's card is revealed, its line boost (if any) is detached from
    /// the opponent's slots, and it joins the mover's stack matching its
    /// kind, owner unchanged; the mover's card then occupies the
    /// destination. Without a capture, a boosted card drags its slot along
    /// and opens (or, when continuing out of the opponent's exit row, ends)
    /// a boost chain.
    pub open spec fn move_apply(self, from: Position, to: Position, can_start_server_entry: bool)
        -> (GameModel, MoveOutcome) {
        let cur = self.current_player;
        let card = self.board.card(from)->Some_0;
        if self.board.has_opponent_card(to, cur) {
            let oc = self.board.card(to)->Some_0;
            let captured = OnlineCard { revealed: true, ..oc };
            let s1 = if oc.line_boost_attached {
                self.remove_line_boost_at_spec(oc.owner, to)
            } else {
                self
            };
            let pm = s1.player(cur);
            let pm2 = if captured.card_type is Link {
                PlayerModel { link_stack: pm.link_stack.push(captured), ..pm }
            } else {
                PlayerModel { virus_stack: pm.virus_stack.push(captured), ..pm }
            };
            let s2 = s1.with_player(cur, pm2);
            let board2 = s2.board.set_card(to, None).set_card(from, None).set_card(
                to,
                Some(card),
            );
            (GameModel { board: board2, ..s2 }, MoveOutcome::TurnEnds)
        } else {
            let board2 = self.board.set_card(from, None).set_card(to, Some(card));
            let s2 = GameModel { board: board2, ..self };
            if card.line_boost_attached {
                let s3 = s2.move_line_boost_spec(cur, from, to);
                if !can_start_server_entry && GameState::spec_exit_owner(from) == Some(
                    cur.opponent(),
                ) {
                    (s3, MoveOutcome::TurnEnds)
                } else {
                    (
                        GameModel { pending_boost_move: Some(to), ..s3 },
                        MoveOutcome::CanMoveAgain,
                    )
                }
            } else {
                (s2, MoveOutcome::TurnEnds)
            }
        }
    }

    /// The rejection `start_move` returns, or `None` when it succeeds: a
    /// fresh move is blocked outright while a boost continuation is pending.
    pub open spec fn start_move_check(self, from: Position, to: Position) -> Option<GameError> {
        if self.pending_boost_move is Some {
            Some(GameError::PendingBoostMove)
        } else {
            self.move_check(from, to)
        }
    }

    /// The rejection `continue_boost_move` returns, or `None` when it
    /// succeeds: the source must equal the pending position exactly.
    pub open spec fn continue_boost_check(self, from: Position, to: Position) -> Option<
        GameError,
    > {
        match self.pending_boost_move {
            None => Some(GameError::NoPendingBoostMove),
            Some(p) => if p != from {
                Some(GameError::NoPendingBoostMove)
            } else {
                self.move_check(from, to)
            },
        }
    }

    /// The state and outcome after a successful `continue_boost_move`: the
    /// pending marker is consumed and the step is taken as a continuation.
    pub open spec fn continue_boost_apply(self, from: Position, to: Position) -> (
        GameModel,
        MoveOutcome,
    ) {
        (GameModel { pending_boost_move: None, ..self }).move_apply(from, to, false)
    }

    /// The rejection `enter_server_center` returns, or `None` when it
    /// succeeds: only from the opponent's exit cell, only with the mover's
    /// own card, and only while no boost continuation is pending.
    pub open spec fn enter_server_check(self, from: Position) -> Option<GameError> {
        if !(self.phase is Playing) {
            Some(GameError::NotInPlayingPhase)
        } else if self.pending_boost_move is Some {
            Some(GameError::CannotEnterServerWithBoost)
        } else if !Board::spec_in_bounds(from) {
            Some(GameError::OutOfBounds)
        } else if self.board.card(from) is None {
            Some(GameError::NoCard)
        } else if self.board.card(from)->Some_0.owner != self.current_player {
            Some(GameError::NotYourCard)
        } else if GameState::spec_exit_owner(from) != Some(self.current_player.opponent()) {
            Some(GameError::NotOnOpponentExit)
        } else {
            None
        }
    }

    /// The state after a successful `enter_server_center`: any line boost
    /// is detached, the card leaves the board, is revealed when requested,
    /// and joins whichever of the mover's stacks the mover chose —
    /// deliberately independent of the card's actual kind.
    pub open spec fn enter_server_apply(
        self,
        from: Position,
        reveal: bool,
        stack: StackChoice,
    ) -> GameModel {
        let cur = self.current_player;
        let card = self.board.card(from)->Some_0;
        let s1 = if card.line_boost_attached {
            self.remove_line_boost_at_spec(cur, from)
        } else {
            self
        };
        let scored = OnlineCard {
            revealed: if reveal {
                true
            } else {
                card.revealed
            },
            ..card
        };
        let pm2 = s1.player(cur).push_stack(scored, stack);
        GameModel { board: s1.board.set_card(from, None), ..s1.with_player(cur, pm2) }
    }

    /// The rejection `use_line_boost_attach` returns, or `None` when it
    /// succeeds.
    pub open spec fn line_boost_attach_check(self, index: int, pos: Position) -> Option<
        GameError,
    > {
        if !(self.phase is Playing) {
            Some(GameError::NotInPlayingPhase)
        } else if self.pending_boost_move is Some {
            Some(GameError::PendingBoostMove)
        } else if index >= 2 {
            Some(GameError::InvalidTarget)
        } else if !Board::spec_in_bounds(pos) {
            Some(GameError::OutOfBounds)
        } else if self.board.card(pos) is None {
            Some(GameError::NoCard)
        } else if self.board.card(pos)->Some_0.owner != self.current_player {
            Some(GameError::NotYourCard)
        } else {
            None
        }
    }

    /// The state after a successful `use_line_boost_attach`: the chosen
    /// slot points at `pos` and the card there carries the boost flag.
    pub open spec fn line_boost_attach_apply(self, index: int, pos: Position) -> GameModel {
        let cur = self.current_player;
        let card = self.board.card(pos)->Some_0;
        let pm = self.player(cur);
        let pm2 = PlayerModel { line_boosts: pm.line_boosts.update(index, Some(pos)), ..pm };
        GameModel {
            board: self.board.set_card(pos, Some(OnlineCard { line_boost_attached: true, ..card })),
            ..self.with_player(cur, pm2)
        }
    }

    /// The rejection `use_line_boost_detach` returns, or `None` when it
    /// succeeds.
    pub open spec fn line_boost_detach_check(self, index: int) -> Option<GameError> {
        if !(self.phase is Playing) {
            Some(GameError::NotInPlayingPhase)
        } else if self.pending_boost_move is Some {
            Some(GameError::PendingBoostMove)
        } else if index >= 2 {
            Some(GameError::InvalidTarget)
        } else if self.player(self.current_player).line_boosts[index] is None {
            Some(GameError::InvalidTarget)
        } else {
            None
        }
    }

    /// The state after a successful `use_line_boost_detach`: the slot is
    /// freed, and the card at the slot's position loses its flag when it is
    /// still present and still the current player's.
    pub open spec fn line_boost_detach_apply(self, index: int) -> GameModel {
        let cur = self.current_player;
        let pm = self.player(cur);
        let pos = pm.line_boosts[index]->Some_0;
        let s2 = self.with_player(
            cur,
            PlayerModel { line_boosts: pm.line_boosts.update(index, None), ..pm },
        );
        match self.board.card(pos) {
            Some(c) => if c.owner == cur {
                GameModel {
                    board: s2.board.set_card(pos, Some(OnlineCard { line_boost_attached: false, ..c })),
                    ..s2
                }
            } else {
                s2
            },
            None => s2,
        }
    }

    /// The rejection `use_virus_check` returns, or `None` when it succeeds:
    /// the target must be an opponent's card that is still unrevealed.
    pub open spec fn virus_check_check(self, index: int, pos: Position) -> Option<GameError> {
        if !(self.phase is Playing) {
            Some(GameError::NotInPlayingPhase)
        } else if self.pending_boost_move is Some {
            Some(GameError::PendingBoostMove)
        } else if index >= 2 {
            Some(GameError::InvalidTarget)
        } else if self.player(self.current_player).virus_checks_used[index] {
            Some(GameError::TerminalCardUsed)
        } else if !Board::spec_in_bounds(pos) {
            Some(GameError::OutOfBounds)
        } else if self.board.card(pos) is None {
            Some(GameError::NoCard)
        } else if self.board.card(pos)->Some_0.owner == self.current_player {
            Some(GameError::InvalidTarget)
        } else if self.board.card(pos)->Some_0.revealed {
            Some(GameError::InvalidTarget)
        } else {
            None
        }
    }

    /// The state after a successful `use_virus_check`: the opponent's card
    /// at `pos` is revealed and the one-shot slot is spent.
    pub open spec fn virus_check_apply(self, index: int, pos: Position) -> GameModel {
        let cur = self.current_player;
        let card = self.board.card(pos)->Some_0;
        let pm = self.player(cur);
        let pm2 = PlayerModel {
            virus_checks_used: pm.virus_checks_used.update(index, true),
            ..pm
        };
        GameModel {
            board: self.board.set_card(pos, Some(OnlineCard { revealed: true, ..card })),
            ..self.with_player(cur, pm2)
        }
    }

    /// The rejection `use_firewall_place` returns, or `None` when it
    /// succeeds: the chosen slot must be currently unused (free it with
    /// `use_firewall_remove` first); exits never take firewalls.
    pub open spec fn firewall_place_check(self, index: int, pos: Position) -> Option<GameError> {
        if !(self.phase is Playing) {
            Some(GameError::NotInPlayingPhase)
        } else if self.pending_boost_move is Some {
            Some(GameError::PendingBoostMove)
        } else if index >= 2 {
            Some(GameError::InvalidTarget)
        } else if !Board::spec_in_bounds(pos) {
            Some(GameError::OutOfBounds)
        } else if GameState::spec_is_exit(pos) {
            Some(GameError::FirewallOnExit)
        } else if self.player(self.current_player).firewalls[index] is Some {
            Some(GameError::InvalidTarget)
        } else {
            None
        }
    }

    /// The state after a successful `use_firewall_place`: the position is
    /// stored both in the chosen slot and on the board grid.
    pub open spec fn firewall_place_apply(self, index: int, pos: Position) -> GameModel {
        let cur = self.current_player;
        let pm = self.player(cur);
        let pm2 = PlayerModel { firewalls: pm.firewalls.update(index, Some(pos)), ..pm };
        GameModel {
            board: self.board.set_firewall(pos, Some(cur)),
            ..self.with_player(cur, pm2)
        }
    }

    /// The rejection `use_firewall_remove` returns, or `None` when it
    /// succeeds.
    pub open spec fn firewall_remove_check(self, index: int) -> Option<GameError> {
        if !(self.phase is Playing) {
            Some(GameError::NotInPlayingPhase)
        } else if self.pending_boost_move is Some {
            Some(GameError::PendingBoostMove)
        } else if index >= 2 {
            Some(GameError::InvalidTarget)
        } else {
            None
        }
    }

    /// The state after a successful `use_firewall_remove`: the slot is
    /// cleared, and whatever position it held loses its board marker.
    pub open spec fn firewall_remove_apply(self, index: int) -> GameModel {
        let cur = self.current_player;
        let pm = self.player(cur);
        let slot = pm.firewalls[index];
        let s2 = self.with_player(
            cur,
            PlayerModel { firewalls: pm.firewalls.update(index, None), ..pm },
        );
        match slot {
            Some(p) => GameModel { board: s2.board.set_firewall(p, None), ..s2 },
            None => s2,
        }
    }

    /// The rejection `use_404` returns, or `None` when it succeeds.
    pub open spec fn not_found_check(self, index: int, first: Position, second: Position)
        -> Option<GameError> {
        if !(self.phase is Playing) {
            Some(GameError::NotInPlayingPhase)
        } else if self.pending_boost_move is Some {
            Some(GameError::PendingBoostMove)
        } else if index >= 2 {
            Some(GameError::InvalidTarget)
        } else if self.player(self.current_player).not_found_used[index] {
            Some(GameError::TerminalCardUsed)
        } else if !Board::spec_in_bounds(first) || !Board::spec_in_bounds(second) {
            Some(GameError::OutOfBounds)
        } else if self.board.card(first) is None {
            Some(GameError::NoCard)
        } else if self.board.card(second) is None {
            Some(GameError::NoCard)
        } else if self.board.card(first)->Some_0.owner != self.current_player
            || self.board.card(second)->Some_0.owner != self.current_player {
            Some(GameError::NotYourCard)
        } else {
            None
        }
    }

    /// The state after a successful `use_404`: both cards are un-revealed,
    /// optionally swapped across the two cells, both cells' boost flags are
    /// re-derived from the player's slots, and the one-shot slot is spent.
    pub open spec fn not_found_apply(
        self,
        index: int,
        first: Position,
        second: Position,
        swap: bool,
    ) -> GameModel {
        let cur = self.current_player;
        let a = self.board.card(first)->Some_0;
        let b = self.board.card(second)->Some_0;
        let a2 = OnlineCard { revealed: false, ..a };
        let b2 = OnlineCard { revealed: false, ..b };
        let board2 = if swap {
            self.board.set_card(first, Some(b2)).set_card(second, Some(a2))
        } else {
            self.board.set_card(first, Some(a2)).set_card(second, Some(b2))
        };
        let s2 = GameModel { board: board2, ..self };
        let s3 = s2.sync_line_boost_flag_spec(cur, first).sync_line_boost_flag_spec(cur, second);
        let pm = s3.player(cur);
        s3.with_player(
            cur,
            PlayerModel { not_found_used: pm.not_found_used.update(index, true), ..pm },
        )
    }

    /// The winner, if any: P1 wins on four scored Link cards or four Virus
    /// cards forced onto P2; P2 symmetrically. The P1 conditions are
    /// evaluated first, so when both players cross a threshold in the same
    /// check, P1 is declared the winner.
    pub open spec fn winner_spec(self) -> Option<PlayerId> {
        if self.player1.link_stack.len() >= 4 || self.player2.virus_stack.len() >= 4 {
            Some(PlayerId::P1)
        } else if self.player2.link_stack.len() >= 4 || self.player1.virus_stack.len() >= 4 {
            Some(PlayerId::P2)
        } else {
            None
        }
    }

    /// The state after `end_turn`: outside play nothing changes; a met win
    /// condition freezes the match as `GameOver(winner)`; otherwise the
    /// turn passes and any pending boost move is cleared.
    pub open spec fn end_turn_spec(self) -> GameModel {
        if !(self.phase is Playing) {
            self
        } else {
            match self.winner_spec() {
                Some(w) => GameModel { phase: GamePhase::GameOver(w), ..self },
                None => GameModel {
                    current_player: self.current_player.opponent(),
                    pending_boost_move: None,
                    ..self
                },
            }
        }
    }

    /// The rejection `remove_setup_card` returns, or `None` when it
    /// succeeds.
    pub open spec fn remove_setup_check(self, player: PlayerId, pos: Position) -> Option<
        GameError,
    > {
        if self.setup_gate(player) is Some {
            self.setup_gate(player)
        } else if !Board::spec_in_bounds(pos) {
            Some(GameError::OutOfBounds)
        } else if self.board.card(pos) is None {
            Some(GameError::NoCard)
        } else if self.board.card(pos)->Some_0.owner != player {
            Some(GameError::NotYourCard)
        } else {
            None
        }
    }

    /// The state after a successful `remove_setup_card`: the cell cleared,
    /// `setup_placed` decremented (saturating at zero), and the counter of
    /// the removed card's kind restored.
    pub open spec fn remove_setup_apply(self, player: PlayerId, pos: Position) -> GameModel {
        let card = self.board.card(pos)->Some_0;
        let pm = self.player(player);
        let pm2 = PlayerModel {
            setup_placed: if pm.setup_placed > 0 {
                pm.setup_placed - 1
            } else {
                0
            },
            setup_links_left: if card.card_type is Link {
                pm.setup_links_left + 1
            } else {
                pm.setup_links_left
            },
            setup_viruses_left: if card.card_type is Virus {
                pm.setup_viruses_left + 1
            } else {
                pm.setup_viruses_left
            },
            ..pm
        };
        GameModel { board: self.board.set_card(pos, None), ..self.with_player(player, pm2) }
    }
}

impl GameState {
    pub fn new() -> (r: GameState)
        ensures
            r@ == GameModel::init(),
            r@.wf(),
    {
        let r = GameState {
            board: Board::new(),
            player1: PlayerState::new(PlayerId::P1),
            player2: PlayerState::new(PlayerId::P2),
            current_player: PlayerId::P1,
            phase: GamePhase::Setup(PlayerId::P1),
            pending_boost_move: None,
        };
        proof {
            assert(r@ =~~= GameModel::init());
        }
        r
    }

    pub fn player(&self, player: PlayerId) -> (r: &PlayerState)
        ensures
            r@ == self@.player(player),
    {
        match player {
            PlayerId::P1 => &self.player1,
            PlayerId::P2 => &self.player2,
        }
    }

    pub fn player_mut(&mut self, player: PlayerId) -> (r: &mut PlayerState)
        ensures
            *r == (match player {
                PlayerId::P1 => old(self).player1,
                PlayerId::P2 => old(self).player2,
            }),
            *final(self) == (match player {
                PlayerId::P1 => (GameState { player1: *final(r), ..*old(self) }),
                PlayerId::P2 => (GameState { player2: *final(r), ..*old(self) }),
            }),
    {
        match player {
            PlayerId::P1 => &mut self.player1,
            PlayerId::P2 => &mut self.player2,
        }
    }

    /// Whether `pos` is one of the four exit cells (either player's scoring
    /// target).
    pub open spec fn spec_is_exit(pos: Position) -> bool {
        GameState::spec_exit_owner(pos) is Some
    }

    #[verifier::when_used_as_spec(spec_is_exit)]
    pub fn is_exit(pos: Position) -> (r: bool)
        ensures
            r == GameState::spec_is_exit(pos),
    {
        (pos.row == 0 && (pos.col == 3 || pos.col == 4)) || (pos.row == 7 && (pos.col == 3
            || pos.col == 4))
    }

    /// The player whose own exit row holds `pos`, if any. A player scores by
    /// entering the opponent's exit cells, never their own.
    pub open spec fn spec_exit_owner(pos: Position) -> Option<PlayerId> {
        if pos.row == 0 && (pos.col == 3 || pos.col == 4) {
            Some(PlayerId::P1)
        } else if pos.row == 7 && (pos.col == 3 || pos.col == 4) {
            Some(PlayerId::P2)
        } else {
            None
        }
    }

    #[verifier::when_used_as_spec(spec_exit_owner)]
    pub fn exit_owner(pos: Position) -> (r: Option<PlayerId>)
        ensures
            r == GameState::spec_exit_owner(pos),
    {
        if pos.row == 0 && (pos.col == 3 || pos.col == 4) {
            Some(PlayerId::P1)
        } else if pos.row == 7 && (pos.col == 3 || pos.col == 4) {
            Some(PlayerId::P2)
        } else {
            None
        }
    }

    pub fn can_place_setup(&self, player: PlayerId, pos: Position) -> (r: bool)
        ensures
            r == self@.can_place_setup_at(player, pos),
    {
        if !Board::in_bounds(pos) {
            return false;
        }
        let in_cells = match player {
            PlayerId::P1 => (pos.row == 0 && (pos.col == 0 || pos.col == 1 || pos.col == 2
                || pos.col == 5 || pos.col == 6 || pos.col == 7)) || (pos.row == 1 && (pos.col == 3
                || pos.col == 4)),
            PlayerId::P2 => (pos.row == 7 && (pos.col == 0 || pos.col == 1 || pos.col == 2
                || pos.col == 5 || pos.col == 6 || pos.col == 7)) || (pos.row == 6 && (pos.col == 3
                || pos.col == 4)),
        };
        if !in_cells {
            return false;
        }
        match self.board.get(pos) {
            Some(_) => false,
            None => true,
        }
    }

    /// Places one of `player`'s setup cards at `pos` during that player's
    /// setup turn; the eighth successful placement advances the phase.
    pub fn place_setup_card(&mut self, player: PlayerId, pos: Position, card_type: OnlineCardType)
        -> (r: Result<(), GameError>)
        requires
            old(self)@.wf(),
        ensures
            old(self)@.place_setup_check(player, pos, card_type) matches Some(e) ==> r == Err::<
                (),
                GameError,
            >(e) && *final(self) == *old(self),
            old(self)@.place_setup_check(player, pos, card_type) is None ==> r == Ok::<
                (),
                GameError,
            >(()) && final(self)@ == old(self)@.place_setup_apply(player, pos, card_type),
    {
        match self.phase {
            GamePhase::Setup(active) => if active != player {
                return Err(GameError::SetupNotCurrentPlayer);
            },
            _ => {
                return Err(GameError::NotInSetupPhase);
            },
        }
        if !Board::in_bounds(pos) {
            return Err(GameError::OutOfBounds);
        }
        if !self.can_place_setup(player, pos) {
            return Err(GameError::InvalidSetupPosition);
        }
        match card_type {
            OnlineCardType::Link => if self.player(player).setup_links_left == 0 {
                return Err(GameError::SetupExhausted);
            },
            OnlineCardType::Virus => if self.player(player).setup_viruses_left == 0 {
                return Err(GameError::SetupExhausted);
            },
        }
        let ps = self.player_mut(player);
        match card_type {
            OnlineCardType::Link => ps.setup_links_left = ps.setup_links_left - 1,
            OnlineCardType::Virus => ps.setup_viruses_left = ps.setup_viruses_left - 1,
        }
        ps.setup_placed = ps.setup_placed + 1;
        let setup_complete = ps.setup_placed == 8;
        self.board.set(
            pos,
            Some(
                OnlineCard {
                    card_type,
                    revealed: false,
                    line_boost_attached: false,
                    owner: player,
                },
            ),
        );
        if setup_complete {
            self.phase = match player {
                PlayerId::P1 => GamePhase::Setup(PlayerId::P2),
                PlayerId::P2 => GamePhase::Playing,
            };
        }
        proof {
            assert(self@ =~~= old(self)@.place_setup_apply(player, pos, card_type));
        }
        Ok(())
    }

    /// Takes one of `player`'s own setup cards back off the board during
    /// that player's setup turn, restoring the matching counter.
    pub fn remove_setup_card(&mut self, player: PlayerId, pos: Position) -> (r: Result<
        (),
        GameError,
    >)
        requires
            old(self)@.wf(),
        ensures
            old(self)@.remove_setup_check(player, pos) matches Some(e) ==> r == Err::<
                (),
                GameError,
            >(e) && *final(self) == *old(self),
            old(self)@.remove_setup_check(player, pos) is None ==> r == Ok::<(), GameError>(())
                && final(self)@ == old(self)@.remove_setup_apply(player, pos),
    {
        match self.phase {
            GamePhase::Setup(active) => if active != player {
                return Err(GameError::SetupNotCurrentPlayer);
            },
            _ => {
                return Err(GameError::NotInSetupPhase);
            },
        }
        if !Board::in_bounds(pos) {
            return Err(GameError::OutOfBounds);
        }
        let card = match self.board.get(pos) {
            Some(card) => card,
            None => {
                return Err(GameError::NoCard);
            },
        };
        if card.owner != player {
            return Err(GameError::NotYourCard);
        }
        self.board.set(pos, None);
        let ps = self.player_mut(player);
        ps.setup_placed = if ps.setup_placed > 0 {
            ps.setup_placed - 1
        } else {
            0
        };
        match card.card_type {
            OnlineCardType::Link => ps.setup_links_left = ps.setup_links_left + 1,
            OnlineCardType::Virus => ps.setup_viruses_left = ps.setup_viruses_left + 1,
        }
        proof {
            assert(self@ =~~= old(self)@.remove_setup_apply(player, pos));
        }
        Ok(())
    }

    /// Detaches any line boost of `player` anchored at `pos` (frees the
    /// slot and clears the card's flag when the card is still the
    /// player's).
    fn remove_line_boost_at(&mut self, player: PlayerId, pos: Position)
        requires
            Board::spec_in_bounds(pos),
        ensures
            final(self)@ == old(self)@.remove_line_boost_at_spec(player, pos),
    {
        match player {
            PlayerId::P1 => self.player1.clear_line_boosts_at(pos),
            PlayerId::P2 => self.player2.clear_line_boosts_at(pos),
        }
        match self.board.get(pos) {
            Some(card) => if card.owner == player {
                self.board.set(pos, Some(OnlineCard { line_boost_attached: false, ..card }));
            },
            None => {},
        }
        proof {
            assert(self@ =~~= old(self)@.remove_line_boost_at_spec(player, pos));
        }
    }

    /// Re-points every line-boost slot of `player` from `from` to `to`.
    fn move_line_boost_with_card(&mut self, player: PlayerId, from: Position, to: Position)
        ensures
            final(self)@ == old(self)@.move_line_boost_spec(player, from, to),
    {
        match player {
            PlayerId::P1 => self.player1.retarget_line_boosts(from, to),
            PlayerId::P2 => self.player2.retarget_line_boosts(from, to),
        }
        proof {
            assert(self@ =~~= old(self)@.move_line_boost_spec(player, from, to));
        }
    }

    /// Re-derives the boost flag of a card of `player` at `pos` from that
    /// player's slots.
    fn sync_line_boost_flag(&mut self, player: PlayerId, pos: Position)
        requires
            Board::spec_in_bounds(pos),
        ensures
            final(self)@ == old(self)@.sync_line_boost_flag_spec(player, pos),
    {
        let slots = &self.player(player).line_boosts;
        let attached = slot_eq(slots[0], pos) || slot_eq(slots[1], pos);
        proof {
            assert(self@.player(player).line_boosts.len() == 2);
            assert(attached == slot_points(self@.player(player).line_boosts, pos));
        }
        match self.board.get(pos) {
            Some(card) => if card.owner == player {
                self.board.set(pos, Some(OnlineCard { line_boost_attached: attached, ..card }));
            },
            None => {},
        }
        proof {
            assert(self@ =~~= old(self)@.sync_line_boost_flag_spec(player, pos));
        }
    }

    /// One move step shared by `start_move` and `continue_boost_move`.
    fn move_card(&mut self, from: Position, to: Position, can_start_server_entry: bool) -> (r:
        Result<MoveOutcome, GameError>)
        ensures
            old(self)@.move_check(from, to) matches Some(e) ==> r == Err::<MoveOutcome, GameError>(
                e,
            ) && *final(self) == *old(self),
            old(self)@.move_check(from, to) is None ==> r == Ok::<MoveOutcome, GameError>(
                old(self)@.move_apply(from, to, can_start_server_entry).1,
            ) && final(self)@ == old(self)@.move_apply(from, to, can_start_server_entry).0,
    {
        match self.phase {
            GamePhase::Playing => {},
            _ => {
                return Err(GameError::NotInPlayingPhase);
            },
        }
        if !Board::in_bounds(from) || !Board::in_bounds(to) {
            return Err(GameError::OutOfBounds);
        }
        if from.manhattan_distance(to) != 1 {
            return Err(GameError::NotAdjacent);
        }
        let card = match self.board.get(from) {
            Some(c) => c,
            None => {
                return Err(GameError::NoCard);
            },
        };
        if card.owner != self.current_player {
            return Err(GameError::NotYourCard);
        }
        if self.board.has_own_card(to, self.current_player) {
            return Err(GameError::OccupiedByOwnCard);
        }
        match GameState::exit_owner(to) {
            Some(p) => if p == self.current_player {
                return Err(GameError::OwnExitBlocked);
            },
            None => {},
        }
        match self.board.get_firewall(to) {
            Some(p) => if p == self.current_player.opponent() {
                return Err(GameError::OpponentFirewall);
            },
            None => {},
        }
        let captured: Option<OnlineCard> = if self.board.has_opponent_card(
            to,
            self.current_player,
        ) {
            match self.board.get(to) {
                Some(oc) => Some(OnlineCard { revealed: true, ..oc }),
                None => None,
            }
        } else {
            None
        };
        match captured {
            Some(oc) => {
                if oc.line_boost_attached {
                    self.remove_line_boost_at(oc.owner, to);
                }
                let ps = self.player_mut(self.current_player);
                match oc.card_type {
                    OnlineCardType::Link => ps.link_stack.push(oc),
                    OnlineCardType::Virus => ps.virus_stack.push(oc),
                }
                self.board.set(to, None);
            },
            None => {},
        }
        self.board.set(from, None);
        self.board.set(to, Some(card));
        if card.line_boost_attached && captured.is_none() {
            self.move_line_boost_with_card(self.current_player, from, to);
            let leaves_exit_chain = match GameState::exit_owner(from) {
                Some(p) => p == self.current_player.opponent(),
                None => false,
            };
            if !can_start_server_entry && leaves_exit_chain {
                proof {
                    assert(self@ =~~= old(self)@.move_apply(from, to, can_start_server_entry).0);
                }
                return Ok(MoveOutcome::TurnEnds);
            }
            self.pending_boost_move = Some(to);
            proof {
                assert(self@ =~~= old(self)@.move_apply(from, to, can_start_server_entry).0);
            }
            return Ok(MoveOutcome::CanMoveAgain);
        }
        proof {
            assert(self@ =~~= old(self)@.move_apply(from, to, can_start_server_entry).0);
        }
        Ok(MoveOutcome::TurnEnds)
    }

    /// Starts a fresh move of the current player's card from `from` to the
    /// adjacent `to`; rejected outright while a boost continuation is
    /// pending.
    pub fn start_move(&mut self, from: Position, to: Position) -> (r: Result<
        MoveOutcome,
        GameError,
    >)
        ensures
            old(self)@.start_move_check(from, to) matches Some(e) ==> r == Err::<
                MoveOutcome,
                GameError,
            >(e) && *final(self) == *old(self),
            old(self)@.start_move_check(from, to) is None ==> r == Ok::<MoveOutcome, GameError>(
                old(self)@.move_apply(from, to, true).1,
            ) && final(self)@ == old(self)@.move_apply(from, to, true).0,
    {
        match self.pending_boost_move {
            Some(_) => {
                return Err(GameError::PendingBoostMove);
            },
            None => {},
        }
        self.move_card(from, to, true)
    }

    /// Continues a pending boost chain: `from` must equal the pending
    /// position exactly. On rejection the pending marker (like all other
    /// state) is left in place.
    pub fn continue_boost_move(&mut self, from: Position, to: Position) -> (r: Result<
        MoveOutcome,
        GameError,
    >)
        ensures
            old(self)@.continue_boost_check(from, to) matches Some(e) ==> r == Err::<
                MoveOutcome,
                GameError,
            >(e) && *final(self) == *old(self),
            old(self)@.continue_boost_check(from, to) is None ==> r == Ok::<
                MoveOutcome,
                GameError,
            >(old(self)@.continue_boost_apply(from, to).1)
                && final(self)@ == old(self)@.continue_boost_apply(from, to).0,
    {
        let pending = match self.pending_boost_move {
            Some(p) => p,
            None => {
                return Err(GameError::NoPendingBoostMove);
            },
        };
        if !(pending.row == from.row && pending.col == from.col) {
            return Err(GameError::NoPendingBoostMove);
        }
        self.pending_boost_move = None;
        let r = self.move_card(from, to, false);
        match r {
            Ok(outcome) => Ok(outcome),
            Err(e) => {
                self.pending_boost_move = Some(pending);
                Err(e)
            },
        }
    }

    /// Scores the current player's card standing on the opponent's exit
    /// cell: the card leaves the board and joins the mover's chosen stack,
    /// optionally revealed.
    pub fn enter_server_center(&mut self, from: Position, reveal: bool, stack: StackChoice) -> (r:
        Result<(), GameError>)
        ensures
            old(self)@.enter_server_check(from) matches Some(e) ==> r == Err::<(), GameError>(e)
                && *final(self) == *old(self),
            old(self)@.enter_server_check(from) is None ==> r == Ok::<(), GameError>(())
                && final(self)@ == old(self)@.enter_server_apply(from, reveal, stack),
    {
        match self.phase {
            GamePhase::Playing => {},
            _ => {
                return Err(GameError::NotInPlayingPhase);
            },
        }
        match self.pending_boost_move {
            Some(_) => {
                return Err(GameError::CannotEnterServerWithBoost);
            },
            None => {},
        }
        if !Board::in_bounds(from) {
            return Err(GameError::OutOfBounds);
        }
        let card = match self.board.get(from) {
            Some(c) => c,
            None => {
                return Err(GameError::NoCard);
            },
        };
        if card.owner != self.current_player {
            return Err(GameError::NotYourCard);
        }
        let on_opponent_exit = match GameState::exit_owner(from) {
            Some(p) => p == self.current_player.opponent(),
            None => false,
        };
        if !on_opponent_exit {
            return Err(GameError::NotOnOpponentExit);
        }
        if card.line_boost_attached {
            let cur = self.current_player;
            self.remove_line_boost_at(cur, from);
        }
        self.board.set(from, None);
        let scored = OnlineCard {
            revealed: if reveal {
                true
            } else {
                card.revealed
            },
            ..card
        };
        let cur = self.current_player;
        let ps = self.player_mut(cur);
        ps.add_to_stack(scored, stack);
        proof {
            assert(self@ =~~= old(self)@.enter_server_apply(from, reveal, stack));
        }
        Ok(())
    }

    /// Attaches the chosen line-boost slot to the current player's card at
    /// `pos` and sets the card's boost flag.
    pub fn use_line_boost_attach(&mut self, index: usize, pos: Position) -> (r: Result<
        (),
        GameError,
    >)
        ensures
            old(self)@.line_boost_attach_check(index as int, pos) matches Some(e) ==> r == Err::<
                (),
                GameError,
            >(e) && *final(self) == *old(self),
            old(self)@.line_boost_attach_check(index as int, pos) is None ==> r == Ok::<
                (),
                GameError,
            >(()) && final(self)@ == old(self)@.line_boost_attach_apply(index as int, pos),
    {
        match self.phase {
            GamePhase::Playing => {},
            _ => {
                return Err(GameError::NotInPlayingPhase);
            },
        }
        match self.pending_boost_move {
            Some(_) => {
                return Err(GameError::PendingBoostMove);
            },
            None => {},
        }
        if index >= 2 {
            return Err(GameError::InvalidTarget);
        }
        if !Board::in_bounds(pos) {
            return Err(GameError::OutOfBounds);
        }
        let card = match self.board.get(pos) {
            Some(c) => c,
            None => {
                return Err(GameError::NoCard);
            },
        };
        if card.owner != self.current_player {
            return Err(GameError::NotYourCard);
        }
        let cur = self.current_player;
        let ps = self.player_mut(cur);
        ps.line_boosts[index] = Some(pos);
        self.board.set(pos, Some(OnlineCard { line_boost_attached: true, ..card }));
        proof {
            assert(self@ =~~= old(self)@.line_boost_attach_apply(index as int, pos));
        }
        Ok(())
    }

    /// Frees the chosen line-boost slot and clears the flag of the card at
    /// the slot's position when that card is still the current player's.
    pub fn use_line_boost_detach(&mut self, index: usize) -> (r: Result<(), GameError>)
        requires
            old(self)@.wf(),
        ensures
            old(self)@.line_boost_detach_check(index as int) matches Some(e) ==> r == Err::<
                (),
                GameError,
            >(e) && *final(self) == *old(self),
            old(self)@.line_boost_detach_check(index as int) is None ==> r == Ok::<(), GameError>(
                (),
            ) && final(self)@ == old(self)@.line_boost_detach_apply(index as int),
    {
        match self.phase {
            GamePhase::Playing => {},
            _ => {
                return Err(GameError::NotInPlayingPhase);
            },
        }
        match self.pending_boost_move {
            Some(_) => {
                return Err(GameError::PendingBoostMove);
            },
            None => {},
        }
        if index >= 2 {
            return Err(GameError::InvalidTarget);
        }
        let cur = self.current_player;
        let ps = self.player_mut(cur);
        let pos = match ps.line_boosts[index] {
            Some(p) => p,
            None => {
                return Err(GameError::InvalidTarget);
            },
        };
        ps.line_boosts[index] = None;
        match self.board.get(pos) {
            Some(card) => if card.owner == cur {
                self.board.set(pos, Some(OnlineCard { line_boost_attached: false, ..card }));
            },
            None => {},
        }
        proof {
            assert(self@ =~~= old(self)@.line_boost_detach_apply(index as int));
        }
        Ok(())
    }

    /// Spends the chosen one-shot virus-check slot to reveal an opponent's
    /// unrevealed card at `pos`.
    pub fn use_virus_check(&mut self, index: usize, pos: Position) -> (r: Result<(), GameError>)
        ensures
            old(self)@.virus_check_check(index as int, pos) matches Some(e) ==> r == Err::<
                (),
                GameError,
            >(e) && *final(self) == *old(self),
            old(self)@.virus_check_check(index as int, pos) is None ==> r == Ok::<(), GameError>(
                (),
            ) && final(self)@ == old(self)@.virus_check_apply(index as int, pos),
    {
        match self.phase {
            GamePhase::Playing => {},
            _ => {
                return Err(GameError::NotInPlayingPhase);
            },
        }
        match self.pending_boost_move {
            Some(_) => {
                return Err(GameError::PendingBoostMove);
            },
            None => {},
        }
        if index >= 2 {
            return Err(GameError::InvalidTarget);
        }
        let cur = self.current_player;
        if self.player(cur).virus_checks_used[index] {
            return Err(GameError::TerminalCardUsed);
        }
        if !Board::in_bounds(pos) {
            return Err(GameError::OutOfBounds);
        }
        let card = match self.board.get(pos) {
            Some(c) => c,
            None => {
                return Err(GameError::NoCard);
            },
        };
        if card.owner == cur {
            return Err(GameError::InvalidTarget);
        }
        if card.revealed {
            return Err(GameError::InvalidTarget);
        }
        self.board.set(pos, Some(OnlineCard { revealed: true, ..card }));
        let ps = self.player_mut(cur);
        ps.virus_checks_used[index] = true;
        proof {
            assert(self@ =~~= old(self)@.virus_check_apply(index as int, pos));
        }
        Ok(())
    }

    /// Stores a firewall of the current player at `pos`, both in the chosen
    /// currently-unused slot and on the board grid; exits never take
    /// firewalls.
    pub fn use_firewall_place(&mut self, index: usize, pos: Position) -> (r: Result<
        (),
        GameError,
    >)
        ensures
            old(self)@.firewall_place_check(index as int, pos) matches Some(e) ==> r == Err::<
                (),
                GameError,
            >(e) && *final(self) == *old(self),
            old(self)@.firewall_place_check(index as int, pos) is None ==> r == Ok::<(), GameError>(
                (),
            ) && final(self)@ == old(self)@.firewall_place_apply(index as int, pos),
    {
        match self.phase {
            GamePhase::Playing => {},
            _ => {
                return Err(GameError::NotInPlayingPhase);
            },
        }
        match self.pending_boost_move {
            Some(_) => {
                return Err(GameError::PendingBoostMove);
            },
            None => {},
        }
        if index >= 2 {
            return Err(GameError::InvalidTarget);
        }
        if !Board::in_bounds(pos) {
            return Err(GameError::OutOfBounds);
        }
        if GameState::is_exit(pos) {
            return Err(GameError::FirewallOnExit);
        }
        let cur = self.current_player;
        if self.player(cur).firewalls[index].is_some() {
            return Err(GameError::InvalidTarget);
        }
        let ps = self.player_mut(cur);
        ps.firewalls[index] = Some(pos);
        self.board.set_firewall(pos, Some(cur));
        proof {
            assert(self@ =~~= old(self)@.firewall_place_apply(index as int, pos));
        }
        Ok(())
    }

    /// Clears the chosen firewall slot and removes whatever board marker it
    /// held.
    pub fn use_firewall_remove(&mut self, index: usize) -> (r: Result<(), GameError>)
        requires
            old(self)@.wf(),
        ensures
            old(self)@.firewall_remove_check(index as int) matches Some(e) ==> r == Err::<
                (),
                GameError,
            >(e) && *final(self) == *old(self),
            old(self)@.firewall_remove_check(index as int) is None ==> r == Ok::<(), GameError>(())
                && final(self)@ == old(self)@.firewall_remove_apply(index as int),
    {
        match self.phase {
            GamePhase::Playing => {},
            _ => {
                return Err(GameError::NotInPlayingPhase);
            },
        }
        match self.pending_boost_move {
            Some(_) => {
                return Err(GameError::PendingBoostMove);
            },
            None => {},
        }
        if index >= 2 {
            return Err(GameError::InvalidTarget);
        }
        let cur = self.current_player;
        let ps = self.player_mut(cur);
        let slot = ps.firewalls[index];
        ps.firewalls[index] = None;
        match slot {
            Some(pos) => {
                self.board.set_firewall(pos, None);
            },
            None => {},
        }
        proof {
            assert(self@ =~~= old(self)@.firewall_remove_apply(index as int));
        }
        Ok(())
    }

    /// Spends the chosen one-shot repositioning slot on two of the current
    /// player's cards: both are un-revealed, optionally swapped, and the
    /// boost flags of both cells are re-derived from the player's slots.
    pub fn use_404(&mut self, index: usize, first: Position, second: Position, swap: bool) -> (r:
        Result<(), GameError>)
        ensures
            old(self)@.not_found_check(index as int, first, second) matches Some(e) ==> r == Err::<
                (),
                GameError,
            >(e) && *final(self) == *old(self),
            old(self)@.not_found_check(index as int, first, second) is None ==> r == Ok::<
                (),
                GameError,
            >(()) && final(self)@ == old(self)@.not_found_apply(index as int, first, second, swap),
    {
        match self.phase {
            GamePhase::Playing => {},
            _ => {
                return Err(GameError::NotInPlayingPhase);
            },
        }
        match self.pending_boost_move {
            Some(_) => {
                return Err(GameError::PendingBoostMove);
            },
            None => {},
        }
        if index >= 2 {
            return Err(GameError::InvalidTarget);
        }
        let cur = self.current_player;
        if self.player(cur).not_found_used[index] {
            return Err(GameError::TerminalCardUsed);
        }
        if !Board::in_bounds(first) || !Board::in_bounds(second) {
            return Err(GameError::OutOfBounds);
        }
        let card_a = match self.board.get(first) {
            Some(c) => c,
            None => {
                return Err(GameError::NoCard);
            },
        };
        let card_b = match self.board.get(second) {
            Some(c) => c,
            None => {
                return Err(GameError::NoCard);
            },
        };
        if card_a.owner != cur || card_b.owner != cur {
            return Err(GameError::NotYourCard);
        }
        let a2 = OnlineCard { revealed: false, ..card_a };
        let b2 = OnlineCard { revealed: false, ..card_b };
        if swap {
            self.board.set(first, Some(b2));
            self.board.set(second, Some(a2));
        } else {
            self.board.set(first, Some(a2));
            self.board.set(second, Some(b2));
        }
        self.sync_line_boost_flag(cur, first);
        self.sync_line_boost_flag(cur, second);
        let ps = self.player_mut(cur);
        ps.not_found_used[index] = true;
        proof {
            assert(self@ =~~= old(self)@.not_found_apply(index as int, first, second, swap));
        }
        Ok(())
    }

    /// Ends the turn: outside play this is a safe no-op; a met win
    /// condition freezes the match; otherwise the turn passes to the
    /// opponent and any pending boost move is cleared.
    pub fn end_turn(&mut self)
        ensures
            final(self)@ == old(self)@.end_turn_spec(),
            !(old(self)@.phase is Playing) ==> *final(self) == *old(self),
    {
        match self.phase {
            GamePhase::Playing => {},
            _ => {
                return ;
            },
        }
        match self.check_winner() {
            Some(winner) => {
                self.phase = GamePhase::GameOver(winner);
            },
            None => {
                self.current_player = self.current_player.opponent();
                self.pending_boost_move = None;
            },
        }
        proof {
            assert(self@ =~~= old(self)@.end_turn_spec());
        }
    }

    /// The winner under the asymmetric win condition, if any; the P1
    /// thresholds are evaluated first.
    pub fn check_winner(&self) -> (r: Option<PlayerId>)
        ensures
            r == self@.winner_spec(),
    {
        if self.player1.link_stack.len() >= 4 || self.player2.virus_stack.len() >= 4 {
            return Some(PlayerId::P1);
        }
        if self.player2.link_stack.len() >= 4 || self.player1.virus_stack.len() >= 4 {
            return Some(PlayerId::P2);
        }
        None
    }
}

} // verus!
