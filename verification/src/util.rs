//! Queries that pick slot indices for the current player's terminal
//! actions, and the application of one wire operation to a match.

use vstd::prelude::*;

use crate::model::GameModel;
use crate::player::slot_eq;
use crate::protocol::Op;
use crate::state::GameState;
use crate::types::GameError;
use crate::types::MoveOutcome;
use crate::types::PlayerId;
use crate::types::Position;

verus! {

/// The first of the two slots that is free, if any.
pub open spec fn first_none_slot(slots: Seq<Option<Position>>) -> Option<usize> {
    if slots[0] is None {
        Some(0usize)
    } else if slots[1] is None {
        Some(1usize)
    } else {
        None
    }
}

/// The first of the two slots that points at `pos`, if any.
pub open spec fn find_slot(slots: Seq<Option<Position>>, pos: Position) -> Option<usize> {
    if slots[0] == Some(pos) {
        Some(0usize)
    } else if slots[1] == Some(pos) {
        Some(1usize)
    } else {
        None
    }
}

/// The first of the two one-shot flags that is still unspent, if any.
pub open spec fn first_unused_flag(flags: Seq<bool>) -> Option<usize> {
    if !flags[0] {
        Some(0usize)
    } else if !flags[1] {
        Some(1usize)
    } else {
        None
    }
}

/// The first free line-boost slot of the current player.
pub fn first_free_line_boost(game: &GameState) -> (r: Option<usize>)
    ensures
        r == first_none_slot(game@.player(game@.current_player).line_boosts),
{
    let slots = &game.player(game.current_player).line_boosts;
    if slots[0].is_none() {
        Some(0)
    } else if slots[1].is_none() {
        Some(1)
    } else {
        None
    }
}

/// The line-boost slot of the current player that points at `pos`, if any.
pub fn find_line_boost_slot(game: &GameState, pos: Position) -> (r: Option<usize>)
    ensures
        r == find_slot(game@.player(game@.current_player).line_boosts, pos),
{
    let slots = &game.player(game.current_player).line_boosts;
    if slot_eq(slots[0], pos) {
        Some(0)
    } else if slot_eq(slots[1], pos) {
        Some(1)
    } else {
        None
    }
}

/// The first free firewall slot of the current player.
pub fn first_free_firewall(game: &GameState) -> (r: Option<usize>)
    ensures
        r == first_none_slot(game@.player(game@.current_player).firewalls),
{
    let slots = &game.player(game.current_player).firewalls;
    if slots[0].is_none() {
        Some(0)
    } else if slots[1].is_none() {
        Some(1)
    } else {
        None
    }
}

/// The firewall slot of the current player that points at `pos`, if any.
pub fn find_firewall_slot(game: &GameState, pos: Position) -> (r: Option<usize>)
    ensures
        r == find_slot(game@.player(game@.current_player).firewalls, pos),
{
    let slots = &game.player(game.current_player).firewalls;
    if slot_eq(slots[0], pos) {
        Some(0)
    } else if slot_eq(slots[1], pos) {
        Some(1)
    } else {
        None
    }
}

/// The first unspent virus-check slot of the current player.
pub fn first_unused_virus_check(game: &GameState) -> (r: Option<usize>)
    ensures
        r == first_unused_flag(game@.player(game@.current_player).virus_checks_used),
{
    let flags = &game.player(game.current_player).virus_checks_used;
    if !flags[0] {
        Some(0)
    } else if !flags[1] {
        Some(1)
    } else {
        None
    }
}

/// The first unspent repositioning slot of the current player.
pub fn first_unused_not_found(game: &GameState) -> (r: Option<usize>)
    ensures
        r == first_unused_flag(game@.player(game@.current_player).not_found_used),
{
    let flags = &game.player(game.current_player).not_found_used;
    if !flags[0] {
        Some(0)
    } else if !flags[1] {
        Some(1)
    } else {
        None
    }
}

/// The chosen index, or the first slot when no slot matched.
pub open spec fn slot_or_zero(r: Option<usize>) -> int {
    match r {
        Some(i) => i as int,
        None => 0,
    }
}

/// The state and result of applying one wire operation on behalf of the
/// current player: a terminal action picks its slot index exactly as the
/// queries above do, and every successful operation other than an
/// unfinished boost chain ends the turn.
pub open spec fn apply_op_spec(g: GameModel, player: PlayerId, op: Op) -> (
    GameModel,
    Result<(), GameError>,
) {
    match op {
        Op::Setup { card, row, col } => {
            let pos = Position { row, col };
            match g.place_setup_check(player, pos, card) {
                Some(e) => (g, Err(e)),
                None => (g.place_setup_apply(player, pos, card), Ok(())),
            }
        },
        Op::Remove { row, col } => {
            let pos = Position { row, col };
            match g.remove_setup_check(player, pos) {
                Some(e) => (g, Err(e)),
                None => (g.remove_setup_apply(player, pos), Ok(())),
            }
        },
        Op::Move { from, to } => match g.start_move_check(from, to) {
            Some(e) => (g, Err(e)),
            None => {
                let (g2, outcome) = g.move_apply(from, to, true);
                if outcome == MoveOutcome::TurnEnds {
                    (g2.end_turn_spec(), Ok(()))
                } else {
                    (g2, Ok(()))
                }
            },
        },
        Op::Boost { from, to } => match g.continue_boost_check(from, to) {
            Some(e) => (g, Err(e)),
            None => (g.continue_boost_apply(from, to).0.end_turn_spec(), Ok(())),
        },
        Op::Enter { from, reveal, stack } => match g.enter_server_check(from) {
            Some(e) => (g, Err(e)),
            None => (g.enter_server_apply(from, reveal, stack).end_turn_spec(), Ok(())),
        },
        Op::LineBoostAttach { pos } => {
            let index = slot_or_zero(first_none_slot(g.player(g.current_player).line_boosts));
            match g.line_boost_attach_check(index, pos) {
                Some(e) => (g, Err(e)),
                None => (g.line_boost_attach_apply(index, pos).end_turn_spec(), Ok(())),
            }
        },
        Op::LineBoostDetach { pos } => {
            let index = slot_or_zero(find_slot(g.player(g.current_player).line_boosts, pos));
            match g.line_boost_detach_check(index) {
                Some(e) => (g, Err(e)),
                None => (g.line_boost_detach_apply(index).end_turn_spec(), Ok(())),
            }
        },
        Op::VirusCheck { pos } => {
            let index = slot_or_zero(
                first_unused_flag(g.player(g.current_player).virus_checks_used),
            );
            match g.virus_check_check(index, pos) {
                Some(e) => (g, Err(e)),
                None => (g.virus_check_apply(index, pos).end_turn_spec(), Ok(())),
            }
        },
        Op::FirewallPlace { pos } => {
            let index = slot_or_zero(first_none_slot(g.player(g.current_player).firewalls));
            match g.firewall_place_check(index, pos) {
                Some(e) => (g, Err(e)),
                None => (g.firewall_place_apply(index, pos).end_turn_spec(), Ok(())),
            }
        },
        Op::FirewallRemove { pos } => {
            let index = slot_or_zero(find_slot(g.player(g.current_player).firewalls, pos));
            match g.firewall_remove_check(index) {
                Some(e) => (g, Err(e)),
                None => (g.firewall_remove_apply(index).end_turn_spec(), Ok(())),
            }
        },
        Op::NotFound { first, second, swap } => {
            let index = slot_or_zero(
                first_unused_flag(g.player(g.current_player).not_found_used),
            );
            match g.not_found_check(index, first, second) {
                Some(e) => (g, Err(e)),
                None => (g.not_found_apply(index, first, second, swap).end_turn_spec(), Ok(())),
            }
        },
        Op::EndTurn => (g.end_turn_spec(), Ok(())),
    }
}

/// Applies one wire operation on behalf of the current player, choosing
/// terminal-action slots automatically and ending the turn after every
/// success that does not leave a boost chain open.
#[verifier::rlimit(100)]
pub fn apply_op(game: &mut GameState, player: PlayerId, op: Op) -> (r: Result<(), GameError>)
    requires
        old(game)@.wf(),
    ensures
        final(game)@ == apply_op_spec(old(game)@, player, op).0,
        r == apply_op_spec(old(game)@, player, op).1,
{
    match op {
        Op::Setup { card, row, col } => game.place_setup_card(player, Position { row, col }, card),
        Op::Remove { row, col } => game.remove_setup_card(player, Position { row, col }),
        Op::Move { from, to } => match game.start_move(from, to) {
            Ok(outcome) => {
                match outcome {
                    MoveOutcome::TurnEnds => game.end_turn(),
                    MoveOutcome::CanMoveAgain => {},
                }
                Ok(())
            },
            Err(e) => Err(e),
        },
        Op::Boost { from, to } => match game.continue_boost_move(from, to) {
            Ok(_) => {
                game.end_turn();
                Ok(())
            },
            Err(e) => Err(e),
        },
        Op::Enter { from, reveal, stack } => match game.enter_server_center(from, reveal, stack) {
            Ok(_) => {
                game.end_turn();
                Ok(())
            },
            Err(e) => Err(e),
        },
        Op::LineBoostAttach { pos } => {
            let index = match first_free_line_boost(game) {
                Some(i) => i,
                None => 0,
            };
            match game.use_line_boost_attach(index, pos) {
                Ok(_) => {
                    game.end_turn();
                    Ok(())
                },
                Err(e) => Err(e),
            }
        },
        Op::LineBoostDetach { pos } => {
            let index = match find_line_boost_slot(game, pos) {
                Some(i) => i,
                None => 0,
            };
            match game.use_line_boost_detach(index) {
                Ok(_) => {
                    game.end_turn();
                    Ok(())
                },
                Err(e) => Err(e),
            }
        },
        Op::VirusCheck { pos } => {
            let index = match first_unused_virus_check(game) {
                Some(i) => i,
                None => 0,
            };
            match game.use_virus_check(index, pos) {
                Ok(_) => {
                    game.end_turn();
                    Ok(())
                },
                Err(e) => Err(e),
            }
        },
        Op::FirewallPlace { pos } => {
            let index = match first_free_firewall(game) {
                Some(i) => i,
                None => 0,
            };
            match game.use_firewall_place(index, pos) {
                Ok(_) => {
                    game.end_turn();
                    Ok(())
                },
                Err(e) => Err(e),
            }
        },
        Op::FirewallRemove { pos } => {
            let index = match find_firewall_slot(game, pos) {
                Some(i) => i,
                None => 0,
            };
            match game.use_firewall_remove(index) {
                Ok(_) => {
                    game.end_turn();
                    Ok(())
                },
                Err(e) => Err(e),
            }
        },
        Op::NotFound { first, second, swap } => {
            let index = match first_unused_not_found(game) {
                Some(i) => i,
                None => 0,
            };
            match game.use_404(index, first, second, swap) {
                Ok(_) => {
                    game.end_turn();
                    Ok(())
                },
                Err(e) => Err(e),
            }
        },
        Op::EndTurn => {
            game.end_turn();
            Ok(())
        },
    }
}

} // verus!
