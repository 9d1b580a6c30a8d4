//! Rules-level laws, proved once and for all over the transition
//! specifications of [`crate::state::GameState`].
//!
//! Each lemma here quantifies over every model value its `requires` admits;
//! together with the operations' own contracts (a rejected call returns
//! exactly the checked error and leaves the state untouched) they pin down
//! the global behaviour of the engine.

use vstd::prelude::*;

use crate::board::Board;
use crate::model::clear_slots;
use crate::model::retarget_slots;
use crate::model::slot_in_bounds;
use crate::model::BoardModel;
use crate::model::GameModel;
use crate::model::PlayerModel;
use crate::protocol::Op;
use crate::state::GameState;
use crate::types::GameError;
use crate::types::GamePhase;
use crate::types::MoveOutcome;
use crate::types::OnlineCard;
use crate::types::OnlineCardType;
use crate::types::PlayerId;
use crate::types::Position;
use crate::types::StackChoice;
use crate::util::apply_op_spec;

verus! {

/// Writing an in-bounds card cell keeps a board model well formed.
proof fn lemma_set_card_wf(b: BoardModel, pos: Position, card: Option<OnlineCard>)
    requires
        b.wf(),
        Board::spec_in_bounds(pos),
    ensures
        b.set_card(pos, card).wf(),
{
    assert forall|q: Position| #[trigger] b.set_card(pos, card).cards.dom().contains(q)
        <==> Board::spec_in_bounds(q) by {
        assert(b.cards.dom().contains(q) <==> Board::spec_in_bounds(q));
    }
}

/// Writing an in-bounds firewall cell keeps a board model well formed.
proof fn lemma_set_firewall_wf(b: BoardModel, pos: Position, owner: Option<PlayerId>)
    requires
        b.wf(),
        Board::spec_in_bounds(pos),
    ensures
        b.set_firewall(pos, owner).wf(),
{
    assert forall|q: Position| #[trigger] b.set_firewall(pos, owner).firewalls.dom().contains(q)
        <==> Board::spec_in_bounds(q) by {
        assert(b.firewalls.dom().contains(q) <==> Board::spec_in_bounds(q));
    }
}

/// Clearing every slot of a pair that points at a cell, or re-pointing
/// them to an in-bounds cell, keeps the pair's positions on the grid.
proof fn lemma_slots_stay_in_bounds(slots: Seq<Option<Position>>, pos: Position, to: Position)
    requires
        slots.len() == 2,
        forall|i: int| 0 <= i < 2 ==> slot_in_bounds(#[trigger] slots[i]),
        Board::spec_in_bounds(to),
    ensures
        clear_slots(slots, pos).len() == 2,
        forall|i: int| 0 <= i < 2 ==> slot_in_bounds(
            #[trigger] clear_slots(slots, pos)[i],
        ),
        retarget_slots(slots, pos, to).len() == 2,
        forall|i: int| 0 <= i < 2 ==> slot_in_bounds(
            #[trigger] retarget_slots(slots, pos, to)[i],
        ),
{
}

/// Bounds safety: whenever an off-grid position reaches an operation whose
/// earlier gates (phase, pending marker, slot index, one-shot flag) pass,
/// the operation rejects with `OutOfBounds` — and by each operation's own
/// contract a rejected call mutates nothing.
pub proof fn law_bounds_safety(
    s: GameModel,
    p: Position,
    q: Position,
    player: PlayerId,
    card_type: OnlineCardType,
    index: int,
)
    requires
        !Board::spec_in_bounds(p),
        0 <= index < 2,
    ensures
        s.phase is Playing && s.pending_boost_move is None ==> s.start_move_check(p, q)
            == Some(GameError::OutOfBounds) && s.start_move_check(q, p) == Some(
            GameError::OutOfBounds,
        ),
        s.phase is Playing && s.pending_boost_move is None ==> s.enter_server_check(p) == Some(
            GameError::OutOfBounds,
        ),
        s.phase == GamePhase::Setup(player) ==> s.place_setup_check(player, p, card_type) == Some(
            GameError::OutOfBounds,
        ),
        s.phase == GamePhase::Setup(player) ==> s.remove_setup_check(player, p) == Some(
            GameError::OutOfBounds,
        ),
        s.phase is Playing && s.pending_boost_move is None ==> s.line_boost_attach_check(index, p)
            == Some(GameError::OutOfBounds),
        s.phase is Playing && s.pending_boost_move is None
            && !s.player(s.current_player).virus_checks_used[index] ==> s.virus_check_check(
            index,
            p,
        ) == Some(GameError::OutOfBounds),
        s.phase is Playing && s.pending_boost_move is None ==> s.firewall_place_check(index, p)
            == Some(GameError::OutOfBounds),
        s.phase is Playing && s.pending_boost_move is None
            && !s.player(s.current_player).not_found_used[index] ==> s.not_found_check(index, p, q)
            == Some(GameError::OutOfBounds) && s.not_found_check(index, q, p) == Some(
            GameError::OutOfBounds,
        ),
{
}

/// Setup turn order: while it is one player's setup turn, the other player
/// can neither place nor remove a card.
pub proof fn law_setup_turn_order(
    s: GameModel,
    active: PlayerId,
    player: PlayerId,
    pos: Position,
    card_type: OnlineCardType,
)
    requires
        s.phase == GamePhase::Setup(active),
        player != active,
    ensures
        s.place_setup_check(player, pos, card_type) == Some(GameError::SetupNotCurrentPlayer),
        s.remove_setup_check(player, pos) == Some(GameError::SetupNotCurrentPlayer),
{
}

/// Setup success, exactly: a placement goes through precisely when it is
/// the placing player's setup turn, the cell is an empty reserved cell of
/// that player on the grid, and a card of the requested kind is still
/// left — so a further placement of an exhausted kind is rejected with
/// `SetupExhausted`.
pub proof fn law_place_setup_succeeds_iff(
    s: GameModel,
    player: PlayerId,
    pos: Position,
    card_type: OnlineCardType,
)
    ensures
        s.place_setup_check(player, pos, card_type) is None <==> {
            &&& s.phase == GamePhase::Setup(player)
            &&& Board::spec_in_bounds(pos)
            &&& player.is_setup_position(pos)
            &&& s.board.card(pos) is None
            &&& (match card_type {
                OnlineCardType::Link => s.player(player).setup_links_left > 0,
                OnlineCardType::Virus => s.player(player).setup_viruses_left > 0,
            })
        },
        s.phase == GamePhase::Setup(player) && s.can_place_setup_at(player, pos) && (match card_type {
            OnlineCardType::Link => s.player(player).setup_links_left <= 0,
            OnlineCardType::Virus => s.player(player).setup_viruses_left <= 0,
        }) ==> s.place_setup_check(player, pos, card_type) == Some(GameError::SetupExhausted),
{
}

/// Setup phase advance: a successful placement advances the phase exactly
/// when it is the player's eighth, P1's turn handing over to P2's and P2's
/// opening play.
pub proof fn law_setup_phase_advance(
    s: GameModel,
    player: PlayerId,
    pos: Position,
    card_type: OnlineCardType,
)
    requires
        s.place_setup_check(player, pos, card_type) is None,
    ensures
        s.player(player).setup_placed + 1 == 8 ==> s.place_setup_apply(player, pos, card_type).phase
            == (match player {
            PlayerId::P1 => GamePhase::Setup(PlayerId::P2),
            PlayerId::P2 => GamePhase::Playing,
        }),
        s.player(player).setup_placed + 1 != 8 ==> s.place_setup_apply(player, pos, card_type).phase
            == s.phase,
{
}

/// Setup round trip: removing a card straight after placing it (while the
/// phase has not advanced) restores the whole state — counters, board and
/// phase — exactly.
pub proof fn law_setup_round_trip(
    s: GameModel,
    player: PlayerId,
    pos: Position,
    card_type: OnlineCardType,
)
    requires
        s.board.wf(),
        s.player(player).wf(),
        s.place_setup_check(player, pos, card_type) is None,
        s.player(player).setup_placed + 1 != 8,
    ensures
        s.place_setup_apply(player, pos, card_type).remove_setup_check(player, pos) is None,
        s.place_setup_apply(player, pos, card_type).remove_setup_apply(player, pos) == s,
{
    let s2 = s.place_setup_apply(player, pos, card_type);
    assert(s2.board.card(pos) == Some(OnlineCard {
        card_type: card_type,
        revealed: false,
        line_boost_attached: false,
        owner: player,
    }));
    let s3 = s2.remove_setup_apply(player, pos);
    assert(s3.board.cards =~= s.board.cards);
    assert(s3 =~~= s);
}

/// Move legality: a fresh move succeeds precisely when no boost
/// continuation is pending, the game is in play, both ends are on the grid
/// and exactly one step apart, the source holds the mover's card, and the
/// destination is neither the mover's own card, nor the mover's own exit,
/// nor blocked by an opponent firewall.
pub proof fn law_move_legality(s: GameModel, from: Position, to: Position)
    ensures
        s.start_move_check(from, to) is None <==> {
            &&& s.pending_boost_move is None
            &&& s.phase is Playing
            &&& Board::spec_in_bounds(from)
            &&& Board::spec_in_bounds(to)
            &&& from.spec_manhattan_distance(to) == 1
            &&& s.board.card(from) matches Some(card) && card.owner == s.current_player
            &&& !s.board.has_own_card(to, s.current_player)
            &&& GameState::spec_exit_owner(to) != Some(s.current_player)
            &&& s.board.firewall(to) != Some(s.current_player.opponent())
        },
{
}

/// Capture: a legal move onto an opponent's card always reveals that card,
/// appends it — owner unchanged — to the mover's stack matching the card's
/// kind, leaves the mover's card alone on the destination, and ends the
/// turn.
pub proof fn law_capture(s: GameModel, from: Position, to: Position, can_start: bool)
    requires
        s.move_check(from, to) is None,
        s.board.has_opponent_card(to, s.current_player),
    ensures
        ({
            let (s2, outcome) = s.move_apply(from, to, can_start);
            let mover = s.board.card(from)->Some_0;
            let captured = OnlineCard { revealed: true, ..s.board.card(to)->Some_0 };
            &&& outcome == MoveOutcome::TurnEnds
            &&& s2.board.card(to) == Some(mover)
            &&& s2.board.card(from) is None
            &&& captured.owner == s.current_player.opponent()
            &&& captured.card_type is Link ==> s2.player(s.current_player).link_stack == s.player(
                s.current_player,
            ).link_stack.push(captured) && s2.player(s.current_player).virus_stack == s.player(
                s.current_player,
            ).virus_stack
            &&& captured.card_type is Virus ==> s2.player(s.current_player).virus_stack == s.player(
                s.current_player,
            ).virus_stack.push(captured) && s2.player(s.current_player).link_stack == s.player(
                s.current_player,
            ).link_stack
        }),
{
    let cur = s.current_player;
    let oc = s.board.card(to)->Some_0;
    assert(oc.owner == cur.opponent());
    let s1 = if oc.line_boost_attached {
        s.remove_line_boost_at_spec(oc.owner, to)
    } else {
        s
    };
    assert(s1.player(cur).link_stack == s.player(cur).link_stack);
    assert(s1.player(cur).virus_stack == s.player(cur).virus_stack);
}

/// Exclusivity: while a boost continuation is pending, every other
/// operation of the playing phase is rejected — fresh moves and the
/// terminal actions with `PendingBoostMove`, scoring with
/// `CannotEnterServerWithBoost`; only the matching continuation (or
/// `end_turn`) may proceed.
pub proof fn law_pending_blocks(
    s: GameModel,
    from: Position,
    to: Position,
    index: int,
    pending: Position,
)
    requires
        s.phase is Playing,
        s.pending_boost_move == Some(pending),
        0 <= index < 2,
    ensures
        s.start_move_check(from, to) == Some(GameError::PendingBoostMove),
        s.enter_server_check(from) == Some(GameError::CannotEnterServerWithBoost),
        s.line_boost_attach_check(index, to) == Some(GameError::PendingBoostMove),
        s.line_boost_detach_check(index) == Some(GameError::PendingBoostMove),
        s.virus_check_check(index, to) == Some(GameError::PendingBoostMove),
        s.firewall_place_check(index, to) == Some(GameError::PendingBoostMove),
        s.firewall_remove_check(index) == Some(GameError::PendingBoostMove),
        s.not_found_check(index, from, to) == Some(GameError::PendingBoostMove),
        from != pending ==> s.continue_boost_check(from, to) == Some(
            GameError::NoPendingBoostMove,
        ),
        from == pending ==> s.continue_boost_check(from, to) == (GameModel {
            pending_boost_move: None,
            ..s
        }).move_check(from, to),
{
}

/// A pending continuation exists exactly while a boost chain is open: a
/// legal move step taken with no marker set leaves one behind precisely
/// when it answers "can move again", and the marker then names the moved
/// card's new position. `end_turn` unconditionally clears the marker.
pub proof fn law_pending_marks_open_chain(
    s: GameModel,
    from: Position,
    to: Position,
    can_start: bool,
)
    requires
        s.pending_boost_move is None,
        s.move_check(from, to) is None,
    ensures
        ({
            let (s2, outcome) = s.move_apply(from, to, can_start);
            &&& s2.pending_boost_move is Some <==> outcome == MoveOutcome::CanMoveAgain
            &&& outcome == MoveOutcome::CanMoveAgain ==> s2.pending_boost_move == Some(to)
        }),
        s.winner_spec() is None && s.phase is Playing ==> s.end_turn_spec().pending_boost_move
            is None,
{
}

/// Detaching a line boost preserves validity.
proof fn lemma_remove_line_boost_wf(s: GameModel, player: PlayerId, pos: Position)
    requires
        s.wf(),
        Board::spec_in_bounds(pos),
    ensures
        s.remove_line_boost_at_spec(player, pos).wf(),
{
    lemma_slots_stay_in_bounds(s.player(player).line_boosts, pos, pos);
    match s.board.card(pos) {
        Some(c) => if c.owner == player {
            lemma_set_card_wf(
                s.board,
                pos,
                Some(OnlineCard { line_boost_attached: false, ..c }),
            );
        },
        None => {},
    }
}

/// Re-deriving a boost flag preserves validity.
proof fn lemma_sync_flag_wf(s: GameModel, player: PlayerId, pos: Position)
    requires
        s.wf(),
        Board::spec_in_bounds(pos),
    ensures
        s.sync_line_boost_flag_spec(player, pos).wf(),
{
    let attached = crate::model::slot_points(s.player(player).line_boosts, pos);
    match s.board.card(pos) {
        Some(c) => if c.owner == player {
            lemma_set_card_wf(s.board, pos, Some(OnlineCard { line_boost_attached: attached, ..c }));
        },
        None => {},
    }
}

/// A legal move step preserves validity.
proof fn lemma_move_preserves_wf(s: GameModel, from: Position, to: Position, can_start: bool)
    requires
        s.wf(),
        s.move_check(from, to) is None,
    ensures
        s.move_apply(from, to, can_start).0.wf(),
{
    let cur = s.current_player;
    let card = s.board.card(from)->Some_0;
    if s.board.has_opponent_card(to, cur) {
        let oc = s.board.card(to)->Some_0;
        let s1 = if oc.line_boost_attached {
            s.remove_line_boost_at_spec(oc.owner, to)
        } else {
            s
        };
        if oc.line_boost_attached {
            lemma_remove_line_boost_wf(s, oc.owner, to);
        }
        let pm = s1.player(cur);
        let captured = OnlineCard { revealed: true, ..oc };
        let pm2 = if captured.card_type is Link {
            PlayerModel { link_stack: pm.link_stack.push(captured), ..pm }
        } else {
            PlayerModel { virus_stack: pm.virus_stack.push(captured), ..pm }
        };
        let s2 = s1.with_player(cur, pm2);
        lemma_set_card_wf(s2.board, to, None);
        lemma_set_card_wf(s2.board.set_card(to, None), from, None);
        lemma_set_card_wf(s2.board.set_card(to, None).set_card(from, None), to, Some(card));
    } else {
        lemma_set_card_wf(s.board, from, None);
        lemma_set_card_wf(s.board.set_card(from, None), to, Some(card));
        if card.line_boost_attached {
            lemma_slots_stay_in_bounds(s.player(cur).line_boosts, from, to);
        }
    }
}

/// Ending the turn preserves validity: it only touches the phase, the
/// current player and the pending marker.
proof fn lemma_end_turn_wf(s: GameModel)
    requires
        s.wf(),
    ensures
        s.end_turn_spec().wf(),
{
}

// The next eleven lemmas are the per-operation cases of
// `law_apply_op_preserves_validity`, below.
proof fn lemma_preserve_setup(g: GameModel, player: PlayerId, card: OnlineCardType, row: usize, col: usize)
    requires
        g.wf(),
        g.place_setup_check(player, (Position { row, col }), card) is None ==> g.player(
            player,
        ).setup_placed < 8,
    ensures
        apply_op_spec(g, player, Op::Setup { card, row, col }).0.wf(),
{
    let pos = Position { row, col };
    if g.place_setup_check(player, pos, card) is None {
        lemma_set_card_wf(
            g.board,
            pos,
            Some(
                OnlineCard {
                    card_type: card,
                    revealed: false,
                    line_boost_attached: false,
                    owner: player,
                },
            ),
        );
    }
}

proof fn lemma_preserve_remove(g: GameModel, player: PlayerId, row: usize, col: usize)
    requires
        g.wf(),
        g.remove_setup_check(player, (Position { row, col })) is None ==> ({
            let removed = g.board.card((Position { row, col }))->Some_0;
            &&& g.player(player).setup_placed >= 1
            &&& removed.card_type is Link ==> g.player(player).setup_links_left < 4
            &&& removed.card_type is Virus ==> g.player(player).setup_viruses_left < 4
        }),
    ensures
        apply_op_spec(g, player, Op::Remove { row, col }).0.wf(),
{
    let pos = Position { row, col };
    if g.remove_setup_check(player, pos) is None {
        lemma_set_card_wf(g.board, pos, None);
    }
}

proof fn lemma_preserve_move(g: GameModel, player: PlayerId, from: Position, to: Position)
    requires
        g.wf(),
    ensures
        apply_op_spec(g, player, Op::Move { from, to }).0.wf(),
{
    if g.start_move_check(from, to) is None {
        lemma_move_preserves_wf(g, from, to, true);
        lemma_end_turn_wf(g.move_apply(from, to, true).0);
    }
}

proof fn lemma_preserve_boost(g: GameModel, player: PlayerId, from: Position, to: Position)
    requires
        g.wf(),
    ensures
        apply_op_spec(g, player, Op::Boost { from, to }).0.wf(),
{
    if g.continue_boost_check(from, to) is None {
        let s0 = GameModel { pending_boost_move: None, ..g };
        lemma_move_preserves_wf(s0, from, to, false);
        lemma_end_turn_wf(s0.move_apply(from, to, false).0);
    }
}

proof fn lemma_preserve_enter(
    g: GameModel,
    player: PlayerId,
    from: Position,
    reveal: bool,
    stack: StackChoice,
)
    requires
        g.wf(),
    ensures
        apply_op_spec(g, player, Op::Enter { from, reveal, stack }).0.wf(),
{
    let cur = g.current_player;
    if g.enter_server_check(from) is None {
        lemma_remove_line_boost_wf(g, cur, from);
        let card = g.board.card(from)->Some_0;
        let s1 = if card.line_boost_attached {
            g.remove_line_boost_at_spec(cur, from)
        } else {
            g
        };
        lemma_set_card_wf(s1.board, from, None);
        lemma_end_turn_wf(g.enter_server_apply(from, reveal, stack));
    }
}

proof fn lemma_preserve_attach(g: GameModel, player: PlayerId, pos: Position)
    requires
        g.wf(),
    ensures
        apply_op_spec(g, player, Op::LineBoostAttach { pos }).0.wf(),
{
    let cur = g.current_player;
    let index = crate::util::slot_or_zero(crate::util::first_none_slot(g.player(cur).line_boosts));
    if g.line_boost_attach_check(index, pos) is None {
        let card = g.board.card(pos)->Some_0;
        lemma_set_card_wf(g.board, pos, Some(OnlineCard { line_boost_attached: true, ..card }));
        lemma_end_turn_wf(g.line_boost_attach_apply(index, pos));
    }
}

proof fn lemma_preserve_detach(g: GameModel, player: PlayerId, pos: Position)
    requires
        g.wf(),
    ensures
        apply_op_spec(g, player, Op::LineBoostDetach { pos }).0.wf(),
{
    let cur = g.current_player;
    let index = crate::util::slot_or_zero(crate::util::find_slot(g.player(cur).line_boosts, pos));
    if g.line_boost_detach_check(index) is None {
        let slot_pos = g.player(cur).line_boosts[index]->Some_0;
        assert(Board::spec_in_bounds(slot_pos));
        match g.board.card(slot_pos) {
            Some(c) => if c.owner == cur {
                lemma_set_card_wf(
                    g.board,
                    slot_pos,
                    Some(OnlineCard { line_boost_attached: false, ..c }),
                );
            },
            None => {},
        }
        lemma_end_turn_wf(g.line_boost_detach_apply(index));
    }
}

proof fn lemma_preserve_virus_check(g: GameModel, player: PlayerId, pos: Position)
    requires
        g.wf(),
    ensures
        apply_op_spec(g, player, Op::VirusCheck { pos }).0.wf(),
{
    let cur = g.current_player;
    let index = crate::util::slot_or_zero(
        crate::util::first_unused_flag(g.player(cur).virus_checks_used),
    );
    if g.virus_check_check(index, pos) is None {
        let card = g.board.card(pos)->Some_0;
        lemma_set_card_wf(g.board, pos, Some(OnlineCard { revealed: true, ..card }));
        lemma_end_turn_wf(g.virus_check_apply(index, pos));
    }
}

proof fn lemma_preserve_firewall_place(g: GameModel, player: PlayerId, pos: Position)
    requires
        g.wf(),
    ensures
        apply_op_spec(g, player, Op::FirewallPlace { pos }).0.wf(),
{
    let cur = g.current_player;
    let index = crate::util::slot_or_zero(crate::util::first_none_slot(g.player(cur).firewalls));
    if g.firewall_place_check(index, pos) is None {
        lemma_set_firewall_wf(g.board, pos, Some(cur));
        lemma_end_turn_wf(g.firewall_place_apply(index, pos));
    }
}

proof fn lemma_preserve_firewall_remove(g: GameModel, player: PlayerId, pos: Position)
    requires
        g.wf(),
    ensures
        apply_op_spec(g, player, Op::FirewallRemove { pos }).0.wf(),
{
    let cur = g.current_player;
    let index = crate::util::slot_or_zero(crate::util::find_slot(g.player(cur).firewalls, pos));
    if g.firewall_remove_check(index) is None {
        match g.player(cur).firewalls[index] {
            Some(p) => {
                assert(Board::spec_in_bounds(p));
                lemma_set_firewall_wf(g.board, p, None);
            },
            None => {},
        }
        lemma_end_turn_wf(g.firewall_remove_apply(index));
    }
}

proof fn lemma_preserve_not_found(
    g: GameModel,
    player: PlayerId,
    first: Position,
    second: Position,
    swap: bool,
)
    requires
        g.wf(),
    ensures
        apply_op_spec(g, player, Op::NotFound { first, second, swap }).0.wf(),
{
    let cur = g.current_player;
    let index = crate::util::slot_or_zero(
        crate::util::first_unused_flag(g.player(cur).not_found_used),
    );
    if g.not_found_check(index, first, second) is None {
        let a = g.board.card(first)->Some_0;
        let b = g.board.card(second)->Some_0;
        let a2 = OnlineCard { revealed: false, ..a };
        let b2 = OnlineCard { revealed: false, ..b };
        if swap {
            lemma_set_card_wf(g.board, first, Some(b2));
            lemma_set_card_wf(g.board.set_card(first, Some(b2)), second, Some(a2));
        } else {
            lemma_set_card_wf(g.board, first, Some(a2));
            lemma_set_card_wf(g.board.set_card(first, Some(a2)), second, Some(b2));
        }
        let board2 = if swap {
            g.board.set_card(first, Some(b2)).set_card(second, Some(a2))
        } else {
            g.board.set_card(first, Some(a2)).set_card(second, Some(b2))
        };
        let s2 = GameModel { board: board2, ..g };
        lemma_sync_flag_wf(s2, cur, first);
        lemma_sync_flag_wf(s2.sync_line_boost_flag_spec(cur, first), cur, second);
        lemma_end_turn_wf(g.not_found_apply(index, first, second, swap));
    }
}

/// Validity is preserved across play: applying any wire operation to a
/// well-formed match leaves a well-formed match, so a caller may chain
/// operations indefinitely. Two corners of the original arithmetic need
/// the reachability facts below as premises, each vacuous in any match
/// driven from `GameState::new` through the operations themselves: a
/// setup placement with all eight cards already placed would push
/// `setup_placed` past its bound (unreachable — the phase advances away at
/// the eighth placement), and a setup removal with no outstanding
/// placement of the removed card's kind would push that counter past four
/// (unreachable — every removable card records an outstanding placement of
/// its kind).
pub proof fn law_apply_op_preserves_validity(g: GameModel, player: PlayerId, op: Op)
    requires
        g.wf(),
        op matches Op::Setup { card, row, col } ==> (g.place_setup_check(
            player,
            (Position { row, col }),
            card,
        ) is None ==> g.player(player).setup_placed < 8),
        op matches Op::Remove { row, col } ==> (g.remove_setup_check(
            player,
            (Position { row, col }),
        ) is None ==> {
            let removed = g.board.card((Position { row, col }))->Some_0;
            &&& g.player(player).setup_placed >= 1
            &&& removed.card_type is Link ==> g.player(player).setup_links_left < 4
            &&& removed.card_type is Virus ==> g.player(player).setup_viruses_left < 4
        }),
    ensures
        apply_op_spec(g, player, op).0.wf(),
{
    match op {
        Op::Setup { card, row, col } => lemma_preserve_setup(g, player, card, row, col),
        Op::Remove { row, col } => lemma_preserve_remove(g, player, row, col),
        Op::Move { from, to } => lemma_preserve_move(g, player, from, to),
        Op::Boost { from, to } => lemma_preserve_boost(g, player, from, to),
        Op::Enter { from, reveal, stack } => lemma_preserve_enter(g, player, from, reveal, stack),
        Op::LineBoostAttach { pos } => lemma_preserve_attach(g, player, pos),
        Op::LineBoostDetach { pos } => lemma_preserve_detach(g, player, pos),
        Op::VirusCheck { pos } => lemma_preserve_virus_check(g, player, pos),
        Op::FirewallPlace { pos } => lemma_preserve_firewall_place(g, player, pos),
        Op::FirewallRemove { pos } => lemma_preserve_firewall_remove(g, player, pos),
        Op::NotFound { first, second, swap } => lemma_preserve_not_found(
            g,
            player,
            first,
            second,
            swap,
        ),
        Op::EndTurn => lemma_end_turn_wf(g),
    }
}

/// Win asymmetry: `end_turn` evaluates P1's thresholds first, so whenever
/// P1 has four scored Link cards or P2 holds four Virus cards — even if P2
/// simultaneously meets a winning threshold too — the match freezes with
/// P1 as the winner.
pub proof fn law_win_asymmetry(s: GameModel)
    requires
        s.phase is Playing,
        s.player1.link_stack.len() >= 4 || s.player2.virus_stack.len() >= 4,
    ensures
        s.winner_spec() == Some(PlayerId::P1),
        s.end_turn_spec().phase == GamePhase::GameOver(PlayerId::P1),
{
}

} // verus!
