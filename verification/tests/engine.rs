use rainet::protocol::encode_state;
use rainet::types::GameError;
use rainet::types::GamePhase;
use rainet::types::MoveOutcome;
use rainet::types::OnlineCard;
use rainet::types::OnlineCardType;
use rainet::types::PlayerId;
use rainet::types::Position;
use rainet::types::StackChoice;
use rainet::GameState;

fn pos(row: usize, col: usize) -> Position {
    Position::new(row, col)
}

fn card(owner: PlayerId, kind: OnlineCardType) -> OnlineCard {
    OnlineCard { card_type: kind, revealed: false, line_boost_attached: false, owner }
}

fn playing() -> GameState {
    let mut g = GameState::new();
    g.phase = GamePhase::Playing;
    g
}

fn snapshot(g: &GameState) -> String {
    encode_state(g, &["a".to_string(), "b".to_string()])
}

#[test]
fn new_game_initial_state() {
    let g = GameState::new();
    assert_eq!(g.phase, GamePhase::Setup(PlayerId::P1));
    assert_eq!(g.current_player, PlayerId::P1);
    assert_eq!(g.pending_boost_move, None);
    assert_eq!(g.player1.setup_links_left, 4);
    assert_eq!(g.player1.setup_viruses_left, 4);
    assert_eq!(g.player1.setup_placed, 0);
    assert!(g.board.get(pos(0, 0)).is_none());
    assert!(g.player1.link_stack.is_empty());
    assert!(g.player2.virus_stack.is_empty());
}

#[test]
fn setup_placement_decrements_counters() {
    let mut g = GameState::new();
    assert_eq!(g.place_setup_card(PlayerId::P1, pos(0, 0), OnlineCardType::Link), Ok(()));
    assert_eq!(g.player1.setup_links_left, 3);
    assert_eq!(g.player1.setup_placed, 1);
    let c = g.board.get(pos(0, 0)).unwrap();
    assert_eq!(c.owner, PlayerId::P1);
    assert_eq!(c.card_type, OnlineCardType::Link);
    assert!(!c.revealed);
    assert!(!c.line_boost_attached);
}

#[test]
fn setup_full_deployment_any_order() {
    let mut g = GameState::new();
    let cells = [
        pos(0, 0),
        pos(0, 1),
        pos(0, 2),
        pos(0, 5),
        pos(0, 6),
        pos(0, 7),
        pos(1, 3),
        pos(1, 4),
    ];
    // Alternate kinds: four of each fit exactly across the eight cells.
    for (i, &p) in cells.iter().enumerate() {
        let kind = if i % 2 == 0 { OnlineCardType::Link } else { OnlineCardType::Virus };
        assert_eq!(g.place_setup_card(PlayerId::P1, p, kind), Ok(()));
    }
    assert_eq!(g.player1.setup_links_left, 0);
    assert_eq!(g.player1.setup_viruses_left, 0);
    assert_eq!(g.player1.setup_placed, 8);
    assert_eq!(g.phase, GamePhase::Setup(PlayerId::P2));
}

#[test]
fn setup_ninth_of_exhausted_kind_rejected() {
    let mut g = GameState::new();
    for &p in &[pos(0, 0), pos(0, 1), pos(0, 2), pos(0, 5)] {
        assert_eq!(g.place_setup_card(PlayerId::P1, p, OnlineCardType::Link), Ok(()));
    }
    assert_eq!(
        g.place_setup_card(PlayerId::P1, pos(0, 6), OnlineCardType::Link),
        Err(GameError::SetupExhausted)
    );
    // Nothing changed by the rejection.
    assert_eq!(g.player1.setup_links_left, 0);
    assert_eq!(g.player1.setup_placed, 4);
    assert!(g.board.get(pos(0, 6)).is_none());
}

#[test]
fn setup_removal_restores_counters_exactly() {
    let mut g = GameState::new();
    let before = snapshot(&g);
    assert_eq!(g.place_setup_card(PlayerId::P1, pos(1, 3), OnlineCardType::Virus), Ok(()));
    assert_eq!(g.player1.setup_viruses_left, 3);
    assert_eq!(g.remove_setup_card(PlayerId::P1, pos(1, 3)), Ok(()));
    assert_eq!(g.player1.setup_viruses_left, 4);
    assert_eq!(g.player1.setup_placed, 0);
    assert!(g.board.get(pos(1, 3)).is_none());
    assert_eq!(snapshot(&g), before);
}

#[test]
fn setup_phase_advances_only_at_eighth_placement() {
    let mut g = GameState::new();
    let cells = [
        pos(0, 0),
        pos(0, 1),
        pos(0, 2),
        pos(0, 5),
        pos(0, 6),
        pos(0, 7),
        pos(1, 3),
    ];
    for (i, &p) in cells.iter().enumerate() {
        let kind = if i < 4 { OnlineCardType::Link } else { OnlineCardType::Virus };
        assert_eq!(g.place_setup_card(PlayerId::P1, p, kind), Ok(()));
        assert_eq!(g.phase, GamePhase::Setup(PlayerId::P1));
    }
    assert_eq!(g.place_setup_card(PlayerId::P1, pos(1, 4), OnlineCardType::Virus), Ok(()));
    assert_eq!(g.phase, GamePhase::Setup(PlayerId::P2));
}

#[test]
fn setup_turn_order_enforced() {
    let mut g = GameState::new();
    assert_eq!(
        g.place_setup_card(PlayerId::P2, pos(7, 0), OnlineCardType::Link),
        Err(GameError::SetupNotCurrentPlayer)
    );
    g.phase = GamePhase::Setup(PlayerId::P2);
    assert_eq!(
        g.place_setup_card(PlayerId::P1, pos(0, 0), OnlineCardType::Link),
        Err(GameError::SetupNotCurrentPlayer)
    );
    assert_eq!(
        g.remove_setup_card(PlayerId::P1, pos(0, 0)),
        Err(GameError::SetupNotCurrentPlayer)
    );
}

#[test]
fn setup_rejects_foreign_and_off_grid_cells() {
    let mut g = GameState::new();
    assert_eq!(
        g.place_setup_card(PlayerId::P1, pos(3, 3), OnlineCardType::Link),
        Err(GameError::InvalidSetupPosition)
    );
    assert_eq!(
        g.place_setup_card(PlayerId::P1, pos(9, 0), OnlineCardType::Link),
        Err(GameError::OutOfBounds)
    );
    // P2's reserved cells are not P1's.
    assert_eq!(
        g.place_setup_card(PlayerId::P1, pos(7, 0), OnlineCardType::Link),
        Err(GameError::InvalidSetupPosition)
    );
    assert_eq!(g.remove_setup_card(PlayerId::P1, pos(8, 0)), Err(GameError::OutOfBounds));
    assert_eq!(g.remove_setup_card(PlayerId::P1, pos(0, 0)), Err(GameError::NoCard));
}

#[test]
fn move_succeeds_one_step_and_ends_turn() {
    let mut g = playing();
    g.board.set(pos(3, 3), Some(card(PlayerId::P1, OnlineCardType::Link)));
    assert_eq!(g.start_move(pos(3, 3), pos(3, 4)), Ok(MoveOutcome::TurnEnds));
    assert!(g.board.get(pos(3, 3)).is_none());
    assert_eq!(g.board.get(pos(3, 4)).unwrap().owner, PlayerId::P1);
    assert_eq!(g.pending_boost_move, None);
}

#[test]
fn move_rejections_cover_every_rule() {
    let mut g = playing();
    g.board.set(pos(3, 3), Some(card(PlayerId::P1, OnlineCardType::Link)));
    g.board.set(pos(3, 2), Some(card(PlayerId::P1, OnlineCardType::Virus)));
    g.board.set(pos(5, 5), Some(card(PlayerId::P2, OnlineCardType::Link)));
    g.board.firewalls[2][3] = Some(PlayerId::P2);
    let before = snapshot(&g);

    assert_eq!(g.start_move(pos(3, 3), pos(3, 5)), Err(GameError::NotAdjacent));
    assert_eq!(g.start_move(pos(4, 4), pos(4, 5)), Err(GameError::NoCard));
    assert_eq!(g.start_move(pos(5, 5), pos(5, 6)), Err(GameError::NotYourCard));
    assert_eq!(g.start_move(pos(3, 3), pos(3, 2)), Err(GameError::OccupiedByOwnCard));
    assert_eq!(g.start_move(pos(8, 0), pos(7, 0)), Err(GameError::OutOfBounds));
    assert_eq!(g.start_move(pos(3, 3), pos(2, 3)), Err(GameError::OpponentFirewall));
    g.board.set(pos(0, 2), Some(card(PlayerId::P1, OnlineCardType::Link)));
    let before2 = snapshot(&g);
    assert_eq!(g.start_move(pos(0, 2), pos(0, 3)), Err(GameError::OwnExitBlocked));
    assert_eq!(snapshot(&g), before2);
    g.board.set(pos(0, 2), None);
    assert_eq!(snapshot(&g), before);

    g.phase = GamePhase::GameOver(PlayerId::P1);
    assert_eq!(g.start_move(pos(3, 3), pos(3, 4)), Err(GameError::NotInPlayingPhase));
}

#[test]
fn capture_reveals_and_stacks_by_kind() {
    let mut g = playing();
    g.board.set(pos(3, 3), Some(card(PlayerId::P1, OnlineCardType::Link)));
    g.board.set(pos(3, 4), Some(card(PlayerId::P2, OnlineCardType::Virus)));
    assert_eq!(g.start_move(pos(3, 3), pos(3, 4)), Ok(MoveOutcome::TurnEnds));
    // Destination holds only the mover's card.
    let moved = g.board.get(pos(3, 4)).unwrap();
    assert_eq!(moved.owner, PlayerId::P1);
    assert!(g.board.get(pos(3, 3)).is_none());
    // The captured card is revealed, keeps its owner, and sits in the
    // mover's stack matching its kind.
    assert_eq!(g.player1.virus_stack.len(), 1);
    assert_eq!(g.player1.link_stack.len(), 0);
    let captured = g.player1.virus_stack[0];
    assert!(captured.revealed);
    assert_eq!(captured.owner, PlayerId::P2);
    assert_eq!(captured.card_type, OnlineCardType::Virus);
}

#[test]
fn capture_of_link_goes_to_link_stack() {
    let mut g = playing();
    g.current_player = PlayerId::P2;
    g.board.set(pos(4, 4), Some(card(PlayerId::P2, OnlineCardType::Virus)));
    g.board.set(pos(4, 5), Some(card(PlayerId::P1, OnlineCardType::Link)));
    assert_eq!(g.start_move(pos(4, 4), pos(4, 5)), Ok(MoveOutcome::TurnEnds));
    assert_eq!(g.player2.link_stack.len(), 1);
    assert_eq!(g.player2.link_stack[0].owner, PlayerId::P1);
}

#[test]
fn capture_detaches_the_victims_line_boost() {
    let mut g = playing();
    g.current_player = PlayerId::P2;
    g.board.set(pos(4, 5), Some(card(PlayerId::P2, OnlineCardType::Virus)));
    // P1 boosts its own card, then P2 captures it.
    g.current_player = PlayerId::P1;
    g.board.set(pos(4, 4), Some(card(PlayerId::P1, OnlineCardType::Link)));
    assert_eq!(g.use_line_boost_attach(0, pos(4, 4)), Ok(()));
    assert_eq!(g.player1.line_boosts[0], Some(pos(4, 4)));
    g.current_player = PlayerId::P2;
    assert_eq!(g.start_move(pos(4, 5), pos(4, 4)), Ok(MoveOutcome::TurnEnds));
    assert_eq!(g.player1.line_boosts[0], None);
}

#[test]
fn boost_chain_scenario() {
    let mut g = playing();
    g.board.set(pos(3, 3), Some(card(PlayerId::P1, OnlineCardType::Link)));
    assert_eq!(g.use_line_boost_attach(0, pos(3, 3)), Ok(()));
    assert!(g.board.get(pos(3, 3)).unwrap().line_boost_attached);

    assert_eq!(g.start_move(pos(3, 3), pos(3, 4)), Ok(MoveOutcome::CanMoveAgain));
    assert_eq!(g.pending_boost_move, Some(pos(3, 4)));
    // The slot follows the card.
    assert_eq!(g.player1.line_boosts[0], Some(pos(3, 4)));

    // While the continuation is pending, everything else is blocked.
    let before = snapshot(&g);
    assert_eq!(g.use_firewall_place(0, pos(5, 5)), Err(GameError::PendingBoostMove));
    assert_eq!(g.start_move(pos(3, 4), pos(3, 5)), Err(GameError::PendingBoostMove));
    assert_eq!(g.use_virus_check(0, pos(3, 4)), Err(GameError::PendingBoostMove));
    assert_eq!(
        g.enter_server_center(pos(3, 4), false, StackChoice::Link),
        Err(GameError::CannotEnterServerWithBoost)
    );
    assert_eq!(
        g.continue_boost_move(pos(5, 5), pos(5, 6)),
        Err(GameError::NoPendingBoostMove)
    );
    assert_eq!(snapshot(&g), before);

    // The matching continuation consumes the pending marker and, still
    // carrying the boost, opens the next link of the chain.
    assert_eq!(g.continue_boost_move(pos(3, 4), pos(3, 5)), Ok(MoveOutcome::CanMoveAgain));
    assert_eq!(g.pending_boost_move, Some(pos(3, 5)));
    g.end_turn();
    assert_eq!(g.pending_boost_move, None);
    assert_eq!(g.current_player, PlayerId::P2);
}

#[test]
fn failed_continuation_keeps_the_pending_marker() {
    let mut g = playing();
    g.board.set(pos(3, 3), Some(card(PlayerId::P1, OnlineCardType::Link)));
    assert_eq!(g.use_line_boost_attach(0, pos(3, 3)), Ok(()));
    assert_eq!(g.start_move(pos(3, 3), pos(3, 4)), Ok(MoveOutcome::CanMoveAgain));
    let before = snapshot(&g);
    assert_eq!(g.continue_boost_move(pos(3, 4), pos(3, 6)), Err(GameError::NotAdjacent));
    assert_eq!(g.pending_boost_move, Some(pos(3, 4)));
    assert_eq!(snapshot(&g), before);
}

#[test]
fn boost_chain_ends_when_leaving_opponent_exit() {
    let mut g = playing();
    // A boosted P1 card stands on P2's exit and continues off it: the
    // chain terminates instead of opening another step.
    g.board.set(pos(7, 3), Some(card(PlayerId::P1, OnlineCardType::Link)));
    assert_eq!(g.use_line_boost_attach(0, pos(7, 3)), Ok(()));
    assert_eq!(g.start_move(pos(7, 3), pos(6, 3)), Ok(MoveOutcome::CanMoveAgain));
    assert_eq!(g.pending_boost_move, Some(pos(6, 3)));
    assert_eq!(g.continue_boost_move(pos(6, 3), pos(7, 3)), Ok(MoveOutcome::CanMoveAgain));
    assert_eq!(g.pending_boost_move, Some(pos(7, 3)));
    assert_eq!(g.continue_boost_move(pos(7, 3), pos(6, 3)), Ok(MoveOutcome::TurnEnds));
    assert_eq!(g.pending_boost_move, None);
}

#[test]
fn win_asymmetry_prefers_p1() {
    let mut g = playing();
    for _ in 0..4 {
        let mut c = card(PlayerId::P1, OnlineCardType::Link);
        c.revealed = true;
        g.player1.link_stack.push(c);
        let mut v = card(PlayerId::P2, OnlineCardType::Virus);
        v.revealed = true;
        g.player2.virus_stack.push(v);
    }
    assert_eq!(g.player1.link_stack.len(), 4);
    assert_eq!(g.player2.virus_stack.len(), 4);
    assert_eq!(g.check_winner(), Some(PlayerId::P1));
    g.end_turn();
    assert_eq!(g.phase, GamePhase::GameOver(PlayerId::P1));
}

#[test]
fn four_viruses_defeat_their_collector() {
    let mut g = playing();
    for _ in 0..4 {
        g.player1.virus_stack.push(card(PlayerId::P2, OnlineCardType::Virus));
    }
    assert_eq!(g.check_winner(), Some(PlayerId::P2));
    g.end_turn();
    assert_eq!(g.phase, GamePhase::GameOver(PlayerId::P2));
}

#[test]
fn end_turn_flips_player_and_is_safe_after_game_over() {
    let mut g = playing();
    g.end_turn();
    assert_eq!(g.current_player, PlayerId::P2);
    g.end_turn();
    assert_eq!(g.current_player, PlayerId::P1);
    g.phase = GamePhase::GameOver(PlayerId::P2);
    let before = snapshot(&g);
    g.end_turn();
    assert_eq!(snapshot(&g), before);
}

#[test]
fn enter_server_center_scores_into_chosen_stack() {
    let mut g = playing();
    g.board.set(pos(7, 3), Some(card(PlayerId::P1, OnlineCardType::Virus)));
    // The mover chooses the stack independently of the card's kind: the
    // engine preserves this literally.
    assert_eq!(g.enter_server_center(pos(7, 3), true, StackChoice::Link), Ok(()));
    assert!(g.board.get(pos(7, 3)).is_none());
    assert_eq!(g.player1.link_stack.len(), 1);
    assert!(g.player1.link_stack[0].revealed);
    assert_eq!(g.player1.link_stack[0].card_type, OnlineCardType::Virus);
}

#[test]
fn enter_server_center_rejections() {
    let mut g = playing();
    g.board.set(pos(3, 3), Some(card(PlayerId::P1, OnlineCardType::Link)));
    g.board.set(pos(0, 3), Some(card(PlayerId::P2, OnlineCardType::Link)));
    assert_eq!(
        g.enter_server_center(pos(3, 3), false, StackChoice::Link),
        Err(GameError::NotOnOpponentExit)
    );
    assert_eq!(
        g.enter_server_center(pos(0, 3), false, StackChoice::Link),
        Err(GameError::NotYourCard)
    );
    assert_eq!(
        g.enter_server_center(pos(5, 5), false, StackChoice::Link),
        Err(GameError::NoCard)
    );
    assert_eq!(
        g.enter_server_center(pos(8, 8), false, StackChoice::Link),
        Err(GameError::OutOfBounds)
    );
    // A P1 card on P1's own exit does not score either.
    g.board.set(pos(0, 4), Some(card(PlayerId::P1, OnlineCardType::Link)));
    assert_eq!(
        g.enter_server_center(pos(0, 4), false, StackChoice::Link),
        Err(GameError::NotOnOpponentExit)
    );
}

#[test]
fn virus_check_is_single_use_per_slot() {
    let mut g = playing();
    g.board.set(pos(6, 6), Some(card(PlayerId::P2, OnlineCardType::Virus)));
    g.board.set(pos(6, 7), Some(card(PlayerId::P2, OnlineCardType::Link)));
    assert_eq!(g.use_virus_check(0, pos(6, 6)), Ok(()));
    assert!(g.board.get(pos(6, 6)).unwrap().revealed);
    assert!(g.player1.virus_checks_used[0]);
    assert_eq!(g.use_virus_check(0, pos(6, 7)), Err(GameError::TerminalCardUsed));
    // A target that is already revealed is no longer checkable.
    assert_eq!(g.use_virus_check(1, pos(6, 6)), Err(GameError::InvalidTarget));
    assert_eq!(g.use_virus_check(1, pos(6, 7)), Ok(()));
    assert_eq!(g.use_virus_check(2, pos(6, 6)), Err(GameError::InvalidTarget));
    // Checking one's own card is rejected.
    g.board.set(pos(2, 2), Some(card(PlayerId::P1, OnlineCardType::Link)));
    g.player1.virus_checks_used = [false, false];
    assert_eq!(g.use_virus_check(0, pos(2, 2)), Err(GameError::InvalidTarget));
    assert_eq!(g.use_virus_check(0, pos(9, 9)), Err(GameError::OutOfBounds));
}

#[test]
fn firewall_lifecycle() {
    let mut g = playing();
    assert_eq!(g.use_firewall_place(0, pos(0, 3)), Err(GameError::FirewallOnExit));
    assert_eq!(g.use_firewall_place(0, pos(7, 4)), Err(GameError::FirewallOnExit));
    assert_eq!(g.use_firewall_place(0, pos(9, 1)), Err(GameError::OutOfBounds));
    assert_eq!(g.use_firewall_place(0, pos(5, 5)), Ok(()));
    assert_eq!(g.player1.firewalls[0], Some(pos(5, 5)));
    assert_eq!(g.board.firewalls[5][5], Some(PlayerId::P1));
    // An opponent cannot step onto it; the owner can.
    g.board.set(pos(5, 6), Some(card(PlayerId::P2, OnlineCardType::Link)));
    g.current_player = PlayerId::P2;
    assert_eq!(g.start_move(pos(5, 6), pos(5, 5)), Err(GameError::OpponentFirewall));
    g.current_player = PlayerId::P1;
    assert_eq!(g.use_firewall_remove(0), Ok(()));
    assert_eq!(g.player1.firewalls[0], None);
    assert_eq!(g.board.firewalls[5][5], None);
    // Removing an empty slot is a quiet success, as in the engine's rules.
    assert_eq!(g.use_firewall_remove(0), Ok(()));
    assert_eq!(g.use_firewall_remove(5), Err(GameError::InvalidTarget));
}

#[test]
fn line_boost_detach_clears_flag_and_slot() {
    let mut g = playing();
    g.board.set(pos(2, 2), Some(card(PlayerId::P1, OnlineCardType::Link)));
    assert_eq!(g.use_line_boost_attach(0, pos(2, 2)), Ok(()));
    assert!(g.board.get(pos(2, 2)).unwrap().line_boost_attached);
    assert_eq!(g.use_line_boost_detach(0), Ok(()));
    assert!(!g.board.get(pos(2, 2)).unwrap().line_boost_attached);
    assert_eq!(g.player1.line_boosts[0], None);
    assert_eq!(g.use_line_boost_detach(0), Err(GameError::InvalidTarget));
    // Attaching to an opponent card or an empty cell is rejected.
    g.board.set(pos(6, 1), Some(card(PlayerId::P2, OnlineCardType::Link)));
    assert_eq!(g.use_line_boost_attach(0, pos(6, 1)), Err(GameError::NotYourCard));
    assert_eq!(g.use_line_boost_attach(0, pos(4, 1)), Err(GameError::NoCard));
    assert_eq!(g.use_line_boost_attach(0, pos(8, 1)), Err(GameError::OutOfBounds));
}

#[test]
fn not_found_unreveals_and_follows_slot_positions() {
    let mut g = playing();
    let mut a = card(PlayerId::P1, OnlineCardType::Link);
    a.revealed = true;
    let mut b = card(PlayerId::P1, OnlineCardType::Virus);
    b.revealed = true;
    g.board.set(pos(1, 0), Some(a));
    g.board.set(pos(1, 1), Some(b));
    assert_eq!(g.use_line_boost_attach(0, pos(1, 0)), Ok(()));
    assert_eq!(g.use_404(0, pos(1, 0), pos(1, 1), true), Ok(()));
    // Both cards are un-revealed and have swapped cells.
    let at_10 = g.board.get(pos(1, 0)).unwrap();
    let at_11 = g.board.get(pos(1, 1)).unwrap();
    assert!(!at_10.revealed);
    assert!(!at_11.revealed);
    assert_eq!(at_10.card_type, OnlineCardType::Virus);
    assert_eq!(at_11.card_type, OnlineCardType::Link);
    // A boost slot tracks a position, not a card: the flag is recomputed
    // from slot membership, so the cell (1,0) keeps the boost.
    assert_eq!(g.player1.line_boosts[0], Some(pos(1, 0)));
    assert!(at_10.line_boost_attached);
    assert!(!at_11.line_boost_attached);
    assert!(g.player1.not_found_used[0]);
    assert_eq!(g.use_404(0, pos(1, 0), pos(1, 1), false), Err(GameError::TerminalCardUsed));
}

#[test]
fn not_found_rejections() {
    let mut g = playing();
    g.board.set(pos(1, 0), Some(card(PlayerId::P1, OnlineCardType::Link)));
    g.board.set(pos(1, 1), Some(card(PlayerId::P2, OnlineCardType::Link)));
    let before = snapshot(&g);
    assert_eq!(g.use_404(0, pos(1, 0), pos(1, 1), true), Err(GameError::NotYourCard));
    assert_eq!(g.use_404(0, pos(1, 0), pos(2, 2), true), Err(GameError::NoCard));
    assert_eq!(g.use_404(0, pos(8, 0), pos(1, 0), true), Err(GameError::OutOfBounds));
    assert_eq!(g.use_404(3, pos(1, 0), pos(1, 1), true), Err(GameError::InvalidTarget));
    assert_eq!(snapshot(&g), before);
}

#[test]
fn out_of_bounds_rejected_without_mutation_everywhere() {
    let mut g = playing();
    g.board.set(pos(3, 3), Some(card(PlayerId::P1, OnlineCardType::Link)));
    let far = pos(8, 8);
    let before = snapshot(&g);
    assert_eq!(g.start_move(far, pos(3, 3)), Err(GameError::OutOfBounds));
    assert_eq!(g.start_move(pos(3, 3), far), Err(GameError::OutOfBounds));
    assert_eq!(
        g.enter_server_center(far, false, StackChoice::Link),
        Err(GameError::OutOfBounds)
    );
    assert_eq!(g.use_line_boost_attach(0, far), Err(GameError::OutOfBounds));
    assert_eq!(g.use_virus_check(0, far), Err(GameError::OutOfBounds));
    assert_eq!(g.use_firewall_place(0, far), Err(GameError::OutOfBounds));
    assert_eq!(g.use_404(0, far, pos(3, 3), false), Err(GameError::OutOfBounds));
    assert_eq!(g.use_404(0, pos(3, 3), far, false), Err(GameError::OutOfBounds));
    assert_eq!(snapshot(&g), before);
}

#[test]
fn operations_outside_play_are_rejected() {
    let mut g = GameState::new();
    assert_eq!(g.start_move(pos(3, 3), pos(3, 4)), Err(GameError::NotInPlayingPhase));
    assert_eq!(
        g.enter_server_center(pos(7, 3), false, StackChoice::Link),
        Err(GameError::NotInPlayingPhase)
    );
    assert_eq!(g.use_line_boost_attach(0, pos(3, 3)), Err(GameError::NotInPlayingPhase));
    assert_eq!(g.use_line_boost_detach(0), Err(GameError::NotInPlayingPhase));
    assert_eq!(g.use_virus_check(0, pos(3, 3)), Err(GameError::NotInPlayingPhase));
    assert_eq!(g.use_firewall_place(0, pos(3, 3)), Err(GameError::NotInPlayingPhase));
    assert_eq!(g.use_firewall_remove(0), Err(GameError::NotInPlayingPhase));
    assert_eq!(g.use_404(0, pos(1, 0), pos(1, 1), false), Err(GameError::NotInPlayingPhase));
    let mut h = playing();
    assert_eq!(
        h.place_setup_card(PlayerId::P1, pos(0, 0), OnlineCardType::Link),
        Err(GameError::NotInSetupPhase)
    );
    assert_eq!(h.remove_setup_card(PlayerId::P1, pos(0, 0)), Err(GameError::NotInSetupPhase));
}

#[test]
fn manhattan_distance_and_exits() {
    assert_eq!(pos(3, 3).manhattan_distance(pos(3, 4)), 1);
    assert_eq!(pos(3, 3).manhattan_distance(pos(4, 4)), 2);
    assert_eq!(pos(7, 0).manhattan_distance(pos(0, 7)), 14);
    assert!(GameState::is_exit(pos(0, 3)));
    assert!(GameState::is_exit(pos(7, 4)));
    assert!(!GameState::is_exit(pos(3, 3)));
    assert_eq!(GameState::exit_owner(pos(0, 3)), Some(PlayerId::P1));
    assert_eq!(GameState::exit_owner(pos(7, 4)), Some(PlayerId::P2));
    assert_eq!(GameState::exit_owner(pos(1, 3)), None);
    assert_eq!(PlayerId::P1.opponent(), PlayerId::P2);
    assert_eq!(PlayerId::P1.exit_row(), 0);
    assert_eq!(PlayerId::P2.setup_row(), 6);
    let cells = PlayerId::P2.setup_positions();
    assert!(cells.contains(&pos(6, 3)));
    assert!(cells.contains(&pos(7, 7)));
}
