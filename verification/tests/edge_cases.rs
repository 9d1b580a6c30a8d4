use rainet::types::GameError;
use rainet::types::GamePhase;
use rainet::types::MoveOutcome;
use rainet::types::OnlineCard;
use rainet::types::OnlineCardType;
use rainet::types::PlayerId;
use rainet::types::Position;
use rainet::types::StackChoice;
use rainet::GameState;

fn pos(row: usize, col: usize) -> Position {
    Position::new(row, col)
}

fn card(owner: PlayerId, kind: OnlineCardType) -> OnlineCard {
    OnlineCard { card_type: kind, revealed: false, line_boost_attached: false, owner }
}

fn playing() -> GameState {
    let mut g = GameState::new();
    g.phase = GamePhase::Playing;
    g
}

#[test]
fn setup_all_links_first_also_works() {
    let mut g = GameState::new();
    let cells = [
        pos(0, 0),
        pos(0, 1),
        pos(0, 2),
        pos(0, 5),
        pos(0, 6),
        pos(0, 7),
        pos(1, 3),
        pos(1, 4),
    ];
    for (i, &p) in cells.iter().enumerate() {
        let kind = if i < 4 { OnlineCardType::Link } else { OnlineCardType::Virus };
        assert_eq!(g.place_setup_card(PlayerId::P1, p, kind), Ok(()));
    }
    assert_eq!(g.phase, GamePhase::Setup(PlayerId::P2));
    let p2_cells = [
        pos(7, 0),
        pos(7, 1),
        pos(7, 2),
        pos(7, 5),
        pos(7, 6),
        pos(7, 7),
        pos(6, 3),
        pos(6, 4),
    ];
    for (i, &p) in p2_cells.iter().enumerate() {
        let kind = if i % 2 == 0 { OnlineCardType::Virus } else { OnlineCardType::Link };
        assert_eq!(g.place_setup_card(PlayerId::P2, p, kind), Ok(()));
    }
    assert_eq!(g.phase, GamePhase::Playing);
}

#[test]
fn setup_rejects_occupied_reserved_cell() {
    let mut g = GameState::new();
    assert_eq!(g.place_setup_card(PlayerId::P1, pos(0, 0), OnlineCardType::Link), Ok(()));
    assert_eq!(
        g.place_setup_card(PlayerId::P1, pos(0, 0), OnlineCardType::Virus),
        Err(GameError::InvalidSetupPosition)
    );
}

#[test]
fn captured_card_keeps_its_boost_flag_in_the_stack() {
    // The engine detaches the boost from the board and the owner's slot,
    // but the copy pushed into the captor's stack keeps the flag it had
    // when it was captured. Stacks only ever report their length, so the
    // flag is inert there; this pins the literal behaviour.
    let mut g = playing();
    g.board.set(pos(4, 4), Some(card(PlayerId::P1, OnlineCardType::Link)));
    assert_eq!(g.use_line_boost_attach(0, pos(4, 4)), Ok(()));
    g.current_player = PlayerId::P2;
    g.board.set(pos(4, 5), Some(card(PlayerId::P2, OnlineCardType::Virus)));
    assert_eq!(g.start_move(pos(4, 5), pos(4, 4)), Ok(MoveOutcome::TurnEnds));
    assert_eq!(g.player2.link_stack.len(), 1);
    assert!(g.player2.link_stack[0].line_boost_attached);
    assert_eq!(g.player1.line_boosts[0], None);
}

#[test]
fn scoring_a_boosted_card_frees_the_slot() {
    let mut g = playing();
    g.board.set(pos(7, 3), Some(card(PlayerId::P1, OnlineCardType::Link)));
    assert_eq!(g.use_line_boost_attach(1, pos(7, 3)), Ok(()));
    assert_eq!(g.enter_server_center(pos(7, 3), false, StackChoice::Link), Ok(()));
    assert_eq!(g.player1.line_boosts[1], None);
    assert_eq!(g.player1.link_stack.len(), 1);
    // The unrevealed card stays unrevealed when the mover declines.
    assert!(!g.player1.link_stack[0].revealed);
}

#[test]
fn firewall_place_rejects_an_occupied_slot() {
    // A slot must be freed with `use_firewall_remove` before it can be
    // re-aimed; overwriting would strand the old board marker.
    let mut g = playing();
    assert_eq!(g.use_firewall_place(0, pos(5, 5)), Ok(()));
    assert_eq!(g.use_firewall_place(0, pos(4, 4)), Err(GameError::InvalidTarget));
    assert_eq!(g.player1.firewalls[0], Some(pos(5, 5)));
    assert_eq!(g.board.firewalls[4][4], None);
    assert_eq!(g.use_firewall_remove(0), Ok(()));
    assert_eq!(g.board.firewalls[5][5], None);
    assert_eq!(g.use_firewall_place(0, pos(4, 4)), Ok(()));
    assert_eq!(g.player1.firewalls[0], Some(pos(4, 4)));
    assert_eq!(g.board.firewalls[4][4], Some(PlayerId::P1));
}

#[test]
fn own_firewall_does_not_block_the_owner() {
    let mut g = playing();
    assert_eq!(g.use_firewall_place(0, pos(3, 4)), Ok(()));
    g.board.set(pos(3, 3), Some(card(PlayerId::P1, OnlineCardType::Link)));
    assert_eq!(g.start_move(pos(3, 3), pos(3, 4)), Ok(MoveOutcome::TurnEnds));
    assert_eq!(g.board.get(pos(3, 4)).unwrap().owner, PlayerId::P1);
}

#[test]
fn unboosted_move_opens_no_chain() {
    let mut g = playing();
    g.board.set(pos(2, 2), Some(card(PlayerId::P1, OnlineCardType::Virus)));
    assert_eq!(g.start_move(pos(2, 2), pos(2, 3)), Ok(MoveOutcome::TurnEnds));
    assert_eq!(g.pending_boost_move, None);
    // And a boosted capture ends the turn rather than chaining.
    g.board.set(pos(2, 4), Some(card(PlayerId::P2, OnlineCardType::Virus)));
    assert_eq!(g.use_line_boost_attach(0, pos(2, 3)), Ok(()));
    assert_eq!(g.start_move(pos(2, 3), pos(2, 4)), Ok(MoveOutcome::TurnEnds));
    assert_eq!(g.pending_boost_move, None);
    assert_eq!(g.player1.virus_stack.len(), 1);
}

#[test]
fn game_over_freezes_every_operation() {
    let mut g = playing();
    g.board.set(pos(3, 3), Some(card(PlayerId::P1, OnlineCardType::Link)));
    g.phase = GamePhase::GameOver(PlayerId::P2);
    assert_eq!(g.start_move(pos(3, 3), pos(3, 4)), Err(GameError::NotInPlayingPhase));
    assert_eq!(g.use_firewall_place(0, pos(5, 5)), Err(GameError::NotInPlayingPhase));
    assert_eq!(g.use_404(0, pos(3, 3), pos(3, 4), true), Err(GameError::NotInPlayingPhase));
    let keep_phase = g.phase;
    g.end_turn();
    assert_eq!(g.phase, keep_phase);
    assert_eq!(g.current_player, PlayerId::P1);
}

#[test]
fn not_found_without_swap_still_unreveals() {
    let mut g = playing();
    let mut a = card(PlayerId::P1, OnlineCardType::Link);
    a.revealed = true;
    let mut b = card(PlayerId::P1, OnlineCardType::Virus);
    b.revealed = true;
    g.board.set(pos(2, 0), Some(a));
    g.board.set(pos(2, 1), Some(b));
    assert_eq!(g.use_404(1, pos(2, 0), pos(2, 1), false), Ok(()));
    let at_20 = g.board.get(pos(2, 0)).unwrap();
    let at_21 = g.board.get(pos(2, 1)).unwrap();
    assert!(!at_20.revealed);
    assert!(!at_21.revealed);
    // Without a swap the cards stay in place.
    assert_eq!(at_20.card_type, OnlineCardType::Link);
    assert_eq!(at_21.card_type, OnlineCardType::Virus);
    assert!(g.player1.not_found_used[1]);
    assert!(!g.player1.not_found_used[0]);
}
