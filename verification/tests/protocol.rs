use rainet::protocol::bool_num;
use rainet::protocol::build_stack;
use rainet::protocol::card_type;
use rainet::protocol::encode_state;
use rainet::protocol::game_error_code;
use rainet::protocol::parse_bool;
use rainet::protocol::parse_card_type;
use rainet::protocol::parse_op;
use rainet::protocol::parse_optional_pos;
use rainet::protocol::parse_player;
use rainet::protocol::parse_role;
use rainet::protocol::parse_stack;
use rainet::protocol::parse_state;
use rainet::protocol::parse_u8;
use rainet::protocol::parse_usize;
use rainet::protocol::player_id;
use rainet::protocol::str_eq;
use rainet::protocol::tokenize;
use rainet::protocol::ClientRole;
use rainet::protocol::Op;
use rainet::types::GameError;
use rainet::types::GamePhase;
use rainet::types::OnlineCard;
use rainet::types::OnlineCardType;
use rainet::types::PlayerId;
use rainet::types::Position;
use rainet::types::StackChoice;
use rainet::GameState;

fn pos(row: usize, col: usize) -> Position {
    Position::new(row, col)
}

#[test]
fn tokenize_splits_on_ascii_whitespace() {
    let toks = tokenize("  OP  MOVE\t3 4 \r\n");
    let words: Vec<&str> = toks.iter().map(|s| s.as_str()).collect();
    assert_eq!(words, vec!["OP", "MOVE", "3", "4"]);
    assert!(tokenize("   ").is_empty());
    assert!(tokenize("").is_empty());
}

#[test]
fn str_eq_compares_contents() {
    assert!(str_eq("abc", "abc"));
    assert!(!str_eq("abc", "abd"));
    assert!(!str_eq("abc", "ab"));
    assert!(str_eq("", ""));
}

#[test]
fn parse_usize_accepts_decimal_with_optional_plus() {
    assert_eq!(parse_usize("0"), Some(0));
    assert_eq!(parse_usize("42"), Some(42));
    assert_eq!(parse_usize("+7"), Some(7));
    assert_eq!(parse_usize("007"), Some(7));
    assert_eq!(parse_usize(""), None);
    assert_eq!(parse_usize("+"), None);
    assert_eq!(parse_usize("-1"), None);
    assert_eq!(parse_usize("4a"), None);
    assert_eq!(parse_usize("18446744073709551615"), Some(usize::MAX));
    assert_eq!(parse_usize("18446744073709551616"), None);
    assert_eq!(parse_u8("255"), Some(255));
    assert_eq!(parse_u8("256"), None);
    assert_eq!(parse_u8("+12"), Some(12));
}

#[test]
fn scalar_token_maps() {
    assert_eq!(parse_player("P1"), Some(PlayerId::P1));
    assert_eq!(parse_player("P2"), Some(PlayerId::P2));
    assert_eq!(parse_player("P3"), None);
    assert_eq!(parse_card_type("L"), Some(OnlineCardType::Link));
    assert_eq!(parse_card_type("V"), Some(OnlineCardType::Virus));
    assert_eq!(parse_card_type("X"), None);
    assert_eq!(parse_stack("L"), Some(StackChoice::Link));
    assert_eq!(parse_stack("V"), Some(StackChoice::Virus));
    assert_eq!(parse_bool("1"), Some(true));
    assert_eq!(parse_bool("0"), Some(false));
    assert_eq!(parse_bool("2"), None);
    assert_eq!(player_id(PlayerId::P1), "P1");
    assert_eq!(player_id(PlayerId::P2), "P2");
    assert_eq!(card_type(OnlineCardType::Link), "L");
    assert_eq!(card_type(OnlineCardType::Virus), "V");
    assert_eq!(bool_num(true), "1");
    assert_eq!(bool_num(false), "0");
}

#[test]
fn parse_optional_pos_handles_dash_and_pairs() {
    assert_eq!(parse_optional_pos("-"), Some(None));
    assert_eq!(parse_optional_pos("3,4"), Some(Some(pos(3, 4))));
    assert_eq!(parse_optional_pos("3,4,9"), Some(Some(pos(3, 4))));
    assert_eq!(parse_optional_pos("3"), None);
    assert_eq!(parse_optional_pos("a,4"), None);
    assert_eq!(parse_optional_pos("3,b"), None);
    assert_eq!(parse_optional_pos(""), None);
}

#[test]
fn parse_role_covers_all_seats() {
    assert_eq!(parse_role("P1"), Some(ClientRole::Player(PlayerId::P1)));
    assert_eq!(parse_role("P2"), Some(ClientRole::Player(PlayerId::P2)));
    assert_eq!(parse_role("SPEC"), Some(ClientRole::Spectator));
    assert_eq!(parse_role("LOBBY"), Some(ClientRole::Lobby));
    assert_eq!(parse_role("GHOST"), None);
}

#[test]
fn game_error_codes_are_stable() {
    assert_eq!(game_error_code(GameError::OutOfBounds), "OUT_OF_BOUNDS");
    assert_eq!(game_error_code(GameError::NotAdjacent), "NOT_ADJACENT");
    assert_eq!(game_error_code(GameError::PendingBoostMove), "PENDING_BOOST_MOVE");
    assert_eq!(
        game_error_code(GameError::CannotEnterServerWithBoost),
        "CANNOT_ENTER_SERVER_WITH_BOOST"
    );
    assert_eq!(game_error_code(GameError::SetupExhausted), "SETUP_EXHAUSTED");
}

#[test]
fn parse_op_accepts_every_command() {
    assert!(matches!(
        parse_op("OP SETUP L 0 1"),
        Some(Op::Setup { card: OnlineCardType::Link, row: 0, col: 1 })
    ));
    assert!(matches!(parse_op("OP REMOVE 1 3"), Some(Op::Remove { row: 1, col: 3 })));
    match parse_op("OP MOVE 3 3 3 4") {
        Some(Op::Move { from, to }) => {
            assert_eq!(from, pos(3, 3));
            assert_eq!(to, pos(3, 4));
        },
        other => panic!("unexpected {:?}", other),
    }
    assert!(matches!(parse_op("OP BOOST 3 4 3 5"), Some(Op::Boost { .. })));
    match parse_op("OP ENTER 7 3 1 V") {
        Some(Op::Enter { from, reveal, stack }) => {
            assert_eq!(from, pos(7, 3));
            assert!(reveal);
            assert_eq!(stack, StackChoice::Virus);
        },
        other => panic!("unexpected {:?}", other),
    }
    assert!(matches!(
        parse_op("OP LINEBOOST ATTACH 2 2"),
        Some(Op::LineBoostAttach { .. })
    ));
    assert!(matches!(
        parse_op("OP LINEBOOST DETACH 2 2"),
        Some(Op::LineBoostDetach { .. })
    ));
    assert!(matches!(parse_op("OP VIRUSCHECK 6 6"), Some(Op::VirusCheck { .. })));
    assert!(matches!(parse_op("OP FIREWALL PLACE 5 5"), Some(Op::FirewallPlace { .. })));
    assert!(matches!(parse_op("OP FIREWALL REMOVE 5 5"), Some(Op::FirewallRemove { .. })));
    match parse_op("OP NOTFOUND 1 0 1 1 1") {
        Some(Op::NotFound { first, second, swap }) => {
            assert_eq!(first, pos(1, 0));
            assert_eq!(second, pos(1, 1));
            assert!(swap);
        },
        other => panic!("unexpected {:?}", other),
    }
    assert!(matches!(parse_op("OP ENDTURN"), Some(Op::EndTurn)));
}

#[test]
fn parse_op_rejects_malformed_lines() {
    assert!(parse_op("").is_none());
    assert!(parse_op("MOVE 3 3 3 4").is_none());
    assert!(parse_op("OP").is_none());
    assert!(parse_op("OP WAIT").is_none());
    assert!(parse_op("OP SETUP X 0 1").is_none());
    assert!(parse_op("OP SETUP L 0").is_none());
    assert!(parse_op("OP MOVE 3 3 3").is_none());
    assert!(parse_op("OP ENTER 7 3 2 V").is_none());
    assert!(parse_op("OP LINEBOOST SIDEWAYS 2 2").is_none());
    assert!(parse_op("OP NOTFOUND 1 0 1 1").is_none());
    // Surplus tokens after a complete command are ignored.
    assert!(matches!(parse_op("OP ENDTURN NOW"), Some(Op::EndTurn)));
    // Tokenization is insensitive to extra whitespace.
    assert!(matches!(parse_op("  OP \t MOVE  3 3 3 4 "), Some(Op::Move { .. })));
}

#[test]
fn encode_state_of_a_fresh_match_is_exact() {
    let g = GameState::new();
    let names = ["alice".to_string(), "bob".to_string()];
    let expected = "STATE_BEGIN\n\
        PHASE SETUP P1\n\
        CURRENT P1\n\
        PENDING NONE\n\
        PLAYER P1 SETUP_LINKS 4 SETUP_VIRUSES 4 SETUP_PLACED 0\n\
        PLAYER P1 LINEBOOST - -\n\
        PLAYER P1 FIREWALL - -\n\
        PLAYER P1 VIRUSCHECK 0 0\n\
        PLAYER P1 NOTFOUND 0 0\n\
        PLAYER P2 SETUP_LINKS 4 SETUP_VIRUSES 4 SETUP_PLACED 0\n\
        PLAYER P2 LINEBOOST - -\n\
        PLAYER P2 FIREWALL - -\n\
        PLAYER P2 VIRUSCHECK 0 0\n\
        PLAYER P2 NOTFOUND 0 0\n\
        STACKS P1 LINK 0 VIRUS 0\n\
        STACKS P2 LINK 0 VIRUS 0\n\
        CARDS 0\n\
        FIREWALLS 0\n\
        NAMES alice bob\n\
        STATE_END\n";
    assert_eq!(encode_state(&g, &names), expected);
}

#[test]
fn encode_state_lists_cards_in_row_major_order() {
    let mut g = GameState::new();
    g.phase = GamePhase::Playing;
    g.pending_boost_move = Some(pos(3, 4));
    g.board.set(
        pos(2, 5),
        Some(OnlineCard {
            card_type: OnlineCardType::Virus,
            revealed: true,
            line_boost_attached: false,
            owner: PlayerId::P2,
        }),
    );
    g.board.set(
        pos(0, 1),
        Some(OnlineCard {
            card_type: OnlineCardType::Link,
            revealed: false,
            line_boost_attached: true,
            owner: PlayerId::P1,
        }),
    );
    g.board.firewalls[6][2] = Some(PlayerId::P2);
    let s = encode_state(&g, &["x".to_string(), "y".to_string()]);
    assert!(s.contains("PHASE PLAYING\n"));
    assert!(s.contains("PENDING 3 4\n"));
    assert!(s.contains("CARDS 2\nCARD 0 1 P1 L 0 1\nCARD 2 5 P2 V 1 0\n"));
    assert!(s.contains("FIREWALLS 1\nFW 6 2 P2\n"));
}

#[test]
fn build_stack_makes_resolved_cards() {
    let v = build_stack(PlayerId::P2, OnlineCardType::Virus, 3);
    assert_eq!(v.len(), 3);
    for c in &v {
        assert_eq!(c.owner, PlayerId::P2);
        assert_eq!(c.card_type, OnlineCardType::Virus);
        assert!(c.revealed);
        assert!(!c.line_boost_attached);
    }
}

#[test]
fn parse_state_round_trips_an_encoded_snapshot() {
    let mut g = GameState::new();
    g.phase = GamePhase::Playing;
    g.current_player = PlayerId::P2;
    g.pending_boost_move = Some(pos(1, 2));
    g.board.set(
        pos(4, 4),
        Some(OnlineCard {
            card_type: OnlineCardType::Link,
            revealed: true,
            line_boost_attached: true,
            owner: PlayerId::P1,
        }),
    );
    g.board.firewalls[3][3] = Some(PlayerId::P1);
    g.player1.line_boosts = [Some(pos(4, 4)), None];
    g.player1.firewalls = [Some(pos(3, 3)), None];
    g.player1.virus_checks_used = [true, false];
    g.player2.not_found_used = [false, true];
    g.player1.setup_links_left = 0;
    g.player1.setup_viruses_left = 1;
    g.player1.setup_placed = 7;
    for _ in 0..2 {
        g.player2.link_stack.push(OnlineCard {
            card_type: OnlineCardType::Link,
            revealed: true,
            line_boost_attached: false,
            owner: PlayerId::P2,
        });
    }
    let names = ["neo".to_string(), "smith".to_string()];
    let encoded = encode_state(&g, &names);
    let lines: Vec<String> = encoded.lines().map(|l| l.to_string()).collect();
    let (parsed, parsed_names) = parse_state(&lines).expect("snapshot should parse");
    assert_eq!(parsed_names[0], "neo");
    assert_eq!(parsed_names[1], "smith");
    // Re-encoding the parsed state reproduces the snapshot byte for byte:
    // stacks carry only their lengths over the wire, and both stacks here
    // hold resolved cards in exactly the wire's canonical shape.
    assert_eq!(encode_state(&parsed, &parsed_names), encoded);
    assert_eq!(parsed.phase, GamePhase::Playing);
    assert_eq!(parsed.current_player, PlayerId::P2);
    assert_eq!(parsed.pending_boost_move, Some(pos(1, 2)));
    assert_eq!(parsed.player2.link_stack.len(), 2);
    assert_eq!(parsed.player1.virus_checks_used, [true, false]);
    assert_eq!(parsed.board.get(pos(4, 4)).unwrap().owner, PlayerId::P1);
    assert_eq!(parsed.board.firewalls[3][3], Some(PlayerId::P1));
}

#[test]
fn parse_state_round_trips_a_fresh_snapshot() {
    let g = GameState::new();
    let names = ["P1".to_string(), "P2".to_string()];
    let encoded = encode_state(&g, &names);
    let lines: Vec<String> = encoded.lines().map(|l| l.to_string()).collect();
    let (parsed, parsed_names) = parse_state(&lines).expect("snapshot should parse");
    assert_eq!(encode_state(&parsed, &parsed_names), encoded);
    assert_eq!(parsed.phase, GamePhase::Setup(PlayerId::P1));
    assert_eq!(parsed.pending_boost_move, None);
}

#[test]
fn parse_state_reads_a_game_over_phase() {
    let lines: Vec<String> = ["PHASE GAMEOVER P2", "CURRENT P2", "PENDING NONE"]
        .iter()
        .map(|s| s.to_string())
        .collect();
    let (g, _) = parse_state(&lines).unwrap();
    assert_eq!(g.phase, GamePhase::GameOver(PlayerId::P2));
    assert_eq!(g.current_player, PlayerId::P2);
    assert_eq!(g.pending_boost_move, None);
}

#[test]
fn parse_state_rejects_malformed_snapshots() {
    let lines = |v: &[&str]| v.iter().map(|s| s.to_string()).collect::<Vec<String>>();
    assert!(parse_state(&lines(&["PHASE"])).is_none());
    assert!(parse_state(&lines(&["PHASE SLEEPING"])).is_none());
    assert!(parse_state(&lines(&["CURRENT P3"])).is_none());
    assert!(parse_state(&lines(&["PENDING"])).is_none());
    assert!(parse_state(&lines(&["PLAYER P1 SETUP_LINKS 4"])).is_none());
    assert!(parse_state(&lines(&["CARDS 1"])).is_none());
    assert!(parse_state(&lines(&["CARDS 1", "CARD 9 9 P1 L 0 0"])).is_none());
    assert!(parse_state(&lines(&["FIREWALLS 1", "FW 0 0 P3"])).is_none());
    assert!(parse_state(&lines(&[""])).is_none());
    // Unknown keywords are ignored, as the transport interleaves other
    // traffic around snapshots.
    let (g, names) = parse_state(&lines(&["HELLO x", "CURRENT P2"])).unwrap();
    assert_eq!(g.current_player, PlayerId::P2);
    assert_eq!(names[0], "P1");
    assert_eq!(names[1], "P2");
}
