//! The line-oriented text protocol that drives the engine from remote
//! clients: operation parsing, state snapshots, and the wire vocabulary.
//!
//! Lines are split into tokens at ASCII whitespace; the grammar of every
//! message is fixed by spec functions over those token sequences, and each
//! parser and encoder is proved to match its spec exactly.

use vstd::prelude::*;

use crate::model::BoardModel;
use crate::model::GameModel;
use crate::model::PlayerModel;
use crate::player::PlayerState;
use crate::state::GameState;
use crate::types::GameError;
use crate::types::GamePhase;
use crate::types::OnlineCard;
use crate::types::OnlineCardType;
use crate::types::PlayerId;
use crate::types::Position;
use crate::types::StackChoice;

verus! {

/// One operation of the wire protocol, as sent by a client.
#[derive(Debug, Clone, Copy, PartialEq, Eq, Structural)]
pub enum Op {
    Setup { card: OnlineCardType, row: usize, col: usize },
    Remove { row: usize, col: usize },
    Move { from: Position, to: Position },
    Boost { from: Position, to: Position },
    Enter { from: Position, reveal: bool, stack: StackChoice },
    LineBoostAttach { pos: Position },
    LineBoostDetach { pos: Position },
    VirusCheck { pos: Position },
    FirewallPlace { pos: Position },
    FirewallRemove { pos: Position },
    NotFound { first: Position, second: Position, swap: bool },
    EndTurn,
}

/// The seat a server assigns to a connecting client.
#[derive(Debug, Clone, Copy, PartialEq, Eq, Structural)]
pub enum ClientRole {
    Player(PlayerId),
    Spectator,
    Lobby,
}

/// ASCII whitespace, the token separator of the protocol.
pub open spec fn is_space(c: char) -> bool {
    c == ' ' || c == '\t' || c == '\n' || c == '\r' || c == '\x0c'
}

fn is_space_char(c: char) -> (r: bool)
    ensures
        r == is_space(c),
{
    c == ' ' || c == '\t' || c == '\n' || c == '\r' || c == '\x0c'
}

/// Length of the leading run of non-space characters.
pub open spec fn token_len(s: Seq<char>) -> nat
    decreases s.len(),
{
    if s.len() == 0 || is_space(s[0]) {
        0
    } else {
        1 + token_len(s.skip(1))
    }
}

/// The leading token run is non-empty and no longer than the line.
pub proof fn lemma_token_len_bounds(s: Seq<char>)
    ensures
        token_len(s) <= s.len(),
        s.len() > 0 && !is_space(s[0]) ==> token_len(s) >= 1,
    decreases s.len(),
{
    if s.len() > 0 && !is_space(s[0]) {
        lemma_token_len_bounds(s.skip(1));
    }
}

/// The whitespace-separated tokens of a line.
pub open spec fn tokens_of(s: Seq<char>) -> Seq<Seq<char>>
    decreases s.len(),
    via tokens_of_decreases
{
    if s.len() == 0 {
        Seq::empty()
    } else if is_space(s[0]) {
        tokens_of(s.skip(1))
    } else {
        seq![s.take(token_len(s) as int)] + tokens_of(s.skip(token_len(s) as int))
    }
}

#[via_fn]
proof fn tokens_of_decreases(s: Seq<char>) {
    if s.len() > 0 && !is_space(s[0]) {
        lemma_token_len_bounds(s);
    }
}

/// A run of `k` non-space characters ended by a space or the end of the
/// line is exactly the leading token.
proof fn lemma_token_len_run(s: Seq<char>, k: int)
    requires
        0 <= k <= s.len(),
        forall|j: int| 0 <= j < k ==> !is_space(#[trigger] s[j]),
        k == s.len() || is_space(s[k]),
    ensures
        token_len(s) == k,
    decreases k,
{
    if k > 0 {
        assert(s.skip(1).len() == s.len() - 1);
        assert(forall|j: int| 0 <= j < k - 1 ==> !is_space(#[trigger] s.skip(1)[j]));
        if k - 1 < s.skip(1).len() {
            assert(s.skip(1)[k - 1] == s[k]);
        }
        lemma_token_len_run(s.skip(1), k - 1);
    }
}

/// Splits a line into its whitespace-separated tokens.
pub fn tokenize(line: &str) -> (r: Vec<String>)
    ensures
        r.deep_view() == tokens_of(line@),
{
    let n = line.unicode_len();
    let mut toks: Vec<String> = Vec::new();
    let mut i: usize = 0;
    proof {
        assert(line@.skip(0) =~= line@);
        assert(toks.deep_view() =~~= Seq::<Seq<char>>::empty());
        assert(tokens_of(line@) =~~= toks.deep_view() + tokens_of(line@.skip(0)));
    }
    while i < n
        invariant
            i <= n,
            n == line@.len(),
            tokens_of(line@) == toks.deep_view() + tokens_of(line@.skip(i as int)),
        decreases n - i,
    {
        let c = line.get_char(i);
        if is_space_char(c) {
            proof {
                assert(line@.skip(i as int).skip(1) =~= line@.skip(i as int + 1));
            }
            i = i + 1;
        } else {
            let start = i;
            let mut j = i;
            loop
                invariant_except_break
                    start <= j <= n,
                    n == line@.len(),
                    forall|k: int| start <= k < j ==> !is_space(#[trigger] line@[k]),
                ensures
                    start <= j <= n,
                    n == line@.len(),
                    forall|k: int| start <= k < j ==> !is_space(#[trigger] line@[k]),
                    j == n || is_space(line@[j as int]),
                decreases n - j,
            {
                if j == n {
                    break ;
                }
                if is_space_char(line.get_char(j)) {
                    break ;
                }
                j = j + 1;
            }
            let ghost old_dv = toks.deep_view();
            let tok = line.substring_char(start, j).to_owned();
            toks.push(tok);
            proof {
                let suffix = line@.skip(start as int);
                assert(forall|k: int| 0 <= k < j - start ==> !is_space(#[trigger] suffix[k]));
                if j < n {
                    assert(suffix[j - start] == line@[j as int]);
                }
                lemma_token_len_run(suffix, j - start);
                assert(suffix.take(j - start) =~= line@.subrange(start as int, j as int));
                assert(suffix.skip(j - start) =~= line@.skip(j as int));
                assert(tokens_of(suffix) == seq![line@.subrange(start as int, j as int)]
                    + tokens_of(line@.skip(j as int)));
                assert(toks.deep_view() =~~= old_dv.push(line@.subrange(start as int, j as int)));
                assert(toks.deep_view() + tokens_of(line@.skip(j as int)) =~~= old_dv
                    + tokens_of(suffix));
            }
            i = j;
        }
    }
    proof {
        assert(line@.skip(n as int) =~= Seq::<char>::empty());
        assert(toks.deep_view() =~~= tokens_of(line@));
    }
    toks
}

/// Character-wise string equality (`==` on the views).
pub fn str_eq(a: &str, b: &str) -> (r: bool)
    ensures
        r == (a@ == b@),
{
    let alen = a.unicode_len();
    let blen = b.unicode_len();
    if alen != blen {
        return false;
    }
    let mut i: usize = 0;
    while i < alen
        invariant
            i <= alen,
            alen == a@.len(),
            alen == b@.len(),
            forall|j: int| 0 <= j < i ==> a@[j] == b@[j],
        decreases alen - i,
    {
        if a.get_char(i) != b.get_char(i) {
            return false;
        }
        i = i + 1;
    }
    proof {
        assert(a@ =~= b@);
    }
    true
}

/// A decimal digit.
pub open spec fn is_digit(c: char) -> bool {
    48 <= c as u32 <= 57
}

/// The value of a decimal digit.
pub open spec fn digit_val(c: char) -> nat {
    (c as u32 - 48) as nat
}

/// The value of a string of decimal digits, most significant first.
pub open spec fn digits_val(t: Seq<char>) -> nat
    decreases t.len(),
{
    if t.len() == 0 {
        0
    } else {
        digits_val(t.drop_last()) * 10 + digit_val(t.last())
    }
}

/// A longer digit string never has a smaller value.
proof fn lemma_digits_val_monotonic(t: Seq<char>, k: int)
    requires
        0 <= k <= t.len(),
    ensures
        digits_val(t) >= digits_val(t.take(k)),
    decreases t.len() - k,
{
    if k < t.len() {
        lemma_digits_val_monotonic(t, k + 1);
        assert(t.take(k + 1).drop_last() =~= t.take(k));
        assert(digits_val(t.take(k + 1)) == digits_val(t.take(k)) * 10 + digit_val(t[k]));
    } else {
        assert(t.take(k) =~= t);
    }
}

/// A number token with any leading `+` sign stripped.
pub open spec fn digits_part(t: Seq<char>) -> Seq<char> {
    if t.len() > 0 && t[0] == '+' {
        t.skip(1)
    } else {
        t
    }
}

/// What `usize` parsing accepts: an optional leading `+`, then at least one
/// decimal digit, whose value fits the machine word.
pub open spec fn spec_parse_usize(t: Seq<char>) -> Option<usize> {
    if digits_part(t).len() == 0 {
        None
    } else if exists|j: int| 0 <= j < digits_part(t).len() && !is_digit(#[trigger] digits_part(t)[j]) {
        None
    } else if digits_val(digits_part(t)) > usize::MAX {
        None
    } else {
        Some(digits_val(digits_part(t)) as usize)
    }
}

/// Parses a decimal `usize` token.
pub fn parse_usize(t: &str) -> (r: Option<usize>)
    ensures
        r == spec_parse_usize(t@),
{
    let n = t.unicode_len();
    let start: usize = if n > 0 && t.get_char(0) == '+' {
        1
    } else {
        0
    };
    proof {
        assert(t@.subrange(start as int, n as int) =~= digits_part(t@));
    }
    if start == n {
        return None;
    }
    let ghost d: Seq<char> = t@.subrange(start as int, n as int);
    let mut v: usize = 0;
    let mut i: usize = start;
    while i < n
        invariant
            start <= i <= n,
            n == t@.len(),
            d == t@.subrange(start as int, n as int),
            d == digits_part(t@),
            forall|j: int| start <= j < i ==> is_digit(#[trigger] t@[j]),
            v == digits_val(t@.subrange(start as int, i as int)),
        decreases n - i,
    {
        let c = t.get_char(i);
        let cu = c as u32;
        if !(48 <= cu && cu <= 57) {
            proof {
                assert(!is_digit(digits_part(t@)[i - start]));
            }
            return None;
        }
        let dv: usize = (cu - 48) as usize;
        let ghost prefix = t@.subrange(start as int, i as int);
        let ghost prefix2 = t@.subrange(start as int, i as int + 1);
        proof {
            assert(prefix2.drop_last() =~= prefix);
            assert(prefix2.last() == t@[i as int]);
        }
        let v10 = match v.checked_mul(10) {
            Some(x) => x,
            None => {
                proof {
                    assert(digits_val(prefix2) > usize::MAX);
                    assert(digits_part(t@).take(i as int + 1 - start as int) =~= prefix2);
                    lemma_digits_val_monotonic(digits_part(t@), i as int + 1 - start as int);
                }
                return None;
            },
        };
        let nv = match v10.checked_add(dv) {
            Some(x) => x,
            None => {
                proof {
                    assert(digits_val(prefix2) > usize::MAX);
                    assert(digits_part(t@).take(i as int + 1 - start as int) =~= prefix2);
                    lemma_digits_val_monotonic(digits_part(t@), i as int + 1 - start as int);
                }
                return None;
            },
        };
        v = nv;
        i = i + 1;
    }
    proof {
        assert forall|j: int| 0 <= j < digits_part(t@).len() implies is_digit(
            #[trigger] digits_part(t@)[j],
        ) by {
            assert(digits_part(t@)[j] == t@[j + start]);
        }
    }
    Some(v)
}

/// What `u8` parsing accepts: a `usize` token whose value fits eight bits.
pub open spec fn spec_parse_u8(t: Seq<char>) -> Option<u8> {
    match spec_parse_usize(t) {
        Some(v) => if v <= 255 {
            Some(v as u8)
        } else {
            None
        },
        None => None,
    }
}

/// Parses a decimal `u8` token.
pub fn parse_u8(t: &str) -> (r: Option<u8>)
    ensures
        r == spec_parse_u8(t@),
{
    match parse_usize(t) {
        Some(v) => if v <= 255 {
            Some(v as u8)
        } else {
            None
        },
        None => None,
    }
}

/// What a player token means: `P1` or `P2`.
pub open spec fn spec_parse_player(t: Seq<char>) -> Option<PlayerId> {
    if t == "P1"@ {
        Some(PlayerId::P1)
    } else if t == "P2"@ {
        Some(PlayerId::P2)
    } else {
        None
    }
}

/// Parses a player token.
pub fn parse_player(token: &str) -> (r: Option<PlayerId>)
    ensures
        r == spec_parse_player(token@),
{
    if str_eq(token, "P1") {
        Some(PlayerId::P1)
    } else if str_eq(token, "P2") {
        Some(PlayerId::P2)
    } else {
        None
    }
}

/// What a card-kind token means: `L` or `V`.
pub open spec fn spec_parse_card_type(t: Seq<char>) -> Option<OnlineCardType> {
    if t == "L"@ {
        Some(OnlineCardType::Link)
    } else if t == "V"@ {
        Some(OnlineCardType::Virus)
    } else {
        None
    }
}

/// Parses a card-kind token.
pub fn parse_card_type(token: &str) -> (r: Option<OnlineCardType>)
    ensures
        r == spec_parse_card_type(token@),
{
    if str_eq(token, "L") {
        Some(OnlineCardType::Link)
    } else if str_eq(token, "V") {
        Some(OnlineCardType::Virus)
    } else {
        None
    }
}

/// What a boolean token means: `1` or `0`.
pub open spec fn spec_parse_bool(t: Seq<char>) -> Option<bool> {
    if t == "1"@ {
        Some(true)
    } else if t == "0"@ {
        Some(false)
    } else {
        None
    }
}

/// Parses a boolean token.
pub fn parse_bool(token: &str) -> (r: Option<bool>)
    ensures
        r == spec_parse_bool(token@),
{
    if str_eq(token, "1") {
        Some(true)
    } else if str_eq(token, "0") {
        Some(false)
    } else {
        None
    }
}

/// What a stack-choice token means: `L` or `V`.
pub open spec fn spec_parse_stack(t: Seq<char>) -> Option<StackChoice> {
    if t == "L"@ {
        Some(StackChoice::Link)
    } else if t == "V"@ {
        Some(StackChoice::Virus)
    } else {
        None
    }
}

/// Parses a stack-choice token.
pub fn parse_stack(token: &str) -> (r: Option<StackChoice>)
    ensures
        r == spec_parse_stack(token@),
{
    if str_eq(token, "L") {
        Some(StackChoice::Link)
    } else if str_eq(token, "V") {
        Some(StackChoice::Virus)
    } else {
        None
    }
}

/// A position read from two consecutive number tokens.
pub open spec fn spec_parse_pos_tokens(ts: Seq<Seq<char>>, i: int) -> Option<Position> {
    if i + 1 >= ts.len() {
        None
    } else {
        match (spec_parse_usize(ts[i]), spec_parse_usize(ts[i + 1])) {
            (Some(row), Some(col)) => Some(Position { row, col }),
            _ => None,
        }
    }
}

/// Reads a position from the two tokens at `i` and `i + 1`.
fn parse_pos_at(toks: &Vec<String>, i: usize) -> (r: Option<Position>)
    ensures
        r == spec_parse_pos_tokens(toks.deep_view(), i as int),
{
    if i >= toks.len() || i + 1 >= toks.len() {
        return None;
    }
    proof {
        assert(toks.deep_view()[i as int] == toks[i as int]@);
        assert(toks.deep_view()[i as int + 1] == toks[i as int + 1]@);
    }
    let row = match parse_usize(toks[i].as_str()) {
        Some(v) => v,
        None => {
            return None;
        },
    };
    let col = match parse_usize(toks[i + 1].as_str()) {
        Some(v) => v,
        None => {
            return None;
        },
    };
    Some(Position { row, col })
}

/// The grammar of a client operation line, over its tokens: `OP`, a
/// command word, then the command's positions and flags; surplus tokens
/// are ignored.
pub open spec fn spec_parse_op_tokens(ts: Seq<Seq<char>>) -> Option<Op> {
    if ts.len() < 2 || ts[0] != "OP"@ {
        None
    } else if ts[1] == "SETUP"@ {
        if ts.len() < 5 {
            None
        } else {
            match (spec_parse_card_type(ts[2]), spec_parse_usize(ts[3]), spec_parse_usize(ts[4])) {
                (Some(card), Some(row), Some(col)) => Some(Op::Setup { card, row, col }),
                _ => None,
            }
        }
    } else if ts[1] == "REMOVE"@ {
        if ts.len() < 4 {
            None
        } else {
            match (spec_parse_usize(ts[2]), spec_parse_usize(ts[3])) {
                (Some(row), Some(col)) => Some(Op::Remove { row, col }),
                _ => None,
            }
        }
    } else if ts[1] == "MOVE"@ {
        match (spec_parse_pos_tokens(ts, 2), spec_parse_pos_tokens(ts, 4)) {
            (Some(from), Some(to)) => Some(Op::Move { from, to }),
            _ => None,
        }
    } else if ts[1] == "BOOST"@ {
        match (spec_parse_pos_tokens(ts, 2), spec_parse_pos_tokens(ts, 4)) {
            (Some(from), Some(to)) => Some(Op::Boost { from, to }),
            _ => None,
        }
    } else if ts[1] == "ENTER"@ {
        if ts.len() < 6 {
            None
        } else {
            match (spec_parse_pos_tokens(ts, 2), spec_parse_bool(ts[4]), spec_parse_stack(ts[5])) {
                (Some(from), Some(reveal), Some(stack)) => Some(
                    Op::Enter { from, reveal, stack },
                ),
                _ => None,
            }
        }
    } else if ts[1] == "LINEBOOST"@ {
        if ts.len() < 3 {
            None
        } else if ts[2] == "ATTACH"@ {
            match spec_parse_pos_tokens(ts, 3) {
                Some(pos) => Some(Op::LineBoostAttach { pos }),
                None => None,
            }
        } else if ts[2] == "DETACH"@ {
            match spec_parse_pos_tokens(ts, 3) {
                Some(pos) => Some(Op::LineBoostDetach { pos }),
                None => None,
            }
        } else {
            None
        }
    } else if ts[1] == "VIRUSCHECK"@ {
        match spec_parse_pos_tokens(ts, 2) {
            Some(pos) => Some(Op::VirusCheck { pos }),
            None => None,
        }
    } else if ts[1] == "FIREWALL"@ {
        if ts.len() < 3 {
            None
        } else if ts[2] == "PLACE"@ {
            match spec_parse_pos_tokens(ts, 3) {
                Some(pos) => Some(Op::FirewallPlace { pos }),
                None => None,
            }
        } else if ts[2] == "REMOVE"@ {
            match spec_parse_pos_tokens(ts, 3) {
                Some(pos) => Some(Op::FirewallRemove { pos }),
                None => None,
            }
        } else {
            None
        }
    } else if ts[1] == "NOTFOUND"@ {
        if ts.len() < 7 {
            None
        } else {
            match (spec_parse_pos_tokens(ts, 2), spec_parse_pos_tokens(ts, 4), spec_parse_bool(
                ts[6],
            )) {
                (Some(first), Some(second), Some(swap)) => Some(
                    Op::NotFound { first, second, swap },
                ),
                _ => None,
            }
        }
    } else if ts[1] == "ENDTURN"@ {
        Some(Op::EndTurn)
    } else {
        None
    }
}

/// The meaning of a whole client line: its tokens read as an operation.
pub open spec fn spec_parse_op(s: Seq<char>) -> Option<Op> {
    spec_parse_op_tokens(tokens_of(s))
}

/// Parses one line of the wire protocol into an operation.
pub fn parse_op(line: &str) -> (r: Option<Op>)
    ensures
        r == spec_parse_op(line@),
{
    let toks = tokenize(line);
    let ghost ts = toks.deep_view();
    if toks.len() < 2 {
        return None;
    }
    proof {
        assert(ts[0] == toks[0]@);
        assert(ts[1] == toks[1]@);
    }
    if !str_eq(toks[0].as_str(), "OP") {
        return None;
    }
    let cmd = toks[1].as_str();
    if str_eq(cmd, "SETUP") {
        if toks.len() < 5 {
            return None;
        }
        proof {
            assert(ts[2] == toks[2]@);
            assert(ts[3] == toks[3]@);
            assert(ts[4] == toks[4]@);
        }
        let card = match parse_card_type(toks[2].as_str()) {
            Some(v) => v,
            None => {
                return None;
            },
        };
        let row = match parse_usize(toks[3].as_str()) {
            Some(v) => v,
            None => {
                return None;
            },
        };
        let col = match parse_usize(toks[4].as_str()) {
            Some(v) => v,
            None => {
                return None;
            },
        };
        Some(Op::Setup { card, row, col })
    } else if str_eq(cmd, "REMOVE") {
        if toks.len() < 4 {
            return None;
        }
        proof {
            assert(ts[2] == toks[2]@);
            assert(ts[3] == toks[3]@);
        }
        let row = match parse_usize(toks[2].as_str()) {
            Some(v) => v,
            None => {
                return None;
            },
        };
        let col = match parse_usize(toks[3].as_str()) {
            Some(v) => v,
            None => {
                return None;
            },
        };
        Some(Op::Remove { row, col })
    } else if str_eq(cmd, "MOVE") {
        match (parse_pos_at(&toks, 2), parse_pos_at(&toks, 4)) {
            (Some(from), Some(to)) => Some(Op::Move { from, to }),
            _ => None,
        }
    } else if str_eq(cmd, "BOOST") {
        match (parse_pos_at(&toks, 2), parse_pos_at(&toks, 4)) {
            (Some(from), Some(to)) => Some(Op::Boost { from, to }),
            _ => None,
        }
    } else if str_eq(cmd, "ENTER") {
        if toks.len() < 6 {
            return None;
        }
        proof {
            assert(ts[4] == toks[4]@);
            assert(ts[5] == toks[5]@);
        }
        let from = match parse_pos_at(&toks, 2) {
            Some(v) => v,
            None => {
                return None;
            },
        };
        let reveal = match parse_bool(toks[4].as_str()) {
            Some(v) => v,
            None => {
                return None;
            },
        };
        let stack = match parse_stack(toks[5].as_str()) {
            Some(v) => v,
            None => {
                return None;
            },
        };
        Some(Op::Enter { from, reveal, stack })
    } else if str_eq(cmd, "LINEBOOST") {
        if toks.len() < 3 {
            return None;
        }
        proof {
            assert(ts[2] == toks[2]@);
        }
        if str_eq(toks[2].as_str(), "ATTACH") {
            match parse_pos_at(&toks, 3) {
                Some(pos) => Some(Op::LineBoostAttach { pos }),
                None => None,
            }
        } else if str_eq(toks[2].as_str(), "DETACH") {
            match parse_pos_at(&toks, 3) {
                Some(pos) => Some(Op::LineBoostDetach { pos }),
                None => None,
            }
        } else {
            None
        }
    } else if str_eq(cmd, "VIRUSCHECK") {
        match parse_pos_at(&toks, 2) {
            Some(pos) => Some(Op::VirusCheck { pos }),
            None => None,
        }
    } else if str_eq(cmd, "FIREWALL") {
        if toks.len() < 3 {
            return None;
        }
        proof {
            assert(ts[2] == toks[2]@);
        }
        if str_eq(toks[2].as_str(), "PLACE") {
            match parse_pos_at(&toks, 3) {
                Some(pos) => Some(Op::FirewallPlace { pos }),
                None => None,
            }
        } else if str_eq(toks[2].as_str(), "REMOVE") {
            match parse_pos_at(&toks, 3) {
                Some(pos) => Some(Op::FirewallRemove { pos }),
                None => None,
            }
        } else {
            None
        }
    } else if str_eq(cmd, "NOTFOUND") {
        if toks.len() < 7 {
            return None;
        }
        proof {
            assert(ts[6] == toks[6]@);
        }
        let first = match parse_pos_at(&toks, 2) {
            Some(v) => v,
            None => {
                return None;
            },
        };
        let second = match parse_pos_at(&toks, 4) {
            Some(v) => v,
            None => {
                return None;
            },
        };
        let swap = match parse_bool(toks[6].as_str()) {
            Some(v) => v,
            None => {
                return None;
            },
        };
        Some(Op::NotFound { first, second, swap })
    } else if str_eq(cmd, "ENDTURN") {
        Some(Op::EndTurn)
    } else {
        None
    }
}

/// The wire name of a player.
pub open spec fn spec_player_id(player: PlayerId) -> Seq<char> {
    match player {
        PlayerId::P1 => "P1"@,
        PlayerId::P2 => "P2"@,
    }
}

/// The wire name of a player: `P1` or `P2`.
pub fn player_id(player: PlayerId) -> (r: &'static str)
    ensures
        r@ == spec_player_id(player),
{
    match player {
        PlayerId::P1 => "P1",
        PlayerId::P2 => "P2",
    }
}

/// The wire name of a card kind.
pub open spec fn spec_card_type(card: OnlineCardType) -> Seq<char> {
    match card {
        OnlineCardType::Link => "L"@,
        OnlineCardType::Virus => "V"@,
    }
}

/// The wire name of a card kind: `L` or `V`.
pub fn card_type(card: OnlineCardType) -> (r: &'static str)
    ensures
        r@ == spec_card_type(card),
{
    match card {
        OnlineCardType::Link => "L",
        OnlineCardType::Virus => "V",
    }
}

/// The wire digit of a boolean.
pub open spec fn spec_bool_num(value: bool) -> Seq<char> {
    if value {
        "1"@
    } else {
        "0"@
    }
}

/// The wire digit of a boolean: `1` or `0`.
pub fn bool_num(value: bool) -> (r: &'static str)
    ensures
        r@ == spec_bool_num(value),
{
    if value {
        "1"
    } else {
        "0"
    }
}

/// The wire code of an engine rejection.
pub open spec fn spec_game_error_code(err: GameError) -> Seq<char> {
    match err {
        GameError::OutOfBounds => "OUT_OF_BOUNDS"@,
        GameError::NotAdjacent => "NOT_ADJACENT"@,
        GameError::NoCard => "NO_CARD"@,
        GameError::NotYourCard => "NOT_YOUR_CARD"@,
        GameError::OccupiedByOwnCard => "OCCUPIED_BY_OWN_CARD"@,
        GameError::OwnExitBlocked => "OWN_EXIT_BLOCKED"@,
        GameError::OpponentFirewall => "OPPONENT_FIREWALL"@,
        GameError::InvalidSetupPosition => "INVALID_SETUP_POSITION"@,
        GameError::SetupExhausted => "SETUP_EXHAUSTED"@,
        GameError::SetupNotCurrentPlayer => "SETUP_NOT_CURRENT_PLAYER"@,
        GameError::NotInSetupPhase => "NOT_IN_SETUP_PHASE"@,
        GameError::NotInPlayingPhase => "NOT_IN_PLAYING_PHASE"@,
        GameError::NotOnOpponentExit => "NOT_ON_OPPONENT_EXIT"@,
        GameError::FirewallOnExit => "FIREWALL_ON_EXIT"@,
        GameError::TerminalCardUsed => "TERMINAL_CARD_USED"@,
        GameError::InvalidTarget => "INVALID_TARGET"@,
        GameError::PendingBoostMove => "PENDING_BOOST_MOVE"@,
        GameError::NoPendingBoostMove => "NO_PENDING_BOOST_MOVE"@,
        GameError::CannotEnterServerWithBoost => "CANNOT_ENTER_SERVER_WITH_BOOST"@,
    }
}

/// The protocol-level error code broadcast for an engine rejection.
pub fn game_error_code(err: GameError) -> (r: &'static str)
    ensures
        r@ == spec_game_error_code(err),
{
    match err {
        GameError::OutOfBounds => "OUT_OF_BOUNDS",
        GameError::NotAdjacent => "NOT_ADJACENT",
        GameError::NoCard => "NO_CARD",
        GameError::NotYourCard => "NOT_YOUR_CARD",
        GameError::OccupiedByOwnCard => "OCCUPIED_BY_OWN_CARD",
        GameError::OwnExitBlocked => "OWN_EXIT_BLOCKED",
        GameError::OpponentFirewall => "OPPONENT_FIREWALL",
        GameError::InvalidSetupPosition => "INVALID_SETUP_POSITION",
        GameError::SetupExhausted => "SETUP_EXHAUSTED",
        GameError::SetupNotCurrentPlayer => "SETUP_NOT_CURRENT_PLAYER",
        GameError::NotInSetupPhase => "NOT_IN_SETUP_PHASE",
        GameError::NotInPlayingPhase => "NOT_IN_PLAYING_PHASE",
        GameError::NotOnOpponentExit => "NOT_ON_OPPONENT_EXIT",
        GameError::FirewallOnExit => "FIREWALL_ON_EXIT",
        GameError::TerminalCardUsed => "TERMINAL_CARD_USED",
        GameError::InvalidTarget => "INVALID_TARGET",
        GameError::PendingBoostMove => "PENDING_BOOST_MOVE",
        GameError::NoPendingBoostMove => "NO_PENDING_BOOST_MOVE",
        GameError::CannotEnterServerWithBoost => "CANNOT_ENTER_SERVER_WITH_BOOST",
    }
}

/// Concatenation of character sequences is associative.
pub proof fn lemma_seq_add_assoc(a: Seq<char>, b: Seq<char>, c: Seq<char>)
    ensures
        (a + b) + c == a + (b + c),
{
    assert((a + b) + c =~= a + (b + c));
}

/// The decimal digit character of a value below ten.
pub open spec fn digit_char(n: nat) -> char {
    if n == 0 {
        '0'
    } else if n == 1 {
        '1'
    } else if n == 2 {
        '2'
    } else if n == 3 {
        '3'
    } else if n == 4 {
        '4'
    } else if n == 5 {
        '5'
    } else if n == 6 {
        '6'
    } else if n == 7 {
        '7'
    } else if n == 8 {
        '8'
    } else {
        '9'
    }
}

/// The decimal representation of a number, most significant digit first,
/// with no sign and no leading zeroes (zero itself is `0`).
pub open spec fn dec_rep(n: nat) -> Seq<char>
    decreases n,
{
    if n < 10 {
        seq![digit_char(n)]
    } else {
        dec_rep(n / 10) + seq![digit_char(n % 10)]
    }
}

/// The single-character string of a decimal digit.
fn digit_str(d: usize) -> (r: &'static str)
    requires
        d < 10,
    ensures
        r@ == seq![digit_char(d as nat)],
{
    proof {
        reveal_strlit("0");
        reveal_strlit("1");
        reveal_strlit("2");
        reveal_strlit("3");
        reveal_strlit("4");
        reveal_strlit("5");
        reveal_strlit("6");
        reveal_strlit("7");
        reveal_strlit("8");
        reveal_strlit("9");
    }
    let r = match d {
        0 => "0",
        1 => "1",
        2 => "2",
        3 => "3",
        4 => "4",
        5 => "5",
        6 => "6",
        7 => "7",
        8 => "8",
        _ => "9",
    };
    proof {
        assert(r@ =~= seq![digit_char(d as nat)]);
    }
    r
}

/// Renders a number in decimal.
pub fn usize_to_string(n: usize) -> (r: String)
    ensures
        r@ == dec_rep(n as nat),
    decreases n,
{
    if n < 10 {
        digit_str(n).to_owned()
    } else {
        proof {
            assert(n / 10 < n) by (nonlinear_arith)
                requires
                    n >= 10,
            ;
        }
        let mut s = usize_to_string(n / 10);
        s.append(digit_str(n % 10));
        s
    }
}

/// The wire form of an optional slot position: `row,col` or `-`.
pub open spec fn spec_format_pos(slot: Option<Position>) -> Seq<char> {
    match slot {
        Some(p) => dec_rep(p.row as nat) + ","@ + dec_rep(p.col as nat),
        None => "-"@,
    }
}

/// Renders an optional slot position.
fn format_pos(slot: Option<Position>) -> (r: String)
    ensures
        r@ == spec_format_pos(slot),
{
    match slot {
        Some(p) => {
            let mut s = usize_to_string(p.row);
            s.append(",");
            let col = usize_to_string(p.col);
            s.append(col.as_str());
            s
        },
        None => {
            let s = String::new();
            proof {
                assert(s@ + "-"@ =~= "-"@);
            }
            let mut s = s;
            s.append("-");
            s
        },
    }
}

/// The five bookkeeping lines of one player in a state snapshot.
pub open spec fn spec_player_lines(player: PlayerId, pm: PlayerModel) -> Seq<char> {
    "PLAYER "@ + spec_player_id(player) + " SETUP_LINKS "@ + dec_rep(pm.setup_links_left as nat)
        + " SETUP_VIRUSES "@ + dec_rep(pm.setup_viruses_left as nat) + " SETUP_PLACED "@ + dec_rep(
        pm.setup_placed as nat,
    ) + "\n"@ + "PLAYER "@ + spec_player_id(player) + " LINEBOOST "@ + spec_format_pos(
        pm.line_boosts[0],
    ) + " "@ + spec_format_pos(pm.line_boosts[1]) + "\n"@ + "PLAYER "@ + spec_player_id(player)
        + " FIREWALL "@ + spec_format_pos(pm.firewalls[0]) + " "@ + spec_format_pos(
        pm.firewalls[1],
    ) + "\n"@ + "PLAYER "@ + spec_player_id(player) + " VIRUSCHECK "@ + spec_bool_num(
        pm.virus_checks_used[0],
    ) + " "@ + spec_bool_num(pm.virus_checks_used[1]) + "\n"@ + "PLAYER "@ + spec_player_id(player)
        + " NOTFOUND "@ + spec_bool_num(pm.not_found_used[0]) + " "@ + spec_bool_num(
        pm.not_found_used[1],
    ) + "\n"@
}

/// Renders one player's bookkeeping lines.
fn player_lines(player: PlayerId, state: &PlayerState) -> (r: String)
    ensures
        r@ == spec_player_lines(player, state@),
{
    let mut out = String::new();
    proof {
        assert(out@ + "PLAYER "@ =~= "PLAYER "@);
    }
    out.append("PLAYER ");
    out.append(player_id(player));
    out.append(" SETUP_LINKS ");
    let t = usize_to_string(state.setup_links_left as usize);
    out.append(t.as_str());
    out.append(" SETUP_VIRUSES ");
    let t = usize_to_string(state.setup_viruses_left as usize);
    out.append(t.as_str());
    out.append(" SETUP_PLACED ");
    let t = usize_to_string(state.setup_placed as usize);
    out.append(t.as_str());
    out.append("\n");
    out.append("PLAYER ");
    out.append(player_id(player));
    out.append(" LINEBOOST ");
    let t = format_pos(state.line_boosts[0]);
    out.append(t.as_str());
    out.append(" ");
    let t = format_pos(state.line_boosts[1]);
    out.append(t.as_str());
    out.append("\n");
    out.append("PLAYER ");
    out.append(player_id(player));
    out.append(" FIREWALL ");
    let t = format_pos(state.firewalls[0]);
    out.append(t.as_str());
    out.append(" ");
    let t = format_pos(state.firewalls[1]);
    out.append(t.as_str());
    out.append("\n");
    out.append("PLAYER ");
    out.append(player_id(player));
    out.append(" VIRUSCHECK ");
    out.append(bool_num(state.virus_checks_used[0]));
    out.append(" ");
    out.append(bool_num(state.virus_checks_used[1]));
    out.append("\n");
    out.append("PLAYER ");
    out.append(player_id(player));
    out.append(" NOTFOUND ");
    out.append(bool_num(state.not_found_used[0]));
    out.append(" ");
    out.append(bool_num(state.not_found_used[1]));
    out.append("\n");
    out
}

/// The line naming the active phase.
pub open spec fn spec_phase_line(phase: GamePhase) -> Seq<char> {
    match phase {
        GamePhase::Setup(p) => "PHASE SETUP "@ + spec_player_id(p) + "\n"@,
        GamePhase::Playing => "PHASE PLAYING"@ + "\n"@,
        GamePhase::GameOver(w) => "PHASE GAMEOVER "@ + spec_player_id(w) + "\n"@,
    }
}

/// Renders the phase line.
fn phase_line(phase: GamePhase) -> (r: String)
    ensures
        r@ == spec_phase_line(phase),
{
    let mut out = String::new();
    match phase {
        GamePhase::Setup(p) => {
            proof {
                assert(out@ + "PHASE SETUP "@ =~= "PHASE SETUP "@);
            }
            out.append("PHASE SETUP ");
            out.append(player_id(p));
            out.append("\n");
        },
        GamePhase::Playing => {
            proof {
                assert(out@ + "PHASE PLAYING"@ =~= "PHASE PLAYING"@);
            }
            out.append("PHASE PLAYING");
            out.append("\n");
        },
        GamePhase::GameOver(w) => {
            proof {
                assert(out@ + "PHASE GAMEOVER "@ =~= "PHASE GAMEOVER "@);
            }
            out.append("PHASE GAMEOVER ");
            out.append(player_id(w));
            out.append("\n");
        },
    }
    out
}

/// The line naming the pending boost move.
pub open spec fn spec_pending_line(pending: Option<Position>) -> Seq<char> {
    match pending {
        Some(p) => "PENDING "@ + dec_rep(p.row as nat) + " "@ + dec_rep(p.col as nat) + "\n"@,
        None => "PENDING NONE"@ + "\n"@,
    }
}

/// Renders the pending-boost line.
fn pending_line(pending: Option<Position>) -> (r: String)
    ensures
        r@ == spec_pending_line(pending),
{
    let mut out = String::new();
    match pending {
        Some(p) => {
            proof {
                assert(out@ + "PENDING "@ =~= "PENDING "@);
            }
            out.append("PENDING ");
            let t = usize_to_string(p.row);
            out.append(t.as_str());
            out.append(" ");
            let t = usize_to_string(p.col);
            out.append(t.as_str());
            out.append("\n");
        },
        None => {
            proof {
                assert(out@ + "PENDING NONE"@ =~= "PENDING NONE"@);
            }
            out.append("PENDING NONE");
            out.append("\n");
        },
    }
    out
}

/// The cell visited at step `k` of the row-major board walk.
pub open spec fn walk_pos(k: int) -> Position {
    Position { row: (k / 8) as usize, col: (k % 8) as usize }
}

/// How many cards sit on cells `k..64` of the walk.
pub open spec fn cards_count_from(b: BoardModel, k: int) -> nat
    decreases 64 - k,
{
    if k < 0 || k >= 64 {
        0
    } else {
        (if b.card(walk_pos(k)) is Some {
            1nat
        } else {
            0nat
        }) + cards_count_from(b, k + 1)
    }
}

/// The snapshot line of one card on the board.
pub open spec fn spec_card_line(pos: Position, c: OnlineCard) -> Seq<char> {
    "CARD "@ + dec_rep(pos.row as nat) + " "@ + dec_rep(pos.col as nat) + " "@ + spec_player_id(
        c.owner,
    ) + " "@ + spec_card_type(c.card_type) + " "@ + spec_bool_num(c.revealed) + " "@
        + spec_bool_num(c.line_boost_attached) + "\n"@
}

/// Renders the snapshot line of one card.
fn card_line(pos: Position, c: OnlineCard) -> (r: String)
    ensures
        r@ == spec_card_line(pos, c),
{
    let mut out = String::new();
    proof {
        assert(out@ + "CARD "@ =~= "CARD "@);
    }
    out.append("CARD ");
    let t = usize_to_string(pos.row);
    out.append(t.as_str());
    out.append(" ");
    let t = usize_to_string(pos.col);
    out.append(t.as_str());
    out.append(" ");
    out.append(player_id(c.owner));
    out.append(" ");
    out.append(card_type(c.card_type));
    out.append(" ");
    out.append(bool_num(c.revealed));
    out.append(" ");
    out.append(bool_num(c.line_boost_attached));
    out.append("\n");
    out
}

/// The `CARD` lines of the cells `k..64` of the walk.
pub open spec fn card_lines_from(b: BoardModel, k: int) -> Seq<char>
    decreases 64 - k,
{
    if k < 0 || k >= 64 {
        Seq::empty()
    } else {
        (match b.card(walk_pos(k)) {
            Some(c) => spec_card_line(walk_pos(k), c),
            None => Seq::empty(),
        }) + card_lines_from(b, k + 1)
    }
}

/// How many firewalls sit on cells `k..64` of the walk.
pub open spec fn firewalls_count_from(b: BoardModel, k: int) -> nat
    decreases 64 - k,
{
    if k < 0 || k >= 64 {
        0
    } else {
        (if b.firewall(walk_pos(k)) is Some {
            1nat
        } else {
            0nat
        }) + firewalls_count_from(b, k + 1)
    }
}

/// The snapshot line of one firewall marker.
pub open spec fn spec_firewall_line(pos: Position, owner: PlayerId) -> Seq<char> {
    "FW "@ + dec_rep(pos.row as nat) + " "@ + dec_rep(pos.col as nat) + " "@ + spec_player_id(
        owner,
    ) + "\n"@
}

/// Renders the snapshot line of one firewall marker.
fn firewall_line(pos: Position, owner: PlayerId) -> (r: String)
    ensures
        r@ == spec_firewall_line(pos, owner),
{
    let mut out = String::new();
    proof {
        assert(out@ + "FW "@ =~= "FW "@);
    }
    out.append("FW ");
    let t = usize_to_string(pos.row);
    out.append(t.as_str());
    out.append(" ");
    let t = usize_to_string(pos.col);
    out.append(t.as_str());
    out.append(" ");
    out.append(player_id(owner));
    out.append("\n");
    out
}

/// The `FW` lines of the cells `k..64` of the walk.
pub open spec fn firewall_lines_from(b: BoardModel, k: int) -> Seq<char>
    decreases 64 - k,
{
    if k < 0 || k >= 64 {
        Seq::empty()
    } else {
        (match b.firewall(walk_pos(k)) {
            Some(owner) => spec_firewall_line(walk_pos(k), owner),
            None => Seq::empty(),
        }) + firewall_lines_from(b, k + 1)
    }
}

/// The whole state snapshot a server broadcasts after a successful
/// mutation, line by line.
pub open spec fn spec_encode_state(g: GameModel, n0: Seq<char>, n1: Seq<char>) -> Seq<char> {
    "STATE_BEGIN"@ + "\n"@ + spec_phase_line(g.phase) + "CURRENT "@ + spec_player_id(
        g.current_player,
    ) + "\n"@ + spec_pending_line(g.pending_boost_move) + spec_player_lines(
        PlayerId::P1,
        g.player1,
    ) + spec_player_lines(PlayerId::P2, g.player2) + "STACKS P1 LINK "@ + dec_rep(
        g.player1.link_stack.len(),
    ) + " VIRUS "@ + dec_rep(g.player1.virus_stack.len()) + "\n"@ + "STACKS P2 LINK "@ + dec_rep(
        g.player2.link_stack.len(),
    ) + " VIRUS "@ + dec_rep(g.player2.virus_stack.len()) + "\n"@ + "CARDS "@ + dec_rep(
        cards_count_from(g.board, 0),
    ) + "\n"@ + card_lines_from(g.board, 0) + "FIREWALLS "@ + dec_rep(
        firewalls_count_from(g.board, 0),
    ) + "\n"@ + firewall_lines_from(g.board, 0) + "NAMES "@ + n0 + " "@ + n1 + "\n"@
        + "STATE_END"@ + "\n"@
}

/// Serializes the full game state to its line-oriented snapshot.
pub fn encode_state(game: &GameState, names: &[String; 2]) -> (r: String)
    ensures
        r@ == spec_encode_state(game@, names@[0]@, names@[1]@),
{
    let mut out = String::new();
    proof {
        assert(out@ + "STATE_BEGIN"@ =~= "STATE_BEGIN"@);
    }
    out.append("STATE_BEGIN");
    out.append("\n");
    let t = phase_line(game.phase);
    out.append(t.as_str());
    out.append("CURRENT ");
    out.append(player_id(game.current_player));
    out.append("\n");
    let t = pending_line(game.pending_boost_move);
    out.append(t.as_str());
    let t = player_lines(PlayerId::P1, &game.player1);
    out.append(t.as_str());
    let t = player_lines(PlayerId::P2, &game.player2);
    out.append(t.as_str());
    out.append("STACKS P1 LINK ");
    let t = usize_to_string(game.player1.link_stack.len());
    out.append(t.as_str());
    out.append(" VIRUS ");
    let t = usize_to_string(game.player1.virus_stack.len());
    out.append(t.as_str());
    out.append("\n");
    out.append("STACKS P2 LINK ");
    let t = usize_to_string(game.player2.link_stack.len());
    out.append(t.as_str());
    out.append(" VIRUS ");
    let t = usize_to_string(game.player2.virus_stack.len());
    out.append(t.as_str());
    out.append("\n");

    let mut count: usize = 0;
    let mut k: usize = 0;
    while k < 64
        invariant
            k <= 64,
            count <= k,
            cards_count_from(game@.board, 0) == count + cards_count_from(game@.board, k as int),
        decreases 64 - k,
    {
        let pos = Position { row: k / 8, col: k % 8 };
        proof {
            assert(pos == walk_pos(k as int));
        }
        if game.board.get(pos).is_some() {
            count = count + 1;
        }
        k = k + 1;
    }
    out.append("CARDS ");
    let t = usize_to_string(count);
    out.append(t.as_str());
    out.append("\n");

    let ghost before_cards = out@;
    let mut k: usize = 0;
    while k < 64
        invariant
            k <= 64,
            out@ + card_lines_from(game@.board, k as int) == before_cards + card_lines_from(
                game@.board,
                0,
            ),
        decreases 64 - k,
    {
        let pos = Position { row: k / 8, col: k % 8 };
        proof {
            assert(pos == walk_pos(k as int));
        }
        let ghost prev = out@;
        match game.board.get(pos) {
            Some(card) => {
                let t = card_line(pos, card);
                out.append(t.as_str());
                proof {
                    lemma_seq_add_assoc(
                        prev,
                        spec_card_line(pos, card),
                        card_lines_from(game@.board, k as int + 1),
                    );
                }
            },
            None => {
                proof {
                    assert(card_lines_from(game@.board, k as int) =~= card_lines_from(
                        game@.board,
                        k as int + 1,
                    ));
                }
            },
        }
        k = k + 1;
    }
    proof {
        assert(card_lines_from(game@.board, 64) =~= Seq::<char>::empty());
        assert(out@ + Seq::<char>::empty() =~= out@);
    }

    let mut fw_count: usize = 0;
    let mut k: usize = 0;
    while k < 64
        invariant
            k <= 64,
            fw_count <= k,
            firewalls_count_from(game@.board, 0) == fw_count + firewalls_count_from(
                game@.board,
                k as int,
            ),
        decreases 64 - k,
    {
        let pos = Position { row: k / 8, col: k % 8 };
        proof {
            assert(pos == walk_pos(k as int));
        }
        if game.board.get_firewall(pos).is_some() {
            fw_count = fw_count + 1;
        }
        k = k + 1;
    }
    out.append("FIREWALLS ");
    let t = usize_to_string(fw_count);
    out.append(t.as_str());
    out.append("\n");

    let ghost before_fws = out@;
    let mut k: usize = 0;
    while k < 64
        invariant
            k <= 64,
            out@ + firewall_lines_from(game@.board, k as int) == before_fws + firewall_lines_from(
                game@.board,
                0,
            ),
        decreases 64 - k,
    {
        let pos = Position { row: k / 8, col: k % 8 };
        proof {
            assert(pos == walk_pos(k as int));
        }
        let ghost prev = out@;
        match game.board.get_firewall(pos) {
            Some(owner) => {
                let t = firewall_line(pos, owner);
                out.append(t.as_str());
                proof {
                    lemma_seq_add_assoc(
                        prev,
                        spec_firewall_line(pos, owner),
                        firewall_lines_from(game@.board, k as int + 1),
                    );
                }
            },
            None => {
                proof {
                    assert(firewall_lines_from(game@.board, k as int) =~= firewall_lines_from(
                        game@.board,
                        k as int + 1,
                    ));
                }
            },
        }
        k = k + 1;
    }
    proof {
        assert(firewall_lines_from(game@.board, 64) =~= Seq::<char>::empty());
        assert(out@ + Seq::<char>::empty() =~= out@);
    }

    out.append("NAMES ");
    out.append(names[0].as_str());
    out.append(" ");
    out.append(names[1].as_str());
    out.append("\n");
    out.append("STATE_END");
    out.append("\n");
    out
}

/// Length of the leading run of characters before a comma.
pub open spec fn comma_len(t: Seq<char>) -> nat
    decreases t.len(),
{
    if t.len() == 0 || t[0] == ',' {
        0
    } else {
        1 + comma_len(t.skip(1))
    }
}

/// A run of `k` non-comma characters ended by a comma or the end of the
/// token is exactly the leading comma field.
proof fn lemma_comma_len_run(t: Seq<char>, k: int)
    requires
        0 <= k <= t.len(),
        forall|j: int| 0 <= j < k ==> #[trigger] t[j] != ',',
        k == t.len() || t[k] == ',',
    ensures
        comma_len(t) == k,
    decreases k,
{
    if k > 0 {
        assert(forall|j: int| 0 <= j < k - 1 ==> #[trigger] t.skip(1)[j] != ',');
        if k - 1 < t.skip(1).len() {
            assert(t.skip(1)[k - 1] == t[k]);
        }
        lemma_comma_len_run(t.skip(1), k - 1);
    }
}

/// What an optional-position token means: `-` for an empty slot, else the
/// first two comma-separated fields as row and column (anything after a
/// second comma is ignored).
pub open spec fn spec_parse_optional_pos(t: Seq<char>) -> Option<Option<Position>> {
    if t == "-"@ {
        Some(None)
    } else if comma_len(t) == t.len() {
        None
    } else {
        let field0 = t.take(comma_len(t) as int);
        let rest = t.skip(comma_len(t) as int + 1);
        let field1 = rest.take(comma_len(rest) as int);
        match (spec_parse_usize(field0), spec_parse_usize(field1)) {
            (Some(row), Some(col)) => Some(Some(Position { row, col })),
            _ => None,
        }
    }
}

/// Parses an optional slot position (`-` or `row,col`).
pub fn parse_optional_pos(token: &str) -> (r: Option<Option<Position>>)
    ensures
        r == spec_parse_optional_pos(token@),
{
    if str_eq(token, "-") {
        return Some(None);
    }
    let n = token.unicode_len();
    let mut c1: usize = 0;
    loop
        invariant_except_break
            c1 <= n,
            n == token@.len(),
            forall|j: int| 0 <= j < c1 ==> #[trigger] token@[j] != ',',
        ensures
            c1 <= n,
            n == token@.len(),
            forall|j: int| 0 <= j < c1 ==> #[trigger] token@[j] != ',',
            c1 == n || token@[c1 as int] == ',',
        decreases n - c1,
    {
        if c1 == n {
            break ;
        }
        if token.get_char(c1) == ',' {
            break ;
        }
        c1 = c1 + 1;
    }
    proof {
        lemma_comma_len_run(token@, c1 as int);
    }
    if c1 == n {
        return None;
    }
    let ghost rest = token@.skip(c1 as int + 1);
    let mut c2: usize = c1 + 1;
    loop
        invariant_except_break
            c1 + 1 <= c2 <= n,
            n == token@.len(),
            rest == token@.skip(c1 as int + 1),
            forall|j: int| c1 + 1 <= j < c2 ==> #[trigger] token@[j] != ',',
        ensures
            c1 + 1 <= c2 <= n,
            n == token@.len(),
            rest == token@.skip(c1 as int + 1),
            forall|j: int| c1 + 1 <= j < c2 ==> #[trigger] token@[j] != ',',
            c2 == n || token@[c2 as int] == ',',
        decreases n - c2,
    {
        if c2 == n {
            break ;
        }
        if token.get_char(c2) == ',' {
            break ;
        }
        c2 = c2 + 1;
    }
    proof {
        assert(forall|j: int| 0 <= j < c2 - c1 - 1 ==> #[trigger] rest[j] != ',');
        if c2 < n {
            assert(rest[c2 - c1 - 1] == token@[c2 as int]);
        }
        lemma_comma_len_run(rest, c2 - c1 - 1);
        assert(token@.subrange(0, c1 as int) =~= token@.take(c1 as int));
        assert(token@.subrange(c1 as int + 1, c2 as int) =~= rest.take(comma_len(rest) as int));
    }
    let row = match parse_usize(token.substring_char(0, c1)) {
        Some(v) => v,
        None => {
            return None;
        },
    };
    let col = match parse_usize(token.substring_char(c1 + 1, c2)) {
        Some(v) => v,
        None => {
            return None;
        },
    };
    Some(Some(Position { row, col }))
}

/// The stack of `count` identical resolved cards a snapshot restores for a
/// player (kinds are known, positions are not part of a stack).
pub open spec fn spec_stack(
    player: PlayerId,
    card_type: OnlineCardType,
    count: nat,
) -> Seq<OnlineCard> {
    Seq::new(
        count,
        |i: int| OnlineCard { card_type, revealed: true, line_boost_attached: false, owner: player },
    )
}

/// Rebuilds a player's stack of `count` resolved cards.
pub fn build_stack(player: PlayerId, card_type: OnlineCardType, count: usize) -> (r: Vec<
    OnlineCard,
>)
    ensures
        r@ == spec_stack(player, card_type, count as nat),
{
    let mut out: Vec<OnlineCard> = Vec::new();
    let mut i: usize = 0;
    while i < count
        invariant
            i <= count,
            out@ =~= spec_stack(player, card_type, i as nat),
        decreases count - i,
    {
        out.push(
            OnlineCard { card_type, revealed: true, line_boost_attached: false, owner: player },
        );
        i = i + 1;
    }
    proof {
        assert(out@ =~= spec_stack(player, card_type, count as nat));
    }
    out
}

/// Replays `count` snapshot `CARD` lines onto a board model, returning the
/// board and the index of the next unread line. A malformed line, a cell
/// off the grid, or too few lines yield `None`.
pub open spec fn apply_card_lines(lines: Seq<Seq<char>>, i: int, count: nat, b: BoardModel)
    -> Option<(BoardModel, int)>
    decreases count,
{
    if count == 0 {
        Some((b, i))
    } else if i >= lines.len() {
        None
    } else {
        let ts = tokens_of(lines[i]);
        if ts.len() < 7 || ts[0] != "CARD"@ {
            None
        } else {
            match (
                spec_parse_usize(ts[1]),
                spec_parse_usize(ts[2]),
                spec_parse_player(ts[3]),
                spec_parse_card_type(ts[4]),
                spec_parse_bool(ts[5]),
                spec_parse_bool(ts[6]),
            ) {
                (Some(row), Some(col), Some(owner), Some(kind), Some(revealed), Some(boost)) => if
                    row < 8 && col < 8 {
                    apply_card_lines(
                        lines,
                        i + 1,
                        (count - 1) as nat,
                        b.set_card(
                            Position { row, col },
                            Some(
                                OnlineCard {
                                    card_type: kind,
                                    revealed,
                                    line_boost_attached: boost,
                                    owner,
                                },
                            ),
                        ),
                    )
                } else {
                    None
                },
                _ => None,
            }
        }
    }
}

/// Replays `count` snapshot `FW` lines onto a board model, returning the
/// board and the index of the next unread line.
pub open spec fn apply_firewall_lines(lines: Seq<Seq<char>>, i: int, count: nat, b: BoardModel)
    -> Option<(BoardModel, int)>
    decreases count,
{
    if count == 0 {
        Some((b, i))
    } else if i >= lines.len() {
        None
    } else {
        let ts = tokens_of(lines[i]);
        if ts.len() < 4 || ts[0] != "FW"@ {
            None
        } else {
            match (spec_parse_usize(ts[1]), spec_parse_usize(ts[2]), spec_parse_player(ts[3])) {
                (Some(row), Some(col), Some(owner)) => if row < 8 && col < 8 {
                    apply_firewall_lines(
                        lines,
                        i + 1,
                        (count - 1) as nat,
                        b.set_firewall(Position { row, col }, Some(owner)),
                    )
                } else {
                    None
                },
                _ => None,
            }
        }
    }
}

/// Replaying card or firewall lines never moves the read position
/// backwards nor past the end.
proof fn lemma_apply_lines_bounds(lines: Seq<Seq<char>>, i: int, count: nat, b: BoardModel)
    ensures
        apply_card_lines(lines, i, count, b) matches Some(r) ==> i <= r.1 && (count > 0
            ==> r.1 <= lines.len()),
        apply_firewall_lines(lines, i, count, b) matches Some(r) ==> i <= r.1 && (count > 0
            ==> r.1 <= lines.len()),
    decreases count,
{
    if count > 0 && i < lines.len() {
        let ts = tokens_of(lines[i]);
        if ts.len() >= 7 && ts[0] == "CARD"@ {
            match (
                spec_parse_usize(ts[1]),
                spec_parse_usize(ts[2]),
                spec_parse_player(ts[3]),
                spec_parse_card_type(ts[4]),
                spec_parse_bool(ts[5]),
                spec_parse_bool(ts[6]),
            ) {
                (Some(row), Some(col), Some(owner), Some(kind), Some(revealed), Some(boost)) => {
                    if row < 8 && col < 8 {
                        lemma_apply_lines_bounds(
                            lines,
                            i + 1,
                            (count - 1) as nat,
                            b.set_card(
                                Position { row, col },
                                Some(
                                    OnlineCard {
                                        card_type: kind,
                                        revealed,
                                        line_boost_attached: boost,
                                        owner,
                                    },
                                ),
                            ),
                        );
                    }
                },
                _ => {},
            }
        }
        if ts.len() >= 4 && ts[0] == "FW"@ {
            match (spec_parse_usize(ts[1]), spec_parse_usize(ts[2]), spec_parse_player(ts[3])) {
                (Some(row), Some(col), Some(owner)) => {
                    if row < 8 && col < 8 {
                        lemma_apply_lines_bounds(
                            lines,
                            i + 1,
                            (count - 1) as nat,
                            b.set_firewall(Position { row, col }, Some(owner)),
                        );
                    }
                },
                _ => {},
            }
        }
    }
}

/// Replays one recognised single-line keyword onto the accumulated
/// state: the next state and names, or `None` when the line is malformed.
/// An unrecognised keyword leaves the state unchanged.
pub open spec fn apply_simple_line(
    g: GameModel,
    n0: Seq<char>,
    n1: Seq<char>,
    ts: Seq<Seq<char>>,
) -> Option<(GameModel, Seq<char>, Seq<char>)> {
    if ts.len() == 0 {
        None
    } else if ts[0] == "PHASE"@ {
        if ts.len() < 2 {
            None
        } else if ts[1] == "SETUP"@ {
            if ts.len() < 3 {
                None
            } else {
                match spec_parse_player(ts[2]) {
                    Some(p) => Some((GameModel { phase: GamePhase::Setup(p), ..g }, n0, n1)),
                    None => None,
                }
            }
        } else if ts[1] == "PLAYING"@ {
            Some((GameModel { phase: GamePhase::Playing, ..g }, n0, n1))
        } else if ts[1] == "GAMEOVER"@ {
            if ts.len() < 3 {
                None
            } else {
                match spec_parse_player(ts[2]) {
                    Some(p) => Some((GameModel { phase: GamePhase::GameOver(p), ..g }, n0, n1)),
                    None => None,
                }
            }
        } else {
            None
        }
    } else if ts[0] == "CURRENT"@ {
        if ts.len() < 2 {
            None
        } else {
            match spec_parse_player(ts[1]) {
                Some(p) => Some((GameModel { current_player: p, ..g }, n0, n1)),
                None => None,
            }
        }
    } else if ts[0] == "PENDING"@ {
        if ts.len() < 2 {
            None
        } else if ts[1] == "NONE"@ {
            Some((GameModel { pending_boost_move: None, ..g }, n0, n1))
        } else if ts.len() < 3 {
            None
        } else {
            match (spec_parse_usize(ts[1]), spec_parse_usize(ts[2])) {
                (Some(row), Some(col)) => Some((GameModel {
                        pending_boost_move: Some(Position { row, col }),
                        ..g
                    }, n0, n1)),
                _ => None,
            }
        }
    } else if ts[0] == "PLAYER"@ {
        if ts.len() < 3 {
            None
        } else {
            match spec_parse_player(ts[1]) {
                None => None,
                Some(p) => {
                    let pm = g.player(p);
                    if ts[2] == "SETUP_LINKS"@ {
                        if ts.len() < 8 {
                            None
                        } else {
                            match (
                                spec_parse_u8(ts[3]),
                                spec_parse_u8(ts[5]),
                                spec_parse_u8(ts[7]),
                            ) {
                                (Some(links), Some(viruses), Some(placed)) =>
                                    Some((g.with_player(
                                        p,
                                        PlayerModel {
                                            setup_links_left: links as int,
                                            setup_viruses_left: viruses as int,
                                            setup_placed: placed as int,
                                            ..pm
                                        },
                                    ), n0, n1)),
                                _ => None,
                            }
                        }
                    } else if ts[2] == "LINEBOOST"@ {
                        if ts.len() < 5 {
                            None
                        } else {
                            match (
                                spec_parse_optional_pos(ts[3]),
                                spec_parse_optional_pos(ts[4]),
                            ) {
                                (Some(p1), Some(p2)) => Some((g.with_player(
                                        p,
                                        PlayerModel { line_boosts: seq![p1, p2], ..pm },
                                    ), n0, n1)),
                                _ => None,
                            }
                        }
                    } else if ts[2] == "FIREWALL"@ {
                        if ts.len() < 5 {
                            None
                        } else {
                            match (
                                spec_parse_optional_pos(ts[3]),
                                spec_parse_optional_pos(ts[4]),
                            ) {
                                (Some(p1), Some(p2)) => Some((g.with_player(
                                        p,
                                        PlayerModel { firewalls: seq![p1, p2], ..pm },
                                    ), n0, n1)),
                                _ => None,
                            }
                        }
                    } else if ts[2] == "VIRUSCHECK"@ {
                        if ts.len() < 5 {
                            None
                        } else {
                            match (spec_parse_bool(ts[3]), spec_parse_bool(ts[4])) {
                                (Some(v1), Some(v2)) => Some((g.with_player(
                                        p,
                                        PlayerModel {
                                            virus_checks_used: seq![v1, v2],
                                            ..pm
                                        },
                                    ), n0, n1)),
                                _ => None,
                            }
                        }
                    } else if ts[2] == "NOTFOUND"@ {
                        if ts.len() < 5 {
                            None
                        } else {
                            match (spec_parse_bool(ts[3]), spec_parse_bool(ts[4])) {
                                (Some(v1), Some(v2)) => Some((g.with_player(
                                        p,
                                        PlayerModel { not_found_used: seq![v1, v2], ..pm },
                                    ), n0, n1)),
                                _ => None,
                            }
                        }
                    } else {
                        None
                    }
                },
            }
        }
    } else if ts[0] == "STACKS"@ {
        if ts.len() < 6 {
            None
        } else {
            match (
                spec_parse_player(ts[1]),
                spec_parse_usize(ts[3]),
                spec_parse_usize(ts[5]),
            ) {
                (Some(p), Some(lc), Some(vc)) => Some((g.with_player(
                        p,
                        PlayerModel {
                            link_stack: spec_stack(p, OnlineCardType::Link, lc as nat),
                            virus_stack: spec_stack(p, OnlineCardType::Virus, vc as nat),
                            ..g.player(p)
                        },
                    ), n0, n1)),
                _ => None,
            }
        }
    } else if ts[0] == "CARDS"@ || ts[0] == "FIREWALLS"@ {
        None
    } else if ts[0] == "NAMES"@ {
        if ts.len() < 3 {
            None
        } else {
            Some((g, ts[1], ts[2]))
        }
    } else {
        Some((g, n0, n1))
    }
}

/// Replays one snapshot from line `i` on, starting from the accumulated
/// state: each recognised keyword overwrites the matching part of the
/// state, unknown keywords are ignored, and any malformed recognised line
/// rejects the whole snapshot. `CARDS` and `FIREWALLS` additionally
/// consume the announced number of following lines.
pub open spec fn spec_parse_state_from(
    lines: Seq<Seq<char>>,
    i: int,
    g: GameModel,
    n0: Seq<char>,
    n1: Seq<char>,
) -> Option<(GameModel, Seq<char>, Seq<char>)>
    decreases lines.len() - i,
    via spec_parse_state_from_decreases
{
    if i >= lines.len() {
        Some((g, n0, n1))
    } else {
        let ts = tokens_of(lines[i]);
        if ts.len() == 0 {
            None
        } else if ts[0] == "CARDS"@ {
            if ts.len() < 2 {
                None
            } else {
                match spec_parse_usize(ts[1]) {
                    Some(count) => match apply_card_lines(lines, i + 1, count as nat, g.board) {
                        Some(r) => spec_parse_state_from(
                            lines,
                            r.1,
                            GameModel { board: r.0, ..g },
                            n0,
                            n1,
                        ),
                        None => None,
                    },
                    None => None,
                }
            }
        } else if ts[0] == "FIREWALLS"@ {
            if ts.len() < 2 {
                None
            } else {
                match spec_parse_usize(ts[1]) {
                    Some(count) => match apply_firewall_lines(
                        lines,
                        i + 1,
                        count as nat,
                        g.board,
                    ) {
                        Some(r) => spec_parse_state_from(
                            lines,
                            r.1,
                            GameModel { board: r.0, ..g },
                            n0,
                            n1,
                        ),
                        None => None,
                    },
                    None => None,
                }
            }
        } else {
            match apply_simple_line(g, n0, n1, ts) {
                Some(t) => spec_parse_state_from(lines, i + 1, t.0, t.1, t.2),
                None => None,
            }
        }
    }
}

#[via_fn]
proof fn spec_parse_state_from_decreases(
    lines: Seq<Seq<char>>,
    i: int,
    g: GameModel,
    n0: Seq<char>,
    n1: Seq<char>,
) {
    if i < lines.len() {
        let ts = tokens_of(lines[i]);
        if ts.len() >= 2 && (ts[0] == "CARDS"@ || ts[0] == "FIREWALLS"@) {
            match spec_parse_usize(ts[1]) {
                Some(count) => {
                    lemma_apply_lines_bounds(lines, i + 1, count as nat, g.board);
                },
                None => {},
            }
        }
    }
}

/// The meaning of a whole snapshot: its lines replayed onto a fresh match
/// with the default names.
pub open spec fn spec_parse_state(lines: Seq<Seq<char>>) -> Option<(
    GameModel,
    Seq<char>,
    Seq<char>,
)> {
    spec_parse_state_from(lines, 0, GameModel::init(), "P1"@, "P2"@)
}

/// Applies one single-line snapshot keyword; `false` means the line was
/// recognised but malformed, which rejects the whole snapshot.
#[verifier::rlimit(100)]
fn apply_simple_line_exec(
    game: &mut GameState,
    name0: &mut String,
    name1: &mut String,
    toks: &Vec<String>,
) -> (ok: bool)
    requires
        toks.deep_view().len() > 0,
        toks.deep_view()[0] != "CARDS"@,
        toks.deep_view()[0] != "FIREWALLS"@,
    ensures
        ok <==> apply_simple_line(
            old(game)@,
            old(name0)@,
            old(name1)@,
            toks.deep_view(),
        ) is Some,
        ok ==> ({
            let t = apply_simple_line(
                old(game)@,
                old(name0)@,
                old(name1)@,
                toks.deep_view(),
            )->Some_0;
            &&& final(game)@ == t.0
            &&& final(name0)@ == t.1
            &&& final(name1)@ == t.2
        }),
{
    let ghost ts = toks.deep_view();
    proof {
        assert(ts[0] == toks[0]@);
    }
    let head = toks[0].as_str();
    if str_eq(head, "PHASE") {
        if toks.len() < 2 {
            return false;
        }
        proof {
            assert(ts[1] == toks[1]@);
        }
        if str_eq(toks[1].as_str(), "SETUP") {
            if toks.len() < 3 {
                return false;
            }
            proof {
                assert(ts[2] == toks[2]@);
            }
            let p = match parse_player(toks[2].as_str()) {
                Some(p) => p,
                None => {
                    return false;
                },
            };
            game.phase = GamePhase::Setup(p);
        } else if str_eq(toks[1].as_str(), "PLAYING") {
            game.phase = GamePhase::Playing;
        } else if str_eq(toks[1].as_str(), "GAMEOVER") {
            if toks.len() < 3 {
                return false;
            }
            proof {
                assert(ts[2] == toks[2]@);
            }
            let p = match parse_player(toks[2].as_str()) {
                Some(p) => p,
                None => {
                    return false;
                },
            };
            game.phase = GamePhase::GameOver(p);
        } else {
            return false;
        }
    } else if str_eq(head, "CURRENT") {
        if toks.len() < 2 {
            return false;
        }
        proof {
            assert(ts[1] == toks[1]@);
        }
        let p = match parse_player(toks[1].as_str()) {
            Some(p) => p,
            None => {
                return false;
            },
        };
        game.current_player = p;
    } else if str_eq(head, "PENDING") {
        if toks.len() < 2 {
            return false;
        }
        proof {
            assert(ts[1] == toks[1]@);
        }
        if str_eq(toks[1].as_str(), "NONE") {
            game.pending_boost_move = None;
        } else {
            if toks.len() < 3 {
                return false;
            }
            proof {
                assert(ts[2] == toks[2]@);
            }
            let row = match parse_usize(toks[1].as_str()) {
                Some(v) => v,
                None => {
                    return false;
                },
            };
            let col = match parse_usize(toks[2].as_str()) {
                Some(v) => v,
                None => {
                    return false;
                },
            };
            game.pending_boost_move = Some(Position { row, col });
        }
    } else if str_eq(head, "PLAYER") {
        if toks.len() < 3 {
            return false;
        }
        proof {
            assert(ts[1] == toks[1]@);
            assert(ts[2] == toks[2]@);
        }
        let p = match parse_player(toks[1].as_str()) {
            Some(p) => p,
            None => {
                return false;
            },
        };
        let key = toks[2].as_str();
        if str_eq(key, "SETUP_LINKS") {
            if toks.len() < 8 {
                return false;
            }
            proof {
                assert(ts[3] == toks[3]@);
                assert(ts[5] == toks[5]@);
                assert(ts[7] == toks[7]@);
            }
            let links = match parse_u8(toks[3].as_str()) {
                Some(v) => v,
                None => {
                    return false;
                },
            };
            let viruses = match parse_u8(toks[5].as_str()) {
                Some(v) => v,
                None => {
                    return false;
                },
            };
            let placed = match parse_u8(toks[7].as_str()) {
                Some(v) => v,
                None => {
                    return false;
                },
            };
            let ps = game.player_mut(p);
            ps.setup_links_left = links;
            ps.setup_viruses_left = viruses;
            ps.setup_placed = placed;
        } else if str_eq(key, "LINEBOOST") {
            if toks.len() < 5 {
                return false;
            }
            proof {
                assert(ts[3] == toks[3]@);
                assert(ts[4] == toks[4]@);
            }
            let p1 = match parse_optional_pos(toks[3].as_str()) {
                Some(v) => v,
                None => {
                    return false;
                },
            };
            let p2 = match parse_optional_pos(toks[4].as_str()) {
                Some(v) => v,
                None => {
                    return false;
                },
            };
            let ps = game.player_mut(p);
            ps.line_boosts = [p1, p2];
            proof {
                assert(ps.line_boosts@ =~= seq![p1, p2]);
            }
        } else if str_eq(key, "FIREWALL") {
            if toks.len() < 5 {
                return false;
            }
            proof {
                assert(ts[3] == toks[3]@);
                assert(ts[4] == toks[4]@);
            }
            let p1 = match parse_optional_pos(toks[3].as_str()) {
                Some(v) => v,
                None => {
                    return false;
                },
            };
            let p2 = match parse_optional_pos(toks[4].as_str()) {
                Some(v) => v,
                None => {
                    return false;
                },
            };
            let ps = game.player_mut(p);
            ps.firewalls = [p1, p2];
            proof {
                assert(ps.firewalls@ =~= seq![p1, p2]);
            }
        } else if str_eq(key, "VIRUSCHECK") {
            if toks.len() < 5 {
                return false;
            }
            proof {
                assert(ts[3] == toks[3]@);
                assert(ts[4] == toks[4]@);
            }
            let v1 = match parse_bool(toks[3].as_str()) {
                Some(v) => v,
                None => {
                    return false;
                },
            };
            let v2 = match parse_bool(toks[4].as_str()) {
                Some(v) => v,
                None => {
                    return false;
                },
            };
            let ps = game.player_mut(p);
            ps.virus_checks_used = [v1, v2];
            proof {
                assert(ps.virus_checks_used@ =~= seq![v1, v2]);
            }
        } else if str_eq(key, "NOTFOUND") {
            if toks.len() < 5 {
                return false;
            }
            proof {
                assert(ts[3] == toks[3]@);
                assert(ts[4] == toks[4]@);
            }
            let v1 = match parse_bool(toks[3].as_str()) {
                Some(v) => v,
                None => {
                    return false;
                },
            };
            let v2 = match parse_bool(toks[4].as_str()) {
                Some(v) => v,
                None => {
                    return false;
                },
            };
            let ps = game.player_mut(p);
            ps.not_found_used = [v1, v2];
            proof {
                assert(ps.not_found_used@ =~= seq![v1, v2]);
            }
        } else {
            return false;
        }
    } else if str_eq(head, "STACKS") {
        if toks.len() < 6 {
            return false;
        }
        proof {
            assert(ts[1] == toks[1]@);
            assert(ts[3] == toks[3]@);
            assert(ts[5] == toks[5]@);
        }
        let p = match parse_player(toks[1].as_str()) {
            Some(v) => v,
            None => {
                return false;
            },
        };
        let lc = match parse_usize(toks[3].as_str()) {
            Some(v) => v,
            None => {
                return false;
            },
        };
        let vc = match parse_usize(toks[5].as_str()) {
            Some(v) => v,
            None => {
                return false;
            },
        };
        let links = build_stack(p, OnlineCardType::Link, lc);
        let viruses = build_stack(p, OnlineCardType::Virus, vc);
        let ps = game.player_mut(p);
        ps.link_stack = links;
        ps.virus_stack = viruses;
    } else if str_eq(head, "NAMES") {
        if toks.len() < 3 {
            return false;
        }
        proof {
            assert(ts[1] == toks[1]@);
            assert(ts[2] == toks[2]@);
        }
        *name0 = toks[1].clone();
        *name1 = toks[2].clone();
    }
    true
}

/// Rebuilds a game state and the two display names from the lines of a
/// snapshot (the text between `STATE_BEGIN` and `STATE_END`). Unlike the
/// board walk of the encoder, a snapshot may name any cell; a `CARD` or
/// `FW` line naming a cell off the grid rejects the snapshot.
#[verifier::rlimit(100)]
pub fn parse_state(lines: &[String]) -> (r: Option<(GameState, [String; 2])>)
    ensures
        r is Some <==> spec_parse_state(lines.deep_view()) is Some,
        r matches Some(pair) ==> ({
            let s = spec_parse_state(lines.deep_view())->Some_0;
            &&& pair.0@ == s.0
            &&& pair.1@[0]@ == s.1
            &&& pair.1@[1]@ == s.2
        }),
{
    let ghost ld = lines.deep_view();
    let mut game = GameState::new();
    let mut name0: String = "P1".to_owned();
    let mut name1: String = "P2".to_owned();
    let mut i: usize = 0;
    while i < lines.len()
        invariant
            i <= ld.len(),
            ld == lines.deep_view(),
            ld.len() == lines@.len(),
            spec_parse_state(ld) == spec_parse_state_from(
                ld,
                i as int,
                game@,
                name0@,
                name1@,
            ),
        decreases ld.len() - i,
    {
        proof {
            assert(ld[i as int] == lines@[i as int]@);
        }
        let toks = tokenize(lines[i].as_str());
        let ghost ts = toks.deep_view();
        if toks.len() == 0 {
            return None;
        }
        proof {
            assert(ts[0] == toks[0]@);
        }
        let head = toks[0].as_str();
        if str_eq(head, "CARDS") {
            if toks.len() < 2 {
                return None;
            }
            proof {
                assert(ts[1] == toks[1]@);
            }
            let count = match parse_usize(toks[1].as_str()) {
                Some(v) => v,
                None => {
                    return None;
                },
            };
            let ghost g_dispatch = game@;
            let mut j: usize = i + 1;
            let mut rem: usize = count;
            while rem > 0
                invariant
                    ld == lines.deep_view(),
                    ld.len() == lines@.len(),
                    i as int + 1 <= j as int,
                    j <= ld.len(),
                    game@ == (GameModel { board: game@.board, ..g_dispatch }),
                    spec_parse_state(ld) == (match apply_card_lines(
                        ld,
                        j as int,
                        rem as nat,
                        game@.board,
                    ) {
                        Some(rr) => spec_parse_state_from(
                            ld,
                            rr.1,
                            GameModel { board: rr.0, ..g_dispatch },
                            name0@,
                            name1@,
                        ),
                        None => None,
                    }),
                decreases rem,
            {
                if j >= lines.len() {
                    return None;
                }
                proof {
                    assert(ld[j as int] == lines@[j as int]@);
                }
                let ctoks = tokenize(lines[j].as_str());
                let ghost cts = ctoks.deep_view();
                if ctoks.len() < 7 {
                    return None;
                }
                proof {
                    assert(cts[0] == ctoks[0]@);
                    assert(cts[1] == ctoks[1]@);
                    assert(cts[2] == ctoks[2]@);
                    assert(cts[3] == ctoks[3]@);
                    assert(cts[4] == ctoks[4]@);
                    assert(cts[5] == ctoks[5]@);
                    assert(cts[6] == ctoks[6]@);
                }
                if !str_eq(ctoks[0].as_str(), "CARD") {
                    return None;
                }
                let row = match parse_usize(ctoks[1].as_str()) {
                    Some(v) => v,
                    None => {
                        return None;
                    },
                };
                let col = match parse_usize(ctoks[2].as_str()) {
                    Some(v) => v,
                    None => {
                        return None;
                    },
                };
                let owner = match parse_player(ctoks[3].as_str()) {
                    Some(v) => v,
                    None => {
                        return None;
                    },
                };
                let kind = match parse_card_type(ctoks[4].as_str()) {
                    Some(v) => v,
                    None => {
                        return None;
                    },
                };
                let revealed = match parse_bool(ctoks[5].as_str()) {
                    Some(v) => v,
                    None => {
                        return None;
                    },
                };
                let boost = match parse_bool(ctoks[6].as_str()) {
                    Some(v) => v,
                    None => {
                        return None;
                    },
                };
                if !(row < 8 && col < 8) {
                    return None;
                }
                game.board.set(
                    Position { row, col },
                    Some(
                        OnlineCard {
                            card_type: kind,
                            revealed,
                            line_boost_attached: boost,
                            owner,
                        },
                    ),
                );
                j = j + 1;
                rem = rem - 1;
            }
            proof {
                assert(game@ =~~= (GameModel { board: game@.board, ..g_dispatch }));
            }
            i = j;
        } else if str_eq(head, "FIREWALLS") {
            if toks.len() < 2 {
                return None;
            }
            proof {
                assert(ts[1] == toks[1]@);
            }
            let count = match parse_usize(toks[1].as_str()) {
                Some(v) => v,
                None => {
                    return None;
                },
            };
            let ghost g_dispatch = game@;
            let mut j: usize = i + 1;
            let mut rem: usize = count;
            while rem > 0
                invariant
                    ld == lines.deep_view(),
                    ld.len() == lines@.len(),
                    i as int + 1 <= j as int,
                    j <= ld.len(),
                    game@ == (GameModel { board: game@.board, ..g_dispatch }),
                    spec_parse_state(ld) == (match apply_firewall_lines(
                        ld,
                        j as int,
                        rem as nat,
                        game@.board,
                    ) {
                        Some(rr) => spec_parse_state_from(
                            ld,
                            rr.1,
                            GameModel { board: rr.0, ..g_dispatch },
                            name0@,
                            name1@,
                        ),
                        None => None,
                    }),
                decreases rem,
            {
                if j >= lines.len() {
                    return None;
                }
                proof {
                    assert(ld[j as int] == lines@[j as int]@);
                }
                let ctoks = tokenize(lines[j].as_str());
                let ghost cts = ctoks.deep_view();
                if ctoks.len() < 4 {
                    return None;
                }
                proof {
                    assert(cts[0] == ctoks[0]@);
                    assert(cts[1] == ctoks[1]@);
                    assert(cts[2] == ctoks[2]@);
                    assert(cts[3] == ctoks[3]@);
                }
                if !str_eq(ctoks[0].as_str(), "FW") {
                    return None;
                }
                let row = match parse_usize(ctoks[1].as_str()) {
                    Some(v) => v,
                    None => {
                        return None;
                    },
                };
                let col = match parse_usize(ctoks[2].as_str()) {
                    Some(v) => v,
                    None => {
                        return None;
                    },
                };
                let owner = match parse_player(ctoks[3].as_str()) {
                    Some(v) => v,
                    None => {
                        return None;
                    },
                };
                if !(row < 8 && col < 8) {
                    return None;
                }
                game.board.set_firewall(Position { row, col }, Some(owner));
                j = j + 1;
                rem = rem - 1;
            }
            proof {
                assert(game@ =~~= (GameModel { board: game@.board, ..g_dispatch }));
            }
            i = j;
        } else {
            if !apply_simple_line_exec(&mut game, &mut name0, &mut name1, &toks) {
                return None;
            }
            i = i + 1;
        }
    }
    let names = [name0, name1];
    proof {
        assert(names@[0] == names[0]);
        assert(names@[1] == names[1]);
    }
    Some((game, names))
}

/// A decimal rendering is non-empty, all digits, and reads back as the
/// number it renders.
pub proof fn lemma_dec_rep_digits(n: nat)
    ensures
        dec_rep(n).len() >= 1,
        forall|j: int| 0 <= j < dec_rep(n).len() ==> is_digit(#[trigger] dec_rep(n)[j]),
        digits_val(dec_rep(n)) == n,
    decreases n,
{
    if n < 10 {
        assert(dec_rep(n) =~= seq![digit_char(n)]);
        assert(seq![digit_char(n)].drop_last() =~= Seq::<char>::empty());
        assert(seq![digit_char(n)].last() == digit_char(n));
        assert(digits_val(Seq::<char>::empty()) == 0);
        assert(digits_val(seq![digit_char(n)]) == digit_val(digit_char(n)));
    } else {
        lemma_dec_rep_digits(n / 10);
        let x = dec_rep(n / 10);
        let d = digit_char(n % 10);
        assert(dec_rep(n) == x + seq![d]);
        assert((x + seq![d]).drop_last() =~= x);
        assert((x + seq![d]).last() == d);
        assert(digits_val(dec_rep(n)) == digits_val(x) * 10 + digit_val(d));
        assert(n == (n / 10) * 10 + n % 10) by (nonlinear_arith);
    }
}

/// The number tokens the encoder writes read back exactly.
pub proof fn lemma_usize_token_round_trip(n: usize)
    ensures
        spec_parse_usize(dec_rep(n as nat)) == Some(n),
{
    lemma_dec_rep_digits(n as nat);
    let t = dec_rep(n as nat);
    assert(t[0] != '+');
    assert(digits_part(t) == t);
}

/// The player tokens the encoder writes read back exactly.
pub proof fn lemma_player_token_round_trip(p: PlayerId)
    ensures
        spec_parse_player(spec_player_id(p)) == Some(p),
{
    reveal_strlit("P1");
    reveal_strlit("P2");
    assert("P1"@[1] != "P2"@[1]);
}

/// The card-kind tokens the encoder writes read back exactly.
pub proof fn lemma_card_type_token_round_trip(c: OnlineCardType)
    ensures
        spec_parse_card_type(spec_card_type(c)) == Some(c),
{
    reveal_strlit("L");
    reveal_strlit("V");
    assert("L"@[0] != "V"@[0]);
}

/// The boolean tokens the encoder writes read back exactly.
pub proof fn lemma_bool_token_round_trip(b: bool)
    ensures
        spec_parse_bool(spec_bool_num(b)) == Some(b),
{
    reveal_strlit("1");
    reveal_strlit("0");
    assert("1"@[0] != "0"@[0]);
}

/// The slot tokens the encoder writes read back exactly.
pub proof fn lemma_slot_token_round_trip(slot: Option<Position>)
    ensures
        spec_parse_optional_pos(spec_format_pos(slot)) == Some(slot),
{
    reveal_strlit("-");
    reveal_strlit(",");
    match slot {
        None => {
        },
        Some(p) => {
            let r = dec_rep(p.row as nat);
            let c = dec_rep(p.col as nat);
            lemma_dec_rep_digits(p.row as nat);
            lemma_dec_rep_digits(p.col as nat);
            let t = r + ","@ + c;
            assert(t == spec_format_pos(slot));
            assert(t.len() >= 3);
            assert(t != "-"@);
            assert(","@[0] == ',');
            assert forall|j: int| 0 <= j < r.len() implies #[trigger] t[j] != ',' by {
                assert(t[j] == r[j]);
            }
            assert(t[r.len() as int] == ',');
            lemma_comma_len_run(t, r.len() as int);
            assert(t.take(r.len() as int) =~= r);
            let rest = t.skip(r.len() as int + 1);
            assert(rest =~= c);
            assert(forall|j: int| 0 <= j < c.len() ==> #[trigger] c[j] != ',');
            lemma_comma_len_run(c, c.len() as int);
            assert(c.take(c.len() as int) =~= c);
            lemma_usize_token_round_trip(p.row);
            lemma_usize_token_round_trip(p.col);
        },
    }
}

/// What a seat token means: `P1`, `P2`, `SPEC` or `LOBBY`.
pub open spec fn spec_parse_role(t: Seq<char>) -> Option<ClientRole> {
    if t == "P1"@ {
        Some(ClientRole::Player(PlayerId::P1))
    } else if t == "P2"@ {
        Some(ClientRole::Player(PlayerId::P2))
    } else if t == "SPEC"@ {
        Some(ClientRole::Spectator)
    } else if t == "LOBBY"@ {
        Some(ClientRole::Lobby)
    } else {
        None
    }
}

/// Parses the seat token of a server's assignment message.
pub fn parse_role(token: &str) -> (r: Option<ClientRole>)
    ensures
        r == spec_parse_role(token@),
{
    if str_eq(token, "P1") {
        Some(ClientRole::Player(PlayerId::P1))
    } else if str_eq(token, "P2") {
        Some(ClientRole::Player(PlayerId::P2))
    } else if str_eq(token, "SPEC") {
        Some(ClientRole::Spectator)
    } else if str_eq(token, "LOBBY") {
        Some(ClientRole::Lobby)
    } else {
        None
    }
}

} // verus!
