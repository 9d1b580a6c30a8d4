//! Spatial storage: an 8x8 grid of optional cards and an independent 8x8
//! grid of optional firewall owners. The board owns no player semantics;
//! bounds checking is the caller's responsibility via `in_bounds`.

use vstd::prelude::*;

use crate::types::OnlineCard;
use crate::types::PlayerId;
use crate::types::Position;

verus! {

#[derive(Debug, Clone)]
pub struct Board {
    pub cards: [[Option<OnlineCard>; 8]; 8],
    pub firewalls: [[Option<PlayerId>; 8]; 8],
}

impl Board {
    /// The card stored at `pos`, as seen by specifications.
    pub open spec fn spec_card(self, pos: Position) -> Option<OnlineCard> {
        self.cards[pos.row as int][pos.col as int]
    }

    /// The firewall owner stored at `pos`, as seen by specifications.
    pub open spec fn spec_firewall(self, pos: Position) -> Option<PlayerId> {
        self.firewalls[pos.row as int][pos.col as int]
    }

    pub fn new() -> (r: Board)
        ensures
            r@ == crate::model::BoardModel::init(),
            forall|p: Position| p.row < 8 && p.col < 8 ==> #[trigger] r.spec_card(p) is None,
            forall|p: Position| p.row < 8 && p.col < 8 ==> #[trigger] r.spec_firewall(p) is None,
    {
        let r = Board { cards: [[None; 8]; 8], firewalls: [[None; 8]; 8] };
        proof {
            assert(r@ =~~= crate::model::BoardModel::init());
        }
        r
    }

    /// Whether `pos` lies on the 8x8 grid.
    pub open spec fn spec_in_bounds(pos: Position) -> bool {
        pos.row < 8 && pos.col < 8
    }

    #[verifier::when_used_as_spec(spec_in_bounds)]
    pub fn in_bounds(pos: Position) -> (r: bool)
        ensures
            r == Board::spec_in_bounds(pos),
    {
        pos.row < 8 && pos.col < 8
    }

    pub fn get(&self, pos: Position) -> (r: Option<OnlineCard>)
        requires
            Board::spec_in_bounds(pos),
        ensures
            r == self.spec_card(pos),
    {
        self.cards[pos.row][pos.col]
    }

    pub fn set(&mut self, pos: Position, card: Option<OnlineCard>)
        requires
            Board::spec_in_bounds(pos),
        ensures
            final(self).spec_card(pos) == card,
            forall|q: Position| Board::spec_in_bounds(q) && q != pos
                ==> #[trigger] final(self).spec_card(q) == old(self).spec_card(q),
            forall|q: Position| Board::spec_in_bounds(q)
                ==> #[trigger] final(self).spec_firewall(q) == old(self).spec_firewall(q),
            final(self)@ == old(self)@.set_card(pos, card),
    {
        self.cards[pos.row][pos.col] = card;
        proof {
            assert(self@ =~~= old(self)@.set_card(pos, card));
        }
    }

    /// The firewall owner stored at `pos`.
    pub fn get_firewall(&self, pos: Position) -> (r: Option<PlayerId>)
        requires
            Board::spec_in_bounds(pos),
        ensures
            r == self.spec_firewall(pos),
    {
        self.firewalls[pos.row][pos.col]
    }

    /// Stores or clears the firewall marker at `pos`.
    pub fn set_firewall(&mut self, pos: Position, owner: Option<PlayerId>)
        requires
            Board::spec_in_bounds(pos),
        ensures
            final(self).spec_firewall(pos) == owner,
            forall|q: Position| Board::spec_in_bounds(q) && q != pos
                ==> #[trigger] final(self).spec_firewall(q) == old(self).spec_firewall(q),
            forall|q: Position| Board::spec_in_bounds(q)
                ==> #[trigger] final(self).spec_card(q) == old(self).spec_card(q),
            final(self)@ == old(self)@.set_firewall(pos, owner),
    {
        self.firewalls[pos.row][pos.col] = owner;
        proof {
            assert(self@ =~~= old(self)@.set_firewall(pos, owner));
        }
    }

    /// Whether `pos` holds a card owned by `player`.
    pub open spec fn spec_has_own_card(self, pos: Position, player: PlayerId) -> bool {
        self.spec_card(pos) matches Some(card) && card.owner == player
    }

    pub fn has_own_card(&self, pos: Position, player: PlayerId) -> (r: bool)
        requires
            Board::spec_in_bounds(pos),
        ensures
            r == self.spec_has_own_card(pos, player),
    {
        match self.get(pos) {
            Some(card) => card.owner == player,
            None => false,
        }
    }

    /// Whether `pos` holds a card owned by `player`'s opponent.
    pub open spec fn spec_has_opponent_card(self, pos: Position, player: PlayerId) -> bool {
        self.spec_has_own_card(pos, player.opponent())
    }

    pub fn has_opponent_card(&self, pos: Position, player: PlayerId) -> (r: bool)
        requires
            Board::spec_in_bounds(pos),
        ensures
            r == self.spec_has_opponent_card(pos, player),
    {
        self.has_own_card(pos, player.opponent())
    }
}

} // verus!
