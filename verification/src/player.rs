//! Per-player resource bookkeeping: scored/captured stacks, the two
//! line-boost and firewall slots, the two single-use terminal flags, and the
//! setup-phase counters. Legality is the game state's responsibility, not
//! this record's.

use vstd::prelude::*;

use crate::model::clear_slots;
use crate::model::retarget_slots;
use crate::model::PlayerModel;
use crate::types::OnlineCard;
use crate::types::PlayerId;
use crate::types::Position;
use crate::types::StackChoice;

verus! {

/// Whether an optional slot holds exactly the position `pos`.
pub(crate) fn slot_eq(slot: Option<Position>, pos: Position) -> (r: bool)
    ensures
        r == (slot == Some(pos)),
{
    match slot {
        Some(p) => p.row == pos.row && p.col == pos.col,
        None => false,
    }
}

#[derive(Debug, Clone)]
pub struct PlayerState {
    pub id: PlayerId,
    pub link_stack: Vec<OnlineCard>,
    pub virus_stack: Vec<OnlineCard>,
    pub line_boosts: [Option<Position>; 2],
    pub firewalls: [Option<Position>; 2],
    pub virus_checks_used: [bool; 2],
    pub not_found_used: [bool; 2],
    pub setup_links_left: u8,
    pub setup_viruses_left: u8,
    pub setup_placed: u8,
}

impl PlayerModel {
    /// A fresh player record: empty stacks and slots, unused flags, four
    /// cards of each kind left to place.
    pub open spec fn init(id: PlayerId) -> PlayerModel {
        PlayerModel {
            id: id,
            link_stack: Seq::empty(),
            virus_stack: Seq::empty(),
            line_boosts: seq![None, None],
            firewalls: seq![None, None],
            virus_checks_used: seq![false, false],
            not_found_used: seq![false, false],
            setup_links_left: 4,
            setup_viruses_left: 4,
            setup_placed: 0,
        }
    }

    /// Well-formedness of the per-player record, as the data model fixes it:
    /// both slot pairs and flag pairs have exactly two entries, and the setup
    /// counters stay within their starting bounds.
    pub open spec fn wf(self) -> bool {
        &&& self.line_boosts.len() == 2
        &&& self.firewalls.len() == 2
        &&& self.virus_checks_used.len() == 2
        &&& self.not_found_used.len() == 2
        &&& 0 <= self.setup_links_left <= 4
        &&& 0 <= self.setup_viruses_left <= 4
        &&& 0 <= self.setup_placed <= 8
    }

    /// The model after appending `card` to the chosen stack.
    pub open spec fn push_stack(self, card: OnlineCard, stack: StackChoice) -> PlayerModel {
        match stack {
            StackChoice::Link => PlayerModel { link_stack: self.link_stack.push(card), ..self },
            StackChoice::Virus => PlayerModel { virus_stack: self.virus_stack.push(card), ..self },
        }
    }
}

impl PlayerState {
    pub fn new(id: PlayerId) -> (r: PlayerState)
        ensures
            r@ == PlayerModel::init(id),
    {
        let r = PlayerState {
            id,
            link_stack: Vec::new(),
            virus_stack: Vec::new(),
            line_boosts: [None, None],
            firewalls: [None, None],
            virus_checks_used: [false, false],
            not_found_used: [false, false],
            setup_links_left: 4,
            setup_viruses_left: 4,
            setup_placed: 0,
        };
        proof {
            assert(r@ =~~= PlayerModel::init(id));
        }
        r
    }

    /// Appends `card` to the chosen stack; stacks are append-only during
    /// play.
    pub fn add_to_stack(&mut self, card: OnlineCard, stack: StackChoice)
        ensures
            final(self)@ == old(self)@.push_stack(card, stack),
    {
        match stack {
            StackChoice::Link => self.link_stack.push(card),
            StackChoice::Virus => self.virus_stack.push(card),
        }
        proof {
            assert(self@ =~~= old(self)@.push_stack(card, stack));
        }
    }

    /// Clears every line-boost slot that points at `pos`.
    pub(crate) fn clear_line_boosts_at(&mut self, pos: Position)
        ensures
            final(self)@ == (PlayerModel {
                line_boosts: clear_slots(old(self)@.line_boosts, pos),
                ..old(self)@
            }),
    {
        if slot_eq(self.line_boosts[0], pos) {
            self.line_boosts[0] = None;
        }
        if slot_eq(self.line_boosts[1], pos) {
            self.line_boosts[1] = None;
        }
        proof {
            assert(self@.line_boosts =~= clear_slots(old(self)@.line_boosts, pos));
            assert(self@ =~~= (PlayerModel {
                line_boosts: clear_slots(old(self)@.line_boosts, pos),
                ..old(self)@
            }));
        }
    }

    /// Re-points every line-boost slot that points at `from` to `to`.
    pub(crate) fn retarget_line_boosts(&mut self, from: Position, to: Position)
        ensures
            final(self)@ == (PlayerModel {
                line_boosts: retarget_slots(old(self)@.line_boosts, from, to),
                ..old(self)@
            }),
    {
        if slot_eq(self.line_boosts[0], from) {
            self.line_boosts[0] = Some(to);
        }
        if slot_eq(self.line_boosts[1], from) {
            self.line_boosts[1] = Some(to);
        }
        proof {
            assert(self@.line_boosts =~= retarget_slots(old(self)@.line_boosts, from, to));
            assert(self@ =~~= (PlayerModel {
                line_boosts: retarget_slots(old(self)@.line_boosts, from, to),
                ..old(self)@
            }));
        }
    }
}

} // verus!
