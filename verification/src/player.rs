//! A player: name, hand, running score, and the dealer flag.

use crate::card::Card;
use vstd::prelude::*;

verus! {

pub struct Player {
    pub username: String,
    /// Whether this player is the round's dealer (the "main" player).
    pub is_his_play: bool,
    pub hand: Vec<Card>,
    /// Signed score accumulated across the whole match.
    pub score: i32,
}

impl Player {
    pub fn new(username: String, is_his_play: bool) -> (p: Player)
        ensures
            p.username == username,
            p.is_his_play == is_his_play,
            p.hand@ == Seq::<Card>::empty(),
            p.score == 0,
    {
        Player { username, is_his_play, hand: Vec::new(), score: 0 }
    }

    /// Removes the first copy of `drawn_card` from the hand; the card must be
    /// there. Name, dealer flag and score are untouched.
    pub fn draw_card(&mut self, drawn_card: Card)
        requires
            old(self).hand@.contains(drawn_card),
        ensures
            final(self).hand@.len() == old(self).hand@.len() - 1,
            exists|i: int|
                0 <= i < old(self).hand@.len() && old(self).hand@[i] == drawn_card
                    && final(self).hand@ == old(self).hand@.remove(i),
            final(self).hand@.to_multiset() == old(self).hand@.to_multiset().remove(drawn_card),
            final(self).username == old(self).username,
            final(self).is_his_play == old(self).is_his_play,
            final(self).score == old(self).score,
    {
        let mut i: usize = 0;
        while i < self.hand.len()
            invariant
                *self == *old(self),
                i <= self.hand@.len(),
                self.hand@.contains(drawn_card),
                forall|j: int| 0 <= j < i ==> self.hand@[j] != drawn_card,
            decreases self.hand@.len() - i,
        {
            if self.hand[i] == drawn_card {
                proof {
                    broadcast use vstd::seq_lib::group_to_multiset_ensures;
                }
                self.hand.remove(i);
                return ;
            }
            i = i + 1;
        }
        proof {
            let k = choose|k: int| 0 <= k < self.hand@.len() && self.hand@[k] == drawn_card;
            assert(self.hand@[k] == drawn_card);
            assert(false);
        }
    }
}

} // verus!
