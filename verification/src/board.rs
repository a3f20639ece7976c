//! The trick board: the plays of the current trick, trick resolution under
//! trump and suit constraints, and contract-specific scoring of a resolved
//! trick.

use crate::card::Card;
use crate::card::RANK_JACK;
use crate::card::RANK_KING;
use crate::card::RANK_QUEEN;
use crate::card::valid_suit;
use vstd::prelude::*;

verus! {

/// The trump placeholder `'0'` means that no trump is declared.
pub const NO_TRUMP: char = '0';

/// The King of Hearts, the card the Kings contract penalises.
pub open spec fn is_king_of_hearts(c: Card) -> bool {
    c.suit == 'H' && c.rank == RANK_KING
}

/// The higher-ranked of two cards; ties go to the second, as when two equal
/// rank indices meet (distinct cards of one suit never tie).
pub open spec fn higher(a: Card, b: Card) -> Card {
    if a.rank > b.rank {
        a
    } else {
        b
    }
}

/// The strictly highest-ranked of three cards; with no strict maximum among
/// the first two the third is returned, which is the maximum whenever the
/// three ranks are distinct.
pub open spec fn top_of_three(c1: Card, c2: Card, c3: Card) -> Card {
    if c1.rank > c2.rank && c1.rank > c3.rank {
        c1
    } else if c2.rank > c1.rank && c2.rank > c3.rank {
        c2
    } else {
        c3
    }
}

/// Resolution of a trick without regard to trump: a shared suit is won by
/// rank; with exactly two cards of one suit the higher of those two wins and
/// the odd card cannot; with three distinct suits the first play wins.
pub open spec fn resolve_plain(c1: Card, c2: Card, c3: Card) -> Card {
    if c1.suit == c2.suit && c2.suit == c3.suit {
        top_of_three(c1, c2, c3)
    } else if c1.suit == c2.suit {
        higher(c1, c2)
    } else if c1.suit == c3.suit {
        higher(c1, c3)
    } else if c2.suit == c3.suit {
        higher(c2, c3)
    } else {
        c1
    }
}

/// Resolution of a trick. With a declared trump: three cards of one suit go
/// by rank, a lone trump wins outright, of two trumps the higher wins; with
/// no trump involved the plain rules decide.
pub open spec fn resolve_spec(c1: Card, c2: Card, c3: Card, trump: char) -> Card {
    if trump != NO_TRUMP {
        if c1.suit == c2.suit && c2.suit == c3.suit {
            top_of_three(c1, c2, c3)
        } else if c1.suit == trump && c2.suit != trump && c3.suit != trump {
            c1
        } else if c2.suit == trump && c1.suit != trump && c3.suit != trump {
            c2
        } else if c3.suit == trump && c1.suit != trump && c2.suit != trump {
            c3
        } else if c1.suit == trump && c2.suit == trump && c3.suit != trump {
            higher(c1, c2)
        } else if c1.suit == trump && c3.suit == trump && c2.suit != trump {
            higher(c1, c3)
        } else if c2.suit == trump && c3.suit == trump && c1.suit != trump {
            higher(c2, c3)
        } else {
            resolve_plain(c1, c2, c3)
        }
    } else {
        resolve_plain(c1, c2, c3)
    }
}

/// Rank index penalised by a counting contract symbol: Queens count Queens,
/// Jacks count Jacks; any other symbol counts nothing.
pub open spec fn char_to_rank(ch: char) -> int {
    if ch == 'Q' {
        RANK_QUEEN as int
    } else if ch == 'J' {
        RANK_JACK as int
    } else {
        -1
    }
}

/// Score delta a resolved trick earns its winner under a contract symbol:
/// -40 for a trick holding the King of Hearts under Kings, -20 for the last
/// two tricks under LastTwo, -10 for a Queen or Jack under the counting
/// contracts, -5 for any Heart under Hearts, -4 per trick under Vziatka and
/// +4 per trick under Plus; -1 marks a trick without a scoring trigger.
pub open spec fn trick_score(game_type: char, cards: Seq<Card>, is_last_two: bool) -> i32 {
    if game_type == 'K' {
        if exists|i: int| 0 <= i < cards.len() && is_king_of_hearts(cards[i]) {
            -40i32
        } else {
            -1i32
        }
    } else if game_type == '2' {
        if is_last_two {
            -20i32
        } else {
            -1i32
        }
    } else if game_type == 'Q' || game_type == 'J' {
        if exists|i: int| 0 <= i < cards.len() && cards[i].rank == char_to_rank(game_type) {
            -10i32
        } else {
            -1i32
        }
    } else if game_type == 'H' {
        if exists|i: int| 0 <= i < cards.len() && cards[i].suit == 'H' {
            -5i32
        } else {
            -1i32
        }
    } else if game_type == 'V' {
        -4i32
    } else {
        4i32
    }
}

pub struct Board {
    /// The plays of the current trick in order: each card with the index of
    /// the player who laid it.
    pub cards: Vec<(Card, usize)>,
    /// The cards of the current trick in play order.
    pub cards_on_board: Vec<Card>,
}

impl Board {
    /// The two trick records agree play for play, the player indices are
    /// those of the three seats, and a trick never exceeds three plays.
    pub open spec fn wf(self) -> bool {
        &&& self.cards@.len() == self.cards_on_board@.len()
        &&& forall|i: int|
            0 <= i < self.cards@.len() ==> (#[trigger] self.cards@[i]).0 == self.cards_on_board@[i]
        &&& forall|i: int| 0 <= i < self.cards@.len() ==> (#[trigger] self.cards@[i]).1 < 3
        &&& self.cards@.len() <= 3
    }

    pub fn new() -> (b: Board)
        ensures
            b.wf(),
            b.cards@.len() == 0,
            b.cards_on_board@.len() == 0,
    {
        Board { cards: Vec::new(), cards_on_board: Vec::new() }
    }

    /// Resolves the full trick on the board to its winning card.
    pub fn handle_board(&mut self, trump: char) -> (winner: Card)
        requires
            old(self).cards_on_board@.len() == 3,
        ensures
            *final(self) == *old(self),
            winner == resolve_spec(
                old(self).cards_on_board@[0],
                old(self).cards_on_board@[1],
                old(self).cards_on_board@[2],
                trump,
            ),
    {
        let mut c0: Card = self.cards_on_board[0];
        let mut c1: Card = self.cards_on_board[1];
        let mut c2: Card = self.cards_on_board[2];
        self.compare_cards(&mut c0, &mut c1, &mut c2, trump)
    }

    /// Applies the active contract's scoring rule to a resolved trick.
    pub fn handle_current_game(
        &mut self,
        game_type: char,
        taken_cards: &Vec<Card>,
        is_last_two: bool,
    ) -> (score: i32)
        requires
            game_type == 'K' || game_type == '2' || game_type == 'Q' || game_type == 'J'
                || game_type == 'H' || game_type == 'V' || game_type == '+',
        ensures
            *final(self) == *old(self),
            score == trick_score(game_type, taken_cards@, is_last_two),
    {
        match game_type {
            'K' => self.handle_king_game(taken_cards),
            '2' => self.handle_last_two(is_last_two),
            'Q' => self.handle_queens_or_jacks_game(taken_cards, 'Q'),
            'J' => self.handle_queens_or_jacks_game(taken_cards, 'J'),
            'H' => self.handle_hearts_game(taken_cards),
            'V' => self.handle_vziatk_game(),
            _ => self.handle_plus_game(),
        }
    }

    /// Kings: a trick holding the King of Hearts costs its winner 40.
    pub fn handle_king_game(&mut self, taken_cards: &Vec<Card>) -> (score: i32)
        ensures
            *final(self) == *old(self),
            score == trick_score('K', taken_cards@, false),
    {
        let mut i: usize = 0;
        while i < taken_cards.len()
            invariant
                *self == *old(self),
                i <= taken_cards@.len(),
                forall|j: int| 0 <= j < i ==> !is_king_of_hearts(taken_cards@[j]),
            decreases taken_cards@.len() - i,
        {
            if taken_cards[i].suit == 'H' && taken_cards[i].rank == RANK_KING {
                return -40;
            }
            i = i + 1;
        }
        -1
    }

    /// LastTwo: only the final two tricks score, 20 each against the winner.
    pub fn handle_last_two(&mut self, is_last_two: bool) -> (score: i32)
        ensures
            *final(self) == *old(self),
            score == trick_score('2', Seq::<Card>::empty(), is_last_two),
    {
        if is_last_two {
            -20
        } else {
            -1
        }
    }

    /// Queens or Jacks: a trick holding a card of the counted rank costs 10.
    pub fn handle_queens_or_jacks_game(
        &mut self,
        taken_cards: &Vec<Card>,
        game_type: char,
    ) -> (score: i32)
        requires
            game_type == 'Q' || game_type == 'J',
        ensures
            *final(self) == *old(self),
            score == trick_score(game_type, taken_cards@, false),
    {
        let wanted: u8 = if game_type == 'Q' {
            RANK_QUEEN
        } else {
            RANK_JACK
        };
        let mut i: usize = 0;
        while i < taken_cards.len()
            invariant
                *self == *old(self),
                i <= taken_cards@.len(),
                wanted == char_to_rank(game_type),
                forall|j: int| 0 <= j < i ==> taken_cards@[j].rank != wanted,
            decreases taken_cards@.len() - i,
        {
            if taken_cards[i].rank == wanted {
                return -10;
            }
            i = i + 1;
        }
        -1
    }

    /// Hearts: a trick holding any Heart costs its winner 5.
    pub fn handle_hearts_game(&mut self, taken_cards: &Vec<Card>) -> (score: i32)
        ensures
            *final(self) == *old(self),
            score == trick_score('H', taken_cards@, false),
    {
        let mut i: usize = 0;
        while i < taken_cards.len()
            invariant
                *self == *old(self),
                i <= taken_cards@.len(),
                forall|j: int| 0 <= j < i ==> taken_cards@[j].suit != 'H',
            decreases taken_cards@.len() - i,
        {
            if taken_cards[i].suit == 'H' {
                return -5;
            }
            i = i + 1;
        }
        -1
    }

    /// Vziatka: every trick costs its winner 4.
    pub fn handle_vziatk_game(&mut self) -> (score: i32)
        ensures
            *final(self) == *old(self),
            score == -4,
    {
        -4
    }

    /// Plus: every trick earns its winner 4.
    pub fn handle_plus_game(&mut self) -> (score: i32)
        ensures
            *final(self) == *old(self),
            score == 4,
    {
        4
    }

    /// Picks the winning card out of three, following the trump rules first
    /// and the plain suit rules otherwise.
    pub fn compare_cards(
        &mut self,
        c1: &mut Card,
        c2: &mut Card,
        c3: &mut Card,
        trump: char,
    ) -> (winner: Card)
        ensures
            *final(self) == *old(self),
            *final(c1) == *old(c1),
            *final(c2) == *old(c2),
            *final(c3) == *old(c3),
            winner == resolve_spec(*old(c1), *old(c2), *old(c3), trump),
    {
        let c1_rank = c1.get_rank_idx();
        let c2_rank = c2.get_rank_idx();
        let c3_rank = c3.get_rank_idx();

        if trump != NO_TRUMP {
            if c1.suit == c2.suit && c2.suit == c3.suit {
                if c1_rank > c2_rank && c1_rank > c3_rank {
                    return *c1;
                } else if c2_rank > c1_rank && c2_rank > c3_rank {
                    return *c2;
                } else {
                    return *c3;
                }
            } else if c1.suit == trump && c2.suit != trump && c3.suit != trump {
                return *c1;
            } else if c2.suit == trump && c1.suit != trump && c3.suit != trump {
                return *c2;
            } else if c3.suit == trump && c1.suit != trump && c2.suit != trump {
                return *c3;
            } else if c1.suit == trump && c2.suit == trump && c3.suit != trump {
                return self.biggest(c1, c2);
            } else if c1.suit == trump && c3.suit == trump && c2.suit != trump {
                return self.biggest(c1, c3);
            } else if c2.suit == trump && c3.suit == trump && c1.suit != trump {
                return self.biggest(c2, c3);
            }
        }
        if c1.suit == c2.suit && c2.suit == c3.suit {
            if c1_rank > c2_rank && c1_rank > c3_rank {
                *c1
            } else if c2_rank > c1_rank && c2_rank > c3_rank {
                *c2
            } else {
                *c3
            }
        } else if c1.suit == c2.suit {
            self.biggest(c1, c2)
        } else if c1.suit == c3.suit {
            self.biggest(c1, c3)
        } else if c2.suit == c3.suit {
            self.biggest(c2, c3)
        } else {
            *c1
        }
    }

    /// The higher-ranked of two cards, ties to the second.
    pub fn biggest(&mut self, c1: &Card, c2: &Card) -> (winner: Card)
        ensures
            *final(self) == *old(self),
            winner == higher(*c1, *c2),
    {
        if c1.rank > c2.rank {
            *c1
        } else {
            *c2
        }
    }

    /// The cards of the current trick, in play order.
    pub fn get_cards_on_board(&mut self) -> (result: Vec<Card>)
        ensures
            *final(self) == *old(self),
            result@.len() == old(self).cards@.len(),
            forall|i: int| 0 <= i < result@.len() ==> result@[i] == old(self).cards@[i].0,
    {
        let mut result: Vec<Card> = Vec::new();
        let mut i: usize = 0;
        while i < self.cards.len()
            invariant
                *self == *old(self),
                i <= self.cards@.len(),
                result@.len() == i,
                forall|j: int| 0 <= j < i ==> result@[j] == self.cards@[j].0,
            decreases self.cards@.len() - i,
        {
            result.push(self.cards[i].0);
            i = i + 1;
        }
        result
    }

    /// Empties the board for the next trick.
    pub fn clean(&mut self)
        ensures
            final(self).wf(),
            final(self).cards@.len() == 0,
            final(self).cards_on_board@.len() == 0,
    {
        self.cards.clear();
        self.cards_on_board.clear();
    }
}

/// Trick resolution is total: whatever the trump, the winner of three
/// pairwise distinct cards is always one of the three.
pub proof fn lemma_resolve_total(c1: Card, c2: Card, c3: Card, trump: char)
    requires
        c1 != c2,
        c1 != c3,
        c2 != c3,
        trump == NO_TRUMP || valid_suit(trump),
    ensures
        resolve_spec(c1, c2, c3, trump) == c1 || resolve_spec(c1, c2, c3, trump) == c2
            || resolve_spec(c1, c2, c3, trump) == c3,
{
}

} // verus!
