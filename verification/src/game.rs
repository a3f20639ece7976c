//! The match aggregate and the round state machine: dealing, hiding,
//! move validation, trick resolution and scoring, one step at a time.
//!
//! The surrounding application owns the blocking requests to the players
//! (card choices, hide choices, the trump declaration) and drives these
//! steps in a loop; every rule decision lives here.

use crate::board::Board;
use crate::board::NO_TRUMP;
use crate::board::char_to_rank;
use crate::board::is_king_of_hearts;
use crate::board::resolve_spec;
use crate::board::trick_score;
use crate::card::Card;
use crate::card::RANK_JACK;
use crate::card::RANK_KING;
use crate::card::RANK_QUEEN;
use crate::card::fill_cards;
use crate::card::shuffle;
use crate::card::valid_suit;
use crate::player::Player;
use crate::schedule::Schedule;
use crate::schedule::game_symbol;
use vstd::pervasive::VecAdditionalExecFns;
use vstd::prelude::*;

verus! {

/// Whether a hand holds at least one card of the given suit.
pub open spec fn contains_suit(hand: Seq<Card>, suit: char) -> bool {
    exists|i: int| 0 <= i < hand.len() && hand[i].suit == suit
}

/// How many cards of the given rank index a pile holds.
pub open spec fn count_rank(cards: Seq<Card>, rank: int) -> nat
    decreases cards.len(),
{
    if cards.len() == 0 {
        0
    } else {
        count_rank(cards.drop_last(), rank) + (if cards.last().rank == rank {
            1nat
        } else {
            0nat
        })
    }
}

/// The Kings lead restriction: leading the King of Hearts while still
/// holding any non-Heart card is illegal under the Kings contract.
pub open spec fn illegal_king_lead(
    game_type: char,
    board_len: int,
    card: Card,
    hand: Seq<Card>,
) -> bool {
    board_len == 0 && game_type == 'K' && is_king_of_hearts(card) && (exists|i: int|
        0 <= i < hand.len() && hand[i].suit != 'H')
}

/// Legality of playing `card` from `hand`. The suit to follow is the lead
/// card's suit, or `card`'s own when the trick is empty. The play is legal
/// when the Kings lead restriction does not bite, trump is neither played
/// while able to follow suit nor withheld while unable to follow, and suit
/// is followed whenever the hand allows it.
pub open spec fn is_legal_play(
    game_type: char,
    board_len: int,
    current_suit: char,
    trump: char,
    hand: Seq<Card>,
    card: Card,
) -> bool {
    let cs = if board_len == 0 {
        card.suit
    } else {
        current_suit
    };
    &&& !illegal_king_lead(game_type, board_len, card, hand)
    &&& !(trump != NO_TRUMP && card.suit != cs && card.suit == trump && contains_suit(hand, cs))
    &&& !(trump != NO_TRUMP && card.suit != cs && card.suit != trump && contains_suit(hand, trump))
    &&& !(card.suit != cs && contains_suit(hand, cs))
}

/// The cards the dealer may not hide under the active contract: the King of
/// Hearts under Kings, Queens under Queens, Jacks under Jacks, Hearts under
/// Hearts.
pub open spec fn forbidden_hide(game_type: char, card: Card) -> bool {
    if game_type == 'K' {
        is_king_of_hearts(card)
    } else if game_type == 'Q' {
        card.rank == RANK_QUEEN
    } else if game_type == 'J' {
        card.rank == RANK_JACK
    } else if game_type == 'H' {
        card.suit == 'H'
    } else {
        false
    }
}

/// Whether a scored trick ends the round: Kings ends at once, Queens and
/// Jacks end when all four of their rank have been played this round; the
/// other contracts never end by content.
pub open spec fn content_round_end(game_type: char, gone: Seq<Card>) -> bool {
    if game_type == 'K' {
        true
    } else if game_type == 'Q' {
        count_rank(gone, RANK_QUEEN as int) == 4
    } else if game_type == 'J' {
        count_rank(gone, RANK_JACK as int) == 4
    } else {
        false
    }
}

/// The index of the first play laying `c`, or -1 when no play did.
pub open spec fn first_play_of(plays: Seq<(Card, usize)>, c: Card) -> int
    decreases plays.len(),
{
    if plays.len() == 0 {
        -1
    } else if plays[0].0 == c {
        0
    } else {
        let r = first_play_of(plays.drop_first(), c);
        if r < 0 {
            -1
        } else {
            r + 1
        }
    }
}

/// Cards accounted for in a round: the three hands, the hidden pair, and
/// every card laid so far (tricks on the board included, since a card joins
/// the played log the moment it is laid).
pub open spec fn cards_in_play(players: Seq<Player>, hidden: Seq<Card>, gone: Seq<Card>) -> int {
    players[0].hand@.len() + players[1].hand@.len() + players[2].hand@.len() + hidden.len()
        + gone.len() as int
}

/// The mutable state of one round that is not owned by the match aggregate:
/// whose turn it is, the cards played so far, the suit to follow, and the
/// trump declared for the round.
pub struct Round {
    pub turn: usize,
    pub gone_cards: Vec<Card>,
    pub current_suit: char,
    pub trump: char,
}

impl Round {
    pub open spec fn wf(self) -> bool {
        self.turn < 3
    }
}

pub struct Game {
    pub players: Vec<Player>,
    pub deck: Vec<Card>,
    pub board: Board,
    pub hidden_cards: Vec<Card>,
    pub schedule: Schedule,
}

impl Game {
    /// A playable match: three seats, a cursor inside the schedule, and the
    /// two trick records in step.
    pub open spec fn wf(self) -> bool {
        self.players@.len() == 3 && self.schedule.wf() && self.board.wf()
    }

    /// A fresh match: no players yet, the canonical deck, an empty board,
    /// and the schedule at its start.
    pub fn new() -> (g: Game)
        ensures
            g.players@.len() == 0,
            g.deck@.len() == 32,
            g.hidden_cards@.len() == 0,
            g.board.wf(),
            g.board.cards@.len() == 0,
            g.schedule.wf(),
            g.schedule.game_type_idx == 0,
            g.schedule.main_player_idx == 0,
    {
        Game {
            players: Vec::new(),
            hidden_cards: Vec::new(),
            deck: fill_cards(),
            board: Board::new(),
            schedule: Schedule::new(),
        }
    }

    /// Seats one more player; the room holds exactly three.
    pub fn new_player(&mut self, username: String, is_his_play: bool)
        requires
            old(self).players@.len() < 3,
        ensures
            final(self).players@.len() == old(self).players@.len() + 1,
            final(self).players@.last().username == username,
            final(self).players@.last().is_his_play == is_his_play,
            final(self).players@.last().hand@.len() == 0,
            final(self).players@.last().score == 0,
            forall|j: int|
                0 <= j < old(self).players@.len() ==> final(self).players@[j] == old(self).players@[j],
            final(self).deck == old(self).deck,
            final(self).board == old(self).board,
            final(self).hidden_cards == old(self).hidden_cards,
            final(self).schedule == old(self).schedule,
    {
        self.players.push(Player::new(username, is_his_play));
    }

    /// Whether all three seats are taken.
    pub fn room_is_filled(&mut self) -> (r: bool)
        ensures
            *final(self) == *old(self),
            r == (old(self).players@.len() == 3),
    {
        self.players.len() == 3
    }

    /// Whether the hand holds at least one card of the given suit.
    pub fn contains_specific_suit(&mut self, hand: &Vec<Card>, suit: char) -> (r: bool)
        ensures
            *final(self) == *old(self),
            r == contains_suit(hand@, suit),
    {
        let mut i: usize = 0;
        while i < hand.len()
            invariant
                *self == *old(self),
                i <= hand@.len(),
                forall|j: int| 0 <= j < i ==> hand@[j].suit != suit,
            decreases hand@.len() - i,
        {
            if hand[i].suit == suit {
                return true;
            }
            i = i + 1;
        }
        false
    }

    /// Counts the cards of the rank named by `ch` (`'Q'` or `'J'`) among the
    /// cards played this round.
    pub fn count_specific_card(&mut self, gone_cards: &Vec<Card>, ch: char) -> (n: u8)
        requires
            gone_cards@.len() <= 255,
        ensures
            *final(self) == *old(self),
            n as int == count_rank(gone_cards@, char_to_rank(ch)),
    {
        let wanted: i32 = if ch == 'Q' {
            RANK_QUEEN as i32
        } else if ch == 'J' {
            RANK_JACK as i32
        } else {
            -1
        };
        let mut counter: u8 = 0;
        let mut i: usize = 0;
        while i < gone_cards.len()
            invariant
                *self == *old(self),
                i <= gone_cards@.len(),
                gone_cards@.len() <= 255,
                counter <= i,
                wanted as int == char_to_rank(ch),
                counter as int == count_rank(gone_cards@.take(i as int), char_to_rank(ch)),
            decreases gone_cards@.len() - i,
        {
            proof {
                assert(gone_cards@.take(i + 1).drop_last() =~= gone_cards@.take(i as int));
                assert(gone_cards@.take(i + 1).last() == gone_cards@[i as int]);
            }
            if gone_cards[i].rank as i32 == wanted {
                counter = counter + 1;
            }
            i = i + 1;
        }
        proof {
            assert(gone_cards@.take(gone_cards@.len() as int) =~= gone_cards@);
        }
        counter
    }

    /// The Kings lead restriction, tested against the acting player's hand.
    pub fn is_illegal_king_move(&mut self, drawn_card: &Card, turn: &usize) -> (r: bool)
        requires
            old(self).wf(),
            *turn < 3,
        ensures
            *final(self) == *old(self),
            r == illegal_king_lead(
                game_symbol(old(self).schedule.game_type_idx as int),
                old(self).board.cards_on_board@.len() as int,
                *drawn_card,
                old(self).players@[*turn as int].hand@,
            ),
    {
        if self.board.cards_on_board.len() != 0 {
            return false;
        }
        let game = self.schedule.get_game();
        if game != 'K' {
            return false;
        }
        if !(drawn_card.suit == 'H' && drawn_card.rank == RANK_KING) {
            return false;
        }
        let mut i: usize = 0;
        while i < self.players[*turn].hand.len()
            invariant
                *self == *old(self),
                old(self).wf(),
                *turn < 3,
                self.board.cards_on_board@.len() == 0,
                game_symbol(self.schedule.game_type_idx as int) == 'K',
                drawn_card.suit == 'H' && drawn_card.rank == RANK_KING,
                i <= self.players@[*turn as int].hand@.len(),
                forall|j: int| 0 <= j < i ==> self.players@[*turn as int].hand@[j].suit == 'H',
            decreases self.players@[*turn as int].hand@.len() - i,
        {
            if self.players[*turn].hand[i].suit != 'H' {
                proof {
                    let hand = self.players@[*turn as int].hand@;
                    assert(0 <= i < hand.len() && hand[i as int].suit != 'H');
                }
                return true;
            }
            i = i + 1;
        }
        false
    }

    /// Shuffles the deck into three hands and deals them: the dealer named
    /// by the schedule cursor takes the twelve-card hand, the other two
    /// seats take ten cards each, and the hidden pile is emptied for the
    /// new round. Every deck card ends up in exactly one hand.
    pub fn deal_cards(&mut self)
        requires
            old(self).wf(),
            old(self).deck@.len() == 32,
        ensures
            final(self).wf(),
            final(self).players@[old(self).schedule.main_player_idx as int].hand@.len() == 12,
            forall|j: int|
                0 <= j < 3 && j != old(self).schedule.main_player_idx as int ==> final(self).players@[j].hand@.len() == 10,
            final(self).players@[0].hand@.to_multiset().add(
                final(self).players@[1].hand@.to_multiset(),
            ).add(final(self).players@[2].hand@.to_multiset()) == old(self).deck@.to_multiset(),
            final(self).hidden_cards@.len() == 0,
            forall|j: int|
                0 <= j < 3 ==> {
                    &&& (#[trigger] final(self).players@[j]).username == old(self).players@[j].username
                    &&& final(self).players@[j].is_his_play == old(self).players@[j].is_his_play
                    &&& final(self).players@[j].score == old(self).players@[j].score
                },
            final(self).deck == old(self).deck,
            final(self).board == old(self).board,
            final(self).schedule == old(self).schedule,
            cards_in_play(final(self).players@, final(self).hidden_cards@, Seq::<Card>::empty())
                == 32,
    {
        let hands = shuffle(&self.deck);
        let d = self.schedule.main_player_idx;
        let d1: usize = if d == 2 {
            0
        } else {
            d + 1
        };
        let d2: usize = if d1 == 2 {
            0
        } else {
            d1 + 1
        };
        let ghost m0 = hands.0@.to_multiset();
        let ghost m1 = hands.1@.to_multiset();
        let ghost m2 = hands.2@.to_multiset();

        let mut tmp = Player::new(String::new(), false);
        let ghost orig = self.players@;
        self.players.set_and_swap(d, &mut tmp);
        tmp.hand = hands.0;
        let ghost pd = tmp;
        self.players.set_and_swap(d, &mut tmp);
        proof {
            assert(self.players@ =~= orig.update(d as int, pd));
        }
        let ghost step1 = self.players@;
        self.players.set_and_swap(d1, &mut tmp);
        tmp.hand = hands.1;
        let ghost pd1 = tmp;
        self.players.set_and_swap(d1, &mut tmp);
        proof {
            assert(self.players@ =~= step1.update(d1 as int, pd1));
        }
        let ghost step2 = self.players@;
        self.players.set_and_swap(d2, &mut tmp);
        tmp.hand = hands.2;
        let ghost pd2 = tmp;
        self.players.set_and_swap(d2, &mut tmp);
        proof {
            assert(self.players@ =~= step2.update(d2 as int, pd2));
        }
        self.hidden_cards.clear();
        proof {
            broadcast use vstd::multiset::group_multiset_axioms;

            if d == 0 {
                assert(self.players@[0].hand@.to_multiset().add(
                    self.players@[1].hand@.to_multiset(),
                ).add(self.players@[2].hand@.to_multiset()) =~= m0.add(m1).add(m2));
            } else if d == 1 {
                assert(self.players@[0].hand@.to_multiset().add(
                    self.players@[1].hand@.to_multiset(),
                ).add(self.players@[2].hand@.to_multiset()) =~= m0.add(m1).add(m2));
            } else {
                assert(self.players@[0].hand@.to_multiset().add(
                    self.players@[1].hand@.to_multiset(),
                ).add(self.players@[2].hand@.to_multiset()) =~= m0.add(m1).add(m2));
            }
        }
    }

    /// Takes the dealer's hidden-card choice: the card at `choice` in the
    /// dealer's hand. A choice out of range or forbidden under the active
    /// contract is refused and changes nothing; an accepted card moves from
    /// the dealer's hand to the hidden pile.
    pub fn hide_card(&mut self, choice: usize) -> (accepted: bool)
        requires
            old(self).wf(),
            old(self).hidden_cards@.len() < 2,
        ensures
            final(self).wf(),
            final(self).deck == old(self).deck,
            final(self).board == old(self).board,
            final(self).schedule == old(self).schedule,
            accepted == (choice < old(self).players@[old(self).schedule.main_player_idx as int].hand@.len()
                && !forbidden_hide(
                game_symbol(old(self).schedule.game_type_idx as int),
                old(self).players@[old(self).schedule.main_player_idx as int].hand@[choice as int],
            )),
            !accepted ==> *final(self) == *old(self),
            accepted ==> {
                let d = old(self).schedule.main_player_idx as int;
                let hand = old(self).players@[d].hand@;
                &&& final(self).players@[d].hand@ == hand.remove(choice as int)
                &&& final(self).hidden_cards@ == old(self).hidden_cards@.push(
                    hand[choice as int],
                )
                &&& forall|j: int|
                    0 <= j < 3 && j != d ==> final(self).players@[j] == old(self).players@[j]
                &&& final(self).players@[d].username == old(self).players@[d].username
                &&& final(self).players@[d].is_his_play == old(self).players@[d].is_his_play
                &&& final(self).players@[d].score == old(self).players@[d].score
            },
            final(self).players@[0].hand@.len() + final(self).players@[1].hand@.len() + final(self).players@[2].hand@.len() + final(self).hidden_cards@.len() == old(self).players@[0].hand@.len() + old(self).players@[1].hand@.len() + old(self).players@[2].hand@.len() + old(self).hidden_cards@.len(),
    {
        let d = self.schedule.main_player_idx;
        let game = self.schedule.get_game();
        if choice >= self.players[d].hand.len() {
            return false;
        }
        let card = self.players[d].hand[choice];
        let forbidden: bool = match game {
            'K' => card.suit == 'H' && card.rank == RANK_KING,
            'Q' => card.rank == RANK_QUEEN,
            'J' => card.rank == RANK_JACK,
            'H' => card.suit == 'H',
            _ => false,
        };
        if forbidden {
            return false;
        }
        let mut tmp = Player::new(String::new(), false);
        let ghost orig = self.players@;
        self.players.set_and_swap(d, &mut tmp);
        tmp.hand.remove(choice);
        let ghost pd = tmp;
        self.players.set_and_swap(d, &mut tmp);
        proof {
            assert(self.players@ =~= orig.update(d as int, pd));
        }
        self.hidden_cards.push(card);
        true
    }

    /// Opens a round: clears the board and hands back the round state with
    /// the turn at seat 0, no plays yet, no suit to follow, and the given
    /// trump. A trump suit is declared exactly under the Plus contract.
    pub fn begin_round(&mut self, trump: char) -> (round: Round)
        requires
            old(self).wf(),
            trump == NO_TRUMP || valid_suit(trump),
            (trump != NO_TRUMP) <==> (game_symbol(old(self).schedule.game_type_idx as int)
                == '+'),
        ensures
            final(self).wf(),
            final(self).board.cards@.len() == 0,
            final(self).board.cards_on_board@.len() == 0,
            final(self).players == old(self).players,
            final(self).deck == old(self).deck,
            final(self).hidden_cards == old(self).hidden_cards,
            final(self).schedule == old(self).schedule,
            round.wf(),
            round.turn == 0,
            round.gone_cards@.len() == 0,
            round.current_suit == NO_TRUMP,
            round.trump == trump,
    {
        self.board.clean();
        Round { turn: 0, gone_cards: Vec::new(), current_suit: NO_TRUMP, trump }
    }

    /// Offers a card from the acting player's hand to the trick. An illegal
    /// card is refused and nothing changes, so the same player can be asked
    /// again; a legal card leaves the hand, joins the trick (fixing the suit
    /// to follow when it leads) and joins the round's played log.
    pub fn play_card(&mut self, round: &mut Round, drawn_card: Card) -> (accepted: bool)
        requires
            old(self).wf(),
            old(round).wf(),
            old(self).players@[old(round).turn as int].hand@.contains(drawn_card),
            old(self).board.cards_on_board@.len() < 3,
        ensures
            final(self).wf(),
            final(round).wf(),
            accepted == is_legal_play(
                game_symbol(old(self).schedule.game_type_idx as int),
                old(self).board.cards_on_board@.len() as int,
                old(round).current_suit,
                old(round).trump,
                old(self).players@[old(round).turn as int].hand@,
                drawn_card,
            ),
            !accepted ==> *final(self) == *old(self) && *final(round) == *old(round),
            accepted ==> ({
                let t = old(round).turn as int;
                &&& final(self).players@[t].hand@.len() == old(self).players@[t].hand@.len() - 1
                &&& final(self).players@[t].hand@.to_multiset() == old(
                    self,
                ).players@[t].hand@.to_multiset().remove(drawn_card)
                &&& forall|j: int|
                    0 <= j < 3 && j != t ==> final(self).players@[j] == old(self).players@[j]
                &&& final(self).players@[t].username == old(self).players@[t].username
                &&& final(self).players@[t].is_his_play == old(self).players@[t].is_his_play
                &&& final(self).players@[t].score == old(self).players@[t].score
                &&& final(self).board.cards@ == old(self).board.cards@.push(
                    (drawn_card, old(round).turn),
                )
                &&& final(self).board.cards_on_board@ == old(self).board.cards_on_board@.push(
                    drawn_card,
                )
                &&& final(round).gone_cards@ == old(round).gone_cards@.push(drawn_card)
                &&& final(round).turn == old(round).turn
                &&& final(round).trump == old(round).trump
                &&& final(round).current_suit == (if old(self).board.cards_on_board@.len() == 0 {
                    drawn_card.suit
                } else {
                    old(round).current_suit
                })
            }),
            final(self).deck == old(self).deck,
            final(self).hidden_cards == old(self).hidden_cards,
            final(self).schedule == old(self).schedule,
            cards_in_play(
                final(self).players@,
                final(self).hidden_cards@,
                final(round).gone_cards@,
            ) == cards_in_play(
                old(self).players@,
                old(self).hidden_cards@,
                old(round).gone_cards@,
            ),
    {
        let board_len = self.board.cards_on_board.len();
        let cs: char = if board_len == 0 {
            drawn_card.suit
        } else {
            round.current_suit
        };
        if self.is_illegal_king_move(&drawn_card, &round.turn) {
            return false;
        }
        let hand = self.players[round.turn].hand.clone();
        proof {
            assert(hand@ =~= self.players@[round.turn as int].hand@);
        }
        if round.trump != NO_TRUMP {
            if cs != drawn_card.suit && drawn_card.suit == round.trump
                && self.contains_specific_suit(&hand, cs) {
                return false;
            }
            if cs != drawn_card.suit && drawn_card.suit != round.trump
                && self.contains_specific_suit(&hand, round.trump) {
                return false;
            }
        }
        if cs != drawn_card.suit && self.contains_specific_suit(&hand, cs) {
            return false;
        }
        if board_len == 0 {
            round.current_suit = drawn_card.suit;
        }
        let mut tmp = Player::new(String::new(), false);
        let ghost orig = self.players@;
        self.players.set_and_swap(round.turn, &mut tmp);
        tmp.draw_card(drawn_card);
        let ghost pt = tmp;
        self.players.set_and_swap(round.turn, &mut tmp);
        proof {
            assert(self.players@ =~= orig.update(round.turn as int, pt));
        }
        self.board.cards.push((drawn_card, round.turn));
        self.board.cards_on_board.push(drawn_card);
        round.gone_cards.push(drawn_card);
        true
    }

    /// Whether the designated last-hand player is down to the final two
    /// tricks, the trigger of the LastTwo contract.
    pub fn is_last_two(&mut self) -> (r: bool)
        requires
            old(self).wf(),
        ensures
            *final(self) == *old(self),
            r == (old(self).players@[2].hand@.len() < 2),
    {
        self.players[2].hand.len() < 2
    }
    /// Credits a resolved trick's score to the winner of the play that laid
    /// `biggest_card`, and reports whether the contract's content rule ends
    /// the round: Kings at once, Queens and Jacks when the played log holds
    /// all four of the counted rank.
    pub fn handle_specific_play(
        &mut self,
        final_score: i32,
        biggest_card: &Card,
        gone_cards: &Vec<Card>,
    ) -> (ended: bool)
        requires
            old(self).wf(),
            exists|i: int|
                0 <= i < old(self).board.cards@.len() && (#[trigger] old(self).board.cards@[i]).0
                    == *biggest_card,
            gone_cards@.len() <= 255,
            forall|j: int|
                0 <= j < 3 ==> i32::MIN <= (#[trigger] old(self).players@[j]).score + final_score
                    <= i32::MAX,
        ensures
            final(self).wf(),
            final(self).deck == old(self).deck,
            final(self).board == old(self).board,
            final(self).hidden_cards == old(self).hidden_cards,
            final(self).schedule == old(self).schedule,
            ({
                let w = first_play_of(old(self).board.cards@, *biggest_card);
                let seat = old(self).board.cards@[w].1 as int;
                &&& 0 <= w < old(self).board.cards@.len()
                &&& final(self).players@[seat].score == old(self).players@[seat].score
                    + final_score
                &&& forall|j: int|
                    0 <= j < 3 && j != seat ==> final(self).players@[j] == old(self).players@[j]
                &&& final(self).players@[seat].hand == old(self).players@[seat].hand
                &&& final(self).players@[seat].username == old(self).players@[seat].username
                &&& final(self).players@[seat].is_his_play == old(self).players@[seat].is_his_play
            }),
            ended == content_round_end(
                game_symbol(old(self).schedule.game_type_idx as int),
                gone_cards@,
            ),
    {
        let mut w: usize = 0;
        while w < self.board.cards.len() && self.board.cards[w].0 != *biggest_card
            invariant
                *self == *old(self),
                w <= self.board.cards@.len(),
                exists|i: int|
                    0 <= i < self.board.cards@.len() && (#[trigger] self.board.cards@[i]).0
                        == *biggest_card,
                forall|j: int| 0 <= j < w ==> (#[trigger] self.board.cards@[j]).0 != *biggest_card,
            decreases self.board.cards@.len() - w,
        {
            w = w + 1;
        }
        proof {
            if w == self.board.cards@.len() {
                let k = choose|k: int|
                    0 <= k < self.board.cards@.len() && (#[trigger] self.board.cards@[k]).0
                        == *biggest_card;
                assert(false);
            }
            lemma_first_play_of(self.board.cards@, *biggest_card, w as int);
        }
        let seat = self.board.cards[w].1;
        let mut tmp = Player::new(String::new(), false);
        let ghost orig = self.players@;
        self.players.set_and_swap(seat, &mut tmp);
        tmp.score = tmp.score + final_score;
        let ghost ps = tmp;
        self.players.set_and_swap(seat, &mut tmp);
        proof {
            assert(self.players@ =~= orig.update(seat as int, ps));
        }
        let game = self.schedule.get_game();
        match game {
            'K' => true,
            'Q' => {
                let counter = self.count_specific_card(gone_cards, 'Q');
                counter == 4
            },
            'J' => {
                let counter = self.count_specific_card(gone_cards, 'J');
                counter == 4
            },
            _ => false,
        }
    }

    /// Resolves the full trick on the board: names the winning card, applies
    /// the active contract's scoring to the winner, hands the lead to the
    /// winner's seat, resets the suit to follow and clears the board. The
    /// second half of the outcome says whether the round ends by content.
    pub fn resolve_trick(&mut self, round: &mut Round) -> (outcome: (Card, bool))
        requires
            old(self).wf(),
            old(round).wf(),
            old(self).board.cards_on_board@.len() == 3,
            old(round).gone_cards@.len() <= 255,
            forall|j: int|
                0 <= j < 3 ==> i32::MIN + 40 <= (#[trigger] old(self).players@[j]).score
                    <= i32::MAX - 4,
        ensures
            final(self).wf(),
            final(round).wf(),
            outcome.0 == resolve_spec(
                old(self).board.cards_on_board@[0],
                old(self).board.cards_on_board@[1],
                old(self).board.cards_on_board@[2],
                old(round).trump,
            ),
            ({
                let game = game_symbol(old(self).schedule.game_type_idx as int);
                let delta = trick_score(
                    game,
                    old(self).board.cards_on_board@,
                    old(self).players@[2].hand@.len() < 2,
                );
                let w = first_play_of(old(self).board.cards@, outcome.0);
                let seat = old(self).board.cards@[w].1 as int;
                &&& 0 <= w < 3
                &&& final(round).turn == old(self).board.cards@[w].1
                &&& (delta == -1 ==> outcome.1 == false && forall|j: int|
                    0 <= j < 3 ==> final(self).players@[j] == old(self).players@[j])
                &&& (delta != -1 ==> {
                    &&& final(self).players@[seat].score == old(self).players@[seat].score + delta
                    &&& forall|j: int|
                        0 <= j < 3 && j != seat ==> final(self).players@[j] == old(
                            self,
                        ).players@[j]
                    &&& final(self).players@[seat].username == old(self).players@[seat].username
                    &&& outcome.1 == content_round_end(game, old(round).gone_cards@)
                })
            }),
            final(self).board.cards@.len() == 0,
            final(self).board.cards_on_board@.len() == 0,
            final(round).current_suit == NO_TRUMP,
            final(round).gone_cards == old(round).gone_cards,
            final(round).trump == old(round).trump,
            final(self).deck == old(self).deck,
            final(self).hidden_cards == old(self).hidden_cards,
            final(self).schedule == old(self).schedule,
            forall|j: int|
                0 <= j < 3 ==> (#[trigger] final(self).players@[j]).hand == old(
                    self,
                ).players@[j].hand,
            cards_in_play(
                final(self).players@,
                final(self).hidden_cards@,
                final(round).gone_cards@,
            ) == cards_in_play(
                old(self).players@,
                old(self).hidden_cards@,
                old(round).gone_cards@,
            ),
    {
        let trump = round.trump;
        let biggest = self.board.handle_board(trump);
        let taken = self.board.get_cards_on_board();
        proof {
            assert(taken@ =~= self.board.cards_on_board@);
        }
        let last_two = self.is_last_two();
        let game = self.schedule.get_game();
        let score = self.board.handle_current_game(game, &taken, last_two);
        proof {
            assert(self.board.cards@[0].0 == self.board.cards_on_board@[0]);
            assert(self.board.cards@[1].0 == self.board.cards_on_board@[1]);
            assert(self.board.cards@[2].0 == self.board.cards_on_board@[2]);
            assert(biggest == self.board.cards_on_board@[0] || biggest
                == self.board.cards_on_board@[1] || biggest == self.board.cards_on_board@[2]);
        }
        let mut ended = false;
        if score != -1 {
            ended = self.handle_specific_play(score, &biggest, &round.gone_cards);
        }
        let ghost mid = *self;
        let mut w: usize = 0;
        while w < self.board.cards.len() && self.board.cards[w].0 != biggest
            invariant
                *self == mid,
                w <= self.board.cards@.len(),
                exists|i: int|
                    0 <= i < self.board.cards@.len() && (#[trigger] self.board.cards@[i]).0
                        == biggest,
                forall|j: int| 0 <= j < w ==> (#[trigger] self.board.cards@[j]).0 != biggest,
            decreases self.board.cards@.len() - w,
        {
            w = w + 1;
        }
        proof {
            if w == self.board.cards@.len() {
                let k = choose|k: int|
                    0 <= k < self.board.cards@.len() && (#[trigger] self.board.cards@[k]).0
                        == biggest;
                assert(false);
            }
            lemma_first_play_of(self.board.cards@, biggest, w as int);
        }
        round.turn = self.board.cards[w].1;
        round.current_suit = NO_TRUMP;
        self.board.clean();
        (biggest, ended)
    }
}

/// An index seen to be the first holding `c` is what `first_play_of` names.
proof fn lemma_first_play_of(plays: Seq<(Card, usize)>, c: Card, i: int)
    requires
        0 <= i < plays.len(),
        plays[i].0 == c,
        forall|j: int| 0 <= j < i ==> (#[trigger] plays[j]).0 != c,
    ensures
        first_play_of(plays, c) == i,
    decreases i,
{
    if i > 0 {
        lemma_first_play_of(plays.drop_first(), c, i - 1);
    }
}

/// Suit-following soundness: while the trick has a lead suit and the hand
/// can follow it, any card of another suit is an illegal play, whatever the
/// contract and the trump.
pub proof fn lemma_suit_following(
    game_type: char,
    board_len: int,
    current_suit: char,
    trump: char,
    hand: Seq<Card>,
    card: Card,
)
    requires
        board_len > 0,
        contains_suit(hand, current_suit),
        card.suit != current_suit,
    ensures
        !is_legal_play(game_type, board_len, current_suit, trump, hand, card),
{
}

/// Kings lead restriction: leading the King of Hearts under the Kings
/// contract is legal exactly when the whole hand is Hearts.
pub proof fn lemma_kings_lead(
    current_suit: char,
    trump: char,
    hand: Seq<Card>,
    card: Card,
)
    requires
        is_king_of_hearts(card),
    ensures
        is_legal_play('K', 0, current_suit, trump, hand, card) <==> (forall|i: int|
            0 <= i < hand.len() ==> (#[trigger] hand[i]).suit == 'H'),
{
}

} // verus!
