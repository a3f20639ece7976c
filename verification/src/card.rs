//! Card values and the canonical 32-card deck.
//!
//! A card is a suit (`'H'`, `'D'`, `'S'`, `'C'`) together with a rank index
//! into the fixed sequence 7, 8, 9, 10, J, Q, K, A; the index carries the
//! rank's total order.

use rand::Rng;
use vstd::multiset::Multiset;
use vstd::prelude::*;

verus! {

/// Number of distinct ranks per suit.
pub const RANK_COUNT: u8 = 8;

/// Rank index of a Jack in the sequence 7, 8, 9, 10, J, Q, K, A.
pub const RANK_JACK: u8 = 4;

/// Rank index of a Queen.
pub const RANK_QUEEN: u8 = 5;

/// Rank index of a King.
pub const RANK_KING: u8 = 6;

/// Rank index of an Ace.
pub const RANK_ACE: u8 = 7;

#[derive(Clone, Copy, Debug, PartialEq, Eq, Structural)]
pub struct Card {
    pub suit: char,
    pub rank: u8,
}

/// The four suit letters: Hearts, Diamonds, Spades, Clubs.
pub open spec fn valid_suit(s: char) -> bool {
    s == 'H' || s == 'D' || s == 'S' || s == 'C'
}

/// Suit of the `k`-th block of eight cards in the canonical deck order.
pub open spec fn suit_of_block(k: int) -> char {
    if k == 0 {
        'H'
    } else if k == 1 {
        'D'
    } else if k == 2 {
        'S'
    } else {
        'C'
    }
}

/// The `i`-th card of the canonical deck: suits in blocks of eight,
/// ranks ascending within a block.
pub open spec fn deck_card(i: int) -> Card {
    Card { suit: suit_of_block(i / 8), rank: (i % 8) as u8 }
}

impl Card {
    /// A well-formed card has one of the four suits and a rank index below 8.
    pub open spec fn wf(self) -> bool {
        valid_suit(self.suit) && self.rank < RANK_COUNT
    }

    pub fn new(suit: char, rank: u8) -> (c: Card)
        ensures
            c == (Card { suit, rank }),
    {
        Card { suit, rank }
    }

    /// Position of this card's rank in the sequence 7, 8, 9, 10, J, Q, K, A.
    pub fn get_rank_idx(&mut self) -> (r: usize)
        ensures
            *final(self) == *old(self),
            r == old(self).rank as usize,
    {
        self.rank as usize
    }
}

/// Relies on rand::Rng::gen_range on rand::thread_rng(): for a non-empty
/// range `0..n` it returns a value of the range; it panics only on an empty
/// range, which the precondition rules out. Nothing more is assumed of the
/// drawn value.
#[verifier::external_body]
fn rand_below(n: usize) -> (r: usize)
    requires
        n > 0,
    ensures
        r < n,
{
    rand::thread_rng().gen_range(0..n)
}

/// Removes a card at a position chosen by the random generator.
fn draw_random(deck: &mut Vec<Card>) -> (c: Card)
    requires
        old(deck)@.len() > 0,
    ensures
        final(deck)@.len() == old(deck)@.len() - 1,
        old(deck)@.to_multiset().count(c) > 0,
        final(deck)@.to_multiset() == old(deck)@.to_multiset().remove(c),
{
    let k = rand_below(deck.len());
    let c = deck[k];
    proof {
        broadcast use vstd::seq_lib::group_to_multiset_ensures;
        assert(deck@.contains(c));
        assert(deck@.remove(k as int).to_multiset() =~= deck@.to_multiset().remove(c));
    }
    deck.remove(k);
    c
}

/// Builds the canonical 32-card deck in a deterministic order:
/// for each suit H, D, S, C the ranks 7 through A, ascending.
pub fn fill_cards() -> (deck: Vec<Card>)
    ensures
        deck@.len() == 32,
        forall|i: int| 0 <= i < 32 ==> deck@[i] == deck_card(i),
{
    let suits: [char; 4] = ['H', 'D', 'S', 'C'];
    let mut deck: Vec<Card> = Vec::new();
    let mut s: usize = 0;
    while s < 4
        invariant
            s <= 4,
            deck@.len() == 8 * s,
            suits@ =~= seq!['H', 'D', 'S', 'C'],
            forall|i: int| 0 <= i < deck@.len() ==> deck@[i] == deck_card(i),
        decreases 4 - s,
    {
        let mut r: u8 = 0;
        while r < 8
            invariant
                s < 4,
                r <= 8,
                deck@.len() == 8 * s + r,
                suits@ =~= seq!['H', 'D', 'S', 'C'],
                forall|i: int| 0 <= i < deck@.len() ==> deck@[i] == deck_card(i),
            decreases 8 - r,
        {
            deck.push(Card::new(suits[s], r));
            assert(deck@[deck@.len() - 1] == deck_card(8 * s + r)) by {
                assert((8 * s + r) / 8 == s) by (nonlinear_arith)
                    requires s < 4 && r < 8;
                assert((8 * s + r) % 8 == r as int) by (nonlinear_arith)
                    requires s < 4 && r < 8;
            };
            r = r + 1;
        }
        s = s + 1;
    }
    deck
}

/// The multiset of cards held by three hands together.
pub open spec fn hands_multiset(hands: (Vec<Card>, Vec<Card>, Vec<Card>)) -> Multiset<Card> {
    hands.0@.to_multiset().add(hands.1@.to_multiset()).add(hands.2@.to_multiset())
}

/// Moving one card from the deck into any of the three hands keeps the
/// combined multiset of deck and hands.
proof fn lemma_move_card(
    d: Multiset<Card>,
    m0: Multiset<Card>,
    m1: Multiset<Card>,
    m2: Multiset<Card>,
    c: Card,
)
    requires
        d.count(c) > 0,
    ensures
        d.remove(c).add(m0.insert(c)).add(m1).add(m2) == d.add(m0).add(m1).add(m2),
        d.remove(c).add(m0).add(m1.insert(c)).add(m2) == d.add(m0).add(m1).add(m2),
        d.remove(c).add(m0).add(m1).add(m2.insert(c)) == d.add(m0).add(m1).add(m2),
{
    broadcast use vstd::multiset::group_multiset_axioms;

    assert(d.remove(c).add(m0.insert(c)).add(m1).add(m2) =~= d.add(m0).add(m1).add(m2));
    assert(d.remove(c).add(m0).add(m1.insert(c)).add(m2) =~= d.add(m0).add(m1).add(m2));
    assert(d.remove(c).add(m0).add(m1).add(m2.insert(c)) =~= d.add(m0).add(m1).add(m2));
}

/// Deals a 32-card deck into three hands: ten random draws per hand,
/// then the two cards left over go to the first hand, the dealer's.
/// Every card of the deck is used exactly once.
pub fn shuffle(d: &Vec<Card>) -> (hands: (Vec<Card>, Vec<Card>, Vec<Card>))
    requires
        d@.len() == 32,
    ensures
        hands.0@.len() == 12,
        hands.1@.len() == 10,
        hands.2@.len() == 10,
        hands_multiset(hands) == d@.to_multiset(),
{
    let mut deck = d.clone();
    let mut h0: Vec<Card> = Vec::new();
    let mut h1: Vec<Card> = Vec::new();
    let mut h2: Vec<Card> = Vec::new();

    proof {
        broadcast use vstd::seq_lib::group_to_multiset_ensures;
        assert(h0@.to_multiset() =~= Multiset::<Card>::empty());
        assert(deck@.to_multiset().add(h0@.to_multiset()).add(h1@.to_multiset()).add(
            h2@.to_multiset(),
        ) =~= d@.to_multiset());
    }

    let mut i: usize = 0;
    while i < 10
        invariant
            i <= 10,
            deck@.len() == 32 - 3 * i,
            h0@.len() == i,
            h1@.len() == i,
            h2@.len() == i,
            deck@.to_multiset().add(h0@.to_multiset()).add(h1@.to_multiset()).add(
                h2@.to_multiset(),
            ) == d@.to_multiset(),
        decreases 10 - i,
    {
        let ghost deck0 = deck@.to_multiset();
        let ghost m0pre = h0@.to_multiset();
        let ghost m1 = h1@.to_multiset();
        let ghost m2 = h2@.to_multiset();
        let c0 = draw_random(&mut deck);
        h0.push(c0);
        proof {
            broadcast use vstd::seq_lib::group_to_multiset_ensures;
            lemma_move_card(deck0, m0pre, m1, m2, c0);
        }
        let ghost deck1 = deck@.to_multiset();
        let ghost m0 = h0@.to_multiset();
        let c1 = draw_random(&mut deck);
        h1.push(c1);
        proof {
            broadcast use vstd::seq_lib::group_to_multiset_ensures;
            lemma_move_card(deck1, m0, m1, m2, c1);
        }
        let ghost deck2 = deck@.to_multiset();
        let ghost m1b = h1@.to_multiset();
        let c2 = draw_random(&mut deck);
        h2.push(c2);
        proof {
            broadcast use vstd::seq_lib::group_to_multiset_ensures;
            lemma_move_card(deck2, m0, m1b, m2, c2);
        }
        i = i + 1;
    }
    let ghost deckf = deck@;
    let ghost mf = h0@.to_multiset();
    let e0 = deck[0];
    let e1 = deck[1];
    h0.push(e0);
    h0.push(e1);
    proof {
        broadcast use vstd::seq_lib::group_to_multiset_ensures;
        broadcast use vstd::multiset::group_multiset_axioms;

        assert(deckf.remove(0).remove(0) =~= Seq::<Card>::empty());
        assert(deckf.remove(0).to_multiset() == deckf.to_multiset().remove(e0));
        assert(deckf.remove(0).remove(0).to_multiset() == deckf.to_multiset().remove(e0).remove(
            e1,
        ));
        assert(Seq::<Card>::empty().to_multiset().len() == 0);
        assert(deckf.to_multiset() =~= Multiset::<Card>::empty().insert(e0).insert(e1));
        assert(deckf.to_multiset().add(mf).add(h1@.to_multiset()).add(h2@.to_multiset())
            =~= mf.insert(e0).insert(e1).add(h1@.to_multiset()).add(h2@.to_multiset()));
    }
    (h0, h1, h2)
}

} // verus!
