use king_game::board::Board;
use king_game::card::Card;
use king_game::card::RANK_ACE;
use king_game::card::RANK_JACK;
use king_game::card::RANK_KING;
use king_game::card::RANK_QUEEN;
use king_game::card::fill_cards;
use king_game::schedule::Schedule;

fn card(suit: char, rank: u8) -> Card {
    Card::new(suit, rank)
}

#[test]
fn deck_has_32_distinct_cards() {
    let deck = fill_cards();
    assert_eq!(deck.len(), 32);
    for i in 0..32 {
        for j in 0..i {
            assert_ne!(deck[i], deck[j]);
        }
    }
    assert_eq!(deck[0], card('H', 0));
    assert_eq!(deck[8], card('D', 0));
    assert_eq!(deck[31], card('C', RANK_ACE));
}

#[test]
fn rank_idx_matches_rank() {
    let mut c = card('S', RANK_QUEEN);
    assert_eq!(c.get_rank_idx(), RANK_QUEEN as usize);
}

#[test]
fn schedule_starts_at_kings() {
    let mut s = Schedule::new();
    assert_eq!(s.get_game(), 'K');
}

#[test]
fn schedule_row_symbols() {
    let mut s = Schedule::new();
    let mut seen = vec![s.get_game()];
    for _ in 0..8 {
        s.next_game();
        s.next_game();
        let g = s.next_game();
        seen.push(g);
    }
    assert_eq!(seen, vec!['K', '2', '+', 'Q', 'J', '+', 'V', 'H', '+']);
}

#[test]
fn schedule_is_periodic_after_27_advances() {
    let mut s = Schedule::new();
    for _ in 0..27 {
        s.next_game();
    }
    assert_eq!(s.game_type_idx, 0);
    assert_eq!(s.main_player_idx, 0);
    assert_eq!(s.get_game(), 'K');
}

#[test]
fn resolve_same_suit_highest_rank_wins() {
    let mut b = Board::new();
    let mut c1 = card('H', 0);
    let mut c2 = card('H', 2);
    let mut c3 = card('H', RANK_ACE);
    let w = b.compare_cards(&mut c1, &mut c2, &mut c3, '0');
    assert_eq!(w, card('H', RANK_ACE));
}

#[test]
fn resolve_lone_trump_wins_outright() {
    let mut b = Board::new();
    let mut c1 = card('H', RANK_ACE);
    let mut c2 = card('S', 0);
    let mut c3 = card('H', RANK_KING);
    let w = b.compare_cards(&mut c1, &mut c2, &mut c3, 'S');
    assert_eq!(w, card('S', 0));
}

#[test]
fn resolve_two_trumps_higher_wins() {
    let mut b = Board::new();
    let mut c1 = card('H', RANK_ACE);
    let mut c2 = card('S', 3);
    let mut c3 = card('S', RANK_JACK);
    let w = b.compare_cards(&mut c1, &mut c2, &mut c3, 'S');
    assert_eq!(w, card('S', RANK_JACK));
}

#[test]
fn resolve_three_suits_without_trump_first_wins() {
    let mut b = Board::new();
    let mut c1 = card('D', 0);
    let mut c2 = card('S', RANK_ACE);
    let mut c3 = card('H', RANK_KING);
    let w = b.compare_cards(&mut c1, &mut c2, &mut c3, '0');
    assert_eq!(w, card('D', 0));
}

#[test]
fn resolve_pair_of_suits_higher_of_pair_wins() {
    let mut b = Board::new();
    let mut c1 = card('D', RANK_ACE);
    let mut c2 = card('S', 1);
    let mut c3 = card('S', 4);
    let w = b.compare_cards(&mut c1, &mut c2, &mut c3, '0');
    assert_eq!(w, card('S', 4));
}

#[test]
fn biggest_prefers_higher_rank() {
    let mut b = Board::new();
    let w = b.biggest(&card('H', 2), &card('H', 7));
    assert_eq!(w, card('H', 7));
    let w2 = b.biggest(&card('S', 6), &card('D', 1));
    assert_eq!(w2, card('S', 6));
}

#[test]
fn kings_trick_with_king_of_hearts_scores_minus_40() {
    let mut b = Board::new();
    let taken = vec![card('H', RANK_KING), card('D', 0), card('S', RANK_ACE)];
    assert_eq!(b.handle_current_game('K', &taken, false), -40);
}

#[test]
fn kings_trick_without_king_of_hearts_scores_nothing() {
    let mut b = Board::new();
    let taken = vec![card('H', RANK_ACE), card('D', 0), card('S', RANK_KING)];
    assert_eq!(b.handle_current_game('K', &taken, false), -1);
}

#[test]
fn queens_trick_scores_minus_10_per_trick_with_queen() {
    let mut b = Board::new();
    let taken = vec![card('D', RANK_QUEEN), card('D', 0), card('D', 1)];
    assert_eq!(b.handle_current_game('Q', &taken, false), -10);
    let none = vec![card('D', RANK_KING), card('D', 0), card('D', 1)];
    assert_eq!(b.handle_current_game('Q', &none, false), -1);
}

#[test]
fn jacks_trick_scores_minus_10_per_trick_with_jack() {
    let mut b = Board::new();
    let taken = vec![card('C', RANK_JACK), card('D', 0), card('D', 1)];
    assert_eq!(b.handle_current_game('J', &taken, false), -10);
}

#[test]
fn hearts_trick_scores_minus_5_per_heart_trick() {
    let mut b = Board::new();
    let taken = vec![card('H', 0), card('D', 0), card('D', 1)];
    assert_eq!(b.handle_current_game('H', &taken, false), -5);
    let none = vec![card('C', 0), card('D', 0), card('D', 1)];
    assert_eq!(b.handle_current_game('H', &none, false), -1);
}

#[test]
fn last_two_scores_minus_20_only_on_trigger() {
    let mut b = Board::new();
    let taken = vec![card('C', 0), card('D', 0), card('S', 1)];
    assert_eq!(b.handle_current_game('2', &taken, true), -20);
    assert_eq!(b.handle_current_game('2', &taken, false), -1);
}

#[test]
fn vziatka_and_plus_score_every_trick() {
    let mut b = Board::new();
    let taken = vec![card('C', 0), card('D', 0), card('S', 1)];
    assert_eq!(b.handle_current_game('V', &taken, false), -4);
    assert_eq!(b.handle_current_game('+', &taken, false), 4);
}

#[test]
fn board_clean_empties_both_records() {
    let mut b = Board::new();
    b.cards.push((card('H', 0), 0));
    b.cards_on_board.push(card('H', 0));
    b.clean();
    assert_eq!(b.cards.len(), 0);
    assert_eq!(b.cards_on_board.len(), 0);
}

#[test]
fn cards_on_board_lists_plays_in_order() {
    let mut b = Board::new();
    b.cards.push((card('H', 0), 0));
    b.cards.push((card('S', 3), 1));
    b.cards_on_board.push(card('H', 0));
    b.cards_on_board.push(card('S', 3));
    let taken = b.get_cards_on_board();
    assert_eq!(taken, vec![card('H', 0), card('S', 3)]);
}
