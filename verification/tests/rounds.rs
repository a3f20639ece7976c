use king_game::card::Card;
use king_game::card::RANK_ACE;
use king_game::card::RANK_KING;
use king_game::card::RANK_QUEEN;
use king_game::game::Game;
use king_game::player::Player;

fn card(suit: char, rank: u8) -> Card {
    Card::new(suit, rank)
}

fn three_player_game() -> Game {
    let mut g = Game::new();
    g.new_player(String::from("Ann"), true);
    g.new_player(String::from("Ben"), false);
    g.new_player(String::from("Kim"), false);
    g
}

#[test]
fn player_starts_empty() {
    let p = Player::new(String::from("Ann"), true);
    assert_eq!(p.username, "Ann");
    assert!(p.is_his_play);
    assert_eq!(p.hand.len(), 0);
    assert_eq!(p.score, 0);
}

#[test]
fn draw_card_removes_the_card() {
    let mut p = Player::new(String::from("Ann"), false);
    p.hand.push(card('H', 0));
    p.hand.push(card('S', 3));
    p.draw_card(card('H', 0));
    assert_eq!(p.hand, vec![card('S', 3)]);
}

#[test]
fn room_is_filled_after_three_players() {
    let mut g = Game::new();
    assert!(!g.room_is_filled());
    g.new_player(String::from("Ann"), true);
    g.new_player(String::from("Ben"), false);
    g.new_player(String::from("Kim"), false);
    assert!(g.room_is_filled());
}

#[test]
fn deal_cards_accounts_for_all_32() {
    let mut g = three_player_game();
    g.deal_cards();
    assert_eq!(g.players[0].hand.len(), 12);
    assert_eq!(g.players[1].hand.len(), 10);
    assert_eq!(g.players[2].hand.len(), 10);
    assert_eq!(g.hidden_cards.len(), 0);
    let mut all: Vec<Card> = Vec::new();
    for p in &g.players {
        all.extend(p.hand.iter().cloned());
    }
    assert_eq!(all.len(), 32);
    for i in 0..32 {
        for j in 0..i {
            assert_ne!(all[i], all[j]);
        }
    }
}

#[test]
fn deal_cards_gives_the_dealer_twelve() {
    let mut g = three_player_game();
    g.schedule.main_player_idx = 2;
    g.deal_cards();
    assert_eq!(g.players[2].hand.len(), 12);
    assert_eq!(g.players[0].hand.len(), 10);
    assert_eq!(g.players[1].hand.len(), 10);
}

#[test]
fn hide_card_moves_a_card_and_keeps_the_count() {
    let mut g = three_player_game();
    g.schedule.game_type_idx = 6;
    g.players[0].hand.push(card('S', 0));
    g.players[0].hand.push(card('D', 5));
    assert!(g.hide_card(1));
    assert_eq!(g.players[0].hand, vec![card('S', 0)]);
    assert_eq!(g.hidden_cards, vec![card('D', 5)]);
}

#[test]
fn hide_card_refuses_king_of_hearts_under_kings() {
    let mut g = three_player_game();
    g.players[0].hand.push(card('H', RANK_KING));
    g.players[0].hand.push(card('D', 5));
    assert!(!g.hide_card(0));
    assert_eq!(g.players[0].hand.len(), 2);
    assert_eq!(g.hidden_cards.len(), 0);
}

#[test]
fn hide_card_refuses_queen_under_queens_and_heart_under_hearts() {
    let mut g = three_player_game();
    g.schedule.game_type_idx = 3;
    g.players[0].hand.push(card('S', RANK_QUEEN));
    assert!(!g.hide_card(0));
    g.schedule.game_type_idx = 7;
    g.players[0].hand.push(card('H', 2));
    assert!(!g.hide_card(1));
    assert!(g.hide_card(0));
}

#[test]
fn hide_card_refuses_a_choice_out_of_range() {
    let mut g = three_player_game();
    g.players[0].hand.push(card('S', 0));
    assert!(!g.hide_card(4));
    assert_eq!(g.players[0].hand.len(), 1);
}

#[test]
fn suit_following_rejects_an_off_suit_card() {
    let mut g = three_player_game();
    g.schedule.game_type_idx = 6;
    g.players[0].hand.push(card('D', 2));
    g.players[1].hand.push(card('D', 4));
    g.players[1].hand.push(card('S', 1));
    let mut round = g.begin_round('0');
    assert!(g.play_card(&mut round, card('D', 2)));
    round.turn = 1;
    assert!(!g.play_card(&mut round, card('S', 1)));
    assert_eq!(g.players[1].hand.len(), 2);
    assert_eq!(g.board.cards_on_board.len(), 1);
    assert!(g.play_card(&mut round, card('D', 4)));
}

#[test]
fn off_suit_is_allowed_when_unable_to_follow() {
    let mut g = three_player_game();
    g.schedule.game_type_idx = 6;
    g.players[0].hand.push(card('D', 2));
    g.players[1].hand.push(card('S', 1));
    let mut round = g.begin_round('0');
    assert!(g.play_card(&mut round, card('D', 2)));
    round.turn = 1;
    assert!(g.play_card(&mut round, card('S', 1)));
}

#[test]
fn trump_cannot_be_played_while_able_to_follow() {
    let mut g = three_player_game();
    g.schedule.game_type_idx = 2;
    g.players[0].hand.push(card('D', 2));
    g.players[1].hand.push(card('D', 4));
    g.players[1].hand.push(card('H', 1));
    let mut round = g.begin_round('H');
    assert!(g.play_card(&mut round, card('D', 2)));
    round.turn = 1;
    assert!(!g.play_card(&mut round, card('H', 1)));
    assert!(g.play_card(&mut round, card('D', 4)));
}

#[test]
fn trump_is_forced_when_unable_to_follow() {
    let mut g = three_player_game();
    g.schedule.game_type_idx = 2;
    g.players[0].hand.push(card('D', 2));
    g.players[1].hand.push(card('S', 4));
    g.players[1].hand.push(card('H', 1));
    let mut round = g.begin_round('H');
    assert!(g.play_card(&mut round, card('D', 2)));
    round.turn = 1;
    assert!(!g.play_card(&mut round, card('S', 4)));
    assert!(g.play_card(&mut round, card('H', 1)));
}

#[test]
fn king_of_hearts_lead_rejected_with_other_suits_in_hand() {
    let mut g = three_player_game();
    g.players[0].hand.push(card('H', RANK_KING));
    g.players[0].hand.push(card('S', 0));
    let mut round = g.begin_round('0');
    assert!(!g.play_card(&mut round, card('H', RANK_KING)));
    assert_eq!(g.players[0].hand.len(), 2);
}

#[test]
fn king_of_hearts_lead_accepted_from_an_all_hearts_hand() {
    let mut g = three_player_game();
    g.players[0].hand.push(card('H', RANK_KING));
    g.players[0].hand.push(card('H', 0));
    let mut round = g.begin_round('0');
    assert!(g.play_card(&mut round, card('H', RANK_KING)));
}

#[test]
fn kings_trick_costs_the_winner_40_and_ends_the_round() {
    let mut g = three_player_game();
    g.players[0].hand.push(card('H', RANK_KING));
    g.players[1].hand.push(card('D', 0));
    g.players[2].hand.push(card('S', RANK_ACE));
    let mut round = g.begin_round('0');
    assert!(g.play_card(&mut round, card('H', RANK_KING)));
    round.turn = 1;
    assert!(g.play_card(&mut round, card('D', 0)));
    round.turn = 2;
    assert!(g.play_card(&mut round, card('S', RANK_ACE)));
    let (winner, ended) = g.resolve_trick(&mut round);
    assert_eq!(winner, card('H', RANK_KING));
    assert!(ended);
    assert_eq!(g.players[0].score, -40);
    assert_eq!(g.players[1].score, 0);
    assert_eq!(g.players[2].score, 0);
}

#[test]
fn plus_trick_with_hearts_trump_goes_to_the_ace() {
    let mut g = three_player_game();
    g.schedule.game_type_idx = 2;
    g.players[0].hand.push(card('H', 0));
    g.players[1].hand.push(card('H', 2));
    g.players[2].hand.push(card('H', RANK_ACE));
    let mut round = g.begin_round('H');
    assert!(g.play_card(&mut round, card('H', 0)));
    round.turn = 1;
    assert!(g.play_card(&mut round, card('H', 2)));
    round.turn = 2;
    assert!(g.play_card(&mut round, card('H', RANK_ACE)));
    let (winner, ended) = g.resolve_trick(&mut round);
    assert_eq!(winner, card('H', RANK_ACE));
    assert!(!ended);
    assert_eq!(g.players[2].score, 4);
    assert_eq!(round.turn, 2);
    assert_eq!(g.board.cards_on_board.len(), 0);
    assert_eq!(round.current_suit, '0');
}

#[test]
fn queens_round_ends_only_after_the_fourth_queen() {
    let mut g = three_player_game();
    g.schedule.game_type_idx = 3;
    let queens = [card('H', RANK_QUEEN), card('D', RANK_QUEEN), card('S', RANK_QUEEN), card(
        'C',
        RANK_QUEEN,
    )];
    let mut gone: Vec<Card> = Vec::new();
    for (k, q) in queens.iter().enumerate() {
        g.board.clean();
        g.board.cards.push((*q, 0));
        g.board.cards_on_board.push(*q);
        gone.push(*q);
        gone.push(card('D', k as u8));
        gone.push(card('S', k as u8));
        let ended = g.handle_specific_play(-10, q, &gone);
        if k < 3 {
            assert!(!ended);
        } else {
            assert!(ended);
        }
    }
    assert_eq!(g.players[0].score, -40);
}

#[test]
fn card_count_invariant_holds_through_a_round() {
    let mut g = three_player_game();
    g.schedule.game_type_idx = 6;
    g.deal_cards();
    let total = |g: &Game, gone: usize| {
        g.players[0].hand.len() + g.players[1].hand.len() + g.players[2].hand.len()
            + g.hidden_cards.len() + gone
    };
    assert_eq!(total(&g, 0), 32);
    let mut hidden = 0;
    let mut choice = 0;
    while hidden < 2 {
        if g.hide_card(choice) {
            hidden += 1;
        } else {
            choice += 1;
        }
    }
    assert_eq!(total(&g, 0), 32);
    let mut round = g.begin_round('0');
    for turn in 0..3 {
        round.turn = turn;
        let c = g.players[turn].hand[0];
        if !g.play_card(&mut round, c) {
            let follow = g.players[turn]
                .hand
                .iter()
                .copied()
                .find(|x| x.suit == round.current_suit)
                .unwrap();
            assert!(g.play_card(&mut round, follow));
        }
        assert_eq!(total(&g, round.gone_cards.len()), 32);
    }
    g.resolve_trick(&mut round);
    assert_eq!(total(&g, round.gone_cards.len()), 32);
}

#[test]
fn count_specific_card_counts_exactly() {
    let mut g = three_player_game();
    let gone = vec![
        card('H', RANK_QUEEN),
        card('D', RANK_QUEEN),
        card('S', 0),
        card('C', RANK_QUEEN),
    ];
    assert_eq!(g.count_specific_card(&gone, 'Q'), 3);
    assert_eq!(g.count_specific_card(&gone, 'J'), 0);
}

#[test]
fn contains_specific_suit_finds_a_suit() {
    let mut g = three_player_game();
    let hand = vec![card('H', 0), card('S', 3)];
    assert!(g.contains_specific_suit(&hand, 'S'));
    assert!(!g.contains_specific_suit(&hand, 'D'));
}

#[test]
fn is_last_two_watches_the_third_seat() {
    let mut g = three_player_game();
    g.players[2].hand.push(card('H', 0));
    assert!(g.is_last_two());
    g.players[2].hand.push(card('H', 1));
    assert!(!g.is_last_two());
}
