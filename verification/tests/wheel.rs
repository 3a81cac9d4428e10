//! The payout-multiplier table and the winner predicate over the wheel.

use program_roulette::state::PlayerBets;

#[test]
fn multiplier_table() {
    assert_eq!(PlayerBets::calculate_payout_multiplier(0), 36);
    assert_eq!(PlayerBets::calculate_payout_multiplier(1), 18);
    assert_eq!(PlayerBets::calculate_payout_multiplier(2), 9);
    assert_eq!(PlayerBets::calculate_payout_multiplier(3), 12);
    assert_eq!(PlayerBets::calculate_payout_multiplier(4), 6);
    assert_eq!(PlayerBets::calculate_payout_multiplier(5), 9);
    for t in 6..=11 {
        assert_eq!(PlayerBets::calculate_payout_multiplier(t), 2);
    }
    for t in 12..=15 {
        assert_eq!(PlayerBets::calculate_payout_multiplier(t), 3);
    }
    assert_eq!(PlayerBets::calculate_payout_multiplier(16), 0);
    assert_eq!(PlayerBets::calculate_payout_multiplier(255), 0);
}

#[test]
fn straight_wins_on_exact_match() {
    assert!(PlayerBets::is_bet_winner(0, &[17, 0, 0, 0], 17));
    assert!(!PlayerBets::is_bet_winner(0, &[17, 0, 0, 0], 18));
    assert!(PlayerBets::is_bet_winner(0, &[0, 0, 0, 0], 0));
}

#[test]
fn split_wins_on_either_number() {
    assert!(PlayerBets::is_bet_winner(1, &[8, 9, 0, 0], 8));
    assert!(PlayerBets::is_bet_winner(1, &[8, 9, 0, 0], 9));
    assert!(!PlayerBets::is_bet_winner(1, &[8, 9, 0, 0], 10));
}

#[test]
fn corner_wins_on_its_block() {
    // Top-left 7 covers {7, 8, 10, 11}.
    assert!(PlayerBets::is_bet_winner(2, &[7, 0, 0, 0], 7));
    assert!(PlayerBets::is_bet_winner(2, &[7, 0, 0, 0], 8));
    assert!(PlayerBets::is_bet_winner(2, &[7, 0, 0, 0], 10));
    assert!(PlayerBets::is_bet_winner(2, &[7, 0, 0, 0], 11));
    assert!(!PlayerBets::is_bet_winner(2, &[7, 0, 0, 0], 9));
    // Malformed anchors never win: zero, off the wheel, rightmost column.
    assert!(!PlayerBets::is_bet_winner(2, &[0, 0, 0, 0], 1));
    assert!(!PlayerBets::is_bet_winner(2, &[35, 0, 0, 0], 35));
    assert!(!PlayerBets::is_bet_winner(2, &[6, 0, 0, 0], 6));
}

#[test]
fn street_wins_on_its_row() {
    assert!(PlayerBets::is_bet_winner(3, &[16, 0, 0, 0], 16));
    assert!(PlayerBets::is_bet_winner(3, &[16, 0, 0, 0], 18));
    assert!(!PlayerBets::is_bet_winner(3, &[16, 0, 0, 0], 19));
    // A street must start a row.
    assert!(!PlayerBets::is_bet_winner(3, &[17, 0, 0, 0], 17));
}

#[test]
fn six_line_wins_on_its_double_row() {
    assert!(PlayerBets::is_bet_winner(4, &[13, 0, 0, 0], 13));
    assert!(PlayerBets::is_bet_winner(4, &[13, 0, 0, 0], 18));
    assert!(!PlayerBets::is_bet_winner(4, &[13, 0, 0, 0], 19));
    assert!(!PlayerBets::is_bet_winner(4, &[32, 0, 0, 0], 32));
}

#[test]
fn first_four_covers_zero_to_three() {
    for w in 0..=3 {
        assert!(PlayerBets::is_bet_winner(5, &[0, 0, 0, 0], w));
    }
    assert!(!PlayerBets::is_bet_winner(5, &[0, 0, 0, 0], 4));
}

#[test]
fn zero_is_neither_red_nor_black() {
    assert!(!PlayerBets::is_bet_winner(6, &[0, 0, 0, 0], 0));
    assert!(!PlayerBets::is_bet_winner(7, &[0, 0, 0, 0], 0));
}

#[test]
fn red_and_black_partition_nonzero_numbers() {
    let reds = [1, 3, 5, 7, 9, 12, 14, 16, 18, 19, 21, 23, 25, 27, 30, 32, 34, 36];
    for w in 1..=36 {
        let is_red = reds.contains(&w);
        assert_eq!(PlayerBets::is_bet_winner(6, &[0, 0, 0, 0], w), is_red);
        assert_eq!(PlayerBets::is_bet_winner(7, &[0, 0, 0, 0], w), !is_red);
    }
}

#[test]
fn even_and_odd_exclude_zero() {
    assert!(!PlayerBets::is_bet_winner(8, &[0, 0, 0, 0], 0));
    assert!(!PlayerBets::is_bet_winner(9, &[0, 0, 0, 0], 0));
    assert!(PlayerBets::is_bet_winner(8, &[0, 0, 0, 0], 2));
    assert!(PlayerBets::is_bet_winner(9, &[0, 0, 0, 0], 3));
}

#[test]
fn manque_covers_one_to_eighteen() {
    assert!(!PlayerBets::is_bet_winner(10, &[0, 0, 0, 0], 0));
    assert!(PlayerBets::is_bet_winner(10, &[0, 0, 0, 0], 1));
    assert!(PlayerBets::is_bet_winner(10, &[0, 0, 0, 0], 18));
    assert!(!PlayerBets::is_bet_winner(10, &[0, 0, 0, 0], 19));
}

#[test]
fn passe_covers_nineteen_to_thirty_six() {
    assert!(!PlayerBets::is_bet_winner(11, &[0, 0, 0, 0], 18));
    assert!(PlayerBets::is_bet_winner(11, &[0, 0, 0, 0], 19));
    assert!(PlayerBets::is_bet_winner(11, &[0, 0, 0, 0], 36));
}

#[test]
fn column_wins_by_residue() {
    // Column 1 holds 1, 4, ..., 34.
    assert!(PlayerBets::is_bet_winner(12, &[1, 0, 0, 0], 1));
    assert!(PlayerBets::is_bet_winner(12, &[1, 0, 0, 0], 34));
    assert!(!PlayerBets::is_bet_winner(12, &[1, 0, 0, 0], 2));
    // Column 3 holds the multiples of three; zero still loses.
    assert!(PlayerBets::is_bet_winner(12, &[3, 0, 0, 0], 36));
    assert!(!PlayerBets::is_bet_winner(12, &[3, 0, 0, 0], 0));
    // A column tag outside 1 to 3 never wins.
    assert!(!PlayerBets::is_bet_winner(12, &[0, 0, 0, 0], 3));
    assert!(!PlayerBets::is_bet_winner(12, &[4, 0, 0, 0], 1));
}

#[test]
fn dozens_cover_their_ranges() {
    assert!(PlayerBets::is_bet_winner(13, &[0, 0, 0, 0], 1));
    assert!(PlayerBets::is_bet_winner(13, &[0, 0, 0, 0], 12));
    assert!(!PlayerBets::is_bet_winner(13, &[0, 0, 0, 0], 13));
    assert!(PlayerBets::is_bet_winner(14, &[0, 0, 0, 0], 13));
    assert!(PlayerBets::is_bet_winner(14, &[0, 0, 0, 0], 24));
    assert!(!PlayerBets::is_bet_winner(14, &[0, 0, 0, 0], 25));
    assert!(PlayerBets::is_bet_winner(15, &[0, 0, 0, 0], 25));
    assert!(PlayerBets::is_bet_winner(15, &[0, 0, 0, 0], 36));
    assert!(!PlayerBets::is_bet_winner(15, &[0, 0, 0, 0], 24));
}

#[test]
fn unknown_bet_type_never_wins() {
    for w in 0..=36 {
        assert!(!PlayerBets::is_bet_winner(16, &[w, 0, 0, 0], w));
        assert!(!PlayerBets::is_bet_winner(255, &[w, 0, 0, 0], w));
    }
}
