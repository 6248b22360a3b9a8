use mandelguessr::game::{
    rank_games, score_from_column, score_to_column, Game, FIRST_WRAPPED_SCORE,
};

fn game(id: i32, username: &str, score: u32) -> Game {
    Game { id, username: username.to_owned(), score }
}

fn ids(games: &[Game]) -> Vec<i32> {
    games.iter().map(|g| g.id).collect()
}

#[test]
fn small_scores_are_stored_as_they_are() {
    assert_eq!(score_to_column(0), 0);
    assert_eq!(score_to_column(100), 100);
    assert_eq!(score_to_column(i32::MAX as u32), i32::MAX);
    assert_eq!(score_from_column(0), 0);
    assert_eq!(score_from_column(100), 100);
    assert_eq!(score_from_column(i32::MAX), i32::MAX as u32);
}

#[test]
fn large_scores_are_stored_as_negative_numbers() {
    assert_eq!(FIRST_WRAPPED_SCORE, 2_147_483_648);
    assert_eq!(score_to_column(2_147_483_648), i32::MIN);
    assert_eq!(score_to_column(3_000_000_000), -1_294_967_296);
    assert_eq!(score_to_column(u32::MAX), -1);
    assert_eq!(score_from_column(-1), u32::MAX);
    assert_eq!(score_from_column(i32::MIN), 2_147_483_648);
    assert_eq!(score_from_column(-1_294_967_296), 3_000_000_000);
}

#[test]
fn storing_is_the_reinterpreting_cast() {
    for score in [0u32, 1, 99, 2_147_483_647, 2_147_483_648, 2_147_483_649, 4_294_967_295] {
        assert_eq!(score_to_column(score), score as i32);
        assert_eq!(score_from_column(score_to_column(score)), score);
    }
    for column in [0i32, 1, -1, 77, -77, i32::MAX, i32::MIN] {
        assert_eq!(score_from_column(column), column as u32);
        assert_eq!(score_to_column(score_from_column(column)), column);
    }
}

#[test]
fn a_row_becomes_a_game() {
    let g = Game::from_row(7, "ada".to_owned(), 93);
    assert_eq!((g.id, g.username.as_str(), g.score), (7, "ada", 93));
    let g = Game::from_row(-2, String::new(), -6);
    assert_eq!((g.id, g.username.as_str(), g.score), (-2, "", 4_294_967_290));
}

#[test]
fn the_leaderboard_has_the_highest_score_first() {
    let ranking = rank_games(vec![
        game(1, "ada", 50),
        game(2, "bob", 93),
        game(3, "cy", 7),
        game(4, "dee", 100),
    ]);
    assert_eq!(ids(&ranking), vec![4, 2, 1, 3]);
    assert_eq!(ranking[0].username, "dee");
    assert_eq!(ranking[3].score, 7);
}

#[test]
fn of_equal_scores_the_later_game_comes_first() {
    let ranking = rank_games(vec![
        game(1, "ada", 50),
        game(2, "bob", 50),
        game(3, "cy", 70),
        game(4, "dee", 50),
        game(5, "eve", 70),
    ]);
    assert_eq!(ids(&ranking), vec![5, 3, 4, 2, 1]);
}

#[test]
fn an_empty_list_and_a_single_game_stay() {
    assert!(rank_games(Vec::new()).is_empty());
    assert_eq!(ids(&rank_games(vec![game(9, "ada", 1)])), vec![9]);
}

#[test]
fn the_leaderboard_is_a_stable_sort_reversed() {
    let scores = [5u32, 3, 5, 0, 9, 3, 3, 7, 9, 0, 5, u32::MAX, 1, 0];
    for len in 0..=scores.len() {
        for shift in 0..scores.len() {
            let list: Vec<Game> = (0..len)
                .map(|i| game(i as i32, "x", scores[(i + shift) % scores.len()]))
                .collect();
            let mut expected: Vec<Game> =
                list.iter().map(|g| game(g.id, "x", g.score)).collect();
            expected.sort_by_key(|g| g.score);
            expected.reverse();
            assert_eq!(ids(&rank_games(list)), ids(&expected));
        }
    }
}
