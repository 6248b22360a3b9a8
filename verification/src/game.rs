//! Finished games: what is kept of one, how its score is stored, and the leaderboard.

use vstd::prelude::*;

verus! {

/// A finished game.
#[derive(Debug)]
pub struct Game {
    pub id: i32,
    pub username: String,
    pub score: u32,
}

/// Scores from here on are stored as negative numbers.
pub const FIRST_WRAPPED_SCORE: u32 = 0x8000_0000;

/// The score that a stored signed 32-bit number stands for: the same 32 bits read
/// without a sign.
pub open spec fn score_of_column(column: i32) -> u32 {
    if column >= 0 {
        column as u32
    } else {
        (column + 0x1_0000_0000) as u32
    }
}

/// The signed 32-bit number that a score is stored as: the same 32 bits read with a sign.
pub open spec fn column_of_score(score: u32) -> i32 {
    if score < FIRST_WRAPPED_SCORE {
        score as i32
    } else {
        (score - 0x1_0000_0000) as i32
    }
}

/// The score that a stored number stands for.
pub fn score_from_column(column: i32) -> (score: u32)
    ensures
        score == score_of_column(column),
{
    if column >= 0 {
        column as u32
    } else {
        (column as i64 + 0x1_0000_0000) as u32
    }
}

/// The number that a score is stored as.
pub fn score_to_column(score: u32) -> (column: i32)
    ensures
        column == column_of_score(score),
{
    if score < FIRST_WRAPPED_SCORE {
        score as i32
    } else {
        (score as i64 - 0x1_0000_0000) as i32
    }
}

/// A score survives being stored, whatever its size, and so does a stored number that
/// is read and stored again.
pub proof fn lemma_score_round_trip(score: u32, column: i32)
    ensures
        score_of_column(column_of_score(score)) == score,
        column_of_score(score_of_column(column)) == column,
{
}

impl Game {
    /// The game that a row of the games table stands for.
    pub fn from_row(id: i32, username: String, score: i32) -> (game: Game)
        ensures
            game.id == id,
            game.username == username,
            game.score == score_of_column(score),
    {
        Game { id, username, score: score_from_column(score) }
    }
}

/// How many entries at the head of a ranking score at least `score`.
pub open spec fn rank_of(ranking: Seq<Game>, score: u32) -> int
    decreases ranking.len(),
{
    if ranking.len() == 0 || ranking[0].score < score {
        0
    } else {
        1 + rank_of(ranking.drop_first(), score)
    }
}

/// A ranking with one more game, put behind every entry that scores at least as much.
pub open spec fn place(ranking: Seq<Game>, game: Game) -> Seq<Game> {
    ranking.insert(rank_of(ranking, game.score), game)
}

/// The leaderboard of a list of games: highest score first, and of two games with the
/// same score the one that stands later in the list first.
pub open spec fn ranked(games: Seq<Game>) -> Seq<Game>
    decreases games.len(),
{
    if games.len() == 0 {
        Seq::empty()
    } else {
        place(ranked(games.drop_first()), games[0])
    }
}

/// Scores do not rise along the sequence.
pub open spec fn is_descending(ranking: Seq<Game>) -> bool {
    forall|i: int, j: int| 0 <= i <= j < ranking.len() ==> ranking[i].score >= ranking[j].score
}

/// `rank_of` is a position in the ranking; in a descending ranking every entry before
/// it scores at least `score`, and every entry from it on scores less.
pub proof fn lemma_rank_of(ranking: Seq<Game>, score: u32)
    ensures
        0 <= rank_of(ranking, score) <= ranking.len(),
        forall|i: int| 0 <= i < rank_of(ranking, score) ==> ranking[i].score >= score,
        is_descending(ranking) ==> forall|i: int|
            rank_of(ranking, score) <= i < ranking.len() ==> ranking[i].score < score,
    decreases ranking.len(),
{
    if ranking.len() > 0 && ranking[0].score >= score {
        let rest = ranking.drop_first();
        lemma_rank_of(rest, score);
        assert forall|i: int| 0 <= i < rank_of(ranking, score) implies ranking[i].score
            >= score by {
            if i > 0 {
                assert(ranking[i] == rest[i - 1]);
            }
        }
        if is_descending(ranking) {
            assert forall|i: int, j: int| 0 <= i <= j < rest.len() implies rest[i].score
                >= rest[j].score by {
                assert(rest[i] == ranking[i + 1] && rest[j] == ranking[j + 1]);
            }
            assert forall|i: int| rank_of(ranking, score) <= i < ranking.len() implies ranking[i].score
                < score by {
                assert(ranking[i] == rest[i - 1]);
            }
        }
    }
}

/// A leaderboard holds the games it was made of, each as often as the list does, and
/// its scores do not rise.
pub proof fn lemma_ranked(games: Seq<Game>)
    ensures
        ranked(games).len() == games.len(),
        ranked(games).to_multiset() == games.to_multiset(),
        is_descending(ranked(games)),
    decreases games.len(),
{
    if games.len() == 0 {
        assert(ranked(games) =~= games);
    } else {
        let rest = games.drop_first();
        let before = ranked(rest);
        let at = rank_of(before, games[0].score);
        let after = place(before, games[0]);
        lemma_ranked(rest);
        lemma_rank_of(before, games[0].score);
        before.insert_ensures(at, games[0]);
        vstd::seq_lib::to_multiset_insert(before, at, games[0]);
        assert(games =~= rest.insert(0, games[0]));
        vstd::seq_lib::to_multiset_insert(rest, 0, games[0]);
        assert forall|i: int, j: int| 0 <= i <= j < after.len() implies after[i].score
            >= after[j].score by {
            let a = if i < at { before[i] } else if i == at { games[0] } else { before[i - 1] };
            let b = if j < at { before[j] } else if j == at { games[0] } else { before[j - 1] };
            assert(after[i] == a && after[j] == b);
        }
    }
}

/// Ranks games for the leaderboard.
pub fn rank_games(games: Vec<Game>) -> (ranking: Vec<Game>)
    ensures
        ranking@ == ranked(games@),
{
    let mut games = games;
    let mut ranking: Vec<Game> = Vec::new();
    let ghost all = games@;
    assert(all.subrange(all.len() as int, all.len() as int) =~= Seq::<Game>::empty());
    assert(all.subrange(0, all.len() as int) =~= all);
    while games.len() > 0
        invariant
            games.len() <= all.len(),
            games@ == all.subrange(0, games.len() as int),
            ranking@ == ranked(all.subrange(games.len() as int, all.len() as int)),
        decreases games.len(),
    {
        let ghost done = all.subrange(games.len() as int, all.len() as int);
        let ghost next = all.subrange(games.len() - 1, all.len() as int);
        let game = games.pop().unwrap();
        let mut at: usize = 0;
        assert(ranking@.subrange(0, ranking@.len() as int) =~= ranking@);
        while at < ranking.len() && ranking[at].score >= game.score
            invariant
                at <= ranking.len(),
                rank_of(ranking@, game.score) == at + rank_of(
                    ranking@.subrange(at as int, ranking@.len() as int),
                    game.score,
                ),
            decreases ranking.len() - at,
        {
            proof {
                let tail = ranking@.subrange(at as int, ranking@.len() as int);
                assert(tail.drop_first() =~= ranking@.subrange(at + 1, ranking@.len() as int));
            }
            at += 1;
        }
        proof {
            let tail = ranking@.subrange(at as int, ranking@.len() as int);
            assert(rank_of(tail, game.score) == 0);
            assert(next[0] == game);
            assert(next.drop_first() =~= done);
            assert(games@ =~= all.subrange(0, games.len() as int));
        }
        ranking.insert(at, game);
    }
    ranking
}

} // verus!
