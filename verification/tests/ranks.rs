use openskill::ranks::{default_ranks, rank_leq_indices, score, tie_counts, Score};

#[test]
fn default_ranks_are_the_positions() {
    assert_eq!(default_ranks(0), Vec::<usize>::new());
    assert_eq!(default_ranks(4), vec![0, 1, 2, 3]);
}

#[test]
fn score_lower_rank_is_the_better_finish() {
    // Outcome for the side ranked second argument.
    assert_eq!(score(2, 1), Score::Win);
    assert_eq!(score(1, 2), Score::Loss);
    assert_eq!(score(3, 3), Score::Draw);
}

#[test]
fn tie_counts_count_shared_ranks() {
    assert_eq!(tie_counts(&vec![1, 2, 2, 4]), vec![1, 2, 2, 1]);
    assert_eq!(tie_counts(&vec![7, 7, 7]), vec![3, 3, 3]);
    assert_eq!(tie_counts(&vec![1, 2, 3]), vec![1, 1, 1]);
    assert_eq!(tie_counts(&Vec::<usize>::new()), Vec::<usize>::new());
}

#[test]
fn rank_leq_indices_lists_teams_that_finished_at_least_as_well() {
    // Ranks 2, 1, 2: the team ranked 1 beats both teams ranked 2.
    assert_eq!(
        rank_leq_indices(&vec![2, 1, 2]),
        vec![vec![0, 1, 2], vec![1], vec![0, 1, 2]]
    );
    assert_eq!(rank_leq_indices(&vec![1, 2, 3]), vec![vec![0], vec![0, 1], vec![0, 1, 2]]);
}
