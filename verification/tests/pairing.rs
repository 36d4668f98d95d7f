use openskill::pairing::{ladder_pairs, ordered_pairs};
use openskill::utils::{map_members, zip_without_self};

#[test]
fn ladder_pairs_single_entry_has_no_neighbours() {
    let got = ladder_pairs(&vec![10u64]);
    assert_eq!(got, vec![vec![]]);
}

#[test]
fn ladder_pairs_two_entries_see_each_other() {
    let got = ladder_pairs(&vec![10u64, 20]);
    assert_eq!(got, vec![vec![20], vec![10]]);
}

#[test]
fn ladder_pairs_middle_entries_see_both_neighbours() {
    let got = ladder_pairs(&vec![1u64, 2, 3, 4]);
    assert_eq!(got, vec![vec![2], vec![1, 3], vec![2, 4], vec![3]]);
}

#[test]
fn zip_without_self_pairs_each_entry_with_the_others() {
    let got = zip_without_self(&vec![1u64, 2, 3]);
    assert_eq!(
        got,
        vec![
            (1, vec![2, 3]),
            (2, vec![1, 3]),
            (3, vec![1, 2]),
        ]
    );
}

#[test]
fn zip_without_self_of_empty_input_is_empty() {
    let got = zip_without_self(&Vec::<u64>::new());
    assert_eq!(got, vec![]);
}

#[test]
fn ordered_pairs_visits_both_directions_in_leader_order() {
    let got = ordered_pairs(&vec![1u64, 2, 3]);
    assert_eq!(
        got,
        vec![(1, 2), (1, 3), (2, 1), (2, 3), (3, 1), (3, 2)]
    );
}

#[test]
fn ordered_pairs_of_two_entries() {
    let got = ordered_pairs(&vec![5u64, 6]);
    assert_eq!(got, vec![(5, 6), (6, 5)]);
}

#[test]
fn ordered_pairs_of_fewer_than_two_entries_is_empty() {
    assert_eq!(ordered_pairs(&Vec::<u64>::new()), vec![]);
    assert_eq!(ordered_pairs(&vec![5u64]), vec![]);
}

#[test]
fn map_members_keeps_count_and_order() {
    let members = vec![1u64, 2, 3];
    let got = map_members(&members, |m: &u64| m * 10);
    assert_eq!(got, vec![10, 20, 30]);
}

#[test]
fn map_members_of_empty_team_is_empty() {
    let got = map_members(&Vec::<u64>::new(), |m: &u64| m + 1);
    assert_eq!(got, vec![]);
}
