use solar_sim::gravity::partners;

#[test]
fn every_other_body_pulls() {
    assert_eq!(partners(&vec![4, 8, 15, 16], 15), vec![0, 1, 3]);
    assert_eq!(partners(&vec![4, 8, 15, 16], 4), vec![1, 2, 3]);
    assert_eq!(partners(&vec![4, 8, 15, 16], 16), vec![0, 1, 2]);
}

#[test]
fn a_body_alone_has_no_partner() {
    assert_eq!(partners(&vec![42], 42), Vec::<usize>::new());
}

#[test]
fn an_empty_snapshot_has_no_partner() {
    assert_eq!(partners(&Vec::new(), 42), Vec::<usize>::new());
}

#[test]
fn a_body_that_was_not_recorded_is_pulled_by_all() {
    assert_eq!(partners(&vec![1, 2, 3], 9), vec![0, 1, 2]);
}

#[test]
fn every_record_of_the_body_itself_is_left_out() {
    assert_eq!(partners(&vec![7, 9, 7, 3], 7), vec![1, 3]);
}

#[test]
fn two_bodies_pull_on_each_other() {
    let ids = vec![10, 20];
    assert_eq!(partners(&ids, 10), vec![1]);
    assert_eq!(partners(&ids, 20), vec![0]);
}

#[test]
fn pulling_is_mutual() {
    let ids = vec![5, 1, 5, 8, 2];
    for i in 0..ids.len() {
        for j in 0..ids.len() {
            let j_pulls_on_i = partners(&ids, ids[i]).contains(&j);
            let i_pulls_on_j = partners(&ids, ids[j]).contains(&i);
            assert_eq!(j_pulls_on_i, i_pulls_on_j);
        }
    }
}

#[test]
fn among_distinct_bodies_each_has_all_the_others() {
    let ids: Vec<u32> = vec![3, 1, 4, 15, 9, 2, 6, 5, 35];
    for &own in &ids {
        assert_eq!(partners(&ids, own).len(), ids.len() - 1);
    }
}

#[test]
fn the_largest_id_is_an_id_like_any_other() {
    assert_eq!(partners(&vec![u32::MAX, 0, u32::MAX], u32::MAX), vec![1]);
    assert_eq!(partners(&vec![u32::MAX, 0, u32::MAX], 0), vec![0, 2]);
}
