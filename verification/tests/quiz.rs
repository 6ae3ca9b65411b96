use quiz_backend::dao::quiz_session_dao::{
    answer_index, arrange_by_ids, marking_source, package_keys, pick_random_questions,
    random_session_category, random_session_name, random_session_time, session_keys,
    tally_answers, unanswered, valid_random_count, MarkingSource,
};
use quiz_backend::dao::daily_challenge_dao::{calc_score, check_submission, compute_streaks, grade_attempt};

#[test]
fn answer_indices() {
    assert_eq!(answer_index("opt1"), 0);
    assert_eq!(answer_index("opt5"), 4);
    assert_eq!(answer_index("OPT1"), 999);
    assert_eq!(answer_index(""), 999);
}

#[test]
fn tally_by_package_order() {
    let keys = package_keys(&["opt1".to_string(), "opt3".to_string(), "opt2".to_string(), "x".to_string()]);
    assert_eq!(keys, vec![Some(0), Some(2), Some(1), Some(999)]);
    // Right, wrong, unanswered, wrong; a missing answer is not counted.
    let (right, wrong) = tally_answers(&keys, &[Some(0), Some(1), None, Some(3)]);
    assert_eq!((right, wrong), (1, 2));
    let (right, wrong) = tally_answers(&keys, &[Some(0)]);
    assert_eq!((right, wrong), (1, 0));
}

#[test]
fn tally_by_ids() {
    let rows = vec![(10, Some("opt2".to_string())), (20, None), (30, Some("opt4".to_string()))];
    let keys = session_keys(&[30, 20, 10, 40], &rows);
    assert_eq!(keys, vec![Some(3), None, Some(1), None]);
    let (right, wrong) = tally_answers(&keys, &[Some(3), Some(0), Some(0), Some(1)]);
    assert_eq!((right, wrong), (1, 1));
}

#[test]
fn later_row_wins_for_repeated_ids() {
    let rows = vec![(10, Some("opt1".to_string())), (10, Some("opt2".to_string()))];
    assert_eq!(session_keys(&[10], &rows), vec![Some(1)]);
}

#[test]
fn unanswered_never_negative() {
    assert_eq!(unanswered(10, 4, 3), 3);
    assert_eq!(unanswered(5, 4, 3), 0);
}

#[test]
fn random_session_settings() {
    assert!(valid_random_count(10) && valid_random_count(20) && valid_random_count(30));
    assert!(!valid_random_count(15));
    assert_eq!(random_session_time(20), 1200);
    assert_eq!(random_session_category(&None), "Semua Kategori");
    assert_eq!(random_session_category(&Some("CPNS".into())), "CPNS");
    assert_eq!(random_session_name(), "Latihan Random");
}

#[test]
fn random_pick_draws_without_repetition() {
    let ids: Vec<i32> = (1..=50).collect();
    let mut picked = pick_random_questions(ids.clone(), 10);
    assert_eq!(picked.len(), 10);
    picked.sort();
    picked.dedup();
    assert_eq!(picked.len(), 10);
    assert!(picked.iter().all(|x| ids.contains(x)));
    let all = pick_random_questions(vec![7, 8], 30);
    let mut all_sorted = all.clone();
    all_sorted.sort();
    assert_eq!(all_sorted, vec![7, 8]);
}

#[test]
fn fetched_rows_follow_the_draw() {
    // Rows come back in the database's order; questions follow the drawn order.
    assert_eq!(arrange_by_ids(&[30, 10, 99, 20], &[10, 20, 30]), vec![2, 0, 1]);
}

#[test]
fn marking_sources() {
    assert!(matches!(marking_source("standard", &None), MarkingSource::ByPackage));
    assert!(matches!(marking_source("random", &Some("[3,1,2]".into())), MarkingSource::ByIds(ref v) if v == &vec![3, 1, 2]));
    assert!(matches!(marking_source("random", &Some("oops".into())), MarkingSource::ByIds(ref v) if v.is_empty()));
    assert!(matches!(marking_source("random", &None), MarkingSource::ByIds(ref v) if v.is_empty()));
}

#[test]
fn daily_challenge_scores() {
    assert_eq!(calc_score(false, 0), 0);
    assert_eq!(calc_score(true, 0), 1000);
    assert_eq!(calc_score(true, 12_345), 880);
    assert_eq!(calc_score(true, 200_000), 100);
    assert!(check_submission(0, 10).is_err());
    assert!(check_submission(3, -1).is_err());
    assert!(check_submission(5, 0).is_ok());
    let (correct, score) = grade_attempt(2, "opt2", 5_000);
    assert!(correct);
    assert_eq!(score, 950);
}

#[test]
fn streaks() {
    assert_eq!(compute_streaks(&[], 100), (0, 0));
    assert_eq!(compute_streaks(&[100, 99, 98, 90, 89], 100), (3, 3));
    assert_eq!(compute_streaks(&[99, 98], 100), (2, 2));
    assert_eq!(compute_streaks(&[95, 94, 93, 92], 100), (0, 4));
    assert_eq!(compute_streaks(&[100, 98, 97, 96, 95], 100), (1, 4));
}
