use quiz_backend::levels::{level_info, levels, LevelConfig, LEVEL_COUNT};
use quiz_backend::controller::user_controller::xp_status;

/// The current level, the next one and the progress as a fraction in [0, 1].
fn compute_level_info(total_xp: i64) -> (LevelConfig, Option<LevelConfig>, f64) {
    let info = level_info(total_xp);
    let progress = info.progress_num as f64 / info.progress_den as f64;
    (info.current, info.next, progress)
}

#[test]
fn test_level_1_at_zero_xp() {
    let (cfg, next, progress) = compute_level_info(0);
    assert_eq!(cfg.level, 1);
    assert!(next.is_some());
    assert_eq!(progress, 0.0);
}

#[test]
fn test_level_2_at_500_xp() {
    let (cfg, _, _) = compute_level_info(500);
    assert_eq!(cfg.level, 2);
}

#[test]
fn test_level_8_at_80000_xp() {
    let (cfg, next, progress) = compute_level_info(80_000);
    assert_eq!(cfg.level, 8);
    assert!(next.is_none());
    assert_eq!(progress, 1.0);
}

#[test]
fn test_max_progress_at_level_8() {
    let (cfg, next, progress) = compute_level_info(999_999);
    assert_eq!(cfg.level, 8);
    assert!(next.is_none());
    assert_eq!(progress, 1.0);
}

#[test]
fn test_mid_level_progress() {
    // Level 2 goes from 500 to 2000 (span 1500). At 1250 total XP → 750/1500 = 0.5
    let (cfg, _, progress) = compute_level_info(1_250);
    assert_eq!(cfg.level, 2);
    assert!((progress - 0.5).abs() < 1e-9);
}

#[test]
fn level_table_is_increasing() {
    let table = levels();
    assert_eq!(table.len(), LEVEL_COUNT);
    assert_eq!(table[0].total_xp_required, 0);
    for i in 1..table.len() {
        assert!(table[i - 1].total_xp_required < table[i].total_xp_required);
        assert_eq!(table[i].level, table[i - 1].level + 1);
    }
    assert_eq!(table[7].name, "Legenda");
}

#[test]
fn level_just_below_threshold() {
    let info = level_info(499);
    assert_eq!(info.current.level, 1);
    assert_eq!(info.current.name, "Pemula");
    assert_eq!((info.progress_num, info.progress_den), (499, 500));
    let info = level_info(1999);
    assert_eq!(info.current.level, 2);
    assert_eq!(info.next.unwrap().level, 3);
}

#[test]
fn negative_xp_is_first_level_without_progress() {
    let info = level_info(-10);
    assert_eq!(info.current.level, 1);
    assert_eq!(info.progress_num, 0);
}

#[test]
fn more_xp_never_lowers_the_level() {
    let mut last = 0;
    for xp in [0i64, 1, 499, 500, 2000, 4999, 5000, 10000, 20000, 40000, 79999, 80000, 1_000_000] {
        let l = level_info(xp).current.level;
        assert!(l >= last);
        last = l;
    }
}

#[test]
fn xp_status_counts_within_level() {
    let s = xp_status(1250);
    assert_eq!(s.info.current.level, 2);
    assert_eq!(s.xp_in_level, 750);
    assert_eq!(s.xp_to_next_level, Some(750));
    let top = xp_status(90_000);
    assert_eq!(top.xp_in_level, 10_000);
    assert_eq!(top.xp_to_next_level, None);
}
