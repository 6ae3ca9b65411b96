//! Level and XP configuration of the quiz platform.
//!
//! A user's level is determined by accumulated XP: the levels form a table of
//! strictly increasing XP thresholds, and the current level is the highest one
//! whose threshold the user has reached.
use vstd::prelude::*;

verus! {

/// One row of the level table.
#[derive(Debug, Clone)]
pub struct LevelConfig {
    pub level: i32,
    pub name: &'static str,
    pub icon: &'static str,
    pub total_xp_required: i64,
}

/// The number of levels.
pub const LEVEL_COUNT: usize = 8;

/// The most XP a user can earn in one day.
pub const XP_DAILY_CAP: i64 = 2000;

/// The XP needed to reach the level at `index` (0-based).
pub open spec fn threshold(index: int) -> int {
    if index == 0 {
        0
    } else if index == 1 {
        500
    } else if index == 2 {
        2000
    } else if index == 3 {
        5000
    } else if index == 4 {
        10000
    } else if index == 5 {
        20000
    } else if index == 6 {
        40000
    } else {
        80000
    }
}

/// The level table is strictly increasing in XP and starts at zero.
pub proof fn lemma_thresholds_increasing(i: int, j: int)
    requires
        0 <= i < j < LEVEL_COUNT,
    ensures
        threshold(i) < threshold(j),
        threshold(0) == 0,
{
}

/// The name of the level at `index`.
pub open spec fn level_name(index: int) -> Seq<char> {
    if index == 0 {
        "Pemula"@
    } else if index == 1 {
        "Pelajar"@
    } else if index == 2 {
        "Terampil"@
    } else if index == 3 {
        "Mahir"@
    } else if index == 4 {
        "Cakap"@
    } else if index == 5 {
        "Ahli"@
    } else if index == 6 {
        "Master"@
    } else {
        "Legenda"@
    }
}

/// The icon of the level at `index`.
pub open spec fn level_icon(index: int) -> Seq<char> {
    if index == 0 {
        "🌱"@
    } else if index == 1 {
        "📖"@
    } else if index == 2 {
        "✏️"@
    } else if index == 3 {
        "🎯"@
    } else if index == 4 {
        "🔥"@
    } else if index == 5 {
        "💡"@
    } else if index == 6 {
        "🏆"@
    } else {
        "👑"@
    }
}

/// The row of the level table at `index`.
pub fn level_config(index: usize) -> (c: LevelConfig)
    requires
        index < LEVEL_COUNT,
    ensures
        c.level == index + 1,
        c.total_xp_required == threshold(index as int),
        c.name@ == level_name(index as int),
        c.icon@ == level_icon(index as int),
{
    if index == 0 {
        LevelConfig { level: 1, name: "Pemula", icon: "🌱", total_xp_required: 0 }
    } else if index == 1 {
        LevelConfig { level: 2, name: "Pelajar", icon: "📖", total_xp_required: 500 }
    } else if index == 2 {
        LevelConfig { level: 3, name: "Terampil", icon: "✏️", total_xp_required: 2000 }
    } else if index == 3 {
        LevelConfig { level: 4, name: "Mahir", icon: "🎯", total_xp_required: 5000 }
    } else if index == 4 {
        LevelConfig { level: 5, name: "Cakap", icon: "🔥", total_xp_required: 10000 }
    } else if index == 5 {
        LevelConfig { level: 6, name: "Ahli", icon: "💡", total_xp_required: 20000 }
    } else if index == 6 {
        LevelConfig { level: 7, name: "Master", icon: "🏆", total_xp_required: 40000 }
    } else {
        LevelConfig { level: 8, name: "Legenda", icon: "👑", total_xp_required: 80000 }
    }
}

/// The whole level table, lowest level first.
pub fn levels() -> (v: Vec<LevelConfig>)
    ensures
        v@.len() == LEVEL_COUNT,
        forall|i: int|
            0 <= i < LEVEL_COUNT ==> #[trigger] v@[i].level == i + 1 && v@[i].total_xp_required
                == threshold(i),
{
    let mut v: Vec<LevelConfig> = Vec::new();
    let mut i: usize = 0;
    while i < LEVEL_COUNT
        invariant
            i <= LEVEL_COUNT,
            v@.len() == i,
            forall|j: int|
                0 <= j < i ==> #[trigger] v@[j].level == j + 1 && v@[j].total_xp_required
                    == threshold(j),
        decreases LEVEL_COUNT - i,
    {
        let c = level_config(i);
        v.push(c);
        i = i + 1;
    }
    v
}

/// `index` is the current level for `total_xp`: the highest level whose
/// threshold is reached, or the first level when none is.
pub open spec fn is_current_level(total_xp: int, index: int) -> bool {
    &&& 0 <= index < LEVEL_COUNT
    &&& (index == 0 || threshold(index) <= total_xp)
    &&& forall|j: int| index < j < LEVEL_COUNT ==> total_xp < threshold(j)
}

/// The index of the current level for `total_xp`.
pub fn current_level_index(total_xp: i64) -> (index: usize)
    ensures
        is_current_level(total_xp as int, index as int),
{
    let mut index: usize = 0;
    let mut i: usize = 1;
    while i < LEVEL_COUNT
        invariant
            1 <= i <= LEVEL_COUNT,
            index < i,
            index == 0 || threshold(index as int) <= total_xp,
            forall|j: int| index < j < i ==> total_xp < threshold(j),
        decreases LEVEL_COUNT - i,
    {
        let c = level_config(i);
        if total_xp >= c.total_xp_required {
            index = i;
        }
        i = i + 1;
    }
    index
}

/// The current level, the next level and the progress towards it, for an
/// amount of XP. Progress is the fraction `progress_num / progress_den`, in
/// `[0, 1]`.
#[derive(Debug, Clone)]
pub struct LevelInfo {
    pub current: LevelConfig,
    pub next: Option<LevelConfig>,
    pub progress_num: i64,
    pub progress_den: i64,
}

/// The progress fraction for `total_xp` at level `index`: the XP earned within
/// the level over the XP the level spans, clamped to `[0, 1]`; `1/1` at the top
/// level.
pub open spec fn progress_spec(total_xp: int, index: int) -> (int, int) {
    if index + 1 < LEVEL_COUNT {
        let span = threshold(index + 1) - threshold(index);
        let earned = total_xp - threshold(index);
        let num = if earned < 0 {
            0
        } else if earned > span {
            span
        } else {
            earned
        };
        (num, span)
    } else {
        (1, 1)
    }
}

/// The level information for `total_xp`: the current level (the highest one
/// reached), the following level when there is one, and the progress from the
/// current level to the next.
pub fn level_info(total_xp: i64) -> (info: LevelInfo)
    ensures
        is_current_level(total_xp as int, info.current.level - 1),
        info.current.total_xp_required == threshold(info.current.level - 1),
        info.current.name@ == level_name(info.current.level - 1),
        info.current.icon@ == level_icon(info.current.level - 1),
        info.current.level < LEVEL_COUNT ==> (info.next matches Some(n) && n.level
            == info.current.level + 1 && n.total_xp_required == threshold(
            info.current.level as int,
        )),
        info.current.level == LEVEL_COUNT ==> info.next is None,
        (info.progress_num as int, info.progress_den as int) == progress_spec(
            total_xp as int,
            info.current.level - 1,
        ),
{
    let index = current_level_index(total_xp);
    let current = level_config(index);
    if index + 1 < LEVEL_COUNT {
        let next = level_config(index + 1);
        let span = next.total_xp_required - current.total_xp_required;
        let num = if total_xp < current.total_xp_required {
            0
        } else if total_xp - current.total_xp_required > span {
            span
        } else {
            total_xp - current.total_xp_required
        };
        LevelInfo { current, next: Some(next), progress_num: num, progress_den: span }
    } else {
        LevelInfo { current, next: None, progress_num: 1, progress_den: 1 }
    }
}

/// More XP never means a lower level.
pub proof fn lemma_level_monotonic(xp1: int, xp2: int, i1: int, i2: int)
    requires
        xp1 <= xp2,
        is_current_level(xp1, i1),
        is_current_level(xp2, i2),
    ensures
        i1 <= i2,
{
    if i1 > i2 {
        assert(xp2 < threshold(i1));
    }
}

/// Reaching a level's threshold exactly puts the user at that level.
pub proof fn lemma_threshold_reaches_level(index: int)
    requires
        0 <= index < LEVEL_COUNT,
    ensures
        is_current_level(threshold(index), index),
{
    assert forall|j: int| index < j < LEVEL_COUNT implies threshold(index) < threshold(j) by {
        lemma_thresholds_increasing(index, j);
    }
}

/// The current level for an amount of XP is unique.
pub proof fn lemma_current_level_unique(xp: int, i1: int, i2: int)
    requires
        is_current_level(xp, i1),
        is_current_level(xp, i2),
    ensures
        i1 == i2,
{
    if i1 < i2 {
        assert(xp < threshold(i2));
    } else if i2 < i1 {
        assert(xp < threshold(i1));
    }
}

/// Progress is a fraction in `[0, 1]` with a positive denominator.
pub proof fn lemma_progress_bounded(total_xp: int, index: int)
    requires
        0 <= index < LEVEL_COUNT,
    ensures
        progress_spec(total_xp, index).1 > 0,
        0 <= progress_spec(total_xp, index).0 <= progress_spec(total_xp, index).1,
{
}

/// The XP band of each level: level 1 below 500 XP, level 2 from 500,
/// level 3 from 2,000, level 4 from 5,000, level 5 from 10,000, level 6 from
/// 20,000, level 7 from 40,000 and level 8 from 80,000; each band ends where
/// the next begins.
pub proof fn lemma_level_bands(xp: int, index: int)
    requires
        is_current_level(xp, index),
    ensures
        index == 0 <==> xp < 500,
        index == 1 <==> 500 <= xp < 2000,
        index == 2 <==> 2000 <= xp < 5000,
        index == 3 <==> 5000 <= xp < 10000,
        index == 4 <==> 10000 <= xp < 20000,
        index == 5 <==> 20000 <= xp < 40000,
        index == 6 <==> 40000 <= xp < 80000,
        index == 7 <==> 80000 <= xp,
{
    assert(threshold(1) == 500 && threshold(2) == 2000 && threshold(3) == 5000);
    assert(threshold(4) == 10000 && threshold(5) == 20000 && threshold(6) == 40000);
    assert(threshold(7) == 80000);
}

/// From level 4 on, each level needs twice the XP of the one before it.
pub proof fn lemma_thresholds_double(index: int)
    requires
        3 <= index < LEVEL_COUNT - 1,
    ensures
        threshold(index + 1) == 2 * threshold(index),
{
}

} // verus!
