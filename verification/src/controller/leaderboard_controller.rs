//! The XP leaderboard.
use vstd::prelude::*;
use crate::levels::{current_level_index, is_current_level, level_config, level_icon, level_name};
use crate::text::{chars_of, owned, push_all, split_whitespace, str_equal, string_from_chars, words_spec, lemma_words_nonempty};

verus! {

/// The initials of the given words: for each, a space, its first character
/// and a full stop.
pub open spec fn initials_spec(words: Seq<Seq<char>>) -> Seq<char>
    decreases words.len(),
{
    if words.len() == 0 {
        seq![]
    } else {
        initials_spec(words.drop_last()) + seq![' ', words.last()[0], '.']
    }
}

/// A name as shown on the leaderboard: a name of one word is shown as it is;
/// otherwise the first word is kept and every further word is cut to its
/// initial ("Afdhal Kurniawan" becomes "Afdhal K.").
pub open spec fn mask_name_spec(name: Seq<char>) -> Seq<char> {
    let ws = words_spec(name);
    if ws.len() <= 1 {
        name
    } else {
        ws[0] + initials_spec(ws.subrange(1, ws.len() as int))
    }
}

/// Masks a display name for privacy: keeps the first word and abbreviates the
/// rest.
pub fn mask_name(name: &str) -> (r: String)
    ensures
        r@ == mask_name_spec(name@),
{
    let cs = chars_of(name);
    let parts = split_whitespace(cs.as_slice());
    if parts.len() <= 1 {
        return owned(name);
    }
    proof {
        lemma_words_nonempty(name@);
    }
    let ghost ws = words_spec(name@);
    let mut result: Vec<char> = Vec::new();
    push_all(&mut result, parts[0].as_slice());
    let mut k: usize = 1;
    while k < parts.len()
        invariant
            1 <= k <= parts@.len(),
            parts@.len() == ws.len(),
            ws == words_spec(name@),
            forall|j: int| 0 <= j < parts@.len() ==> (#[trigger] parts@[j])@ == ws[j],
            forall|j: int| 0 <= j < ws.len() ==> (#[trigger] ws[j]).len() > 0,
            result@ == ws[0] + initials_spec(ws.subrange(1, k as int)),
        decreases parts@.len() - k,
    {
        let part = &parts[k];
        assert(part@ == ws[k as int]);
        assert(part@.len() > 0);
        result.push(' ');
        result.push(part[0]);
        result.push('.');
        proof {
            let pre = ws.subrange(1, k as int);
            let post = ws.subrange(1, k + 1);
            assert(post.drop_last() =~= pre);
            assert(post.last() == ws[k as int]);
            assert(initials_spec(post) == initials_spec(pre) + seq![' ', ws[k as int][0], '.']);
            assert(result@ =~= ws[0] + initials_spec(post));
        }
        k = k + 1;
    }
    string_from_chars(result.as_slice())
}

/// One row of the XP leaderboard.
pub struct LeaderboardXpEntry {
    pub rank: i64,
    pub display_name: String,
    pub total_xp: i64,
    pub current_level: i32,
    pub level_name: String,
    pub level_icon: String,
    pub is_current_user: bool,
}

/// The XP leaderboard.
pub struct LeaderboardXpResponse {
    pub entries: Vec<LeaderboardXpEntry>,
    pub current_user_rank: Option<i64>,
}

/// A user row as the leaderboard query returns it: id, display name, total XP
/// and stored level, highest XP first.
pub struct XpRow {
    pub id: String,
    pub display_name: String,
    pub total_xp: i64,
    pub current_level: i32,
}

/// Whether a row is the current user's.
pub open spec fn is_user_row(row: XpRow, current_user: Option<String>) -> bool {
    current_user matches Some(u) && u@ == row.id@
}

/// Builds the leaderboard from the rows, ranked 1, 2, … in the order given.
/// Each entry's level is computed from its XP, its name masked. The current
/// user's rank is the rank of the last row that is theirs, if any; when there
/// is none, the caller looks it up separately.
pub fn build_xp_leaderboard(rows: &Vec<XpRow>, current_user: &Option<String>) -> (r:
    LeaderboardXpResponse)
    requires
        rows@.len() < 0x7fff_ffff_ffff_ffff,
    ensures
        r.entries@.len() == rows@.len(),
        forall|i: int|
            0 <= i < rows@.len() ==> {
                let e = #[trigger] r.entries@[i];
                &&& e.rank == i + 1
                &&& e.display_name@ == mask_name_spec(rows@[i].display_name@)
                &&& e.total_xp == rows@[i].total_xp
                &&& is_current_level(rows@[i].total_xp as int, e.current_level - 1)
                &&& e.level_name@ == level_name(e.current_level - 1)
                &&& e.level_icon@ == level_icon(e.current_level - 1)
                &&& e.is_current_user == is_user_row(rows@[i], *current_user)
            },
        r.current_user_rank matches Some(k) ==> 1 <= k <= rows@.len() && is_user_row(
            rows@[k - 1],
            *current_user,
        ) && forall|j: int| k <= j < rows@.len() ==> !is_user_row(#[trigger] rows@[j], *current_user),
        r.current_user_rank is None ==> forall|j: int|
            0 <= j < rows@.len() ==> !is_user_row(#[trigger] rows@[j], *current_user),
{
    let mut entries: Vec<LeaderboardXpEntry> = Vec::new();
    let mut current_user_rank: Option<i64> = None;
    let mut i: usize = 0;
    while i < rows.len()
        invariant
            i <= rows@.len(),
            rows@.len() < 0x7fff_ffff_ffff_ffff,
            entries@.len() == i,
            forall|j: int|
                0 <= j < i ==> {
                    let e = #[trigger] entries@[j];
                    &&& e.rank == j + 1
                    &&& e.display_name@ == mask_name_spec(rows@[j].display_name@)
                    &&& e.total_xp == rows@[j].total_xp
                    &&& is_current_level(rows@[j].total_xp as int, e.current_level - 1)
                    &&& e.level_name@ == level_name(e.current_level - 1)
                    &&& e.level_icon@ == level_icon(e.current_level - 1)
                    &&& e.is_current_user == is_user_row(rows@[j], *current_user)
                },
            current_user_rank matches Some(k) ==> 1 <= k <= i && is_user_row(
                rows@[k - 1],
                *current_user,
            ) && forall|j: int| k <= j < i ==> !is_user_row(#[trigger] rows@[j], *current_user),
            current_user_rank is None ==> forall|j: int|
                0 <= j < i ==> !is_user_row(#[trigger] rows@[j], *current_user),
        decreases rows@.len() - i,
    {
        let row = &rows[i];
        let rank = (i + 1) as i64;
        let is_current_user = match current_user {
            Some(u) => str_equal(u.as_str(), row.id.as_str()),
            None => false,
        };
        if is_current_user {
            current_user_rank = Some(rank);
        }
        let index = current_level_index(row.total_xp);
        let cfg = level_config(index);
        let entry = LeaderboardXpEntry {
            rank,
            display_name: mask_name(row.display_name.as_str()),
            total_xp: row.total_xp,
            current_level: cfg.level,
            level_name: owned(cfg.name),
            level_icon: owned(cfg.icon),
            is_current_user,
        };
        entries.push(entry);
        i = i + 1;
    }
    LeaderboardXpResponse { entries, current_user_rank }
}

} // verus!
