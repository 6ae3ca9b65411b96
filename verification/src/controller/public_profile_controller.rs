//! Public profiles: usernames, badges and privacy settings.
use vstd::prelude::*;
use crate::text::{
    char_alphanumeric, chars_of, is_alphanumeric, lowercase_of, owned, str_equal, to_lowercase,
    trim_spec, trim_str, string_from_chars, str_len, byte_len,
};

verus! {

/// The query of `GET /users/username/check`.
pub struct UsernameCheckQuery {
    pub username: String,
}

/// The answer of `GET /users/username/check`.
pub struct UsernameCheckResponse {
    pub available: bool,
    pub message: String,
}

/// The number of reserved usernames.
pub const RESERVED_USERNAME_COUNT: usize = 17;

/// The usernames nobody may take.
pub open spec fn reserved_username(i: int) -> Seq<char> {
    if i == 0 {
        "admin"@
    } else if i == 1 {
        "administrator"@
    } else if i == 2 {
        "root"@
    } else if i == 3 {
        "superuser"@
    } else if i == 4 {
        "support"@
    } else if i == 5 {
        "help"@
    } else if i == 6 {
        "me"@
    } else if i == 7 {
        "profile"@
    } else if i == 8 {
        "user"@
    } else if i == 9 {
        "users"@
    } else if i == 10 {
        "api"@
    } else if i == 11 {
        "quizku"@
    } else if i == 12 {
        "quiz"@
    } else if i == 13 {
        "system"@
    } else if i == 14 {
        "official"@
    } else if i == 15 {
        "moderator"@
    } else {
        "mod"@
    }
}

fn reserved_username_text(i: usize) -> (r: &'static str)
    requires
        i < RESERVED_USERNAME_COUNT,
    ensures
        r@ == reserved_username(i as int),
{
    if i == 0 {
        "admin"
    } else if i == 1 {
        "administrator"
    } else if i == 2 {
        "root"
    } else if i == 3 {
        "superuser"
    } else if i == 4 {
        "support"
    } else if i == 5 {
        "help"
    } else if i == 6 {
        "me"
    } else if i == 7 {
        "profile"
    } else if i == 8 {
        "user"
    } else if i == 9 {
        "users"
    } else if i == 10 {
        "api"
    } else if i == 11 {
        "quizku"
    } else if i == 12 {
        "quiz"
    } else if i == 13 {
        "system"
    } else if i == 14 {
        "official"
    } else if i == 15 {
        "moderator"
    } else {
        "mod"
    }
}

/// Whether `name` is one of the reserved usernames.
pub open spec fn is_reserved(name: Seq<char>) -> bool {
    exists|i: int| 0 <= i < RESERVED_USERNAME_COUNT && #[trigger] reserved_username(i) == name
}

fn reserved(name: &str) -> (r: bool)
    ensures
        r == is_reserved(name@),
{
    let mut i: usize = 0;
    while i < RESERVED_USERNAME_COUNT
        invariant
            i <= RESERVED_USERNAME_COUNT,
            forall|j: int| 0 <= j < i ==> #[trigger] reserved_username(j) != name@,
        decreases RESERVED_USERNAME_COUNT - i,
    {
        if str_equal(reserved_username_text(i), name) {
            return true;
        }
        i = i + 1;
    }
    false
}

/// Every character is alphanumeric or an underscore.
pub open spec fn username_chars_ok(s: Seq<char>) -> bool {
    forall|i: int| 0 <= i < s.len() ==> char_alphanumeric(#[trigger] s[i]) || s[i] == '_'
}

/// The rules a username must satisfy, in the order they are checked, and the
/// message of the first one broken. Lengths are counted in UTF-8 bytes.
pub open spec fn validate_username_spec(s: Seq<char>) -> Result<(), Seq<char>> {
    if str_len(s) < 3 {
        Err("Username minimal 3 karakter"@)
    } else if str_len(s) > 30 {
        Err("Username maksimal 30 karakter"@)
    } else if !username_chars_ok(s) {
        Err("Username hanya boleh berisi huruf, angka, dan underscore"@)
    } else if s.len() > 0 && (s[0] == '_' || s.last() == '_') {
        Err("Username tidak boleh diawali atau diakhiri underscore"@)
    } else if is_reserved(lowercase_of(s)) {
        Err("Username tidak tersedia"@)
    } else {
        Ok(())
    }
}

/// Checks a candidate username: 3 to 30 bytes long, only letters, digits and
/// underscores, no underscore at either end, and not a reserved name (compared
/// in lower case).
pub fn validate_username(username: &str) -> (r: Result<(), &'static str>)
    ensures
        r is Ok <==> validate_username_spec(username@) is Ok,
        r matches Err(m) ==> validate_username_spec(username@) == Err::<(), Seq<char>>(m@),
{
    if byte_len(username) < 3 {
        return Err("Username minimal 3 karakter");
    }
    if byte_len(username) > 30 {
        return Err("Username maksimal 30 karakter");
    }
    let cs = chars_of(username);
    let mut i: usize = 0;
    while i < cs.len()
        invariant
            i <= cs@.len(),
            cs@ == username@,
            3 <= str_len(username@) <= 30,
            forall|j: int| 0 <= j < i ==> char_alphanumeric(#[trigger] cs@[j]) || cs@[j] == '_',
        decreases cs@.len() - i,
    {
        let c = cs[i];
        if !(is_alphanumeric(c) || c == '_') {
            assert(!(char_alphanumeric(username@[i as int]) || username@[i as int] == '_'));
            assert(!username_chars_ok(username@));
            return Err("Username hanya boleh berisi huruf, angka, dan underscore");
        }
        i = i + 1;
    }
    if cs.len() > 0 && (cs[0] == '_' || cs[cs.len() - 1] == '_') {
        return Err("Username tidak boleh diawali atau diakhiri underscore");
    }
    let lower = to_lowercase(username);
    if reserved(lower.as_str()) {
        return Err("Username tidak tersedia");
    }
    Ok(())
}

/// A username as typed, trimmed and lower-cased.
pub open spec fn normalize_username_spec(raw: Seq<char>) -> Seq<char> {
    lowercase_of(trim_spec(raw))
}

/// The username a request asks for: the text without surrounding white space,
/// in lower case.
pub fn normalize_username(raw: &str) -> (r: String)
    ensures
        r@ == normalize_username_spec(raw@),
{
    let t = trim_str(raw);
    let ts = string_from_chars(t.as_slice());
    to_lowercase(ts.as_str())
}

/// The answer to an availability check of a username that passed validation:
/// available exactly when it is not taken.
pub fn availability_response(taken: bool) -> (r: UsernameCheckResponse)
    ensures
        r.available == !taken,
        r.message@ == if taken {
            "Username sudah digunakan"@
        } else {
            "Username tersedia"@
        },
{
    if taken {
        UsernameCheckResponse { available: false, message: owned("Username sudah digunakan") }
    } else {
        UsernameCheckResponse { available: true, message: owned("Username tersedia") }
    }
}

/// The answer to an availability check of a username that failed validation.
pub fn invalid_username_response(message: &str) -> (r: UsernameCheckResponse)
    ensures
        !r.available,
        r.message@ == message@,
{
    UsernameCheckResponse { available: false, message: owned(message) }
}

/// What a request to change one's username leads to, once it is known whether
/// the name is taken.
#[derive(Debug, Clone, Copy, PartialEq, Eq)]
pub enum UsernameChange {
    /// The name is the user's own already: nothing changes.
    Unchanged,
    /// Someone else has the name: 409.
    Taken,
    /// The name is free: it is stored.
    Store,
}

/// A taken name is the user's own when their current username is that name;
/// a free name is stored.
pub fn username_change(taken: bool, current: Option<&str>, wanted: &str) -> (r: UsernameChange)
    ensures
        !taken ==> r == UsernameChange::Store,
        taken ==> r == if (current matches Some(c) && c@ == wanted@) {
            UsernameChange::Unchanged
        } else {
            UsernameChange::Taken
        },
{
    if !taken {
        return UsernameChange::Store;
    }
    match current {
        Some(c) => {
            if str_equal(c, wanted) {
                UsernameChange::Unchanged
            } else {
                UsernameChange::Taken
            }
        },
        None => UsernameChange::Taken,
    }
}

/// Which parts of a public profile are shown.
#[derive(Debug, Clone, Copy, PartialEq, Eq)]
pub struct PrivacySettings {
    pub show_stats: bool,
    pub show_badges: bool,
    pub show_best_scores: bool,
}

/// The settings after an update: each given field replaces the current one.
pub fn merge_privacy(
    current: PrivacySettings,
    show_stats: Option<bool>,
    show_badges: Option<bool>,
    show_best_scores: Option<bool>,
) -> (r: PrivacySettings)
    ensures
        r.show_stats == match show_stats {
            Some(b) => b,
            None => current.show_stats,
        },
        r.show_badges == match show_badges {
            Some(b) => b,
            None => current.show_badges,
        },
        r.show_best_scores == match show_best_scores {
            Some(b) => b,
            None => current.show_best_scores,
        },
{
    let mut r = current;
    if let Some(b) = show_stats {
        r.show_stats = b;
    }
    if let Some(b) = show_badges {
        r.show_badges = b;
    }
    if let Some(b) = show_best_scores {
        r.show_best_scores = b;
    }
    r
}

/// A badge of a public profile.
pub struct BadgeInfo {
    pub id: String,
    pub name: String,
    pub description: String,
    pub icon: String,
    pub earned: bool,
}

/// The number of badges.
pub const BADGE_COUNT: usize = 6;

/// The identifier of the `k`-th badge.
pub open spec fn badge_id(k: int) -> Seq<char> {
    if k == 0 {
        "pemula"@
    } else if k == 1 {
        "rajin"@
    } else if k == 2 {
        "konsisten"@
    } else if k == 3 {
        "sempurna"@
    } else if k == 4 {
        "kilat"@
    } else {
        "all_round"@
    }
}

/// Whether the `k`-th badge is earned with these statistics.
pub open spec fn badge_earned(
    k: int,
    total_quizzes: i64,
    best_score: i64,
    streak: i64,
    unique_categories: i64,
) -> bool {
    if k == 0 {
        total_quizzes >= 1
    } else if k == 1 {
        total_quizzes >= 10
    } else if k == 2 {
        streak >= 7
    } else if k == 3 {
        best_score >= 100
    } else if k == 4 {
        best_score >= 80
    } else {
        unique_categories >= 5
    }
}

fn badge(id: &str, name: &str, description: &str, icon: &str, earned: bool) -> (b: BadgeInfo)
    ensures
        b.id@ == id@,
        b.name@ == name@,
        b.description@ == description@,
        b.icon@ == icon@,
        b.earned == earned,
{
    BadgeInfo {
        id: owned(id),
        name: owned(name),
        description: owned(description),
        icon: owned(icon),
        earned,
    }
}

/// The badges of a profile: first quiz, ten quizzes, a seven-day streak, a
/// perfect score, a score of 80, and quizzes in five categories.
pub fn compute_badges(
    total_quizzes: i64,
    best_score: i64,
    streak: i64,
    unique_categories: i64,
) -> (v: Vec<BadgeInfo>)
    ensures
        v@.len() == BADGE_COUNT,
        forall|k: int|
            0 <= k < BADGE_COUNT ==> (#[trigger] v@[k]).id@ == badge_id(k) && v@[k].earned
                == badge_earned(k, total_quizzes, best_score, streak, unique_categories),
        v@[0].name@ == "Pemula"@ && v@[0].description@ == "Selesaikan kuis pertama"@,
        v@[1].name@ == "Rajin Belajar"@ && v@[1].description@ == "Selesaikan 10 kuis"@,
        v@[2].name@ == "Konsisten"@ && v@[2].description@ == "Streak 7 hari berturut-turut"@,
        v@[3].name@ == "Sempurna"@ && v@[3].description@ == "Raih skor 100 dalam satu kuis"@,
        v@[4].name@ == "Kilat"@ && v@[4].description@ == "Raih skor di atas 80"@,
        v@[5].name@ == "Serba Bisa"@ && v@[5].description@
            == "Kerjakan soal dari 5 kategori berbeda"@,
        v@[0].icon@ == "🎓"@ && v@[1].icon@ == "📚"@ && v@[2].icon@ == "🔥"@ && v@[3].icon@
            == "⭐"@ && v@[4].icon@ == "⚡"@ && v@[5].icon@ == "🌟"@,
{
    let mut v: Vec<BadgeInfo> = Vec::new();
    v.push(badge("pemula", "Pemula", "Selesaikan kuis pertama", "🎓", total_quizzes >= 1));
    v.push(badge("rajin", "Rajin Belajar", "Selesaikan 10 kuis", "📚", total_quizzes >= 10));
    v.push(badge("konsisten", "Konsisten", "Streak 7 hari berturut-turut", "🔥", streak >= 7));
    v.push(
        badge("sempurna", "Sempurna", "Raih skor 100 dalam satu kuis", "⭐", best_score >= 100),
    );
    v.push(badge("kilat", "Kilat", "Raih skor di atas 80", "⚡", best_score >= 80));
    v.push(
        badge(
            "all_round",
            "Serba Bisa",
            "Kerjakan soal dari 5 kategori berbeda",
            "🌟",
            unique_categories >= 5,
        ),
    );
    assert forall|k: int| 0 <= k < BADGE_COUNT implies (#[trigger] v@[k]).id@ == badge_id(k)
        && v@[k].earned == badge_earned(k, total_quizzes, best_score, streak, unique_categories) by {
    }
    v
}

/// A perfect score earns both score badges.
pub proof fn lemma_perfect_score_badges(total_quizzes: i64, streak: i64, unique_categories: i64)
    ensures
        badge_earned(3, total_quizzes, 100, streak, unique_categories),
        badge_earned(4, total_quizzes, 100, streak, unique_categories),
{
}

/// More activity never loses a badge: with statistics at least as high, every
/// badge earned before is still earned.
pub proof fn lemma_badges_monotonic(
    k: int,
    q1: i64,
    s1: i64,
    st1: i64,
    c1: i64,
    q2: i64,
    s2: i64,
    st2: i64,
    c2: i64,
)
    requires
        0 <= k < BADGE_COUNT,
        q1 <= q2,
        s1 <= s2,
        st1 <= st2,
        c1 <= c2,
        badge_earned(k, q1, s1, st1, c1),
    ensures
        badge_earned(k, q2, s2, st2, c2),
{
}

/// Each badge is decided by one statistic alone, reached at its own mark:
/// the first quiz (`pemula`) and ten quizzes (`rajin`) by the number of
/// quizzes, seven days in a row (`konsisten`) by the streak, a score of 100
/// (`sempurna`) and of 80 (`kilat`) by the best score, and five categories
/// (`all_round`) by the number of categories. Two profiles that agree on that
/// statistic agree on the badge, whatever their other statistics.
pub proof fn lemma_badge_rules(
    k: int,
    q1: i64,
    s1: i64,
    st1: i64,
    c1: i64,
    q2: i64,
    s2: i64,
    st2: i64,
    c2: i64,
)
    requires
        0 <= k < BADGE_COUNT,
    ensures
        badge_id(k) == "pemula"@ ==> (badge_earned(k, q1, s1, st1, c1) <==> q1 >= 1),
        badge_id(k) == "rajin"@ ==> (badge_earned(k, q1, s1, st1, c1) <==> q1 >= 10),
        badge_id(k) == "konsisten"@ ==> (badge_earned(k, q1, s1, st1, c1) <==> st1 >= 7),
        badge_id(k) == "sempurna"@ ==> (badge_earned(k, q1, s1, st1, c1) <==> s1 >= 100),
        badge_id(k) == "kilat"@ ==> (badge_earned(k, q1, s1, st1, c1) <==> s1 >= 80),
        badge_id(k) == "all_round"@ ==> (badge_earned(k, q1, s1, st1, c1) <==> c1 >= 5),
        (badge_id(k) == "pemula"@ || badge_id(k) == "rajin"@) && q1 == q2 ==> badge_earned(
            k,
            q1,
            s1,
            st1,
            c1,
        ) == badge_earned(k, q2, s2, st2, c2),
        badge_id(k) == "konsisten"@ && st1 == st2 ==> badge_earned(k, q1, s1, st1, c1)
            == badge_earned(k, q2, s2, st2, c2),
        (badge_id(k) == "sempurna"@ || badge_id(k) == "kilat"@) && s1 == s2 ==> badge_earned(
            k,
            q1,
            s1,
            st1,
            c1,
        ) == badge_earned(k, q2, s2, st2, c2),
        badge_id(k) == "all_round"@ && c1 == c2 ==> badge_earned(k, q1, s1, st1, c1)
            == badge_earned(k, q2, s2, st2, c2),
{
    reveal_strlit("pemula");
    reveal_strlit("rajin");
    reveal_strlit("konsisten");
    reveal_strlit("sempurna");
    reveal_strlit("kilat");
    reveal_strlit("all_round");
    let ids = seq!["pemula"@, "rajin"@, "konsisten"@, "sempurna"@, "kilat"@, "all_round"@];
    assert forall|a: int, b: int| 0 <= a < b < 6 implies ids[a] != ids[b] by {
        if ids[a].len() == ids[b].len() {
            assert(ids[a][0] != ids[b][0]);
        }
    }
    assert(badge_id(k) == ids[k]);
}

} // verus!
