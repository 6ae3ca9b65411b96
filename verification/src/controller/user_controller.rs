//! The signed-in user's own data: phone number, XP, recommendations.
use vstd::prelude::*;
use crate::text::{str_len, byte_len, str_equal};
use crate::levels::{level_info, threshold, LevelInfo, LEVEL_COUNT, is_current_level};
use crate::controller::{parse_u32, parse_u32_spec};

verus! {

/// The body of an error answer.
#[derive(Debug)]
pub struct ErrorResponse {
    pub error: String,
}

/// The shortest and the longest phone number, in bytes.
pub const PHONE_MIN_BYTES: usize = 10;
pub const PHONE_MAX_BYTES: usize = 15;

/// Whether a phone number has an acceptable length: 10 to 15 bytes.
pub open spec fn phone_number_ok(p: Seq<char>) -> bool {
    PHONE_MIN_BYTES <= str_len(p) <= PHONE_MAX_BYTES
}

/// Checks a new phone number; a number of the wrong length is refused with
/// 400 and this message.
pub fn validate_phone_number(p: &str) -> (r: Result<(), &'static str>)
    ensures
        phone_number_ok(p@) ==> r is Ok,
        !phone_number_ok(p@) ==> (r matches Err(m) && m@
            == "Invalid phone number format. Phone number should be between 10 and 15 digits."@),
{
    let n = byte_len(p);
    if n < PHONE_MIN_BYTES || n > PHONE_MAX_BYTES {
        Err("Invalid phone number format. Phone number should be between 10 and 15 digits.")
    } else {
        Ok(())
    }
}

// ---------------------------------------------------------------------------
// XP
// ---------------------------------------------------------------------------

/// A user's XP status (the application adds the progress as a fraction and
/// the global rank).
#[derive(Debug)]
pub struct XpStatus {
    pub info: LevelInfo,
    /// The XP earned since the current level was reached.
    pub xp_in_level: i64,
    /// The XP still missing to the next level, if there is one.
    pub xp_to_next_level: Option<i64>,
}

/// A user's XP status from their total XP.
pub fn xp_status(total_xp: i64) -> (r: XpStatus)
    requires
        total_xp >= i64::MIN + threshold(LEVEL_COUNT - 1),
    ensures
        is_current_level(total_xp as int, r.info.current.level - 1),
        r.xp_in_level == total_xp - threshold(r.info.current.level - 1),
        r.info.next is None <==> r.xp_to_next_level is None,
        r.info.next matches Some(n) ==> r.xp_to_next_level == Some((n.total_xp_required - total_xp) as i64),
        r.info.next matches Some(n) ==> n.total_xp_required == threshold(r.info.current.level as int),
{
    let info = level_info(total_xp);
    let in_level = total_xp - info.current.total_xp_required;
    let to_next = match &info.next {
        Some(n) => Some(n.total_xp_required - total_xp),
        None => None,
    };
    XpStatus { info, xp_in_level: in_level, xp_to_next_level: to_next }
}

/// The paging of the XP history.
#[derive(Debug, Clone, Copy, PartialEq, Eq, Structural)]
pub struct XpPaging {
    pub page: u32,
    pub limit: u32,
    pub offset: u32,
}

/// A page parameter: its value when it parses as an unsigned 32-bit number,
/// else the default.
pub open spec fn param_or(text: Option<Seq<char>>, default: u32) -> u32 {
    match text {
        Some(t) => match parse_u32_spec(t) {
            Some(v) => v,
            None => default,
        },
        None => default,
    }
}

/// The paging of the XP history from the query's `page` and `limit`: page
/// at least 1 (default 1), limit between 1 and 100 (default 20).
pub open spec fn xp_paging_spec(page: Option<Seq<char>>, limit: Option<Seq<char>>) -> (int, int) {
    let p = param_or(page, 1);
    let l = param_or(limit, 20);
    (
        if p < 1 {
            1
        } else {
            p as int
        },
        if l > 100 {
            100
        } else if l < 1 {
            1
        } else {
            l as int
        },
    )
}

/// The paging of the XP history.
pub fn xp_paging(page: Option<&str>, limit: Option<&str>) -> (r: XpPaging)
    requires
        ({
            let (p, l) = xp_paging_spec(
                match page {
                    Some(t) => Some(t@),
                    None => None,
                },
                match limit {
                    Some(t) => Some(t@),
                    None => None,
                },
            );
            (p - 1) * l <= u32::MAX
        }),
    ensures
        (r.page as int, r.limit as int) == xp_paging_spec(
            match page {
                Some(t) => Some(t@),
                None => None,
            },
            match limit {
                Some(t) => Some(t@),
                None => None,
            },
        ),
        r.offset == (r.page - 1) * r.limit,
{
    let p0 = match page {
        Some(t) => match parse_u32(t) {
            Some(v) => v,
            None => 1,
        },
        None => 1,
    };
    let l0 = match limit {
        Some(t) => match parse_u32(t) {
            Some(v) => v,
            None => 20,
        },
        None => 20,
    };
    let p = if p0 < 1 {
        1
    } else {
        p0
    };
    let l = if l0 > 100 {
        100
    } else if l0 < 1 {
        1
    } else {
        l0
    };
    XpPaging { page: p, limit: l, offset: (p - 1) * l }
}

/// The number of pages of the XP history: 1 when it is empty, else the
/// total (as an unsigned 32-bit number) divided by the limit, rounded up.
pub fn xp_total_pages(total: i64, limit: u32) -> (r: u32)
    requires
        1 <= limit,
        total != 0 ==> (total as u32) + limit <= u32::MAX,
    ensures
        total == 0 ==> r == 1,
        total != 0 ==> r == ((total as u32) + limit - 1) / (limit as int),
{
    if total == 0 {
        1
    } else {
        let t: u32 = #[verifier::truncate] (total as u32);
        (t + limit - 1) / limit
    }
}

// ---------------------------------------------------------------------------
// Recommendations
// ---------------------------------------------------------------------------

/// The category of questions that serves an onboarding goal, if any: `cpns`
/// CPNS, `pppk` PPPK, `snbt` and `masuk_ptn` UTBK, `beasiswa` BEASISWA,
/// `kedinasan` KEDINASAN, `upkp` UPKP.
pub open spec fn goal_category(goal: Seq<char>) -> Option<Seq<char>> {
    if goal == "cpns"@ {
        Some("CPNS"@)
    } else if goal == "pppk"@ {
        Some("PPPK"@)
    } else if goal == "snbt"@ || goal == "masuk_ptn"@ {
        Some("UTBK"@)
    } else if goal == "beasiswa"@ {
        Some("BEASISWA"@)
    } else if goal == "kedinasan"@ {
        Some("KEDINASAN"@)
    } else if goal == "upkp"@ {
        Some("UPKP"@)
    } else {
        None
    }
}

/// A text with its ASCII lower-case letters turned to capitals.
pub open spec fn ascii_upper(s: Seq<char>) -> Seq<char> {
    s.map_values(|c: char| if 'a' <= c <= 'z' { ((c as int) - 32) as char } else { c })
}

/// Each goal leads to the category named after it, in capitals, except the
/// two university-entrance goals (`snbt`, `masuk_ptn`) that share UTBK: the
/// goals `cpns`, `pppk`, `beasiswa`, `kedinasan` and `upkp` have categories,
/// and no other goal's category is named after a goal other than itself.
pub proof fn lemma_goal_names_its_category(goal: Seq<char>)
    ensures
        goal_category(goal) matches Some(c) ==> (c == ascii_upper(goal) || (c == "UTBK"@ && (
        goal == "snbt"@ || goal == "masuk_ptn"@))),
        (goal == "cpns"@ || goal == "pppk"@ || goal == "beasiswa"@ || goal == "kedinasan"@ || goal
            == "upkp"@) ==> goal_category(goal) == Some(ascii_upper(goal)),
        (goal == "snbt"@ || goal == "masuk_ptn"@) ==> goal_category(goal) == Some("UTBK"@),
{
    reveal_strlit("cpns");
    reveal_strlit("CPNS");
    reveal_strlit("pppk");
    reveal_strlit("PPPK");
    reveal_strlit("beasiswa");
    reveal_strlit("BEASISWA");
    reveal_strlit("kedinasan");
    reveal_strlit("KEDINASAN");
    reveal_strlit("upkp");
    reveal_strlit("UPKP");
    reveal_strlit("snbt");
    reveal_strlit("masuk_ptn");
    assert(ascii_upper("cpns"@) =~= "CPNS"@);
    assert(ascii_upper("pppk"@) =~= "PPPK"@);
    assert(ascii_upper("beasiswa"@) =~= "BEASISWA"@);
    assert(ascii_upper("kedinasan"@) =~= "KEDINASAN"@);
    assert(ascii_upper("upkp"@) =~= "UPKP"@);
    assert("cpns"@[0] != "pppk"@[0]);
    assert("snbt"@[0] != "cpns"@[0] && "snbt"@[0] != "pppk"@[0]);
    assert("masuk_ptn"@.len() != "cpns"@.len() && "masuk_ptn"@.len() != "pppk"@.len());
    assert("beasiswa"@.len() != "cpns"@.len() && "beasiswa"@.len() != "snbt"@.len()
        && "beasiswa"@.len() != "masuk_ptn"@.len());
    assert("kedinasan"@[0] != "masuk_ptn"@[0] && "kedinasan"@.len() != "cpns"@.len()
        && "kedinasan"@.len() != "beasiswa"@.len() && "kedinasan"@.len() != "snbt"@.len());
    assert("upkp"@[0] != "cpns"@[0] && "upkp"@[0] != "pppk"@[0] && "upkp"@[0] != "snbt"@[0]);
}

fn category_of_goal(goal: &str) -> (r: Option<&'static str>)
    ensures
        match goal_category(goal@) {
            None => r is None,
            Some(c) => r matches Some(x) && x@ == c,
        },
{
    if str_equal(goal, "cpns") {
        Some("CPNS")
    } else if str_equal(goal, "pppk") {
        Some("PPPK")
    } else if str_equal(goal, "snbt") || str_equal(goal, "masuk_ptn") {
        Some("UTBK")
    } else if str_equal(goal, "beasiswa") {
        Some("BEASISWA")
    } else if str_equal(goal, "kedinasan") {
        Some("KEDINASAN")
    } else if str_equal(goal, "upkp") {
        Some("UPKP")
    } else {
        None
    }
}

/// The categories serving a list of goals, each once, in the order they
/// first appear.
pub open spec fn goal_categories(goals: Seq<Seq<char>>) -> Seq<Seq<char>>
    decreases goals.len(),
{
    if goals.len() == 0 {
        seq![]
    } else {
        let prev = goal_categories(goals.drop_last());
        match goal_category(goals.last()) {
            Some(c) => if prev.contains(c) {
                prev
            } else {
                prev.push(c)
            },
            None => prev,
        }
    }
}

/// The goals that have a category, in order.
pub open spec fn matched_goals(goals: Seq<Seq<char>>) -> Seq<Seq<char>> {
    goals.filter(|g: Seq<char>| goal_category(g) is Some)
}

/// The texts of a list of string slices.
pub open spec fn str_views(v: Seq<&'static str>) -> Seq<Seq<char>> {
    v.map_values(|x: &'static str| x@)
}

fn contains_text(v: &Vec<&'static str>, c: &str) -> (r: bool)
    ensures
        r == str_views(v@).contains(c@),
{
    let mut k: usize = 0;
    while k < v.len()
        invariant
            k <= v@.len(),
            forall|a: int| 0 <= a < k ==> (#[trigger] v@[a])@ != c@,
        decreases v@.len() - k,
    {
        if str_equal(v[k], c) {
            assert(str_views(v@)[k as int] == c@);
            return true;
        }
        k = k + 1;
    }
    proof {
        if str_views(v@).contains(c@) {
            let a = choose|a: int| 0 <= a < v@.len() && #[trigger] str_views(v@)[a] == c@;
            assert(v@[a]@ != c@);
        }
    }
    false
}

/// The recommendation of a user's goals: the categories that serve them,
/// each once (in the order they first appear; the categories form a set and
/// their order does not matter), and the goals that have a category, in
/// order.
pub fn recommendation_basis(goals: &[String]) -> (r: (Vec<&'static str>, Vec<String>))
    ensures
        r.0@.map_values(|c: &'static str| c@) == goal_categories(goals@.map_values(|g: String| g@)),
        r.1@.map_values(|g: String| g@) == matched_goals(goals@.map_values(|g: String| g@)),
{
    let mut cats: Vec<&'static str> = Vec::new();
    let mut matched: Vec<String> = Vec::new();
    let mut i: usize = 0;
    while i < goals.len()
        invariant
            i <= goals@.len(),
            cats@.map_values(|c: &'static str| c@) == goal_categories(
                goals@.take(i as int).map_values(|g: String| g@),
            ),
            matched@.map_values(|g: String| g@) == matched_goals(
                goals@.take(i as int).map_values(|g: String| g@),
            ),
        decreases goals@.len() - i,
    {
        let g = &goals[i];
        let ghost prev = goals@.take(i as int).map_values(|g: String| g@);
        let ghost pushed = goals@.take(i + 1).map_values(|g: String| g@);
        proof {
            assert(pushed =~= prev.push(goals@[i as int]@));
            assert(pushed.drop_last() =~= prev);
            reveal(Seq::filter);
        }
        match category_of_goal(g.as_str()) {
            Some(c) => {
                let seen = contains_text(&cats, c);
                if !seen {
                    let ghost before = cats@;
                    cats.push(c);
                    assert(cats@.map_values(|c: &'static str| c@) =~= before.map_values(
                        |c: &'static str| c@,
                    ).push(c@));
                }
                let ghost before = matched@;
                matched.push(g.clone());
                assert(matched@.map_values(|g: String| g@) =~= before.map_values(|g: String| g@).push(
                    goals@[i as int]@,
                ));
            },
            None => {},
        }
        i = i + 1;
    }
    assert(goals@.take(goals@.len() as int) =~= goals@);
    (cats, matched)
}

/// The goals stored as a JSON list of texts, or `None` when the text holds
/// no such list.
pub uninterp spec fn json_text_list(text: Seq<char>) -> Option<Seq<Seq<char>>>;

/// `serde_json::from_str::<Vec<String>>`. The result is named by
/// `json_text_list`; the JSON grammar is left to the name.
#[verifier::external_body]
fn parse_text_list(text: &str) -> (r: Option<Vec<String>>)
    ensures
        match json_text_list(text@) {
            None => r is None,
            Some(l) => r matches Some(v) && v@.map_values(|s: String| s@) == l,
        },
{
    serde_json::from_str::<Vec<String>>(text).ok()
}

/// A user's onboarding goals from their stored text: the JSON list, none
/// when absent or unreadable.
pub open spec fn stored_goals_spec(text: Option<Seq<char>>) -> Seq<Seq<char>> {
    match text {
        None => Seq::<Seq<char>>::empty(),
        Some(t) => match json_text_list(t) {
            Some(l) => l,
            None => Seq::<Seq<char>>::empty(),
        },
    }
}

/// A user's onboarding goals: the stored JSON list, none when absent or
/// unreadable.
pub fn stored_goals(text: &Option<String>) -> (r: Vec<String>)
    ensures
        r@.map_values(|s: String| s@) == stored_goals_spec(
            match text {
                None => None,
                Some(t) => Some(t@),
            },
        ),
{
    match text {
        None => {
            let v: Vec<String> = Vec::new();
            assert(v@.map_values(|s: String| s@) =~= Seq::<Seq<char>>::empty());
            v
        },
        Some(t) => match parse_text_list(t.as_str()) {
            Some(v) => v,
            None => {
                let v: Vec<String> = Vec::new();
                assert(v@.map_values(|s: String| s@) =~= Seq::<Seq<char>>::empty());
                v
            },
        },
    }
}

/// The JSON text that serde_json writes for a list of texts.
pub uninterp spec fn json_of_text_list(items: Seq<Seq<char>>) -> Seq<char>;

/// The texts of a list of strings.
pub open spec fn texts(v: Seq<String>) -> Seq<Seq<char>> {
    v.map_values(|s: String| s@)
}

/// `serde_json::to_string::<Vec<String>>`. The text is named by
/// `json_of_text_list`. serde_json documents that serialisation fails only
/// when a `Serialize` impl decides to or a map has non-string keys, neither of
/// which a list of strings has, so the call succeeds; and what it writes reads
/// back (`serde_json::from_str`) as the same list.
#[verifier::external_body]
fn write_text_list(items: &Vec<String>) -> (r: Result<String, String>)
    ensures
        r is Ok,
        r->Ok_0@ == json_of_text_list(texts(items@)),
        json_text_list(r->Ok_0@) == Some(texts(items@)),
{
    serde_json::to_string(items).map_err(|e| e.to_string())
}

/// The text under which a user's onboarding goals are stored: their JSON list.
pub fn onboarding_goals_json(goals: &Vec<String>) -> (r: String)
    ensures
        r@ == json_of_text_list(texts(goals@)),
        json_text_list(r@) == Some(texts(goals@)),
{
    match write_text_list(goals) {
        Ok(s) => s,
        Err(_) => {
            // The call's contract rules this out.
            String::new()
        },
    }
}

/// Saved goals read back unchanged: what onboarding stores is what the
/// recommendations read as the user's goals.
pub proof fn lemma_goals_read_back(goals: Seq<String>, stored: String)
    requires
        stored@ == json_of_text_list(texts(goals)),
        json_text_list(stored@) == Some(texts(goals)),
    ensures
        stored_goals_spec(Some(stored@)) == texts(goals),
{
}

} // verus!
