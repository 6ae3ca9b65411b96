//! Quiz sessions: random sessions, and the marking of completed sessions.
use vstd::prelude::*;
use vstd::multiset::Multiset;
use rand::seq::SliceRandom;
use crate::text::str_equal;

verus! {

// ---------------------------------------------------------------------------
// Marking answers
// ---------------------------------------------------------------------------

/// The option a stored correct answer names (`opt1` .. `opt5` are options 0
/// to 4); any other text names no option (999).
pub open spec fn answer_index_spec(correct: Seq<char>) -> i32 {
    if correct == "opt1"@ {
        0
    } else if correct == "opt2"@ {
        1
    } else if correct == "opt3"@ {
        2
    } else if correct == "opt4"@ {
        3
    } else if correct == "opt5"@ {
        4
    } else {
        999
    }
}

/// The option a stored correct answer names.
pub fn answer_index(correct: &str) -> (r: i32)
    ensures
        r == answer_index_spec(correct@),
{
    if str_equal(correct, "opt1") {
        0
    } else if str_equal(correct, "opt2") {
        1
    } else if str_equal(correct, "opt3") {
        2
    } else if str_equal(correct, "opt4") {
        3
    } else if str_equal(correct, "opt5") {
        4
    } else {
        999
    }
}

/// The user's answer to question `i`, if they answered it.
pub open spec fn answer_at(answers: Seq<Option<i32>>, i: int) -> Option<i32> {
    if 0 <= i < answers.len() {
        answers[i]
    } else {
        None
    }
}

/// The number of the first `n` questions whose correct answer (given by
/// `key`, `None` when unknown) the user answered, rightly (`right`) or
/// wrongly.
pub open spec fn count_marked(
    keys: Seq<Option<i32>>,
    answers: Seq<Option<i32>>,
    n: int,
    right: bool,
) -> int
    decreases n,
{
    if n <= 0 {
        0
    } else {
        count_marked(keys, answers, n - 1, right) + match (answer_at(answers, n - 1), keys[n - 1]) {
            (Some(a), Some(k)) => if (a == k) == right {
                1int
            } else {
                0int
            },
            _ => 0int,
        }
    }
}

proof fn lemma_count_marked_bound(keys: Seq<Option<i32>>, answers: Seq<Option<i32>>, n: int, right: bool)
    requires
        0 <= n,
    ensures
        0 <= count_marked(keys, answers, n, right) <= n,
    decreases n,
{
    if n > 0 {
        lemma_count_marked_bound(keys, answers, n - 1, right);
    }
}

/// Every answered question is marked right or wrong, never both.
pub proof fn lemma_marked_partition(keys: Seq<Option<i32>>, answers: Seq<Option<i32>>, n: int)
    requires
        0 <= n,
    ensures
        count_marked(keys, answers, n, true) + count_marked(keys, answers, n, false) <= n,
    decreases n,
{
    if n > 0 {
        lemma_marked_partition(keys, answers, n - 1);
    }
}

/// The numbers of right and wrong answers, question by question: question
/// `i` has the correct option `keys[i]` (`None` when it is unknown, and then
/// it is not marked) and the user's answer `answers[i]` (`None` or missing
/// when unanswered, not counted as wrong).
pub fn tally_answers(keys: &[Option<i32>], answers: &[Option<i32>]) -> (r: (i32, i32))
    requires
        keys@.len() <= i32::MAX,
    ensures
        r.0 == count_marked(keys@, answers@, keys@.len() as int, true),
        r.1 == count_marked(keys@, answers@, keys@.len() as int, false),
{
    let mut right: i32 = 0;
    let mut wrong: i32 = 0;
    let mut i: usize = 0;
    while i < keys.len()
        invariant
            i <= keys@.len() <= i32::MAX,
            right == count_marked(keys@, answers@, i as int, true),
            wrong == count_marked(keys@, answers@, i as int, false),
        decreases keys@.len() - i,
    {
        proof {
            lemma_count_marked_bound(keys@, answers@, i as int, true);
            lemma_count_marked_bound(keys@, answers@, i as int, false);
        }
        let a: Option<i32> = if i < answers.len() {
            answers[i]
        } else {
            None
        };
        match (a, keys[i]) {
            (Some(x), Some(k)) => {
                if x == k {
                    right = right + 1;
                } else {
                    wrong = wrong + 1;
                }
            },
            _ => {},
        }
        i = i + 1;
    }
    (right, wrong)
}

/// The correct options of a package's questions, in the package's order.
pub fn package_keys(correct: &[String]) -> (r: Vec<Option<i32>>)
    ensures
        r@.len() == correct@.len(),
        forall|i: int| 0 <= i < correct@.len() ==> #[trigger] r@[i] == Some(
            answer_index_spec(correct@[i]@),
        ),
{
    let mut r: Vec<Option<i32>> = Vec::new();
    let mut i: usize = 0;
    while i < correct.len()
        invariant
            i <= correct@.len(),
            r@.len() == i,
            forall|j: int| 0 <= j < i ==> #[trigger] r@[j] == Some(answer_index_spec(correct@[j]@)),
        decreases correct@.len() - i,
    {
        r.push(Some(answer_index(correct[i].as_str())));
        i = i + 1;
    }
    r
}

/// The stored correct answer of question `qid` among the rows read for a
/// random session (id and correct answer; rows without one are ignored, and
/// a later row for the same id wins).
pub open spec fn key_for(rows: Seq<(i32, Option<String>)>, qid: i32) -> Option<i32>
    decreases rows.len(),
{
    if rows.len() == 0 {
        None
    } else {
        let last = rows.last();
        if last.0 == qid && last.1 is Some {
            Some(answer_index_spec(last.1->0@))
        } else {
            key_for(rows.drop_last(), qid)
        }
    }
}

fn find_key(rows: &[(i32, Option<String>)], qid: i32) -> (r: Option<i32>)
    ensures
        r == key_for(rows@, qid),
{
    let mut k: usize = rows.len();
    assert(rows@.take(k as int) =~= rows@);
    while k > 0
        invariant
            k <= rows@.len(),
            key_for(rows@, qid) == key_for(rows@.take(k as int), qid),
        decreases k,
    {
        let row = &rows[k - 1];
        proof {
            assert(rows@.take(k as int).drop_last() =~= rows@.take(k - 1));
            assert(rows@.take(k as int).last() == rows@[k - 1]);
        }
        if row.0 == qid {
            if let Some(c) = &row.1 {
                return Some(answer_index(c.as_str()));
            }
        }
        k = k - 1;
    }
    None
}

/// The correct options of a random session's questions, in the session's
/// order, from the rows read for them.
pub fn session_keys(question_ids: &[i32], rows: &[(i32, Option<String>)]) -> (r: Vec<Option<i32>>)
    ensures
        r@.len() == question_ids@.len(),
        forall|i: int| 0 <= i < question_ids@.len() ==> #[trigger] r@[i] == key_for(rows@, question_ids@[i]),
{
    let mut r: Vec<Option<i32>> = Vec::new();
    let mut i: usize = 0;
    while i < question_ids.len()
        invariant
            i <= question_ids@.len(),
            r@.len() == i,
            forall|j: int| 0 <= j < i ==> #[trigger] r@[j] == key_for(rows@, question_ids@[j]),
        decreases question_ids@.len() - i,
    {
        r.push(find_key(rows, question_ids[i]));
        i = i + 1;
    }
    r
}

/// The questions of a history entry left unanswered: the total minus the
/// right and wrong answers, never below 0.
pub fn unanswered(total: i32, right: i32, wrong: i32) -> (r: i32)
    requires
        i32::MIN <= total - right <= i32::MAX,
        i32::MIN <= total - right - wrong <= i32::MAX,
    ensures
        r == if total - right - wrong > 0 {
            total - right - wrong
        } else {
            0
        },
{
    let u = total - right - wrong;
    if u > 0 {
        u
    } else {
        0
    }
}

// ---------------------------------------------------------------------------
// Random sessions
// ---------------------------------------------------------------------------

/// The name random sessions carry.
pub fn random_session_name() -> (r: &'static str)
    ensures
        r@ == "Latihan Random"@,
{
    "Latihan Random"
}

/// The seconds a random session grants per question.
pub const SECONDS_PER_QUESTION: i32 = 60;

/// The category of a random session: the requested one, or all categories.
pub fn random_session_category(category: &Option<String>) -> (r: String)
    ensures
        match category {
            Some(c) => r@ == c@,
            None => r@ == "Semua Kategori"@,
        },
{
    match category {
        Some(c) => c.clone(),
        None => "Semua Kategori".to_string(),
    }
}

/// The time of a random session of `count` questions, in seconds.
pub fn random_session_time(count: i32) -> (r: i32)
    requires
        i32::MIN <= count * SECONDS_PER_QUESTION <= i32::MAX,
    ensures
        r == count * SECONDS_PER_QUESTION,
{
    count * SECONDS_PER_QUESTION
}

/// `rand::seq::SliceRandom::shuffle` with the thread's generator: a random
/// permutation of the ids. The contract states only that it is a
/// permutation; which one comes out is up to chance.
#[verifier::external_body]
fn shuffle_ids(ids: &mut Vec<i32>)
    ensures
        final(ids)@.to_multiset() == old(ids)@.to_multiset(),
        final(ids)@.len() == old(ids)@.len(),
{
    let mut rng = rand::thread_rng();
    ids.shuffle(&mut rng);
}

/// The questions of a random session: `count` of the accessible ids, drawn
/// at random without repetition (all of them when there are fewer). The
/// result has the expected length and draws every id no more often than it
/// is accessible.
pub fn pick_random_questions(ids: Vec<i32>, count: usize) -> (r: Vec<i32>)
    ensures
        r@.len() == if count < ids@.len() {
            count as int
        } else {
            ids@.len() as int
        },
        r@.to_multiset().subset_of(ids@.to_multiset()),
{
    let mut v = ids;
    shuffle_ids(&mut v);
    let ghost shuffled = v@;
    let n = if count < v.len() {
        count
    } else {
        v.len()
    };
    let mut r: Vec<i32> = Vec::new();
    let mut i: usize = 0;
    while i < n
        invariant
            i <= n <= shuffled.len(),
            v@ == shuffled,
            r@ == shuffled.take(i as int),
        decreases n - i,
    {
        r.push(v[i]);
        i = i + 1;
        assert(shuffled.take(i as int) =~= shuffled.take(i - 1).push(shuffled[i - 1]));
    }
    proof {
        lemma_take_sub_multiset(shuffled, n as int);
    }
    r
}

proof fn lemma_take_sub_multiset(s: Seq<i32>, n: int)
    requires
        0 <= n <= s.len(),
    ensures
        s.take(n).to_multiset().subset_of(s.to_multiset()),
{
    assert(s =~= s.take(n) + s.skip(n));
    vstd::seq_lib::lemma_multiset_commutative(s.take(n), s.skip(n));
    assert(s.to_multiset() == s.take(n).to_multiset().add(s.skip(n).to_multiset()));
}

/// The position of the last row with this id, if any.
pub open spec fn last_row_of(row_ids: Seq<i32>, id: i32) -> Option<int>
    decreases row_ids.len(),
{
    if row_ids.len() == 0 {
        None
    } else if row_ids.last() == id {
        Some(row_ids.len() - 1)
    } else {
        last_row_of(row_ids.drop_last(), id)
    }
}

fn find_last_row(row_ids: &[i32], id: i32) -> (r: Option<usize>)
    ensures
        match last_row_of(row_ids@, id) {
            None => r is None,
            Some(k) => r matches Some(x) && x == k,
        },
{
    let mut k: usize = row_ids.len();
    assert(row_ids@.take(k as int) =~= row_ids@);
    while k > 0
        invariant
            k <= row_ids@.len(),
            last_row_of(row_ids@, id) == last_row_of(row_ids@.take(k as int), id),
        decreases k,
    {
        proof {
            assert(row_ids@.take(k as int).drop_last() =~= row_ids@.take(k - 1));
        }
        if row_ids[k - 1] == id {
            return Some(k - 1);
        }
        k = k - 1;
    }
    None
}

/// The rows of the fetched questions in the order the ids were drawn
/// (positions in `row_ids`), skipping ids with no row; a later row with the
/// same id wins.
pub open spec fn arranged_spec(selected: Seq<i32>, row_ids: Seq<i32>) -> Seq<int>
    decreases selected.len(),
{
    if selected.len() == 0 {
        seq![]
    } else {
        let head = arranged_spec(selected.drop_last(), row_ids);
        match last_row_of(row_ids, selected.last()) {
            Some(k) => head.push(k),
            None => head,
        }
    }
}

/// The positions of the fetched rows in the order the ids were drawn.
pub fn arrange_by_ids(selected: &[i32], row_ids: &[i32]) -> (r: Vec<usize>)
    ensures
        r@.len() == arranged_spec(selected@, row_ids@).len(),
        forall|i: int| 0 <= i < r@.len() ==> r@[i] as int == #[trigger] arranged_spec(selected@, row_ids@)[i],
{
    let mut r: Vec<usize> = Vec::new();
    let mut i: usize = 0;
    while i < selected.len()
        invariant
            i <= selected@.len(),
            r@.len() == arranged_spec(selected@.take(i as int), row_ids@).len(),
            forall|j: int| 0 <= j < r@.len() ==> r@[j] as int == #[trigger] arranged_spec(selected@.take(i as int), row_ids@)[j],
        decreases selected@.len() - i,
    {
        proof {
            assert(selected@.take(i + 1).drop_last() =~= selected@.take(i as int));
        }
        match find_last_row(row_ids, selected[i]) {
            Some(k) => r.push(k),
            None => {},
        }
        i = i + 1;
    }
    assert(selected@.take(selected@.len() as int) =~= selected@);
    r
}


// ---------------------------------------------------------------------------
// Completing a session
// ---------------------------------------------------------------------------

/// The list of integers a JSON text holds, or `None` when it holds no such
/// list.
pub uninterp spec fn json_int_list(text: Seq<char>) -> Option<Seq<i32>>;

/// `serde_json::from_str::<Vec<i32>>`. The result is named by
/// `json_int_list`; the JSON grammar is left to the name.
#[verifier::external_body]
fn parse_id_list(text: &str) -> (r: Option<Vec<i32>>)
    ensures
        match json_int_list(text@) {
            None => r is None,
            Some(l) => r matches Some(v) && v@ == l,
        },
{
    serde_json::from_str::<Vec<i32>>(text).ok()
}

/// How a completed session is marked.
#[derive(Debug)]
pub enum MarkingSource {
    /// A random session: by the question ids stored with it, in order.
    ByIds(Vec<i32>),
    /// A standard session: by the questions of its package, in order.
    ByPackage,
}

/// How a completed session is marked, as the question ids it is marked by:
/// `None` for a session marked by its package (any type but `random`), else
/// the stored ids (none when they are missing or unreadable).
pub open spec fn marking_ids_spec(session_type: Seq<char>, question_ids: Option<Seq<char>>) -> Option<
    Seq<i32>,
> {
    if session_type != "random"@ {
        None
    } else {
        Some(
            match question_ids {
                None => Seq::<i32>::empty(),
                Some(t) => match json_int_list(t) {
                    Some(l) => l,
                    None => Seq::<i32>::empty(),
                },
            },
        )
    }
}

/// How a completed session is marked: a `random` session by its stored
/// question ids (none when they are missing or unreadable), any other by its
/// package.
pub fn marking_source(session_type: &str, question_ids: &Option<String>) -> (r: MarkingSource)
    ensures
        (match r {
            MarkingSource::ByPackage => None,
            MarkingSource::ByIds(v) => Some(v@),
        }) == marking_ids_spec(
            session_type@,
            match question_ids {
                None => None,
                Some(t) => Some(t@),
            },
        ),
{
    if !str_equal(session_type, "random") {
        return MarkingSource::ByPackage;
    }
    let ids = match question_ids {
        None => Vec::new(),
        Some(t) => match parse_id_list(t.as_str()) {
            Some(v) => v,
            None => Vec::new(),
        },
    };
    MarkingSource::ByIds(ids)
}

/// The JSON text that serde_json writes for a list of integers.
pub uninterp spec fn json_of_int_list(ids: Seq<i32>) -> Seq<char>;

/// `serde_json::to_string::<Vec<i32>>`. The text is named by
/// `json_of_int_list`. serde_json documents that serialisation fails only
/// when a `Serialize` impl decides to or a map has non-string keys, neither of
/// which a list of integers has, so the call succeeds; and what it writes
/// reads back (`serde_json::from_str`) as the same list.
#[verifier::external_body]
fn write_id_list(ids: &Vec<i32>) -> (r: Result<String, String>)
    ensures
        r is Ok,
        r->Ok_0@ == json_of_int_list(ids@),
        json_int_list(r->Ok_0@) == Some(ids@),
{
    serde_json::to_string(ids).map_err(|e| e.to_string())
}

/// The text under which a random session's question ids are stored: their
/// JSON list (`[]` should writing fail).
pub fn session_ids_json(ids: &Vec<i32>) -> (r: String)
    ensures
        r@ == json_of_int_list(ids@),
        json_int_list(r@) == Some(ids@),
{
    match write_id_list(ids) {
        Ok(s) => s,
        Err(_) => "[]".to_string(),
    }
}

/// A random session is marked by the very questions it was started with, in
/// their order: the ids stored when it starts read back unchanged when it
/// completes.
pub proof fn lemma_random_session_marks_its_questions(selected: Seq<i32>, stored: String)
    requires
        stored@ == json_of_int_list(selected),
        json_int_list(stored@) == Some(selected),
    ensures
        marking_ids_spec("random"@, Some(stored@)) == Some(selected),
{
}

/// The sizes a random session may have: 10, 20 or 30 questions.
pub open spec fn random_count_ok(count: u32) -> bool {
    count == 10 || count == 20 || count == 30
}

/// Whether a random session may have this many questions.
pub fn valid_random_count(count: u32) -> (r: bool)
    ensures
        r == random_count_ok(count),
{
    count == 10 || count == 20 || count == 30
}

/// `part` when `present`, else nothing.
pub open spec fn optional_part(present: bool, part: Seq<char>) -> Seq<char> {
    if present {
        part
    } else {
        Seq::<char>::empty()
    }
}

/// The statement that saves the progress of an open session: the update
/// time always, then the current question, the answers, the marked questions
/// and the time remaining, each only when the request gives it (values bound
/// in that order, then the session's and the user's id).
pub open spec fn progress_update_sql_spec(
    current_question: bool,
    answers: bool,
    marked: bool,
    time_remaining: bool,
) -> Seq<char> {
    "UPDATE quiz_sessions SET updated_at = ?"@ + optional_part(current_question, ", current_question = ?"@)
        + optional_part(answers, ", answers = ?"@) + optional_part(marked, ", marked_questions = ?"@)
        + optional_part(time_remaining, ", time_remaining = ?"@)
        + " WHERE id = ? AND user_id = ? AND is_completed = FALSE"@
}

/// The statement that saves the given parts of a session's progress.
pub fn progress_update_sql(current_question: bool, answers: bool, marked: bool, time_remaining: bool) -> (r:
    String)
    ensures
        r@ == progress_update_sql_spec(current_question, answers, marked, time_remaining),
{
    let mut v = crate::text::chars_of("UPDATE quiz_sessions SET updated_at = ?");
    let ghost s0 = v@;
    if current_question {
        crate::text::push_str(&mut v, ", current_question = ?");
    }
    let ghost s1 = v@;
    assert(s1 == s0 + optional_part(current_question, ", current_question = ?"@));
    if answers {
        crate::text::push_str(&mut v, ", answers = ?");
    }
    let ghost s2 = v@;
    assert(s2 == s1 + optional_part(answers, ", answers = ?"@));
    if marked {
        crate::text::push_str(&mut v, ", marked_questions = ?");
    }
    let ghost s3 = v@;
    assert(s3 == s2 + optional_part(marked, ", marked_questions = ?"@));
    if time_remaining {
        crate::text::push_str(&mut v, ", time_remaining = ?");
    }
    let ghost s4 = v@;
    assert(s4 == s3 + optional_part(time_remaining, ", time_remaining = ?"@));
    crate::text::push_str(&mut v, " WHERE id = ? AND user_id = ? AND is_completed = FALSE");
    assert(v@ =~= progress_update_sql_spec(current_question, answers, marked, time_remaining));
    crate::text::string_from_chars(v.as_slice())
}

} // verus!
