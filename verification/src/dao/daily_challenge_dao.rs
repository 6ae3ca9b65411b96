//! The daily challenge: one question a day, scored by correctness and speed,
//! with streaks of consecutive days answered correctly.
//!
//! Dates are handled as day numbers (days since 1970-01-01); the application
//! converts the database's dates to and from them.
use vstd::prelude::*;
use crate::text::str_equal;

verus! {

/// Integer division truncating toward zero, as Rust's `/` on signed integers.
pub open spec fn trunc_div(a: int, b: int) -> int
    recommends
        b > 0,
{
    if a >= 0 {
        a / b
    } else {
        -((-a) / b)
    }
}

/// The score of an answer: 0 when wrong; when right, 1000 less 10 points per
/// full second taken, but never below 100.
pub open spec fn calc_score_spec(is_correct: bool, time_taken_ms: int) -> int {
    if !is_correct {
        0
    } else {
        let s = 1000 - trunc_div(time_taken_ms, 1000) * 10;
        if s < 100 {
            100
        } else {
            s
        }
    }
}

/// Scores an answer to the daily challenge.
pub fn calc_score(is_correct: bool, time_taken_ms: i32) -> (score: i32)
    ensures
        score == calc_score_spec(is_correct, time_taken_ms as int),
{
    if !is_correct {
        return 0;
    }
    let seconds: i32 = if time_taken_ms >= 0 {
        time_taken_ms / 1000
    } else {
        -((-(time_taken_ms as i64) / 1000) as i32)
    };
    let deduction = seconds * 10;
    let s = 1000 - deduction;
    if s < 100 {
        100
    } else {
        s
    }
}

/// A correct answer scores between 100 and 1000 points; a wrong one none.
pub proof fn lemma_score_bounds(is_correct: bool, time_taken_ms: int)
    requires
        time_taken_ms >= 0,
    ensures
        is_correct ==> 100 <= calc_score_spec(is_correct, time_taken_ms) <= 1000,
        !is_correct ==> calc_score_spec(is_correct, time_taken_ms) == 0,
{
}

/// Answering faster never scores less.
pub proof fn lemma_faster_scores_no_less(t1: int, t2: int)
    requires
        0 <= t1 <= t2,
    ensures
        calc_score_spec(true, t1) >= calc_score_spec(true, t2),
{
    assert(t1 / 1000 <= t2 / 1000) by (nonlinear_arith)
        requires
            0 <= t1 <= t2,
    ;
}

/// An answer within the first second scores the full 1000 points.
pub proof fn lemma_first_second_full_score(t: int)
    requires
        0 <= t < 1000,
    ensures
        calc_score_spec(true, t) == 1000,
{
}

/// The 1-based option that a stored correct answer (`opt1` to `opt5`) names;
/// anything else counts as option 1.
pub open spec fn correct_option_spec(stored: Seq<char>) -> i8 {
    if stored == "opt1"@ {
        1
    } else if stored == "opt2"@ {
        2
    } else if stored == "opt3"@ {
        3
    } else if stored == "opt4"@ {
        4
    } else if stored == "opt5"@ {
        5
    } else {
        1
    }
}

/// The 1-based option that a stored correct answer names.
pub fn correct_option(stored: &str) -> (r: i8)
    ensures
        r == correct_option_spec(stored@),
{
    if str_equal(stored, "opt1") {
        1
    } else if str_equal(stored, "opt2") {
        2
    } else if str_equal(stored, "opt3") {
        3
    } else if str_equal(stored, "opt4") {
        4
    } else if str_equal(stored, "opt5") {
        5
    } else {
        1
    }
}

/// The stored answer key of option `k`: `opt` followed by the digit `k`.
pub open spec fn option_key(k: int) -> Seq<char> {
    "opt"@.push(('0' as int + k) as char)
}

/// The stored key `opt<k>` names option `k`, for each of the five options: a
/// user who chooses the option that the key names is graded right, and one who
/// chooses any other option is graded wrong.
pub proof fn lemma_key_names_its_option(k: int, selected: int)
    requires
        1 <= k <= 5,
    ensures
        correct_option_spec(option_key(k)) == k,
        (selected == correct_option_spec(option_key(k))) <==> selected == k,
{
    reveal_strlit("opt");
    reveal_strlit("opt1");
    reveal_strlit("opt2");
    reveal_strlit("opt3");
    reveal_strlit("opt4");
    reveal_strlit("opt5");
    if k == 1 {
        assert(option_key(k) =~= "opt1"@);
    } else if k == 2 {
        assert(option_key(k) =~= "opt2"@);
        assert(option_key(k)[3] != "opt1"@[3]);
    } else if k == 3 {
        assert(option_key(k) =~= "opt3"@);
        assert(option_key(k)[3] != "opt1"@[3]);
        assert(option_key(k)[3] != "opt2"@[3]);
    } else if k == 4 {
        assert(option_key(k) =~= "opt4"@);
        assert(option_key(k)[3] != "opt1"@[3]);
        assert(option_key(k)[3] != "opt2"@[3]);
        assert(option_key(k)[3] != "opt3"@[3]);
    } else {
        assert(option_key(k) =~= "opt5"@);
        assert(option_key(k)[3] != "opt1"@[3]);
        assert(option_key(k)[3] != "opt2"@[3]);
        assert(option_key(k)[3] != "opt3"@[3]);
        assert(option_key(k)[3] != "opt4"@[3]);
    }
}

/// Why a submission was refused.
#[derive(Debug, Clone, Copy, PartialEq, Eq)]
pub enum SubmissionError {
    /// The chosen option is not 1 to 5.
    AnswerOutOfRange,
    /// The time taken is negative.
    NegativeTime,
}

/// A submission is accepted when the chosen option is 1 to 5 and the time
/// taken is not negative; the option is checked first.
pub fn check_submission(selected_answer: i8, time_taken_ms: i32) -> (r: Result<(), SubmissionError>)
    ensures
        (selected_answer < 1 || selected_answer > 5) ==> r == Err::<(), SubmissionError>(
            SubmissionError::AnswerOutOfRange,
        ),
        (1 <= selected_answer <= 5 && time_taken_ms < 0) ==> r == Err::<(), SubmissionError>(
            SubmissionError::NegativeTime,
        ),
        (1 <= selected_answer <= 5 && time_taken_ms >= 0) ==> r is Ok,
{
    if selected_answer < 1 || selected_answer > 5 {
        return Err(SubmissionError::AnswerOutOfRange);
    }
    if time_taken_ms < 0 {
        return Err(SubmissionError::NegativeTime);
    }
    Ok(())
}

/// Grades an answer: right when it is the stored correct option, and scored
/// by `calc_score`.
pub fn grade_attempt(selected_answer: i8, stored_correct: &str, time_taken_ms: i32) -> (r: (
    bool,
    i32,
))
    ensures
        r.0 == (selected_answer == correct_option_spec(stored_correct@)),
        r.1 == calc_score_spec(r.0, time_taken_ms as int),
{
    let correct = correct_option(stored_correct);
    let is_correct = selected_answer == correct;
    (is_correct, calc_score(is_correct, time_taken_ms))
}

/// A graded answer to a day's challenge.
#[derive(Debug, Clone, Copy, PartialEq, Eq)]
pub struct AttemptGrade {
    pub selected_answer: i8,
    pub is_correct: bool,
    pub time_taken_ms: i32,
    pub score: i32,
}

/// The next step of a submission.
#[derive(Debug, Clone, Copy, PartialEq, Eq)]
pub enum SubmitStep {
    /// The attempt that stands, and whether it was recorded by this
    /// submission.
    Answered(AttemptGrade, bool),
    /// Fetch the stored correct answer of the day's question.
    FetchCorrectAnswer,
}

/// The first step of a submission, from the user's attempt at the day's
/// challenge if one is recorded. Submitting is idempotent: an existing attempt
/// stands unchanged and is answered as not new, whatever the new submission
/// chose.
pub fn begin_submit(existing: Option<AttemptGrade>) -> (r: SubmitStep)
    ensures
        r == (match existing {
            Some(a) => SubmitStep::Answered(a, false),
            None => SubmitStep::FetchCorrectAnswer,
        }),
{
    match existing {
        Some(a) => SubmitStep::Answered(a, false),
        None => SubmitStep::FetchCorrectAnswer,
    }
}

/// The attempt recorded for a first submission, once the stored correct
/// answer is known.
pub fn finish_submit(selected_answer: i8, stored_correct: &str, time_taken_ms: i32) -> (r: SubmitStep)
    ensures
        ({
            let is_correct = selected_answer == correct_option_spec(stored_correct@);
            r == SubmitStep::Answered(
                AttemptGrade {
                    selected_answer,
                    is_correct,
                    time_taken_ms,
                    score: calc_score_spec(is_correct, time_taken_ms as int) as i32,
                },
                true,
            )
        }),
{
    let (is_correct, score) = grade_attempt(selected_answer, stored_correct, time_taken_ms);
    SubmitStep::Answered(AttemptGrade { selected_answer, is_correct, time_taken_ms, score }, true)
}

/// The day number (days since 1970-01-01) of a moment given in seconds since
/// the epoch, in Western Indonesian Time (UTC+7).
pub open spec fn wib_day_spec(unix_seconds: int) -> int {
    (unix_seconds + 7 * 3600) / 86400
}

/// Today's date in Western Indonesian Time, as a day number.
pub fn wib_day(unix_seconds: i64) -> (day: i64)
    requires
        unix_seconds <= i64::MAX - 25200,
    ensures
        day == wib_day_spec(unix_seconds as int),
{
    let shifted = unix_seconds + 25200;
    if shifted >= 0 {
        shifted / 86400
    } else {
        let q = (-(shifted + 1)) / 86400;
        proof {
            let a = shifted as int;
            assert((-(a + 1)) / 86400 == q);
            assert(a / 86400 == -q - 1) by (nonlinear_arith)
                requires
                    a < 0,
                    q == (-(a + 1)) / 86400,
            ;
        }
        -q - 1
    }
}

// ---------------------------------------------------------------------------
// Streaks
// ---------------------------------------------------------------------------

/// The largest magnitude a day number can have (chrono's dates span about
/// ±262,000 years, far below this).
pub const DAY_BOUND: i64 = 0x100_0000_0000;

/// Whether all day numbers lie within the bound.
pub open spec fn days_bounded(dates: Seq<i64>, today: i64) -> bool {
    &&& -DAY_BOUND <= today <= DAY_BOUND
    &&& forall|i: int| 0 <= i < dates.len() ==> -DAY_BOUND <= #[trigger] dates[i] <= DAY_BOUND
}

/// Whether the date at `i - 1` is the day after the date at `i`.
pub open spec fn consecutive(dates: Seq<i64>, i: int) -> bool {
    dates[i - 1] - dates[i] == 1
}

/// The length of the run of consecutive days starting at `i` and going back in
/// time (the dates come newest first).
pub open spec fn run_from(dates: Seq<i64>, i: int) -> int
    decreases dates.len() - i,
{
    if 0 <= i && i + 1 < dates.len() && consecutive(dates, i + 1) {
        1 + run_from(dates, i + 1)
    } else {
        1
    }
}

/// The length of the run of consecutive days that ends (in the list's order)
/// at `i`.
pub open spec fn run_ending_at(dates: Seq<i64>, i: int) -> int
    decreases i,
{
    if i > 0 && consecutive(dates, i) {
        1 + run_ending_at(dates, i - 1)
    } else {
        1
    }
}

/// The longest run among those ending at `0..=i`.
pub open spec fn longest_run_upto(dates: Seq<i64>, i: int) -> int
    decreases i,
{
    if i <= 0 {
        run_ending_at(dates, 0)
    } else {
        let prev = longest_run_upto(dates, i - 1);
        let here = run_ending_at(dates, i);
        if here > prev {
            here
        } else {
            prev
        }
    }
}

/// The current streak: 0 without correct answers or when the latest one is
/// older than yesterday; otherwise the number of consecutive days ending with
/// the latest one.
pub open spec fn current_streak_spec(dates: Seq<i64>, today: i64) -> int {
    if dates.len() == 0 {
        0
    } else if today - dates[0] > 1 {
        0
    } else {
        run_from(dates, 0)
    }
}

/// The best streak: the longest run of consecutive days (0 without correct
/// answers).
pub open spec fn best_streak_spec(dates: Seq<i64>) -> int {
    if dates.len() == 0 {
        0
    } else {
        longest_run_upto(dates, dates.len() - 1)
    }
}

proof fn lemma_run_from_bounds(dates: Seq<i64>, i: int)
    requires
        0 <= i < dates.len(),
    ensures
        1 <= run_from(dates, i) <= dates.len() - i,
    decreases dates.len() - i,
{
    if i + 1 < dates.len() && consecutive(dates, i + 1) {
        lemma_run_from_bounds(dates, i + 1);
    }
}

proof fn lemma_run_ending_bounds(dates: Seq<i64>, i: int)
    requires
        0 <= i < dates.len(),
    ensures
        1 <= run_ending_at(dates, i) <= i + 1,
    decreases i,
{
    if i > 0 && consecutive(dates, i) {
        lemma_run_ending_bounds(dates, i - 1);
    }
}

proof fn lemma_longest_bounds(dates: Seq<i64>, i: int)
    requires
        0 <= i < dates.len(),
    ensures
        1 <= longest_run_upto(dates, i) <= i + 1,
        forall|j: int| 0 <= j <= i ==> run_ending_at(dates, j) <= longest_run_upto(dates, i),
    decreases i,
{
    lemma_run_ending_bounds(dates, i);
    if i > 0 {
        lemma_longest_bounds(dates, i - 1);
    }
}

/// The current and best streak of a user, from the dates of their correct
/// answers, newest first, and today's date.
pub fn compute_streaks(dates: &[i64], today: i64) -> (r: (i64, i64))
    requires
        days_bounded(dates@, today),
        dates@.len() < 0x7fff_ffff_ffff_ffff,
    ensures
        r.0 == current_streak_spec(dates@, today),
        r.1 == best_streak_spec(dates@),
{
    if dates.len() == 0 {
        return (0, 0);
    }
    let n = dates.len();
    // Current streak: walk forward from the latest date while days are consecutive.
    let mut current: i64 = 0;
    if today - dates[0] <= 1 {
        let mut k: usize = 1;
        proof {
            lemma_run_from_bounds(dates@, 0);
        }
        while k < n && dates[k - 1] - dates[k] == 1
            invariant
                1 <= k <= n,
                n == dates@.len(),
                n < 0x7fff_ffff_ffff_ffff,
                days_bounded(dates@, today),
                run_from(dates@, 0) == (k - 1) + run_from(dates@, k - 1),
            decreases n - k,
        {
            assert(consecutive(dates@, k as int));
            k = k + 1;
        }
        proof {
            assert(!(k < n && consecutive(dates@, k as int)));
            assert(run_from(dates@, k - 1) == 1);
        }
        current = k as i64;
    }
    // Best streak: the longest run of consecutive days.
    let mut best: i64 = 0;
    let mut run: i64 = 1;
    let mut i: usize = 1;
    proof {
        lemma_run_ending_bounds(dates@, 0);
    }
    while i < n
        invariant
            1 <= i <= n,
            n == dates@.len(),
            n < 0x7fff_ffff_ffff_ffff,
            days_bounded(dates@, today),
            run == run_ending_at(dates@, i - 1),
            0 <= best <= i,
            (if best > run {
                best
            } else {
                run
            }) == longest_run_upto(dates@, i - 1),
        decreases n - i,
    {
        proof {
            lemma_run_ending_bounds(dates@, i - 1);
        }
        if dates[i - 1] - dates[i] == 1 {
            run = run + 1;
        } else {
            if run > best {
                best = run;
            }
            run = 1;
        }
        i = i + 1;
    }
    if run > best {
        best = run;
    }
    (current, best)
}

/// The current streak never exceeds the best streak.
pub proof fn lemma_current_within_best(dates: Seq<i64>, today: i64)
    ensures
        current_streak_spec(dates, today) <= best_streak_spec(dates),
{
    if dates.len() > 0 {
        lemma_longest_bounds(dates, dates.len() - 1);
        if today - dates[0] <= 1 {
            let n = run_from(dates, 0);
            lemma_run_from_bounds(dates, 0);
            lemma_run_ending_in_run(dates, n - 1);
            assert(run_ending_at(dates, n - 1) <= longest_run_upto(dates, dates.len() - 1));
        }
    }
}

proof fn lemma_run_ending_in_run(dates: Seq<i64>, k: int)
    requires
        dates.len() > 0,
        0 <= k < run_from(dates, 0),
        run_from(dates, 0) <= dates.len(),
    ensures
        run_ending_at(dates, k) == k + 1,
    decreases k,
{
    if k > 0 {
        lemma_run_from_consecutive(dates, 0, k);
        lemma_run_ending_in_run(dates, k - 1);
    }
}

proof fn lemma_run_from_consecutive(dates: Seq<i64>, i: int, k: int)
    requires
        0 <= i < k < i + run_from(dates, i),
        i < dates.len(),
    ensures
        consecutive(dates, k),
    decreases k - i,
{
    if i + 1 < dates.len() && consecutive(dates, i + 1) {
        if k > i + 1 {
            lemma_run_from_consecutive(dates, i + 1, k);
        }
    }
}

/// Whether the dates at list positions `s` to `e` are consecutive calendar
/// days, each the day before the one listed above it.
pub open spec fn consecutive_span(dates: Seq<i64>, s: int, e: int) -> bool {
    forall|j: int| s < j <= e ==> #[trigger] consecutive(dates, j)
}

/// Whether a run of `m` consecutive days ends at list position `e`.
pub open spec fn run_of_length_ends_at(dates: Seq<i64>, e: int, m: int) -> bool {
    &&& 0 <= e - m + 1
    &&& e < dates.len()
    &&& consecutive_span(dates, e - m + 1, e)
}

/// The current streak is broken (0) when there is no correct answer or the
/// latest one is older than yesterday. Otherwise it counts the days from the
/// latest one back while they are consecutive: those days are consecutive,
/// and the day after them in the list (if any) is not the day before.
pub proof fn lemma_current_streak_meaning(dates: Seq<i64>, today: i64)
    ensures
        dates.len() == 0 ==> current_streak_spec(dates, today) == 0,
        dates.len() > 0 && today - dates[0] >= 2 ==> current_streak_spec(dates, today) == 0,
        dates.len() > 0 && today - dates[0] <= 1 ==> {
            let c = current_streak_spec(dates, today);
            &&& 1 <= c <= dates.len()
            &&& consecutive_span(dates, 0, c - 1)
            &&& (c == dates.len() || !consecutive(dates, c))
        },
{
    if dates.len() > 0 && today - dates[0] <= 1 {
        let c = run_from(dates, 0);
        lemma_run_from_bounds(dates, 0);
        assert forall|j: int| 0 < j <= c - 1 implies #[trigger] consecutive(dates, j) by {
            lemma_run_from_consecutive(dates, 0, j);
        }
        lemma_run_from_stops(dates, 0);
    }
}

proof fn lemma_run_from_stops(dates: Seq<i64>, i: int)
    requires
        0 <= i < dates.len(),
    ensures
        i + run_from(dates, i) == dates.len() || !consecutive(dates, i + run_from(dates, i)),
    decreases dates.len() - i,
{
    if i + 1 < dates.len() && consecutive(dates, i + 1) {
        lemma_run_from_stops(dates, i + 1);
    }
}

/// The best streak is the longest run of consecutive days: some run of that
/// length occurs in the dates, and no run of consecutive days is longer. It is
/// 0 without correct answers.
pub proof fn lemma_best_streak_meaning(dates: Seq<i64>)
    ensures
        dates.len() == 0 ==> best_streak_spec(dates) == 0,
        dates.len() > 0 ==> exists|e: int| #[trigger]
            run_of_length_ends_at(dates, e, best_streak_spec(dates)),
        forall|s: int, e: int|
            0 <= s <= e < dates.len() && #[trigger] consecutive_span(dates, s, e) ==> e - s + 1
                <= best_streak_spec(dates),
{
    if dates.len() > 0 {
        let last = dates.len() - 1;
        lemma_longest_bounds(dates, last);
        let j = lemma_longest_attained(dates, last);
        lemma_run_ending_span(dates, j);
        lemma_run_ending_bounds(dates, j);
        assert(run_of_length_ends_at(dates, j, best_streak_spec(dates)));
        assert forall|s: int, e: int|
            0 <= s <= e < dates.len() && #[trigger] consecutive_span(dates, s, e) implies e - s + 1
                <= best_streak_spec(dates) by {
            lemma_span_within_run(dates, s, e);
        }
    }
}

proof fn lemma_run_ending_span(dates: Seq<i64>, i: int)
    requires
        0 <= i < dates.len(),
    ensures
        consecutive_span(dates, i - run_ending_at(dates, i) + 1, i),
    decreases i,
{
    if i > 0 && consecutive(dates, i) {
        lemma_run_ending_span(dates, i - 1);
    }
}

proof fn lemma_span_within_run(dates: Seq<i64>, s: int, e: int)
    requires
        0 <= s <= e < dates.len(),
        consecutive_span(dates, s, e),
    ensures
        e - s + 1 <= run_ending_at(dates, e),
    decreases e - s,
{
    lemma_run_ending_bounds(dates, e);
    if s < e {
        assert(consecutive(dates, e));
        assert(consecutive_span(dates, s, e - 1));
        lemma_span_within_run(dates, s, e - 1);
    }
}

proof fn lemma_longest_attained(dates: Seq<i64>, i: int) -> (j: int)
    requires
        0 <= i < dates.len(),
    ensures
        0 <= j <= i,
        longest_run_upto(dates, i) == run_ending_at(dates, j),
    decreases i,
{
    if i <= 0 {
        0
    } else {
        let k = lemma_longest_attained(dates, i - 1);
        if run_ending_at(dates, i) > longest_run_upto(dates, i - 1) {
            i
        } else {
            k
        }
    }
}

} // verus!
