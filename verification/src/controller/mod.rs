//! The rules behind the HTTP handlers: validation of requests, the decisions
//! taken on them, and the shape of their answers.
use vstd::prelude::*;

pub mod admin_analytics_controller;
pub mod admin_daily_challenge_controller;
pub mod admin_kategori_controller;
pub mod admin_packages_controller;
pub mod admin_paket_soal_items_controller;
pub mod admin_soal_controller;
pub mod admin_user_controller;
pub mod auth_controller;
pub mod bookmark_controller;
pub mod internal_soal_controller;
pub mod leaderboard_controller;
pub mod license_controller;
pub mod payment_controller;
pub mod premium_controller;
pub mod public_profile_controller;
pub mod quiz_session_controller;
pub mod question_comment_controller;
pub mod question_feedback_controller;
pub mod search_controller;
pub mod soal_controller;
pub mod subscription_controller;
pub mod user_controller;

verus! {

/// The value of a string of decimal digits.
pub open spec fn digits_value(s: Seq<char>) -> nat
    decreases s.len(),
{
    if s.len() == 0 {
        0
    } else {
        digits_value(s.drop_last()) * 10 + ((s.last() as u32) - ('0' as u32)) as nat
    }
}

/// Whether every character is an ASCII digit.
pub open spec fn all_digits(s: Seq<char>) -> bool {
    forall|i: int| 0 <= i < s.len() ==> '0' <= #[trigger] s[i] && s[i] <= '9'
}

/// What `str::parse::<u32>` returns: an optional `+` sign followed by one or
/// more ASCII digits whose value fits in 32 bits; anything else is an error.
pub open spec fn parse_u32_spec(s: Seq<char>) -> Option<u32> {
    let d = if s.len() > 0 && s[0] == '+' {
        s.drop_first()
    } else {
        s
    };
    if d.len() == 0 || !all_digits(d) || digits_value(d) > u32::MAX {
        None
    } else {
        Some(digits_value(d) as u32)
    }
}

proof fn lemma_digits_value_step(s: Seq<char>, i: int)
    requires
        0 <= i < s.len(),
    ensures
        digits_value(s.subrange(0, i + 1)) == digits_value(s.subrange(0, i)) * 10 + ((s[i] as u32)
            - ('0' as u32)) as nat,
{
    assert(s.subrange(0, i + 1).drop_last() =~= s.subrange(0, i));
}

proof fn lemma_digits_value_monotone(s: Seq<char>, i: int, j: int)
    requires
        0 <= i <= j <= s.len(),
        all_digits(s),
    ensures
        digits_value(s.subrange(0, i)) <= digits_value(s.subrange(0, j)),
    decreases j - i,
{
    if i < j {
        lemma_digits_value_monotone(s, i, j - 1);
        lemma_digits_value_step(s, j - 1);
        assert('0' <= s[j - 1]);
    }
}

/// The value of the digits of `s` from `start` on, when they are all ASCII
/// digits and their value is at most `bound`; `None` otherwise.
fn bounded_digits(s: &Vec<char>, start: usize, bound: u64) -> (r: Option<u64>)
    requires
        start < s@.len(),
        bound <= 0x1_0000_0000,
    ensures
        ({
            let d = s@.subrange(start as int, s@.len() as int);
            r == if all_digits(d) && digits_value(d) <= bound {
                Some(digits_value(d) as u64)
            } else {
                None
            }
        }),
{
    let ghost d = s@.subrange(start as int, s@.len() as int);
    let mut value: u64 = 0;
    let mut i: usize = start;
    while i < s.len()
        invariant
            start <= i <= s@.len(),
            start < s@.len(),
            bound <= 0x1_0000_0000,
            d == s@.subrange(start as int, s@.len() as int),
            value == digits_value(d.subrange(0, i - start)),
            value <= bound,
            all_digits(d.subrange(0, i - start)),
        decreases s@.len() - i,
    {
        let c = s[i];
        if !('0' <= c && c <= '9') {
            assert(d[i - start] == c);
            assert(!all_digits(d));
            return None;
        }
        let digit = (c as u32 - '0' as u32) as u64;
        proof {
            assert(d[i - start] == c);
            lemma_digits_value_step(d, i - start);
            assert(d.subrange(0, i - start + 1) =~= d.subrange(0, i - start).push(c));
        }
        value = value * 10 + digit;
        if value > bound {
            proof {
                if all_digits(d) {
                    lemma_digits_value_monotone(d, i - start + 1, d.len() as int);
                    assert(d.subrange(0, d.len() as int) =~= d);
                }
            }
            return None;
        }
        i = i + 1;
    }
    assert(d.subrange(0, d.len() as int) =~= d);
    Some(value)
}

/// `str::parse::<u32>`: an optional `+` followed by decimal digits that fit.
pub fn parse_u32(text: &str) -> (r: Option<u32>)
    ensures
        r == parse_u32_spec(text@),
{
    let s = crate::text::chars_of(text);
    let start: usize = if s.len() > 0 && s[0] == '+' {
        1
    } else {
        0
    };
    proof {
        if start == 1 {
            assert(s@.subrange(1, s@.len() as int) =~= s@.drop_first());
        } else {
            assert(s@.subrange(0, s@.len() as int) =~= s@);
        }
    }
    if start == s.len() {
        return None;
    }
    match bounded_digits(&s, start, 0xffff_ffff) {
        Some(v) => Some(v as u32),
        None => None,
    }
}

/// What `str::parse::<i32>` returns: an optional `+` or `-` sign followed by
/// one or more ASCII digits whose signed value fits in 32 bits; anything else
/// is an error.
pub open spec fn parse_i32_spec(s: Seq<char>) -> Option<i32> {
    let neg = s.len() > 0 && s[0] == '-';
    let d = if s.len() > 0 && (s[0] == '+' || s[0] == '-') {
        s.drop_first()
    } else {
        s
    };
    if d.len() == 0 || !all_digits(d) {
        None
    } else if neg {
        if digits_value(d) > 0x8000_0000 {
            None
        } else {
            Some((0 - digits_value(d)) as i32)
        }
    } else {
        if digits_value(d) > i32::MAX {
            None
        } else {
            Some(digits_value(d) as i32)
        }
    }
}

/// `str::parse::<i32>`: an optional sign followed by decimal digits that fit.
pub fn parse_i32(text: &str) -> (r: Option<i32>)
    ensures
        r == parse_i32_spec(text@),
{
    let s = crate::text::chars_of(text);
    let neg = s.len() > 0 && s[0] == '-';
    let start: usize = if s.len() > 0 && (s[0] == '+' || s[0] == '-') {
        1
    } else {
        0
    };
    proof {
        if start == 1 {
            assert(s@.subrange(1, s@.len() as int) =~= s@.drop_first());
        } else {
            assert(s@.subrange(0, s@.len() as int) =~= s@);
        }
    }
    if start == s.len() {
        return None;
    }
    let bound: u64 = if neg {
        0x8000_0000
    } else {
        0x7fff_ffff
    };
    match bounded_digits(&s, start, bound) {
        Some(v) => {
            if neg {
                Some((0 - (v as i64)) as i32)
            } else {
                Some(v as i32)
            }
        },
        None => None,
    }
}

/// A page of a listing.
#[derive(Debug, Clone, Copy, PartialEq, Eq)]
pub struct Pagination {
    pub page: i64,
    pub limit: i64,
    pub offset: i64,
}

/// The page asked for (1 when none is given, at least 1), the page size (the
/// default when none is given, at most `max_limit`, and at least 1 when
/// `floor_one` is set) and the offset of the page's first row.
pub open spec fn pagination_spec(
    page: Option<i64>,
    limit: Option<i64>,
    default_limit: i64,
    max_limit: i64,
    floor_one: bool,
) -> (int, int) {
    let p = match page {
        Some(p) => if p < 1 {
            1
        } else {
            p
        },
        None => 1,
    };
    let l0 = match limit {
        Some(l) => l,
        None => default_limit,
    };
    let l1 = if l0 > max_limit {
        max_limit
    } else {
        l0
    };
    let l = if floor_one && l1 < 1 {
        1
    } else {
        l1
    };
    (p as int, l as int)
}

/// Normalises the paging parameters of a listing.
pub fn paginate(
    page: Option<i64>,
    limit: Option<i64>,
    default_limit: i64,
    max_limit: i64,
    floor_one: bool,
) -> (r: Pagination)
    requires
        ({
            let (p, l) = pagination_spec(page, limit, default_limit, max_limit, floor_one);
            i64::MIN <= (p - 1) * l <= i64::MAX
        }),
    ensures
        (r.page as int, r.limit as int) == pagination_spec(
            page,
            limit,
            default_limit,
            max_limit,
            floor_one,
        ),
        r.offset == (r.page - 1) * r.limit,
{
    let p = match page {
        Some(p) => if p < 1 {
            1
        } else {
            p
        },
        None => 1,
    };
    let l0 = match limit {
        Some(l) => l,
        None => default_limit,
    };
    let l1 = if l0 > max_limit {
        max_limit
    } else {
        l0
    };
    let l = if floor_one && l1 < 1 {
        1
    } else {
        l1
    };
    Pagination { page: p, limit: l, offset: (p - 1) * l }
}

/// The step of a per-user rate limit after the counter was incremented to
/// `count`: the counter's expiry is set when it was just created, and the
/// request is refused once the count exceeds `max_per_window`.
pub fn rate_limit_step(count: i64, max_per_window: i64) -> (r: (bool, bool))
    ensures
        r.0 == (count == 1),
        r.1 == (count > max_per_window),
{
    (count == 1, count > max_per_window)
}

} // verus!
