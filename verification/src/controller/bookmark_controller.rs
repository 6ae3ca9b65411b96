//! Bookmarked questions.
use vstd::prelude::*;
use crate::text::{chars_of, push_all, push_str, str_equal, string_from_chars};
use crate::controller::subscription_controller::{replace, replace_all};

verus! {

/// The body of an error answer.
#[derive(Debug)]
pub struct ErrorResponse {
    pub error: String,
}

/// The query of a bookmark listing.
#[derive(Debug)]
pub struct BookmarkListQuery {
    pub page: Option<u32>,
    pub limit: Option<u32>,
    /// `pelajaran`, or the bookmark time otherwise.
    pub sort_by: Option<String>,
    /// `asc`, or descending otherwise.
    pub sort_order: Option<String>,
    /// Only bookmarks of this subject.
    pub category: Option<String>,
}

/// The ordering and paging of a bookmark listing, and the SQL condition of
/// its subject filter.
#[derive(Debug)]
pub struct BookmarkListing {
    pub page: u32,
    pub limit: u32,
    pub offset: u32,
    pub sort_column: &'static str,
    pub sort_direction: &'static str,
    pub category_filter: String,
}

/// A text with its single quotes escaped with a backslash.
pub open spec fn sql_quote_escaped(s: Seq<char>) -> Seq<char> {
    replace_all(s, seq!['\''], seq!['\\', '\''])
}

/// The paging of a bookmark listing: page at least 1 (default 1), limit at
/// most 100 (default 20).
pub open spec fn bookmark_paging(q: BookmarkListQuery) -> (u32, u32) {
    let p = match q.page {
        Some(p) => p,
        None => 1,
    };
    let l = match q.limit {
        Some(l) => l,
        None => 20,
    };
    (
        if p < 1 {
            1
        } else {
            p
        },
        if l > 100 {
            100
        } else {
            l
        },
    )
}

/// The ordering, paging and filter of a bookmark listing: sorted by subject
/// when asked (`s.pelajaran`), else by bookmark time; ascending when asked,
/// else descending; a subject filter compares `s.pelajaran` with the
/// subject, quotes escaped.
pub fn bookmark_listing(q: &BookmarkListQuery) -> (r: BookmarkListing)
    requires
        (bookmark_paging(*q).0 - 1) * bookmark_paging(*q).1 <= u32::MAX,
    ensures
        (r.page, r.limit) == bookmark_paging(*q),
        r.offset == (r.page - 1) * r.limit,
        r.sort_column@ == if q.sort_by matches Some(s) && s@ == "pelajaran"@ {
            "s.pelajaran"@
        } else {
            "bq.created_at"@
        },
        r.sort_direction@ == if q.sort_order matches Some(s) && s@ == "asc"@ {
            "ASC"@
        } else {
            "DESC"@
        },
        r.category_filter@ == match q.category {
            Some(c) => "AND s.pelajaran = '"@ + sql_quote_escaped(c@) + "'"@,
            None => Seq::<char>::empty(),
        },
{
    let p0 = match q.page {
        Some(p) => p,
        None => 1,
    };
    let l0 = match q.limit {
        Some(l) => l,
        None => 20,
    };
    let page = if p0 < 1 {
        1
    } else {
        p0
    };
    let limit = if l0 > 100 {
        100
    } else {
        l0
    };
    let sort_column = match &q.sort_by {
        Some(s) => if str_equal(s.as_str(), "pelajaran") {
            "s.pelajaran"
        } else {
            "bq.created_at"
        },
        None => "bq.created_at",
    };
    let sort_direction = match &q.sort_order {
        Some(s) => if str_equal(s.as_str(), "asc") {
            "ASC"
        } else {
            "DESC"
        },
        None => "DESC",
    };
    let category_filter = match &q.category {
        Some(c) => {
            let quote = vec!['\''];
            let escaped_quote = vec!['\\', '\''];
            assert(quote@ =~= seq!['\'']);
            assert(escaped_quote@ =~= seq!['\\', '\'']);
            let esc = replace(chars_of(c.as_str()).as_slice(), quote.as_slice(), escaped_quote.as_slice());
            let mut v = chars_of("AND s.pelajaran = '");
            push_all(&mut v, esc.as_slice());
            push_str(&mut v, "'");
            string_from_chars(v.as_slice())
        },
        None => String::new(),
    };
    BookmarkListing {
        page,
        limit,
        offset: (page - 1) * limit,
        sort_column,
        sort_direction,
        category_filter,
    }
}

/// Why a bookmark is refused.
#[derive(Debug, Clone, Copy, PartialEq, Eq, Structural)]
pub enum BookmarkRefusal {
    /// 404: no such question.
    NoQuestion,
    /// 400: the question is bookmarked already.
    AlreadyBookmarked,
}

/// Whether a question may be bookmarked, from whether it exists and whether
/// the user has bookmarked it already (a failed count counts as no).
pub fn bookmark_check(question_exists: bool, already: bool) -> (r: Result<(), BookmarkRefusal>)
    ensures
        !question_exists ==> r == Err::<(), BookmarkRefusal>(BookmarkRefusal::NoQuestion),
        question_exists && already ==> r == Err::<(), BookmarkRefusal>(
            BookmarkRefusal::AlreadyBookmarked,
        ),
        question_exists && !already ==> r is Ok,
{
    if !question_exists {
        Err(BookmarkRefusal::NoQuestion)
    } else if already {
        Err(BookmarkRefusal::AlreadyBookmarked)
    } else {
        Ok(())
    }
}

} // verus!
