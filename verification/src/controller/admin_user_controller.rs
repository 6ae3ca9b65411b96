//! Administration of users: paging of the user list, the defaults of a
//! written user, and the answers to writes.
use vstd::prelude::*;
use crate::text::owned;

verus! {

/// The body of an error answer.
#[derive(Debug)]
pub struct ErrorResponse {
    pub error: String,
}

/// A page of the user list.
#[derive(Debug, Clone, Copy, PartialEq, Eq)]
pub struct UserPage {
    pub page: u32,
    pub limit: u32,
    pub offset: u32,
}

/// The page asked for (1 when none is given, at least 1) and its size (20
/// when none is given, at most 100).
pub open spec fn user_page_spec(page: Option<u32>, limit: Option<u32>) -> (u32, u32) {
    let p = match page {
        Some(p) => if p < 1 {
            1u32
        } else {
            p
        },
        None => 1u32,
    };
    let l = match limit {
        Some(l) => if l > 100 {
            100u32
        } else {
            l
        },
        None => 20u32,
    };
    (p, l)
}

/// The page of the user list, with the offset of its first row. The offset
/// must fit in 32 bits.
pub fn user_page(page: Option<u32>, limit: Option<u32>) -> (r: UserPage)
    requires
        ({
            let (p, l) = user_page_spec(page, limit);
            (p - 1) * l <= u32::MAX
        }),
    ensures
        (r.page, r.limit) == user_page_spec(page, limit),
        r.offset == (r.page - 1) * r.limit,
{
    let p = match page {
        Some(p) => if p < 1 {
            1u32
        } else {
            p
        },
        None => 1u32,
    };
    let l = match limit {
        Some(l) => if l > 100 {
            100u32
        } else {
            l
        },
        None => 20u32,
    };
    UserPage { page: p, limit: l, offset: (p - 1) * l }
}

/// The role and status written for a user: those of the request, or `user`
/// and `active` when it gives none.
pub fn user_role_and_status(role: &Option<String>, status: &Option<String>) -> (r: (String, String))
    ensures
        r.0@ == (match role {
            Some(s) => s@,
            None => "user"@,
        }),
        r.1@ == (match status {
            Some(s) => s@,
            None => "active"@,
        }),
{
    let ro = match role {
        Some(s) => s.clone(),
        None => owned("user"),
    };
    let st = match status {
        Some(s) => s.clone(),
        None => owned("active"),
    };
    (ro, st)
}

/// The answer to an update or deletion of a live user, from the number of
/// rows it changed: none means 404 `User not found`.
pub fn user_write_found(rows_affected: u64) -> (r: Result<(), (u16, &'static str)>)
    ensures
        rows_affected > 0 ==> r is Ok,
        rows_affected == 0 ==> (r matches Err((st, m)) && st == 404 && m@ == "User not found"@),
{
    if rows_affected > 0 {
        Ok(())
    } else {
        Err((404, "User not found"))
    }
}

} // verus!
