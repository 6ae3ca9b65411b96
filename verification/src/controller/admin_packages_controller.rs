//! Administration of question packages.
use vstd::prelude::*;
use crate::text::{chars_of, push_str, push_signed_decimal, signed_decimal_spec, string_from_chars, trim, trim_spec};
use crate::controller::search_controller::{ConditionBuilder, SearchConditions, join_and};

verus! {

/// The body of an error answer.
#[derive(Debug)]
pub struct ErrorResponse {
    pub error: String,
}

/// The text of a flag as SQL receives it bound (`true` or `false`).
pub open spec fn bool_text(b: bool) -> Seq<char> {
    if b {
        "true"@
    } else {
        "false"@
    }
}

/// The parts of an administrator's package search: always `1=1`; a
/// non-empty text matched anywhere in the name; a category and the premium
/// flag matched exactly when given.
pub open spec fn package_search_parts(
    search: Option<Seq<char>>,
    kategori_id: Option<i32>,
    is_premium: Option<bool>,
) -> (Seq<Seq<char>>, Seq<Seq<char>>) {
    let p0: Seq<Seq<char>> = seq!["1=1"@];
    let b0: Seq<Seq<char>> = seq![];
    let (p1, b1) = match search {
        Some(t) => if t.len() > 0 {
            (p0.push("p.nama_paket_soal LIKE ?"@), b0.push("%"@ + t + "%"@))
        } else {
            (p0, b0)
        },
        None => (p0, b0),
    };
    let (p2, b2) = match kategori_id {
        Some(k) => (p1.push("p.kategori_id = ?"@), b1.push(signed_decimal_spec(k as int))),
        None => (p1, b1),
    };
    match is_premium {
        Some(f) => (p2.push("p.is_premium = ?"@), b2.push(bool_text(f))),
        None => (p2, b2),
    }
}

/// The condition and bound values of an administrator's package search.
pub fn package_search_conditions(
    search: &Option<String>,
    kategori_id: Option<i32>,
    is_premium: Option<bool>,
) -> (r: SearchConditions)
    ensures
        ({
            let (parts, binds) = package_search_parts(
                match search {
                    Some(s) => Some(s@),
                    None => None,
                },
                kategori_id,
                is_premium,
            );
            r.where_clause@ == join_and(parts) && r.binds@.map_values(|b: String| b@) == binds
        }),
{
    let mut b = ConditionBuilder::new();
    let ghost v0 = b.bound();
    if let Some(t) = search {
        if chars_of(t.as_str()).len() > 0 {
            let mut pat = chars_of("%");
            push_str(&mut pat, t.as_str());
            push_str(&mut pat, "%");
            let vals = vec![string_from_chars(pat.as_slice())];
            assert(vals@.map_values(|x: String| x@) =~= seq!["%"@ + t@ + "%"@]);
            b.add("p.nama_paket_soal LIKE ?", vals);
            assert(b.bound() =~= v0.push("%"@ + t@ + "%"@));
        }
    }
    let ghost v1 = b.bound();
    if let Some(k) = kategori_id {
        let mut d: Vec<char> = Vec::new();
        push_signed_decimal(&mut d, k as i64);
        assert(d@ =~= signed_decimal_spec(k as int));
        let vals = vec![string_from_chars(d.as_slice())];
        assert(vals@.map_values(|x: String| x@) =~= seq![signed_decimal_spec(k as int)]);
        b.add("p.kategori_id = ?", vals);
        assert(b.bound() =~= v1.push(signed_decimal_spec(k as int)));
    }
    let ghost v2 = b.bound();
    if let Some(f) = is_premium {
        let text = if f {
            "true"
        } else {
            "false"
        };
        let vals = vec![text.to_string()];
        assert(vals@.map_values(|x: String| x@) =~= seq![bool_text(f)]);
        b.add("p.is_premium = ?", vals);
        assert(b.bound() =~= v2.push(bool_text(f)));
    }
    proof {
        let sv = match search {
            Some(s) => Some(s@),
            None => None::<Seq<char>>,
        };
        assert((b.parts(), b.bound()) == package_search_parts(sv, kategori_id, is_premium));
    }
    b.finish()
}

/// Why a new package is refused.
#[derive(Debug, Clone, Copy, PartialEq, Eq, Structural)]
pub enum PackageRefusal {
    /// 400: the name is blank.
    EmptyName,
    /// 400: the category does not exist.
    NoCategory,
    /// 500: the category could not be checked.
    CategoryCheckFailed,
}

impl PackageRefusal {
    /// The `error` field of the answer.
    pub fn message(&self) -> (r: &'static str)
        ensures
            r@ == match self {
                PackageRefusal::EmptyName => "Package name cannot be empty"@,
                PackageRefusal::NoCategory => "Category not found"@,
                PackageRefusal::CategoryCheckFailed => "Failed to check category"@,
            },
    {
        match self {
            PackageRefusal::EmptyName => "Package name cannot be empty",
            PackageRefusal::NoCategory => "Category not found",
            PackageRefusal::CategoryCheckFailed => "Failed to check category",
        }
    }
}

/// Whether a package name is acceptable: not blank.
pub fn check_package_name(name: &str) -> (r: Result<(), PackageRefusal>)
    ensures
        trim_spec(name@).len() == 0 ==> r == Err::<(), PackageRefusal>(PackageRefusal::EmptyName),
        trim_spec(name@).len() > 0 ==> r is Ok,
{
    if trim(chars_of(name).as_slice()).len() == 0 {
        Err(PackageRefusal::EmptyName)
    } else {
        Ok(())
    }
}

/// Whether a new package's category may be used, from the count of
/// categories with its id (when a category is given).
pub fn check_package_category(count: Option<Result<i64, ()>>) -> (r: Result<(), PackageRefusal>)
    ensures
        count == Some(Ok::<i64, ()>(0)) ==> r == Err::<(), PackageRefusal>(PackageRefusal::NoCategory),
        count matches Some(Err(_)) ==> r == Err::<(), PackageRefusal>(
            PackageRefusal::CategoryCheckFailed,
        ),
        count is None ==> r is Ok,
        count matches Some(Ok(n)) ==> n != 0 ==> r is Ok,
{
    match count {
        Some(Ok(0)) => Err(PackageRefusal::NoCategory),
        Some(Err(_)) => Err(PackageRefusal::CategoryCheckFailed),
        _ => Ok(()),
    }
}

} // verus!
