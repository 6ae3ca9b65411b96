//! Administration of question categories.
use vstd::prelude::*;
use crate::text::{chars_of, push_signed_decimal, push_str, signed_decimal_spec, string_from_chars, trim, trim_spec};

verus! {

/// The body of an error answer.
#[derive(Debug)]
pub struct ErrorResponse {
    pub error: String,
}

/// Whether a category may be created or renamed to a name: it must not be
/// blank (400), and no other category may have it (400) as the count of
/// categories with that name says (500 when it failed).
pub fn check_category_name(name: &str, same_name: Result<i64, ()>) -> (r: Result<(), (u16, &'static str)>)
    ensures
        trim_spec(name@).len() == 0 ==> (r matches Err(f) && f.0 == 400 && f.1@
            == "Category name cannot be empty"@),
        trim_spec(name@).len() > 0 ==> match same_name {
            Ok(n) => if n > 0 {
                r matches Err(f) && f.0 == 400 && f.1@ == "Category with this name already exists"@
            } else {
                r is Ok
            },
            Err(_) => r matches Err(f) && f.0 == 500 && f.1@ == "Failed to check existing categories"@,
        },
{
    if trim(chars_of(name).as_slice()).len() == 0 {
        return Err((400, "Category name cannot be empty"));
    }
    match same_name {
        Ok(n) => if n > 0 {
            Err((400, "Category with this name already exists"))
        } else {
            Ok(())
        },
        Err(_) => Err((500, "Failed to check existing categories")),
    }
}

/// Whether a category may be deleted, from the count of its packages: not
/// while it has any (400, naming their number; 500 when the count failed).
pub fn check_category_deletion(packages: Result<i64, ()>) -> (r: Result<(), (u16, String)>)
    ensures
        match packages {
            Ok(n) => if n > 0 {
                r matches Err(f) && f.0 == 400 && f.1@ == "Cannot delete category. It has "@
                    + signed_decimal_spec(n as int) + " associated quiz packages."@
            } else {
                r is Ok
            },
            Err(_) => r matches Err(f) && f.0 == 500 && f.1@ == "Failed to check category dependencies"@,
        },
{
    match packages {
        Ok(n) => if n > 0 {
            let mut v = chars_of("Cannot delete category. It has ");
            push_signed_decimal(&mut v, n);
            push_str(&mut v, " associated quiz packages.");
            Err((400, string_from_chars(v.as_slice())))
        } else {
            Ok(())
        },
        Err(_) => Err((500, "Failed to check category dependencies".to_string())),
    }
}

} // verus!
