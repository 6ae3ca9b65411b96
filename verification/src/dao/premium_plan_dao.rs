//! Premium plans: the partial update of a plan.
use vstd::prelude::*;
use crate::text::{chars_of, push_str, string_from_chars};

verus! {

/// Which fields of a plan an update request sets.
#[derive(Debug, Clone, Copy, PartialEq, Eq)]
pub struct PlanUpdateFields {
    pub name: bool,
    pub description: bool,
    pub price: bool,
    pub duration_days: bool,
    pub is_lifetime: bool,
    pub features: bool,
    pub mayar_product_id: bool,
    pub mayar_link_payment: bool,
}

/// `cols` with `name` added when `set` holds.
pub open spec fn with_column(cols: Seq<Seq<char>>, set: bool, name: Seq<char>) -> Seq<Seq<char>> {
    if set {
        cols.push(name)
    } else {
        cols
    }
}

/// The columns an update writes, in the order of the statement (the values
/// are bound in the same order).
pub open spec fn plan_update_columns(f: PlanUpdateFields) -> Seq<Seq<char>> {
    let c0: Seq<Seq<char>> = seq![];
    let c1 = with_column(c0, f.name, "name"@);
    let c2 = with_column(c1, f.description, "description"@);
    let c3 = with_column(c2, f.price, "price"@);
    let c4 = with_column(c3, f.duration_days, "duration_days"@);
    let c5 = with_column(c4, f.is_lifetime, "is_lifetime"@);
    let c6 = with_column(c5, f.features, "features"@);
    let c7 = with_column(c6, f.mayar_product_id, "mayar_product_id"@);
    with_column(c7, f.mayar_link_payment, "mayar_link_payment"@)
}

/// The assignments `column = ?` of the columns, separated by `, `.
pub open spec fn assignments(cols: Seq<Seq<char>>) -> Seq<char>
    decreases cols.len(),
{
    if cols.len() == 0 {
        seq![]
    } else if cols.len() == 1 {
        cols[0] + " = ?"@
    } else {
        assignments(cols.drop_last()) + ", "@ + cols.last() + " = ?"@
    }
}

/// The update statement of a plan: `None` when the request sets nothing (the
/// plan is then left as it is and reported as not updated), else the
/// assignments of the set columns and the plan's id as the last placeholder.
pub open spec fn plan_update_statement_spec(f: PlanUpdateFields) -> Option<Seq<char>> {
    let cols = plan_update_columns(f);
    if cols.len() == 0 {
        None
    } else {
        Some("UPDATE dbquizapp.premium_plans SET "@ + assignments(cols) + " WHERE id = ?"@)
    }
}

/// Appends the assignment of one more column to a statement whose earlier
/// assignments are those of `cols`.
fn push_assignment(
    stmt: &mut Vec<char>,
    cols: Ghost<Seq<Seq<char>>>,
    first: bool,
    set: bool,
    column: &str,
)
    requires
        first == (cols@.len() == 0),
        old(stmt)@ == "UPDATE dbquizapp.premium_plans SET "@ + assignments(cols@),
    ensures
        final(stmt)@ == "UPDATE dbquizapp.premium_plans SET "@ + assignments(
            with_column(cols@, set, column@),
        ),
{
    if set {
        let ghost nc = cols@.push(column@);
        proof {
            assert(nc.drop_last() =~= cols@);
        }
        let ghost s0 = stmt@;
        if !first {
            push_str(stmt, ", ");
        }
        push_str(stmt, column);
        push_str(stmt, " = ?");
        proof {
            if cols@.len() > 0 {
                assert(stmt@ =~= s0 + ", "@ + column@ + " = ?"@);
            } else {
                assert(assignments(cols@) =~= Seq::<char>::empty());
                assert(nc[0] == column@);
                assert(stmt@ =~= s0 + column@ + " = ?"@);
            }
        }
    }
}

/// The statement that updates the set fields of a plan (its values bound in
/// the order of `plan_update_columns`, then the id), or `None` when the request
/// sets nothing.
pub fn plan_update_statement(f: &PlanUpdateFields) -> (r: Option<String>)
    ensures
        (match r {
            Some(s) => Some(s@),
            None => None,
        }) == plan_update_statement_spec(*f),
{
    let mut stmt = chars_of("UPDATE dbquizapp.premium_plans SET ");
    let mut any = false;
    let ghost c0: Seq<Seq<char>> = seq![];
    assert(stmt@ =~= "UPDATE dbquizapp.premium_plans SET "@ + assignments(c0));
    push_assignment(&mut stmt, Ghost(c0), !any, f.name, "name");
    let ghost c1 = with_column(c0, f.name, "name"@);
    any = any || f.name;
    push_assignment(&mut stmt, Ghost(c1), !any, f.description, "description");
    let ghost c2 = with_column(c1, f.description, "description"@);
    any = any || f.description;
    push_assignment(&mut stmt, Ghost(c2), !any, f.price, "price");
    let ghost c3 = with_column(c2, f.price, "price"@);
    any = any || f.price;
    push_assignment(&mut stmt, Ghost(c3), !any, f.duration_days, "duration_days");
    let ghost c4 = with_column(c3, f.duration_days, "duration_days"@);
    any = any || f.duration_days;
    push_assignment(&mut stmt, Ghost(c4), !any, f.is_lifetime, "is_lifetime");
    let ghost c5 = with_column(c4, f.is_lifetime, "is_lifetime"@);
    any = any || f.is_lifetime;
    push_assignment(&mut stmt, Ghost(c5), !any, f.features, "features");
    let ghost c6 = with_column(c5, f.features, "features"@);
    any = any || f.features;
    push_assignment(&mut stmt, Ghost(c6), !any, f.mayar_product_id, "mayar_product_id");
    let ghost c7 = with_column(c6, f.mayar_product_id, "mayar_product_id"@);
    any = any || f.mayar_product_id;
    push_assignment(&mut stmt, Ghost(c7), !any, f.mayar_link_payment, "mayar_link_payment");
    any = any || f.mayar_link_payment;
    proof {
        let cols = plan_update_columns(*f);
        assert(any <==> cols.len() > 0);
    }
    if !any {
        return None;
    }
    push_str(&mut stmt, " WHERE id = ?");
    Some(string_from_chars(stmt.as_slice()))
}

} // verus!
