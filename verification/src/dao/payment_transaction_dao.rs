//! Payment transactions: finding the one that a Mayar payment belongs to.
use vstd::prelude::*;
use crate::controller::payment_controller::{json_field, json_str_field};
use crate::text::{concat, str_equal};

verus! {

/// The `LIKE` pattern that preselects the rows whose payment details may
/// hold a Mayar id: `%"mayar_id":"%<id>%`.
pub open spec fn mayar_id_pattern_spec(mayar_id: Seq<char>) -> Seq<char> {
    "%\"mayar_id\":\"%"@ + mayar_id + "%"@
}

/// The `LIKE` pattern for a Mayar id.
pub fn mayar_id_pattern(mayar_id: &str) -> (r: String)
    ensures
        r@ == mayar_id_pattern_spec(mayar_id@),
{
    let head = concat("%\"mayar_id\":\"%", mayar_id);
    concat(head.as_str(), "%")
}

/// Whether stored payment details are a JSON object whose `mayar_id` is a
/// string equal to `mayar_id`.
pub open spec fn carries_mayar_id(details: Option<String>, mayar_id: Seq<char>) -> bool {
    details matches Some(d) && json_str_field(d@, "mayar_id"@) == Some(mayar_id)
}

/// Among the preselected rows (their payment details, in the order the
/// database gave them), the first whose details carry exactly this Mayar id;
/// `None` when no row does. A near match of the `LIKE` pattern is skipped.
pub fn mayar_transaction_index(details: &Vec<Option<String>>, mayar_id: &str) -> (r: Option<usize>)
    ensures
        match r {
            Some(i) => {
                &&& i < details.len()
                &&& carries_mayar_id(details@[i as int], mayar_id@)
                &&& forall|j: int| 0 <= j < i ==> !carries_mayar_id(#[trigger] details@[j], mayar_id@)
            },
            None => forall|j: int|
                0 <= j < details.len() ==> !carries_mayar_id(#[trigger] details@[j], mayar_id@),
        },
{
    let mut i: usize = 0;
    while i < details.len()
        invariant
            i <= details.len(),
            forall|j: int| 0 <= j < i ==> !carries_mayar_id(#[trigger] details@[j], mayar_id@),
        decreases details.len() - i,
    {
        match &details[i] {
            Some(d) => {
                let found = json_field(d.as_str(), "mayar_id");
                match found {
                    Some(id) => {
                        if str_equal(id.as_str(), mayar_id) {
                            return Some(i);
                        }
                    },
                    None => {},
                }
            },
            None => {},
        }
        i = i + 1;
    }
    None
}

} // verus!
