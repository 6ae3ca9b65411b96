//! Administration of questions.
use vstd::prelude::*;
use crate::text::{chars_of, push_str, string_from_chars};
use crate::controller::search_controller::{ConditionBuilder, SearchConditions, join_and};

verus! {

/// The body of an error answer.
#[derive(Debug)]
pub struct ErrorResponse {
    pub error: String,
}

/// The choices of the question form.
#[derive(Debug)]
pub struct DropdownData {
    pub modules: Vec<String>,
    pub subjects: Vec<String>,
    pub tags: Vec<String>,
}

/// The parts of an administrator's question search: always `1=1`; a
/// non-empty text matched anywhere in the question; a module, a subject and
/// a tag matched exactly when given.
pub open spec fn question_search_parts(
    search: Option<Seq<char>>,
    modul: Option<Seq<char>>,
    pelajaran: Option<Seq<char>>,
    tag: Option<Seq<char>>,
) -> (Seq<Seq<char>>, Seq<Seq<char>>) {
    let p0: Seq<Seq<char>> = seq!["1=1"@];
    let b0: Seq<Seq<char>> = seq![];
    let (p1, b1) = match search {
        Some(t) => if t.len() > 0 {
            (p0.push("s.soal LIKE ?"@), b0.push("%"@ + t + "%"@))
        } else {
            (p0, b0)
        },
        None => (p0, b0),
    };
    let (p2, b2) = match modul {
        Some(t) => (p1.push("s.modul = ?"@), b1.push(t)),
        None => (p1, b1),
    };
    let (p3, b3) = match pelajaran {
        Some(t) => (p2.push("s.pelajaran = ?"@), b2.push(t)),
        None => (p2, b2),
    };
    match tag {
        Some(t) => (p3.push("s.tag = ?"@), b3.push(t)),
        None => (p3, b3),
    }
}

/// The condition and bound values of an administrator's question search.
pub fn question_search_conditions(
    search: &Option<String>,
    modul: &Option<String>,
    pelajaran: &Option<String>,
    tag: &Option<String>,
) -> (r: SearchConditions)
    ensures
        ({
            let (parts, binds) = question_search_parts(
                match search {
                    Some(s) => Some(s@),
                    None => None,
                },
                match modul {
                    Some(s) => Some(s@),
                    None => None,
                },
                match pelajaran {
                    Some(s) => Some(s@),
                    None => None,
                },
                match tag {
                    Some(s) => Some(s@),
                    None => None,
                },
            );
            r.where_clause@ == join_and(parts) && r.binds@.map_values(|b: String| b@) == binds
        }),
{
    let mut b = ConditionBuilder::new();
    let ghost p0 = b.parts();
    let ghost v0 = b.bound();
    if let Some(t) = search {
        if chars_of(t.as_str()).len() > 0 {
            let mut pat = chars_of("%");
            push_str(&mut pat, t.as_str());
            push_str(&mut pat, "%");
            let vals = vec![string_from_chars(pat.as_slice())];
            assert(vals@.map_values(|x: String| x@) =~= seq!["%"@ + t@ + "%"@]);
            b.add("s.soal LIKE ?", vals);
            assert(b.bound() =~= v0.push("%"@ + t@ + "%"@));
        }
    }
    let ghost p1 = b.parts();
    let ghost v1 = b.bound();
    if let Some(t) = modul {
        let vals = vec![t.clone()];
        assert(vals@.map_values(|x: String| x@) =~= seq![t@]);
        b.add("s.modul = ?", vals);
        assert(b.bound() =~= v1.push(t@));
    }
    let ghost p2 = b.parts();
    let ghost v2 = b.bound();
    if let Some(t) = pelajaran {
        let vals = vec![t.clone()];
        assert(vals@.map_values(|x: String| x@) =~= seq![t@]);
        b.add("s.pelajaran = ?", vals);
        assert(b.bound() =~= v2.push(t@));
    }
    let ghost p3 = b.parts();
    let ghost v3 = b.bound();
    if let Some(t) = tag {
        let vals = vec![t.clone()];
        assert(vals@.map_values(|x: String| x@) =~= seq![t@]);
        b.add("s.tag = ?", vals);
        assert(b.bound() =~= v3.push(t@));
    }
    proof {
        let sv = match search {
            Some(s) => Some(s@),
            None => None::<Seq<char>>,
        };
        let mv = match modul {
            Some(s) => Some(s@),
            None => None::<Seq<char>>,
        };
        let pv = match pelajaran {
            Some(s) => Some(s@),
            None => None::<Seq<char>>,
        };
        let tv = match tag {
            Some(s) => Some(s@),
            None => None::<Seq<char>>,
        };
        assert((b.parts(), b.bound()) == question_search_parts(sv, mv, pv, tv));
    }
    b.finish()
}

} // verus!
