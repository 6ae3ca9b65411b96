//! The search of questions by text, module and subject.
use vstd::prelude::*;
use crate::text::{chars_of, push_all, push_str, string_from_chars, trim, trim_spec};

verus! {

/// The conditions of a question search, and the values bound to their
/// placeholders in order.
#[derive(Debug)]
pub struct SearchConditions {
    pub where_clause: String,
    pub binds: Vec<String>,
}

/// The parts of a search's condition: always `1=1`; a text (trimmed, when
/// not empty) matched anywhere in the question or its solution; a module and
/// a subject (trimmed, when not empty) matched exactly.
pub open spec fn search_parts(
    q: Option<Seq<char>>,
    modul: Option<Seq<char>>,
    pelajaran: Option<Seq<char>>,
) -> (Seq<Seq<char>>, Seq<Seq<char>>) {
    let p0: Seq<Seq<char>> = seq!["1=1"@];
    let b0: Seq<Seq<char>> = seq![];
    let (p1, b1) = match q {
        Some(t) if trim_spec(t).len() > 0 => (
            p0.push("(s.soal LIKE ? OR s.solution LIKE ?)"@),
            b0.push("%"@ + trim_spec(t) + "%"@).push("%"@ + trim_spec(t) + "%"@),
        ),
        _ => (p0, b0),
    };
    let (p2, b2) = match modul {
        Some(t) if trim_spec(t).len() > 0 => (p1.push("s.modul = ?"@), b1.push(trim_spec(t))),
        _ => (p1, b1),
    };
    match pelajaran {
        Some(t) if trim_spec(t).len() > 0 => (p2.push("s.pelajaran = ?"@), b2.push(trim_spec(t))),
        _ => (p2, b2),
    }
}

/// Parts joined with ` AND `.
pub open spec fn join_and(parts: Seq<Seq<char>>) -> Seq<char>
    decreases parts.len(),
{
    if parts.len() == 0 {
        seq![]
    } else if parts.len() == 1 {
        parts[0]
    } else {
        join_and(parts.drop_last()) + " AND "@ + parts.last()
    }
}

/// The condition and bound values of a question search.
pub fn search_conditions(q: &Option<String>, modul: &Option<String>, pelajaran: &Option<String>) -> (r:
    SearchConditions)
    ensures
        ({
            let (parts, binds) = search_parts(
                match q {
                    Some(s) => Some(s@),
                    None => None,
                },
                match modul {
                    Some(s) => Some(s@),
                    None => None,
                },
                match pelajaran {
                    Some(s) => Some(s@),
                    None => None,
                },
            );
            r.where_clause@ == join_and(parts) && r.binds@.map_values(|b: String| b@) == binds
        }),
{
    let mut clause = chars_of("1=1");
    let mut binds: Vec<String> = Vec::new();
    let ghost qv = match q {
        Some(s) => Some(s@),
        None => None::<Seq<char>>,
    };
    let ghost mv = match modul {
        Some(s) => Some(s@),
        None => None::<Seq<char>>,
    };
    let ghost pv = match pelajaran {
        Some(s) => Some(s@),
        None => None::<Seq<char>>,
    };
    let ghost mut p: Seq<Seq<char>> = seq!["1=1"@];
    let ghost mut b: Seq<Seq<char>> = seq![];
    proof {
        assert(binds@.map_values(|x: String| x@) =~= b);
        assert(clause@ == join_and(p));
    }
    if let Some(t) = q {
        let tr = trim(chars_of(t.as_str()).as_slice());
        if tr.len() > 0 {
            let ghost c0 = clause@;
            push_str(&mut clause, " AND ");
            push_str(&mut clause, "(s.soal LIKE ? OR s.solution LIKE ?)");
            let mut pat = chars_of("%");
            push_all(&mut pat, tr.as_slice());
            push_str(&mut pat, "%");
            let ghost before = binds@;
            binds.push(string_from_chars(pat.as_slice()));
            binds.push(string_from_chars(pat.as_slice()));
            proof {
                let np = p.push("(s.soal LIKE ? OR s.solution LIKE ?)"@);
                assert(np.drop_last() =~= p);
                assert(clause@ =~= c0 + " AND "@ + "(s.soal LIKE ? OR s.solution LIKE ?)"@);
                assert(join_and(np) == join_and(p) + " AND "@ + np.last());
                p = np;
                assert(clause@ == join_and(p));
                assert(binds@.map_values(|x: String| x@) =~= b.push("%"@ + tr@ + "%"@).push(
                    "%"@ + tr@ + "%"@,
                ));
                b = b.push("%"@ + tr@ + "%"@).push("%"@ + tr@ + "%"@);
            }
        }
    }
    let ghost p1 = p;
    let ghost b1 = b;
    proof {
        let p0: Seq<Seq<char>> = seq!["1=1"@];
        let b0: Seq<Seq<char>> = seq![];
        assert((p1, b1) == match qv {
            Some(t) => if trim_spec(t).len() > 0 {
                (
                    p0.push("(s.soal LIKE ? OR s.solution LIKE ?)"@),
                    b0.push("%"@ + trim_spec(t) + "%"@).push("%"@ + trim_spec(t) + "%"@),
                )
            } else {
                (p0, b0)
            },
            None => (p0, b0),
        });
    }
    if let Some(t) = modul {
        let tr = trim(chars_of(t.as_str()).as_slice());
        if tr.len() > 0 {
            let ghost c0 = clause@;
            push_str(&mut clause, " AND ");
            push_str(&mut clause, "s.modul = ?");
            let ghost before = binds@;
            binds.push(string_from_chars(tr.as_slice()));
            proof {
                let np = p.push("s.modul = ?"@);
                assert(np.drop_last() =~= p);
                assert(clause@ =~= c0 + " AND "@ + "s.modul = ?"@);
                assert(join_and(np) == join_and(p) + " AND "@ + np.last());
                p = np;
                assert(clause@ == join_and(p));
                assert(binds@.map_values(|x: String| x@) =~= b.push(tr@));
                b = b.push(tr@);
            }
        }
    }
    let ghost p2 = p;
    let ghost b2 = b;
    proof {
        assert((p2, b2) == match mv {
            Some(t) => if trim_spec(t).len() > 0 {
                (p1.push("s.modul = ?"@), b1.push(trim_spec(t)))
            } else {
                (p1, b1)
            },
            None => (p1, b1),
        });
    }
    if let Some(t) = pelajaran {
        let tr = trim(chars_of(t.as_str()).as_slice());
        if tr.len() > 0 {
            let ghost c0 = clause@;
            push_str(&mut clause, " AND ");
            push_str(&mut clause, "s.pelajaran = ?");
            let ghost before = binds@;
            binds.push(string_from_chars(tr.as_slice()));
            proof {
                let np = p.push("s.pelajaran = ?"@);
                assert(np.drop_last() =~= p);
                assert(clause@ =~= c0 + " AND "@ + "s.pelajaran = ?"@);
                assert(join_and(np) == join_and(p) + " AND "@ + np.last());
                p = np;
                assert(clause@ == join_and(p));
                assert(binds@.map_values(|x: String| x@) =~= b.push(tr@));
                b = b.push(tr@);
            }
        }
    }
    proof {
        assert((p, b) == match pv {
            Some(t) => if trim_spec(t).len() > 0 {
                (p2.push("s.pelajaran = ?"@), b2.push(trim_spec(t)))
            } else {
                (p2, b2)
            },
            None => (p2, b2),
        });
        assert((p, b) == search_parts(qv, mv, pv));
        assert(clause@ == join_and(p));
        assert(binds@.map_values(|x: String| x@) == b);
    }
    SearchConditions { where_clause: string_from_chars(clause.as_slice()), binds }
}


/// A condition being assembled: its parts joined with ` AND ` and the values
/// bound to their placeholders.
pub struct ConditionBuilder {
    clause: Vec<char>,
    binds: Vec<String>,
    parts: Ghost<Seq<Seq<char>>>,
}

impl ConditionBuilder {
    /// The builder's text is its parts joined.
    pub closed spec fn wf(&self) -> bool {
        self.clause@ == join_and(self.parts@) && self.parts@.len() > 0
    }

    /// The parts so far.
    pub closed spec fn parts(&self) -> Seq<Seq<char>> {
        self.parts@
    }

    /// The values bound so far.
    pub closed spec fn bound(&self) -> Seq<Seq<char>> {
        self.binds@.map_values(|b: String| b@)
    }

    /// A condition that holds always (`1=1`).
    pub fn new() -> (r: Self)
        ensures
            r.wf(),
            r.parts() == seq!["1=1"@],
            r.bound() == Seq::<Seq<char>>::empty(),
    {
        let ghost first: Seq<Seq<char>> = seq!["1=1"@];
        let r = ConditionBuilder { clause: chars_of("1=1"), binds: Vec::new(), parts: Ghost(first) };
        assert(r.binds@.map_values(|b: String| b@) =~= Seq::<Seq<char>>::empty());
        r
    }

    /// Adds a part and the values it binds.
    pub fn add(&mut self, part: &str, values: Vec<String>)
        requires
            old(self).wf(),
        ensures
            final(self).wf(),
            final(self).parts() == old(self).parts().push(part@),
            final(self).bound() == old(self).bound() + values@.map_values(|b: String| b@),
    {
        let ghost np = self.parts@.push(part@);
        proof {
            assert(np.drop_last() =~= self.parts@);
        }
        let ghost c0 = self.clause@;
        push_str(&mut self.clause, " AND ");
        push_str(&mut self.clause, part);
        assert(self.clause@ =~= c0 + " AND "@ + part@);
        self.parts = Ghost(np);
        let ghost b0 = self.binds@;
        assert(values@.take(0).map_values(|b: String| b@) =~= Seq::<Seq<char>>::empty());
        assert(b0.map_values(|b: String| b@) + Seq::<Seq<char>>::empty() =~= b0.map_values(
            |b: String| b@,
        ));
        let mut i: usize = 0;
        while i < values.len()
            invariant
                i <= values@.len(),
                self.clause@ == join_and(np),
                self.parts@ == np,
                self.binds@.map_values(|b: String| b@) == b0.map_values(|b: String| b@)
                    + values@.take(i as int).map_values(|b: String| b@),
            decreases values@.len() - i,
        {
            let ghost before = self.binds@;
            self.binds.push(values[i].clone());
            proof {
                assert(values@.take(i + 1).map_values(|b: String| b@) =~= values@.take(
                    i as int,
                ).map_values(|b: String| b@).push(values@[i as int]@));
                assert(self.binds@.map_values(|b: String| b@) =~= before.map_values(|b: String| b@).push(
                    values@[i as int]@,
                ));
                assert(self.binds@.map_values(|b: String| b@) =~= b0.map_values(|b: String| b@)
                    + values@.take(i + 1).map_values(|b: String| b@));
            }
            i = i + 1;
        }
        assert(values@.take(values@.len() as int) =~= values@);
    }

    /// The finished condition and its bound values.
    pub fn finish(self) -> (r: SearchConditions)
        requires
            self.wf(),
        ensures
            r.where_clause@ == join_and(self.parts()),
            r.binds@.map_values(|b: String| b@) == self.bound(),
    {
        SearchConditions { where_clause: string_from_chars(self.clause.as_slice()), binds: self.binds }
    }
}

} // verus!
